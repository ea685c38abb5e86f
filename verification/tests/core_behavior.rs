use statusline::context::ContextWindow;
use statusline::context::rounded_percent;
use statusline::cost::Cost;
use statusline::cost::price_color;
use statusline::model::Model;
use statusline::numfmt::i64_string;
use statusline::numfmt::u64_string;
use statusline::paths::dir_basename;
use statusline::paths::path_join;
use statusline::paths::shorten_path;

#[test]
fn model_name_prefers_display_name() {
    let m = Model {
        display_name: "Iris 4.5".into(),
        id: "iris-mini".into(),
    };
    assert_eq!(m.name(), "Iris 4.5");
}

#[test]
fn model_name_falls_back_to_id() {
    let m = Model {
        display_name: String::new(),
        id: "iris-mini".into(),
    };
    assert_eq!(m.name(), "iris-mini");
}

#[test]
fn model_name_fallback_to_question_mark() {
    let m = Model::default();
    assert_eq!(m.name(), "?");
}

#[test]
fn context_stats_uses_provided_size() {
    let ctx = ContextWindow {
        context_window_size: 100_000,
        used_ppm: 500_000,
    };
    let (used_k, max_k, ppm) = ctx.stats();
    assert_eq!(max_k, 100);
    assert_eq!(used_k, 50);
    assert_eq!(ppm, 500_000);
}

#[test]
fn context_stats_uses_default_when_zero() {
    let ctx = ContextWindow {
        context_window_size: 0,
        used_ppm: 100_000,
    };
    let (_, max_k, _) = ctx.stats();
    assert_eq!(max_k, 200);
}

#[test]
fn context_stats_two_stage_rounding() {
    // 1% of 149_499 tokens is 1_494.99 tokens: rounded to 1_495 tokens,
    // then to 1k; rounding only once (at either stage) would give another
    // figure at the boundary below.
    let ctx = ContextWindow {
        context_window_size: 149_900,
        used_ppm: 10_000,
    };
    let (used_k, max_k, _) = ctx.stats();
    assert_eq!(used_k, 1);
    assert_eq!(max_k, 150);
    // 0.033% of 200_000 is 66 tokens, which rounds to 0k.
    let small = ContextWindow {
        context_window_size: 0,
        used_ppm: 330,
    };
    let (used_k2, _, _) = small.stats();
    assert_eq!(used_k2, 0);
}

#[test]
fn context_stats_negative_usage_gives_zero() {
    let ctx = ContextWindow {
        context_window_size: 100_000,
        used_ppm: -500_000,
    };
    let (used_k, max_k, ppm) = ctx.stats();
    assert_eq!(used_k, 0);
    assert_eq!(max_k, 100);
    assert_eq!(ppm, -500_000);
}

#[test]
fn rounded_percent_half_to_even() {
    assert_eq!(rounded_percent(500_000), 50);
    assert_eq!(rounded_percent(505_000), 50);
    assert_eq!(rounded_percent(515_000), 52);
    assert_eq!(rounded_percent(123_456), 12);
    assert_eq!(rounded_percent(0), 0);
    assert_eq!(rounded_percent(-5_000), 0);
    assert_eq!(rounded_percent(-15_000), -2);
}

#[test]
fn cost_rounds_to_nearest_dollar() {
    assert_eq!(Cost { total_micro_usd: 4_600_000 }.rounded(), 5);
    assert_eq!(Cost { total_micro_usd: 0 }.rounded(), 0);
    assert_eq!(Cost { total_micro_usd: 4_499_999 }.rounded(), 4);
    assert_eq!(Cost { total_micro_usd: 4_500_000 }.rounded(), 5);
}

#[test]
fn price_color_tiers() {
    assert_eq!(price_color(0), (158, 206, 106));
    assert_eq!(price_color(5), (158, 206, 106));
    assert_eq!(price_color(6), (224, 175, 104));
    assert_eq!(price_color(20), (224, 175, 104));
    assert_eq!(price_color(21), (255, 158, 100));
    // Anything at or below five dollars is in the low tier.
    assert_eq!(price_color(-1), (158, 206, 106));
}

#[test]
fn dir_basename_extracts_last_component() {
    assert_eq!(dir_basename("/foo/bar/project"), "project".to_string());
    assert_eq!(dir_basename("/single"), "single".to_string());
    assert_eq!(dir_basename("relative/path"), "path".to_string());
}

#[test]
fn dir_basename_handles_empty() {
    assert_eq!(dir_basename(""), "?".to_string());
}

#[test]
fn dir_basename_edge_components() {
    assert_eq!(dir_basename("/"), "?".to_string());
    assert_eq!(dir_basename("//"), "?".to_string());
    assert_eq!(dir_basename("foo/"), "foo".to_string());
    assert_eq!(dir_basename("foo/."), "foo".to_string());
    assert_eq!(dir_basename("."), "?".to_string());
    assert_eq!(dir_basename(".."), "?".to_string());
    assert_eq!(dir_basename("foo/.."), "?".to_string());
    assert_eq!(dir_basename("foo/../bar"), "bar".to_string());
}

#[test]
fn shorten_path_replaces_home_prefix() {
    assert_eq!(
        shorten_path("/home/alice/proj", Some("/home/alice")),
        "~/proj".to_string()
    );
    assert_eq!(
        shorten_path("/etc/conf", Some("/home/alice")),
        "/etc/conf".to_string()
    );
    assert_eq!(shorten_path("/home/alice/proj", None), "/home/alice/proj".to_string());
}

#[test]
fn path_join_inserts_single_separator() {
    assert_eq!(path_join("", ".git"), ".git".to_string());
    assert_eq!(path_join("/a", ".git"), "/a/.git".to_string());
    assert_eq!(path_join("/a/", "HEAD"), "/a/HEAD".to_string());
}

#[test]
fn number_rendering_is_decimal() {
    assert_eq!(u64_string(0), "0".to_string());
    assert_eq!(u64_string(1_234_567_890), "1234567890".to_string());
    assert_eq!(i64_string(-42), "-42".to_string());
    assert_eq!(i64_string(7), "7".to_string());
}
