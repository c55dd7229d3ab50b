use battlebit_status::config::Static;
use battlebit_status::directory::strip_leading_bom;
use battlebit_status::gamemode::gamemode_abbr;
use battlebit_status::layout::{layout_px, overlay_layout};
use battlebit_status::liveness::liveness_reply;
use battlebit_status::mapname::strip_variant_prefix;
use battlebit_status::text::{i64_to_dec, str_eq, u64_to_dec};

#[test]
fn decimal_zero() {
    assert_eq!(u64_to_dec(0), "0");
    assert_eq!(i64_to_dec(0), "0");
}

#[test]
fn decimal_positive() {
    assert_eq!(u64_to_dec(7), "7");
    assert_eq!(u64_to_dec(1234), "1234");
    assert_eq!(u64_to_dec(u64::MAX), "18446744073709551615");
}

#[test]
fn decimal_negative() {
    assert_eq!(i64_to_dec(-56), "-56");
    assert_eq!(i64_to_dec(i64::MIN), "-9223372036854775808");
}

#[test]
fn str_eq_exact() {
    assert!(str_eq("CONQ", "CONQ"));
    assert!(!str_eq("CONQ", "conq"));
    assert!(!str_eq("CONQ", "CON"));
    assert!(str_eq("", ""));
}

#[test]
fn strip_prefix_variant() {
    assert_eq!(strip_variant_prefix("Old_Cobalt"), "Cobalt");
}

#[test]
fn strip_prefix_plain_name_unchanged() {
    assert_eq!(strip_variant_prefix("Cobalt"), "Cobalt");
    assert_eq!(strip_variant_prefix(""), "");
    assert_eq!(strip_variant_prefix("Wakistan_Old"), "Wakistan_Old");
    assert_eq!(strip_variant_prefix("Sandy_Old_Sunset"), "Sandy_Old_Sunset");
}

#[test]
fn strip_prefix_idempotent() {
    let once = strip_variant_prefix("Old_Old_Namak");
    assert_eq!(once, "Namak");
    assert_eq!(strip_variant_prefix(&once), once);
}

#[test]
fn gamemode_table() {
    let table = vec![
        ("CONQ", "CQ"),
        ("FRONTLINE", "FL"),
        ("RUSH", "RS"),
        ("DOMI", "DM"),
        ("TDM", "TDM"),
        ("INFCONQ", "IQ"),
        ("GunGameFFA", "GGF"),
        ("FFA", "FFA"),
        ("GunGameTeam)", "GGT"),
        ("ELI", "ELI"),
    ];
    for (mode, code) in table {
        assert_eq!(gamemode_abbr(mode), code);
    }
}

#[test]
fn gamemode_unknown_is_empty() {
    assert_eq!(gamemode_abbr("UNKNOWN"), "");
    assert_eq!(gamemode_abbr(""), "");
    assert_eq!(gamemode_abbr("GunGameTeam"), "");
}

#[test]
fn layout_exact_values() {
    let l = overlay_layout(350, 170);
    assert_eq!(l.scale_x_num, 350);
    assert_eq!(l.scale_y_num, 1700);
    assert_eq!(l.anchor_x_num, 700);
    assert_eq!(l.anchor_y_num, 170);
    assert_eq!(layout_px(&l), (116, 100, 100, 28));
}

#[test]
fn layout_doubles_with_dimensions() {
    let l = overlay_layout(1280, 720);
    let d = overlay_layout(2560, 1440);
    assert_eq!(d.scale_x_num, 2 * l.scale_x_num);
    assert_eq!(d.scale_y_num, 2 * l.scale_y_num);
    assert_eq!(d.anchor_x_num, 2 * l.anchor_x_num);
    assert_eq!(d.anchor_y_num, 2 * l.anchor_y_num);
}

#[test]
fn liveness_fresh_at_threshold() {
    let r = liveness_reply(5, 0);
    assert_eq!(r.staleness_minutes, 5);
    assert_eq!(r.status, 200);
    assert_eq!(r.body, "5");
}

#[test]
fn liveness_stale_past_threshold() {
    let r = liveness_reply(6, 0);
    assert_eq!(r.staleness_minutes, 6);
    assert_eq!(r.status, 503);
    assert_eq!(r.body, "6");
}

#[test]
fn liveness_clock_skew_negative() {
    let r = liveness_reply(3, 5);
    assert_eq!(r.staleness_minutes, -2);
    assert_eq!(r.status, 200);
    assert_eq!(r.body, "-2");
}

#[test]
fn bom_stripped_from_body() {
    assert_eq!(strip_leading_bom("\u{feff}[{\"Name\":\"Foo\"}]"), "[{\"Name\":\"Foo\"}]");
}

#[test]
fn clean_body_unchanged() {
    assert_eq!(strip_leading_bom("[{\"Name\":\"Foo\"}]"), "[{\"Name\":\"Foo\"}]");
    assert_eq!(strip_leading_bom(""), "");
}

#[test]
fn default_config() {
    let c = Static::default();
    assert_eq!(c.token, "");
    assert_eq!(c.server_name, "");
    assert!(c.set_banner_image);
}
