use c60::key::{make_key, parse_origin};

#[test]
fn key_is_origin_separator_and_sixteen_digits() {
    assert_eq!(make_key("tetra", 0x1a2b), "tetra_0000000000001a2b");
    assert_eq!(make_key("cube_center", 0), "cube_center_0000000000000000");
}

#[test]
fn key_grows_past_sixteen_digits() {
    assert_eq!(make_key("pin", u128::MAX), format!("pin_{}", "f".repeat(32)));
    assert_eq!(make_key("pin", 1u128 << 64), "pin_10000000000000000");
}

#[test]
fn origin_comes_back() {
    assert_eq!(parse_origin("tetra_0000000000001a2b"), Some("tetra".to_string()));
    assert_eq!(parse_origin(&make_key("r_sphere", 77)), Some("r_sphere".to_string()));
    assert_eq!(parse_origin(&make_key("dodecahedron_center", 12345678901234567890)), Some("dodecahedron_center".to_string()));
}

#[test]
fn what_is_no_key_has_no_origin() {
    assert_eq!(parse_origin(""), None);
    assert_eq!(parse_origin("tetra"), None);
    assert_eq!(parse_origin("box_small"), None);
    assert_eq!(parse_origin("composite_0"), None);
    assert_eq!(parse_origin("ball_0000000A"), None);
    assert_eq!(parse_origin("tetra_000000000000001"), None);
    assert_eq!(parse_origin("_0000000000000001"), None);
    assert_eq!(parse_origin("tetra_000000000000000G"), None);
    assert_eq!(parse_origin("tetra_000000000000000A"), None);
    assert_eq!(parse_origin("te tra_0000000000000001"), None);
    assert_eq!(parse_origin("tetra_0000000000000001_"), None);
}

#[test]
fn keys_of_distinct_times_differ() {
    let a = make_key("octa", 1000);
    let b = make_key("octa", 1001);
    assert_ne!(a, b);
    assert_eq!(parse_origin(&a), Some("octa".to_string()));
    assert_eq!(parse_origin(&b), Some("octa".to_string()));
}
