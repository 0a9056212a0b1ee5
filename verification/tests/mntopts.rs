use snapresolve::mount::{parse_mntopts, MntTabEnt};

fn ent_with_opts(opts: &str) -> MntTabEnt {
    MntTabEnt::new(
        "pool/data".to_string(),
        "/data".to_string(),
        "zfs".to_string(),
        opts,
        "1700000000".to_string(),
        0x97,
        3,
    )
}

#[test]
fn getopt_finds_value() {
    let e = ent_with_opts("ro,dev=3f2a1,atime");
    assert_eq!(e.getopt("dev"), Some("3f2a1".to_string()));
}

#[test]
fn getopt_valueless_option_never_matches() {
    let e = ent_with_opts("ro,dev=3f2a1");
    assert_eq!(e.getopt("ro"), None);
}

#[test]
fn getopt_returns_first_value() {
    let e = ent_with_opts("a=1,a=2");
    assert_eq!(e.getopt("a"), Some("1".to_string()));
}

#[test]
fn getopt_skips_valueless_duplicate() {
    let e = ent_with_opts("foo,foo=2");
    assert_eq!(e.getopt("foo"), Some("2".to_string()));
}

#[test]
fn getopt_missing_key() {
    let e = ent_with_opts("ro,dev=3f2a1");
    assert_eq!(e.getopt("quota"), None);
}

#[test]
fn getopt_empty_value() {
    let e = ent_with_opts("dev=");
    assert_eq!(e.getopt("dev"), Some(String::new()));
}

#[test]
fn getopt_value_keeps_later_equals_sign() {
    let e = ent_with_opts("dev=a=b");
    assert_eq!(e.getopt("dev"), Some("a=b".to_string()));
}

#[test]
fn parse_splits_keys_and_values() {
    let opts = parse_mntopts("a=1,b,c=x");
    assert_eq!(opts.len(), 3);
    assert_eq!(opts[0].key, "a");
    assert_eq!(opts[0].value, Some("1".to_string()));
    assert_eq!(opts[1].key, "b");
    assert_eq!(opts[1].value, None);
    assert_eq!(opts[2].key, "c");
    assert_eq!(opts[2].value, Some("x".to_string()));
}

#[test]
fn parse_empty_string_is_one_bare_empty_key() {
    let opts = parse_mntopts("");
    assert_eq!(opts.len(), 1);
    assert_eq!(opts[0].key, "");
    assert_eq!(opts[0].value, None);
}

#[test]
fn parse_single_option() {
    let opts = parse_mntopts("dev=3f2a1");
    assert_eq!(opts.len(), 1);
    assert_eq!(opts[0].key, "dev");
    assert_eq!(opts[0].value, Some("3f2a1".to_string()));
}
