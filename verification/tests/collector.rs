use gear_publish::{
    artifact_file_name, build_info, catalog, collect_info, current_timestamp, derive_key,
    format_utc_timestamp, size_key_of, str_eq, u64_to_padded_string, u64_to_string,
    version_file_name, version_key_of, InfoMap, Reading,
};

fn absent_readings() -> Vec<Reading> {
    let mut v = Vec::new();
    for _ in 0..catalog().len() {
        v.push(Reading { size_bytes: 0, sidecar: None });
    }
    v
}

fn is_ascii_digit(c: char) -> bool {
    c.is_ascii_digit()
}

fn matches_timestamp_pattern(s: &str) -> bool {
    let cs: Vec<char> = s.chars().collect();
    cs.len() == 20
        && is_ascii_digit(cs[0])
        && is_ascii_digit(cs[1])
        && is_ascii_digit(cs[2])
        && is_ascii_digit(cs[3])
        && cs[4] == '-'
        && is_ascii_digit(cs[5])
        && is_ascii_digit(cs[6])
        && cs[7] == '-'
        && is_ascii_digit(cs[8])
        && is_ascii_digit(cs[9])
        && cs[10] == ' '
        && is_ascii_digit(cs[11])
        && is_ascii_digit(cs[12])
        && cs[13] == ':'
        && is_ascii_digit(cs[14])
        && is_ascii_digit(cs[15])
        && cs[16] == ' '
        && cs[17] == 'U'
        && cs[18] == 'T'
        && cs[19] == 'C'
}

#[test]
fn catalog_has_every_expected_artifact() {
    let cat = catalog();
    assert_eq!(cat.len(), 64);
    assert_eq!(cat[0].0, "gear-nightly-x86_64-unknown-linux-gnu");
    assert_eq!(cat[0].1, "tar.xz");
    assert_eq!(cat[3].0, "gear-nightly-x86_64-pc-windows-msvc");
    assert_eq!(cat[3].1, "zip");
    assert_eq!(cat[63].0, "vara-debug-x86_64-pc-windows-msvc");
    assert_eq!(cat[63].1, "zip");
}

#[test]
fn absent_artifacts_collect_zero_size_and_no_version() {
    let m = build_info(&absent_readings(), "2026-01-02 03:04 UTC");
    for (base, _ext) in catalog() {
        let sk = size_key_of(base);
        let vk = version_key_of(base);
        assert_eq!(m.get(sk.as_str()).unwrap().as_str(), "0");
        assert!(m.get(vk.as_str()).is_none());
        assert!(!m.contains_key(vk.as_str()));
    }
}

#[test]
fn size_is_floor_of_megabytes() {
    let mut readings = absent_readings();
    readings[0].size_bytes = 2_097_152;
    readings[1].size_bytes = 2_097_151;
    readings[2].size_bytes = 3_145_727;
    readings[3].size_bytes = 1_048_575;
    let m = build_info(&readings, "2026-01-02 03:04 UTC");
    let cat = catalog();
    assert_eq!(m.get(size_key_of(cat[0].0).as_str()).unwrap().as_str(), "2");
    assert_eq!(m.get(size_key_of(cat[1].0).as_str()).unwrap().as_str(), "1");
    assert_eq!(m.get(size_key_of(cat[2].0).as_str()).unwrap().as_str(), "2");
    assert_eq!(m.get(size_key_of(cat[3].0).as_str()).unwrap().as_str(), "0");
}

#[test]
fn sidecar_version_is_trimmed_and_wrapped() {
    let mut readings = absent_readings();
    readings[5].sidecar = Some(String::from("  1.2.3  \n"));
    let m = build_info(&readings, "2026-01-02 03:04 UTC");
    let vk = version_key_of(catalog()[5].0);
    assert_eq!(m.get(vk.as_str()).unwrap().as_str(), " (1.2.3)");
}

#[test]
fn blank_sidecar_inserts_no_version_key() {
    let mut readings = absent_readings();
    readings[6].sidecar = Some(String::from("   \t\n  "));
    readings[7].sidecar = Some(String::from(""));
    let m = build_info(&readings, "2026-01-02 03:04 UTC");
    let cat = catalog();
    assert!(m.get(version_key_of(cat[6].0).as_str()).is_none());
    assert!(m.get(version_key_of(cat[7].0).as_str()).is_none());
}

#[test]
fn now_key_is_present_and_matches_pattern() {
    let m = collect_info(&absent_readings());
    let now = m.get("now").unwrap();
    assert!(matches_timestamp_pattern(now.as_str()));
}

#[test]
fn current_timestamp_matches_pattern() {
    let ts = current_timestamp();
    assert!(matches_timestamp_pattern(ts.as_str()));
}

#[test]
fn rerun_with_unchanged_readings_differs_only_in_now() {
    let readings = {
        let mut r = absent_readings();
        r[2].size_bytes = 5_000_000;
        r[2].sidecar = Some(String::from("0.9.9"));
        r
    };
    let m1 = build_info(&readings, "2026-01-02 03:04 UTC");
    let m2 = build_info(&readings, "2027-11-12 13:14 UTC");
    for (base, _ext) in catalog() {
        let sk = size_key_of(base);
        let vk = version_key_of(base);
        assert_eq!(m1.get(sk.as_str()), m2.get(sk.as_str()));
        assert_eq!(m1.get(vk.as_str()), m2.get(vk.as_str()));
    }
    assert_eq!(m1.get("now").unwrap().as_str(), "2026-01-02 03:04 UTC");
    assert_eq!(m2.get("now").unwrap().as_str(), "2027-11-12 13:14 UTC");
}

#[test]
fn key_derivation_replaces_dots_before_suffix() {
    assert_eq!(derive_key("a.b.c").as_str(), "a-b-c");
    assert_eq!(derive_key("no-dots-here").as_str(), "no-dots-here");
    assert_eq!(
        size_key_of("gear-v0.3.2-x86_64-unknown-linux-gnu").as_str(),
        "gear-v0-3-2-x86_64-unknown-linux-gnu-size"
    );
    assert_eq!(
        version_key_of("gear-v0.3.2-x86_64-unknown-linux-gnu").as_str(),
        "gear-v0-3-2-x86_64-unknown-linux-gnu-version"
    );
}

#[test]
fn file_names_are_built_from_base_and_extension() {
    assert_eq!(
        artifact_file_name("gear-v0.3.2-x86_64-unknown-linux-gnu", "tar.xz").as_str(),
        "gear-v0.3.2-x86_64-unknown-linux-gnu.tar.xz"
    );
    assert_eq!(
        version_file_name("gear-v0.3.2-x86_64-unknown-linux-gnu").as_str(),
        "gear-v0.3.2-x86_64-unknown-linux-gnu-version.txt"
    );
}

#[test]
fn info_map_later_insert_wins() {
    let mut m = InfoMap::new();
    assert!(m.get("k").is_none());
    m.insert(String::from("k"), String::from("first"));
    m.insert(String::from("k"), String::from("second"));
    m.insert(String::from("other"), String::from("x"));
    assert_eq!(m.get("k").unwrap().as_str(), "second");
    assert_eq!(m.get("other").unwrap().as_str(), "x");
    assert!(m.get("absent").is_none());
    assert!(m.contains_key("k"));
    assert!(!m.contains_key("absent"));
}

#[test]
fn decimal_rendering_is_exact() {
    assert_eq!(u64_to_string(0).as_str(), "0");
    assert_eq!(u64_to_string(7).as_str(), "7");
    assert_eq!(u64_to_string(1048576).as_str(), "1048576");
    assert_eq!(u64_to_string(u64::MAX).as_str(), "18446744073709551615");
    assert_eq!(u64_to_padded_string(7, 4).as_str(), "0007");
    assert_eq!(u64_to_padded_string(12345, 4).as_str(), "12345");
    assert_eq!(u64_to_padded_string(0, 2).as_str(), "00");
}

#[test]
fn timestamp_formatting_pads_every_field() {
    assert_eq!(
        format_utc_timestamp(2026, 3, 7, 9, 5).as_str(),
        "2026-03-07 09:05 UTC"
    );
    assert_eq!(
        format_utc_timestamp(999, 12, 31, 23, 59).as_str(),
        "0999-12-31 23:59 UTC"
    );
}

#[test]
fn str_eq_compares_characters() {
    assert!(str_eq("", ""));
    assert!(str_eq("abc", "abc"));
    assert!(!str_eq("abc", "abd"));
    assert!(!str_eq("abc", "ab"));
}
