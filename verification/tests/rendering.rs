use gear_publish::{
    build_info, catalog, index_template, render, size_key_of, version_key_of, InfoMap, Reading,
};

fn absent_readings() -> Vec<Reading> {
    let mut v = Vec::new();
    for _ in 0..catalog().len() {
        v.push(Reading { size_bytes: 0, sidecar: None });
    }
    v
}

#[test]
fn render_substitutes_bound_variables() {
    let mut m = InfoMap::new();
    m.insert(String::from("k"), String::from("v"));
    let out = render("a{{k}}b", &m).unwrap();
    assert_eq!(out.as_str(), "avb");
}

#[test]
fn render_leaves_missing_variables_empty() {
    let m = InfoMap::new();
    let out = render("a{{missing}}b", &m).unwrap();
    assert_eq!(out.as_str(), "ab");
}

#[test]
fn render_reports_a_broken_template() {
    let m = InfoMap::new();
    assert!(render("{{#if x}}never closed", &m).is_err());
}

#[test]
fn render_handles_hyphenated_keys() {
    let mut m = InfoMap::new();
    m.insert(
        String::from("gear-v0-3-2-x86_64-unknown-linux-gnu-size"),
        String::from("1"),
    );
    let out = render("[{{gear-v0-3-2-x86_64-unknown-linux-gnu-size}}]", &m).unwrap();
    assert_eq!(out.as_str(), "[1]");
}

#[test]
fn render_is_deterministic() {
    let m = build_info(&absent_readings(), "2026-01-02 03:04 UTC");
    let a = render(index_template(), &m).unwrap();
    let b = render(index_template(), &m).unwrap();
    assert_eq!(a, b);
}

#[test]
fn rerun_output_is_identical_except_the_timestamp() {
    let readings = absent_readings();
    let m1 = build_info(&readings, "FIRST-RUN-STAMP");
    let m2 = build_info(&readings, "SECOND-RUN-STAMP");
    let out1 = render(index_template(), &m1).unwrap();
    let out2 = render(index_template(), &m2).unwrap();
    assert_ne!(out1, out2);
    assert_eq!(
        out1.replace("FIRST-RUN-STAMP", "#"),
        out2.replace("SECOND-RUN-STAMP", "#")
    );
}

#[test]
fn end_to_end_single_present_artifact() {
    let present = "gear-v0.3.2-x86_64-unknown-linux-gnu";
    let cat = catalog();
    let mut readings = absent_readings();
    let mut present_at = None;
    for (i, (base, _ext)) in cat.iter().enumerate() {
        if *base == present {
            readings[i].size_bytes = 1_048_576;
            readings[i].sidecar = Some(String::from("0.3.2"));
            present_at = Some(i);
        }
    }
    let at = present_at.unwrap();

    let m = build_info(&readings, "2026-01-02 03:04 UTC");
    assert_eq!(m.get(size_key_of(present).as_str()).unwrap().as_str(), "1");
    assert_eq!(
        m.get(version_key_of(present).as_str()).unwrap().as_str(),
        " (0.3.2)"
    );
    for (i, (base, _ext)) in cat.iter().enumerate() {
        if i != at {
            assert_eq!(m.get(size_key_of(base).as_str()).unwrap().as_str(), "0");
            assert!(m.get(version_key_of(base).as_str()).is_none());
        }
    }

    let html = render(index_template(), &m).unwrap();
    assert!(html.contains(
        ">gear-v0.3.2-x86_64-unknown-linux-gnu.tar.xz</a> (0.3.2) &ndash; 1 MB<"
    ));
    let absent_entries = html.matches("</a> &ndash; 0 MB<").count();
    assert_eq!(absent_entries, 63);
    assert!(html.contains("Updated 2026-01-02 03:04 UTC"));
}
