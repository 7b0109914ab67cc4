use dumpo::dump::{build_dump_bytes, looks_binary, FileInput};
use dumpo::enumerate::{collect_files_sorted, Entry};
use dumpo::selector::Selector;

fn sel(inc: &[&str], exc: &[&str]) -> Selector {
    let inc: Vec<String> = inc.iter().map(|s| s.to_string()).collect();
    let exc: Vec<String> = exc.iter().map(|s| s.to_string()).collect();
    Selector::new(&inc, &exc).unwrap()
}

fn sel_all() -> Selector {
    sel(&[], &[])
}

fn entries_of(files: &[(&str, &[u8])]) -> Vec<Entry> {
    files
        .iter()
        .map(|(rel, _)| Entry {
            rel: rel.as_bytes().to_vec(),
            abs: format!("/repo/{}", rel).into_bytes(),
        })
        .collect()
}

/// Runs the whole pipeline the way the shell around the library does:
/// enumerate, read (here: look up), render.
fn pack(
    files: &[(&str, &[u8])],
    max_file_bytes: usize,
    max_total_bytes: usize,
    include_hidden: bool,
    selector: &Selector,
) -> Vec<u8> {
    let entries = entries_of(files);
    let kept = collect_files_sorted(&entries, include_hidden, selector);
    let inputs: Vec<FileInput> = kept
        .iter()
        .map(|e| {
            let content = files
                .iter()
                .find(|(rel, _)| rel.as_bytes() == e.rel.as_slice())
                .map(|(_, c)| c.to_vec())
                .unwrap();
            FileInput { rel: e.rel.clone(), abs: e.abs.clone(), content }
        })
        .collect();
    build_dump_bytes(b"/repo", &inputs, max_file_bytes, max_total_bytes)
}

fn pack_str(
    files: &[(&str, &[u8])],
    max_file_bytes: usize,
    max_total_bytes: usize,
    include_hidden: bool,
    selector: &Selector,
) -> String {
    String::from_utf8(pack(files, max_file_bytes, max_total_bytes, include_hidden, selector))
        .unwrap()
}

#[test]
fn dump_collect_files_sorted_is_deterministic_and_lexicographic() {
    let files: &[(&str, &[u8])] =
        &[("z.rs", b"z"), ("a.rs", b"a"), ("dir/c.rs", b"c"), ("dir/b.rs", b"b")];
    let entries = entries_of(files);
    let selector = sel_all();

    let got1: Vec<Vec<u8>> = collect_files_sorted(&entries, true, &selector)
        .into_iter()
        .map(|e| e.rel)
        .collect();
    let got2: Vec<Vec<u8>> = collect_files_sorted(&entries, true, &selector)
        .into_iter()
        .map(|e| e.rel)
        .collect();

    let expected: Vec<Vec<u8>> = vec![
        b"a.rs".to_vec(),
        b"dir/b.rs".to_vec(),
        b"dir/c.rs".to_vec(),
        b"z.rs".to_vec(),
    ];

    assert_eq!(got1, expected);
    assert_eq!(got2, expected);
}

#[test]
fn dump_build_dump_bytes_enforces_max_file_bytes_truncation() {
    let long = "a".repeat(1_000);
    let files: &[(&str, &[u8])] = &[("src/lib.rs", long.as_bytes())];

    let selector = sel_all();
    let s = pack_str(files, 50, 10_000, true, &selector);

    assert!(s.contains("## src/lib.rs"));
    assert!(s.contains("(file truncated)"));
    assert!(!s.contains(&long));
}

#[test]
fn dump_build_dump_bytes_enforces_max_total_bytes_truncation_marker() {
    let a = "a".repeat(2_000);
    let b = "b".repeat(2_000);
    let c = "c".repeat(2_000);
    let files: &[(&str, &[u8])] =
        &[("a.rs", a.as_bytes()), ("b.rs", b.as_bytes()), ("c.rs", c.as_bytes())];

    let selector = sel_all();
    let s = pack_str(files, 2_000, 1_200, true, &selector);

    assert!(s.contains("... (truncated: max_total_bytes reached)"));
}

#[test]
fn build_dump_bytes_is_ordered_and_respects_hidden_flag_end_to_end() {
    let files: &[(&str, &[u8])] = &[
        ("z.rs", b"fn z() {}\n"),
        ("a.rs", b"fn a() {}\n"),
        ("dir/b.rs", b"fn b() {}\n"),
        (".hidden.txt", b"secret-ish but not excluded\n"),
    ];
    let selector = sel_all();

    let s1 = pack_str(files, 10_000, 200_000, false, &selector);

    let a_idx = s1.find("## a.rs").unwrap();
    let b_idx = s1.find("## dir/b.rs").unwrap();
    let z_idx = s1.find("## z.rs").unwrap();

    assert!(a_idx < b_idx);
    assert!(b_idx < z_idx);

    assert!(s1.contains("```rust"));
    assert!(s1.contains("fn a() {}"));
    assert!(s1.contains("fn b() {}"));
    assert!(s1.contains("fn z() {}"));

    assert!(!s1.contains("## .hidden.txt"));
    assert!(!s1.contains("secret-ish but not excluded"));

    let s2 = pack_str(files, 10_000, 200_000, true, &selector);

    assert!(s2.contains("## .hidden.txt"));
    assert!(s2.contains("secret-ish but not excluded"));
    assert!(s2.contains("```"));
}

#[test]
fn dump_looks_binary_detects_nul_byte() {
    assert!(looks_binary(b"abc\0def"));
    assert!(!looks_binary(b"abcdef"));
}

#[test]
fn build_dump_bytes_never_exceeds_max_total_bytes() {
    let a = "a".repeat(50_000);
    let b = "b".repeat(50_000);
    let files: &[(&str, &[u8])] = &[("a.rs", a.as_bytes()), ("b.rs", b.as_bytes())];

    let selector = sel_all();
    let max_total = 1_200;
    let out = pack(files, 50_000, max_total, true, &selector);

    assert!(out.len() <= max_total);
}

#[test]
fn build_dump_bytes_truncation_footer_is_appended_and_within_budget() {
    let a = "a".repeat(50_000);
    let files: &[(&str, &[u8])] = &[("a.rs", a.as_bytes())];

    let selector = sel_all();
    let max_total = 500;
    let out = pack(files, 50_000, max_total, true, &selector);

    assert!(out.len() <= max_total);

    let s = String::from_utf8(out).unwrap();
    assert!(s.contains("... (truncated: max_total_bytes reached)"));
}

#[test]
fn build_dump_bytes_respects_include_globs() {
    let files: &[(&str, &[u8])] = &[("src/lib.rs", b"x\n"), ("README.md", b"y\n")];

    let selector = sel(&["src/**"], &[]);
    let s = pack_str(files, 10_000, 200_000, true, &selector);

    assert!(s.contains("## src/lib.rs"));
    assert!(!s.contains("## README.md"));
}

#[test]
fn build_dump_bytes_exclude_overrides_include() {
    let files: &[(&str, &[u8])] = &[("src/lib.rs", b"x\n"), ("src/secret.rs", b"y\n")];

    let selector = sel(&["src/**"], &["**/secret.rs"]);
    let s = pack_str(files, 10_000, 200_000, true, &selector);

    assert!(s.contains("## src/lib.rs"));
    assert!(!s.contains("## src/secret.rs"));
}

#[test]
fn selector_cannot_include_secrets() {
    let files: &[(&str, &[u8])] = &[(".env", b"SECRET=1\n")];

    let selector = sel(&[".env"], &[]);
    let s = pack_str(files, 10_000, 200_000, true, &selector);

    assert!(!s.contains("## .env"));
    assert!(!s.contains("SECRET=1"));
}

#[test]
fn build_dump_bytes_respects_exclude_globs_without_includes() {
    let files: &[(&str, &[u8])] = &[("src/lib.rs", b"x\n"), ("README.md", b"y\n")];

    let selector = sel(&[], &["README.md"]);
    let s = pack_str(files, 10_000, 200_000, true, &selector);

    assert!(s.contains("## src/lib.rs"));
    assert!(!s.contains("## README.md"));
}
