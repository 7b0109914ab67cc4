use dumpo::dump::{build_dump_bytes, looks_binary, FileInput};
use dumpo::enumerate::{collect_files_sorted, Entry};
use dumpo::selector::Selector;

fn sel_all() -> Selector {
    Selector::new(&Vec::new(), &Vec::new()).unwrap()
}

fn entries_of(files: &[(&str, &[u8])]) -> Vec<Entry> {
    files
        .iter()
        .map(|(rel, _)| Entry {
            rel: rel.as_bytes().to_vec(),
            abs: format!("/repo/{}", rel).into_bytes(),
        })
        .collect()
}

fn pack_str(
    files: &[(&str, &[u8])],
    max_file_bytes: usize,
    max_total_bytes: usize,
    include_hidden: bool,
) -> String {
    let selector = sel_all();
    let entries = entries_of(files);
    let kept = collect_files_sorted(&entries, include_hidden, &selector);
    let inputs: Vec<FileInput> = kept
        .iter()
        .map(|e| {
            let content = files
                .iter()
                .find(|(rel, _)| rel.as_bytes() == e.rel.as_slice())
                .map(|(_, c)| c.to_vec())
                .unwrap();
            FileInput { rel: e.rel.clone(), abs: e.abs.clone(), content }
        })
        .collect();
    let out = build_dump_bytes(b"/repo", &inputs, max_file_bytes, max_total_bytes);
    String::from_utf8(out).unwrap()
}

#[test]
fn collect_files_sorted_skips_pruned_dirs() {
    let files: &[(&str, &[u8])] = &[
        ("target/keep.rs", b"nope"),
        (".git/config", b"nope"),
        ("node_modules/x.js", b"nope"),
        ("src/lib.rs", b"yes"),
    ];
    let entries = entries_of(files);
    let selector = sel_all();

    let got: Vec<Vec<u8>> = collect_files_sorted(&entries, true, &selector)
        .into_iter()
        .map(|e| e.rel)
        .collect();

    assert_eq!(got, vec![b"src/lib.rs".to_vec()]);
}

#[test]
fn main_build_dump_bytes_enforces_max_file_bytes_truncation() {
    let long = "a".repeat(1_000);
    let files: &[(&str, &[u8])] = &[("src/lib.rs", long.as_bytes())];

    let s = pack_str(files, 50, 10_000, true);

    assert!(s.contains("## src/lib.rs"));
    assert!(s.contains("(file truncated)"));
    assert!(!s.contains(&long));
}

#[test]
fn main_build_dump_bytes_enforces_max_total_bytes_truncation_marker() {
    let a = "a".repeat(2_000);
    let b = "b".repeat(2_000);
    let c = "c".repeat(2_000);
    let files: &[(&str, &[u8])] =
        &[("a.rs", a.as_bytes()), ("b.rs", b.as_bytes()), ("c.rs", c.as_bytes())];

    let s = pack_str(files, 2_000, 1_200, true);

    assert!(s.contains("... (truncated: max_total_bytes reached)"));
}

#[test]
fn main_looks_binary_detects_nul_byte() {
    assert!(looks_binary(b"abc\0def"));
    assert!(!looks_binary(b"abcdef"));
}

#[test]
fn main_collect_files_sorted_is_deterministic_and_lexicographic() {
    let files: &[(&str, &[u8])] =
        &[("z.rs", b"z"), ("a.rs", b"a"), ("dir/c.rs", b"c"), ("dir/b.rs", b"b")];
    let entries = entries_of(files);
    let selector = sel_all();

    let got1: Vec<Vec<u8>> = collect_files_sorted(&entries, true, &selector)
        .into_iter()
        .map(|e| e.rel)
        .collect();
    let got2: Vec<Vec<u8>> = collect_files_sorted(&entries, true, &selector)
        .into_iter()
        .map(|e| e.rel)
        .collect();

    let expected: Vec<Vec<u8>> = vec![
        b"a.rs".to_vec(),
        b"dir/b.rs".to_vec(),
        b"dir/c.rs".to_vec(),
        b"z.rs".to_vec(),
    ];

    assert_eq!(got1, expected);
    assert_eq!(got2, expected);
}
