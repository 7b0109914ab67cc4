use dumpo::clamp::clamp_to_utf8_boundary;
use dumpo::config::{
    find_nearest_config_path, resolve_pack_settings, summarize_patterns, DumpoConfig,
};
use dumpo::dump::{build_dump_bytes, FileInput};
use dumpo::enumerate::{collect_files_sorted, normalize_slashes, Entry};
use dumpo::markup::language_hint;
use dumpo::selector::{PatternFlag, Selector, SelectorError};
use dumpo::writer::Out;

fn one_file(rel: &str, content: &[u8]) -> Vec<FileInput> {
    vec![FileInput {
        rel: rel.as_bytes().to_vec(),
        abs: format!("/repo/{}", rel).into_bytes(),
        content: content.to_vec(),
    }]
}

#[test]
fn whole_document_has_exactly_the_documented_grammar() {
    let files = one_file("a.txt", b"hello");
    let out = build_dump_bytes(b"/repo", &files, 10_000, 10_000);
    let s = String::from_utf8(out).unwrap();
    assert_eq!(s, "# dumpo pack\n- root: /repo\n\n## a.txt\n\n```\nhello\n```\n\n");
}

#[test]
fn rust_file_gets_language_hint_in_fence() {
    let files = one_file("a.rs", b"fn a() {}\n");
    let out = build_dump_bytes(b"/repo", &files, 10_000, 10_000);
    let s = String::from_utf8(out).unwrap();
    assert_eq!(s, "# dumpo pack\n- root: /repo\n\n## a.rs\n\n```rust\nfn a() {}\n```\n\n");
}

#[test]
fn language_hint_lookup_is_exact() {
    assert_eq!(language_hint(b"x.rs"), b"rust".to_vec());
    assert_eq!(language_hint(b"x.toml"), b"toml".to_vec());
    assert_eq!(language_hint(b"x.md"), b"markdown".to_vec());
    assert_eq!(language_hint(b"x.yml"), b"yaml".to_vec());
    assert_eq!(language_hint(b"x.yaml"), b"yaml".to_vec());
    assert_eq!(language_hint(b"x.json"), b"json".to_vec());
    assert_eq!(language_hint(b"x.py"), b"python".to_vec());
    assert_eq!(language_hint(b"x.sh"), b"bash".to_vec());
    assert_eq!(language_hint(b"x.txt"), Vec::<u8>::new());
    assert_eq!(language_hint(b"dir.rs/x"), Vec::<u8>::new());
    assert_eq!(language_hint(b".env"), Vec::<u8>::new());
}

#[test]
fn empty_budget_produces_empty_document() {
    let files = one_file("a.txt", b"hello");
    let out = build_dump_bytes(b"/repo", &files, 10_000, 0);
    assert!(out.is_empty());
}

#[test]
fn budget_below_footer_still_respects_ceiling() {
    let files = one_file("a.txt", b"hello");
    for max_total in 0..60 {
        let out = build_dump_bytes(b"/repo", &files, 10_000, max_total);
        assert!(out.len() <= max_total);
    }
}

#[test]
fn truncation_never_splits_a_multibyte_character() {
    let content = "ééééé".as_bytes();
    assert_eq!(content.len(), 10);
    let files = one_file("a.txt", content);
    let out = build_dump_bytes(b"/repo", &files, 5, 10_000);
    let s = String::from_utf8(out).unwrap();
    assert!(s.contains("éé\n"));
    assert!(!s.contains("ééé"));
    assert!(s.contains("(file truncated)"));
}

#[test]
fn invalid_content_bytes_never_reach_the_artifact() {
    let files = one_file("a.txt", b"ok\xffrest");
    let out = build_dump_bytes(b"/repo", &files, 10_000, 10_000);
    let s = String::from_utf8(out).unwrap();
    assert!(s.contains("```\nok\n```"));
    assert!(s.contains("(file truncated)"));
}

#[test]
fn clamp_to_utf8_boundary_exact_values() {
    assert_eq!(clamp_to_utf8_boundary(b"abc", 2), 2);
    assert_eq!(clamp_to_utf8_boundary(b"abc", 7), 3);
    let two_byte = "é".as_bytes();
    assert_eq!(clamp_to_utf8_boundary(two_byte, 1), 0);
    assert_eq!(clamp_to_utf8_boundary(two_byte, 2), 2);
    assert_eq!(clamp_to_utf8_boundary(b"\xff\xffabc", 4), 0);
    let four_byte = "\u{1F600}".as_bytes();
    assert_eq!(four_byte.len(), 4);
    assert_eq!(clamp_to_utf8_boundary(four_byte, 3), 0);
    assert_eq!(clamp_to_utf8_boundary(four_byte, 4), 4);
}

#[test]
fn binary_file_is_absent_whatever_the_settings() {
    let files = vec![
        FileInput {
            rel: b"bin.txt".to_vec(),
            abs: b"/repo/bin.txt".to_vec(),
            content: b"a\x00b".to_vec(),
        },
        FileInput {
            rel: b"ok.txt".to_vec(),
            abs: b"/repo/ok.txt".to_vec(),
            content: b"ok\n".to_vec(),
        },
    ];
    let out = build_dump_bytes(b"/repo", &files, 10_000, 10_000);
    let s = String::from_utf8(out).unwrap();
    assert!(!s.contains("## bin.txt"));
    assert!(s.contains("## ok.txt"));
}

#[test]
fn writer_append_is_atomic() {
    let mut out = Out::new(3);
    assert!(out.push_str(b"ab").is_ok());
    assert_eq!(out.remaining(), 1);
    assert!(out.push_str(b"cd").is_err());
    assert_eq!(out.remaining(), 1);
    assert!(out.push_str(b"c").is_ok());
    assert!(out.push_str(b"d").is_err());
    assert_eq!(out.into_inner(), b"abc".to_vec());
}

#[test]
fn writer_push_line_appends_newline_separately() {
    let mut out = Out::new(3);
    assert!(out.push_line(b"abc").is_err());
    assert_eq!(out.into_inner(), b"abc".to_vec());
}

#[test]
fn invalid_pattern_is_reported_with_flag_and_text() {
    let bad = vec!["[".to_string()];
    let good = vec!["src/**".to_string()];
    match Selector::new(&bad, &good) {
        Err(SelectorError::InvalidPattern { flag, pattern }) => {
            assert_eq!(flag, PatternFlag::Include);
            assert_eq!(pattern, "[");
        },
        _ => panic!("expected an invalid-pattern error"),
    }
    match Selector::new(&good, &bad) {
        Err(SelectorError::InvalidPattern { flag, pattern }) => {
            assert_eq!(flag, PatternFlag::Exclude);
            assert_eq!(pattern, "[");
        },
        _ => panic!("expected an invalid-pattern error"),
    }
    assert!(Selector::new(&good, &good).is_ok());
}

#[test]
fn selector_matches_paths_per_flag_semantics() {
    let inc = vec!["src/**".to_string()];
    let exc = vec!["**/secret.rs".to_string()];
    let sel = Selector::new(&inc, &exc).unwrap();
    assert!(sel.matches(b"src/lib.rs"));
    assert!(!sel.matches(b"src/secret.rs"));
    assert!(!sel.matches(b"README.md"));

    let none = Selector::new(&Vec::new(), &Vec::new()).unwrap();
    assert!(none.matches(b"anything/at/all"));
}

#[test]
fn backslash_separators_are_normalized_before_matching() {
    assert_eq!(normalize_slashes(b"a\\b\\c.rs"), b"a/b/c.rs".to_vec());
    assert_eq!(normalize_slashes(b"a/b.rs"), b"a/b.rs".to_vec());
}

#[test]
fn hidden_directory_components_gate_their_files() {
    let entries = vec![Entry {
        rel: b".config/settings.rs".to_vec(),
        abs: b"/repo/.config/settings.rs".to_vec(),
    }];
    let sel = Selector::new(&Vec::new(), &Vec::new()).unwrap();
    assert!(collect_files_sorted(&entries, false, &sel).is_empty());
    assert_eq!(collect_files_sorted(&entries, true, &sel).len(), 1);
}

#[test]
fn resolve_settings_prefers_cli_then_config_then_defaults() {
    let cfg = DumpoConfig {
        max_file_bytes: Some(111),
        max_total_bytes: None,
        include_hidden: Some(true),
        include_patterns: Some(vec!["cfg/**".to_string()]),
        exclude_patterns: None,
    };
    let r = resolve_pack_settings(
        Some(5),
        None,
        None,
        None,
        Vec::new(),
        vec!["cli-x".to_string()],
        cfg,
    );
    assert_eq!(r.max_file_bytes, 5);
    assert_eq!(r.max_total_bytes, 400_000);
    assert!(r.include_hidden);
    assert!(!r.include_from_cli);
    assert_eq!(r.include_patterns, vec!["cfg/**".to_string()]);
    assert!(r.exclude_from_cli);
    assert_eq!(r.exclude_patterns, vec!["cli-x".to_string()]);

    let r2 = resolve_pack_settings(
        None,
        None,
        None,
        Some(false),
        Vec::new(),
        Vec::new(),
        DumpoConfig::default(),
    );
    assert_eq!(r2.max_file_bytes, 20_000);
    assert_eq!(r2.max_total_bytes, 400_000);
    assert!(!r2.include_hidden);
    assert!(r2.include_patterns.is_empty());
    assert!(r2.exclude_patterns.is_empty());
}

#[test]
fn nearest_config_wins_over_farther_ones() {
    let ancestors: Vec<Vec<u8>> =
        vec![b"/repo/sub/dir".to_vec(), b"/repo/sub".to_vec(), b"/repo".to_vec(), b"/".to_vec()];
    let has = vec![false, true, true, false];
    let got = find_nearest_config_path(&ancestors, &has);
    assert_eq!(got, Some(b"/repo/sub/dumpo.toml".to_vec()));

    let none = find_nearest_config_path(&ancestors, &vec![false, false, false, false]);
    assert_eq!(none, None);

    let at_root = find_nearest_config_path(&ancestors, &vec![false, false, false, true]);
    assert_eq!(at_root, Some(b"/dumpo.toml".to_vec()));
}

#[test]
fn pattern_summary_has_exact_shape() {
    let label = b"globs";
    let empty: Vec<Vec<u8>> = Vec::new();
    assert_eq!(summarize_patterns(label, true, &empty), b"globs=<none>".to_vec());

    let pats: Vec<Vec<u8>> = vec![b"src/**".to_vec(), b"docs/**".to_vec()];
    assert_eq!(
        summarize_patterns(label, true, &pats),
        b"globs(cli)=[src/**, docs/**] (n=2)".to_vec()
    );
    assert_eq!(
        summarize_patterns(label, false, &pats),
        b"globs(config)=[src/**, docs/**] (n=2)".to_vec()
    );

    let many: Vec<Vec<u8>> = (0..25).map(|i| format!("p{}", i).into_bytes()).collect();
    let s = String::from_utf8(summarize_patterns(label, true, &many)).unwrap();
    assert!(s.starts_with("globs(cli)=[p0, p1, "));
    assert!(s.ends_with(", ...] (n=25)"));
    assert!(s.contains("p19"));
    assert!(!s.contains("p20,"));
}

#[test]
fn empty_file_renders_an_empty_block() {
    let files = one_file("a.txt", b"");
    let out = build_dump_bytes(b"/repo", &files, 10_000, 10_000);
    let s = String::from_utf8(out).unwrap();
    assert_eq!(s, "# dumpo pack\n- root: /repo\n\n## a.txt\n\n```\n\n```\n\n");
}

#[test]
fn end_to_end_scenario_ordered_hinted_and_unclipped() {
    let files: Vec<FileInput> = [("a.rs", "fn a() {}\n"), ("dir/b.rs", "fn b() {}\n"), (
        "z.rs",
        "fn z() {}\n",
    )]
        .iter()
        .map(|(rel, content)| FileInput {
            rel: rel.as_bytes().to_vec(),
            abs: format!("/repo/{}", rel).into_bytes(),
            content: content.as_bytes().to_vec(),
        })
        .collect();
    let entries: Vec<Entry> = files
        .iter()
        .map(|f| Entry { rel: f.rel.clone(), abs: f.abs.clone() })
        .collect();
    let sel = Selector::new(&Vec::new(), &Vec::new()).unwrap();
    let kept = collect_files_sorted(&entries, false, &sel);
    let inputs: Vec<FileInput> = kept
        .iter()
        .map(|e| {
            files.iter().find(|f| f.rel == e.rel).map(|f| FileInput {
                rel: f.rel.clone(),
                abs: f.abs.clone(),
                content: f.content.clone(),
            }).unwrap()
        })
        .collect();
    let out = build_dump_bytes(b"/repo", &inputs, 10_000, 200_000);
    let s = String::from_utf8(out).unwrap();

    let a_idx = s.find("## a.rs").unwrap();
    let b_idx = s.find("## dir/b.rs").unwrap();
    let z_idx = s.find("## z.rs").unwrap();
    assert!(a_idx < b_idx && b_idx < z_idx);
    assert_eq!(s.matches("```rust\n").count(), 3);
    assert!(!s.contains("... (truncated: max_total_bytes reached)"));
}

#[test]
fn no_footer_when_everything_fits() {
    let files = one_file("a.rs", b"fn a() {}\n");
    let out = build_dump_bytes(b"/repo", &files, 10_000, 200_000);
    let s = String::from_utf8(out).unwrap();
    assert!(!s.contains("truncated"));
}
