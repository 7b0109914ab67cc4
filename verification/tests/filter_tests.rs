use dumpo::filter::{should_prune_walk_entry, should_skip_file};

#[test]
fn filter_should_skip_file_excludes_secrets_even_when_hidden_included() {
    assert!(should_skip_file(b"/repo/.env", true));
    assert!(should_skip_file(b"/repo/.env.local", true));
    assert!(should_skip_file(b"/repo/.env", false));
    assert!(should_skip_file(b"/repo/.env.local", false));
}

#[test]
fn filter_should_skip_file_respects_include_hidden_flag_for_non_secrets() {
    assert!(should_skip_file(b"/repo/.hidden.txt", false));
    assert!(!should_skip_file(b"/repo/.hidden.txt", true));
}

#[test]
fn should_skip_file_excludes_lockfile() {
    assert!(should_skip_file(b"/repo/Cargo.lock", true));
}

#[test]
fn filter_should_skip_file_excludes_binaryish_extensions_case_insensitive() {
    assert!(should_skip_file(b"/repo/a.PNG", true));
    assert!(should_skip_file(b"/repo/b.PdF", true));
}

#[test]
fn filter_should_skip_file_excludes_default_meta_files() {
    assert!(should_skip_file(b"/repo/LICENSE", true));
    assert!(should_skip_file(b"/repo/Makefile", true));
    assert!(should_skip_file(b"/repo/LICENSE", false));
    assert!(should_skip_file(b"/repo/Makefile", false));
}

#[test]
fn should_skip_file_excludes_debug_output_file() {
    assert!(should_skip_file(b"/repo/.dumpo.debug.md", true));
    assert!(should_skip_file(b"/repo/.dumpo.debug.md", false));
}

#[test]
fn prune_rules_hit_fixed_directories_and_hidden_names() {
    assert!(should_prune_walk_entry(b".git", true, true));
    assert!(should_prune_walk_entry(b"target", true, true));
    assert!(should_prune_walk_entry(b"node_modules", true, true));
    assert!(!should_prune_walk_entry(b"target", false, true));
    assert!(should_prune_walk_entry(b".cache", false, false));
    assert!(!should_prune_walk_entry(b".cache", false, true));
    assert!(!should_prune_walk_entry(b"src", true, true));
}

#[test]
fn secret_extensions_skip_case_insensitive() {
    assert!(should_skip_file(b"/repo/server.pem", true));
    assert!(should_skip_file(b"/repo/server.PEM", true));
    assert!(should_skip_file(b"/repo/id.key", true));
    assert!(should_skip_file(b"/repo/bundle.p12", true));
    assert!(should_skip_file(b"/repo/cert.pfx", true));
    assert!(!should_skip_file(b"/repo/notes.txt", true));
}

#[test]
fn undecodable_file_name_fails_closed() {
    assert!(should_skip_file(b"/repo/bad\xffname.txt", true));
    assert!(!should_skip_file(b"/repo/goodname.txt", true));
}
