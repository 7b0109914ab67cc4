//! The fixed byte strings of the packer: markup fragments, the static
//! exclusion tables, and the names of the language hints. Each string is
//! given once as a specification-level byte sequence and once as an
//! executable constructor proved to build exactly that sequence.

use vstd::prelude::*;

verus! {

/// `"# dumpo pack"`
pub open spec fn spec_dump_title() -> Seq<u8> {
    seq!['#' as u8, ' ' as u8, 'd' as u8, 'u' as u8, 'm' as u8, 'p' as u8, 'o' as u8, ' ' as u8, 'p' as u8, 'a' as u8, 'c' as u8, 'k' as u8]
}

/// `"# dumpo pack"`
pub fn dump_title() -> (r: Vec<u8>)
    ensures
        r@ == spec_dump_title(),
{
    let mut v: Vec<u8> = Vec::new();
    v.push('#' as u8);
    v.push(' ' as u8);
    v.push('d' as u8);
    v.push('u' as u8);
    v.push('m' as u8);
    v.push('p' as u8);
    v.push('o' as u8);
    v.push(' ' as u8);
    v.push('p' as u8);
    v.push('a' as u8);
    v.push('c' as u8);
    v.push('k' as u8);
    proof {
        assert(v@ =~= spec_dump_title());
    }
    v
}

/// `"- root: "`
pub open spec fn spec_root_prefix() -> Seq<u8> {
    seq!['-' as u8, ' ' as u8, 'r' as u8, 'o' as u8, 'o' as u8, 't' as u8, ':' as u8, ' ' as u8]
}

/// `"- root: "`
pub fn root_prefix() -> (r: Vec<u8>)
    ensures
        r@ == spec_root_prefix(),
{
    let mut v: Vec<u8> = Vec::new();
    v.push('-' as u8);
    v.push(' ' as u8);
    v.push('r' as u8);
    v.push('o' as u8);
    v.push('o' as u8);
    v.push('t' as u8);
    v.push(':' as u8);
    v.push(' ' as u8);
    proof {
        assert(v@ =~= spec_root_prefix());
    }
    v
}

/// `"## "`
pub open spec fn spec_heading_prefix() -> Seq<u8> {
    seq!['#' as u8, '#' as u8, ' ' as u8]
}

/// `"## "`
pub fn heading_prefix() -> (r: Vec<u8>)
    ensures
        r@ == spec_heading_prefix(),
{
    let mut v: Vec<u8> = Vec::new();
    v.push('#' as u8);
    v.push('#' as u8);
    v.push(' ' as u8);
    proof {
        assert(v@ =~= spec_heading_prefix());
    }
    v
}

/// `"```"`
pub open spec fn spec_fence_prefix() -> Seq<u8> {
    seq!['`' as u8, '`' as u8, '`' as u8]
}

/// `"```"`
pub fn fence_prefix() -> (r: Vec<u8>)
    ensures
        r@ == spec_fence_prefix(),
{
    let mut v: Vec<u8> = Vec::new();
    v.push('`' as u8);
    v.push('`' as u8);
    v.push('`' as u8);
    proof {
        assert(v@ =~= spec_fence_prefix());
    }
    v
}

/// `"```\n\n"`
pub open spec fn spec_codeblock_close() -> Seq<u8> {
    seq!['`' as u8, '`' as u8, '`' as u8, '\n' as u8, '\n' as u8]
}

/// `"```\n\n"`
pub fn codeblock_close() -> (r: Vec<u8>)
    ensures
        r@ == spec_codeblock_close(),
{
    let mut v: Vec<u8> = Vec::new();
    v.push('`' as u8);
    v.push('`' as u8);
    v.push('`' as u8);
    v.push('\n' as u8);
    v.push('\n' as u8);
    proof {
        assert(v@ =~= spec_codeblock_close());
    }
    v
}

/// `"\n... (truncated: max_total_bytes reached)\n"`
pub open spec fn spec_truncation_footer() -> Seq<u8> {
    seq!['\n' as u8, '.' as u8, '.' as u8, '.' as u8, ' ' as u8, '(' as u8, 't' as u8, 'r' as u8, 'u' as u8, 'n' as u8, 'c' as u8, 'a' as u8, 't' as u8, 'e' as u8, 'd' as u8, ':' as u8, ' ' as u8, 'm' as u8, 'a' as u8, 'x' as u8, '_' as u8, 't' as u8, 'o' as u8, 't' as u8, 'a' as u8, 'l' as u8, '_' as u8, 'b' as u8, 'y' as u8, 't' as u8, 'e' as u8, 's' as u8, ' ' as u8, 'r' as u8, 'e' as u8, 'a' as u8, 'c' as u8, 'h' as u8, 'e' as u8, 'd' as u8, ')' as u8, '\n' as u8]
}

/// `"\n... (truncated: max_total_bytes reached)\n"`
pub fn truncation_footer() -> (r: Vec<u8>)
    ensures
        r@ == spec_truncation_footer(),
{
    let mut v: Vec<u8> = Vec::new();
    v.push('\n' as u8);
    v.push('.' as u8);
    v.push('.' as u8);
    v.push('.' as u8);
    v.push(' ' as u8);
    v.push('(' as u8);
    v.push('t' as u8);
    v.push('r' as u8);
    v.push('u' as u8);
    v.push('n' as u8);
    v.push('c' as u8);
    v.push('a' as u8);
    v.push('t' as u8);
    v.push('e' as u8);
    v.push('d' as u8);
    v.push(':' as u8);
    v.push(' ' as u8);
    v.push('m' as u8);
    v.push('a' as u8);
    v.push('x' as u8);
    v.push('_' as u8);
    v.push('t' as u8);
    v.push('o' as u8);
    v.push('t' as u8);
    v.push('a' as u8);
    v.push('l' as u8);
    v.push('_' as u8);
    v.push('b' as u8);
    v.push('y' as u8);
    v.push('t' as u8);
    v.push('e' as u8);
    v.push('s' as u8);
    v.push(' ' as u8);
    v.push('r' as u8);
    v.push('e' as u8);
    v.push('a' as u8);
    v.push('c' as u8);
    v.push('h' as u8);
    v.push('e' as u8);
    v.push('d' as u8);
    v.push(')' as u8);
    v.push('\n' as u8);
    proof {
        assert(v@ =~= spec_truncation_footer());
    }
    v
}

/// `"(file truncated)\n\n"`
pub open spec fn spec_file_truncated_marker() -> Seq<u8> {
    seq!['(' as u8, 'f' as u8, 'i' as u8, 'l' as u8, 'e' as u8, ' ' as u8, 't' as u8, 'r' as u8, 'u' as u8, 'n' as u8, 'c' as u8, 'a' as u8, 't' as u8, 'e' as u8, 'd' as u8, ')' as u8, '\n' as u8, '\n' as u8]
}

/// `"(file truncated)\n\n"`
pub fn file_truncated_marker() -> (r: Vec<u8>)
    ensures
        r@ == spec_file_truncated_marker(),
{
    let mut v: Vec<u8> = Vec::new();
    v.push('(' as u8);
    v.push('f' as u8);
    v.push('i' as u8);
    v.push('l' as u8);
    v.push('e' as u8);
    v.push(' ' as u8);
    v.push('t' as u8);
    v.push('r' as u8);
    v.push('u' as u8);
    v.push('n' as u8);
    v.push('c' as u8);
    v.push('a' as u8);
    v.push('t' as u8);
    v.push('e' as u8);
    v.push('d' as u8);
    v.push(')' as u8);
    v.push('\n' as u8);
    v.push('\n' as u8);
    proof {
        assert(v@ =~= spec_file_truncated_marker());
    }
    v
}

/// `"rs"`
pub open spec fn spec_rs() -> Seq<u8> {
    seq!['r' as u8, 's' as u8]
}

/// `"rs"`
pub fn rs() -> (r: Vec<u8>)
    ensures
        r@ == spec_rs(),
{
    let mut v: Vec<u8> = Vec::new();
    v.push('r' as u8);
    v.push('s' as u8);
    proof {
        assert(v@ =~= spec_rs());
    }
    v
}

/// `"toml"`
pub open spec fn spec_toml() -> Seq<u8> {
    seq!['t' as u8, 'o' as u8, 'm' as u8, 'l' as u8]
}

/// `"toml"`
pub fn toml() -> (r: Vec<u8>)
    ensures
        r@ == spec_toml(),
{
    let mut v: Vec<u8> = Vec::new();
    v.push('t' as u8);
    v.push('o' as u8);
    v.push('m' as u8);
    v.push('l' as u8);
    proof {
        assert(v@ =~= spec_toml());
    }
    v
}

/// `"md"`
pub open spec fn spec_md() -> Seq<u8> {
    seq!['m' as u8, 'd' as u8]
}

/// `"md"`
pub fn md() -> (r: Vec<u8>)
    ensures
        r@ == spec_md(),
{
    let mut v: Vec<u8> = Vec::new();
    v.push('m' as u8);
    v.push('d' as u8);
    proof {
        assert(v@ =~= spec_md());
    }
    v
}

/// `"yml"`
pub open spec fn spec_yml() -> Seq<u8> {
    seq!['y' as u8, 'm' as u8, 'l' as u8]
}

/// `"yml"`
pub fn yml() -> (r: Vec<u8>)
    ensures
        r@ == spec_yml(),
{
    let mut v: Vec<u8> = Vec::new();
    v.push('y' as u8);
    v.push('m' as u8);
    v.push('l' as u8);
    proof {
        assert(v@ =~= spec_yml());
    }
    v
}

/// `"yaml"`
pub open spec fn spec_yaml() -> Seq<u8> {
    seq!['y' as u8, 'a' as u8, 'm' as u8, 'l' as u8]
}

/// `"yaml"`
pub fn yaml() -> (r: Vec<u8>)
    ensures
        r@ == spec_yaml(),
{
    let mut v: Vec<u8> = Vec::new();
    v.push('y' as u8);
    v.push('a' as u8);
    v.push('m' as u8);
    v.push('l' as u8);
    proof {
        assert(v@ =~= spec_yaml());
    }
    v
}

/// `"json"`
pub open spec fn spec_json() -> Seq<u8> {
    seq!['j' as u8, 's' as u8, 'o' as u8, 'n' as u8]
}

/// `"json"`
pub fn json() -> (r: Vec<u8>)
    ensures
        r@ == spec_json(),
{
    let mut v: Vec<u8> = Vec::new();
    v.push('j' as u8);
    v.push('s' as u8);
    v.push('o' as u8);
    v.push('n' as u8);
    proof {
        assert(v@ =~= spec_json());
    }
    v
}

/// `"py"`
pub open spec fn spec_py() -> Seq<u8> {
    seq!['p' as u8, 'y' as u8]
}

/// `"py"`
pub fn py() -> (r: Vec<u8>)
    ensures
        r@ == spec_py(),
{
    let mut v: Vec<u8> = Vec::new();
    v.push('p' as u8);
    v.push('y' as u8);
    proof {
        assert(v@ =~= spec_py());
    }
    v
}

/// `"sh"`
pub open spec fn spec_sh() -> Seq<u8> {
    seq!['s' as u8, 'h' as u8]
}

/// `"sh"`
pub fn sh() -> (r: Vec<u8>)
    ensures
        r@ == spec_sh(),
{
    let mut v: Vec<u8> = Vec::new();
    v.push('s' as u8);
    v.push('h' as u8);
    proof {
        assert(v@ =~= spec_sh());
    }
    v
}

/// `"rust"`
pub open spec fn spec_rust() -> Seq<u8> {
    seq!['r' as u8, 'u' as u8, 's' as u8, 't' as u8]
}

/// `"rust"`
pub fn rust() -> (r: Vec<u8>)
    ensures
        r@ == spec_rust(),
{
    let mut v: Vec<u8> = Vec::new();
    v.push('r' as u8);
    v.push('u' as u8);
    v.push('s' as u8);
    v.push('t' as u8);
    proof {
        assert(v@ =~= spec_rust());
    }
    v
}

/// `"markdown"`
pub open spec fn spec_markdown() -> Seq<u8> {
    seq!['m' as u8, 'a' as u8, 'r' as u8, 'k' as u8, 'd' as u8, 'o' as u8, 'w' as u8, 'n' as u8]
}

/// `"markdown"`
pub fn markdown() -> (r: Vec<u8>)
    ensures
        r@ == spec_markdown(),
{
    let mut v: Vec<u8> = Vec::new();
    v.push('m' as u8);
    v.push('a' as u8);
    v.push('r' as u8);
    v.push('k' as u8);
    v.push('d' as u8);
    v.push('o' as u8);
    v.push('w' as u8);
    v.push('n' as u8);
    proof {
        assert(v@ =~= spec_markdown());
    }
    v
}

/// `"python"`
pub open spec fn spec_python() -> Seq<u8> {
    seq!['p' as u8, 'y' as u8, 't' as u8, 'h' as u8, 'o' as u8, 'n' as u8]
}

/// `"python"`
pub fn python() -> (r: Vec<u8>)
    ensures
        r@ == spec_python(),
{
    let mut v: Vec<u8> = Vec::new();
    v.push('p' as u8);
    v.push('y' as u8);
    v.push('t' as u8);
    v.push('h' as u8);
    v.push('o' as u8);
    v.push('n' as u8);
    proof {
        assert(v@ =~= spec_python());
    }
    v
}

/// `"bash"`
pub open spec fn spec_bash() -> Seq<u8> {
    seq!['b' as u8, 'a' as u8, 's' as u8, 'h' as u8]
}

/// `"bash"`
pub fn bash() -> (r: Vec<u8>)
    ensures
        r@ == spec_bash(),
{
    let mut v: Vec<u8> = Vec::new();
    v.push('b' as u8);
    v.push('a' as u8);
    v.push('s' as u8);
    v.push('h' as u8);
    proof {
        assert(v@ =~= spec_bash());
    }
    v
}

/// `".git"`
pub open spec fn spec_git_dir() -> Seq<u8> {
    seq!['.' as u8, 'g' as u8, 'i' as u8, 't' as u8]
}

/// `".git"`
pub fn git_dir() -> (r: Vec<u8>)
    ensures
        r@ == spec_git_dir(),
{
    let mut v: Vec<u8> = Vec::new();
    v.push('.' as u8);
    v.push('g' as u8);
    v.push('i' as u8);
    v.push('t' as u8);
    proof {
        assert(v@ =~= spec_git_dir());
    }
    v
}

/// `"target"`
pub open spec fn spec_target_dir() -> Seq<u8> {
    seq!['t' as u8, 'a' as u8, 'r' as u8, 'g' as u8, 'e' as u8, 't' as u8]
}

/// `"target"`
pub fn target_dir() -> (r: Vec<u8>)
    ensures
        r@ == spec_target_dir(),
{
    let mut v: Vec<u8> = Vec::new();
    v.push('t' as u8);
    v.push('a' as u8);
    v.push('r' as u8);
    v.push('g' as u8);
    v.push('e' as u8);
    v.push('t' as u8);
    proof {
        assert(v@ =~= spec_target_dir());
    }
    v
}

/// `"node_modules"`
pub open spec fn spec_node_modules_dir() -> Seq<u8> {
    seq!['n' as u8, 'o' as u8, 'd' as u8, 'e' as u8, '_' as u8, 'm' as u8, 'o' as u8, 'd' as u8, 'u' as u8, 'l' as u8, 'e' as u8, 's' as u8]
}

/// `"node_modules"`
pub fn node_modules_dir() -> (r: Vec<u8>)
    ensures
        r@ == spec_node_modules_dir(),
{
    let mut v: Vec<u8> = Vec::new();
    v.push('n' as u8);
    v.push('o' as u8);
    v.push('d' as u8);
    v.push('e' as u8);
    v.push('_' as u8);
    v.push('m' as u8);
    v.push('o' as u8);
    v.push('d' as u8);
    v.push('u' as u8);
    v.push('l' as u8);
    v.push('e' as u8);
    v.push('s' as u8);
    proof {
        assert(v@ =~= spec_node_modules_dir());
    }
    v
}

/// `"LICENSE"`
pub open spec fn spec_license_file() -> Seq<u8> {
    seq!['L' as u8, 'I' as u8, 'C' as u8, 'E' as u8, 'N' as u8, 'S' as u8, 'E' as u8]
}

/// `"LICENSE"`
pub fn license_file() -> (r: Vec<u8>)
    ensures
        r@ == spec_license_file(),
{
    let mut v: Vec<u8> = Vec::new();
    v.push('L' as u8);
    v.push('I' as u8);
    v.push('C' as u8);
    v.push('E' as u8);
    v.push('N' as u8);
    v.push('S' as u8);
    v.push('E' as u8);
    proof {
        assert(v@ =~= spec_license_file());
    }
    v
}

/// `"Makefile"`
pub open spec fn spec_makefile_file() -> Seq<u8> {
    seq!['M' as u8, 'a' as u8, 'k' as u8, 'e' as u8, 'f' as u8, 'i' as u8, 'l' as u8, 'e' as u8]
}

/// `"Makefile"`
pub fn makefile_file() -> (r: Vec<u8>)
    ensures
        r@ == spec_makefile_file(),
{
    let mut v: Vec<u8> = Vec::new();
    v.push('M' as u8);
    v.push('a' as u8);
    v.push('k' as u8);
    v.push('e' as u8);
    v.push('f' as u8);
    v.push('i' as u8);
    v.push('l' as u8);
    v.push('e' as u8);
    proof {
        assert(v@ =~= spec_makefile_file());
    }
    v
}

/// `"Cargo.lock"`
pub open spec fn spec_cargo_lock_file() -> Seq<u8> {
    seq!['C' as u8, 'a' as u8, 'r' as u8, 'g' as u8, 'o' as u8, '.' as u8, 'l' as u8, 'o' as u8, 'c' as u8, 'k' as u8]
}

/// `"Cargo.lock"`
pub fn cargo_lock_file() -> (r: Vec<u8>)
    ensures
        r@ == spec_cargo_lock_file(),
{
    let mut v: Vec<u8> = Vec::new();
    v.push('C' as u8);
    v.push('a' as u8);
    v.push('r' as u8);
    v.push('g' as u8);
    v.push('o' as u8);
    v.push('.' as u8);
    v.push('l' as u8);
    v.push('o' as u8);
    v.push('c' as u8);
    v.push('k' as u8);
    proof {
        assert(v@ =~= spec_cargo_lock_file());
    }
    v
}

/// `".dumpo.debug.md"`
pub open spec fn spec_debug_output_file() -> Seq<u8> {
    seq!['.' as u8, 'd' as u8, 'u' as u8, 'm' as u8, 'p' as u8, 'o' as u8, '.' as u8, 'd' as u8, 'e' as u8, 'b' as u8, 'u' as u8, 'g' as u8, '.' as u8, 'm' as u8, 'd' as u8]
}

/// `".dumpo.debug.md"`
pub fn debug_output_file() -> (r: Vec<u8>)
    ensures
        r@ == spec_debug_output_file(),
{
    let mut v: Vec<u8> = Vec::new();
    v.push('.' as u8);
    v.push('d' as u8);
    v.push('u' as u8);
    v.push('m' as u8);
    v.push('p' as u8);
    v.push('o' as u8);
    v.push('.' as u8);
    v.push('d' as u8);
    v.push('e' as u8);
    v.push('b' as u8);
    v.push('u' as u8);
    v.push('g' as u8);
    v.push('.' as u8);
    v.push('m' as u8);
    v.push('d' as u8);
    proof {
        assert(v@ =~= spec_debug_output_file());
    }
    v
}

/// `".env"`
pub open spec fn spec_dot_env() -> Seq<u8> {
    seq!['.' as u8, 'e' as u8, 'n' as u8, 'v' as u8]
}

/// `".env"`
pub fn dot_env() -> (r: Vec<u8>)
    ensures
        r@ == spec_dot_env(),
{
    let mut v: Vec<u8> = Vec::new();
    v.push('.' as u8);
    v.push('e' as u8);
    v.push('n' as u8);
    v.push('v' as u8);
    proof {
        assert(v@ =~= spec_dot_env());
    }
    v
}

/// `".env."`
pub open spec fn spec_dot_env_prefix() -> Seq<u8> {
    seq!['.' as u8, 'e' as u8, 'n' as u8, 'v' as u8, '.' as u8]
}

/// `".env."`
pub fn dot_env_prefix() -> (r: Vec<u8>)
    ensures
        r@ == spec_dot_env_prefix(),
{
    let mut v: Vec<u8> = Vec::new();
    v.push('.' as u8);
    v.push('e' as u8);
    v.push('n' as u8);
    v.push('v' as u8);
    v.push('.' as u8);
    proof {
        assert(v@ =~= spec_dot_env_prefix());
    }
    v
}

/// `"pem"`
pub open spec fn spec_pem() -> Seq<u8> {
    seq!['p' as u8, 'e' as u8, 'm' as u8]
}

/// `"pem"`
pub fn pem() -> (r: Vec<u8>)
    ensures
        r@ == spec_pem(),
{
    let mut v: Vec<u8> = Vec::new();
    v.push('p' as u8);
    v.push('e' as u8);
    v.push('m' as u8);
    proof {
        assert(v@ =~= spec_pem());
    }
    v
}

/// `"key"`
pub open spec fn spec_key() -> Seq<u8> {
    seq!['k' as u8, 'e' as u8, 'y' as u8]
}

/// `"key"`
pub fn key() -> (r: Vec<u8>)
    ensures
        r@ == spec_key(),
{
    let mut v: Vec<u8> = Vec::new();
    v.push('k' as u8);
    v.push('e' as u8);
    v.push('y' as u8);
    proof {
        assert(v@ =~= spec_key());
    }
    v
}

/// `"p12"`
pub open spec fn spec_p12() -> Seq<u8> {
    seq!['p' as u8, '1' as u8, '2' as u8]
}

/// `"p12"`
pub fn p12() -> (r: Vec<u8>)
    ensures
        r@ == spec_p12(),
{
    let mut v: Vec<u8> = Vec::new();
    v.push('p' as u8);
    v.push('1' as u8);
    v.push('2' as u8);
    proof {
        assert(v@ =~= spec_p12());
    }
    v
}

/// `"pfx"`
pub open spec fn spec_pfx() -> Seq<u8> {
    seq!['p' as u8, 'f' as u8, 'x' as u8]
}

/// `"pfx"`
pub fn pfx() -> (r: Vec<u8>)
    ensures
        r@ == spec_pfx(),
{
    let mut v: Vec<u8> = Vec::new();
    v.push('p' as u8);
    v.push('f' as u8);
    v.push('x' as u8);
    proof {
        assert(v@ =~= spec_pfx());
    }
    v
}

/// `"png"`
pub open spec fn spec_png() -> Seq<u8> {
    seq!['p' as u8, 'n' as u8, 'g' as u8]
}

/// `"png"`
pub fn png() -> (r: Vec<u8>)
    ensures
        r@ == spec_png(),
{
    let mut v: Vec<u8> = Vec::new();
    v.push('p' as u8);
    v.push('n' as u8);
    v.push('g' as u8);
    proof {
        assert(v@ =~= spec_png());
    }
    v
}

/// `"jpg"`
pub open spec fn spec_jpg() -> Seq<u8> {
    seq!['j' as u8, 'p' as u8, 'g' as u8]
}

/// `"jpg"`
pub fn jpg() -> (r: Vec<u8>)
    ensures
        r@ == spec_jpg(),
{
    let mut v: Vec<u8> = Vec::new();
    v.push('j' as u8);
    v.push('p' as u8);
    v.push('g' as u8);
    proof {
        assert(v@ =~= spec_jpg());
    }
    v
}

/// `"jpeg"`
pub open spec fn spec_jpeg() -> Seq<u8> {
    seq!['j' as u8, 'p' as u8, 'e' as u8, 'g' as u8]
}

/// `"jpeg"`
pub fn jpeg() -> (r: Vec<u8>)
    ensures
        r@ == spec_jpeg(),
{
    let mut v: Vec<u8> = Vec::new();
    v.push('j' as u8);
    v.push('p' as u8);
    v.push('e' as u8);
    v.push('g' as u8);
    proof {
        assert(v@ =~= spec_jpeg());
    }
    v
}

/// `"gif"`
pub open spec fn spec_gif() -> Seq<u8> {
    seq!['g' as u8, 'i' as u8, 'f' as u8]
}

/// `"gif"`
pub fn gif() -> (r: Vec<u8>)
    ensures
        r@ == spec_gif(),
{
    let mut v: Vec<u8> = Vec::new();
    v.push('g' as u8);
    v.push('i' as u8);
    v.push('f' as u8);
    proof {
        assert(v@ =~= spec_gif());
    }
    v
}

/// `"webp"`
pub open spec fn spec_webp() -> Seq<u8> {
    seq!['w' as u8, 'e' as u8, 'b' as u8, 'p' as u8]
}

/// `"webp"`
pub fn webp() -> (r: Vec<u8>)
    ensures
        r@ == spec_webp(),
{
    let mut v: Vec<u8> = Vec::new();
    v.push('w' as u8);
    v.push('e' as u8);
    v.push('b' as u8);
    v.push('p' as u8);
    proof {
        assert(v@ =~= spec_webp());
    }
    v
}

/// `"pdf"`
pub open spec fn spec_pdf() -> Seq<u8> {
    seq!['p' as u8, 'd' as u8, 'f' as u8]
}

/// `"pdf"`
pub fn pdf() -> (r: Vec<u8>)
    ensures
        r@ == spec_pdf(),
{
    let mut v: Vec<u8> = Vec::new();
    v.push('p' as u8);
    v.push('d' as u8);
    v.push('f' as u8);
    proof {
        assert(v@ =~= spec_pdf());
    }
    v
}

/// `"zip"`
pub open spec fn spec_zip() -> Seq<u8> {
    seq!['z' as u8, 'i' as u8, 'p' as u8]
}

/// `"zip"`
pub fn zip() -> (r: Vec<u8>)
    ensures
        r@ == spec_zip(),
{
    let mut v: Vec<u8> = Vec::new();
    v.push('z' as u8);
    v.push('i' as u8);
    v.push('p' as u8);
    proof {
        assert(v@ =~= spec_zip());
    }
    v
}

/// `"gz"`
pub open spec fn spec_gz() -> Seq<u8> {
    seq!['g' as u8, 'z' as u8]
}

/// `"gz"`
pub fn gz() -> (r: Vec<u8>)
    ensures
        r@ == spec_gz(),
{
    let mut v: Vec<u8> = Vec::new();
    v.push('g' as u8);
    v.push('z' as u8);
    proof {
        assert(v@ =~= spec_gz());
    }
    v
}

/// `"bz2"`
pub open spec fn spec_bz2() -> Seq<u8> {
    seq!['b' as u8, 'z' as u8, '2' as u8]
}

/// `"bz2"`
pub fn bz2() -> (r: Vec<u8>)
    ensures
        r@ == spec_bz2(),
{
    let mut v: Vec<u8> = Vec::new();
    v.push('b' as u8);
    v.push('z' as u8);
    v.push('2' as u8);
    proof {
        assert(v@ =~= spec_bz2());
    }
    v
}

/// `"xz"`
pub open spec fn spec_xz() -> Seq<u8> {
    seq!['x' as u8, 'z' as u8]
}

/// `"xz"`
pub fn xz() -> (r: Vec<u8>)
    ensures
        r@ == spec_xz(),
{
    let mut v: Vec<u8> = Vec::new();
    v.push('x' as u8);
    v.push('z' as u8);
    proof {
        assert(v@ =~= spec_xz());
    }
    v
}

/// `"7z"`
pub open spec fn spec_sevenz() -> Seq<u8> {
    seq!['7' as u8, 'z' as u8]
}

/// `"7z"`
pub fn sevenz() -> (r: Vec<u8>)
    ensures
        r@ == spec_sevenz(),
{
    let mut v: Vec<u8> = Vec::new();
    v.push('7' as u8);
    v.push('z' as u8);
    proof {
        assert(v@ =~= spec_sevenz());
    }
    v
}

/// `"woff"`
pub open spec fn spec_woff() -> Seq<u8> {
    seq!['w' as u8, 'o' as u8, 'f' as u8, 'f' as u8]
}

/// `"woff"`
pub fn woff() -> (r: Vec<u8>)
    ensures
        r@ == spec_woff(),
{
    let mut v: Vec<u8> = Vec::new();
    v.push('w' as u8);
    v.push('o' as u8);
    v.push('f' as u8);
    v.push('f' as u8);
    proof {
        assert(v@ =~= spec_woff());
    }
    v
}

/// `"woff2"`
pub open spec fn spec_woff2() -> Seq<u8> {
    seq!['w' as u8, 'o' as u8, 'f' as u8, 'f' as u8, '2' as u8]
}

/// `"woff2"`
pub fn woff2() -> (r: Vec<u8>)
    ensures
        r@ == spec_woff2(),
{
    let mut v: Vec<u8> = Vec::new();
    v.push('w' as u8);
    v.push('o' as u8);
    v.push('f' as u8);
    v.push('f' as u8);
    v.push('2' as u8);
    proof {
        assert(v@ =~= spec_woff2());
    }
    v
}

/// `"ttf"`
pub open spec fn spec_ttf() -> Seq<u8> {
    seq!['t' as u8, 't' as u8, 'f' as u8]
}

/// `"ttf"`
pub fn ttf() -> (r: Vec<u8>)
    ensures
        r@ == spec_ttf(),
{
    let mut v: Vec<u8> = Vec::new();
    v.push('t' as u8);
    v.push('t' as u8);
    v.push('f' as u8);
    proof {
        assert(v@ =~= spec_ttf());
    }
    v
}

/// `"otf"`
pub open spec fn spec_otf() -> Seq<u8> {
    seq!['o' as u8, 't' as u8, 'f' as u8]
}

/// `"otf"`
pub fn otf() -> (r: Vec<u8>)
    ensures
        r@ == spec_otf(),
{
    let mut v: Vec<u8> = Vec::new();
    v.push('o' as u8);
    v.push('t' as u8);
    v.push('f' as u8);
    proof {
        assert(v@ =~= spec_otf());
    }
    v
}

/// `"mp4"`
pub open spec fn spec_mp4() -> Seq<u8> {
    seq!['m' as u8, 'p' as u8, '4' as u8]
}

/// `"mp4"`
pub fn mp4() -> (r: Vec<u8>)
    ensures
        r@ == spec_mp4(),
{
    let mut v: Vec<u8> = Vec::new();
    v.push('m' as u8);
    v.push('p' as u8);
    v.push('4' as u8);
    proof {
        assert(v@ =~= spec_mp4());
    }
    v
}

/// `"mov"`
pub open spec fn spec_mov() -> Seq<u8> {
    seq!['m' as u8, 'o' as u8, 'v' as u8]
}

/// `"mov"`
pub fn mov() -> (r: Vec<u8>)
    ensures
        r@ == spec_mov(),
{
    let mut v: Vec<u8> = Vec::new();
    v.push('m' as u8);
    v.push('o' as u8);
    v.push('v' as u8);
    proof {
        assert(v@ =~= spec_mov());
    }
    v
}

/// `"mp3"`
pub open spec fn spec_mp3() -> Seq<u8> {
    seq!['m' as u8, 'p' as u8, '3' as u8]
}

/// `"mp3"`
pub fn mp3() -> (r: Vec<u8>)
    ensures
        r@ == spec_mp3(),
{
    let mut v: Vec<u8> = Vec::new();
    v.push('m' as u8);
    v.push('p' as u8);
    v.push('3' as u8);
    proof {
        assert(v@ =~= spec_mp3());
    }
    v
}

/// `"wav"`
pub open spec fn spec_wav() -> Seq<u8> {
    seq!['w' as u8, 'a' as u8, 'v' as u8]
}

/// `"wav"`
pub fn wav() -> (r: Vec<u8>)
    ensures
        r@ == spec_wav(),
{
    let mut v: Vec<u8> = Vec::new();
    v.push('w' as u8);
    v.push('a' as u8);
    v.push('v' as u8);
    proof {
        assert(v@ =~= spec_wav());
    }
    v
}

/// `"bin"`
pub open spec fn spec_bin() -> Seq<u8> {
    seq!['b' as u8, 'i' as u8, 'n' as u8]
}

/// `"bin"`
pub fn bin() -> (r: Vec<u8>)
    ensures
        r@ == spec_bin(),
{
    let mut v: Vec<u8> = Vec::new();
    v.push('b' as u8);
    v.push('i' as u8);
    v.push('n' as u8);
    proof {
        assert(v@ =~= spec_bin());
    }
    v
}

/// `"exe"`
pub open spec fn spec_exe() -> Seq<u8> {
    seq!['e' as u8, 'x' as u8, 'e' as u8]
}

/// `"exe"`
pub fn exe() -> (r: Vec<u8>)
    ensures
        r@ == spec_exe(),
{
    let mut v: Vec<u8> = Vec::new();
    v.push('e' as u8);
    v.push('x' as u8);
    v.push('e' as u8);
    proof {
        assert(v@ =~= spec_exe());
    }
    v
}

/// `"dll"`
pub open spec fn spec_dll() -> Seq<u8> {
    seq!['d' as u8, 'l' as u8, 'l' as u8]
}

/// `"dll"`
pub fn dll() -> (r: Vec<u8>)
    ensures
        r@ == spec_dll(),
{
    let mut v: Vec<u8> = Vec::new();
    v.push('d' as u8);
    v.push('l' as u8);
    v.push('l' as u8);
    proof {
        assert(v@ =~= spec_dll());
    }
    v
}

/// `"so"`
pub open spec fn spec_so() -> Seq<u8> {
    seq!['s' as u8, 'o' as u8]
}

/// `"so"`
pub fn so() -> (r: Vec<u8>)
    ensures
        r@ == spec_so(),
{
    let mut v: Vec<u8> = Vec::new();
    v.push('s' as u8);
    v.push('o' as u8);
    proof {
        assert(v@ =~= spec_so());
    }
    v
}

/// `"dylib"`
pub open spec fn spec_dylib() -> Seq<u8> {
    seq!['d' as u8, 'y' as u8, 'l' as u8, 'i' as u8, 'b' as u8]
}

/// `"dylib"`
pub fn dylib() -> (r: Vec<u8>)
    ensures
        r@ == spec_dylib(),
{
    let mut v: Vec<u8> = Vec::new();
    v.push('d' as u8);
    v.push('y' as u8);
    v.push('l' as u8);
    v.push('i' as u8);
    v.push('b' as u8);
    proof {
        assert(v@ =~= spec_dylib());
    }
    v
}

/// `"dumpo.toml"`
pub open spec fn spec_config_file() -> Seq<u8> {
    seq!['d' as u8, 'u' as u8, 'm' as u8, 'p' as u8, 'o' as u8, '.' as u8, 't' as u8, 'o' as u8, 'm' as u8, 'l' as u8]
}

/// `"dumpo.toml"`
pub fn config_file() -> (r: Vec<u8>)
    ensures
        r@ == spec_config_file(),
{
    let mut v: Vec<u8> = Vec::new();
    v.push('d' as u8);
    v.push('u' as u8);
    v.push('m' as u8);
    v.push('p' as u8);
    v.push('o' as u8);
    v.push('.' as u8);
    v.push('t' as u8);
    v.push('o' as u8);
    v.push('m' as u8);
    v.push('l' as u8);
    proof {
        assert(v@ =~= spec_config_file());
    }
    v
}

/// `"/"`
pub open spec fn spec_slash() -> Seq<u8> {
    seq!['/' as u8]
}

/// `"/"`
pub fn slash() -> (r: Vec<u8>)
    ensures
        r@ == spec_slash(),
{
    let mut v: Vec<u8> = Vec::new();
    v.push('/' as u8);
    proof {
        assert(v@ =~= spec_slash());
    }
    v
}

/// `"=<none>"`
pub open spec fn spec_none_marker() -> Seq<u8> {
    seq!['=' as u8, '<' as u8, 'n' as u8, 'o' as u8, 'n' as u8, 'e' as u8, '>' as u8]
}

/// `"=<none>"`
pub fn none_marker() -> (r: Vec<u8>)
    ensures
        r@ == spec_none_marker(),
{
    let mut v: Vec<u8> = Vec::new();
    v.push('=' as u8);
    v.push('<' as u8);
    v.push('n' as u8);
    v.push('o' as u8);
    v.push('n' as u8);
    v.push('e' as u8);
    v.push('>' as u8);
    proof {
        assert(v@ =~= spec_none_marker());
    }
    v
}

/// `"cli"`
pub open spec fn spec_cli_word() -> Seq<u8> {
    seq!['c' as u8, 'l' as u8, 'i' as u8]
}

/// `"cli"`
pub fn cli_word() -> (r: Vec<u8>)
    ensures
        r@ == spec_cli_word(),
{
    let mut v: Vec<u8> = Vec::new();
    v.push('c' as u8);
    v.push('l' as u8);
    v.push('i' as u8);
    proof {
        assert(v@ =~= spec_cli_word());
    }
    v
}

/// `"config"`
pub open spec fn spec_config_word() -> Seq<u8> {
    seq!['c' as u8, 'o' as u8, 'n' as u8, 'f' as u8, 'i' as u8, 'g' as u8]
}

/// `"config"`
pub fn config_word() -> (r: Vec<u8>)
    ensures
        r@ == spec_config_word(),
{
    let mut v: Vec<u8> = Vec::new();
    v.push('c' as u8);
    v.push('o' as u8);
    v.push('n' as u8);
    v.push('f' as u8);
    v.push('i' as u8);
    v.push('g' as u8);
    proof {
        assert(v@ =~= spec_config_word());
    }
    v
}

/// `"("`
pub open spec fn spec_lparen() -> Seq<u8> {
    seq!['(' as u8]
}

/// `"("`
pub fn lparen() -> (r: Vec<u8>)
    ensures
        r@ == spec_lparen(),
{
    let mut v: Vec<u8> = Vec::new();
    v.push('(' as u8);
    proof {
        assert(v@ =~= spec_lparen());
    }
    v
}

/// `")"`
pub open spec fn spec_rparen() -> Seq<u8> {
    seq![')' as u8]
}

/// `")"`
pub fn rparen() -> (r: Vec<u8>)
    ensures
        r@ == spec_rparen(),
{
    let mut v: Vec<u8> = Vec::new();
    v.push(')' as u8);
    proof {
        assert(v@ =~= spec_rparen());
    }
    v
}

/// `"=["`
pub open spec fn spec_eq_lbracket() -> Seq<u8> {
    seq!['=' as u8, '[' as u8]
}

/// `"=["`
pub fn eq_lbracket() -> (r: Vec<u8>)
    ensures
        r@ == spec_eq_lbracket(),
{
    let mut v: Vec<u8> = Vec::new();
    v.push('=' as u8);
    v.push('[' as u8);
    proof {
        assert(v@ =~= spec_eq_lbracket());
    }
    v
}

/// `", "`
pub open spec fn spec_comma_sep() -> Seq<u8> {
    seq![',' as u8, ' ' as u8]
}

/// `", "`
pub fn comma_sep() -> (r: Vec<u8>)
    ensures
        r@ == spec_comma_sep(),
{
    let mut v: Vec<u8> = Vec::new();
    v.push(',' as u8);
    v.push(' ' as u8);
    proof {
        assert(v@ =~= spec_comma_sep());
    }
    v
}

/// `", ...] (n="`
pub open spec fn spec_ellipsis_count() -> Seq<u8> {
    seq![',' as u8, ' ' as u8, '.' as u8, '.' as u8, '.' as u8, ']' as u8, ' ' as u8, '(' as u8, 'n' as u8, '=' as u8]
}

/// `", ...] (n="`
pub fn ellipsis_count() -> (r: Vec<u8>)
    ensures
        r@ == spec_ellipsis_count(),
{
    let mut v: Vec<u8> = Vec::new();
    v.push(',' as u8);
    v.push(' ' as u8);
    v.push('.' as u8);
    v.push('.' as u8);
    v.push('.' as u8);
    v.push(']' as u8);
    v.push(' ' as u8);
    v.push('(' as u8);
    v.push('n' as u8);
    v.push('=' as u8);
    proof {
        assert(v@ =~= spec_ellipsis_count());
    }
    v
}

/// `"] (n="`
pub open spec fn spec_close_count() -> Seq<u8> {
    seq![']' as u8, ' ' as u8, '(' as u8, 'n' as u8, '=' as u8]
}

/// `"] (n="`
pub fn close_count() -> (r: Vec<u8>)
    ensures
        r@ == spec_close_count(),
{
    let mut v: Vec<u8> = Vec::new();
    v.push(']' as u8);
    v.push(' ' as u8);
    v.push('(' as u8);
    v.push('n' as u8);
    v.push('=' as u8);
    proof {
        assert(v@ =~= spec_close_count());
    }
    v
}
} // verus!
