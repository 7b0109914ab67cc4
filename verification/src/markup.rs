//! The shape of the artifact's text: file names and extensions of a
//! slash-separated path, the language hint of a fenced code block, and the
//! fixed line fragments around each rendered file.

use vstd::prelude::*;
use crate::byteseq::append_bytes;
use crate::byteseq::bytes_eq;
use crate::tables::{
    bash, fence_prefix, heading_prefix, json, markdown, md, py, python, root_prefix, rs, rust, sh,
    spec_bash, spec_fence_prefix, spec_heading_prefix, spec_json, spec_markdown, spec_md, spec_py,
    spec_python, spec_root_prefix, spec_rs, spec_rust, spec_sh, spec_toml, spec_yaml, spec_yml,
    toml, yaml, yml,
};

verus! {

/// The part of a path after its last slash; the whole path when it has no
/// slash, and empty when it ends in one.
pub open spec fn spec_file_name_of(path: Seq<u8>) -> Seq<u8>
    decreases path.len(),
{
    if path.len() == 0 {
        Seq::empty()
    } else if path.last() == '/' as u8 {
        Seq::empty()
    } else {
        spec_file_name_of(path.drop_last()).push(path.last())
    }
}

/// The file name is the suffix that starts right after the last slash.
proof fn lemma_file_name_from_index(path: Seq<u8>, i: int)
    requires
        0 <= i <= path.len(),
        i == 0 || path[i - 1] == '/' as u8,
        forall|k: int| i <= k < path.len() ==> path[k] != '/' as u8,
    ensures
        spec_file_name_of(path) == path.subrange(i, path.len() as int),
    decreases path.len() - i,
{
    if path.len() == i {
        assert(path.subrange(i, path.len() as int) =~= Seq::<u8>::empty());
        if path.len() != 0 {
            assert(path.last() == '/' as u8);
        }
    } else {
        lemma_file_name_from_index(path.drop_last(), i);
        assert(path.drop_last().subrange(i, path.len() - 1).push(path.last()) =~= path.subrange(
            i,
            path.len() as int,
        ));
    }
}

/// The part of `path` after its last slash.
pub fn file_name_of(path: &[u8]) -> (r: &[u8])
    ensures
        r@ == spec_file_name_of(path@),
{
    let mut i: usize = path.len();
    while i > 0 && path[i - 1] != '/' as u8
        invariant
            i <= path@.len(),
            forall|k: int| i <= k < path@.len() ==> path@[k] != '/' as u8,
        decreases i,
    {
        i = i - 1;
    }
    proof {
        lemma_file_name_from_index(path@, i as int);
    }
    vstd::slice::slice_subrange(path, i, path.len())
}

/// The extension of a file name: what follows the last dot, unless the only
/// dot is the leading one of a hidden name, or there is no dot at all.
pub open spec fn spec_extension_of(name: Seq<u8>) -> Option<Seq<u8>> {
    match name.index_of_last('.' as u8) {
        Some(d) => if d >= 1 {
            Some(name.subrange(d + 1, name.len() as int))
        } else {
            None
        },
        None => None,
    }
}

/// Pins `index_of_last` when the position of the last dot is known.
proof fn lemma_last_dot(name: Seq<u8>, d: int)
    requires
        0 <= d < name.len(),
        name[d] == '.' as u8,
        forall|k: int| d < k < name.len() ==> name[k] != '.' as u8,
    ensures
        name.index_of_last('.' as u8) == Some(d),
{
    name.index_of_last_ensures('.' as u8);
    assert(name.contains('.' as u8));
    if let Some(i) = name.index_of_last('.' as u8) {
        if i < d {
            assert(name[d] == '.' as u8);
            assert(false);
        }
        if i > d {
            assert(name[i] == '.' as u8);
            assert(false);
        }
    }
}

/// Pins `index_of_last` when the name holds no dot.
proof fn lemma_no_dot(name: Seq<u8>)
    requires
        forall|k: int| 0 <= k < name.len() ==> name[k] != '.' as u8,
    ensures
        name.index_of_last('.' as u8) is None,
{
    name.index_of_last_ensures('.' as u8);
    if let Some(i) = name.index_of_last('.' as u8) {
        assert(name[i] == '.' as u8);
        assert(false);
    }
}

/// The extension of a file name, as a slice of it.
pub fn extension_of(name: &[u8]) -> (r: Option<&[u8]>)
    ensures
        match r {
            Some(e) => spec_extension_of(name@) == Some(e@),
            None => spec_extension_of(name@) is None,
        },
{
    let mut i: usize = name.len();
    while i > 0 && name[i - 1] != '.' as u8
        invariant
            i <= name@.len(),
            forall|k: int| i <= k < name@.len() ==> name@[k] != '.' as u8,
        decreases i,
    {
        i = i - 1;
    }
    if i <= 1 {
        proof {
            if i == 1 {
                lemma_last_dot(name@, 0);
            } else {
                lemma_no_dot(name@);
            }
        }
        return None;
    }
    proof {
        lemma_last_dot(name@, i - 1);
    }
    Some(vstd::slice::slice_subrange(name, i, name.len()))
}

/// The language hint of a fenced block, from the path's extension: a fixed
/// lookup of known extensions, empty for everything else.
pub open spec fn spec_language_hint(path: Seq<u8>) -> Seq<u8> {
    match spec_extension_of(spec_file_name_of(path)) {
        Some(e) => if e == spec_rs() {
            spec_rust()
        } else if e == spec_toml() {
            spec_toml()
        } else if e == spec_md() {
            spec_markdown()
        } else if e == spec_yml() || e == spec_yaml() {
            spec_yaml()
        } else if e == spec_json() {
            spec_json()
        } else if e == spec_py() {
            spec_python()
        } else if e == spec_sh() {
            spec_bash()
        } else {
            Seq::empty()
        },
        None => Seq::empty(),
    }
}

/// The language hint of a fenced block for the file at `path`.
pub fn language_hint(path: &[u8]) -> (r: Vec<u8>)
    ensures
        r@ == spec_language_hint(path@),
{
    let name = file_name_of(path);
    match extension_of(name) {
        None => Vec::new(),
        Some(e) => {
            if bytes_eq(e, rs().as_slice()) {
                rust()
            } else if bytes_eq(e, toml().as_slice()) {
                toml()
            } else if bytes_eq(e, md().as_slice()) {
                markdown()
            } else if bytes_eq(e, yml().as_slice()) || bytes_eq(e, yaml().as_slice()) {
                yaml()
            } else if bytes_eq(e, json().as_slice()) {
                json()
            } else if bytes_eq(e, py().as_slice()) {
                python()
            } else if bytes_eq(e, sh().as_slice()) {
                bash()
            } else {
                Vec::new()
            }
        },
    }
}

/// The line naming the packed root: `- root: <root>`.
pub open spec fn spec_root_line(root: Seq<u8>) -> Seq<u8> {
    spec_root_prefix() + root
}

/// The line naming the packed root: `- root: <root>`.
pub fn root_line(root: &[u8]) -> (r: Vec<u8>)
    ensures
        r@ == spec_root_line(root@),
{
    let mut v = root_prefix();
    append_bytes(&mut v, root);
    v
}

/// The heading line of one file block: `## <relative path>`.
pub open spec fn spec_file_heading(rel: Seq<u8>) -> Seq<u8> {
    spec_heading_prefix() + rel
}

/// The heading line of one file block: `## <relative path>`.
pub fn file_heading(rel: &[u8]) -> (r: Vec<u8>)
    ensures
        r@ == spec_file_heading(rel@),
{
    let mut v = heading_prefix();
    append_bytes(&mut v, rel);
    v
}

/// The opening fence of one file block, with its language hint.
pub open spec fn spec_code_fence_open(path: Seq<u8>) -> Seq<u8> {
    spec_fence_prefix() + spec_language_hint(path)
}

/// The opening fence of one file block, with its language hint.
pub fn code_fence_open(path: &[u8]) -> (r: Vec<u8>)
    ensures
        r@ == spec_code_fence_open(path@),
{
    let mut v = fence_prefix();
    let hint = language_hint(path);
    append_bytes(&mut v, hint.as_slice());
    v
}

} // verus!
