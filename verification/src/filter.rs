//! The entry filter: which tree entries are visible at all, independent of
//! any user-supplied pattern. Directory subtrees can be pruned outright;
//! individual files can be skipped. Secret-shaped names are skipped
//! unconditionally — no later policy and no selector can restore them.

use vstd::prelude::*;
use vstd::utf8::valid_utf8;
use crate::byteseq::{
    bytes_eq, eq_ignore_ascii_case, spec_eq_ignore_ascii_case, spec_starts_with, starts_with,
};
use crate::clamp::bytes_valid_utf8;
use crate::markup::{extension_of, file_name_of, spec_extension_of, spec_file_name_of};
use crate::tables::{
    bin, bz2, cargo_lock_file, debug_output_file, dll, dot_env, dot_env_prefix, dylib, exe,
    git_dir, gif, gz, jpeg, jpg, key, license_file, makefile_file, mov, mp3, mp4, node_modules_dir,
    otf, p12, pdf, pem, pfx, png, sevenz, so, spec_bin, spec_bz2, spec_cargo_lock_file,
    spec_debug_output_file, spec_dll, spec_dot_env, spec_dot_env_prefix, spec_dylib, spec_exe,
    spec_gif, spec_git_dir, spec_gz, spec_jpeg, spec_jpg, spec_key, spec_license_file,
    spec_makefile_file, spec_mov, spec_mp3, spec_mp4, spec_node_modules_dir, spec_otf, spec_p12,
    spec_pdf, spec_pem, spec_pfx, spec_png, spec_sevenz, spec_so, spec_target_dir, spec_ttf,
    spec_wav, spec_webp, spec_woff, spec_woff2, spec_xz, spec_zip, target_dir, ttf, wav, webp,
    woff, woff2, xz, zip,
};

verus! {

/// A name beginning with a dot is hidden, except the bare current-directory
/// marker.
pub open spec fn spec_is_hidden(name: Seq<u8>) -> bool {
    name.len() > 0 && name[0] == '.' as u8 && name != seq!['.' as u8]
}

/// A secret-shaped name: the reserved filename, or the reserved prefix.
pub open spec fn spec_is_secret_name(name: Seq<u8>) -> bool {
    name == spec_dot_env() || spec_starts_with(name, spec_dot_env_prefix())
}

/// Directory names whose whole subtree is always pruned.
pub open spec fn spec_is_pruned_dir(name: Seq<u8>) -> bool {
    name == spec_git_dir() || name == spec_target_dir() || name == spec_node_modules_dir()
}

/// License, build-metadata, lockfile and self-output names skipped by
/// default.
pub open spec fn spec_is_excluded_filename(name: Seq<u8>) -> bool {
    ||| name == spec_license_file()
    ||| name == spec_makefile_file()
    ||| name == spec_cargo_lock_file()
    ||| name == spec_debug_output_file()
}

/// The fixed list of private-key and certificate-like extensions.
pub open spec fn spec_secret_exts() -> Seq<Seq<u8>> {
    seq![spec_pem(), spec_key(), spec_p12(), spec_pfx()]
}

/// The fixed list of binary, media, archive and compiled-artifact
/// extensions.
pub open spec fn spec_excluded_exts() -> Seq<Seq<u8>> {
    seq![
        spec_png(),
        spec_jpg(),
        spec_jpeg(),
        spec_gif(),
        spec_webp(),
        spec_pdf(),
        spec_zip(),
        spec_gz(),
        spec_bz2(),
        spec_xz(),
        spec_sevenz(),
        spec_woff(),
        spec_woff2(),
        spec_ttf(),
        spec_otf(),
        spec_mp4(),
        spec_mov(),
        spec_mp3(),
        spec_wav(),
        spec_bin(),
        spec_exe(),
        spec_dll(),
        spec_so(),
        spec_dylib(),
    ]
}

/// The private-key and certificate-like extensions, as byte strings.
pub fn secret_exts() -> (r: Vec<Vec<u8>>)
    ensures
        r@.map_values(|v: Vec<u8>| v@) == spec_secret_exts(),
{
    let mut v: Vec<Vec<u8>> = Vec::new();
    v.push(pem());
    v.push(key());
    v.push(p12());
    v.push(pfx());
    proof {
        assert(v@.map_values(|x: Vec<u8>| x@) =~= spec_secret_exts());
    }
    v
}

/// The binary, media, archive and compiled-artifact extensions, as byte
/// strings.
pub fn excluded_exts() -> (r: Vec<Vec<u8>>)
    ensures
        r@.map_values(|v: Vec<u8>| v@) == spec_excluded_exts(),
{
    let mut v: Vec<Vec<u8>> = Vec::new();
    v.push(png());
    v.push(jpg());
    v.push(jpeg());
    v.push(gif());
    v.push(webp());
    v.push(pdf());
    v.push(zip());
    v.push(gz());
    v.push(bz2());
    v.push(xz());
    v.push(sevenz());
    v.push(woff());
    v.push(woff2());
    v.push(ttf());
    v.push(otf());
    v.push(mp4());
    v.push(mov());
    v.push(mp3());
    v.push(wav());
    v.push(bin());
    v.push(exe());
    v.push(dll());
    v.push(so());
    v.push(dylib());
    proof {
        assert(v@.map_values(|x: Vec<u8>| x@) =~= spec_excluded_exts());
    }
    v
}

/// Whether the path's extension is one of `exts`, compared without regard
/// to ASCII case.
pub open spec fn spec_has_extension_in(path: Seq<u8>, exts: Seq<Seq<u8>>) -> bool {
    match spec_extension_of(spec_file_name_of(path)) {
        Some(e) => exists|i: int|
            0 <= i < exts.len() && spec_eq_ignore_ascii_case(e, exts[i]),
        None => false,
    }
}

/// Whether the path's extension is one of `exts`, without regard to ASCII
/// case.
pub fn has_extension_in(path: &[u8], exts: &Vec<Vec<u8>>) -> (r: bool)
    ensures
        r == spec_has_extension_in(path@, exts@.map_values(|v: Vec<u8>| v@)),
{
    let name = file_name_of(path);
    match extension_of(name) {
        None => false,
        Some(e) => {
            let mut i: usize = 0;
            while i < exts.len()
                invariant
                    i <= exts@.len(),
                    spec_extension_of(spec_file_name_of(path@)) == Some(e@),
                    forall|k: int|
                        0 <= k < i ==> !spec_eq_ignore_ascii_case(e@, #[trigger] exts@[k]@),
                decreases exts@.len() - i,
            {
                if eq_ignore_ascii_case(e, exts[i].as_slice()) {
                    proof {
                        assert(exts@.map_values(|v: Vec<u8>| v@)[i as int] == exts@[i as int]@);
                    }
                    return true;
                }
                i += 1;
            }
            proof {
                assert(forall|k: int|
                    0 <= k < exts@.len() ==> exts@.map_values(|v: Vec<u8>| v@)[k]
                        == #[trigger] exts@[k]@);
            }
            false
        },
    }
}

/// Whether a name beginning with a dot is hidden.
pub fn is_hidden(name: &[u8]) -> (r: bool)
    ensures
        r == spec_is_hidden(name@),
{
    if name.len() == 0 {
        return false;
    }
    if name[0] != '.' as u8 {
        return false;
    }
    if name.len() == 1 {
        proof {
            assert(name@ =~= seq!['.' as u8]);
        }
        return false;
    }
    proof {
        assert(name@.len() > 1);
        assert(name@ != seq!['.' as u8]);
    }
    true
}

/// Whether a name is secret-shaped.
pub fn is_secret_name(name: &[u8]) -> (r: bool)
    ensures
        r == spec_is_secret_name(name@),
{
    let env = dot_env();
    if bytes_eq(name, env.as_slice()) {
        return true;
    }
    let pre = dot_env_prefix();
    starts_with(name, pre.as_slice())
}

/// Whether a name is one of the default-excluded file names.
fn is_excluded_filename(name: &[u8]) -> (r: bool)
    ensures
        r == spec_is_excluded_filename(name@),
{
    let a = license_file();
    let b = makefile_file();
    let c = cargo_lock_file();
    let d = debug_output_file();
    bytes_eq(name, a.as_slice()) || bytes_eq(name, b.as_slice()) || bytes_eq(name, c.as_slice())
        || bytes_eq(name, d.as_slice())
}

/// Whether a walked entry's whole subtree is pruned: always for the fixed
/// directory names, and for hidden names unless hidden entries are asked
/// for.
pub open spec fn spec_should_prune_walk_entry(
    name: Seq<u8>,
    is_dir: bool,
    include_hidden: bool,
) -> bool {
    ||| (is_dir && spec_is_pruned_dir(name))
    ||| (!include_hidden && spec_is_hidden(name))
}

/// Whether a walked entry's whole subtree is pruned.
pub fn should_prune_walk_entry(name: &[u8], is_dir: bool, include_hidden: bool) -> (r: bool)
    ensures
        r == spec_should_prune_walk_entry(name@, is_dir, include_hidden),
{
    if is_dir {
        let g = git_dir();
        let t = target_dir();
        let n = node_modules_dir();
        if bytes_eq(name, g.as_slice()) || bytes_eq(name, t.as_slice()) || bytes_eq(
            name,
            n.as_slice(),
        ) {
            return true;
        }
    }
    !include_hidden && is_hidden(name)
}

/// Whether a visible file is skipped, independent of user patterns. In
/// order of precedence: a name that is not valid path text (fails closed),
/// secret names and prefixes, default-excluded file names, the hidden-file
/// policy, excluded extensions, and secret extensions.
pub open spec fn spec_should_skip_file(path: Seq<u8>, include_hidden: bool) -> bool {
    let name = spec_file_name_of(path);
    ||| !valid_utf8(name)
    ||| spec_is_secret_name(name)
    ||| spec_is_excluded_filename(name)
    ||| (!include_hidden && spec_is_hidden(name))
    ||| spec_has_extension_in(path, spec_excluded_exts())
    ||| spec_has_extension_in(path, spec_secret_exts())
}

/// Whether a visible file is skipped, independent of user patterns.
pub fn should_skip_file(path: &[u8], include_hidden: bool) -> (r: bool)
    ensures
        r == spec_should_skip_file(path@, include_hidden),
{
    let name = file_name_of(path);
    if !bytes_valid_utf8(name) {
        return true;
    }
    if is_secret_name(name) {
        return true;
    }
    if is_excluded_filename(name) {
        return true;
    }
    if !include_hidden && is_hidden(name) {
        return true;
    }
    let exts = excluded_exts();
    if has_extension_in(path, &exts) {
        return true;
    }
    let sexts = secret_exts();
    has_extension_in(path, &sexts)
}

/// A secret-shaped file name is skipped whatever the hidden-file policy
/// says: the skip rule for secrets does not consult `include_hidden`.
pub proof fn lemma_secret_always_skipped(path: Seq<u8>, include_hidden: bool)
    requires
        spec_is_secret_name(spec_file_name_of(path)),
    ensures
        spec_should_skip_file(path, include_hidden),
{
}

/// Hidden-file gating: with hidden entries excluded, a hidden name is
/// always skipped; with hidden entries included, hiddenness alone never
/// causes a skip — only the other rules can.
pub proof fn lemma_hidden_file_gating(path: Seq<u8>)
    ensures
        spec_is_hidden(spec_file_name_of(path)) ==> spec_should_skip_file(path, false),
        spec_should_skip_file(path, true) <==> {
            let name = spec_file_name_of(path);
            ||| !valid_utf8(name)
            ||| spec_is_secret_name(name)
            ||| spec_is_excluded_filename(name)
            ||| spec_has_extension_in(path, spec_excluded_exts())
            ||| spec_has_extension_in(path, spec_secret_exts())
        },
{
}

} // verus!
