//! Pack configuration: the optional settings a configuration file may
//! carry, how they combine with command-line arguments into the effective
//! settings of one pack run, where the nearest configuration file lives,
//! and the one-line summary of a pattern list for verbose output.

use vstd::prelude::*;
use crate::byteseq::append_bytes;
use crate::dump::spec_min;
use crate::tables::{
    cli_word, close_count, comma_sep, config_file, config_word, ellipsis_count, eq_lbracket,
    lparen, none_marker, rparen, slash, spec_cli_word, spec_close_count, spec_comma_sep,
    spec_config_file, spec_config_word, spec_ellipsis_count, spec_eq_lbracket, spec_lparen,
    spec_none_marker, spec_rparen, spec_slash,
};

verus! {

/// The per-file byte limit used when neither the command line nor a
/// configuration file names one.
pub const DEFAULT_MAX_FILE_BYTES: usize = 20_000;

/// The whole-document byte limit used when neither the command line nor a
/// configuration file names one.
pub const DEFAULT_MAX_TOTAL_BYTES: usize = 400_000;

/// The optional settings a `dumpo.toml` may carry. Every field is
/// optional; an absent field defers to the command line or the defaults.
pub struct DumpoConfig {
    pub max_file_bytes: Option<usize>,
    pub max_total_bytes: Option<usize>,
    pub include_hidden: Option<bool>,
    pub include_patterns: Option<Vec<String>>,
    pub exclude_patterns: Option<Vec<String>>,
}

impl Default for DumpoConfig {
    /// The empty configuration: nothing set, everything deferred.
    fn default() -> (r: DumpoConfig)
        ensures
            r.max_file_bytes is None,
            r.max_total_bytes is None,
            r.include_hidden is None,
            r.include_patterns is None,
            r.exclude_patterns is None,
    {
        DumpoConfig {
            max_file_bytes: None,
            max_total_bytes: None,
            include_hidden: None,
            include_patterns: None,
            exclude_patterns: None,
        }
    }
}

/// The settings one pack run actually uses, after command line,
/// configuration file and defaults have been reconciled.
pub struct EffectiveSettings {
    pub max_file_bytes: usize,
    pub max_total_bytes: usize,
    pub include_hidden: bool,
    pub include_patterns: Vec<String>,
    pub include_from_cli: bool,
    pub exclude_patterns: Vec<String>,
    pub exclude_from_cli: bool,
}

/// The first of two optional values, or a default.
pub open spec fn spec_resolved<T>(cli: Option<T>, cfg: Option<T>, default_value: T) -> T {
    match cli {
        Some(v) => v,
        None => match cfg {
            Some(v) => v,
            None => default_value,
        },
    }
}

/// Reconciles command-line arguments with a configuration file: each limit
/// takes the command-line value first, then the configuration, then the
/// default; a pattern list given on the command line replaces the
/// configured one entirely.
pub fn resolve_pack_settings(
    cli_max_file_bytes: Option<usize>,
    cli_max_total_bytes: Option<usize>,
    cli_include_hidden: Option<bool>,
    cli_no_include_hidden: Option<bool>,
    cli_include_patterns: Vec<String>,
    cli_exclude_patterns: Vec<String>,
    cfg: DumpoConfig,
) -> (r: EffectiveSettings)
    ensures
        r.max_file_bytes == spec_resolved(
            cli_max_file_bytes,
            cfg.max_file_bytes,
            DEFAULT_MAX_FILE_BYTES,
        ),
        r.max_total_bytes == spec_resolved(
            cli_max_total_bytes,
            cfg.max_total_bytes,
            DEFAULT_MAX_TOTAL_BYTES,
        ),
        r.include_hidden == spec_resolved(
            match cli_include_hidden {
                Some(v) => Some(v),
                None => cli_no_include_hidden,
            },
            cfg.include_hidden,
            false,
        ),
        cli_include_patterns@.len() > 0 ==> r.include_from_cli && r.include_patterns@
            == cli_include_patterns@,
        cli_include_patterns@.len() == 0 ==> !r.include_from_cli && r.include_patterns@ == (
        match cfg.include_patterns {
            Some(p) => p@,
            None => Seq::<String>::empty(),
        }),
        cli_exclude_patterns@.len() > 0 ==> r.exclude_from_cli && r.exclude_patterns@
            == cli_exclude_patterns@,
        cli_exclude_patterns@.len() == 0 ==> !r.exclude_from_cli && r.exclude_patterns@ == (
        match cfg.exclude_patterns {
            Some(p) => p@,
            None => Seq::<String>::empty(),
        }),
{
    let max_file_bytes = match cli_max_file_bytes {
        Some(v) => v,
        None => match cfg.max_file_bytes {
            Some(v) => v,
            None => DEFAULT_MAX_FILE_BYTES,
        },
    };
    let max_total_bytes = match cli_max_total_bytes {
        Some(v) => v,
        None => match cfg.max_total_bytes {
            Some(v) => v,
            None => DEFAULT_MAX_TOTAL_BYTES,
        },
    };
    let include_hidden = match cli_include_hidden {
        Some(v) => v,
        None => match cli_no_include_hidden {
            Some(v) => v,
            None => match cfg.include_hidden {
                Some(v) => v,
                None => false,
            },
        },
    };
    let (include_from_cli, include_patterns) = if cli_include_patterns.len() > 0 {
        (true, cli_include_patterns)
    } else {
        (
            false,
            match cfg.include_patterns {
                Some(p) => p,
                None => Vec::new(),
            },
        )
    };
    let (exclude_from_cli, exclude_patterns) = if cli_exclude_patterns.len() > 0 {
        (true, cli_exclude_patterns)
    } else {
        (
            false,
            match cfg.exclude_patterns {
                Some(p) => p,
                None => Vec::new(),
            },
        )
    };
    EffectiveSettings {
        max_file_bytes,
        max_total_bytes,
        include_hidden,
        include_patterns,
        include_from_cli,
        exclude_patterns,
        exclude_from_cli,
    }
}

/// The configuration file's path inside one directory: the directory, a
/// slash unless the directory already ends in one, and the file name.
pub open spec fn spec_config_path_in(dir: Seq<u8>) -> Seq<u8> {
    if dir.len() > 0 && dir.last() == '/' as u8 {
        dir + spec_config_file()
    } else {
        dir + spec_slash() + spec_config_file()
    }
}

/// The index of the nearest directory that holds a configuration file.
pub open spec fn spec_first_config_index(has_config: Seq<bool>) -> Option<int>
    decreases has_config.len(),
{
    if has_config.len() == 0 {
        None
    } else if has_config[0] {
        Some(0)
    } else {
        match spec_first_config_index(has_config.subrange(1, has_config.len() as int)) {
            Some(i) => Some(i + 1),
            None => None,
        }
    }
}

/// Picks the configuration file of the nearest ancestor directory that
/// has one. `ancestors` lists the candidate directories nearest first;
/// `has_config[i]` says whether `ancestors[i]` holds the file.
pub fn find_nearest_config_path(ancestors: &Vec<Vec<u8>>, has_config: &Vec<bool>) -> (r: Option<
    Vec<u8>,
>)
    requires
        ancestors@.len() == has_config@.len(),
    ensures
        match spec_first_config_index(has_config@) {
            Some(i) => r matches Some(p) && p@ == spec_config_path_in(ancestors@[i]@),
            None => r is None,
        },
{
    proof {
        assert(has_config@.skip(0) =~= has_config@);
    }
    let mut i: usize = 0;
    while i < ancestors.len()
        invariant
            ancestors@.len() == has_config@.len(),
            i <= ancestors@.len(),
            forall|k: int| 0 <= k < i ==> !has_config@[k],
            spec_first_config_index(has_config@.skip(i as int)) matches Some(j)
                ==> spec_first_config_index(has_config@) == Some(j + i),
            spec_first_config_index(has_config@.skip(i as int)) is None
                ==> spec_first_config_index(has_config@) is None,
        decreases ancestors@.len() - i,
    {
        proof {
            let rest = has_config@.skip(i as int);
            assert(rest[0] == has_config@[i as int]);
            assert(rest.subrange(1, rest.len() as int) =~= has_config@.skip(i + 1));
        }
        if has_config[i] {
            let dir = &ancestors[i];
            let mut p = vstd::slice::slice_to_vec(dir.as_slice());
            if p.len() == 0 || p[p.len() - 1] != '/' as u8 {
                let s = slash();
                append_bytes(&mut p, s.as_slice());
            }
            let cf = config_file();
            append_bytes(&mut p, cf.as_slice());
            return Some(p);
        }
        i += 1;
    }
    proof {
        assert(has_config@.skip(ancestors@.len() as int) =~= Seq::<bool>::empty());
    }
    None
}

/// A decimal digit.
pub open spec fn spec_digit(d: nat) -> u8 {
    ('0' as u8 + d) as u8
}

/// The decimal rendering of a number.
pub open spec fn spec_decimal(n: nat) -> Seq<u8>
    decreases n,
{
    if n < 10 {
        seq![spec_digit(n)]
    } else {
        spec_decimal(n / 10).push(spec_digit(n % 10))
    }
}

/// Renders a number in decimal.
fn decimal_bytes(n: usize) -> (r: Vec<u8>)
    ensures
        r@ == spec_decimal(n as nat),
    decreases n,
{
    if n < 10 {
        let mut v: Vec<u8> = Vec::new();
        v.push('0' as u8 + (n as u8));
        proof {
            assert(v@ =~= spec_decimal(n as nat));
        }
        v
    } else {
        let mut v = decimal_bytes(n / 10);
        v.push('0' as u8 + ((n % 10) as u8));
        v
    }
}

/// A pattern list joined by `", "`.
pub open spec fn spec_join_patterns(pats: Seq<Seq<u8>>) -> Seq<u8>
    decreases pats.len(),
{
    if pats.len() == 0 {
        Seq::empty()
    } else if pats.len() == 1 {
        pats[0]
    } else {
        pats[0] + spec_comma_sep() + spec_join_patterns(pats.subrange(1, pats.len() as int))
    }
}

/// Appending one pattern extends the joined text by a separator and the
/// pattern.
proof fn lemma_join_snoc(pats: Seq<Seq<u8>>, x: Seq<u8>)
    ensures
        spec_join_patterns(pats.push(x)) == if pats.len() == 0 {
            x
        } else {
            spec_join_patterns(pats) + spec_comma_sep() + x
        },
    decreases pats.len(),
{
    let p = pats.push(x);
    if pats.len() == 0 {
        assert(p.len() == 1);
        assert(p[0] == x);
    } else {
        assert(p[0] == pats[0]);
        let rest = pats.subrange(1, pats.len() as int);
        lemma_join_snoc(rest, x);
        assert(p.subrange(1, p.len() as int) =~= rest.push(x));
        if pats.len() == 1 {
            assert(rest.len() == 0);
            assert(spec_join_patterns(p) == pats[0] + spec_comma_sep() + x);
        } else {
            assert(spec_join_patterns(pats) + spec_comma_sep() + x =~= pats[0] + spec_comma_sep()
                + (spec_join_patterns(rest) + spec_comma_sep() + x));
        }
    }
}

/// The one-line summary of a pattern list for verbose output: the label,
/// where the patterns came from, at most twenty of them, and the count.
pub open spec fn spec_summarize_patterns(
    label: Seq<u8>,
    from_cli: bool,
    pats: Seq<Seq<u8>>,
) -> Seq<u8> {
    if pats.len() == 0 {
        label + spec_none_marker()
    } else {
        let n = spec_min(20, pats.len() as int);
        let src = if from_cli {
            spec_cli_word()
        } else {
            spec_config_word()
        };
        let tail = if pats.len() > n {
            spec_ellipsis_count()
        } else {
            spec_close_count()
        };
        label + spec_lparen() + src + spec_rparen() + spec_eq_lbracket() + spec_join_patterns(
            pats.take(n),
        ) + tail + spec_decimal(pats.len() as nat) + spec_rparen()
    }
}

/// Writes the one-line summary of a pattern list for verbose output.
pub fn summarize_patterns(label: &[u8], from_cli: bool, patterns: &Vec<Vec<u8>>) -> (r: Vec<u8>)
    ensures
        r@ == spec_summarize_patterns(
            label@,
            from_cli,
            patterns@.map_values(|p: Vec<u8>| p@),
        ),
{
    let ghost pats = patterns@.map_values(|p: Vec<u8>| p@);
    if patterns.len() == 0 {
        let mut v: Vec<u8> = Vec::new();
        append_bytes(&mut v, label);
        let nm = none_marker();
        append_bytes(&mut v, nm.as_slice());
        return v;
    }
    let n: usize = if patterns.len() < 20 {
        patterns.len()
    } else {
        20
    };
    let mut head: Vec<u8> = Vec::new();
    let mut i: usize = 0;
    while i < n
        invariant
            i <= n <= patterns@.len(),
            pats == patterns@.map_values(|p: Vec<u8>| p@),
            head@ == spec_join_patterns(pats.take(i as int)),
        decreases n - i,
    {
        if i > 0 {
            let cs = comma_sep();
            append_bytes(&mut head, cs.as_slice());
        }
        append_bytes(&mut head, patterns[i].as_slice());
        i += 1;
        proof {
            assert(pats.take(i as int).drop_last() =~= pats.take(i - 1));
            assert(pats.take(i as int) =~= pats.take(i - 1).push(pats[i - 1]));
            lemma_join_snoc(pats.take(i - 1), pats[i - 1]);
        }
    }
    let mut v: Vec<u8> = Vec::new();
    append_bytes(&mut v, label);
    let lp = lparen();
    append_bytes(&mut v, lp.as_slice());
    if from_cli {
        let w = cli_word();
        append_bytes(&mut v, w.as_slice());
    } else {
        let w = config_word();
        append_bytes(&mut v, w.as_slice());
    }
    let rp = rparen();
    append_bytes(&mut v, rp.as_slice());
    let eb = eq_lbracket();
    append_bytes(&mut v, eb.as_slice());
    append_bytes(&mut v, head.as_slice());
    if patterns.len() > n {
        let t = ellipsis_count();
        append_bytes(&mut v, t.as_slice());
    } else {
        let t = close_count();
        append_bytes(&mut v, t.as_slice());
    }
    let d = decimal_bytes(patterns.len());
    append_bytes(&mut v, d.as_slice());
    let rp2 = rparen();
    append_bytes(&mut v, rp2.as_slice());
    v
}

} // verus!
