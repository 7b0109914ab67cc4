//! Truncation must never split a multi-byte character: a per-file byte cap
//! is lowered (never raised) to the longest prefix of the content that is
//! valid UTF-8 on its own.

use vstd::prelude::*;
use vstd::utf8::*;

verus! {

/// The largest `e <= min(end, bytes.len())` for which the first `e` bytes
/// form valid UTF-8 on their own.
pub open spec fn spec_clamp_to_utf8_boundary(bytes: Seq<u8>, end: int) -> int
    decreases (if end > bytes.len() { bytes.len() as int } else { end }),
{
    let m = if end > bytes.len() {
        bytes.len() as int
    } else {
        end
    };
    if m <= 0 {
        0
    } else if valid_utf8(bytes.take(m)) {
        m
    } else {
        spec_clamp_to_utf8_boundary(bytes, m - 1)
    }
}

/// What the clamp yields: a position no larger than asked, whose prefix is
/// valid UTF-8, and past which no longer prefix within the cap is valid.
pub proof fn lemma_clamp_to_utf8_boundary(bytes: Seq<u8>, end: int)
    requires
        0 <= end,
    ensures
        ({
            let r = spec_clamp_to_utf8_boundary(bytes, end);
            &&& 0 <= r <= end
            &&& r <= bytes.len()
            &&& valid_utf8(bytes.take(r))
            &&& forall|e: int| r < e <= end && e <= bytes.len() ==> !valid_utf8(bytes.take(e))
        }),
    decreases (if end > bytes.len() { bytes.len() as int } else { end }),
{
    let m = if end > bytes.len() {
        bytes.len() as int
    } else {
        end
    };
    if m <= 0 {
        assert(bytes.take(0) =~= Seq::<u8>::empty());
    } else if valid_utf8(bytes.take(m)) {
    } else {
        lemma_clamp_to_utf8_boundary(bytes, m - 1);
    }
}

/// Checks whether the first byte of `bytes[p..end]` starts a scalar whose
/// whole encoding lies before `end`, and reports its width.
fn first_scalar_width(bytes: &[u8], p: usize, end: usize) -> (r: Option<usize>)
    requires
        p < end,
        end <= bytes@.len(),
    ensures
        match r {
            Some(w) => {
                &&& valid_first_scalar(bytes@.subrange(p as int, end as int))
                &&& w == length_of_first_scalar(bytes@.subrange(p as int, end as int))
                &&& 1 <= w <= 4
                &&& p + w <= end
            },
            None => !valid_first_scalar(bytes@.subrange(p as int, end as int)),
        },
{
    let ghost s = bytes@.subrange(p as int, end as int);
    let b0 = bytes[p];
    proof {
        assert(s[0] == b0);
    }
    if b0 <= 0x7f {
        return Some(1);
    }
    if 0xc0 <= b0 && b0 <= 0xdf {
        if end - p < 2 {
            return None;
        }
        let b1 = bytes[p + 1];
        proof {
            assert(s[1] == b1);
        }
        if !(0x80 <= b1 && b1 <= 0xbf) {
            return None;
        }
        let cp: u32 = (((b0 & 0x1f) as u32) << 6) | ((b1 & 0x3f) as u32);
        proof {
            assert(cp == codepoint_width_2(s[0], s[1]));
        }
        if cp < 0x80 {
            return None;
        }
        proof {
            assert((((b0 & 0x1f) as u32) << 6) | ((b1 & 0x3f) as u32) <= 0x7ff) by (bit_vector);
        }
        return Some(2);
    }
    if 0xe0 <= b0 && b0 <= 0xef {
        if end - p < 3 {
            return None;
        }
        let b1 = bytes[p + 1];
        let b2 = bytes[p + 2];
        proof {
            assert(s[1] == b1);
            assert(s[2] == b2);
        }
        if !(0x80 <= b1 && b1 <= 0xbf) || !(0x80 <= b2 && b2 <= 0xbf) {
            return None;
        }
        let cp: u32 = (((b0 & 0x0f) as u32) << 12) | (((b1 & 0x3f) as u32) << 6) | ((b2
            & 0x3f) as u32);
        proof {
            assert(cp == codepoint_width_3(s[0], s[1], s[2]));
        }
        if cp < 0x800 {
            return None;
        }
        if 0xd800 <= cp && cp <= 0xdfff {
            return None;
        }
        return Some(3);
    }
    if 0xf0 <= b0 && b0 <= 0xf7 {
        if end - p < 4 {
            return None;
        }
        let b1 = bytes[p + 1];
        let b2 = bytes[p + 2];
        let b3 = bytes[p + 3];
        proof {
            assert(s[1] == b1);
            assert(s[2] == b2);
            assert(s[3] == b3);
        }
        if !(0x80 <= b1 && b1 <= 0xbf) || !(0x80 <= b2 && b2 <= 0xbf) || !(0x80 <= b3 && b3
            <= 0xbf) {
            return None;
        }
        let cp: u32 = (((b0 & 0x07) as u32) << 18) | (((b1 & 0x3f) as u32) << 12) | (((b2
            & 0x3f) as u32) << 6) | ((b3 & 0x3f) as u32);
        proof {
            assert(cp == codepoint_width_4(s[0], s[1], s[2], s[3]));
        }
        if cp < 0x10000 || cp > 0x10ffff {
            return None;
        }
        return Some(4);
    }
    None
}

/// Whether the first `end` bytes form valid UTF-8 on their own.
fn utf8_prefix_valid(bytes: &[u8], end: usize) -> (b: bool)
    requires
        end <= bytes@.len(),
    ensures
        b == valid_utf8(bytes@.take(end as int)),
{
    let ghost whole = bytes@.take(end as int);
    let mut p: usize = 0;
    while p < end
        invariant
            p <= end <= bytes@.len(),
            whole == bytes@.take(end as int),
            valid_utf8(whole.subrange(0, p as int)),
        decreases end - p,
    {
        match first_scalar_width(bytes, p, end) {
            Some(w) => {
                proof {
                    assert(whole.subrange(p as int, end as int) =~= bytes@.subrange(
                        p as int,
                        end as int,
                    ));
                    assert(partial_valid_utf8(whole, p as int));
                    partial_valid_utf8_extend(whole, p as int);
                }
                p = p + w;
            },
            None => {
                proof {
                    let suffix = whole.subrange(p as int, whole.len() as int);
                    assert(suffix =~= bytes@.subrange(p as int, end as int));
                    assert(!valid_utf8(suffix));
                    partial_valid_partial_invalid_utf8(whole, p as int);
                }
                return false;
            },
        }
    }
    proof {
        assert(whole.subrange(0, end as int) =~= whole);
    }
    true
}

/// Whether a whole byte slice is valid UTF-8.
pub fn bytes_valid_utf8(bytes: &[u8]) -> (b: bool)
    ensures
        b == valid_utf8(bytes@),
{
    let r = utf8_prefix_valid(bytes, bytes.len());
    proof {
        assert(bytes@.take(bytes@.len() as int) =~= bytes@);
    }
    r
}

/// Lowers `end` to the nearest position that does not split a multi-byte
/// character: the longest prefix of `bytes` within `end` that is valid
/// UTF-8 on its own.
pub fn clamp_to_utf8_boundary(bytes: &[u8], end: usize) -> (r: usize)
    ensures
        r as int == spec_clamp_to_utf8_boundary(bytes@, end as int),
        r <= end,
        valid_utf8(bytes@.take(r as int)),
{
    let mut e: usize = if end > bytes.len() {
        bytes.len()
    } else {
        end
    };
    while e > 0 && !utf8_prefix_valid(bytes, e)
        invariant
            e <= bytes@.len(),
            e <= end,
            spec_clamp_to_utf8_boundary(bytes@, end as int) == spec_clamp_to_utf8_boundary(
                bytes@,
                e as int,
            ),
        decreases e,
    {
        e = e - 1;
    }
    proof {
        if e > 0 {
            assert(valid_utf8(bytes@.take(e as int)));
        } else {
            assert(bytes@.take(0) =~= Seq::<u8>::empty());
        }
    }
    e
}

} // verus!
