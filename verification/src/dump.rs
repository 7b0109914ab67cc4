//! The dump builder: renders the enumerated files into one markdown
//! artifact through the budget writer, applying per-file and
//! whole-document truncation. The whole artifact never exceeds the
//! caller's total byte ceiling.

use vstd::prelude::*;
use vstd::utf8::valid_utf8;
use crate::byteseq::append_bytes;
use crate::clamp::{
    clamp_to_utf8_boundary, lemma_clamp_to_utf8_boundary, spec_clamp_to_utf8_boundary,
};
use crate::markup::{
    code_fence_open, file_heading, root_line, spec_code_fence_open, spec_file_heading,
    spec_root_line,
};
use crate::tables::{
    codeblock_close, dump_title, file_truncated_marker, spec_codeblock_close, spec_dump_title,
    spec_file_truncated_marker, spec_truncation_footer, truncation_footer,
};
use crate::writer::{Out, PrintError, spec_push, spec_push_line};

verus! {

/// One file to render: its relative path, its absolute path, and its raw
/// content.
pub struct FileInput {
    pub rel: Vec<u8>,
    pub abs: Vec<u8>,
    pub content: Vec<u8>,
}

/// The mathematical shadow of a [`FileInput`].
pub ghost struct FileInputView {
    pub rel: Seq<u8>,
    pub abs: Seq<u8>,
    pub content: Seq<u8>,
}

impl View for FileInput {
    type V = FileInputView;

    open spec fn view(&self) -> FileInputView {
        FileInputView { rel: self.rel@, abs: self.abs@, content: self.content@ }
    }
}

/// The views of a sequence of file inputs.
pub open spec fn file_views(s: Seq<FileInput>) -> Seq<FileInputView> {
    s.map_values(|f: FileInput| f@)
}

/// A file holding a NUL byte anywhere is treated as binary, not text.
pub open spec fn spec_looks_binary(content: Seq<u8>) -> bool {
    content.contains(0u8)
}

/// Whether the content holds a NUL byte.
pub fn looks_binary(bytes: &[u8]) -> (r: bool)
    ensures
        r == spec_looks_binary(bytes@),
{
    let mut i: usize = 0;
    while i < bytes.len()
        invariant
            i <= bytes@.len(),
            forall|k: int| 0 <= k < i ==> bytes@[k] != 0u8,
        decreases bytes@.len() - i,
    {
        if bytes[i] == 0 {
            proof {
                assert(bytes@.contains(0u8));
            }
            return true;
        }
        i += 1;
    }
    proof {
        if bytes@.contains(0u8) {
            let w = choose|w: int| 0 <= w < bytes@.len() && bytes@[w] == 0u8;
            assert(false);
        }
    }
    false
}

/// The smaller of two quantities.
pub open spec fn spec_min(a: int, b: int) -> int {
    if a < b {
        a
    } else {
        b
    }
}

/// The writes of one file block after its content cap is settled: the
/// capped content, a closing newline when the content does not end in one,
/// the closing fence, and — when the file was cut short — the truncation
/// marker. The flag is false as soon as one write does not fit.
pub open spec fn spec_print_tail(buf: Seq<u8>, max: nat, content: Seq<u8>, cap: int) -> (
    Seq<u8>,
    bool,
) {
    let (b4, ok4) = spec_push(buf, max, content.take(cap));
    if !ok4 {
        (b4, false)
    } else {
        let (b5, ok5) = if cap == 0 || content[cap - 1] != '\n' as u8 {
            spec_push_line(b4, max, Seq::<u8>::empty())
        } else {
            (b4, true)
        };
        if !ok5 {
            (b5, false)
        } else {
            let (b6, ok6) = spec_push(b5, max, spec_codeblock_close());
            if !ok6 {
                (b6, false)
            } else if cap < content.len() {
                spec_push(b6, max, spec_file_truncated_marker())
            } else {
                (b6, true)
            }
        }
    }
}

/// The heading line, blank line and opening fence of one file block, each
/// subject to the budget. A false flag reports the first line that did
/// not fit, with the buffer as committed up to that point.
pub open spec fn spec_print_head(buf: Seq<u8>, max: nat, rel: Seq<u8>, abs: Seq<u8>) -> (
    Seq<u8>,
    bool,
) {
    let (b1, ok1) = spec_push_line(buf, max, spec_file_heading(rel));
    let (b2, ok2) = spec_push_line(b1, max, Seq::<u8>::empty());
    let (b3, ok3) = spec_push_line(b2, max, spec_code_fence_open(abs));
    if !ok1 {
        (b1, false)
    } else if !ok2 {
        (b2, false)
    } else if !ok3 {
        (b3, false)
    } else {
        (b3, true)
    }
}

/// The single effective content cap of one file block, settled before any
/// content byte is written: the per-file limit, the room `remaining`
/// leaves for the closing fence (and, when the file will be cut short,
/// also for the truncation marker), and the nearest UTF-8 boundary,
/// whichever bites first. `None` when no content fits at all: the
/// document is cut short here.
pub open spec fn spec_content_cap(remaining: int, content: Seq<u8>, max_file: nat) -> Option<int> {
    if remaining <= spec_codeblock_close().len() {
        None
    } else {
        let max_content = remaining - spec_codeblock_close().len();
        let cap0 = spec_min(max_file as int, spec_min(max_content, content.len() as int));
        let needed = spec_codeblock_close().len() + spec_file_truncated_marker().len();
        if cap0 < content.len() && remaining <= needed {
            None
        } else {
            let capm = if cap0 < content.len() {
                spec_min(cap0, remaining - needed)
            } else {
                cap0
            };
            Some(spec_clamp_to_utf8_boundary(content, capm))
        }
    }
}

/// Rendering one file block into a buffer of capacity `max`: the head
/// lines, then — under the single effective cap — the content and the
/// block's tail. A false flag means the block could not be completed: the
/// document is cut short here.
pub open spec fn spec_print_file(
    buf: Seq<u8>,
    max: nat,
    rel: Seq<u8>,
    abs: Seq<u8>,
    content: Seq<u8>,
    max_file: nat,
) -> (Seq<u8>, bool) {
    let (b3, okh) = spec_print_head(buf, max, rel, abs);
    if !okh {
        (b3, false)
    } else {
        match spec_content_cap(max - b3.len(), content, max_file) {
            None => (b3, false),
            Some(cap) => spec_print_tail(b3, max, content, cap),
        }
    }
}

/// Renders one file block, mirroring [`spec_print_file`]. On
/// `TotalLimitReached` the writes already committed stay, and the caller
/// stops rendering further files.
pub fn print_file(
    out: &mut Out,
    rel: &[u8],
    abs: &[u8],
    bytes: &[u8],
    max_file_bytes: usize,
) -> (r: Result<(), PrintError>)
    requires
        old(out).wf(),
    ensures
        final(out).wf(),
        final(out).max_spec() == old(out).max_spec(),
        ({
            let (b, ok) = spec_print_file(
                old(out).buf_spec(),
                old(out).max_spec(),
                rel@,
                abs@,
                bytes@,
                max_file_bytes as nat,
            );
            final(out).buf_spec() == b && (r is Ok <==> ok)
        }),
{
    let heading = file_heading(rel);
    out.push_line(heading.as_slice())?;
    let blank: [u8; 0] = [];
    proof {
        assert(blank@ =~= Seq::<u8>::empty());
    }
    out.push_line(blank.as_slice())?;
    let fence = code_fence_open(abs);
    out.push_line(fence.as_slice())?;

    let remaining = out.remaining();
    let close = codeblock_close();
    if remaining <= close.len() {
        return Err(PrintError::TotalLimitReached);
    }
    let max_content = remaining - close.len();
    let mut cap: usize = max_file_bytes;
    if max_content < cap {
        cap = max_content;
    }
    if bytes.len() < cap {
        cap = bytes.len();
    }
    if cap < bytes.len() {
        let marker = file_truncated_marker();
        let needed = close.len() + marker.len();
        if remaining <= needed {
            return Err(PrintError::TotalLimitReached);
        }
        let room = remaining - needed;
        if room < cap {
            cap = room;
        }
    }
    let cap = clamp_to_utf8_boundary(bytes, cap);
    let content = vstd::slice::slice_subrange(bytes, 0, cap);
    out.push_str(content)?;
    if cap == 0 || bytes[cap - 1] != '\n' as u8 {
        out.push_line(blank.as_slice())?;
    }
    out.push_str(close.as_slice())?;
    if cap < bytes.len() {
        let marker = file_truncated_marker();
        out.push_str(marker.as_slice())?;
    }
    Ok(())
}

/// Rendering a list of files in order: binary files are passed over
/// entirely; the first block that cannot be completed stops the loop and
/// reports whole-document truncation.
pub open spec fn spec_render_files(
    buf: Seq<u8>,
    max: nat,
    files: Seq<FileInputView>,
    max_file: nat,
) -> (Seq<u8>, bool)
    decreases files.len(),
{
    if files.len() == 0 {
        (buf, false)
    } else {
        let f = files[0];
        let rest = files.subrange(1, files.len() as int);
        if spec_looks_binary(f.content) {
            spec_render_files(buf, max, rest, max_file)
        } else {
            let (b2, ok) = spec_print_file(buf, max, f.rel, f.abs, f.content, max_file);
            if ok {
                spec_render_files(b2, max, rest, max_file)
            } else {
                (b2, true)
            }
        }
    }
}

/// The header of the artifact: the title line, the root line and a blank
/// line, each subject to the budget like all other content.
pub open spec fn spec_header(root: Seq<u8>, max: nat) -> (Seq<u8>, bool) {
    let (b1, ok1) = spec_push_line(Seq::<u8>::empty(), max, spec_dump_title());
    let (b2, ok2) = spec_push_line(b1, max, spec_root_line(root));
    let (b3, ok3) = spec_push_line(b2, max, Seq::<u8>::empty());
    if !ok1 {
        (b1, false)
    } else if !ok2 {
        (b2, false)
    } else if !ok3 {
        (b3, false)
    } else {
        (b3, true)
    }
}

/// The finished artifact: when the document was cut short, the truncation
/// footer is appended — but only where it still fits under the true
/// ceiling.
pub open spec fn spec_finalize(buf: Seq<u8>, hit: bool, max_total: nat) -> Seq<u8> {
    if hit && buf.len() + spec_truncation_footer().len() <= max_total {
        buf + spec_truncation_footer()
    } else {
        buf
    }
}

/// The whole artifact for a root label and a list of read files: header,
/// file blocks in the given order under a budget that reserves room for
/// the truncation footer, and the footer when the document was cut short.
pub open spec fn spec_build_dump_bytes(
    root: Seq<u8>,
    files: Seq<FileInputView>,
    max_file: nat,
    max_total: nat,
) -> Seq<u8> {
    let budget = if max_total >= spec_truncation_footer().len() {
        (max_total - spec_truncation_footer().len()) as nat
    } else {
        0nat
    };
    let (bh, okh) = spec_header(root, budget);
    let (bf, hit) = if okh {
        spec_render_files(bh, budget, files, max_file)
    } else {
        (bh, true)
    };
    spec_finalize(bf, hit, max_total)
}

/// Builds the artifact for the given root label and files, in the order
/// given. The result never exceeds `max_total_bytes`.
pub fn build_dump_bytes(
    root: &[u8],
    files: &Vec<FileInput>,
    max_file_bytes: usize,
    max_total_bytes: usize,
) -> (r: Vec<u8>)
    ensures
        r@ == spec_build_dump_bytes(
            root@,
            file_views(files@),
            max_file_bytes as nat,
            max_total_bytes as nat,
        ),
        r@.len() <= max_total_bytes,
{
    let footer = truncation_footer();
    let budget = if max_total_bytes >= footer.len() {
        max_total_bytes - footer.len()
    } else {
        0
    };
    let ghost fv = file_views(files@);
    let ghost header = spec_header(root@, budget as nat);

    let mut out = Out::new(budget);
    let mut hit: bool = false;
    let title = dump_title();
    if out.push_line(title.as_slice()).is_err() {
        hit = true;
    }
    if !hit {
        let rl = root_line(root);
        if out.push_line(rl.as_slice()).is_err() {
            hit = true;
        }
    }
    let blank: [u8; 0] = [];
    proof {
        assert(blank@ =~= Seq::<u8>::empty());
    }
    if !hit {
        if out.push_line(blank.as_slice()).is_err() {
            hit = true;
        }
    }
    proof {
        assert(out.buf_spec() == header.0 && !hit == header.1);
        assert(fv.skip(0) =~= fv);
    }

    let mut i: usize = 0;
    while !hit && i < files.len()
        invariant
            i <= files@.len(),
            fv == file_views(files@),
            header == spec_header(root@, budget as nat),
            out.wf(),
            out.max_spec() == budget as nat,
            !header.1 ==> hit && out.buf_spec() == header.0,
            header.1 && !hit ==> spec_render_files(header.0, budget as nat, fv, max_file_bytes as nat)
                == spec_render_files(
                out.buf_spec(),
                budget as nat,
                fv.skip(i as int),
                max_file_bytes as nat,
            ),
            header.1 && hit ==> spec_render_files(header.0, budget as nat, fv, max_file_bytes as nat)
                == (out.buf_spec(), true),
        decreases files@.len() - i,
    {
        let f = &files[i];
        let ghost rest = fv.skip(i as int);
        proof {
            assert(rest[0] == fv[i as int]);
            assert(rest.subrange(1, rest.len() as int) =~= fv.skip(i + 1));
        }
        if !looks_binary(f.content.as_slice()) {
            match print_file(
                &mut out,
                f.rel.as_slice(),
                f.abs.as_slice(),
                f.content.as_slice(),
                max_file_bytes,
            ) {
                Ok(()) => {},
                Err(_) => {
                    hit = true;
                },
            }
        }
        i += 1;
    }
    proof {
        if !hit {
            assert(fv.skip(i as int) =~= Seq::<FileInputView>::empty());
        }
    }

    let mut buf = out.into_inner();
    if hit && max_total_bytes >= footer.len() {
        append_bytes(&mut buf, footer.as_slice());
    }
    buf
}

/// Budget invariant: whatever the inputs, the artifact fits the ceiling.
pub proof fn lemma_dump_never_exceeds_budget(
    root: Seq<u8>,
    files: Seq<FileInputView>,
    max_file: nat,
    max_total: nat,
)
    ensures
        spec_build_dump_bytes(root, files, max_file, max_total).len() <= max_total,
{
    let budget = if max_total >= spec_truncation_footer().len() {
        (max_total - spec_truncation_footer().len()) as nat
    } else {
        0nat
    };
    let (bh, okh) = spec_header(root, budget);
    lemma_render_files_bounded(bh, budget, files, max_file);
}

/// A buffer within its capacity stays within it through any rendering.
proof fn lemma_render_files_bounded(
    buf: Seq<u8>,
    max: nat,
    files: Seq<FileInputView>,
    max_file: nat,
)
    requires
        buf.len() <= max,
    ensures
        spec_render_files(buf, max, files, max_file).0.len() <= max,
    decreases files.len(),
{
    if files.len() > 0 {
        let f = files[0];
        let rest = files.subrange(1, files.len() as int);
        if spec_looks_binary(f.content) {
            lemma_render_files_bounded(buf, max, rest, max_file);
        } else {
            let (b2, ok) = spec_print_file(buf, max, f.rel, f.abs, f.content, max_file);
            assert(b2.len() <= max);
            if ok {
                lemma_render_files_bounded(b2, max, rest, max_file);
            }
        }
    }
}

/// Binary exclusion: a file holding a NUL byte leaves no trace — the
/// artifact is the same as if the file had never been enumerated.
pub proof fn lemma_binary_file_leaves_no_trace(
    root: Seq<u8>,
    files: Seq<FileInputView>,
    i: int,
    max_file: nat,
    max_total: nat,
)
    requires
        0 <= i < files.len(),
        spec_looks_binary(files[i].content),
    ensures
        spec_build_dump_bytes(root, files.remove(i), max_file, max_total) == spec_build_dump_bytes(
            root,
            files,
            max_file,
            max_total,
        ),
{
    let budget = if max_total >= spec_truncation_footer().len() {
        (max_total - spec_truncation_footer().len()) as nat
    } else {
        0nat
    };
    let (bh, okh) = spec_header(root, budget);
    if okh {
        lemma_render_skips_binary(bh, budget, files, i, max_file);
    }
}

/// Removing a binary file from the list does not change the rendering.
proof fn lemma_render_skips_binary(
    buf: Seq<u8>,
    max: nat,
    files: Seq<FileInputView>,
    i: int,
    max_file: nat,
)
    requires
        0 <= i < files.len(),
        spec_looks_binary(files[i].content),
    ensures
        spec_render_files(buf, max, files.remove(i), max_file) == spec_render_files(
            buf,
            max,
            files,
            max_file,
        ),
    decreases files.len(),
{
    let f = files[0];
    let rest = files.subrange(1, files.len() as int);
    if i == 0 {
        assert(files.remove(0) =~= rest);
    } else {
        assert(files.remove(i)[0] == f);
        assert(files.remove(i).subrange(1, files.remove(i).len() as int) =~= rest.remove(i - 1));
        if spec_looks_binary(f.content) {
            lemma_render_skips_binary(buf, max, rest, i - 1, max_file);
        } else {
            let (b2, ok) = spec_print_file(buf, max, f.rel, f.abs, f.content, max_file);
            if ok {
                lemma_render_skips_binary(b2, max, rest, i - 1, max_file);
            }
        }
    }
}

/// Per-file truncation: when a file longer than the per-file limit is
/// rendered to completion, the single effective cap settles below the
/// limit and below the content's length — so the block holds at most
/// `max_file` content bytes, a strict prefix of the file — and the block
/// ends with the truncation marker.
pub proof fn lemma_per_file_truncation(
    buf: Seq<u8>,
    max: nat,
    rel: Seq<u8>,
    abs: Seq<u8>,
    content: Seq<u8>,
    max_file: nat,
)
    requires
        content.len() > max_file,
        spec_print_file(buf, max, rel, abs, content, max_file).1,
    ensures
        ({
            let (bh, okh) = spec_print_head(buf, max, rel, abs);
            let b = spec_print_file(buf, max, rel, abs, content, max_file).0;
            let m = spec_file_truncated_marker();
            &&& okh
            &&& spec_content_cap(max - bh.len(), content, max_file) matches Some(cap) && 0 <= cap
                <= max_file && cap < content.len()
            &&& b.len() >= m.len()
            &&& b.subrange(b.len() - m.len(), b.len() as int) == m
        }),
{
    let (bh, okh) = spec_print_head(buf, max, rel, abs);
    let remaining = max - bh.len();
    let max_content = remaining - spec_codeblock_close().len();
    let cap0 = spec_min(max_file as int, spec_min(max_content, content.len() as int));
    let needed = spec_codeblock_close().len() + spec_file_truncated_marker().len();
    let capm = if cap0 < content.len() {
        spec_min(cap0, remaining - needed)
    } else {
        cap0
    };
    let cap = spec_clamp_to_utf8_boundary(content, capm);
    lemma_clamp_to_utf8_boundary(content, capm);
    assert(cap <= capm);
    assert(cap0 <= max_file as int);
    assert(cap < content.len());
    let m = spec_file_truncated_marker();
    let b = spec_print_file(buf, max, rel, abs, content, max_file).0;
    let (b4, ok4) = spec_push(bh, max, content.take(cap));
    let (b5, ok5) = if cap == 0 || content[cap - 1] != '\n' as u8 {
        spec_push_line(b4, max, Seq::<u8>::empty())
    } else {
        (b4, true)
    };
    let (b6, ok6) = spec_push(b5, max, spec_codeblock_close());
    assert(b == b6 + m);
    assert(b.subrange(b.len() - m.len(), b.len() as int) =~= m);
}

/// UTF-8 safety: whatever cap the budget arithmetic settles on, the
/// content that reaches the artifact is the clamped prefix, and that
/// prefix is valid UTF-8 on its own.
pub proof fn lemma_truncated_content_is_valid_utf8(content: Seq<u8>, cap: int)
    requires
        0 <= cap,
    ensures
        valid_utf8(content.take(spec_clamp_to_utf8_boundary(content, cap))),
{
    lemma_clamp_to_utf8_boundary(content, cap);
}

} // verus!
