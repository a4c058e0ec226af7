//! Presentation of a run: per-source blocks on standard output and
//! per-source diagnostics.
//!
//! When more than one source is named, each source's block is preceded
//! by a `==> name <==` header line, with a blank line before every
//! header except the first. A source that failed to open contributes no
//! block, only a `name: cause` diagnostic; the sources after it are
//! still rendered.

use vstd::prelude::*;
use vstd::slice::slice_to_vec;
use vstd::string::StringExecFns;
use vstd::utf8::encode_utf8;
use crate::config::ReadType;
use crate::reader::{bytes_output, head_lines, line_prefix_len, lossy_decode_of};

verus! {

/// What opening and bounded-reading one source yielded: its content,
/// or the description of the failure to open it.
#[derive(Debug)]
pub enum Fetched {
    Content(Vec<u8>),
    OpenFailed(String),
}

/// The header framing one source's block: `==> name <==` on a line of
/// its own, preceded by a blank line for every source but the first.
pub open spec fn header_of(name: Seq<u8>, first: bool) -> Seq<u8> {
    (if first {
        Seq::<u8>::empty()
    } else {
        seq![10u8]
    }) + seq![61u8, 61u8, 62u8, 32u8] + name + seq![32u8, 60u8, 61u8, 61u8, 10u8]
}

/// The diagnostic line for a source that could not be opened.
pub open spec fn diag_spec(name: Seq<char>, cause: Seq<char>) -> Seq<char> {
    name + ": "@ + cause
}

/// The bytes a source's content contributes under the given mode: its
/// first `n` lines verbatim, or its first `n` bytes decoded lossily.
pub open spec fn body_spec(content: Seq<u8>, mode: ReadType) -> Seq<u8> {
    match mode {
        ReadType::Lines(n) => content.take(line_prefix_len(content, n as nat) as int),
        ReadType::Bytes(n) => encode_utf8(
            lossy_decode_of(content.take(vstd::math::min(n as int, content.len() as int))),
        ),
    }
}

/// One source's whole block: its header when several sources were
/// named, then its body; a source that failed to open contributes
/// nothing.
pub open spec fn block_spec(
    name: Seq<char>,
    f: Fetched,
    mode: ReadType,
    multiple: bool,
    first: bool,
) -> Seq<u8> {
    match f {
        Fetched::OpenFailed(_) => Seq::<u8>::empty(),
        Fetched::Content(c) => (if multiple {
            header_of(encode_utf8(name), first)
        } else {
            Seq::<u8>::empty()
        }) + body_spec(c@, mode),
    }
}

/// The output for the first `i` sources, in list order.
pub open spec fn render_out_upto(srcs: Seq<(String, Fetched)>, mode: ReadType, i: int) -> Seq<u8>
    decreases i,
{
    if i <= 0 {
        Seq::<u8>::empty()
    } else {
        render_out_upto(srcs, mode, i - 1) + block_spec(
            srcs[i - 1].0@,
            srcs[i - 1].1,
            mode,
            srcs.len() > 1,
            i - 1 == 0,
        )
    }
}

/// The whole run's standard output.
pub open spec fn render_out_spec(srcs: Seq<(String, Fetched)>, mode: ReadType) -> Seq<u8> {
    render_out_upto(srcs, mode, srcs.len() as int)
}

/// The diagnostics for the first `i` sources, one per failed open, in
/// list order.
pub open spec fn render_errs_upto(srcs: Seq<(String, Fetched)>, i: int) -> Seq<Seq<char>>
    decreases i,
{
    if i <= 0 {
        Seq::<Seq<char>>::empty()
    } else {
        render_errs_upto(srcs, i - 1) + (match srcs[i - 1].1 {
            Fetched::OpenFailed(e) => seq![diag_spec(srcs[i - 1].0@, e@)],
            Fetched::Content(_) => Seq::<Seq<char>>::empty(),
        })
    }
}

/// The whole run's diagnostics.
pub open spec fn render_errs_spec(srcs: Seq<(String, Fetched)>) -> Seq<Seq<char>> {
    render_errs_upto(srcs, srcs.len() as int)
}

/// Builds one header line.
pub fn header_line(name: &str, first: bool) -> (r: Vec<u8>)
    ensures
        r@ == header_of(encode_utf8(name@), first),
{
    let mut r: Vec<u8> = Vec::new();
    if !first {
        r.push(10);
    }
    r.push(61);
    r.push(61);
    r.push(62);
    r.push(32);
    let mut nb: Vec<u8> = slice_to_vec(name.as_bytes());
    r.append(&mut nb);
    r.push(32);
    r.push(60);
    r.push(61);
    r.push(61);
    r.push(10);
    proof {
        assert(r@ =~= header_of(encode_utf8(name@), first));
    }
    r
}

/// Builds one diagnostic line.
pub fn diag_line(name: &str, cause: &str) -> (r: String)
    ensures
        r@ == diag_spec(name@, cause@),
{
    let mut r = String::from_str(name);
    r.append(": ");
    r.append(cause);
    proof {
        assert(r@ =~= diag_spec(name@, cause@));
    }
    r
}

/// The bytes one source's content contributes under the given mode.
pub fn body_bytes(content: &Vec<u8>, mode: &ReadType) -> (r: Vec<u8>)
    ensures
        r@ == body_spec(content@, *mode),
{
    match mode {
        ReadType::Lines(n) => head_lines(content, *n),
        ReadType::Bytes(n) => {
            let s = bytes_output(content, *n);
            let b: Vec<u8> = slice_to_vec(s.as_str().as_bytes());
            b
        },
    }
}

/// Renders a whole run: the standard-output bytes for the sources in
/// list order, and the diagnostics of the sources that failed to open.
pub fn render_all(srcs: &Vec<(String, Fetched)>, mode: &ReadType) -> (r: (Vec<u8>, Vec<String>))
    ensures
        r.0@ == render_out_spec(srcs@, *mode),
        r.1@.map_values(|e: String| e@) == render_errs_spec(srcs@),
{
    let multiple = srcs.len() > 1;
    let mut out: Vec<u8> = Vec::new();
    let mut errs: Vec<String> = Vec::new();
    let mut i: usize = 0;
    while i < srcs.len()
        invariant
            i <= srcs@.len(),
            multiple == (srcs@.len() > 1),
            out@ == render_out_upto(srcs@, *mode, i as int),
            errs@.map_values(|e: String| e@) == render_errs_upto(srcs@, i as int),
        decreases srcs@.len() - i,
    {
        let ghost prev_out = out@;
        let ghost prev_errs = errs@;
        let pair: &(String, Fetched) = &srcs[i];
        match &pair.1 {
            Fetched::Content(c) => {
                if multiple {
                    let mut h = header_line(pair.0.as_str(), i == 0);
                    out.append(&mut h);
                }
                let mut b = body_bytes(c, mode);
                out.append(&mut b);
                proof {
                    let blk = block_spec(
                        srcs@[i as int].0@,
                        srcs@[i as int].1,
                        *mode,
                        multiple,
                        i == 0,
                    );
                    assert(out@ =~= prev_out + blk);
                    assert(errs@.map_values(|e: String| e@) =~= render_errs_upto(
                        srcs@,
                        i as int + 1,
                    ));
                }
            },
            Fetched::OpenFailed(e) => {
                errs.push(diag_line(pair.0.as_str(), e.as_str()));
                proof {
                    assert(out@ =~= render_out_upto(srcs@, *mode, i as int + 1));
                    assert(errs@.map_values(|e: String| e@) =~= render_errs_upto(
                        srcs@,
                        i as int + 1,
                    ));
                }
            },
        }
        i += 1;
    }
    (out, errs)
}

/// With exactly one source that opened, no header is printed: the
/// run's whole output is that source's body alone.
pub proof fn lemma_single_source_no_header(srcs: Seq<(String, Fetched)>, mode: ReadType)
    requires
        srcs.len() == 1,
        srcs[0].1 is Content,
    ensures
        render_out_spec(srcs, mode) == body_spec(srcs[0].1->Content_0@, mode),
{
    let blk = block_spec(srcs[0].0@, srcs[0].1, mode, false, true);
    assert(render_out_upto(srcs, mode, 0) == Seq::<u8>::empty());
    assert(render_out_upto(srcs, mode, 1) == render_out_upto(srcs, mode, 0) + blk);
    assert(blk == Seq::<u8>::empty() + body_spec(srcs[0].1->Content_0@, mode));
    assert(Seq::<u8>::empty() + blk =~= blk);
    assert(Seq::<u8>::empty() + body_spec(srcs[0].1->Content_0@, mode) =~= body_spec(
        srcs[0].1->Content_0@,
        mode,
    ));
}

/// With two or more sources, every source that opened gets its header:
/// its block is the header line followed by its body, and the header
/// carries a leading blank line exactly when the source is not the
/// first.
pub proof fn lemma_multi_source_headers(srcs: Seq<(String, Fetched)>, mode: ReadType, i: int)
    requires
        srcs.len() >= 2,
        0 <= i < srcs.len(),
        srcs[i].1 is Content,
    ensures
        render_out_upto(srcs, mode, i + 1) == render_out_upto(srcs, mode, i) + block_spec(
            srcs[i].0@,
            srcs[i].1,
            mode,
            true,
            i == 0,
        ),
        block_spec(srcs[i].0@, srcs[i].1, mode, true, i == 0) == header_of(
            encode_utf8(srcs[i].0@),
            i == 0,
        ) + body_spec(srcs[i].1->Content_0@, mode),
        header_of(encode_utf8(srcs[i].0@), false) == seq![10u8] + header_of(
            encode_utf8(srcs[i].0@),
            true,
        ),
{
    assert(header_of(encode_utf8(srcs[i].0@), false) =~= seq![10u8] + header_of(
        encode_utf8(srcs[i].0@),
        true,
    ));
}

/// A source that failed to open contributes no output block, only its
/// diagnostic; the sources after it are rendered all the same.
pub proof fn lemma_failed_source_skipped(srcs: Seq<(String, Fetched)>, mode: ReadType, i: int)
    requires
        0 <= i < srcs.len(),
        srcs[i].1 is OpenFailed,
    ensures
        render_out_upto(srcs, mode, i + 1) == render_out_upto(srcs, mode, i),
        render_errs_upto(srcs, i + 1) == render_errs_upto(srcs, i) + seq![
            diag_spec(srcs[i].0@, srcs[i].1->OpenFailed_0@),
        ],
{
    assert(render_out_upto(srcs, mode, i + 1) =~= render_out_upto(srcs, mode, i));
}

} // verus!
