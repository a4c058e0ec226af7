//! Bounded truncation of a source's content.
//!
//! `head_lines` keeps the prefix covering the first `n` lines, where a
//! line includes its terminating newline when the source has one, and
//! `head_bytes` keeps the first `n` bytes; both keep everything when
//! the source is shorter. Byte-mode output is decoded lossily: invalid
//! sequences become the replacement character instead of an error.

use vstd::prelude::*;
use vstd::utf8::{decode_utf8, valid_utf8};

verus! {

/// The newline byte.
pub open spec fn is_nl(b: u8) -> bool {
    b == 10
}

/// Length of the shortest prefix of `s` that covers its first `k`
/// lines: bytes are taken up to and including the `k`-th newline, or to
/// the end of `s` when fewer newlines remain.
pub open spec fn line_prefix_len(s: Seq<u8>, k: nat) -> nat
    decreases s.len(),
{
    if k == 0 || s.len() == 0 {
        0
    } else if is_nl(s[0]) {
        (line_prefix_len(s.skip(1), (k - 1) as nat) + 1) as nat
    } else {
        (line_prefix_len(s.skip(1), k) + 1) as nat
    }
}

/// How many newline bytes `s` holds.
pub open spec fn newline_count(s: Seq<u8>) -> nat
    decreases s.len(),
{
    if s.len() == 0 {
        0
    } else {
        ((if is_nl(s[0]) {
            1nat
        } else {
            0nat
        }) + newline_count(s.skip(1))) as nat
    }
}

/// How many lines `s` holds: one per newline, plus one for a trailing
/// unterminated line.
pub open spec fn line_count(s: Seq<u8>) -> nat {
    if s.len() == 0 {
        0
    } else if is_nl(s.last()) {
        newline_count(s)
    } else {
        (newline_count(s) + 1) as nat
    }
}

/// The line prefix never reaches past the end of the source.
pub proof fn lemma_line_prefix_le_len(s: Seq<u8>, k: nat)
    ensures
        line_prefix_len(s, k) <= s.len(),
    decreases s.len(),
{
    if k > 0 && s.len() > 0 {
        if is_nl(s[0]) {
            lemma_line_prefix_le_len(s.skip(1), (k - 1) as nat);
        } else {
            lemma_line_prefix_le_len(s.skip(1), k);
        }
    }
}

/// A source never holds more newlines than lines, so a line count
/// below `k` forces a newline count below `k` too.
pub proof fn lemma_newline_count_le_line_count(s: Seq<u8>)
    ensures
        newline_count(s) <= line_count(s),
{
}

/// A source with fewer than `k` newlines is covered whole: the prefix
/// for `k` lines is the entire source. This also settles a source whose
/// `k`-th line lacks a terminator: its first `k` lines are all of it.
pub proof fn lemma_few_newlines_whole_source(s: Seq<u8>, k: nat)
    requires
        newline_count(s) < k,
    ensures
        line_prefix_len(s, k) == s.len(),
    decreases s.len(),
{
    if s.len() > 0 {
        let t = s.skip(1);
        assert(newline_count(s) == (if is_nl(s[0]) { 1int } else { 0int }) + newline_count(t));
        if is_nl(s[0]) {
            lemma_few_newlines_whole_source(t, (k - 1) as nat);
        } else {
            lemma_few_newlines_whole_source(t, k);
        }
    }
}

/// A source with fewer than `k` lines is covered whole: the prefix for
/// `k` lines is the entire source.
pub proof fn lemma_lines_short_source(s: Seq<u8>, k: nat)
    requires
        line_count(s) < k,
    ensures
        line_prefix_len(s, k) == s.len(),
{
    lemma_newline_count_le_line_count(s);
    lemma_few_newlines_whole_source(s, k);
}

/// A source holding at least `k` newline-terminated lines is cut
/// exactly at the `k`-th newline, and no earlier: the prefix for `k`
/// lines ends with a newline, holds exactly `k` of them, and every
/// shorter prefix holds fewer.
pub proof fn lemma_lines_exact_cut(s: Seq<u8>, k: nat)
    requires
        k >= 1,
        newline_count(s) >= k,
    ensures
        1 <= line_prefix_len(s, k) <= s.len(),
        newline_count(s.take(line_prefix_len(s, k) as int)) == k,
        is_nl(s[line_prefix_len(s, k) - 1]),
        forall|j: int|
            0 <= j < line_prefix_len(s, k) ==> newline_count(#[trigger] s.take(j)) < k,
    decreases s.len(),
{
    lemma_line_prefix_le_len(s, k);
    let t = s.skip(1);
    assert(newline_count(s) == (if is_nl(s[0]) { 1int } else { 0int }) + newline_count(t));
    if is_nl(s[0]) && k == 1 {
        assert(line_prefix_len(t, 0) == 0);
        assert(line_prefix_len(s, 1) == 1);
        let p = s.take(1);
        assert(p.len() == 1 && p[0] == s[0]);
        assert(p.skip(1) =~= Seq::<u8>::empty());
        assert(newline_count(p.skip(1)) == 0);
        assert(newline_count(p) == 1);
        assert(s.take(0) =~= Seq::<u8>::empty());
        assert(newline_count(s.take(0)) == 0);
    } else {
        let kk: nat = if is_nl(s[0]) {
            (k - 1) as nat
        } else {
            k
        };
        lemma_lines_exact_cut(t, kk);
        let p1 = line_prefix_len(t, kk);
        assert(line_prefix_len(s, k) == p1 + 1);
        let p = s.take(p1 + 1 as int);
        assert(p.skip(1) =~= t.take(p1 as int));
        assert(newline_count(p) == (if is_nl(s[0]) { 1int } else { 0int }) + newline_count(
            t.take(p1 as int),
        ));
        assert(s[p1 + 1 - 1] == t[p1 - 1]);
        assert forall|j: int| 0 <= j < line_prefix_len(s, k) implies newline_count(
            #[trigger] s.take(j),
        ) < k by {
            if j == 0 {
                assert(s.take(0) =~= Seq::<u8>::empty());
            } else {
                let q = s.take(j);
                assert(q[0] == s[0]);
                assert(q.skip(1) =~= t.take(j - 1));
                assert(newline_count(q) == (if is_nl(s[0]) { 1int } else { 0int })
                    + newline_count(t.take(j - 1)));
                assert(newline_count(t.take(j - 1)) < kk);
            }
        }
    }
}

/// Copies at most the first `count` bytes of the data; all of it when
/// it is shorter.
pub fn head_bytes(data: &Vec<u8>, count: usize) -> (r: Vec<u8>)
    ensures
        r@ == data@.take(vstd::math::min(count as int, data@.len() as int)),
{
    let n: usize = if count < data.len() {
        count
    } else {
        data.len()
    };
    let mut r: Vec<u8> = Vec::new();
    let mut i: usize = 0;
    while i < n
        invariant
            i <= n,
            n == vstd::math::min(count as int, data@.len() as int),
            r@ == data@.take(i as int),
        decreases n - i,
    {
        let b: u8 = data[i];
        r.push(b);
        proof {
            assert(data@.take(i as int).push(data@[i as int]) =~= data@.take(i as int + 1));
        }
        i += 1;
    }
    r
}

/// Copies the prefix of the data that covers its first `count` lines;
/// all of it when it holds fewer lines.
pub fn head_lines(data: &Vec<u8>, count: usize) -> (r: Vec<u8>)
    ensures
        r@ == data@.take(line_prefix_len(data@, count as nat) as int),
{
    let mut r: Vec<u8> = Vec::new();
    let mut i: usize = 0;
    let mut remaining: usize = count;
    proof {
        assert(data@.skip(0) =~= data@);
    }
    while i < data.len() && remaining > 0
        invariant
            i <= data@.len(),
            r@ == data@.take(i as int),
            line_prefix_len(data@, count as nat) == i + line_prefix_len(
                data@.skip(i as int),
                remaining as nat,
            ),
        decreases data@.len() - i,
    {
        let b: u8 = data[i];
        r.push(b);
        proof {
            let t = data@.skip(i as int);
            assert(t[0] == data@[i as int]);
            assert(t.skip(1) =~= data@.skip(i as int + 1));
            assert(data@.take(i as int).push(data@[i as int]) =~= data@.take(i as int + 1));
        }
        if b == 10 {
            remaining -= 1;
        }
        i += 1;
    }
    proof {
        if i == data@.len() {
            assert(data@.skip(i as int) =~= Seq::<u8>::empty());
        }
    }
    r
}

/// What the standard lossy UTF-8 decoding yields on a byte sequence.
pub uninterp spec fn lossy_decode_of(bytes: Seq<u8>) -> Seq<char>;

/// Relies on String::from_utf8_lossy: invalid sequences become the
/// replacement character, and valid UTF-8 input is decoded unchanged.
#[verifier::external_body]
fn lossy_decode(bytes: &Vec<u8>) -> (r: String)
    ensures
        r@ == lossy_decode_of(bytes@),
        valid_utf8(bytes@) ==> r@ == decode_utf8(bytes@),
        bytes@.len() == 0 ==> r@.len() == 0,
{
    String::from_utf8_lossy(bytes).into_owned()
}

/// The byte-mode output for a source: its first `count` bytes (fewer if
/// the source is shorter), decoded lossily for display.
pub fn bytes_output(data: &Vec<u8>, count: usize) -> (r: String)
    ensures
        r@ == lossy_decode_of(data@.take(vstd::math::min(count as int, data@.len() as int))),
        valid_utf8(data@.take(vstd::math::min(count as int, data@.len() as int))) ==> r@
            == decode_utf8(data@.take(vstd::math::min(count as int, data@.len() as int))),
{
    let t = head_bytes(data, count);
    lossy_decode(&t)
}

} // verus!
