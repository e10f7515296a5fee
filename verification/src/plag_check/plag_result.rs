//! Reading the similarity percentage out of the external detector's HTML
//! report.
//!
//! The report carries one line of interest, of the shape
//! `<b>Number above display threshold:</b> N (P%)<br><br>` where `N` is a
//! count and `P` a percentage with optional decimals.  The parser below
//! finds the first such line and returns `P` converted to millionths of
//! the 0..=1 fraction.  Percentages above 100, or written with more than
//! four decimal places (finer than millionths resolve), are treated as
//! unreadable, and an unreadable report means a manual review.

use vstd::prelude::*;
use vstd::string::StringSliceAdditionalSpecFns;

use crate::plag_check::verification::VerificationResult;

verus! {

/// The result of the plagiarism check on one submission.
#[derive(Debug)]
pub struct PlagiarismVerificationResult {
    /// What the comparison concluded
    pub result: VerificationResult,
}

impl PlagiarismVerificationResult {
    /// Wrap a parsed similarity (millionths of the 0..=1 fraction); when
    /// none could be produced, the submission needs manual review.
    pub fn new(similarity_ppm: Option<u32>) -> (r: Self)
        ensures
            similarity_ppm matches Some(p) ==> (r.result matches VerificationResult::Verified(q)
                && q == p),
            similarity_ppm is None ==> r.result is ManualRequired,
    {
        match similarity_ppm {
            Some(p) => Self { result: VerificationResult::Verified(p) },
            None => Self { result: VerificationResult::ManualRequired },
        }
    }
}

/// A class of bytes the report grammar skips over or collects.
#[derive(Clone, Copy)]
pub enum ByteClass {
    /// ASCII whitespace
    Ws,
    /// An ASCII decimal digit
    Digit,
    /// A digit or a decimal point
    NumChar,
}

/// Whether byte `b` belongs to the class.
pub open spec fn in_class(c: ByteClass, b: u8) -> bool {
    match c {
        ByteClass::Ws => b == 32 || b == 9 || b == 10 || b == 13 || b == 12 || b == 11,
        ByteClass::Digit => 48 <= b <= 57,
        ByteClass::NumChar => (48 <= b <= 57) || b == 46,
    }
}

/// The first index at or after `i` whose byte is not in the class (or the
/// end of the text).
pub open spec fn skip_class(s: Seq<u8>, i: int, c: ByteClass) -> int
    decreases s.len() - i,
    when 0 <= i <= s.len()
{
    if i < s.len() && in_class(c, s[i]) {
        skip_class(s, i + 1, c)
    } else {
        i
    }
}

pub proof fn lemma_skip_class(s: Seq<u8>, i: int, c: ByteClass)
    requires
        0 <= i <= s.len(),
    ensures
        i <= skip_class(s, i, c) <= s.len(),
        forall|j: int| i <= j < skip_class(s, i, c) ==> in_class(c, #[trigger] s[j]),
        skip_class(s, i, c) < s.len() ==> !in_class(c, s[skip_class(s, i, c)]),
    decreases s.len() - i,
{
    if i < s.len() && in_class(c, s[i]) {
        lemma_skip_class(s, i + 1, c);
    }
}

/// Whether `pat` occurs in `s` starting at `p`.
pub open spec fn matches_at(s: Seq<u8>, p: int, pat: Seq<u8>) -> bool {
    0 <= p && p + pat.len() <= s.len() && s.subrange(p, p + pat.len()) == pat
}

/// The marker that introduces the similarity line of the report.
pub open spec fn marker() -> Seq<u8> {
    "<b>Number above display threshold:</b>".spec_bytes()
}

/// What must follow the percentage: the closing of the parenthesised
/// value and the end of the line.
pub open spec fn closing() -> Seq<u8> {
    "%)<br><br>".spec_bytes()
}

/// Whether, from position `q` on (just past the marker), the text reads as
/// whitespace, a count, whitespace, and an opening parenthesis followed by
/// a non-empty numeric token and the closing sequence.
pub open spec fn tail_match(s: Seq<u8>, q: int) -> bool {
    let i1 = skip_class(s, q, ByteClass::Ws);
    let i2 = skip_class(s, i1, ByteClass::Digit);
    let i3 = skip_class(s, i2, ByteClass::Ws);
    let i4 = skip_class(s, i3 + 1, ByteClass::NumChar);
    &&& i2 > i1
    &&& i3 < s.len() && s[i3] == 40
    &&& i4 > i3 + 1
    &&& matches_at(s, i4, closing())
}

/// The whole pattern: the marker at `p` with a well-formed tail after it.
pub open spec fn full_match_at(s: Seq<u8>, p: int) -> bool {
    matches_at(s, p, marker()) && tail_match(s, p + marker().len())
}

/// The first position at which the whole pattern matches.
pub open spec fn first_full_match(s: Seq<u8>, p: int) -> bool {
    full_match_at(s, p) && forall|q: int| 0 <= q < p ==> !full_match_at(s, q)
}

/// The start of the numeric token of a match whose marker ends at `q`.
pub open spec fn token_start(s: Seq<u8>, q: int) -> int {
    skip_class(
        s,
        skip_class(s, skip_class(s, q, ByteClass::Ws), ByteClass::Digit),
        ByteClass::Ws,
    ) + 1
}

/// The value of the decimal digits `s[a..b]`, most significant first.
pub open spec fn digits_value(s: Seq<u8>, a: int, b: int) -> int
    decreases b - a,
    when a <= b
{
    if a >= b {
        0
    } else {
        digits_value(s, a, b - 1) * 10 + (s[b - 1] - 48)
    }
}

/// Ten to the `k`.
pub open spec fn pow10(k: nat) -> int
    decreases k,
{
    if k == 0 {
        1
    } else {
        10 * pow10((k - 1) as nat)
    }
}

/// The percentage token occupying `s[a..b]`, converted to millionths of
/// the 0..=1 fraction: digits, with at most one decimal point and at most
/// four decimals, denoting no more than 100 percent; anything else reads
/// as nothing.
pub open spec fn token_ppm(s: Seq<u8>, a: int, b: int) -> Option<int> {
    let d = skip_class(s, a, ByteClass::Digit);
    if d == b {
        if a < b {
            let v = digits_value(s, a, b) * 10000;
            if v <= 1000000 {
                Some(v)
            } else {
                None
            }
        } else {
            None
        }
    } else if 0 <= d < b && s[d] == 46 {
        let e = skip_class(s, d + 1, ByteClass::Digit);
        if e == b && (d > a || b > d + 1) && b - (d + 1) <= 4 {
            let v = digits_value(s, a, d) * 10000 + digits_value(s, d + 1, b) * pow10(
                (4 - (b - d - 1)) as nat,
            );
            if v <= 1000000 {
                Some(v)
            } else {
                None
            }
        } else {
            None
        }
    } else {
        None
    }
}

/// What the report as a whole yields at the first match position `p`.
pub open spec fn match_ppm(s: Seq<u8>, p: int) -> Option<int> {
    let a = token_start(s, p + marker().len());
    token_ppm(s, a, skip_class(s, a, ByteClass::NumChar))
}

/// Whether byte `b` belongs to the class (executable form).
fn in_class_exec(c: ByteClass, b: u8) -> (r: bool)
    ensures
        r == in_class(c, b),
{
    match c {
        ByteClass::Ws => b == 32 || b == 9 || b == 10 || b == 13 || b == 12 || b == 11,
        ByteClass::Digit => 48 <= b && b <= 57,
        ByteClass::NumChar => (48 <= b && b <= 57) || b == 46,
    }
}

/// Scan forward from `i` past every byte of the class.
fn skip_class_exec(s: &[u8], i: usize, c: ByteClass) -> (r: usize)
    requires
        i <= s@.len(),
    ensures
        r as int == skip_class(s@, i as int, c),
        i <= r <= s@.len(),
{
    let mut j: usize = i;
    while j < s.len() && in_class_exec(c, s[j])
        invariant
            i <= j <= s@.len(),
            skip_class(s@, i as int, c) == skip_class(s@, j as int, c),
        decreases s@.len() - j,
    {
        j = j + 1;
    }
    proof {
        lemma_skip_class(s@, j as int, c);
    }
    j
}

/// Whether `pat` occurs in `s` starting at `p`.
fn bytes_match_at(s: &[u8], p: usize, pat: &[u8]) -> (b: bool)
    requires
        p <= s@.len(),
    ensures
        b == matches_at(s@, p as int, pat@),
{
    if s.len() - p < pat.len() {
        return false;
    }
    let mut k: usize = 0;
    while k < pat.len()
        invariant
            0 <= k <= pat@.len(),
            p + pat@.len() <= s@.len(),
            s@.len() <= usize::MAX,
            forall|j: int| 0 <= j < k ==> s@[p + j] == pat@[j],
        decreases pat@.len() - k,
    {
        if s[p + k] != pat[k] {
            proof {
                assert(s@.subrange(p as int, p + pat@.len())[k as int] == s@[p + k]);
            }
            return false;
        }
        k = k + 1;
    }
    proof {
        assert(s@.subrange(p as int, p + pat@.len()) =~= pat@);
    }
    true
}

/// Whether the tail of the pattern reads well from `q` on.
fn tail_match_exec(s: &[u8], q: usize) -> (b: bool)
    requires
        q <= s@.len(),
    ensures
        b == tail_match(s@, q as int),
{
    let i1 = skip_class_exec(s, q, ByteClass::Ws);
    let i2 = skip_class_exec(s, i1, ByteClass::Digit);
    if i2 == i1 {
        return false;
    }
    let i3 = skip_class_exec(s, i2, ByteClass::Ws);
    if i3 >= s.len() || s[i3] != 40 {
        return false;
    }
    let i4 = skip_class_exec(s, i3 + 1, ByteClass::NumChar);
    if i4 == i3 + 1 {
        return false;
    }
    let closing_bytes = "%)<br><br>".as_bytes();
    proof {
        assert(closing_bytes@ == closing());
    }
    bytes_match_at(s, i4, closing_bytes)
}

/// The value of the digits `s[a..b]`, saturating just above the largest
/// value a percentage can convert to.
fn digits_value_exec(s: &[u8], a: usize, b: usize) -> (v: u64)
    requires
        a <= b <= s@.len(),
        forall|j: int| a <= j < b ==> in_class(ByteClass::Digit, #[trigger] s@[j]),
    ensures
        digits_value(s@, a as int, b as int) <= 1000000 ==> v as int == digits_value(
            s@,
            a as int,
            b as int,
        ),
        digits_value(s@, a as int, b as int) > 1000000 ==> v > 1000000 && v <= 10000009,
{
    let mut v: u64 = 0;
    let mut i: usize = a;
    while i < b
        invariant
            a <= i <= b <= s@.len(),
            forall|j: int| a <= j < b ==> in_class(ByteClass::Digit, #[trigger] s@[j]),
            digits_value(s@, a as int, i as int) <= 1000000 ==> v as int == digits_value(
                s@,
                a as int,
                i as int,
            ),
            digits_value(s@, a as int, i as int) > 1000000 ==> v > 1000000 && v <= 10000009,
            v <= 10000009,
        decreases b - i,
    {
        let d = s[i];
        if v <= 1000000 {
            v = v * 10 + ((d - 48) as u64);
        }
        proof {
            lemma_digits_value_bound(s@, a as int, i as int);
        }
        i = i + 1;
    }
    v
}

pub proof fn lemma_digits_value_bound(s: Seq<u8>, a: int, b: int)
    requires
        a <= b,
        forall|j: int| a <= j < b ==> in_class(ByteClass::Digit, #[trigger] s[j]),
    ensures
        0 <= digits_value(s, a, b) < pow10((b - a) as nat),
    decreases b - a,
{
    if a < b {
        lemma_digits_value_bound(s, a, b - 1);
    }
}

/// The percentage token occupying `s[a..b]` as millionths, executable
/// form; see `token_ppm`.
fn token_ppm_exec(s: &[u8], a: usize, b: usize) -> (r: Option<u32>)
    requires
        a <= b <= s@.len(),
    ensures
        match token_ppm(s@, a as int, b as int) {
            Some(v) => r matches Some(u) && u as int == v,
            None => r is None,
        },
{
    let d = skip_class_exec(s, a, ByteClass::Digit);
    proof {
        lemma_skip_class(s@, a as int, ByteClass::Digit);
    }
    if d == b {
        if a < b {
            let v = digits_value_exec(s, a, b);
            let v = if v <= 100 {
                v * 10000
            } else {
                1000001
            };
            proof {
                lemma_digits_value_bound(s@, a as int, b as int);
            }
            if v <= 1000000 {
                Some(v as u32)
            } else {
                None
            }
        } else {
            None
        }
    } else if d < b && s[d] == 46 {
        let e = skip_class_exec(s, d + 1, ByteClass::Digit);
        proof {
            lemma_skip_class(s@, d + 1, ByteClass::Digit);
        }
        if e == b && (d > a || b > d + 1) && b - (d + 1) <= 4 {
            let iv = digits_value_exec(s, a, d);
            let fv = digits_value_exec(s, d + 1, b);
            let f: usize = b - (d + 1);
            let scale: u64 = if f == 0 {
                10000
            } else if f == 1 {
                1000
            } else if f == 2 {
                100
            } else if f == 3 {
                10
            } else {
                1
            };
            proof {
                reveal_with_fuel(pow10, 5);
                lemma_digits_value_bound(s@, a as int, d as int);
                lemma_digits_value_bound(s@, d + 1, b as int);
            }
            let v: u64 = iv * 10000 + fv * scale;
            if v <= 1000000 {
                Some(v as u32)
            } else {
                None
            }
        } else {
            None
        }
    } else {
        None
    }
}

/// Find the similarity percentage in the detector's HTML report, as
/// millionths of the 0..=1 fraction.  `None` when the report holds no
/// well-formed similarity line, or when the first one carries a value the
/// library cannot represent (above 100 percent, or finer than four
/// decimal places).
pub fn copy_percentage_from_html(html: &[u8]) -> (r: Option<u32>)
    ensures
        r matches Some(v) ==> exists|p: int|
            #[trigger] first_full_match(html@, p) && match_ppm(html@, p) == Some(v as int),
        r is None ==> (forall|p: int| !full_match_at(html@, p)) || exists|p: int|
            #[trigger] first_full_match(html@, p) && match_ppm(html@, p) is None,
{
    let marker_bytes = "<b>Number above display threshold:</b>".as_bytes();
    let mlen = marker_bytes.len();
    if html.len() < mlen {
        proof {
            assert forall|q: int| !full_match_at(html@, q) by {
                assert(!matches_at(html@, q, marker()));
            }
        }
        return None;
    }
    let mut p: usize = 0;
    while p < html.len()
        invariant
            marker_bytes@ == marker(),
            mlen == marker().len(),
            html@.len() <= usize::MAX,
            0 <= p <= html@.len(),
            forall|q: int| 0 <= q < p ==> !full_match_at(html@, q),
        decreases html@.len() - p,
    {
        if mlen <= html.len() - p {
            if bytes_match_at(html, p, marker_bytes) {
                let q = p + mlen;
                if tail_match_exec(html, q) {
                    let i1 = skip_class_exec(html, q, ByteClass::Ws);
                    let i2 = skip_class_exec(html, i1, ByteClass::Digit);
                    let i3 = skip_class_exec(html, i2, ByteClass::Ws);
                    let a = i3 + 1;
                    let i4 = skip_class_exec(html, a, ByteClass::NumChar);
                    proof {
                        lemma_skip_class(html@, a as int, ByteClass::NumChar);
                        assert(first_full_match(html@, p as int));
                    }
                    return token_ppm_exec(html, a, i4);
                }
            }
        } else {
            proof {
                assert(!matches_at(html@, p as int, marker()));
            }
        }
        p = p + 1;
    }
    proof {
        assert forall|q: int| !full_match_at(html@, q) by {
            if 0 <= q < p {
            } else if q < 0 {
                assert(!matches_at(html@, q, marker()));
            } else if q > html@.len() {
                assert(q + marker().len() > html@.len());
                assert(!matches_at(html@, q, marker()));
            } else {
                if q + marker().len() > html@.len() {
                    assert(!matches_at(html@, q, marker()));
                } else {
                    assert(skip_class(html@, q, ByteClass::Ws) == q);
                    assert(!tail_match(html@, q));
                }
            }
        }
    }
    None
}

} // verus!
