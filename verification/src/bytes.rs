//! Byte-level text utilities used by the parsers and command builders.
//!
//! The external tools emit byte streams; the library inspects them at the
//! byte level (all delimiters of interest are single ASCII bytes, which never
//! occur inside a multi-byte UTF-8 sequence).

use vstd::prelude::*;

verus! {

/// True when `hay` begins with `pre`.
pub open spec fn spec_starts_with(hay: Seq<u8>, pre: Seq<u8>) -> bool {
    pre.len() <= hay.len() && hay.subrange(0, pre.len() as int) == pre
}

/// True when `hay` has an occurrence of `needle` starting at `i`.
pub open spec fn occurs_at(hay: Seq<u8>, needle: Seq<u8>, i: int) -> bool {
    0 <= i && i + needle.len() <= hay.len() && hay.subrange(i, i + needle.len()) == needle
}

/// True when `needle` occurs somewhere in `hay`.
pub open spec fn spec_contains(hay: Seq<u8>, needle: Seq<u8>) -> bool {
    exists|i: int| occurs_at(hay, needle, i)
}

pub fn starts_with(hay: &[u8], pre: &[u8]) -> (r: bool)
    ensures
        r == spec_starts_with(hay@, pre@),
{
    if pre.len() > hay.len() {
        assert(!spec_starts_with(hay@, pre@));
        return false;
    }
    let mut i: usize = 0;
    while i < pre.len()
        invariant
            i <= pre.len() <= hay.len(),
            forall|j: int| 0 <= j < i ==> hay@[j] == pre@[j],
        decreases pre.len() - i,
    {
        if hay[i] != pre[i] {
            assert(hay@.subrange(0, pre@.len() as int)[i as int] != pre@[i as int]);
            return false;
        }
        i += 1;
    }
    assert(hay@.subrange(0, pre@.len() as int) =~= pre@);
    true
}

fn matches_at(hay: &[u8], needle: &[u8], at: usize) -> (r: bool)
    requires
        at + needle.len() <= hay.len(),
    ensures
        r == occurs_at(hay@, needle@, at as int),
{
    let mut i: usize = 0;
    while i < needle.len()
        invariant
            at + needle.len() <= hay.len(),
            i <= needle.len(),
            forall|j: int| 0 <= j < i ==> hay@[at + j] == needle@[j],
        decreases needle.len() - i,
    {
        if hay[at + i] != needle[i] {
            assert(hay@.subrange(at as int, at + needle@.len())[i as int] != needle@[i as int]);
            return false;
        }
        i += 1;
    }
    assert(hay@.subrange(at as int, at + needle@.len()) =~= needle@);
    true
}

/// Substring search by scanning every start position.
pub fn contains_bytes(hay: &[u8], needle: &[u8]) -> (r: bool)
    ensures
        r == spec_contains(hay@, needle@),
{
    if needle.len() > hay.len() {
        return false;
    }
    if needle.len() == 0 {
        assert(occurs_at(hay@, needle@, 0)) by {
            assert(hay@.subrange(0, 0) =~= needle@);
        }
        return true;
    }
    let mut at: usize = 0;
    while at <= hay.len() - needle.len()
        invariant
            0 < needle.len() <= hay.len(),
            at <= hay.len() - needle.len() + 1,
            forall|i: int| 0 <= i < at ==> !occurs_at(hay@, needle@, i),
        decreases hay.len() - needle.len() + 1 - at,
    {
        if matches_at(hay, needle, at) {
            return true;
        }
        at += 1;
    }
    assert(forall|i: int| occurs_at(hay@, needle@, i) ==> 0 <= i <= hay@.len() - needle@.len());
    false
}

/// Byte-for-byte equality of two slices.
pub fn eq_bytes(a: &[u8], b: &[u8]) -> (r: bool)
    ensures
        r == (a@ == b@),
{
    if a.len() != b.len() {
        return false;
    }
    let mut i: usize = 0;
    while i < a.len()
        invariant
            i <= a.len() == b.len(),
            forall|j: int| 0 <= j < i ==> a@[j] == b@[j],
        decreases a.len() - i,
    {
        if a[i] != b[i] {
            return false;
        }
        i += 1;
    }
    proof {
        assert(a@ =~= b@);
    }
    true
}

/// ASCII whitespace, the only kind the external tools emit around values.
pub open spec fn is_ws(b: u8) -> bool {
    b == 0x20 || b == 0x09 || b == 0x0a || b == 0x0d
}

/// Number of whitespace bytes at the front.
pub open spec fn leading_ws(b: Seq<u8>) -> int
    decreases b.len(),
{
    if b.len() > 0 && is_ws(b[0]) {
        1 + leading_ws(b.skip(1))
    } else {
        0
    }
}

/// Number of whitespace bytes at the back.
pub open spec fn trailing_ws(b: Seq<u8>) -> int
    decreases b.len(),
{
    if b.len() > 0 && is_ws(b.last()) {
        1 + trailing_ws(b.drop_last())
    } else {
        0
    }
}

/// The sequence with surrounding whitespace removed.
pub open spec fn spec_trim(b: Seq<u8>) -> Seq<u8> {
    let t = b.skip(leading_ws(b));
    t.take(t.len() - trailing_ws(t))
}

proof fn lemma_leading_ws_at(b: Seq<u8>, k: int)
    requires
        0 <= k <= b.len(),
        forall|j: int| 0 <= j < k ==> is_ws(b[j]),
        k == b.len() || !is_ws(b[k]),
    ensures
        leading_ws(b) == k,
    decreases b.len(),
{
    if b.len() > 0 && is_ws(b[0]) {
        assert(forall|j: int| 0 <= j < k - 1 ==> is_ws(b.skip(1)[j]));
        lemma_leading_ws_at(b.skip(1), k - 1);
    }
}

proof fn lemma_trailing_ws_at(b: Seq<u8>, k: int)
    requires
        0 <= k <= b.len(),
        forall|j: int| k <= j < b.len() ==> is_ws(b[j]),
        k == 0 || !is_ws(b[k - 1]),
    ensures
        trailing_ws(b) == b.len() - k,
    decreases b.len(),
{
    if b.len() > 0 && is_ws(b.last()) {
        assert(k < b.len());
        assert(forall|j: int| k <= j < b.len() - 1 ==> is_ws(b.drop_last()[j]));
        lemma_trailing_ws_at(b.drop_last(), k);
    }
}

/// Removes ASCII whitespace from both ends.
pub fn trim_ascii(b: &[u8]) -> (r: Vec<u8>)
    ensures
        r@ == spec_trim(b@),
{
    let mut lo: usize = 0;
    while lo < b.len() && is_ws_byte(b[lo])
        invariant
            lo <= b.len(),
            forall|j: int| 0 <= j < lo ==> is_ws(b@[j]),
        decreases b.len() - lo,
    {
        lo += 1;
    }
    proof {
        lemma_leading_ws_at(b@, lo as int);
    }
    let mut hi: usize = b.len();
    while hi > lo && is_ws_byte(b[hi - 1])
        invariant
            lo <= hi <= b.len(),
            forall|j: int| hi <= j < b.len() ==> is_ws(b@[j]),
        decreases hi,
    {
        hi -= 1;
    }
    proof {
        let t = b@.skip(lo as int);
        assert(forall|j: int| hi - lo <= j < t.len() ==> is_ws(t[j]));
        if hi > lo {
            assert(t[hi - lo - 1] == b@[hi - 1]);
        }
        lemma_trailing_ws_at(t, hi - lo);
    }
    let mut out: Vec<u8> = Vec::new();
    let mut i: usize = lo;
    while i < hi
        invariant
            lo <= i <= hi <= b.len(),
            out@ == b@.subrange(lo as int, i as int),
        decreases hi - i,
    {
        out.push(b[i]);
        assert(out@ =~= b@.subrange(lo as int, i + 1));
        i += 1;
    }
    proof {
        assert(out@ =~= spec_trim(b@));
    }
    out
}

fn is_ws_byte(b: u8) -> (r: bool)
    ensures
        r == is_ws(b),
{
    b == 0x20 || b == 0x09 || b == 0x0a || b == 0x0d
}

/// Index of the first occurrence of `sep`, or `b.len()` when absent.
pub open spec fn first_sep(b: Seq<u8>, sep: u8) -> int
    decreases b.len(),
{
    if b.len() == 0 {
        0
    } else if b[0] == sep {
        0
    } else {
        1 + first_sep(b.skip(1), sep)
    }
}

/// The pieces of `b` between occurrences of `sep`; one more piece than
/// separators, so the result is never empty and separators at the ends
/// produce empty pieces.
pub open spec fn spec_split(b: Seq<u8>, sep: u8) -> Seq<Seq<u8>>
    decreases b.len(),
    via spec_split_decreases
{
    let i = first_sep(b, sep);
    if i == b.len() {
        seq![b]
    } else {
        seq![b.subrange(0, i)] + spec_split(b.subrange(i + 1, b.len() as int), sep)
    }
}

#[via_fn]
proof fn spec_split_decreases(b: Seq<u8>, sep: u8) {
    lemma_first_sep_bounds(b, sep);
}

pub proof fn lemma_first_sep_bounds(b: Seq<u8>, sep: u8)
    ensures
        0 <= first_sep(b, sep) <= b.len(),
        forall|j: int| 0 <= j < first_sep(b, sep) ==> b[j] != sep,
        first_sep(b, sep) < b.len() ==> b[first_sep(b, sep)] == sep,
    decreases b.len(),
{
    if b.len() > 0 && b[0] != sep {
        lemma_first_sep_bounds(b.skip(1), sep);
        assert(forall|j: int| 1 <= j < first_sep(b, sep) ==> b[j] == b.skip(1)[j - 1]);
    }
}

proof fn lemma_first_sep_at(b: Seq<u8>, sep: u8, k: int)
    requires
        0 <= k <= b.len(),
        forall|j: int| 0 <= j < k ==> b[j] != sep,
        k == b.len() || b[k] == sep,
    ensures
        first_sep(b, sep) == k,
    decreases b.len(),
{
    if b.len() > 0 && b[0] != sep {
        assert(forall|j: int| 0 <= j < k - 1 ==> b.skip(1)[j] != sep);
        lemma_first_sep_at(b.skip(1), sep, k - 1);
    }
}

/// Splits `b` on `sep`.
pub fn split_bytes(b: &[u8], sep: u8) -> (r: Vec<Vec<u8>>)
    ensures
        r.deep_view() == spec_split(b@, sep),
        r.len() >= 1,
{
    let ghost whole = b@;
    let mut out: Vec<Vec<u8>> = Vec::new();
    let mut start: usize = 0;
    proof {
        assert(b@.subrange(0, b@.len() as int) =~= whole);
        assert(out.deep_view() =~~= Seq::<Seq<u8>>::empty());
    }
    loop
        invariant
            whole == b@,
            start <= b.len(),
            spec_split(whole, sep) =~~= out.deep_view() + spec_split(
                b@.subrange(start as int, b@.len() as int),
                sep,
            ),
        decreases b.len() - start + 1,
    {
        let ghost rest = b@.subrange(start as int, b@.len() as int);
        let mut i: usize = start;
        while i < b.len() && b[i] != sep
            invariant
                start <= i <= b.len(),
                forall|j: int| start <= j < i ==> b@[j] != sep,
            decreases b.len() - i,
        {
            i += 1;
        }
        proof {
            assert(forall|j: int| 0 <= j < i - start ==> rest[j] != sep);
            if i < b.len() {
                assert(rest[i - start] == sep);
            }
            lemma_first_sep_at(rest, sep, i - start);
        }
        let mut piece: Vec<u8> = Vec::new();
        let mut k: usize = start;
        while k < i
            invariant
                start <= k <= i <= b.len(),
                piece@ == b@.subrange(start as int, k as int),
            decreases i - k,
        {
            piece.push(b[k]);
            assert(piece@ =~= b@.subrange(start as int, k + 1));
            k += 1;
        }
        proof {
            assert(piece@ =~= rest.subrange(0, i - start));
        }
        let ghost out0 = out.deep_view();
        let ghost piecev = piece@;
        out.push(piece);
        proof {
            assert(out.deep_view() =~~= out0.push(piecev));
        }
        if i == b.len() {
            proof {
                assert(rest.subrange(0, i - start) =~= rest);
                assert(spec_split(rest, sep) =~= seq![rest]);
                assert(out.deep_view() =~~= spec_split(whole, sep));
            }
            return out;
        }
        proof {
            assert(b@.subrange(i + 1, b@.len() as int) =~= rest.subrange(
                i - start + 1,
                rest.len() as int,
            ));
            assert(spec_split(rest, sep) == seq![rest.subrange(0, i - start)] + spec_split(
                rest.subrange(i - start + 1, rest.len() as int),
                sep,
            ));
        }
        start = i + 1;
        proof {
            assert(spec_split(whole, sep) =~~= out.deep_view() + spec_split(
                b@.subrange(start as int, b@.len() as int),
                sep,
            ));
        }
    }
}

/// Like `spec_split`, but yields at most `n` pieces: the last piece keeps
/// the remaining separators.
pub open spec fn spec_splitn(b: Seq<u8>, sep: u8, n: int) -> Seq<Seq<u8>>
    decreases b.len(),
    via spec_splitn_decreases
{
    if n <= 1 {
        seq![b]
    } else {
        let i = first_sep(b, sep);
        if i == b.len() {
            seq![b]
        } else {
            seq![b.subrange(0, i)] + spec_splitn(b.subrange(i + 1, b.len() as int), sep, n - 1)
        }
    }
}

#[via_fn]
proof fn spec_splitn_decreases(b: Seq<u8>, sep: u8, n: int) {
    lemma_first_sep_bounds(b, sep);
}

/// Splits `b` on `sep` into at most `n` pieces.
pub fn splitn_bytes(b: &[u8], sep: u8, n: usize) -> (r: Vec<Vec<u8>>)
    requires
        n >= 1,
    ensures
        r.deep_view() == spec_splitn(b@, sep, n as int),
        1 <= r.len() <= n,
{
    let ghost whole = b@;
    let mut out: Vec<Vec<u8>> = Vec::new();
    let mut start: usize = 0;
    let mut left: usize = n;
    proof {
        assert(b@.subrange(0, b@.len() as int) =~= whole);
        assert(out.deep_view() =~~= Seq::<Seq<u8>>::empty());
    }
    loop
        invariant
            whole == b@,
            start <= b.len(),
            1 <= left <= n,
            out.len() == n - left,
            spec_splitn(whole, sep, n as int) =~~= out.deep_view() + spec_splitn(
                b@.subrange(start as int, b@.len() as int),
                sep,
                left as int,
            ),
        decreases b.len() - start + 1,
    {
        let ghost rest = b@.subrange(start as int, b@.len() as int);
        if left == 1 {
            let mut piece: Vec<u8> = Vec::new();
            let mut k: usize = start;
            while k < b.len()
                invariant
                    start <= k <= b.len(),
                    piece@ == b@.subrange(start as int, k as int),
                decreases b.len() - k,
            {
                piece.push(b[k]);
                assert(piece@ =~= b@.subrange(start as int, k + 1));
                k += 1;
            }
            proof {
                assert(piece@ =~= rest);
            }
            let ghost out0 = out.deep_view();
            let ghost piecev = piece@;
            out.push(piece);
            proof {
                assert(out.deep_view() =~~= out0.push(piecev));
                assert(spec_splitn(rest, sep, 1) =~= seq![rest]);
                assert(out.deep_view() =~~= spec_splitn(whole, sep, n as int));
            }
            return out;
        }
        let mut i: usize = start;
        while i < b.len() && b[i] != sep
            invariant
                start <= i <= b.len(),
                forall|j: int| start <= j < i ==> b@[j] != sep,
            decreases b.len() - i,
        {
            i += 1;
        }
        proof {
            assert(forall|j: int| 0 <= j < i - start ==> rest[j] != sep);
            if i < b.len() {
                assert(rest[i - start] == sep);
            }
            lemma_first_sep_at(rest, sep, i - start);
        }
        let mut piece: Vec<u8> = Vec::new();
        let mut k: usize = start;
        while k < i
            invariant
                start <= k <= i <= b.len(),
                piece@ == b@.subrange(start as int, k as int),
            decreases i - k,
        {
            piece.push(b[k]);
            assert(piece@ =~= b@.subrange(start as int, k + 1));
            k += 1;
        }
        proof {
            assert(piece@ =~= rest.subrange(0, i - start));
        }
        let ghost out0 = out.deep_view();
        let ghost piecev = piece@;
        out.push(piece);
        proof {
            assert(out.deep_view() =~~= out0.push(piecev));
        }
        if i == b.len() {
            proof {
                assert(rest.subrange(0, i - start) =~= rest);
                assert(spec_splitn(rest, sep, left as int) =~= seq![rest]);
                assert(out.deep_view() =~~= spec_splitn(whole, sep, n as int));
            }
            return out;
        }
        proof {
            assert(b@.subrange(i + 1, b@.len() as int) =~= rest.subrange(
                i - start + 1,
                rest.len() as int,
            ));
            assert(spec_splitn(rest, sep, left as int) == seq![rest.subrange(0, i - start)]
                + spec_splitn(rest.subrange(i - start + 1, rest.len() as int), sep, left - 1));
        }
        start = i + 1;
        left = left - 1;
        proof {
            assert(spec_splitn(whole, sep, n as int) =~~= out.deep_view() + spec_splitn(
                b@.subrange(start as int, b@.len() as int),
                sep,
                left as int,
            ));
        }
    }
}

/// A line with a trailing carriage return removed.
pub open spec fn strip_cr(l: Seq<u8>) -> Seq<u8> {
    if l.len() > 0 && l.last() == 0x0d {
        l.drop_last()
    } else {
        l
    }
}

/// The lines of `b`: pieces between newlines, without a final empty piece
/// for a trailing newline, each with a trailing carriage return removed.
pub open spec fn spec_lines(b: Seq<u8>) -> Seq<Seq<u8>> {
    let ps = spec_split(b, 0x0a);
    let ps2 = if ps.len() > 0 && ps.last().len() == 0 {
        ps.drop_last()
    } else {
        ps
    };
    ps2.map_values(|l: Seq<u8>| strip_cr(l))
}

/// Splits `b` into lines.
pub fn split_lines(b: &[u8]) -> (r: Vec<Vec<u8>>)
    ensures
        r.deep_view() == spec_lines(b@),
{
    let mut ps = split_bytes(b, 0x0a);
    if ps.len() > 0 && ps[ps.len() - 1].len() == 0 {
        proof {
            assert(ps.deep_view().last() == ps@[ps@.len() - 1]@);
        }
        let ghost before = ps.deep_view();
        ps.pop();
        proof {
            assert(ps.deep_view() =~~= before.drop_last());
        }
    }
    let ghost ps2 = ps.deep_view();
    let mut out: Vec<Vec<u8>> = Vec::new();
    let mut i: usize = 0;
    while i < ps.len()
        invariant
            i <= ps.len(),
            ps2 == ps.deep_view(),
            out.len() == i,
            forall|k: int| 0 <= k < i ==> out.deep_view()[k] == strip_cr(ps2[k]),
        decreases ps.len() - i,
    {
        let piece = &ps[i];
        let n: usize = if piece.len() > 0 && piece[piece.len() - 1] == 0x0d {
            piece.len() - 1
        } else {
            piece.len()
        };
        let mut q: Vec<u8> = Vec::new();
        let mut j: usize = 0;
        while j < n
            invariant
                j <= n <= piece@.len(),
                q@ == piece@.subrange(0, j as int),
            decreases n - j,
        {
            q.push(piece[j]);
            assert(q@ =~= piece@.subrange(0, j + 1));
            j += 1;
        }
        proof {
            assert(piece@ == ps2[i as int]);
            if piece@.len() > 0 && piece@.last() == 0x0d {
                assert(q@ =~= strip_cr(ps2[i as int]));
            } else {
                assert(q@ =~= strip_cr(ps2[i as int]));
            }
        }
        let ghost out0 = out.deep_view();
        let ghost qv = q@;
        out.push(q);
        proof {
            assert(out.deep_view() =~~= out0.push(qv));
        }
        i += 1;
    }
    proof {
        assert(out.deep_view() =~~= ps2.map_values(|l: Seq<u8>| strip_cr(l)));
    }
    out
}

/// An ASCII decimal digit.
pub open spec fn is_digit(b: u8) -> bool {
    0x30 <= b <= 0x39
}

pub open spec fn all_digits(b: Seq<u8>) -> bool {
    forall|i: int| 0 <= i < b.len() ==> is_digit(b[i])
}

/// Value of a digit string, most significant first.
pub open spec fn digits_val(b: Seq<u8>) -> int
    decreases b.len(),
{
    if b.len() == 0 {
        0
    } else {
        digits_val(b.drop_last()) * 10 + (b.last() - 0x30)
    }
}

/// A digit string is worth at least its prefix: appending digits never
/// shrinks the value.
proof fn lemma_digits_val_prefix(b: Seq<u8>, i: int)
    requires
        all_digits(b),
        0 <= i <= b.len(),
    ensures
        digits_val(b) >= digits_val(b.take(i)),
        digits_val(b) >= 0,
    decreases b.len() - i,
{
    if i == b.len() {
        assert(b.take(i) =~= b);
        lemma_digits_val_nonneg(b);
    } else {
        assert(b.take(i + 1).drop_last() =~= b.take(i));
        lemma_digits_val_nonneg(b.take(i));
        assert(digits_val(b.take(i + 1)) == digits_val(b.take(i)) * 10 + (b[i] - 0x30));
        lemma_digits_val_prefix(b, i + 1);
    }
}

proof fn lemma_digits_val_nonneg(b: Seq<u8>)
    requires
        all_digits(b),
    ensures
        digits_val(b) >= 0,
    decreases b.len(),
{
    if b.len() > 0 {
        assert(all_digits(b.drop_last())) by {
            assert(forall|i: int| 0 <= i < b.len() - 1 ==> b.drop_last()[i] == b[i]);
        }
        lemma_digits_val_nonneg(b.drop_last());
    }
}

/// The value of an unsigned digit string when it is well formed and within
/// `limit`; `None` on an empty string, a non-digit, or overflow.
pub open spec fn spec_parse_digits(b: Seq<u8>, limit: int) -> Option<int> {
    if b.len() > 0 && all_digits(b) && digits_val(b) <= limit {
        Some(digits_val(b))
    } else {
        None
    }
}

/// Parses a digit-only string, refusing values above `limit`.
pub fn parse_digits_up_to(b: &[u8], limit: u64) -> (r: Option<u64>)
    ensures
        r matches Some(v) ==> spec_parse_digits(b@, limit as int) == Some(v as int),
        r is None ==> spec_parse_digits(b@, limit as int) is None,
{
    if b.len() == 0 {
        return None;
    }
    let mut acc: u64 = 0;
    let mut i: usize = 0;
    while i < b.len()
        invariant
            0 < b.len(),
            i <= b.len(),
            limit <= u64::MAX,
            acc <= limit,
            all_digits(b@.take(i as int)),
            acc == digits_val(b@.take(i as int)),
        decreases b.len() - i,
    {
        let c = b[i];
        if c < 0x30 || c > 0x39 {
            assert(!all_digits(b@));
            return None;
        }
        let d: u64 = (c - 0x30) as u64;
        proof {
            assert(b@.take(i + 1).drop_last() =~= b@.take(i as int));
        }
        if d > limit || acc > (limit - d) / 10 {
            proof {
                assert(digits_val(b@.take(i + 1)) == acc * 10 + d);
                assert(acc * 10 + d > limit) by (nonlinear_arith)
                    requires
                        d > limit || acc > (limit - d) / 10,
                        0 <= d <= 9,
                        acc >= 0,
                        limit >= 0,
                ;
                if all_digits(b@) && digits_val(b@) <= limit {
                    lemma_digits_val_prefix(b@, i + 1);
                }
            }
            return None;
        }
        proof {
            assert(acc * 10 + d <= limit) by (nonlinear_arith)
                requires
                    acc <= (limit - d) / 10,
                    0 <= d <= 9,
                    acc >= 0,
                    limit >= 0,
            ;
        }
        acc = acc * 10 + d;
        i += 1;
    }
    proof {
        assert(b@.take(b@.len() as int) =~= b@);
    }
    Some(acc)
}

/// What `str::parse::<u32>` accepts: an optional plus sign followed by at
/// least one digit, the value fitting the type.
pub open spec fn spec_parse_u32(b: Seq<u8>) -> Option<u32> {
    if b.len() == 0 {
        None
    } else {
        let digits = if b[0] == 0x2b {
            b.skip(1)
        } else {
            b
        };
        if digits.len() > 0 && all_digits(digits) && digits_val(digits) <= u32::MAX {
            Some(digits_val(digits) as u32)
        } else {
            None
        }
    }
}

/// Parses an unsigned 32-bit decimal, as the standard integer parser does.
pub fn parse_u32(b: &[u8]) -> (r: Option<u32>)
    ensures
        r == spec_parse_u32(b@),
{
    if b.len() == 0 {
        return None;
    }
    let skip_sign = b[0] == 0x2b;
    let ghost digits = if skip_sign {
        b@.skip(1)
    } else {
        b@
    };
    let tail: &[u8] = if skip_sign {
        &b[1..b.len()]
    } else {
        b
    };
    proof {
        if skip_sign {
            assert(tail@ =~= digits);
        }
    }
    let r = parse_digits_up_to(tail, 0xffffffff);
    match r {
        Some(v) => Some(v as u32),
        None => None,
    }
}

/// What `str::parse::<i64>` accepts: an optional sign followed by at least
/// one digit, the value fitting the type.
pub open spec fn spec_parse_i64(b: Seq<u8>) -> Option<i64> {
    if b.len() == 0 {
        None
    } else {
        let neg = b[0] == 0x2d;
        let digits = if b[0] == 0x2d || b[0] == 0x2b {
            b.skip(1)
        } else {
            b
        };
        if digits.len() > 0 && all_digits(digits) {
            let v = if neg {
                -digits_val(digits)
            } else {
                digits_val(digits)
            };
            if i64::MIN <= v <= i64::MAX {
                Some(v as i64)
            } else {
                None
            }
        } else {
            None
        }
    }
}

/// Parses a signed 64-bit decimal, as the standard integer parser does.
#[verifier::loop_isolation(false)]
pub fn parse_i64(b: &[u8]) -> (r: Option<i64>)
    ensures
        r == spec_parse_i64(b@),
{
    if b.len() == 0 {
        return None;
    }
    let neg = b[0] == 0x2d;
    let skip_sign = neg || b[0] == 0x2b;
    let start: usize = if skip_sign {
        1
    } else {
        0
    };
    let ghost digits = if skip_sign {
        b@.skip(1)
    } else {
        b@
    };
    let limit: u64 = if neg {
        9223372036854775808
    } else {
        9223372036854775807
    };
    let mut acc: u64 = 0;
    let mut i: usize = start;
    if b.len() == start {
        return None;
    }
    while i < b.len()
        invariant
            start <= i <= b.len(),
            start < b.len(),
            start == if skip_sign { 1int } else { 0int },
            digits == if skip_sign { b@.skip(1) } else { b@ },
            limit == if neg { 0x8000000000000000u64 } else { 0x7fffffffffffffffu64 },
            acc <= limit,
            all_digits(digits.take(i - start)),
            acc == digits_val(digits.take(i - start)),
        decreases b.len() - i,
    {
        let c = b[i];
        proof {
            assert(digits[i - start] == b@[i as int]);
        }
        if c < 0x30 || c > 0x39 {
            assert(!all_digits(digits));
            return None;
        }
        let d: u64 = (c - 0x30) as u64;
        proof {
            assert(digits.take(i - start + 1).drop_last() =~= digits.take(i - start));
            assert(digits.take(i - start + 1).last() == c);
        }
        if acc > (limit - d) / 10 {
            proof {
                assert(digits_val(digits.take(i - start + 1)) == acc * 10 + d);
                assert(acc * 10 + d > limit) by (nonlinear_arith)
                    requires
                        acc > (limit - d) / 10,
                        0 <= d <= 9,
                        acc >= 0,
                        limit >= 0,
                ;
                if all_digits(digits) {
                    lemma_digits_val_prefix(digits, i - start + 1);
                }
            }
            return None;
        }
        proof {
            assert(acc * 10 + d <= limit) by (nonlinear_arith)
                requires
                    acc <= (limit - d) / 10,
                    0 <= d <= 9,
                    acc >= 0,
                    limit >= 0,
            ;
        }
        acc = acc * 10 + d;
        i += 1;
    }
    proof {
        assert(digits.take(digits.len() as int) =~= digits);
    }
    if neg {
        if acc == 0 {
            Some(0)
        } else {
            Some(-((acc - 1) as i64) - 1)
        }
    } else {
        Some(acc as i64)
    }
}

} // verus!
