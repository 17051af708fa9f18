//! Byte-string utilities shared by the filter parsers and the report
//! formatters: decimal numerals, separators, trimming.

use vstd::prelude::*;

verus! {

/// The ASCII code of a decimal digit.
pub open spec fn is_dec_digit(b: u8) -> bool {
    48 <= b <= 57
}

/// Every byte of the sequence is a decimal digit.
pub open spec fn all_dec_digits(s: Seq<u8>) -> bool {
    forall|i: int| 0 <= i < s.len() ==> is_dec_digit(#[trigger] s[i])
}

/// The number denoted by a sequence of decimal digit codes, most
/// significant digit first.
pub open spec fn dec_value(s: Seq<u8>) -> int
    decreases s.len(),
{
    if s.len() == 0 {
        0
    } else {
        dec_value(s.drop_last()) * 10 + s.last() - 48
    }
}

/// A numeral accepted as a `u64`: non-empty, all digits, value in range.
pub open spec fn is_u64_numeral(s: Seq<u8>) -> bool {
    s.len() > 0 && all_dec_digits(s) && dec_value(s) <= u64::MAX
}

/// The digits of a numeral after an optional leading plus sign.
pub open spec fn numeral_body(s: Seq<u8>) -> Seq<u8> {
    if s.len() > 0 && s[0] == 43 {
        s.skip(1)
    } else {
        s
    }
}

proof fn lemma_dec_value_nonneg(s: Seq<u8>)
    requires
        all_dec_digits(s),
    ensures
        dec_value(s) >= 0,
    decreases s.len(),
{
    if s.len() > 0 {
        assert(all_dec_digits(s.drop_last()));
        lemma_dec_value_nonneg(s.drop_last());
    }
}

/// A digit string is worth at least any of its prefixes.
proof fn lemma_dec_value_take_le(s: Seq<u8>, k: int)
    requires
        all_dec_digits(s),
        0 <= k <= s.len(),
    ensures
        dec_value(s.take(k)) <= dec_value(s),
    decreases s.len() - k,
{
    if k < s.len() {
        assert(s.take(k + 1).drop_last() =~= s.take(k));
        assert(all_dec_digits(s.take(k)));
        lemma_dec_value_nonneg(s.take(k));
        assert(dec_value(s.take(k + 1)) == dec_value(s.take(k)) * 10 + s[k] - 48);
        lemma_dec_value_take_le(s, k + 1);
    } else {
        assert(s.take(k) =~= s);
    }
}

/// Parses a decimal numeral with an optional leading plus sign, exactly as
/// the standard `u64` parser accepts it; `None` on anything else, an empty
/// body, or a value above `u64::MAX`.
pub fn parse_u64(s: &[u8]) -> (r: Option<u64>)
    ensures
        match r {
            Some(v) => is_u64_numeral(numeral_body(s@)) && v == dec_value(numeral_body(s@)),
            None => !is_u64_numeral(numeral_body(s@)),
        },
{
    let mut start: usize = 0;
    if s.len() > 0 && s[0] == 43 {
        start = 1;
    }
    let ghost body = numeral_body(s@);
    proof {
        assert(body =~= s@.subrange(start as int, s@.len() as int));
    }
    if start >= s.len() {
        return None;
    }
    let mut acc: u64 = 0;
    let mut i: usize = start;
    while i < s.len()
        invariant
            start <= i <= s@.len(),
            body == numeral_body(s@),
            body =~= s@.subrange(start as int, s@.len() as int),
            all_dec_digits(s@.subrange(start as int, i as int)),
            acc == dec_value(s@.subrange(start as int, i as int)),
        decreases s@.len() - i,
    {
        let b = s[i];
        if b < 48 || b > 57 {
            proof {
                assert(body[i - start] == b);
                assert(!is_dec_digit(body[i - start]));
                assert(!all_dec_digits(body));
                assert(!is_u64_numeral(body));
                assert(body == numeral_body(s@));
            }
            return None;
        }
        let d = (b - 48) as u64;
        proof {
            assert(s@.subrange(start as int, i + 1).drop_last() =~= s@.subrange(
                start as int,
                i as int,
            ));
            assert(s@.subrange(start as int, i + 1).last() == b);
        }
        let shifted = match acc.checked_mul(10) {
            Some(x) => x,
            None => {
                proof {
                    overflow_means_no_numeral(s@, start as int, i as int, acc, d);
                }
                return None;
            },
        };
        acc = match shifted.checked_add(d) {
            Some(x) => x,
            None => {
                proof {
                    overflow_means_no_numeral(s@, start as int, i as int, acc, d);
                }
                return None;
            },
        };
        i += 1;
    }
    proof {
        assert(s@.subrange(start as int, i as int) =~= body);
    }
    Some(acc)
}

/// The byte sequences a list of byte strings holds, in order.
pub open spec fn byte_views(v: Vec<Vec<u8>>) -> Seq<Seq<u8>> {
    Seq::new(v@.len(), |i: int| v@[i]@)
}

/// The byte sequence an optional byte string holds.
pub open spec fn opt_bytes_view(o: Option<Vec<u8>>) -> Option<Seq<u8>> {
    match o {
        Some(v) => Some(v@),
        None => None,
    }
}

/// The index of the first occurrence of `b` in `s`, if any.
pub open spec fn find_byte_spec(s: Seq<u8>, b: u8) -> Option<int>
    decreases s.len(),
{
    if s.len() == 0 {
        None
    } else if s[0] == b {
        Some(0)
    } else {
        match find_byte_spec(s.skip(1), b) {
            Some(i) => Some(i + 1),
            None => None,
        }
    }
}

proof fn lemma_find_byte_spec(s: Seq<u8>, b: u8)
    ensures
        match find_byte_spec(s, b) {
            Some(i) => 0 <= i < s.len() && s[i] == b && forall|j: int| 0 <= j < i ==> s[j] != b,
            None => forall|j: int| 0 <= j < s.len() ==> s[j] != b,
        },
    decreases s.len(),
{
    if s.len() > 0 && s[0] != b {
        lemma_find_byte_spec(s.skip(1), b);
        match find_byte_spec(s.skip(1), b) {
            Some(i) => {
                assert(s[i + 1] == s.skip(1)[i]);
                assert forall|j: int| 0 <= j < i + 1 implies s[j] != b by {
                    if j >= 1 {
                        assert(s.skip(1)[j - 1] == s[j]);
                    }
                }
            },
            None => {
                assert forall|j: int| 0 <= j < s.len() implies s[j] != b by {
                    if j >= 1 {
                        assert(s.skip(1)[j - 1] == s[j]);
                    }
                }
            },
        }
    }
}

/// The first occurrence fixes the value of `find_byte_spec`.
proof fn lemma_find_byte_at(s: Seq<u8>, b: u8, k: int)
    requires
        0 <= k < s.len(),
        s[k] == b,
        forall|j: int| 0 <= j < k ==> s[j] != b,
    ensures
        find_byte_spec(s, b) == Some(k),
    decreases s.len(),
{
    if k > 0 {
        lemma_find_byte_at(s.skip(1), b, k - 1);
    }
}

proof fn lemma_find_byte_none(s: Seq<u8>, b: u8)
    requires
        forall|j: int| 0 <= j < s.len() ==> s[j] != b,
    ensures
        find_byte_spec(s, b) is None,
    decreases s.len(),
{
    if s.len() > 0 {
        lemma_find_byte_none(s.skip(1), b);
    }
}

/// What stands before and after the first occurrence of `sep`, if any.
pub open spec fn spec_split_at(s: Seq<u8>, sep: u8) -> Option<(Seq<u8>, Seq<u8>)> {
    match find_byte_spec(s, sep) {
        Some(i) => Some((s.take(i), s.skip(i + 1))),
        None => None,
    }
}

/// Finds the first occurrence of `b` in `s`.
pub fn find_byte(s: &[u8], b: u8) -> (r: Option<usize>)
    ensures
        match r {
            Some(i) => i < s@.len() && find_byte_spec(s@, b) == Some(i as int),
            None => find_byte_spec(s@, b) is None,
        },
{
    let mut i: usize = 0;
    while i < s.len()
        invariant
            0 <= i <= s@.len(),
            forall|j: int| 0 <= j < i ==> s@[j] != b,
        decreases s@.len() - i,
    {
        if s[i] == b {
            proof {
                lemma_find_byte_at(s@, b, i as int);
            }
            return Some(i);
        }
        i += 1;
    }
    proof {
        lemma_find_byte_none(s@, b);
    }
    None
}

/// Splits at the first occurrence of `sep`; the separator itself is kept in
/// neither half.
pub fn split_once(s: &[u8], sep: u8) -> (r: Option<(Vec<u8>, Vec<u8>)>)
    ensures
        match r {
            Some(p) => spec_split_at(s@, sep) == Some((p.0@, p.1@)),
            None => spec_split_at(s@, sep) is None,
        },
{
    match find_byte(s, sep) {
        Some(i) => {
            let n = s.len();
            let left = vstd::slice::slice_to_vec(vstd::slice::slice_subrange(s, 0, i));
            let right = vstd::slice::slice_to_vec(vstd::slice::slice_subrange(s, i + 1, n));
            proof {
                assert(s@.subrange(0, i as int) =~= s@.take(i as int));
                assert(s@.subrange(i + 1, s@.len() as int) =~= s@.skip(i + 1));
            }
            Some((left, right))
        },
        None => None,
    }
}

/// An ASCII whitespace byte, the ASCII subset of what the standard
/// string trimming removes.
pub open spec fn is_ascii_ws(b: u8) -> bool {
    b == 9 || b == 10 || b == 11 || b == 12 || b == 13 || b == 32
}

/// `s` without its leading bytes satisfying `p`.
pub open spec fn trim_left_by(s: Seq<u8>, p: spec_fn(u8) -> bool) -> Seq<u8>
    decreases s.len(),
{
    if s.len() > 0 && p(s[0]) {
        trim_left_by(s.skip(1), p)
    } else {
        s
    }
}

/// `s` without its trailing bytes satisfying `p`.
pub open spec fn trim_right_by(s: Seq<u8>, p: spec_fn(u8) -> bool) -> Seq<u8>
    decreases s.len(),
{
    if s.len() > 0 && p(s.last()) {
        trim_right_by(s.drop_last(), p)
    } else {
        s
    }
}

/// `s` without leading and trailing bytes satisfying `p`.
pub open spec fn trim_by(s: Seq<u8>, p: spec_fn(u8) -> bool) -> Seq<u8> {
    trim_right_by(trim_left_by(s, p), p)
}

proof fn lemma_trim_left_skip(s: Seq<u8>, p: spec_fn(u8) -> bool, lo: int)
    requires
        0 <= lo <= s.len(),
        forall|j: int| 0 <= j < lo ==> p(s[j]),
        lo < s.len() ==> !p(s[lo]),
    ensures
        trim_left_by(s, p) == s.skip(lo),
    decreases lo,
{
    if lo == 0 {
        assert(s.skip(0) =~= s);
    } else {
        lemma_trim_left_skip(s.skip(1), p, lo - 1);
        assert(s.skip(1).skip(lo - 1) =~= s.skip(lo));
    }
}

proof fn lemma_trim_right_take(s: Seq<u8>, p: spec_fn(u8) -> bool, hi: int)
    requires
        0 <= hi <= s.len(),
        forall|j: int| hi <= j < s.len() ==> p(s[j]),
        hi > 0 ==> !p(s[hi - 1]),
    ensures
        trim_right_by(s, p) == s.take(hi),
    decreases s.len() - hi,
{
    if hi == s.len() {
        assert(s.take(hi) =~= s);
    } else {
        lemma_trim_right_take(s.drop_last(), p, hi);
        assert(s.drop_last().take(hi) =~= s.take(hi));
    }
}

/// The byte classes the report and filter parsers strip at the edges of a
/// token.
pub enum TrimClass {
    /// ASCII whitespace.
    Whitespace,
    /// Double quote, comma and space, stripped around values picked out of a
    /// debug rendering.
    QuoteCommaSpace,
    /// Double quote and comma alone.
    QuoteComma,
    /// Round parentheses, stripped around keys picked out of a debug
    /// rendering.
    Parens,
}

/// The bytes a class strips.
pub open spec fn in_trim_class(c: TrimClass, b: u8) -> bool {
    match c {
        TrimClass::Whitespace => is_ascii_ws(b),
        TrimClass::QuoteCommaSpace => b == 34 || b == 44 || b == 32,
        TrimClass::QuoteComma => b == 34 || b == 44,
        TrimClass::Parens => b == 40 || b == 41,
    }
}

fn in_class(c: &TrimClass, b: u8) -> (r: bool)
    ensures
        r == in_trim_class(*c, b),
{
    match c {
        TrimClass::Whitespace => b == 9 || b == 10 || b == 11 || b == 12 || b == 13 || b == 32,
        TrimClass::QuoteCommaSpace => b == 34 || b == 44 || b == 32,
        TrimClass::QuoteComma => b == 34 || b == 44,
        TrimClass::Parens => b == 40 || b == 41,
    }
}

/// Strips every byte of the class from the front of `s` only.
pub fn trim_left_class(s: &[u8], c: TrimClass) -> (r: Vec<u8>)
    ensures
        r@ == trim_left_by(s@, |b: u8| in_trim_class(c, b)),
{
    let ghost p = |b: u8| in_trim_class(c, b);
    let mut lo: usize = 0;
    while lo < s.len() && in_class(&c, s[lo])
        invariant
            0 <= lo <= s@.len(),
            p == (|b: u8| in_trim_class(c, b)),
            forall|j: int| 0 <= j < lo ==> p(s@[j]),
        decreases s@.len() - lo,
    {
        lo += 1;
    }
    let r = vstd::slice::slice_to_vec(vstd::slice::slice_subrange(s, lo, s.len()));
    proof {
        lemma_trim_left_skip(s@, p, lo as int);
        assert(s@.subrange(lo as int, s@.len() as int) =~= s@.skip(lo as int));
    }
    r
}

/// Strips every byte of the class from both edges of `s`.
pub fn trim_class(s: &[u8], c: TrimClass) -> (r: Vec<u8>)
    ensures
        r@ == trim_by(s@, |b: u8| in_trim_class(c, b)),
{
    let ghost p = |b: u8| in_trim_class(c, b);
    let mut lo: usize = 0;
    while lo < s.len() && in_class(&c, s[lo])
        invariant
            0 <= lo <= s@.len(),
            p == (|b: u8| in_trim_class(c, b)),
            forall|j: int| 0 <= j < lo ==> p(s@[j]),
        decreases s@.len() - lo,
    {
        lo += 1;
    }
    let mut hi: usize = s.len();
    while hi > lo && in_class(&c, s[hi - 1])
        invariant
            lo <= hi <= s@.len(),
            p == (|b: u8| in_trim_class(c, b)),
            forall|j: int| 0 <= j < lo ==> p(s@[j]),
            lo < s@.len() ==> !p(s@[lo as int]),
            forall|j: int| hi <= j < s@.len() ==> p(s@[j]),
        decreases hi,
    {
        hi -= 1;
    }
    let r = vstd::slice::slice_to_vec(vstd::slice::slice_subrange(s, lo, hi));
    proof {
        lemma_trim_left_skip(s@, p, lo as int);
        let t = s@.skip(lo as int);
        if hi == lo {
            lemma_trim_right_take(t, p, 0);
        } else {
            lemma_trim_right_take(t, p, hi - lo);
        }
        assert(t.take(hi - lo) =~= s@.subrange(lo as int, hi as int));
        assert(s@.subrange(lo as int, hi as int) =~= r@);
    }
    r
}

/// An upper-case ASCII letter mapped to its lower-case form; every other
/// byte kept.
pub open spec fn to_lower_byte(b: u8) -> u8 {
    if 65 <= b <= 90 {
        (b + 32) as u8
    } else {
        b
    }
}

/// The ASCII lower-casing of a byte string.
pub open spec fn lower_bytes(s: Seq<u8>) -> Seq<u8> {
    Seq::new(s.len(), |i: int| to_lower_byte(s[i]))
}

/// Lower-cases the ASCII letters of `s`.
pub fn ascii_lowercase(s: &[u8]) -> (r: Vec<u8>)
    ensures
        r@ == lower_bytes(s@),
{
    let mut r: Vec<u8> = Vec::new();
    let mut i: usize = 0;
    while i < s.len()
        invariant
            0 <= i <= s@.len(),
            r@.len() == i,
            forall|j: int| 0 <= j < i ==> r@[j] == to_lower_byte(s@[j]),
        decreases s@.len() - i,
    {
        let b = s[i];
        if 65 <= b && b <= 90 {
            r.push(b + 32);
        } else {
            r.push(b);
        }
        i += 1;
    }
    proof {
        assert(r@ =~= lower_bytes(s@));
    }
    r
}

/// `needle` occurs somewhere in `hay` as a contiguous run.
pub open spec fn contains_seq(hay: Seq<u8>, needle: Seq<u8>) -> bool {
    exists|k: int|
        0 <= k && k + needle.len() <= hay.len() && #[trigger] hay.subrange(k, k + needle.len())
            == needle
}

/// Decides whether `needle` occurs in `hay`.
pub fn contains_bytes(hay: &[u8], needle: &[u8]) -> (r: bool)
    ensures
        r == contains_seq(hay@, needle@),
{
    let n = needle.len();
    let h = hay.len();
    if n > h {
        return false;
    }
    let mut k: usize = 0;
    while k <= h - n
        invariant
            n == needle@.len(),
            h == hay@.len(),
            n <= h,
            0 <= k <= h - n + 1,
            forall|kk: int| 0 <= kk < k ==> #[trigger] hay@.subrange(kk, kk + needle@.len())
                != needle@,
        decreases h - n + 1 - k,
    {
        let mut j: usize = 0;
        let mut all: bool = true;
        while j < n
            invariant
                n == needle@.len(),
                h == hay@.len(),
                0 <= k <= h - n,
                0 <= j <= n,
                all ==> forall|jj: int| 0 <= jj < j ==> hay@[k + jj] == needle@[jj],
                !all ==> exists|jj: int| 0 <= jj < n && hay@[k + jj] != #[trigger] needle@[jj],
            decreases n - j,
        {
            if hay[k + j] != needle[j] {
                all = false;
                j = n;
            } else {
                j += 1;
            }
        }
        if all {
            proof {
                assert(hay@.subrange(k as int, k + needle@.len()) =~= needle@);
            }
            return true;
        }
        proof {
            let jj = choose|jj: int| 0 <= jj < n && hay@[k + jj] != #[trigger] needle@[jj];
            assert(hay@.subrange(k as int, k + needle@.len())[jj] == hay@[k + jj]);
        }
        k += 1;
    }
    proof {
        assert forall|kk: int|
            0 <= kk && kk + needle@.len() <= hay@.len() implies #[trigger] hay@.subrange(
            kk,
            kk + needle@.len(),
        ) != needle@ by {}
    }
    false
}

/// A line's trailing carriage return removed, as the standard line
/// splitter does.
pub open spec fn strip_cr(s: Seq<u8>) -> Seq<u8> {
    if s.len() > 0 && s.last() == 13 {
        s.drop_last()
    } else {
        s
    }
}

/// The lines of a byte text, split at each line feed, a trailing carriage
/// return removed from each line, and no phantom line after a trailing
/// line feed.
pub open spec fn spec_lines(s: Seq<u8>) -> Seq<Seq<u8>>
    decreases s.len(),
    via spec_lines_decreases
{
    if s.len() == 0 {
        seq![]
    } else {
        match find_byte_spec(s, 10) {
            None => seq![strip_cr(s)],
            Some(i) => seq![strip_cr(s.take(i))] + spec_lines(s.skip(i + 1)),
        }
    }
}

#[via_fn]
proof fn spec_lines_decreases(s: Seq<u8>) {
    if s.len() > 0 {
        lemma_find_byte_spec(s, 10);
    }
}

/// Removes a trailing carriage return.
fn strip_cr_vec(mut v: Vec<u8>) -> (r: Vec<u8>)
    ensures
        r@ == strip_cr(v@),
{
    if v.len() > 0 && *v.get(v.len() - 1).unwrap() == 13 {
        v.pop();
    }
    v
}

/// Splits a byte text into its lines.
pub fn split_lines(s: &[u8]) -> (r: Vec<Vec<u8>>)
    ensures
        byte_views(r) == spec_lines(s@),
    decreases s@.len(),
{
    let mut r: Vec<Vec<u8>> = Vec::new();
    if s.len() == 0 {
        proof {
            assert(byte_views(r) =~= spec_lines(s@));
        }
        return r;
    }
    match find_byte(s, 10) {
        None => {
            r.push(strip_cr_vec(vstd::slice::slice_to_vec(s)));
            proof {
                assert(byte_views(r) =~= spec_lines(s@));
            }
            r
        },
        Some(i) => {
            let n = s.len();
            let head = strip_cr_vec(
                vstd::slice::slice_to_vec(vstd::slice::slice_subrange(s, 0, i)),
            );
            let mut rest = split_lines(vstd::slice::slice_subrange(s, i + 1, n));
            r.push(head);
            r.append(&mut rest);
            proof {
                assert(s@.subrange(0, i as int) =~= s@.take(i as int));
                assert(s@.subrange(i + 1, n as int) =~= s@.skip(i + 1));
                assert forall|j: int| 0 <= j < byte_views(r).len() implies byte_views(r)[j]
                    == spec_lines(s@)[j] by {}
                assert(byte_views(r) =~= spec_lines(s@));
            }
            r
        },
    }
}

/// The comma-separated entries of a byte string, each trimmed of ASCII
/// whitespace, empty entries dropped.
pub open spec fn spec_comma_list(s: Seq<u8>) -> Seq<Seq<u8>>
    decreases s.len(),
    via spec_comma_list_decreases
{
    match find_byte_spec(s, 44) {
        None => {
            let t = trim_by(s, |b: u8| in_trim_class(TrimClass::Whitespace, b));
            if t.len() == 0 {
                seq![]
            } else {
                seq![t]
            }
        },
        Some(i) => {
            let t = trim_by(s.take(i), |b: u8| in_trim_class(TrimClass::Whitespace, b));
            (if t.len() == 0 {
                seq![]
            } else {
                seq![t]
            }) + spec_comma_list(s.skip(i + 1))
        },
    }
}

#[via_fn]
proof fn spec_comma_list_decreases(s: Seq<u8>) {
    lemma_find_byte_spec(s, 44);
}

/// Splits a comma-separated list, trims each entry, and drops the empty
/// ones — the shape interactive address input arrives in.
pub fn parse_comma_list(s: &[u8]) -> (r: Vec<Vec<u8>>)
    ensures
        byte_views(r) == spec_comma_list(s@),
    decreases s@.len(),
{
    let mut r: Vec<Vec<u8>> = Vec::new();
    match find_byte(s, 44) {
        None => {
            let t = trim_class(s, TrimClass::Whitespace);
            if t.len() > 0 {
                r.push(t);
            }
            proof {
                assert(byte_views(r) =~= spec_comma_list(s@));
            }
            r
        },
        Some(i) => {
            let n = s.len();
            let t = trim_class(vstd::slice::slice_subrange(s, 0, i), TrimClass::Whitespace);
            let mut rest = parse_comma_list(vstd::slice::slice_subrange(s, i + 1, n));
            if t.len() > 0 {
                r.push(t);
            }
            r.append(&mut rest);
            proof {
                assert(s@.subrange(0, i as int) =~= s@.take(i as int));
                assert(s@.subrange(i + 1, n as int) =~= s@.skip(i + 1));
                assert(byte_views(r) =~= spec_comma_list(s@));
            }
            r
        },
    }
}

/// If appending digit `d` to a digit prefix worth `acc` leaves the 64-bit
/// range, no suffix can bring the whole numeral back into it.
proof fn overflow_means_no_numeral(s: Seq<u8>, start: int, i: int, acc: u64, d: u64)
    requires
        0 <= start <= i < s.len(),
        all_dec_digits(s.subrange(start, i)),
        acc == dec_value(s.subrange(start, i)),
        is_dec_digit(s[i]),
        d == s[i] - 48,
        acc * 10 + d > u64::MAX,
    ensures
        !is_u64_numeral(s.subrange(start, s.len() as int)),
{
    let body = s.subrange(start, s.len() as int);
    if all_dec_digits(body) {
        assert(s.subrange(start, i + 1).drop_last() =~= s.subrange(start, i));
        assert(s.subrange(start, i + 1).last() == s[i]);
        assert(dec_value(s.subrange(start, i + 1)) == acc * 10 + d);
        assert(body.take(i + 1 - start) =~= s.subrange(start, i + 1));
        lemma_dec_value_take_le(body, i + 1 - start);
    }
}

} // verus!
