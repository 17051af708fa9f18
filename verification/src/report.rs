//! Report helpers: thousands-separated number rendering, and the
//! extraction of the key/value pairs the one-shot query commands show out
//! of a response's debug rendering.

use vstd::prelude::*;
use vstd::string::StringExecFns;
use crate::encoders::ascii_string;
use crate::text::{
    ascii_lowercase, byte_views, contains_bytes, contains_seq, in_trim_class, lower_bytes,
    spec_lines, spec_split_at, split_lines, split_once, trim_by, trim_class, trim_left_by,
    trim_left_class, TrimClass,
};

verus! {

/// The decimal digits of a number, most significant first.
pub open spec fn u64_digits(n: int) -> Seq<u8>
    decreases n,
{
    if n < 10 {
        seq![(48 + n) as u8]
    } else {
        u64_digits(n / 10).push((48 + n % 10) as u8)
    }
}

/// Digit groups of three, counted from the right, separated by commas.
pub open spec fn grouped(ds: Seq<u8>) -> Seq<u8>
    decreases ds.len(),
{
    if ds.len() <= 3 {
        ds
    } else {
        grouped(ds.take(ds.len() - 3)) + seq![44u8] + ds.skip(ds.len() - 3)
    }
}

/// Each byte read as the character with the same code.
pub open spec fn chars_of(s: Seq<u8>) -> Seq<char> {
    Seq::new(s.len(), |i: int| s[i] as char)
}

proof fn lemma_u64_digits_ascii(n: int)
    requires
        n >= 0,
    ensures
        forall|i: int| 0 <= i < u64_digits(n).len() ==> 48 <= #[trigger] u64_digits(n)[i] <= 57,
    decreases n,
{
    if n < 10 {
        assert(u64_digits(n)[0] == (48 + n) as u8);
    } else {
        lemma_u64_digits_ascii(n / 10);
        let tail = u64_digits(n / 10);
        assert forall|i: int| 0 <= i < u64_digits(n).len() implies 48 <= #[trigger] u64_digits(
            n,
        )[i] <= 57 by {
            if i < tail.len() {
                assert(u64_digits(n)[i] == tail[i]);
            } else {
                assert(u64_digits(n)[i] == (48 + n % 10) as u8);
            }
        }
    }
}

proof fn lemma_grouped_ascii(ds: Seq<u8>)
    requires
        forall|i: int| 0 <= i < ds.len() ==> 48 <= #[trigger] ds[i] <= 57,
    ensures
        forall|i: int| 0 <= i < grouped(ds).len() ==> #[trigger] grouped(ds)[i] < 128,
    decreases ds.len(),
{
    if ds.len() > 3 {
        assert(forall|i: int|
            0 <= i < ds.take(ds.len() - 3).len() ==> 48 <= #[trigger] ds.take(ds.len() - 3)[i]
                <= 57);
        lemma_grouped_ascii(ds.take(ds.len() - 3));
        let head = grouped(ds.take(ds.len() - 3));
        assert forall|i: int| 0 <= i < grouped(ds).len() implies #[trigger] grouped(ds)[i]
            < 128 by {
            if i < head.len() {
                assert(grouped(ds)[i] == head[i]);
            } else if i == head.len() {
                assert(grouped(ds)[i] == 44);
            } else {
                assert(grouped(ds)[i] == ds.skip(ds.len() - 3)[i - head.len() - 1]);
                assert(ds.skip(ds.len() - 3)[i - head.len() - 1] == ds[ds.len() - 3 + (i
                    - head.len() - 1)]);
            }
        }
    }
}

/// The decimal digits of `value`.
fn u64_to_digits(value: u64) -> (r: Vec<u8>)
    ensures
        r@ == u64_digits(value as int),
{
    let mut r: Vec<u8> = Vec::new();
    let mut n: u64 = value;
    r.insert(0, 48 + (n % 10) as u8);
    n = n / 10;
    proof {
        if n == 0 {
            assert(r@ =~= u64_digits(value as int));
        } else {
            assert(u64_digits(value as int) =~= u64_digits(n as int) + r@);
        }
    }
    while n > 0
        invariant
            n > 0 ==> u64_digits(value as int) == u64_digits(n as int) + r@,
            n == 0 ==> r@ == u64_digits(value as int),
        decreases n,
    {
        let d: u8 = 48 + (n % 10) as u8;
        r.insert(0, d);
        let ghost prev = n;
        n = n / 10;
        proof {
            if n == 0 {
                assert(u64_digits(prev as int) =~= seq![d]);
                assert(r@ =~= u64_digits(value as int));
            } else {
                assert(u64_digits(prev as int) =~= u64_digits(n as int).push(d));
                assert(u64_digits(n as int) + r@ =~= u64_digits(value as int));
            }
        }
    }
    r
}

/// Groups digits by thousands with commas.
fn group_digits(ds: &[u8]) -> (r: Vec<u8>)
    ensures
        r@ == grouped(ds@),
    decreases ds@.len(),
{
    let n = ds.len();
    if n <= 3 {
        return vstd::slice::slice_to_vec(ds);
    }
    let mut r = group_digits(vstd::slice::slice_subrange(ds, 0, n - 3));
    r.push(44);
    r.push(ds[n - 3]);
    r.push(ds[n - 2]);
    r.push(ds[n - 1]);
    proof {
        assert(ds@.subrange(0, n - 3) =~= ds@.take(n - 3));
        assert(r@ =~= grouped(ds@));
    }
    r
}

/// Renders a number with a comma between each group of three digits.
pub fn format_thousands(value: u64) -> (r: String)
    ensures
        r@ == chars_of(grouped(u64_digits(value as int))),
{
    let digits = u64_to_digits(value);
    let g = group_digits(digits.as_slice());
    proof {
        lemma_u64_digits_ascii(value as int);
        lemma_grouped_ascii(u64_digits(value as int));
    }
    let s = ascii_string(&g);
    proof {
        assert(s@ =~= chars_of(grouped(u64_digits(value as int))));
    }
    s
}

/// Which one-shot query's response is being picked apart.
#[derive(PartialEq, Eq, Structural, Clone, Copy, Debug)]
pub enum QueryKind {
    LatestBlockhash,
    BlockHeight,
    CurrentSlot,
}

pub open spec fn kw_slot() -> Seq<u8> {
    seq![115u8, 108u8, 111u8, 116u8]
}

pub open spec fn kw_blockhash() -> Seq<u8> {
    seq![98u8, 108u8, 111u8, 99u8, 107u8, 104u8, 97u8, 115u8, 104u8]
}

pub open spec fn kw_last_valid() -> Seq<u8> {
    seq![108u8, 97u8, 115u8, 116u8, 95u8, 118u8, 97u8, 108u8, 105u8, 100u8]
}

pub open spec fn kw_block_height() -> Seq<u8> {
    seq![98u8, 108u8, 111u8, 99u8, 107u8, 95u8, 104u8, 101u8, 105u8, 103u8, 104u8, 116u8]
}

pub open spec fn kw_height() -> Seq<u8> {
    seq![104u8, 101u8, 105u8, 103u8, 104u8, 116u8]
}

pub open spec fn kw_valid() -> Seq<u8> {
    seq![118u8, 97u8, 108u8, 105u8, 100u8]
}

fn kw_slot_bytes() -> (r: Vec<u8>)
    ensures
        r@ == kw_slot(),
{
    let mut r: Vec<u8> = Vec::new();
    r.push(115);
    r.push(108);
    r.push(111);
    r.push(116);
    proof {
        assert(r@ =~= kw_slot());
    }
    r
}

fn kw_blockhash_bytes() -> (r: Vec<u8>)
    ensures
        r@ == kw_blockhash(),
{
    let mut r: Vec<u8> = Vec::new();
    r.push(98);
    r.push(108);
    r.push(111);
    r.push(99);
    r.push(107);
    r.push(104);
    r.push(97);
    r.push(115);
    r.push(104);
    proof {
        assert(r@ =~= kw_blockhash());
    }
    r
}

fn kw_last_valid_bytes() -> (r: Vec<u8>)
    ensures
        r@ == kw_last_valid(),
{
    let mut r: Vec<u8> = Vec::new();
    r.push(108);
    r.push(97);
    r.push(115);
    r.push(116);
    r.push(95);
    r.push(118);
    r.push(97);
    r.push(108);
    r.push(105);
    r.push(100);
    proof {
        assert(r@ =~= kw_last_valid());
    }
    r
}

fn kw_block_height_bytes() -> (r: Vec<u8>)
    ensures
        r@ == kw_block_height(),
{
    let mut r: Vec<u8> = Vec::new();
    r.push(98);
    r.push(108);
    r.push(111);
    r.push(99);
    r.push(107);
    r.push(95);
    r.push(104);
    r.push(101);
    r.push(105);
    r.push(103);
    r.push(104);
    r.push(116);
    proof {
        assert(r@ =~= kw_block_height());
    }
    r
}

fn kw_height_bytes() -> (r: Vec<u8>)
    ensures
        r@ == kw_height(),
{
    let mut r: Vec<u8> = Vec::new();
    r.push(104);
    r.push(101);
    r.push(105);
    r.push(103);
    r.push(104);
    r.push(116);
    proof {
        assert(r@ =~= kw_height());
    }
    r
}

fn kw_valid_bytes() -> (r: Vec<u8>)
    ensures
        r@ == kw_valid(),
{
    let mut r: Vec<u8> = Vec::new();
    r.push(118);
    r.push(97);
    r.push(108);
    r.push(105);
    r.push(100);
    proof {
        assert(r@ =~= kw_valid());
    }
    r
}

/// The bytes of the fallback key shown when nothing was recognized.
pub open spec fn response_key() -> Seq<u8> {
    seq![82u8, 101u8, 115u8, 112u8, 111u8, 110u8, 115u8, 101u8]
}

fn response_key_bytes() -> (r: Vec<u8>)
    ensures
        r@ == response_key(),
{
    let mut r: Vec<u8> = Vec::new();
    r.push(82);
    r.push(101);
    r.push(115);
    r.push(112);
    r.push(111);
    r.push(110);
    r.push(115);
    r.push(101);
    proof {
        assert(r@ =~= response_key());
    }
    r
}

/// ASCII whitespace trimmed from both ends.
pub open spec fn ws_trim(s: Seq<u8>) -> Seq<u8> {
    trim_by(s, |b: u8| in_trim_class(TrimClass::Whitespace, b))
}

/// Double quotes, commas and spaces trimmed from both ends.
pub open spec fn qcs_trim(s: Seq<u8>) -> Seq<u8> {
    trim_by(s, |b: u8| in_trim_class(TrimClass::QuoteCommaSpace, b))
}

/// Double quotes and commas trimmed from both ends.
pub open spec fn qc_trim(s: Seq<u8>) -> Seq<u8> {
    trim_by(s, |b: u8| in_trim_class(TrimClass::QuoteComma, b))
}

/// Parentheses trimmed from the front.
pub open spec fn paren_ltrim(s: Seq<u8>) -> Seq<u8> {
    trim_left_by(s, |b: u8| in_trim_class(TrimClass::Parens, b))
}

/// The display label a lower-cased key earns for the given query, if any.
pub open spec fn query_label(kind: QueryKind, key: Seq<u8>) -> Option<Seq<char>> {
    match kind {
        QueryKind::LatestBlockhash => if contains_seq(key, kw_slot()) {
            Some("Slot"@)
        } else if contains_seq(key, kw_blockhash()) {
            Some("Blockhash"@)
        } else if contains_seq(key, kw_last_valid()) {
            Some("Last Valid Block Height"@)
        } else if contains_seq(key, kw_block_height()) {
            Some("Block Height"@)
        } else {
            None
        },
        QueryKind::BlockHeight => if contains_seq(key, kw_block_height()) || contains_seq(
            key,
            kw_height(),
        ) {
            Some("Block Height"@)
        } else {
            None
        },
        QueryKind::CurrentSlot => if contains_seq(key, kw_slot()) {
            Some("Slot"@)
        } else {
            None
        },
    }
}

/// What one line of the debug rendering contributes: the line is trimmed,
/// split at its first colon, the key lower-cased and matched against the
/// query's keywords, the value stripped of quotes, commas and spaces.
pub open spec fn line_pair(kind: QueryKind, line: Seq<u8>) -> Option<(Seq<char>, Seq<u8>)> {
    match spec_split_at(ws_trim(line), 58) {
        None => None,
        Some(p) => {
            let key = lower_bytes(ws_trim(p.0));
            let value = qcs_trim(ws_trim(p.1));
            match query_label(kind, key) {
                Some(l) => Some((l, value)),
                None => None,
            }
        },
    }
}

/// The pairs all lines contribute, in order.
pub open spec fn query_pairs(kind: QueryKind, lines: Seq<Seq<u8>>) -> Seq<(Seq<char>, Seq<u8>)>
    decreases lines.len(),
{
    if lines.len() == 0 {
        seq![]
    } else {
        (match line_pair(kind, lines[0]) {
            Some(p) => seq![p],
            None => seq![],
        }) + query_pairs(kind, lines.skip(1))
    }
}

/// The labelled values a list of pairs holds.
pub open spec fn pair_views(v: Vec<(String, Vec<u8>)>) -> Seq<(Seq<char>, Seq<u8>)> {
    Seq::new(v@.len(), |i: int| (v@[i].0@, v@[i].1@))
}

fn line_pair_exec(kind: &QueryKind, line: &[u8]) -> (r: Option<(String, Vec<u8>)>)
    ensures
        match r {
            Some(p) => line_pair(*kind, line@) == Some((p.0@, p.1@)),
            None => line_pair(*kind, line@) is None,
        },
{
    let t = trim_class(line, TrimClass::Whitespace);
    let (k, v) = match split_once(t.as_slice(), 58) {
        Some(p) => p,
        None => {
            return None;
        },
    };
    let key = ascii_lowercase(trim_class(k.as_slice(), TrimClass::Whitespace).as_slice());
    let value = trim_class(
        trim_class(v.as_slice(), TrimClass::Whitespace).as_slice(),
        TrimClass::QuoteCommaSpace,
    );
    let label: Option<String> = match kind {
        QueryKind::LatestBlockhash => {
            if contains_bytes(key.as_slice(), kw_slot_bytes().as_slice()) {
                Some(String::from_str("Slot"))
            } else if contains_bytes(key.as_slice(), kw_blockhash_bytes().as_slice()) {
                Some(String::from_str("Blockhash"))
            } else if contains_bytes(key.as_slice(), kw_last_valid_bytes().as_slice()) {
                Some(String::from_str("Last Valid Block Height"))
            } else if contains_bytes(key.as_slice(), kw_block_height_bytes().as_slice()) {
                Some(String::from_str("Block Height"))
            } else {
                None
            }
        },
        QueryKind::BlockHeight => {
            if contains_bytes(key.as_slice(), kw_block_height_bytes().as_slice())
                || contains_bytes(key.as_slice(), kw_height_bytes().as_slice()) {
                Some(String::from_str("Block Height"))
            } else {
                None
            }
        },
        QueryKind::CurrentSlot => {
            if contains_bytes(key.as_slice(), kw_slot_bytes().as_slice()) {
                Some(String::from_str("Slot"))
            } else {
                None
            }
        },
    };
    match label {
        Some(l) => Some((l, value)),
        None => None,
    }
}

/// Collects the pairs of every line, in order.
fn collect_pairs(kind: &QueryKind, lines: &[Vec<u8>]) -> (r: Vec<(String, Vec<u8>)>)
    ensures
        pair_views(r) == query_pairs(*kind, Seq::new(lines@.len(), |i: int| lines@[i]@)),
    decreases lines@.len(),
{
    let ghost lviews = Seq::new(lines@.len(), |i: int| lines@[i]@);
    let mut r: Vec<(String, Vec<u8>)> = Vec::new();
    if lines.len() == 0 {
        proof {
            assert(pair_views(r) =~= query_pairs(*kind, lviews));
        }
        return r;
    }
    match line_pair_exec(kind, lines[0].as_slice()) {
        Some(p) => r.push(p),
        None => (),
    }
    let ghost head = r@;
    let mut rest = collect_pairs(kind, vstd::slice::slice_subrange(lines, 1, lines.len()));
    let ghost rest_view = rest@;
    r.append(&mut rest);
    proof {
        assert(lviews.skip(1) =~= Seq::new(
            lines@.subrange(1, lines@.len() as int).len(),
            |i: int| lines@.subrange(1, lines@.len() as int)[i]@,
        ));
        assert forall|i: int| 0 <= i < pair_views(r).len() implies pair_views(r)[i]
            == query_pairs(*kind, lviews)[i] by {
            if i >= head.len() {
                assert(r@[i] == rest_view[i - head.len()]);
                assert(pair_views(r)[i] == (rest_view[i - head.len()].0@, rest_view[i
                    - head.len()].1@));
            }
        }
        assert(pair_views(r) =~= query_pairs(*kind, lviews));
    }
    r
}

/// Picks the labelled values out of a query response's debug rendering;
/// when no line matches, one pair carrying the whole rendering under the
/// fallback key.
fn extract_query_pairs(kind: QueryKind, response_text: &[u8]) -> (r: Vec<(String, Vec<u8>)>)
    ensures
        ({
            let ps = query_pairs(kind, spec_lines(response_text@));
            if ps.len() == 0 {
                r@.len() == 1 && r@[0].0@ == "Response"@ && r@[0].1@ == response_text@
            } else {
                pair_views(r) == ps
            }
        }),
{
    let lines = split_lines(response_text);
    proof {
        assert(Seq::new(lines@.len(), |i: int| lines@[i]@) =~= byte_views(lines));
    }
    let ps = collect_pairs(&kind, lines.as_slice());
    if ps.len() == 0 {
        let mut r: Vec<(String, Vec<u8>)> = Vec::new();
        r.push((String::from_str("Response"), vstd::slice::slice_to_vec(response_text)));
        r
    } else {
        ps
    }
}

/// The one pair the health-check command shows: the whole response.
pub fn print_health_check(response_text: &[u8]) -> (r: Vec<(String, Vec<u8>)>)
    ensures
        r@.len() == 1,
        r@[0].0@ == "Response"@,
        r@[0].1@ == response_text@,
{
    let mut r: Vec<(String, Vec<u8>)> = Vec::new();
    r.push((String::from_str("Response"), vstd::slice::slice_to_vec(response_text)));
    r
}

/// The labelled values the latest-blockhash command shows, picked out of
/// the response's debug rendering line by line.
pub fn print_latest_blockhash(response_text: &[u8]) -> (r: Vec<(String, Vec<u8>)>)
    ensures
        ({
            let ps = query_pairs(QueryKind::LatestBlockhash, spec_lines(response_text@));
            if ps.len() == 0 {
                r@.len() == 1 && r@[0].0@ == "Response"@ && r@[0].1@ == response_text@
            } else {
                pair_views(r) == ps
            }
        }),
{
    extract_query_pairs(QueryKind::LatestBlockhash, response_text)
}

/// The labelled values the block-height command shows.
pub fn print_block_height(response_text: &[u8]) -> (r: Vec<(String, Vec<u8>)>)
    ensures
        ({
            let ps = query_pairs(QueryKind::BlockHeight, spec_lines(response_text@));
            if ps.len() == 0 {
                r@.len() == 1 && r@[0].0@ == "Response"@ && r@[0].1@ == response_text@
            } else {
                pair_views(r) == ps
            }
        }),
{
    extract_query_pairs(QueryKind::BlockHeight, response_text)
}

/// The labelled values the get-slot command shows.
pub fn print_slot(response_text: &[u8]) -> (r: Vec<(String, Vec<u8>)>)
    ensures
        ({
            let ps = query_pairs(QueryKind::CurrentSlot, spec_lines(response_text@));
            if ps.len() == 0 {
                r@.len() == 1 && r@[0].0@ == "Response"@ && r@[0].1@ == response_text@
            } else {
                pair_views(r) == ps
            }
        }),
{
    extract_query_pairs(QueryKind::CurrentSlot, response_text)
}

/// What one line of the blockhash-validity rendering contributes: a line
/// naming validity (flagged true) or a slot, its key stripped of leading
/// parentheses, its value of quotes and commas.
pub open spec fn valid_line_entry(line: Seq<u8>) -> Option<(Seq<u8>, Seq<u8>, bool)> {
    let t = ws_trim(line);
    if contains_seq(t, kw_valid()) {
        match spec_split_at(t, 58) {
            None => None,
            Some(p) => Some(
                (paren_ltrim(ws_trim(p.0)), qc_trim(ws_trim(p.1)), true),
            ),
        }
    } else if contains_seq(t, kw_slot()) {
        match spec_split_at(t, 58) {
            None => None,
            Some(p) => Some(
                (paren_ltrim(ws_trim(p.0)), qc_trim(ws_trim(p.1)), false),
            ),
        }
    } else {
        None
    }
}

/// The entries all lines contribute, in order.
pub open spec fn valid_entries(lines: Seq<Seq<u8>>) -> Seq<(Seq<u8>, Seq<u8>, bool)>
    decreases lines.len(),
{
    if lines.len() == 0 {
        seq![]
    } else {
        (match valid_line_entry(lines[0]) {
            Some(p) => seq![p],
            None => seq![],
        }) + valid_entries(lines.skip(1))
    }
}

/// The keyed values a list of entries holds.
pub open spec fn entry_views(v: Vec<(Vec<u8>, Vec<u8>, bool)>) -> Seq<(Seq<u8>, Seq<u8>, bool)> {
    Seq::new(v@.len(), |i: int| (v@[i].0@, v@[i].1@, v@[i].2))
}

fn valid_line_exec(line: &[u8]) -> (r: Option<(Vec<u8>, Vec<u8>, bool)>)
    ensures
        match r {
            Some(p) => valid_line_entry(line@) == Some((p.0@, p.1@, p.2)),
            None => valid_line_entry(line@) is None,
        },
{
    let t = trim_class(line, TrimClass::Whitespace);
    let validity = contains_bytes(t.as_slice(), kw_valid_bytes().as_slice());
    if !validity && !contains_bytes(t.as_slice(), kw_slot_bytes().as_slice()) {
        return None;
    }
    let (k, v) = match split_once(t.as_slice(), 58) {
        Some(p) => p,
        None => {
            return None;
        },
    };
    let key = trim_left_class(
        trim_class(k.as_slice(), TrimClass::Whitespace).as_slice(),
        TrimClass::Parens,
    );
    let value = trim_class(
        trim_class(v.as_slice(), TrimClass::Whitespace).as_slice(),
        TrimClass::QuoteComma,
    );
    Some((key, value, validity))
}

/// The keyed values the blockhash-validity command shows: the validity
/// line (flagged, so the caller can decorate it) and any slot line; when
/// no line matches, one entry carrying the whole rendering under the
/// fallback key.
pub fn print_blockhash_valid(response_text: &[u8]) -> (r: Vec<(Vec<u8>, Vec<u8>, bool)>)
    ensures
        ({
            let es = valid_entries(spec_lines(response_text@));
            if es.len() == 0 {
                r@.len() == 1 && r@[0].0@ == response_key() && r@[0].1@ == response_text@
                    && r@[0].2 == false
            } else {
                entry_views(r) == es
            }
        }),
{
    let lines = split_lines(response_text);
    let mut r: Vec<(Vec<u8>, Vec<u8>, bool)> = Vec::new();
    let mut i: usize = 0;
    proof {
        assert(byte_views(lines).skip(0) =~= byte_views(lines));
    }
    while i < lines.len()
        invariant
            0 <= i <= lines@.len(),
            byte_views(lines) == spec_lines(response_text@),
            entry_views(r) + valid_entries(byte_views(lines).skip(i as int)) =~= valid_entries(
                byte_views(lines),
            ),
        decreases lines@.len() - i,
    {
        let ghost before = entry_views(r);
        match valid_line_exec(lines[i].as_slice()) {
            Some(p) => {
                r.push(p);
                proof {
                    assert(entry_views(r) =~= before + seq![
                        (p.0@, p.1@, p.2),
                    ]);
                }
            },
            None => (),
        }
        proof {
            let tail = byte_views(lines).skip(i as int);
            assert(tail[0] == lines@[i as int]@);
            assert(tail.skip(1) =~= byte_views(lines).skip(i + 1));
            assert(entry_views(r) + valid_entries(byte_views(lines).skip(i + 1)) =~= entry_views(
                r,
            ) + valid_entries(byte_views(lines).skip(i + 1)));
            match valid_line_entry(lines@[i as int]@) {
                Some(p) => {
                    assert(valid_entries(tail) =~= seq![p] + valid_entries(tail.skip(1)));
                },
                None => {
                    assert(valid_entries(tail) =~= valid_entries(tail.skip(1)));
                },
            }
        }
        i += 1;
    }
    proof {
        assert(byte_views(lines).skip(lines@.len() as int) =~= Seq::<Seq<u8>>::empty());
        assert(entry_views(r) =~= valid_entries(byte_views(lines)));
    }
    if r.len() == 0 {
        r.push((response_key_bytes(), vstd::slice::slice_to_vec(response_text), false));
    }
    r
}

} // verus!
