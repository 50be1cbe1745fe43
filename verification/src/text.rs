//! Byte-text helpers shared by the parsers: searching, splitting, trimming,
//! decimal numbers.

use vstd::prelude::*;
use vstd::slice::*;
use vstd::string::*;

verus! {

/// The sequences held by a vector of byte vectors.
pub open spec fn views(items: Seq<Vec<u8>>) -> Seq<Seq<u8>> {
    items.map_values(|item: Vec<u8>| item@)
}

/// The UTF-8 bytes of a string slice, as an owned vector.
pub fn text(s: &str) -> (out: Vec<u8>)
    ensures
        out@ == s.spec_bytes(),
{
    slice_to_vec(s.as_bytes())
}

/// An owned copy of a byte slice.
pub fn copy_bytes(s: &[u8]) -> (out: Vec<u8>)
    ensures
        out@ == s@,
{
    slice_to_vec(s)
}

/// Appends `tail` to `out`.
pub fn push_all(out: &mut Vec<u8>, tail: &[u8])
    ensures
        final(out)@ == old(out)@ + tail@,
{
    let mut i: usize = 0;
    while i < tail.len()
        invariant
            i <= tail.len(),
            out@ == old(out)@ + tail@.subrange(0, i as int),
        decreases tail.len() - i,
    {
        out.push(tail[i]);
        i += 1;
    }
    assert(tail@.subrange(0, tail@.len() as int) == tail@);
}

/// Whether two byte slices hold the same bytes.
pub fn bytes_equal(a: &[u8], b: &[u8]) -> (same: bool)
    ensures
        same == (a@ == b@),
{
    if a.len() != b.len() {
        return false;
    }
    let mut i: usize = 0;
    while i < a.len()
        invariant
            i <= a.len(),
            a.len() == b.len(),
            forall|j: int| 0 <= j < i ==> a@[j] == b@[j],
        decreases a.len() - i,
    {
        if a[i] != b[i] {
            return false;
        }
        i += 1;
    }
    assert(a@ =~= b@);
    true
}

/// Whether a byte slice holds exactly the bytes of `literal`.
pub fn is_text(a: &[u8], literal: &str) -> (same: bool)
    ensures
        same == (a@ == literal.spec_bytes()),
{
    bytes_equal(a, literal.as_bytes())
}

/// Index of the first `delimiter` at or after `from`, or the length of `s`
/// when there is none.
pub open spec fn first_from(s: Seq<u8>, delimiter: u8, from: int) -> int
    decreases s.len() - from,
{
    if from >= s.len() {
        s.len() as int
    } else if s[from] == delimiter {
        from
    } else {
        first_from(s, delimiter, from + 1)
    }
}

/// `first_from` lies between `from` and the end, and no delimiter comes
/// before it.
pub proof fn first_from_bounds(s: Seq<u8>, delimiter: u8, from: int)
    requires
        0 <= from <= s.len(),
    ensures
        from <= first_from(s, delimiter, from) <= s.len(),
        first_from(s, delimiter, from) < s.len() ==> s[first_from(s, delimiter, from)] == delimiter,
        forall|j: int| from <= j < first_from(s, delimiter, from) ==> s[j] != delimiter,
    decreases s.len() - from,
{
    if from < s.len() && s[from] != delimiter {
        first_from_bounds(s, delimiter, from + 1);
    }
}

/// Finds the first `delimiter` at or after `from`.
pub(crate) fn find_byte(s: &[u8], delimiter: u8, from: usize) -> (at: usize)
    requires
        from <= s@.len(),
    ensures
        at == first_from(s@, delimiter, from as int),
        from <= at <= s@.len(),
{
    let mut i: usize = from;
    while i < s.len()
        invariant
            from <= i <= s.len(),
            first_from(s@, delimiter, from as int) == first_from(s@, delimiter, i as int),
        decreases s.len() - i,
    {
        if s[i] == delimiter {
            return i;
        }
        i += 1;
    }
    i
}

/// The bytes of `s` from `from` up to, not including, `to`.
pub(crate) fn slice_of(s: &[u8], from: usize, to: usize) -> (out: Vec<u8>)
    requires
        from <= to <= s@.len(),
    ensures
        out@ == s@.subrange(from as int, to as int),
{
    slice_to_vec(slice_subrange(s, from, to))
}

/// The pieces of `s` between occurrences of `delimiter`, starting at `from`.
/// A sequence without delimiter is one piece; an empty one is one empty piece.
pub open spec fn pieces_from(s: Seq<u8>, delimiter: u8, from: int) -> Seq<Seq<u8>>
    decreases s.len() - from,
{
    let stop = first_from(s, delimiter, from);
    if from > s.len() {
        Seq::empty()
    } else if stop >= s.len() {
        seq![s.subrange(from, s.len() as int)]
    } else if stop < from {
        Seq::empty()
    } else {
        seq![s.subrange(from, stop)] + pieces_from(s, delimiter, stop + 1)
    }
}

/// The pieces of `s` between occurrences of `delimiter`.
pub open spec fn pieces(s: Seq<u8>, delimiter: u8) -> Seq<Seq<u8>> {
    pieces_from(s, delimiter, 0)
}

/// Splits `s` at every `delimiter`.
pub fn split(s: &[u8], delimiter: u8) -> (out: Vec<Vec<u8>>)
    ensures
        views(out@) == pieces(s@, delimiter),
        out@.len() >= 1,
{
    let mut out: Vec<Vec<u8>> = Vec::new();
    let mut from: usize = 0;
    loop
        invariant_except_break
            from <= s.len(),
            views(out@) + pieces_from(s@, delimiter, from as int) =~= pieces(s@, delimiter),
        ensures
            views(out@) == pieces(s@, delimiter),
            out@.len() >= 1,
        decreases s.len() - from,
    {
        let stop = find_byte(s, delimiter, from);
        let piece = slice_of(s, from, stop);
        let ghost before = views(out@);
        out.push(piece);
        assert(views(out@) =~= before.push(piece@));
        if stop >= s.len() {
            assert(views(out@) =~= pieces(s@, delimiter));
            break;
        }
        assert(views(out@) + pieces_from(s@, delimiter, stop + 1) =~= pieces(s@, delimiter));
        from = stop + 1;
    }
    out
}


/// Whether `b` is an ASCII decimal digit.
pub open spec fn is_digit(b: u8) -> bool {
    48 <= b <= 57
}

/// Whether every byte of `s` is an ASCII decimal digit.
pub open spec fn all_digits(s: Seq<u8>) -> bool {
    forall|i: int| 0 <= i < s.len() ==> is_digit(#[trigger] s[i])
}

/// The number that a sequence of decimal digits writes.
pub open spec fn digits_value(s: Seq<u8>) -> nat
    decreases s.len(),
{
    if s.len() == 0 {
        0
    } else {
        digits_value(s.drop_last()) * 10 + (s.last() - 48) as nat
    }
}

/// The digits of a number text: the text itself, without one leading `+`.
pub open spec fn number_body(s: Seq<u8>) -> Seq<u8> {
    if s.len() > 0 && s[0] == 43 {
        s.subrange(1, s.len() as int)
    } else {
        s
    }
}

/// The number that `s` writes: an optional `+`, then at least one decimal
/// digit and nothing else. `None` for any other text.
pub open spec fn decimal_value(s: Seq<u8>) -> Option<nat> {
    let body = number_body(s);
    if body.len() > 0 && all_digits(body) {
        Some(digits_value(body))
    } else {
        None
    }
}

/// A longer run of digits writes a number at least as large as any of its
/// prefixes.
pub proof fn digits_value_prefix(s: Seq<u8>, n: int)
    requires
        0 <= n <= s.len(),
        all_digits(s),
    ensures
        digits_value(s.subrange(0, n)) <= digits_value(s),
    decreases s.len() - n,
{
    if n == s.len() {
        assert(s.subrange(0, n) =~= s);
    } else {
        digits_value_prefix(s, n + 1);
        let longer = s.subrange(0, n + 1);
        assert(longer.drop_last() =~= s.subrange(0, n));
        assert(is_digit(s[n]));
        assert(longer.last() == s[n]);
    }
}

/// Reads a decimal number that fits the machine word.
pub fn parse_usize(s: &[u8]) -> (out: Option<usize>)
    ensures
        out == match decimal_value(s@) {
            Some(v) => if v <= usize::MAX {
                Some(v as usize)
            } else {
                None
            },
            None => None,
        },
{
    let start: usize = if s.len() > 0 && s[0] == 43 {
        1
    } else {
        0
    };
    let ghost body = number_body(s@);
    if start >= s.len() {
        return None;
    }
    let mut acc: usize = 0;
    let mut i: usize = start;
    while i < s.len()
        invariant
            start <= i <= s.len(),
            body == s@.subrange(start as int, s@.len() as int),
            body == number_body(s@),
            body.len() > 0,
            all_digits(body.subrange(0, i - start)),
            acc == digits_value(body.subrange(0, i - start)),
        decreases s.len() - i,
    {
        let b = s[i];
        let ghost prefix = body.subrange(0, i - start);
        let ghost longer = body.subrange(0, i - start + 1);
        assert(body[i - start] == b);
        if b < 48 || b > 57 {
            assert(!is_digit(body[i - start]));
            return None;
        }
        let d: usize = (b - 48) as usize;
        proof {
            assert(longer.drop_last() =~= prefix);
            assert(longer.last() == b);
            assert forall|j: int| 0 <= j < longer.len() implies is_digit(#[trigger] longer[j]) by {
                if j < prefix.len() {
                    assert(longer[j] == prefix[j]);
                }
            }
        }
        if acc > (usize::MAX - d) / 10 {
            proof {
                assert(digits_value(longer) > usize::MAX);
                if all_digits(body) {
                    digits_value_prefix(body, i - start + 1);
                }
            }
            return None;
        }
        acc = acc * 10 + d;
        i += 1;
    }
    assert(body.subrange(0, body.len() as int) =~= body);
    Some(acc)
}

/// The decimal digits of `n`, without leading zeros.
pub open spec fn decimal_digits(n: nat) -> Seq<u8>
    decreases n,
{
    if n < 10 {
        seq![(48 + n) as u8]
    } else {
        decimal_digits(n / 10).push((48 + n % 10) as u8)
    }
}

/// Writes `n` in decimal.
pub fn decimal(n: u64) -> (out: Vec<u8>)
    ensures
        out@ == decimal_digits(n as nat),
    decreases n,
{
    if n < 10 {
        let mut out: Vec<u8> = Vec::new();
        out.push(48 + n as u8);
        assert(out@ =~= seq![(48 + n) as u8]);
        out
    } else {
        let mut out = decimal(n / 10);
        out.push(48 + (n % 10) as u8);
        out
    }
}

/// What `decimal_digits` writes reads back as the same number.
pub proof fn decimal_digits_value(n: nat)
    ensures
        all_digits(decimal_digits(n)),
        digits_value(decimal_digits(n)) == n,
        decimal_digits(n).len() > 0,
    decreases n,
{
    if n < 10 {
        let s = decimal_digits(n);
        assert(s.drop_last() =~= Seq::<u8>::empty());
        assert(digits_value(s.drop_last()) == 0);
    } else {
        decimal_digits_value(n / 10);
        let s = decimal_digits(n);
        assert(s.drop_last() =~= decimal_digits(n / 10));
    }
}

/// Whether `b` is ASCII white space.
pub open spec fn is_space(b: u8) -> bool {
    b == 32 || (9 <= b <= 13)
}

/// Index of the first byte at or after `from` that is no white space.
pub open spec fn skip_spaces(s: Seq<u8>, from: int) -> int
    decreases s.len() - from,
{
    if from >= s.len() {
        s.len() as int
    } else if is_space(s[from]) {
        skip_spaces(s, from + 1)
    } else {
        from
    }
}

/// Index just behind the last byte before `to` that is no white space.
pub open spec fn drop_spaces(s: Seq<u8>, to: int) -> int
    decreases to,
{
    if to <= 0 {
        0
    } else if to <= s.len() && is_space(s[to - 1]) {
        drop_spaces(s, to - 1)
    } else {
        to
    }
}

/// `s` without leading and trailing ASCII white space.
pub open spec fn trimmed(s: Seq<u8>) -> Seq<u8> {
    let from = skip_spaces(s, 0);
    let to = drop_spaces(s, s.len() as int);
    if from >= to {
        Seq::empty()
    } else {
        s.subrange(from, to)
    }
}

/// Removes leading and trailing ASCII white space.
pub fn trim(s: &[u8]) -> (out: Vec<u8>)
    ensures
        out@ == trimmed(s@),
{
    let mut from: usize = 0;
    while from < s.len() && (s[from] == 32 || (9 <= s[from] && s[from] <= 13))
        invariant
            from <= s.len(),
            skip_spaces(s@, 0) == skip_spaces(s@, from as int),
        decreases s.len() - from,
    {
        from += 1;
    }
    let mut to: usize = s.len();
    while to > 0 && (s[to - 1] == 32 || (9 <= s[to - 1] && s[to - 1] <= 13))
        invariant
            to <= s.len(),
            drop_spaces(s@, s@.len() as int) == drop_spaces(s@, to as int),
        decreases to,
    {
        to -= 1;
    }
    if from >= to {
        Vec::new()
    } else {
        slice_of(s, from, to)
    }
}

/// Whether `needle` occurs in `hay` at index `at`.
pub open spec fn occurs_at(hay: Seq<u8>, needle: Seq<u8>, at: int) -> bool {
    0 <= at && at + needle.len() <= hay.len() && hay.subrange(at, at + needle.len()) == needle
}

/// Whether `needle` occurs anywhere in `hay`.
pub open spec fn occurs(hay: Seq<u8>, needle: Seq<u8>) -> bool {
    exists|at: int| occurs_at(hay, needle, at)
}

/// Whether `needle` stands in `hay` at index `at`.
pub fn matches_at(hay: &[u8], needle: &[u8], at: usize) -> (found: bool)
    ensures
        found == occurs_at(hay@, needle@, at as int),
{
    if at > hay.len() || needle.len() > hay.len() - at {
        return false;
    }
    let mut k: usize = 0;
    while k < needle.len()
        invariant
            k <= needle.len(),
            at + needle.len() <= hay.len(),
            forall|j: int| 0 <= j < k ==> hay@[at + j] == needle@[j],
        decreases needle.len() - k,
    {
        if hay[at + k] != needle[k] {
            assert(hay@.subrange(at as int, at + needle@.len())[k as int] != needle@[k as int]);
            return false;
        }
        k += 1;
    }
    assert(hay@.subrange(at as int, at + needle@.len()) =~= needle@);
    true
}

/// Whether `needle` occurs anywhere in `hay`.
pub fn contains(hay: &[u8], needle: &[u8]) -> (found: bool)
    ensures
        found == occurs(hay@, needle@),
{
    let mut at: usize = 0;
    while at < hay.len()
        invariant
            at <= hay.len(),
            forall|j: int| 0 <= j < at ==> !occurs_at(hay@, needle@, j),
        decreases hay.len() - at,
    {
        if matches_at(hay, needle, at) {
            return true;
        }
        at += 1;
    }
    matches_at(hay, needle, at)
}

/// The lower-case form of an ASCII letter; any other byte unchanged.
pub open spec fn lower(b: u8) -> u8 {
    if 65 <= b <= 90 {
        (b + 32) as u8
    } else {
        b
    }
}

/// `s` with every ASCII capital replaced by its lower-case letter.
pub open spec fn lowered(s: Seq<u8>) -> Seq<u8> {
    s.map_values(|b: u8| lower(b))
}

/// Whether two texts are equal once ASCII capitals are lowered.
pub fn equal_ignoring_case(a: &[u8], b: &[u8]) -> (same: bool)
    ensures
        same == (lowered(a@) == lowered(b@)),
{
    if a.len() != b.len() {
        assert(lowered(a@).len() != lowered(b@).len());
        return false;
    }
    let mut i: usize = 0;
    while i < a.len()
        invariant
            i <= a.len(),
            a.len() == b.len(),
            forall|j: int| 0 <= j < i ==> lower(a@[j]) == lower(b@[j]),
        decreases a.len() - i,
    {
        let x = if 65 <= a[i] && a[i] <= 90 {
            a[i] + 32
        } else {
            a[i]
        };
        let y = if 65 <= b[i] && b[i] <= 90 {
            b[i] + 32
        } else {
            b[i]
        };
        if x != y {
            assert(lowered(a@)[i as int] != lowered(b@)[i as int]);
            return false;
        }
        i += 1;
    }
    assert(lowered(a@) =~= lowered(b@));
    true
}


/// An owned copy of a vector of texts.
pub fn copy_texts(items: &Vec<Vec<u8>>) -> (out: Vec<Vec<u8>>)
    ensures
        views(out@) == views(items@),
{
    let mut out: Vec<Vec<u8>> = Vec::new();
    let mut i: usize = 0;
    while i < items.len()
        invariant
            i <= items.len(),
            views(out@) =~= views(items@).subrange(0, i as int),
        decreases items.len() - i,
    {
        let item = copy_bytes(items[i].as_slice());
        let ghost before = views(out@);
        out.push(item);
        assert(views(out@) =~= before.push(item@));
        i += 1;
    }
    assert(views(items@).subrange(0, items@.len() as int) =~= views(items@));
    out
}

/// Whether two optional texts hold the same bytes, or are both absent.
pub open spec fn same_option(a: Option<Vec<u8>>, b: Option<Vec<u8>>) -> bool {
    match (a, b) {
        (Some(x), Some(y)) => x@ == y@,
        (None, None) => true,
        _ => false,
    }
}

/// An owned copy of an optional text.
pub fn copy_option(item: &Option<Vec<u8>>) -> (out: Option<Vec<u8>>)
    ensures
        same_option(*item, out),
{
    match item {
        Some(value) => Some(copy_bytes(value.as_slice())),
        None => None,
    }
}


/// What stands before the first `delimiter` of `s`, and what stands behind
/// it; `None` where `s` holds no `delimiter`.
pub open spec fn split_first(s: Seq<u8>, delimiter: u8) -> Option<(Seq<u8>, Seq<u8>)> {
    let at = first_from(s, delimiter, 0);
    if at < s.len() {
        Some((s.subrange(0, at), s.subrange(at + 1, s.len() as int)))
    } else {
        None
    }
}

/// Splits `s` at its first `delimiter`.
pub fn split_once(s: &[u8], delimiter: u8) -> (out: Option<(Vec<u8>, Vec<u8>)>)
    ensures
        match out {
            Some((before, after)) => split_first(s@, delimiter) == Some((before@, after@)),
            None => split_first(s@, delimiter) is None,
        },
{
    proof {
        first_from_bounds(s@, delimiter, 0);
    }
    let at = find_byte(s, delimiter, 0);
    if at < s.len() {
        Some((slice_of(s, 0, at), slice_of(s, at + 1, s.len())))
    } else {
        None
    }
}

} // verus!
