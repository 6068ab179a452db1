//! Splitting lists written with a separator, and reading unsigned decimal numbers.
use vstd::prelude::*;
use vstd::string::StrSliceExecFns;

verus! {

/// The pieces of `s` between the occurrences of `sep`, in order, as `str::split`
/// with a `char` pattern yields them: `""` gives one empty piece, and a trailing
/// separator gives a trailing empty piece.
pub open spec fn split_on(s: Seq<char>, sep: char) -> Seq<Seq<char>>
    decreases s.len(),
{
    if s.len() == 0 {
        seq![Seq::<char>::empty()]
    } else {
        let prev = split_on(s.drop_last(), sep);
        if s.last() == sep {
            prev.push(Seq::<char>::empty())
        } else {
            prev.update(prev.len() - 1, prev.last().push(s.last()))
        }
    }
}

/// The pieces joined back together, with `sep` between neighbours.
pub open spec fn join_with(pieces: Seq<Seq<char>>, sep: char) -> Seq<char>
    decreases pieces.len(),
{
    if pieces.len() == 0 {
        Seq::<char>::empty()
    } else if pieces.len() == 1 {
        pieces[0]
    } else {
        join_with(pieces.drop_last(), sep).push(sep) + pieces.last()
    }
}

/// The views of a list of owned strings.
pub open spec fn string_views(v: Seq<String>) -> Seq<Seq<char>> {
    v.map_values(|p: String| p@)
}

/// Splitting always yields at least one piece.
pub proof fn lemma_split_nonempty(s: Seq<char>, sep: char)
    ensures
        split_on(s, sep).len() >= 1,
    decreases s.len(),
{
    if s.len() > 0 {
        lemma_split_nonempty(s.drop_last(), sep);
    }
}

/// No piece of a split contains the separator.
pub proof fn lemma_split_pieces_free_of_separator(s: Seq<char>, sep: char)
    ensures
        forall|i: int| 0 <= i < split_on(s, sep).len() ==> !(#[trigger] split_on(s, sep)[i]).contains(sep),
    decreases s.len(),
{
    if s.len() > 0 {
        let prev = split_on(s.drop_last(), sep);
        lemma_split_nonempty(s.drop_last(), sep);
        lemma_split_pieces_free_of_separator(s.drop_last(), sep);
        let cur = split_on(s, sep);
        if s.last() != sep {
            assert forall|i: int| 0 <= i < cur.len() implies !(#[trigger] cur[i]).contains(sep) by {
                if i == prev.len() - 1 {
                    let p = prev.last().push(s.last());
                    assert(!prev[i].contains(sep));
                    if p.contains(sep) {
                        let k = choose|k: int| 0 <= k < p.len() && p[k] == sep;
                        if k < p.len() - 1 {
                            assert(prev[i][k] == sep);
                        }
                    }
                } else {
                    assert(cur[i] == prev[i]);
                }
            }
        } else {
            assert forall|i: int| 0 <= i < cur.len() implies !(#[trigger] cur[i]).contains(sep) by {
                if i < prev.len() {
                    assert(cur[i] == prev[i]);
                } else {
                    assert(cur[i] =~= Seq::<char>::empty());
                }
            }
        }
    }
}

/// Joining the pieces of a split with the same separator gives back the text.
pub proof fn lemma_join_split(s: Seq<char>, sep: char)
    ensures
        join_with(split_on(s, sep), sep) == s,
    decreases s.len(),
{
    if s.len() == 0 {
        assert(join_with(split_on(s, sep), sep) =~= s);
    } else {
        let prev = split_on(s.drop_last(), sep);
        lemma_split_nonempty(s.drop_last(), sep);
        lemma_join_split(s.drop_last(), sep);
        let cur = split_on(s, sep);
        if s.last() == sep {
            assert(cur.drop_last() =~= prev);
            assert(join_with(cur, sep) =~= s);
        } else {
            if prev.len() == 1 {
                assert(join_with(cur, sep) =~= s);
            } else {
                let a = join_with(prev.drop_last(), sep).push(sep);
                assert(cur.drop_last() =~= prev.drop_last());
                assert(cur.last() == prev.last().push(s.last()));
                assert(join_with(cur, sep) == a + prev.last().push(s.last()));
                assert(join_with(prev, sep) == a + prev.last());
                assert(a + prev.last().push(s.last()) =~= (a + prev.last()).push(s.last()));
                assert(s.drop_last().push(s.last()) =~= s);
            }
        }
    }
}

/// Splits `s` at every `sep`, keeping empty pieces.
pub fn split_text(s: &str, sep: char) -> (pieces: Vec<String>)
    ensures
        string_views(pieces@) == split_on(s@, sep),
{
    let n: usize = s.unicode_len();
    let mut pieces: Vec<String> = Vec::new();
    let mut start: usize = 0;
    let mut i: usize = 0;
    assert(s@.take(0) =~= Seq::<char>::empty());
    assert(string_views(pieces@).push(s@.subrange(0, 0)) =~= split_on(s@.take(0), sep));
    while i < n
        invariant
            n == s@.len(),
            start <= i <= n,
            string_views(pieces@).push(s@.subrange(start as int, i as int)) == split_on(
                s@.take(i as int),
                sep,
            ),
        decreases n - i,
    {
        let c = s.get_char(i);
        let ghost before = string_views(pieces@);
        let ghost prefix = s@.take(i + 1);
        assert(prefix.drop_last() =~= s@.take(i as int));
        assert(prefix.last() == c);
        if c == sep {
            let ghost old_start = start;
            let ghost old_pieces = pieces@;
            let piece = s.substring_char(start, i).to_owned();
            pieces.push(piece);
            start = i + 1;
            assert(pieces@ =~= old_pieces.push(piece));
            assert(string_views(pieces@) =~= before.push(s@.subrange(old_start as int, i as int)));
            assert(s@.subrange(start as int, i + 1) =~= Seq::<char>::empty());
            assert(string_views(pieces@).push(s@.subrange(start as int, i + 1)) =~= split_on(
                prefix,
                sep,
            ));
        } else {
            assert(s@.subrange(start as int, i as int).push(c) =~= s@.subrange(
                start as int,
                i + 1,
            ));
            assert(before.push(s@.subrange(start as int, i + 1)) =~= split_on(prefix, sep));
        }
        i = i + 1;
    }
    let last = s.substring_char(start, n).to_owned();
    let ghost before = string_views(pieces@);
    pieces.push(last);
    assert(s@.take(n as int) =~= s@);
    assert(string_views(pieces@) =~= before.push(s@.subrange(start as int, n as int)));
    pieces
}

/// Whether `c` is one of the ASCII digits `0` to `9`.
pub open spec fn is_ascii_digit(c: char) -> bool {
    '0' <= c && c <= '9'
}

/// The value of a digit character.
pub open spec fn digit_value(c: char) -> int {
    (c as int) - ('0' as int)
}

/// The value of a string of decimal digits, most significant first.
pub open spec fn decimal_value(digits: Seq<char>) -> int
    decreases digits.len(),
{
    if digits.len() == 0 {
        0
    } else {
        decimal_value(digits.drop_last()) * 10 + digit_value(digits.last())
    }
}

/// Every character is a decimal digit.
pub open spec fn all_digits(s: Seq<char>) -> bool {
    forall|i: int| 0 <= i < s.len() ==> is_ascii_digit(#[trigger] s[i])
}

/// The digits of an unsigned number: the text without one leading `+`.
pub open spec fn unsigned_digits(s: Seq<char>) -> Seq<char> {
    if s.len() > 0 && s[0] == '+' {
        s.drop_first()
    } else {
        s
    }
}

/// What `u64::from_str` gives for `s`: an optional `+` followed by at least one
/// decimal digit, with a value that fits in 64 bits; nothing else (no sign `-`,
/// no whitespace) is a number.
pub open spec fn parse_u64(s: Seq<char>) -> Option<u64> {
    let d = unsigned_digits(s);
    if d.len() > 0 && all_digits(d) && decimal_value(d) <= u64::MAX {
        Some(decimal_value(d) as u64)
    } else {
        None
    }
}

proof fn lemma_decimal_nonnegative(d: Seq<char>)
    requires
        all_digits(d),
    ensures
        decimal_value(d) >= 0,
    decreases d.len(),
{
    if d.len() > 0 {
        assert(is_ascii_digit(d[d.len() - 1]));
        assert(all_digits(d.drop_last()));
        lemma_decimal_nonnegative(d.drop_last());
    }
}

/// A prefix of a string of digits has no larger value than the whole string.
proof fn lemma_decimal_prefix_le(d: Seq<char>, k: int)
    requires
        all_digits(d),
        0 <= k <= d.len(),
    ensures
        decimal_value(d.take(k)) <= decimal_value(d),
    decreases d.len(),
{
    if k == d.len() {
        assert(d.take(k) =~= d);
    } else {
        assert(all_digits(d.drop_last()));
        assert(d.drop_last().take(k) =~= d.take(k));
        lemma_decimal_prefix_le(d.drop_last(), k);
        lemma_decimal_nonnegative(d.drop_last());
        assert(is_ascii_digit(d[d.len() - 1]));
    }
}

/// Reads `s` as `u64::from_str` does.
pub fn parse_unsigned(s: &str) -> (r: Option<u64>)
    ensures
        r == parse_u64(s@),
{
    let n: usize = s.unicode_len();
    let mut start: usize = 0;
    if n > 0 && s.get_char(0) == '+' {
        start = 1;
    }
    let ghost d = unsigned_digits(s@);
    assert(d =~= s@.subrange(start as int, n as int));
    if start == n {
        return None;
    }
    let mut j: usize = start;
    while j < n
        invariant
            n == s@.len(),
            start <= j <= n,
            d =~= s@.subrange(start as int, n as int),
            d == unsigned_digits(s@),
            forall|k: int| 0 <= k < j - start ==> is_ascii_digit(#[trigger] d[k]),
        decreases n - j,
    {
        let c = s.get_char(j);
        if !('0' <= c && c <= '9') {
            assert(d[j - start] == c);
            assert(!is_ascii_digit(d[j - start]));
            assert(!all_digits(d));
            return None;
        }
        j = j + 1;
    }
    assert(all_digits(d));
    let mut value: u64 = 0;
    let mut k: usize = start;
    assert(d.take(0) =~= Seq::<char>::empty());
    while k < n
        invariant
            n == s@.len(),
            start <= k <= n,
            d =~= s@.subrange(start as int, n as int),
            d == unsigned_digits(s@),
            all_digits(d),
            value == decimal_value(d.take(k - start)),
        decreases n - k,
    {
        let c = s.get_char(k);
        let ghost i: int = k - start;
        assert(d[i] == c);
        assert(is_ascii_digit(c));
        assert(d.take(i + 1).drop_last() =~= d.take(i));
        assert(d.take(i + 1).last() == c);
        let digit: u64 = ((c as u32) - ('0' as u32)) as u64;
        match value.checked_mul(10) {
            Some(tens) => match tens.checked_add(digit) {
                Some(next) => {
                    value = next;
                },
                None => {
                    proof {
                        lemma_decimal_prefix_le(d, i + 1);
                        assert(decimal_value(d.take(i + 1)) == value * 10 + digit);
                        assert(decimal_value(d) > u64::MAX);
                    }
                    return None;
                },
            },
            None => {
                proof {
                    lemma_decimal_prefix_le(d, i + 1);
                    assert(decimal_value(d.take(i + 1)) == value * 10 + digit);
                    assert(decimal_value(d) > u64::MAX);
                }
                return None;
            },
        }
        k = k + 1;
    }
    assert(d.take(d.len() as int) =~= d);
    Some(value)
}

/// A single digit reads as its value.
pub proof fn lemma_parse_single_digit(c: char)
    requires
        '0' <= c <= '9',
    ensures
        parse_u64(seq![c]) == Some((c as int - 48) as u64),
{
    let s = seq![c];
    assert('0' as int == 48);
    assert(s.drop_last() =~= Seq::<char>::empty());
    assert(decimal_value(s) == decimal_value(s.drop_last()) * 10 + digit_value(s.last()));
    assert(all_digits(s));
}

/// Appending a digit to a number multiplies it by ten and adds the digit, as
/// long as the result fits in 64 bits; past that it is no number.
pub proof fn lemma_parse_append_digit(s: Seq<char>, c: char)
    requires
        s.len() > 0,
        '0' <= s[0] <= '9',
        parse_u64(s) is Some,
        '0' <= c <= '9',
    ensures
        parse_u64(s)->0 * 10 + (c as int - 48) <= u64::MAX ==> parse_u64(s.push(c)) == Some(
            (parse_u64(s)->0 * 10 + (c as int - 48)) as u64,
        ),
        parse_u64(s)->0 * 10 + (c as int - 48) > u64::MAX ==> parse_u64(s.push(c)) is None,
{
    let t = s.push(c);
    assert('0' as int == 48);
    assert(unsigned_digits(s) == s);
    assert(all_digits(s));
    lemma_decimal_nonnegative(s);
    assert(parse_u64(s)->0 == decimal_value(s));
    assert(t[0] == s[0]);
    assert(unsigned_digits(t) == t);
    assert(t.drop_last() =~= s);
    assert(all_digits(t)) by {
        assert forall|i: int| 0 <= i < t.len() implies is_ascii_digit(#[trigger] t[i]) by {
            if i < s.len() {
                assert(t[i] == s[i]);
            }
        }
    }
    assert(decimal_value(t) == decimal_value(s) * 10 + digit_value(c));
}

/// One leading `+` is allowed: the text reads as the digits after it.
pub proof fn lemma_parse_plus(s: Seq<char>)
    requires
        s.len() > 0,
        '0' <= s[0] <= '9',
    ensures
        parse_u64(seq!['+'] + s) == parse_u64(s),
{
    assert((seq!['+'] + s).drop_first() =~= s);
}

/// A text with a character that is not a digit, other than one leading `+`,
/// is no number; so is a text with no digits.
pub proof fn lemma_parse_needs_digits(s: Seq<char>, k: int)
    requires
        0 <= k < s.len(),
        !('0' <= s[k] <= '9'),
        !(k == 0 && s[0] == '+'),
    ensures
        parse_u64(s) is None,
        parse_u64(Seq::<char>::empty()) is None,
        parse_u64(seq!['+']) is None,
{
    let d = unsigned_digits(s);
    if s.len() > 0 && s[0] == '+' {
        assert(d[k - 1] == s[k]);
    } else {
        assert(d[k] == s[k]);
    }
    assert(seq!['+'].drop_first().len() == 0);
}

} // verus!
