//! Characters, strings and sequences: what the rest of the library builds on.

use vstd::prelude::*;

verus! {

/// Whether `c` has the Unicode `White_Space` property.
pub uninterp spec fn char_is_whitespace(c: char) -> bool;

/// Whether `c` is in one of the Unicode numeric categories `Nd`, `Nl` or `No`.
pub uninterp spec fn char_is_numeric(c: char) -> bool;

/// Whether `c` is alphabetic or numeric in the sense of the Unicode tables.
pub uninterp spec fn char_is_alphanumeric(c: char) -> bool;

/// `char::is_whitespace` looks the character up in the Unicode `White_Space`
/// table; its result is the table entry named by [`char_is_whitespace`].
pub assume_specification[ char::is_whitespace ](c: char) -> (r: bool)
    ensures
        r == char_is_whitespace(c),
;

/// `char::is_numeric` looks the character up in the Unicode numeric general
/// categories; its result is the table entry named by [`char_is_numeric`].
pub assume_specification[ char::is_numeric ](c: char) -> (r: bool)
    ensures
        r == char_is_numeric(c),
;

/// `char::is_alphanumeric` looks the character up in the Unicode alphabetic
/// and numeric tables; its result is the entry named by
/// [`char_is_alphanumeric`].
pub assume_specification[ char::is_alphanumeric ](c: char) -> (r: bool)
    ensures
        r == char_is_alphanumeric(c),
;

/// `str::eq`, the equality of string slices, holds exactly of slices that
/// hold the same characters.
pub assume_specification[ <str as PartialEq>::eq ](a: &str, b: &str) -> (r: bool)
    ensures
        r == (a@ == b@),
;

/// `String::push` appends the given character to the end of the string.
pub assume_specification[ String::push ](s: &mut String, c: char)
    ensures
        final(s)@ == old(s)@.push(c),
;

/// Pushing onto a vector pushes the item's view onto the vector's deep view.
pub proof fn lemma_push_deep_view<T: DeepView>(before: Vec<T>, after: Vec<T>, item: T)
    requires
        after@ == before@.push(item),
    ensures
        after.deep_view() == before.deep_view().push(item.deep_view()),
{
    assert(after.deep_view() =~= before.deep_view().push(item.deep_view()));
}

/// A copy of a string that may be left out.
pub fn clone_optional(text: &Option<String>) -> (r: Option<String>)
    ensures
        r.deep_view() == text.deep_view(),
{
    match text {
        Some(text) => Some(text.clone()),
        None => None,
    }
}

/// A copy of a list of strings.
pub fn clone_strings(list: &Vec<String>) -> (r: Vec<String>)
    ensures
        r.deep_view() == list.deep_view(),
{
    let mut out: Vec<String> = Vec::new();
    let mut i: usize = 0;
    assert(out.deep_view() =~= list.deep_view().take(0));
    while i < list.len()
        invariant
            i <= list.len(),
            out.deep_view() == list.deep_view().take(i as int),
        decreases list.len() - i,
    {
        let ghost before = out;
        let item = list[i].clone();
        out.push(item);
        proof {
            lemma_push_deep_view(before, out, item);
            assert(out.deep_view() =~= list.deep_view().take(i + 1));
        }
        i += 1;
    }
    assert(list.deep_view().take(list.len() as int) =~= list.deep_view());
    out
}

/// The items `head` followed by the items that `tail` gives, or the error
/// that `tail` is.
pub open spec fn prepend<T, E>(head: Seq<T>, tail: Result<Seq<T>, E>) -> Result<Seq<T>, E> {
    match tail {
        Ok(rest) => Ok(head + rest),
        Err(e) => Err(e),
    }
}

/// Prepending nothing changes nothing.
pub proof fn lemma_prepend_empty<T, E>(tail: Result<Seq<T>, E>)
    ensures
        prepend(Seq::empty(), tail) == tail,
{
    if let Ok(rest) = tail {
        assert(Seq::<T>::empty() + rest =~= rest);
    }
}

/// Prepending a list and one more item is prepending the list to the item
/// and what follows it.
pub proof fn lemma_prepend_push<T, E>(head: Seq<T>, item: T, tail: Result<Seq<T>, E>)
    ensures
        prepend(head.push(item), tail) == prepend(head, prepend(seq![item], tail)),
{
    if let Ok(rest) = tail {
        assert(head.push(item) + rest =~= head + (seq![item] + rest));
    }
}

/// Appends copies of the strings of `list` to `out`.
pub fn append_strings(out: &mut Vec<String>, list: &Vec<String>)
    ensures
        final(out).deep_view() == old(out).deep_view() + list.deep_view(),
{
    let ghost start = out.deep_view();
    let mut i: usize = 0;
    assert(start + list.deep_view().take(0) =~= start);
    while i < list.len()
        invariant
            i <= list.len(),
            out.deep_view() == start + list.deep_view().take(i as int),
        decreases list.len() - i,
    {
        let ghost before = *out;
        let item = list[i].clone();
        out.push(item);
        proof {
            lemma_push_deep_view(before, *out, item);
            assert(start + list.deep_view().take(i + 1) =~= (start + list.deep_view().take(
                i as int,
            )).push(item@));
        }
        i += 1;
    }
    assert(list.deep_view().take(list.len() as int) =~= list.deep_view());
}

/// Appends copies of the pairs of strings of `list` to `out`.
pub fn append_pairs(out: &mut Vec<(String, String)>, list: &Vec<(String, String)>)
    ensures
        final(out).deep_view() == old(out).deep_view() + list.deep_view(),
{
    let ghost start = out.deep_view();
    let mut i: usize = 0;
    assert(start + list.deep_view().take(0) =~= start);
    while i < list.len()
        invariant
            i <= list.len(),
            out.deep_view() == start + list.deep_view().take(i as int),
        decreases list.len() - i,
    {
        let ghost before = *out;
        let item = (list[i].0.clone(), list[i].1.clone());
        out.push(item);
        proof {
            lemma_push_deep_view(before, *out, item);
            assert(start + list.deep_view().take(i + 1) =~= (start + list.deep_view().take(
                i as int,
            )).push((item.0@, item.1@)));
        }
        i += 1;
    }
    assert(list.deep_view().take(list.len() as int) =~= list.deep_view());
}

/// The characters of `s`, in order.
pub fn str_chars(s: &str) -> (v: Vec<char>)
    ensures
        v@ == s@,
{
    let mut v: Vec<char> = Vec::new();
    for c in it: s.chars()
        invariant
            it.seq() == s@,
            v@ == it.seq().take(it.index() as int),
    {
        v.push(c);
    }
    assert(v@ =~= s@);
    v
}

/// The string made of the characters `v[from..to]`.
pub fn string_from_chars(v: &Vec<char>, from: usize, to: usize) -> (s: String)
    requires
        from <= to <= v.len(),
    ensures
        s@ == v@.subrange(from as int, to as int),
{
    let mut s = String::new();
    let mut i: usize = from;
    while i < to
        invariant
            from <= i <= to <= v.len(),
            s@ == v@.subrange(from as int, i as int),
        decreases to - i,
    {
        s.push(v[i]);
        i += 1;
        assert(s@ =~= v@.subrange(from as int, i as int));
    }
    s
}

/// Whether two string slices hold the same text.
pub fn str_eq(a: &str, b: &str) -> (r: bool)
    ensures
        r == (a@ == b@),
{
    str::eq(a, b)
}

/// The value of an ASCII decimal digit.
pub open spec fn digit_value(c: char) -> Option<int> {
    if '0' <= c && c <= '9' {
        Some(c as int - '0' as int)
    } else {
        None
    }
}

/// The number that a run of ASCII decimal digits writes, most significant
/// digit first; `None` where some character is not such a digit.
pub open spec fn digits_value(s: Seq<char>) -> Option<int>
    decreases s.len(),
{
    if s.len() == 0 {
        Some(0)
    } else {
        match (digits_value(s.drop_last()), digit_value(s.last())) {
            (Some(v), Some(d)) => Some(10 * v + d),
            _ => None,
        }
    }
}

/// The integer that `s` writes: an optional leading `-` and then at least one
/// ASCII digit, with a value that fits in 64 bits.
pub open spec fn parse_number(s: Seq<char>) -> Option<i64> {
    let negative = s.len() > 0 && s[0] == '-';
    let digits = if negative {
        s.drop_first()
    } else {
        s
    };
    if digits.len() == 0 {
        None
    } else {
        match digits_value(digits) {
            Some(v) => {
                let n = if negative {
                    -v
                } else {
                    v
                };
                if i64::MIN <= n <= i64::MAX {
                    Some(n as i64)
                } else {
                    None
                }
            },
            None => None,
        }
    }
}

proof fn lemma_digits_value_nonnegative(s: Seq<char>)
    ensures
        digits_value(s) matches Some(v) ==> v >= 0,
    decreases s.len(),
{
    if s.len() > 0 {
        lemma_digits_value_nonnegative(s.drop_last());
    }
}

/// Reads the integer written by `v[from..to]`.
pub fn parse_i64(v: &Vec<char>, from: usize, to: usize) -> (r: Option<i64>)
    requires
        from <= to <= v.len(),
    ensures
        r == parse_number(v@.subrange(from as int, to as int)),
{
    let ghost s = v@.subrange(from as int, to as int);
    let negative = from < to && v[from] == '-';
    let start: usize = if negative {
        from + 1
    } else {
        from
    };
    let ghost digits = v@.subrange(start as int, to as int);
    proof {
        if negative {
            assert(s.drop_first() =~= digits);
        } else {
            assert(s =~= digits);
        }
    }
    if start == to {
        return None;
    }
    // The magnitude read so far; it stays below 2^64 while `fits` holds.
    let mut acc: u128 = 0;
    let mut fits = true;
    let mut i: usize = start;
    let limit: u128 = 9223372036854775808u128;
    while i < to
        invariant
            start <= i <= to <= v.len(),
            digits == v@.subrange(start as int, to as int),
            limit == 9223372036854775808u128,
            fits ==> digits_value(digits.take(i - start)) == Some(acc as int) && acc <= limit,
            !fits ==> (digits_value(digits.take(i - start)) matches Some(x) ==> x > limit),
        decreases to - i,
    {
        let c = v[i];
        let ghost before = digits.take(i - start);
        let ghost after = digits.take(i + 1 - start);
        proof {
            assert(after.drop_last() =~= before);
            assert(after.last() == c);
            lemma_digits_value_nonnegative(before);
        }
        if c >= '0' && c <= '9' {
            let d: u128 = (c as u32 - '0' as u32) as u128;
            if fits {
                acc = acc * 10 + d;
                if acc > limit {
                    fits = false;
                }
            }
        } else {
            proof {
                assert(digits_value(after) is None);
            }
            fits = false;
        }
        i += 1;
    }
    proof {
        assert(digits.take(to - start) =~= digits);
    }
    if !fits {
        return None;
    }
    if negative {
        if acc == limit {
            Some(i64::MIN)
        } else {
            Some(-(acc as i64))
        }
    } else if acc == limit {
        None
    } else {
        Some(acc as i64)
    }
}

/// The character that writes the decimal digit `d`.
pub open spec fn digit_char(d: int) -> char {
    ((d + '0' as int) as u8) as char
}

/// The decimal digits of a natural number, most significant first.
pub open spec fn nat_text(n: nat) -> Seq<char>
    decreases n,
{
    if n < 10 {
        seq![digit_char(n as int)]
    } else {
        nat_text(n / 10).push(digit_char((n % 10) as int))
    }
}

/// The decimal text of an integer, with a leading `-` where it is negative.
pub open spec fn int_text(n: int) -> Seq<char> {
    if n < 0 {
        seq!['-'] + nat_text((-n) as nat)
    } else {
        nat_text(n as nat)
    }
}

/// Appends the decimal digits of `n` to `out`.
pub fn push_nat(out: &mut String, n: u64)
    ensures
        final(out)@ == old(out)@ + nat_text(n as nat),
    decreases n,
{
    if n >= 10 {
        push_nat(out, n / 10);
    }
    let d: u8 = (n % 10) as u8;
    let c: char = (d + 48u8) as char;
    assert(c == digit_char((n % 10) as int));
    out.push(c);
    proof {
        if n >= 10 {
            assert(final(out)@ =~= old(out)@ + nat_text(n as nat));
        } else {
            assert(final(out)@ =~= old(out)@ + nat_text(n as nat));
        }
    }
}

/// Appends the decimal text of `n` to `out`.
pub fn push_int(out: &mut String, n: i64)
    ensures
        final(out)@ == old(out)@ + int_text(n as int),
{
    if n < 0 {
        out.push('-');
        let magnitude: u64 = if n == i64::MIN {
            9223372036854775808u64
        } else {
            (-n) as u64
        };
        push_nat(out, magnitude);
        assert(final(out)@ =~= old(out)@ + int_text(n as int));
    } else {
        push_nat(out, n as u64);
    }
}

/// Appends the text of `s` to `out`.
pub fn push_text(out: &mut String, s: &str)
    ensures
        final(out)@ == old(out)@ + s@,
{
    out.append(s);
}

} // verus!
