//! IP address literals.
//!
//! An IPv4 literal is four decimal octets separated by dots; an octet has one
//! to three digits, no leading zero unless it is `0` itself, and a value of at
//! most 255. An IPv6 literal is eight groups of one to four hexadecimal digits
//! separated by colons, where the last two groups may be written as an IPv4
//! literal and one run of one or more zero groups may be written as `::`.

use vstd::prelude::*;
use crate::number::{all_digits, decimal_from, decimal_value};
use crate::text::chars_of;

verus! {

/// The pieces of `s` between the occurrences of `sep`: one more piece than
/// there are separators, any of them possibly empty.
pub open spec fn split(s: Seq<char>, sep: char) -> Seq<Seq<char>>
    decreases s.len(),
{
    if s.len() == 0 {
        seq![Seq::<char>::empty()]
    } else {
        let before = split(s.drop_last(), sep);
        if s.last() == sep {
            before.push(Seq::<char>::empty())
        } else {
            before.update(before.len() - 1, before.last().push(s.last()))
        }
    }
}

/// Whether `s` is one decimal octet.
pub open spec fn is_octet(s: Seq<char>) -> bool {
    &&& 1 <= s.len() <= 3
    &&& all_digits(s)
    &&& (s.len() > 1 ==> s[0] != '0')
    &&& decimal_value(s) <= 255
}

/// Whether `s` is an IPv4 address in dotted decimal notation.
pub open spec fn is_ipv4_literal(s: Seq<char>) -> bool {
    let parts = split(s, '.');
    &&& parts.len() == 4
    &&& is_octet(parts[0])
    &&& is_octet(parts[1])
    &&& is_octet(parts[2])
    &&& is_octet(parts[3])
}

/// Whether `c` is a hexadecimal digit, in either case.
pub open spec fn is_hex_digit(c: char) -> bool {
    ('0' <= c && c <= '9') || ('a' <= c && c <= 'f') || ('A' <= c && c <= 'F')
}

/// Whether `s` is one group of an IPv6 literal: one to four hexadecimal digits.
pub open spec fn is_hex_group(s: Seq<char>) -> bool {
    &&& 1 <= s.len() <= 4
    &&& forall|i: int| 0 <= i < s.len() ==> is_hex_digit(#[trigger] s[i])
}

/// Whether every one of `parts` is a group of an IPv6 literal.
pub open spec fn all_hex_groups(parts: Seq<Seq<char>>) -> bool {
    forall|i: int| 0 <= i < parts.len() ==> is_hex_group(#[trigger] parts[i])
}

/// The number of 16-bit groups that `s` stands for, where `s` is a run of
/// groups separated by single colons: none for the empty text, one for each
/// hexadecimal group and, where `ipv4_tail` allows it, two for an IPv4 literal
/// in the last place. `None` where `s` is no such run.
pub open spec fn group_count(s: Seq<char>, ipv4_tail: bool) -> Option<nat> {
    let parts = split(s, ':');
    if s.len() == 0 {
        Some(0nat)
    } else if all_hex_groups(parts) {
        Some(parts.len())
    } else if ipv4_tail && all_hex_groups(parts.drop_last()) && is_ipv4_literal(parts.last()) {
        Some(parts.len() + 1)
    } else {
        None
    }
}

/// Whether `s` holds `::` at index `k`.
pub open spec fn double_colon_at(s: Seq<char>, k: int) -> bool {
    0 <= k && k + 2 <= s.len() && s[k] == ':' && s[k + 1] == ':'
}

/// Whether `s` is an IPv6 literal whose `::` stands at index `k`: the groups
/// before it and after it are well formed and leave at least one group for
/// the `::` to stand for.
pub open spec fn is_compressed_at(s: Seq<char>, k: int) -> bool {
    &&& double_colon_at(s, k)
    &&& group_count(s.subrange(0, k), false) matches Some(head)
    &&& group_count(s.subrange(k + 2, s.len() as int), true) matches Some(tail)
    &&& head + tail <= 7
}

/// Whether `s` is an IPv6 address in its textual form.
pub open spec fn is_ipv6_literal(s: Seq<char>) -> bool {
    ||| group_count(s, true) == Some(8nat)
    ||| exists|k: int| is_compressed_at(s, k)
}

/// Whether `s` is an IPv4 or an IPv6 literal.
pub open spec fn is_ip_literal(s: Seq<char>) -> bool {
    is_ipv4_literal(s) || is_ipv6_literal(s)
}

/// The texts that the vectors `parts` hold.
pub open spec fn texts(parts: Seq<Vec<char>>) -> Seq<Seq<char>> {
    parts.map_values(|p: Vec<char>| p@)
}

/// One more character opens a new piece, if it is the separator, and
/// otherwise grows the last piece.
pub proof fn lemma_split_push(s: Seq<char>, c: char, sep: char)
    ensures
        split(s.push(c), sep) == if c == sep {
            split(s, sep).push(Seq::<char>::empty())
        } else {
            split(s, sep).update(split(s, sep).len() - 1, split(s, sep).last().push(c))
        },
{
    assert(s.push(c).drop_last() == s);
}

/// A text always has at least one piece.
pub proof fn lemma_split_nonempty(s: Seq<char>, sep: char)
    ensures
        split(s, sep).len() >= 1,
    decreases s.len(),
{
    if s.len() > 0 {
        lemma_split_nonempty(s.drop_last(), sep);
    }
}

/// Two separators in a row leave an empty piece between them, and it is not
/// the last piece.
pub proof fn lemma_adjacent_separators(s: Seq<char>, sep: char, j: int) -> (m: int)
    requires
        0 <= j,
        j + 1 < s.len(),
        s[j] == sep,
        s[j + 1] == sep,
    ensures
        0 <= m < split(s, sep).len() - 1,
        split(s, sep)[m].len() == 0,
    decreases s.len(),
{
    let t = s.drop_last();
    let before = split(t, sep);
    if j + 1 == s.len() - 1 {
        assert(t.last() == sep);
        assert(before == split(t.drop_last(), sep).push(Seq::<char>::empty()));
        assert(split(s, sep) == before.push(Seq::<char>::empty()));
        before.len() - 1
    } else {
        let m = lemma_adjacent_separators(t, sep, j);
        if s.last() == sep {
            assert(split(s, sep) == before.push(Seq::<char>::empty()));
        } else {
            assert(split(s, sep) == before.update(
                before.len() - 1,
                before.last().push(s.last()),
            ));
        }
        m
    }
}

/// No run of groups reaches past a `::`: a text that holds both colons of
/// one, or ends with its first, has an empty piece.
pub proof fn lemma_no_groups_across_double_colon(s: Seq<char>, k: int, end: int)
    requires
        0 <= k,
        k + 1 < s.len(),
        s[k] == ':',
        s[k + 1] == ':',
        k < end <= s.len(),
    ensures
        group_count(s.subrange(0, end), false) is None,
{
    let head = s.subrange(0, end);
    let parts = split(head, ':');
    if k + 1 < end {
        let m = lemma_adjacent_separators(head, ':', k);
        assert(!is_hex_group(parts[m]));
    } else {
        assert(head.last() == ':');
        assert(parts == split(head.drop_last(), ':').push(Seq::<char>::empty()));
        assert(!is_hex_group(parts[parts.len() - 1]));
    }
}

/// `0.0.0.0` is an IPv4 literal.
pub proof fn lemma_all_zero_address_is_ip()
    ensures
        is_ip_literal("0.0.0.0"@),
{
    reveal_strlit("0.0.0.0");
    let s = "0.0.0.0"@;
    let none = Seq::<char>::empty();
    let zero = seq!['0'];
    let text_a = none.push('0');
    let text_b = text_a.push('.');
    let text_c = text_b.push('0');
    let text_d = text_c.push('.');
    let text_e = text_d.push('0');
    let text_f = text_e.push('.');
    let text_g = text_f.push('0');
    assert(s =~= text_g);
    assert(split(none, '.') =~~= seq![none]);
    lemma_split_push(none, '0', '.');
    assert(split(text_a, '.') =~~= seq![zero]);
    lemma_split_push(text_a, '.', '.');
    assert(split(text_b, '.') =~~= seq![zero, none]);
    lemma_split_push(text_b, '0', '.');
    assert(split(text_c, '.') =~~= seq![zero, zero]);
    lemma_split_push(text_c, '.', '.');
    assert(split(text_d, '.') =~~= seq![zero, zero, none]);
    lemma_split_push(text_d, '0', '.');
    assert(split(text_e, '.') =~~= seq![zero, zero, zero]);
    lemma_split_push(text_e, '.', '.');
    assert(split(text_f, '.') =~~= seq![zero, zero, zero, none]);
    lemma_split_push(text_f, '0', '.');
    assert(split(text_g, '.') =~~= seq![zero, zero, zero, zero]);
    assert(is_octet(zero)) by {
        assert(zero.drop_last() =~= none);
        assert(decimal_value(zero) == 0) by {
            reveal_with_fuel(decimal_value, 2);
        }
    }
}

/// The pieces of `s` between the occurrences of `sep`.
pub fn split_chars(s: &Vec<char>, sep: char) -> (parts: Vec<Vec<char>>)
    ensures
        texts(parts@) == split(s@, sep),
{
    let mut parts: Vec<Vec<char>> = Vec::new();
    let mut current: Vec<char> = Vec::new();
    let mut i: usize = 0;
    assert(s@.take(0) == Seq::<char>::empty());
    assert(texts(parts@).push(current@) == seq![Seq::<char>::empty()]);
    while i < s.len()
        invariant
            i <= s.len(),
            split(s@.take(i as int), sep) == texts(parts@).push(current@),
        decreases s.len() - i,
    {
        let c = s[i];
        let ghost done = texts(parts@);
        let ghost open = current@;
        proof {
            let t = s@.take(i + 1);
            assert(t.drop_last() == s@.take(i as int));
            assert(t.last() == c);
        }
        if c == sep {
            parts.push(current);
            current = Vec::new();
            assert(texts(parts@) == done.push(open));
        } else {
            current.push(c);
            assert(texts(parts@).push(current@) == done.push(open).update(
                done.len() as int,
                open.push(c),
            ));
        }
        i = i + 1;
    }
    assert(s@.take(s.len() as int) == s@);
    let ghost done = texts(parts@);
    parts.push(current);
    assert(texts(parts@) == done.push(current@));
    parts
}

/// The characters of `s` from index `from` up to, not including, `to`.
pub fn slice_chars(s: &Vec<char>, from: usize, to: usize) -> (r: Vec<char>)
    requires
        from <= to <= s.len(),
    ensures
        r@ == s@.subrange(from as int, to as int),
{
    let mut r: Vec<char> = Vec::new();
    let mut i: usize = from;
    while i < to
        invariant
            from <= i <= to <= s.len(),
            r@ == s@.subrange(from as int, i as int),
        decreases to - i,
    {
        r.push(s[i]);
        assert(s@.subrange(from as int, i + 1) == s@.subrange(from as int, i as int).push(
            s@[i as int],
        ));
        i = i + 1;
    }
    r
}

/// Whether `part` is one decimal octet.
pub fn check_octet(part: &Vec<char>) -> (r: bool)
    ensures
        r == is_octet(part@),
{
    if part.len() == 0 || part.len() > 3 {
        return false;
    }
    if part.len() > 1 && part[0] == '0' {
        return false;
    }
    assert(part@.subrange(0, part.len() as int) == part@);
    decimal_from(part, 0, 255).is_some()
}

/// Whether `s` is an IPv4 address in dotted decimal notation.
pub fn check_ipv4(s: &Vec<char>) -> (r: bool)
    ensures
        r == is_ipv4_literal(s@),
{
    let parts = split_chars(s, '.');
    if parts.len() != 4 {
        assert(texts(parts@).len() == parts.len());
        return false;
    }
    assert(texts(parts@)[0] == parts@[0]@);
    assert(texts(parts@)[1] == parts@[1]@);
    assert(texts(parts@)[2] == parts@[2]@);
    assert(texts(parts@)[3] == parts@[3]@);
    check_octet(&parts[0]) && check_octet(&parts[1]) && check_octet(&parts[2]) && check_octet(
        &parts[3],
    )
}

/// Whether `part` is one group of an IPv6 literal.
pub fn check_hex_group(part: &Vec<char>) -> (r: bool)
    ensures
        r == is_hex_group(part@),
{
    if part.len() == 0 || part.len() > 4 {
        return false;
    }
    let mut i: usize = 0;
    while i < part.len()
        invariant
            i <= part.len(),
            forall|j: int| 0 <= j < i ==> is_hex_digit(#[trigger] part@[j]),
        decreases part.len() - i,
    {
        let c = part[i];
        let hex = ('0' <= c && c <= '9') || ('a' <= c && c <= 'f') || ('A' <= c && c <= 'F');
        if !hex {
            return false;
        }
        i = i + 1;
    }
    true
}

/// The number of groups that `s` stands for, if it is a run of groups and
/// stands for at most eight.
pub fn count_groups(s: &Vec<char>, ipv4_tail: bool) -> (r: Option<usize>)
    ensures
        r == match group_count(s@, ipv4_tail) {
            Some(n) => if n <= 8 {
                Some(n as usize)
            } else {
                None
            },
            None => None,
        },
{
    if s.len() == 0 {
        return Some(0);
    }
    let parts = split_chars(s, ':');
    let n = parts.len();
    assert(texts(parts@).len() == n);
    proof {
        lemma_split_nonempty(s@, ':');
    }
    if n > 8 {
        return None;
    }
    let mut i: usize = 0;
    while i < n - 1
        invariant
            i <= n - 1,
            n == parts.len(),
            s.len() > 0,
            texts(parts@) == split(s@, ':'),
            forall|j: int| 0 <= j < i ==> is_hex_group(#[trigger] texts(parts@)[j]),
        decreases n - 1 - i,
    {
        assert(texts(parts@)[i as int] == parts@[i as int]@);
        if !check_hex_group(&parts[i]) {
            assert(texts(parts@).drop_last()[i as int] == texts(parts@)[i as int]);
            return None;
        }
        i = i + 1;
    }
    let ghost pieces = texts(parts@);
    assert(pieces[n - 1] == parts@[n - 1]@);
    assert(all_hex_groups(pieces.drop_last())) by {
        assert forall|j: int| 0 <= j < pieces.drop_last().len() implies is_hex_group(
            #[trigger] pieces.drop_last()[j],
        ) by {
            assert(pieces.drop_last()[j] == pieces[j]);
        }
    }
    if check_hex_group(&parts[n - 1]) {
        assert(all_hex_groups(pieces));
        Some(n)
    } else if ipv4_tail && check_ipv4(&parts[n - 1]) {
        if n == 8 {
            None
        } else {
            Some(n + 1)
        }
    } else {
        None
    }
}

/// Whether `s` is an IPv6 address in its textual form.
pub fn check_ipv6(s: &Vec<char>) -> (r: bool)
    ensures
        r == is_ipv6_literal(s@),
{
    let full = match count_groups(s, true) {
        Some(n) => n == 8,
        None => false,
    };
    let mut k: usize = 0;
    while s.len() - k >= 2
        invariant
            k <= s.len(),
            forall|j: int| 0 <= j < k ==> !#[trigger] double_colon_at(s@, j),
            full == (group_count(s@, true) == Some(8nat)),
        decreases s.len() - k,
    {
        if s[k] == ':' && s[k + 1] == ':' {
            let head = slice_chars(s, 0, k);
            let tail = slice_chars(s, k + 2, s.len());
            let compressed = match (count_groups(&head, false), count_groups(&tail, true)) {
                (Some(h), Some(t)) => h + t <= 7,
                _ => false,
            };
            assert(compressed == is_compressed_at(s@, k as int));
            if !compressed {
                assert forall|other: int| !is_compressed_at(s@, other) by {
                    if k < other && other + 2 <= s.len() {
                        lemma_no_groups_across_double_colon(s@, k as int, other);
                    }
                }
            }
            return full || compressed;
        }
        k = k + 1;
    }
    assert forall|other: int| !is_compressed_at(s@, other) by {
        assert(!double_colon_at(s@, other));
    }
    full
}

/// Whether `s` is an IPv4 or an IPv6 literal.
pub fn check_ip(s: &Vec<char>) -> (r: bool)
    ensures
        r == is_ip_literal(s@),
{
    check_ipv4(s) || check_ipv6(s)
}

/// Whether `text` is an IPv4 or an IPv6 literal.
pub fn is_ip_address(text: &str) -> (r: bool)
    ensures
        r == is_ip_literal(text@),
{
    let s = chars_of(text);
    check_ip(&s)
}

} // verus!
