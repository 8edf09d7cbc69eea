//! Text primitives shared by the request builders and the reply readers:
//! sub-sequence search, decimal rendering and lists.

use vstd::prelude::*;
use vstd::string::*;

verus! {

/// `String::push` appends exactly one character.
pub assume_specification[ String::push ](s: &mut String, ch: char)
    ensures
        final(s)@ == old(s)@.push(ch),
;

/// `String::pop` removes the last character and returns it; an empty string
/// is left as it is and yields `None`.
pub assume_specification[ String::pop ](s: &mut String) -> (r: Option<char>)
    ensures
        old(s)@.len() == 0 ==> r is None && final(s)@ == old(s)@,
        old(s)@.len() > 0 ==> r == Some(old(s)@.last()) && final(s)@ == old(s)@.drop_last(),
;

/// `needle` stands in `hay` at offset `i`.
pub open spec fn occurs_at<T>(hay: Seq<T>, needle: Seq<T>, i: int) -> bool {
    &&& 0 <= i
    &&& i + needle.len() <= hay.len()
    &&& hay.subrange(i, i + needle.len()) == needle
}

/// `needle` stands somewhere in `hay`.
pub open spec fn has_substring<T>(hay: Seq<T>, needle: Seq<T>) -> bool {
    exists|i: int| occurs_at(hay, needle, i)
}

/// `i` is the leftmost offset at which `needle` stands in `hay`.
pub open spec fn first_occurrence<T>(hay: Seq<T>, needle: Seq<T>, i: int) -> bool {
    &&& occurs_at(hay, needle, i)
    &&& forall|j: int| 0 <= j < i ==> !occurs_at(hay, needle, j)
}

/// The leftmost offset at which `needle` stands in `hay`; meaningful where it
/// stands there at all.
pub open spec fn first_index<T>(hay: Seq<T>, needle: Seq<T>) -> int {
    choose|i: int| first_occurrence(hay, needle, i)
}

/// There is only one leftmost offset.
pub proof fn lemma_first_index<T>(hay: Seq<T>, needle: Seq<T>, i: int)
    requires
        first_occurrence(hay, needle, i),
    ensures
        first_index(hay, needle) == i,
        has_substring(hay, needle),
{
    let j = first_index(hay, needle);
    assert(first_occurrence(hay, needle, j));
    if j < i {
        assert(!occurs_at(hay, needle, j));
    }
    if i < j {
        assert(!occurs_at(hay, needle, i));
    }
}

/// `tail` is the end of `whole`.
pub open spec fn ends_with<T>(whole: Seq<T>, tail: Seq<T>) -> bool {
    &&& tail.len() <= whole.len()
    &&& whole.subrange(whole.len() - tail.len(), whole.len() as int) == tail
}

/// The UTF-8 encoding of a text is the encoding of its parts, one after the
/// other.
pub proof fn lemma_encode_utf8_concat(a: Seq<char>, b: Seq<char>)
    ensures
        vstd::utf8::encode_utf8(a + b) == vstd::utf8::encode_utf8(a) + vstd::utf8::encode_utf8(b),
    decreases a.len(),
{
    if a.len() == 0 {
        assert(a + b =~= b);
        assert(vstd::utf8::encode_utf8(a) + vstd::utf8::encode_utf8(b) =~= vstd::utf8::encode_utf8(
            b,
        ));
    } else {
        assert((a + b)[0] == a[0]);
        assert((a + b).drop_first() =~= a.drop_first() + b);
        lemma_encode_utf8_concat(a.drop_first(), b);
        assert(vstd::utf8::encode_utf8(a + b) =~= vstd::utf8::encode_utf8(a)
            + vstd::utf8::encode_utf8(b));
    }
}

/// What stands before and after the leftmost `sep` in `raw`, where `sep`
/// stands in `raw` at all. What follows the leftmost `sep` is taken whole,
/// whatever it holds.
pub open spec fn split_at_first<T>(raw: Seq<T>, sep: Seq<T>) -> Option<(Seq<T>, Seq<T>)> {
    if has_substring(raw, sep) {
        let i = first_index(raw, sep);
        Some((raw.take(i), raw.skip(i + sep.len())))
    } else {
        None
    }
}

/// Splitting `before + sep + after` at a four-element separator of the shape
/// `a b a b` gives back `before` and `after`, provided `sep` does not stand in
/// `before` and `before` does not end with `a b` (which, with the first half
/// of the separator behind it, would make an earlier separator).
pub proof fn lemma_split_at_first_of_concat<T>(before: Seq<T>, after: Seq<T>, a: T, b: T)
    requires
        a != b,
        !has_substring(before, seq![a, b, a, b]),
        !ends_with(before, seq![a, b]),
    ensures
        split_at_first(before + seq![a, b, a, b] + after, seq![a, b, a, b]) == Some(
            (before, after),
        ),
{
    let sep = seq![a, b, a, b];
    let raw = before + sep + after;
    let n = before.len() as int;
    assert(raw.subrange(n, n + 4) =~= sep);
    assert forall|j: int| 0 <= j < n implies !occurs_at(raw, sep, j) by {
        if occurs_at(raw, sep, j) {
            let w = raw.subrange(j, j + 4);
            assert(w[0] == a && w[1] == b && w[2] == a && w[3] == b);
            if j + 4 <= n {
                assert(before.subrange(j, j + 4) =~= w);
                assert(occurs_at(before, sep, j));
            } else if j == n - 1 {
                assert(raw[j + 1] == sep[0]);
            } else if j == n - 2 {
                assert(before.subrange(n - 2, n) =~= seq![a, b]);
            } else {
                assert(raw[j + 3] == sep[0]);
            }
        }
    }
    lemma_first_index(raw, sep, n);
    assert(raw.take(n) =~= before);
    assert(raw.skip(n + 4) =~= after);
}

/// The sequence without its last element; an empty sequence stays empty.
pub open spec fn without_last<T>(s: Seq<T>) -> Seq<T> {
    if s.len() > 0 {
        s.drop_last()
    } else {
        s
    }
}

/// The sequence without its last `n` elements, or empty where it has fewer.
pub open spec fn without_tail<T>(s: Seq<T>, n: nat) -> Seq<T> {
    if s.len() >= n {
        s.take(s.len() - n)
    } else {
        Seq::empty()
    }
}

/// One item of a list, in double quotes where `quote` is set.
pub open spec fn item_text(item: Seq<char>, quote: bool) -> Seq<char> {
    if quote {
        seq!['"'] + item + seq!['"']
    } else {
        item
    }
}

/// The items in order with a comma between neighbours.
pub open spec fn joined(items: Seq<&str>, quote: bool) -> Seq<char>
    decreases items.len(),
{
    if items.len() == 0 {
        Seq::empty()
    } else if items.len() == 1 {
        item_text(items[0]@, quote)
    } else {
        joined(items.drop_last(), quote) + seq![','] + item_text(items.last()@, quote)
    }
}

/// The items as a bracketed list: `[a,b]`, or `["a","b"]` where `quote` is
/// set, and `[]` for no items.
pub open spec fn list_text(items: Seq<&str>, quote: bool) -> Seq<char> {
    seq!['['] + joined(items, quote) + seq![']']
}

/// Appends the bracketed list of `items` to `s`.
pub fn push_list(s: &mut String, items: &Vec<&str>, quote: bool)
    ensures
        final(s)@ == old(s)@ + list_text(items@, quote),
{
    s.push('[');
    let ghost base = s@;
    let mut i: usize = 0;
    while i < items.len()
        invariant
            i <= items.len(),
            base == old(s)@ + seq!['['],
            s@ == base + joined(items@.take(i as int), quote),
        decreases items.len() - i,
    {
        let ghost before = s@;
        if i > 0 {
            s.push(',');
        }
        if quote {
            s.push('"');
        }
        s.append(items[i]);
        if quote {
            s.push('"');
        }
        proof {
            let now = items@.take(i + 1);
            assert(now.drop_last() == items@.take(i as int));
            assert(now.last() == items@[i as int]);
            if i == 0 {
                assert(joined(items@.take(0), quote) =~= Seq::<char>::empty());
                assert(now[0] == items@[0]);
            }
            assert(s@ =~= base + joined(now, quote));
        }
        i += 1;
    }
    assert(items@.take(items.len() as int) == items@);
    s.push(']');
    assert(s@ =~= old(s)@ + list_text(items@, quote));
}

/// Removes the last `n` characters of `s`, or all of them where it has fewer.
pub fn pop_tail(s: &mut String, n: usize)
    ensures
        final(s)@ == without_tail(old(s)@, n as nat),
{
    let mut k: usize = 0;
    while k < n
        invariant
            k <= n,
            s@ == without_tail(old(s)@, k as nat),
        decreases n - k,
    {
        let _ = s.pop();
        k += 1;
        assert(s@ =~= without_tail(old(s)@, k as nat));
    }
    assert(without_tail(old(s)@, 0) =~= old(s)@);
}

/// The character that writes the digit `d`.
pub open spec fn digit_char(d: int) -> char
    recommends
        0 <= d < 10,
{
    (d + 48) as char
}

/// The decimal numeral of `n`, without leading zeros.
pub open spec fn decimal(n: nat) -> Seq<char>
    decreases n,
{
    if n < 10 {
        seq![digit_char(n as int)]
    } else {
        decimal(n / 10).push(digit_char((n % 10) as int))
    }
}

/// The decimal numeral of a signed number: a minus sign before the numeral of
/// its magnitude where it is negative.
pub open spec fn signed_decimal(n: int) -> Seq<char> {
    if n < 0 {
        seq!['-'] + decimal((-n) as nat)
    } else {
        decimal(n as nat)
    }
}

/// The word that writes a truth value.
pub open spec fn bool_word(b: bool) -> Seq<char> {
    if b {
        "true"@
    } else {
        "false"@
    }
}

/// The characters of a string slice, in order.
pub fn chars_of(s: &str) -> (r: Vec<char>)
    ensures
        r@ == s@,
{
    let mut out: Vec<char> = Vec::new();
    for c in it: s.chars()
        invariant
            it.seq() == s@,
            out@ == it.seq().take(it.index() as int),
    {
        out.push(c);
    }
    out
}

/// Whether `needle` stands in `hay` at offset `i`.
pub fn chars_match_at(hay: &Vec<char>, needle: &Vec<char>, i: usize) -> (r: bool)
    ensures
        r == occurs_at(hay@, needle@, i as int),
{
    if needle.len() > hay.len() || i > hay.len() - needle.len() {
        return false;
    }
    let mut k: usize = 0;
    while k < needle.len()
        invariant
            k <= needle.len(),
            i + needle.len() <= hay.len(),
            forall|j: int| 0 <= j < k ==> hay@[i + j] == needle@[j],
        decreases needle.len() - k,
    {
        if hay[i + k] != needle[k] {
            assert(hay@.subrange(i as int, i + needle.len())[k as int] == hay@[i + k]);
            return false;
        }
        k += 1;
    }
    assert(hay@.subrange(i as int, i + needle.len()) =~= needle@);
    true
}

/// The leftmost offset at which `needle` stands in `hay`, if it stands there
/// at all.
pub fn find_chars(hay: &Vec<char>, needle: &Vec<char>) -> (r: Option<usize>)
    ensures
        r matches Some(i) ==> first_occurrence(hay@, needle@, i as int),
        r is None ==> !has_substring(hay@, needle@),
{
    if needle.len() > hay.len() {
        return None;
    }
    let last: usize = hay.len() - needle.len();
    let mut i: usize = 0;
    loop
        invariant
            i <= last,
            last == hay.len() - needle.len(),
            forall|j: int| 0 <= j < i ==> !occurs_at(hay@, needle@, j),
        decreases last - i,
    {
        if chars_match_at(hay, needle, i) {
            return Some(i);
        }
        if i == last {
            return None;
        }
        i += 1;
    }
}

/// Whether `needle` stands in `hay` at offset `i`.
pub fn bytes_match_at(hay: &[u8], needle: &[u8], i: usize) -> (r: bool)
    ensures
        r == occurs_at(hay@, needle@, i as int),
{
    if needle.len() > hay.len() || i > hay.len() - needle.len() {
        return false;
    }
    let mut k: usize = 0;
    while k < needle.len()
        invariant
            k <= needle.len(),
            i + needle.len() <= hay.len(),
            forall|j: int| 0 <= j < k ==> hay@[i + j] == needle@[j],
        decreases needle.len() - k,
    {
        if hay[i + k] != needle[k] {
            assert(hay@.subrange(i as int, i + needle.len())[k as int] == hay@[i + k]);
            return false;
        }
        k += 1;
    }
    assert(hay@.subrange(i as int, i + needle.len()) =~= needle@);
    true
}

/// The leftmost offset below `limit` at which `needle` stands in `hay`, if
/// there is one. Offsets from `limit` on are not looked at.
pub fn find_bytes_before(hay: &[u8], needle: &[u8], limit: usize) -> (r: Option<usize>)
    ensures
        r matches Some(i) ==> i < limit && first_occurrence(hay@, needle@, i as int),
        r is None ==> forall|j: int| 0 <= j < limit ==> !occurs_at(hay@, needle@, j),
{
    if needle.len() > hay.len() {
        return None;
    }
    let last: usize = hay.len() - needle.len();
    let mut i: usize = 0;
    loop
        invariant
            i <= last,
            last == hay.len() - needle.len(),
            forall|j: int| 0 <= j < i ==> !occurs_at(hay@, needle@, j),
        decreases last - i,
    {
        if i >= limit {
            return None;
        }
        if bytes_match_at(hay, needle, i) {
            return Some(i);
        }
        if i == last {
            return None;
        }
        i += 1;
    }
}

/// Whether `needle` stands somewhere in `hay`.
pub fn contains(hay: &str, needle: &str) -> (r: bool)
    ensures
        r == has_substring(hay@, needle@),
{
    let h = chars_of(hay);
    let n = chars_of(needle);
    match find_chars(&h, &n) {
        Some(i) => {
            assert(occurs_at(hay@, needle@, i as int));
            true
        },
        None => false,
    }
}

/// Appends the decimal numeral of `n` to `s`.
pub fn push_decimal(s: &mut String, n: u128)
    ensures
        final(s)@ == old(s)@ + decimal(n as nat),
{
    let mut digits: Vec<char> = Vec::new();
    let mut rest: u128 = n;
    while rest >= 10
        invariant
            decimal(n as nat) == decimal(rest as nat) + digits@.reverse(),
        decreases rest,
    {
        let d: u8 = (rest % 10) as u8;
        let c: char = (d + 48) as char;
        proof {
            assert(c == digit_char((rest % 10) as int));
            assert(decimal(rest as nat) == decimal((rest / 10) as nat).push(c));
            assert(digits@.push(c).reverse() =~= seq![c] + digits@.reverse());
            assert(decimal((rest / 10) as nat).push(c) + digits@.reverse() =~= decimal(
                (rest / 10) as nat,
            ) + (seq![c] + digits@.reverse()));
        }
        digits.push(c);
        rest = rest / 10;
    }
    let lead: char = ((rest as u8) + 48) as char;
    s.push(lead);
    let mut k: usize = digits.len();
    while k > 0
        invariant
            k <= digits.len(),
            rest < 10,
            lead == digit_char(rest as int),
            decimal(n as nat) == decimal(rest as nat) + digits@.reverse(),
            s@ == old(s)@ + seq![lead] + digits@.reverse().take(digits.len() - k),
        decreases k,
    {
        k -= 1;
        s.push(digits[k]);
        proof {
            let r = digits@.reverse();
            let m = digits.len() - k;
            assert(r[m - 1] == digits@[k as int]);
            assert(r.take(m) =~= r.take(m - 1).push(r[m - 1]));
        }
    }
    proof {
        let r = digits@.reverse();
        assert(r.take(digits.len() as int) =~= r);
        assert(decimal(rest as nat) == seq![lead]);
        assert(s@ =~= old(s)@ + decimal(n as nat));
    }
}

/// Appends the decimal numeral of a signed number to `s`.
pub fn push_signed_decimal(s: &mut String, n: i64)
    ensures
        final(s)@ == old(s)@ + signed_decimal(n as int),
{
    if n < 0 {
        s.push('-');
        let magnitude: u128 = (-(n as i128)) as u128;
        push_decimal(s, magnitude);
        assert(s@ =~= old(s)@ + signed_decimal(n as int));
    } else {
        push_decimal(s, n as u128);
    }
}

/// Appends `true` or `false` to `s`.
pub fn push_bool(s: &mut String, b: bool)
    ensures
        final(s)@ == old(s)@ + bool_word(b),
{
    if b {
        s.append("true");
    } else {
        s.append("false");
    }
}

} // verus!
