//! Text helpers over character sequences.

use vstd::prelude::*;

verus! {

/// `String::push` appends one character to the end of the string.
pub assume_specification[ String::push ](s: &mut String, c: char)
    ensures
        final(s)@ == old(s)@.push(c),
;

/// Whether a character is whitespace, in any script.
pub uninterp spec fn char_is_whitespace(c: char) -> bool;

/// `char::is_whitespace`: whether the character has the property of
/// whitespace, a function of the character alone.
pub assume_specification[ char::is_whitespace ](c: char) -> (b: bool)
    ensures
        b == char_is_whitespace(c),
;

/// The characters of `s`, in order.
pub fn chars_of(s: &str) -> (v: Vec<char>)
    ensures
        v@ == s@,
{
    let mut v: Vec<char> = Vec::new();
    for c in it: s.chars()
        invariant
            v@ == it.seq().take(it.index()),
            it.seq() == s@,
    {
        v.push(c);
    }
    v
}

/// The string made of `chars`, in order.
pub fn string_of(chars: &Vec<char>) -> (s: String)
    ensures
        s@ == chars@,
{
    let mut s = String::new();
    let mut i: usize = 0;
    while i < chars.len()
        invariant
            i <= chars.len(),
            s@ == chars@.take(i as int),
        decreases chars.len() - i,
    {
        s.push(chars[i]);
        i += 1;
    }
    s
}

/// Whether two strings hold the same characters.
pub fn str_eq(a: &str, b: &str) -> (same: bool)
    ensures
        same == (a@ == b@),
{
    a.to_owned() == b.to_owned()
}

/// The views of the strings in `list`, in order.
pub open spec fn strings_view(list: Seq<String>) -> Seq<Seq<char>> {
    list.map_values(|s: String| s@)
}

/// Whether `list` holds a string equal to `needle`.
pub fn contains_string(list: &Vec<String>, needle: &String) -> (found: bool)
    ensures
        found == strings_view(list@).contains(needle@),
{
    let mut i: usize = 0;
    while i < list.len()
        invariant
            i <= list.len(),
            forall|j: int| 0 <= j < i ==> (#[trigger] list[j])@ != needle@,
        decreases list.len() - i,
    {
        if list[i] == *needle {
            assert(strings_view(list@)[i as int] == needle@);
            return true;
        }
        i += 1;
    }
    false
}

/// A copy of `list`.
pub fn clone_strings(list: &Vec<String>) -> (copy: Vec<String>)
    ensures
        strings_view(copy@) == strings_view(list@),
{
    let mut copy: Vec<String> = Vec::new();
    let mut i: usize = 0;
    while i < list.len()
        invariant
            i <= list.len(),
            copy.len() == i,
            forall|j: int| 0 <= j < i ==> (#[trigger] copy[j])@ == list[j]@,
        decreases list.len() - i,
    {
        copy.push(list[i].clone());
        i += 1;
    }
    assert(strings_view(copy@) =~= strings_view(list@));
    copy
}


/// What `str::to_lowercase` makes of a string.
pub uninterp spec fn lowercase_of(s: Seq<char>) -> Seq<char>;

/// `str::to_lowercase`: the lowercase equivalent of the string, a function
/// of its characters alone.
pub assume_specification[ str::to_lowercase ](s: &str) -> (lower: String)
    ensures
        lower@ == lowercase_of(s@),
;

/// The number of whitespace characters at the start of `s`.
pub open spec fn leading_whitespace(s: Seq<char>) -> nat
    decreases s.len(),
{
    if s.len() > 0 && char_is_whitespace(s[0]) {
        1 + leading_whitespace(s.skip(1))
    } else {
        0
    }
}

/// The number of whitespace characters at the end of `s`.
pub open spec fn trailing_whitespace(s: Seq<char>) -> nat
    decreases s.len(),
{
    if s.len() > 0 && char_is_whitespace(s.last()) {
        1 + trailing_whitespace(s.drop_last())
    } else {
        0
    }
}

/// `s` without the whitespace at its start.
pub open spec fn trimmed_start(s: Seq<char>) -> Seq<char> {
    s.skip(leading_whitespace(s) as int)
}

/// `s` without the whitespace at its end.
pub open spec fn trimmed_end(s: Seq<char>) -> Seq<char> {
    s.take(s.len() - trailing_whitespace(s))
}

/// `s` without the whitespace at its start and at its end.
pub open spec fn trimmed(s: Seq<char>) -> Seq<char> {
    trimmed_end(trimmed_start(s))
}

/// A run of `n` whitespace characters at the start of `s` that ends with
/// the string or with another character is all of its leading whitespace.
pub proof fn lemma_leading_whitespace(s: Seq<char>, n: int)
    requires
        0 <= n <= s.len(),
        forall|i: int| 0 <= i < n ==> char_is_whitespace(#[trigger] s[i]),
        n < s.len() ==> !char_is_whitespace(s[n]),
    ensures
        leading_whitespace(s) == n,
    decreases n,
{
    if n > 0 {
        let rest = s.skip(1);
        assert forall|i: int| 0 <= i < n - 1 implies char_is_whitespace(#[trigger] rest[i]) by {
            assert(rest[i] == s[i + 1]);
        }
        if n - 1 < rest.len() {
            assert(rest[n - 1] == s[n]);
        }
        lemma_leading_whitespace(rest, n - 1);
    }
}

/// A run of `n` whitespace characters at the end of `s` that begins with
/// the string or after another character is all of its trailing whitespace.
pub proof fn lemma_trailing_whitespace(s: Seq<char>, n: int)
    requires
        0 <= n <= s.len(),
        forall|i: int| s.len() - n <= i < s.len() ==> char_is_whitespace(#[trigger] s[i]),
        n < s.len() ==> !char_is_whitespace(s[s.len() - n - 1]),
    ensures
        trailing_whitespace(s) == n,
    decreases n,
{
    if n > 0 {
        let rest = s.drop_last();
        assert forall|i: int| rest.len() - (n - 1) <= i < rest.len() implies char_is_whitespace(
            #[trigger] rest[i],
        ) by {
            assert(rest[i] == s[i]);
        }
        if n - 1 < rest.len() {
            assert(rest[rest.len() - (n - 1) - 1] == s[s.len() - n - 1]);
        }
        lemma_trailing_whitespace(rest, n - 1);
    }
}

/// The characters of `s` from `from` up to `to`.
pub fn slice(s: &Vec<char>, from: usize, to: usize) -> (part: Vec<char>)
    requires
        from <= to <= s.len(),
    ensures
        part@ == s@.subrange(from as int, to as int),
{
    let mut part: Vec<char> = Vec::new();
    let mut i: usize = from;
    while i < to
        invariant
            from <= i <= to,
            to <= s.len(),
            part@ == s@.subrange(from as int, i as int),
        decreases to - i,
    {
        part.push(s[i]);
        i += 1;
        assert(part@ =~= s@.subrange(from as int, i as int));
    }
    part
}

/// `s` without the whitespace at its start.
pub fn trim_start(s: &Vec<char>) -> (out: Vec<char>)
    ensures
        out@ == trimmed_start(s@),
{
    let mut a: usize = 0;
    while a < s.len() && s[a].is_whitespace()
        invariant
            a <= s.len(),
            forall|i: int| 0 <= i < a ==> char_is_whitespace(#[trigger] s[i]),
        decreases s.len() - a,
    {
        a += 1;
    }
    proof {
        lemma_leading_whitespace(s@, a as int);
    }
    let out = slice(s, a, s.len());
    assert(out@ =~= trimmed_start(s@));
    out
}

/// `s` without the whitespace at its start and at its end.
pub fn trim(s: &Vec<char>) -> (out: Vec<char>)
    ensures
        out@ == trimmed(s@),
{
    let front = trim_start(s);
    let mut b: usize = front.len();
    while b > 0 && front[b - 1].is_whitespace()
        invariant
            b <= front.len(),
            forall|i: int| b <= i < front.len() ==> char_is_whitespace(#[trigger] front[i]),
        decreases b,
    {
        b -= 1;
    }
    proof {
        lemma_trailing_whitespace(front@, front.len() - b);
    }
    let out = slice(&front, 0, b);
    assert(out@ =~= trimmed(s@));
    out
}

/// The place of the first `c` in `s`, or the length of `s` where it has none.
pub open spec fn index_of_char(s: Seq<char>, c: char) -> int
    decreases s.len(),
{
    if s.len() == 0 || s[0] == c {
        0
    } else {
        1 + index_of_char(s.skip(1), c)
    }
}

/// A place before which no `c` stands and which holds `c` or ends the
/// string is the place that `index_of_char` names.
pub proof fn lemma_index_of_char(s: Seq<char>, c: char, n: int)
    requires
        0 <= n <= s.len(),
        forall|i: int| 0 <= i < n ==> #[trigger] s[i] != c,
        n < s.len() ==> s[n] == c,
    ensures
        index_of_char(s, c) == n,
    decreases n,
{
    if n > 0 {
        let rest = s.skip(1);
        assert forall|i: int| 0 <= i < n - 1 implies #[trigger] rest[i] != c by {
            assert(rest[i] == s[i + 1]);
        }
        if n - 1 < rest.len() {
            assert(rest[n - 1] == s[n]);
        }
        lemma_index_of_char(rest, c, n - 1);
    }
}

/// `index_of_char` names a place in the string or its end.
pub proof fn lemma_index_of_char_bounds(s: Seq<char>, c: char)
    ensures
        0 <= index_of_char(s, c) <= s.len(),
        index_of_char(s, c) < s.len() ==> s[index_of_char(s, c)] == c,
    decreases s.len(),
{
    if s.len() > 0 && s[0] != c {
        lemma_index_of_char_bounds(s.skip(1), c);
    }
}

/// The place of the first `c` at or after `from`, or the length of `s`.
pub fn find_char_from(s: &Vec<char>, from: usize, c: char) -> (at: usize)
    requires
        from <= s.len(),
    ensures
        from <= at <= s.len(),
        at - from == index_of_char(s@.skip(from as int), c),
        at < s.len() ==> s[at as int] == c,
{
    let mut at: usize = from;
    while at < s.len() && s[at] != c
        invariant
            from <= at <= s.len(),
            forall|i: int| from <= i < at ==> #[trigger] s[i] != c,
        decreases s.len() - at,
    {
        at += 1;
    }
    proof {
        let rest = s@.skip(from as int);
        assert forall|i: int| 0 <= i < at - from implies #[trigger] rest[i] != c by {
            assert(rest[i] == s[from + i]);
        }
        lemma_index_of_char(rest, c, at - from);
    }
    at
}

/// `s` without one carriage return at its end, if it has one there.
pub open spec fn without_carriage_return(s: Seq<char>) -> Seq<char> {
    if s.len() > 0 && s.last() == '\r' {
        s.drop_last()
    } else {
        s
    }
}

/// The lines of `s`. A line ends with a line feed, which is not part of
/// it, nor is a carriage return that stands directly before the line feed.
/// What follows the last line feed is a line of its own unless it is empty.
pub open spec fn lines_of(s: Seq<char>) -> Seq<Seq<char>>
    decreases s.len(),
{
    if s.len() == 0 {
        Seq::empty()
    } else {
        let k = index_of_char(s, '\n');
        if k >= s.len() {
            seq![s]
        } else {
            proof {
                lemma_index_of_char_bounds(s, '\n');
            }
            seq![without_carriage_return(s.take(k))] + lines_of(s.skip(k + 1))
        }
    }
}

/// The views of the lines in `lines`, in order.
pub open spec fn lines_view(lines: Seq<Vec<char>>) -> Seq<Seq<char>> {
    lines.map_values(|l: Vec<char>| l@)
}

/// Splits `s` into its lines.
pub fn split_lines(s: &Vec<char>) -> (lines: Vec<Vec<char>>)
    ensures
        lines_view(lines@) == lines_of(s@),
{
    let mut lines: Vec<Vec<char>> = Vec::new();
    let mut pos: usize = 0;
    proof {
        assert(s@.skip(0) =~= s@);
        assert(lines_view(lines@) =~= Seq::<Seq<char>>::empty());
        assert(Seq::<Seq<char>>::empty() + lines_of(s@) =~= lines_of(s@));
    }
    while pos < s.len()
        invariant
            pos <= s.len(),
            lines_view(lines@) + lines_of(s@.skip(pos as int)) == lines_of(s@),
        decreases s.len() - pos,
    {
        let ghost rest = s@.skip(pos as int);
        let ghost before = lines_view(lines@);
        let end = find_char_from(s, pos, '\n');
        if end >= s.len() {
            let line = slice(s, pos, s.len());
            proof {
                assert(line@ =~= rest);
                assert(lines_of(rest) =~= seq![rest]);
            }
            lines.push(line);
            pos = s.len();
            proof {
                assert(lines_view(lines@) =~= before.push(rest));
                assert(lines_of(s@.skip(pos as int)) =~= Seq::<Seq<char>>::empty());
                assert(before + seq![rest] =~= before.push(rest));
                assert(lines_view(lines@) + lines_of(s@.skip(pos as int)) =~= before + lines_of(
                    rest,
                ));
            }
        } else {
            let stop = if end > pos && s[end - 1] == '\r' {
                end - 1
            } else {
                end
            };
            let line = slice(s, pos, stop);
            proof {
                let k = end - pos;
                assert(rest.take(k) =~= s@.subrange(pos as int, end as int));
                if k > 0 {
                    assert(rest.take(k).last() == s[end - 1]);
                }
                assert(line@ =~= without_carriage_return(rest.take(k)));
                assert(rest.skip(k + 1) =~= s@.skip(end as int + 1));
            }
            lines.push(line);
            pos = end + 1;
            proof {
                assert(lines_view(lines@) =~= before.push(lines[lines.len() - 1]@));
                assert(before + (seq![lines[lines.len() - 1]@] + lines_of(s@.skip(pos as int)))
                    =~= before.push(lines[lines.len() - 1]@) + lines_of(s@.skip(pos as int)));
            }
        }
    }
    proof {
        assert(lines_of(s@.skip(pos as int)) =~= Seq::<Seq<char>>::empty());
        assert(lines_view(lines@) + Seq::<Seq<char>>::empty() =~= lines_view(lines@));
    }
    lines
}

/// Whether `s` begins with `prefix`.
pub open spec fn has_prefix(s: Seq<char>, prefix: Seq<char>) -> bool {
    prefix.len() <= s.len() && s.take(prefix.len() as int) == prefix
}

/// Whether `s` begins with `prefix`.
pub fn starts_with(s: &Vec<char>, prefix: &Vec<char>) -> (yes: bool)
    ensures
        yes == has_prefix(s@, prefix@),
{
    if prefix.len() > s.len() {
        return false;
    }
    let mut i: usize = 0;
    while i < prefix.len()
        invariant
            i <= prefix.len(),
            prefix.len() <= s.len(),
            forall|j: int| 0 <= j < i ==> #[trigger] s[j] == prefix[j],
        decreases prefix.len() - i,
    {
        if s[i] != prefix[i] {
            assert(s@.take(prefix.len() as int)[i as int] != prefix[i as int]);
            return false;
        }
        i += 1;
    }
    assert(s@.take(prefix.len() as int) =~= prefix@);
    true
}

/// Whether `needle` stands in `s` at the place `at`.
pub open spec fn occurs_at(s: Seq<char>, needle: Seq<char>, at: int) -> bool {
    0 <= at && at + needle.len() <= s.len() && s.subrange(at, at + needle.len()) == needle
}

/// Whether `needle` stands somewhere in `s`.
pub open spec fn has_substring(s: Seq<char>, needle: Seq<char>) -> bool {
    exists|at: int| occurs_at(s, needle, at)
}

/// Whether `needle` stands in `s` at the place `at`.
fn matches_at(s: &Vec<char>, needle: &Vec<char>, at: usize) -> (yes: bool)
    requires
        at + needle.len() <= s.len(),
    ensures
        yes == occurs_at(s@, needle@, at as int),
{
    let mut j: usize = 0;
    while j < needle.len()
        invariant
            j <= needle.len(),
            at + needle.len() <= s.len(),
            forall|k: int| 0 <= k < j ==> s[at + k] == #[trigger] needle[k],
        decreases needle.len() - j,
    {
        if s[at + j] != needle[j] {
            assert(s@.subrange(at as int, at + needle.len())[j as int] != needle[j as int]);
            return false;
        }
        j += 1;
    }
    assert(s@.subrange(at as int, at + needle.len()) =~= needle@);
    true
}

/// Whether `needle` stands somewhere in `s`.
pub fn contains(s: &Vec<char>, needle: &Vec<char>) -> (yes: bool)
    ensures
        yes == has_substring(s@, needle@),
{
    if needle.len() > s.len() {
        return false;
    }
    if needle.len() == 0 {
        assert(s@.subrange(0, 0) =~= needle@);
        assert(occurs_at(s@, needle@, 0));
        return true;
    }
    let last: usize = s.len() - needle.len();
    let mut at: usize = 0;
    while at <= last
        invariant
            at <= last + 1,
            last == s.len() - needle.len(),
            needle.len() > 0,
            forall|k: int| 0 <= k < at ==> !occurs_at(s@, needle@, k),
        decreases last + 1 - at,
    {
        if matches_at(s, needle, at) {
            return true;
        }
        at += 1;
    }
    false
}

/// Whether the string `s` holds the text `needle`.
pub fn str_contains(s: &Vec<char>, needle: &str) -> (yes: bool)
    ensures
        yes == has_substring(s@, needle@),
{
    let needle_chars = chars_of(needle);
    contains(s, &needle_chars)
}

/// `s` with every `from` turned into `to`.
pub open spec fn replaced(s: Seq<char>, from: char, to: char) -> Seq<char> {
    s.map_values(|c: char| if c == from { to } else { c })
}

/// `s` with every `from` turned into `to`.
pub fn replace_char(s: &Vec<char>, from: char, to: char) -> (out: Vec<char>)
    ensures
        out@ == replaced(s@, from, to),
{
    let mut out: Vec<char> = Vec::new();
    let mut i: usize = 0;
    while i < s.len()
        invariant
            i <= s.len(),
            out.len() == i,
            forall|j: int| 0 <= j < i ==> #[trigger] out[j] == (if s[j] == from { to } else { s[j] }),
        decreases s.len() - i,
    {
        let c = s[i];
        out.push(if c == from { to } else { c });
        i += 1;
    }
    assert(out@ =~= replaced(s@, from, to));
    out
}

/// Whether `s` is empty or holds whitespace only.
pub open spec fn is_blank(s: Seq<char>) -> bool {
    trimmed(s).len() == 0
}

/// Whether the string is empty or holds whitespace only.
pub fn str_is_blank(s: &str) -> (blank: bool)
    ensures
        blank == is_blank(s@),
{
    let chars = chars_of(s);
    trim(&chars).len() == 0
}

/// The string without the whitespace at its start and at its end.
pub fn str_trim(s: &str) -> (out: String)
    ensures
        out@ == trimmed(s@),
{
    let chars = chars_of(s);
    let kept = trim(&chars);
    string_of(&kept)
}

/// Whether a character is a letter or a digit, in any script.
pub uninterp spec fn char_is_alphanumeric(c: char) -> bool;

/// `char::is_alphanumeric`: whether the character is alphabetic or
/// numeric, a function of the character alone.
pub assume_specification[ char::is_alphanumeric ](c: char) -> (b: bool)
    ensures
        b == char_is_alphanumeric(c),
;

/// The value of a decimal digit, or -1 for any other character.
pub open spec fn digit_value(c: char) -> int {
    if c == '0' {
        0
    } else if c == '1' {
        1
    } else if c == '2' {
        2
    } else if c == '3' {
        3
    } else if c == '4' {
        4
    } else if c == '5' {
        5
    } else if c == '6' {
        6
    } else if c == '7' {
        7
    } else if c == '8' {
        8
    } else if c == '9' {
        9
    } else {
        -1
    }
}

/// The number that the digits `s` continue after the number `acc`, or
/// nothing where `s` holds anything but digits.
pub open spec fn digits_value(s: Seq<char>, acc: nat) -> Option<nat>
    decreases s.len(),
{
    if s.len() == 0 {
        Some(acc)
    } else if digit_value(s[0]) < 0 {
        None
    } else {
        digits_value(s.skip(1), (acc * 10 + digit_value(s[0])) as nat)
    }
}

/// The number below 65536 that `s` writes in decimal digits, with or
/// without a plus sign before them; nothing where `s` is anything else.
pub open spec fn parsed_u16(s: Seq<char>) -> Option<u16> {
    let body = if s.len() > 0 && s[0] == '+' {
        s.skip(1)
    } else {
        s
    };
    if body.len() == 0 {
        None
    } else {
        match digits_value(body, 0) {
            Some(v) => if v <= 65535 {
                Some(v as u16)
            } else {
                None
            },
            None => None,
        }
    }
}

/// Digits never lower the number they continue.
pub proof fn lemma_digits_value_grows(s: Seq<char>, acc: nat)
    ensures
        digits_value(s, acc) matches Some(v) ==> v >= acc,
    decreases s.len(),
{
    if s.len() > 0 && digit_value(s[0]) >= 0 {
        lemma_digits_value_grows(s.skip(1), (acc * 10 + digit_value(s[0])) as nat);
    }
}

/// The value of a decimal digit.
fn digit_of(c: char) -> (d: Option<u32>)
    ensures
        match d {
            Some(v) => v == digit_value(c) && v <= 9,
            None => digit_value(c) < 0,
        },
{
    if c == '0' {
        Some(0)
    } else if c == '1' {
        Some(1)
    } else if c == '2' {
        Some(2)
    } else if c == '3' {
        Some(3)
    } else if c == '4' {
        Some(4)
    } else if c == '5' {
        Some(5)
    } else if c == '6' {
        Some(6)
    } else if c == '7' {
        Some(7)
    } else if c == '8' {
        Some(8)
    } else if c == '9' {
        Some(9)
    } else {
        None
    }
}

/// Reads a number below 65536 written in decimal digits.
pub fn parse_u16(s: &Vec<char>) -> (parsed: Option<u16>)
    ensures
        parsed == parsed_u16(s@),
{
    let start: usize = if s.len() > 0 && s[0] == '+' {
        1
    } else {
        0
    };
    if start >= s.len() {
        return None;
    }
    let ghost body = if s@.len() > 0 && s@[0] == '+' {
        s@.skip(1)
    } else {
        s@
    };
    let mut acc: u32 = 0;
    let mut i: usize = start;
    assert(body =~= s@.skip(start as int));
    assert(body.skip(0) =~= body);
    while i < s.len()
        invariant
            start <= i <= s.len(),
            start < s.len(),
            body == (if s@.len() > 0 && s@[0] == '+' {
                s@.skip(1)
            } else {
                s@
            }),
            body == s@.skip(start as int),
            acc <= 65535,
            digits_value(body, 0) == digits_value(body.skip(i - start), acc as nat),
        decreases s.len() - i,
    {
        let ghost rest = body.skip(i - start);
        assert(rest[0] == s[i as int]);
        assert(rest.skip(1) =~= body.skip(i + 1 - start));
        match digit_of(s[i]) {
            None => {
                return None;
            },
            Some(d) => {
                let next: u32 = acc * 10 + d;
                if next > 65535 {
                    proof {
                        lemma_digits_value_grows(rest.skip(1), next as nat);
                    }
                    return None;
                }
                acc = next;
            },
        }
        i += 1;
    }
    assert(body.skip(i - start).len() == 0);
    Some(acc as u16)
}

/// The view of every string of a map.
pub open spec fn text_map(map: Map<Seq<char>, String>) -> Map<Seq<char>, Seq<char>> {
    map.map_values(|s: String| s@)
}

/// `s` without its last character, if it has one.
pub open spec fn without_last(s: Seq<char>) -> Seq<char> {
    if s.len() > 0 {
        s.drop_last()
    } else {
        s
    }
}

} // verus!
