//! Text operations with exact contracts.
//!
//! A text is modelled by the sequence of its characters. Everything the
//! library decides about user input (is it blank, is it a number, which part
//! stands before the colon) is stated here over that sequence.

use vstd::prelude::*;
use vstd::string::*;

verus! {

// ── Models of collections ───────────────────────────────────────────────

/// The models of the items of a sequence, in the same order.
pub open spec fn views<T: View>(items: Seq<T>) -> Seq<T::V> {
    items.map_values(|item: T| item@)
}

/// The model of an optional value.
pub open spec fn opt_view<T: View>(value: Option<T>) -> Option<T::V> {
    match value {
        Some(inner) => Some(inner@),
        None => None,
    }
}

/// The model of a result.
pub open spec fn res_view<T: View, E>(value: Result<T, E>) -> Result<T::V, E> {
    match value {
        Ok(inner) => Ok(inner@),
        Err(err) => Err(err),
    }
}

/// The models of a longer vector extend the models of the shorter one.
pub proof fn lemma_views_push<T: View>(items: Seq<T>, item: T)
    ensures
        views(items.push(item)) == views(items).push(item@),
{
    assert(views(items.push(item)) =~= views(items).push(item@));
}

/// Taking a prefix and taking models commute, one item at a time.
pub proof fn lemma_views_take<T: View>(items: Seq<T>, n: int)
    requires
        0 <= n < items.len(),
    ensures
        views(items).take(n + 1) == views(items).take(n).push(items[n]@),
{
    assert(views(items).take(n + 1) =~= views(items).take(n).push(items[n]@));
}

/// Filtering a longer prefix adds its last item if and only if it is kept.
pub proof fn lemma_filter_take<A>(items: Seq<A>, keep: spec_fn(A) -> bool, n: int)
    requires
        0 <= n < items.len(),
    ensures
        items.take(n + 1).filter(keep) == if keep(items[n]) {
            items.take(n).filter(keep).push(items[n])
        } else {
            items.take(n).filter(keep)
        },
{
    reveal(Seq::filter);
    assert(items.take(n + 1).drop_last() =~= items.take(n));
}

/// A copy of a list of texts.
pub fn clone_texts(items: &Vec<String>) -> (res: Vec<String>)
    ensures
        res@ == items@,
{
    let mut out: Vec<String> = Vec::new();
    let mut i: usize = 0;
    while i < items.len()
        invariant
            i <= items.len(),
            out@ == items@.take(i as int),
        decreases items.len() - i,
    {
        out.push(items[i].clone());
        assert(items@.take(i + 1) =~= items@.take(i as int).push(items@[i as int]));
        i += 1;
    }
    assert(items@.take(i as int) =~= items@);
    out
}

/// A copy of an optional text.
pub fn clone_opt_text(value: &Option<String>) -> (res: Option<String>)
    ensures
        res == *value,
{
    match value {
        Some(text) => Some(text.clone()),
        None => None,
    }
}

// ── Equality and scanning ───────────────────────────────────────────────

/// Whether two texts hold the same characters.
pub fn same_text(a: &str, b: &str) -> (res: bool)
    ensures
        res == (a@ == b@),
{
    a.to_owned() == b.to_owned()
}

/// The characters of a text.
pub fn chars_of(s: &str) -> (res: Vec<char>)
    ensures
        res@ == s@,
{
    let mut out: Vec<char> = Vec::new();
    for c in it: s.chars()
        invariant
            out@ == it.seq().take(it.index()),
            it.seq() == s@,
    {
        out.push(c);
        assert(it.seq().take(it.index() + 1) =~= it.seq().take(it.index()).push(c));
    }
    assert(out@ =~= s@);
    out
}

// ── Blank text and trimming ─────────────────────────────────────────────

/// The characters with the Unicode property `White_Space`.
pub open spec fn is_white_space(c: char) -> bool {
    let n = c as u32;
    ||| 0x09 <= n <= 0x0d
    ||| n == 0x20
    ||| n == 0x85
    ||| n == 0xa0
    ||| n == 0x1680
    ||| 0x2000 <= n <= 0x200a
    ||| n == 0x2028
    ||| n == 0x2029
    ||| n == 0x202f
    ||| n == 0x205f
    ||| n == 0x3000
}

/// Whether a character is white space.
pub fn white_space(c: char) -> (res: bool)
    ensures
        res == is_white_space(c),
{
    let n: u32 = c as u32;
    (0x09 <= n && n <= 0x0d) || n == 0x20 || n == 0x85 || n == 0xa0 || n == 0x1680 || (0x2000 <= n
        && n <= 0x200a) || n == 0x2028 || n == 0x2029 || n == 0x202f || n == 0x205f || n == 0x3000
}

/// A text without its leading white space.
pub open spec fn trim_start(s: Seq<char>) -> Seq<char>
    decreases s.len(),
{
    if s.len() > 0 && is_white_space(s[0]) {
        trim_start(s.drop_first())
    } else {
        s
    }
}

/// A text without its trailing white space.
pub open spec fn trim_end(s: Seq<char>) -> Seq<char>
    decreases s.len(),
{
    if s.len() > 0 && is_white_space(s.last()) {
        trim_end(s.drop_last())
    } else {
        s
    }
}

/// A text without its leading and trailing white space.
pub open spec fn trimmed(s: Seq<char>) -> Seq<char> {
    trim_end(trim_start(s))
}

/// A text that holds nothing but white space.
pub open spec fn blank(s: Seq<char>) -> bool {
    forall|i: int| 0 <= i < s.len() ==> is_white_space(#[trigger] s[i])
}

proof fn lemma_trim_start(s: Seq<char>, n: int)
    requires
        0 <= n <= s.len(),
        forall|i: int| 0 <= i < n ==> is_white_space(#[trigger] s[i]),
        n < s.len() ==> !is_white_space(s[n]),
    ensures
        trim_start(s) == s.skip(n),
    decreases n,
{
    if n > 0 {
        assert(is_white_space(s[0]));
        let rest = s.drop_first();
        assert forall|i: int| 0 <= i < n - 1 implies is_white_space(#[trigger] rest[i]) by {
            assert(rest[i] == s[i + 1]);
        }
        lemma_trim_start(rest, n - 1);
        assert(rest.skip(n - 1) =~= s.skip(n));
    } else {
        assert(s.skip(0) =~= s);
    }
}

proof fn lemma_trim_end(s: Seq<char>, n: int)
    requires
        0 <= n <= s.len(),
        forall|i: int| n <= i < s.len() ==> is_white_space(#[trigger] s[i]),
        n > 0 ==> !is_white_space(s[n - 1]),
    ensures
        trim_end(s) == s.take(n),
    decreases s.len() - n,
{
    if n < s.len() {
        assert(is_white_space(s[s.len() - 1]));
        lemma_trim_end(s.drop_last(), n);
        assert(s.drop_last().take(n) =~= s.take(n));
    } else {
        assert(s.take(n) =~= s);
    }
}

proof fn lemma_trim_start_suffix(s: Seq<char>)
    ensures
        blank(s) ==> trim_start(s).len() == 0,
        !blank(s) ==> trim_start(s).len() > 0 && !is_white_space(trim_start(s)[0]),
    decreases s.len(),
{
    if s.len() > 0 && is_white_space(s[0]) {
        let rest = s.drop_first();
        lemma_trim_start_suffix(rest);
        if blank(rest) {
            assert forall|i: int| 0 <= i < s.len() implies is_white_space(#[trigger] s[i]) by {
                if i > 0 {
                    assert(s[i] == rest[i - 1]);
                }
            }
        } else {
            let i = choose|i: int| 0 <= i < rest.len() && !is_white_space(#[trigger] rest[i]);
            assert(!is_white_space(s[i + 1]));
        }
    } else if s.len() > 0 {
        assert(!is_white_space(s[0]));
    }
}

proof fn lemma_trim_end_keeps_first(s: Seq<char>)
    requires
        s.len() > 0,
        !is_white_space(s[0]),
    ensures
        trim_end(s).len() > 0,
        trim_end(s)[0] == s[0],
        !is_white_space(trim_end(s).last()),
    decreases s.len(),
{
    if is_white_space(s.last()) {
        lemma_trim_end_keeps_first(s.drop_last());
    }
}

/// A text is blank if and only if nothing is left of it after trimming.
pub proof fn lemma_blank_iff_trimmed_empty(s: Seq<char>)
    ensures
        blank(s) <==> trimmed(s).len() == 0,
{
    lemma_trim_start_suffix(s);
    if !blank(s) {
        lemma_trim_end_keeps_first(trim_start(s));
    }
}

/// Trimming leaves no white space at either end, so trimming again changes
/// nothing.
pub proof fn lemma_trimmed_twice(s: Seq<char>)
    ensures
        trimmed(trimmed(s)) == trimmed(s),
{
    lemma_trim_start_suffix(s);
    if !blank(s) {
        lemma_trim_end_keeps_first(trim_start(s));
    }
}

/// The text without leading and trailing white space.
pub fn trim(s: &str) -> (res: &str)
    ensures
        res@ == trimmed(s@),
{
    let chars: Vec<char> = chars_of(s);
    let n: usize = chars.len();
    let mut from: usize = 0;
    while from < n && white_space(chars[from])
        invariant
            from <= n,
            n == chars.len(),
            forall|i: int| 0 <= i < from ==> is_white_space(#[trigger] chars@[i]),
        decreases n - from,
    {
        from += 1;
    }
    let mut to: usize = n;
    while to > from && white_space(chars[to - 1])
        invariant
            from <= to <= n,
            n == chars.len(),
            forall|i: int| to <= i < n ==> is_white_space(#[trigger] chars@[i]),
        decreases to,
    {
        to -= 1;
    }
    proof {
        lemma_trim_start(s@, from as int);
        let rest = s@.skip(from as int);
        assert forall|i: int| to - from <= i < rest.len() implies is_white_space(
            #[trigger] rest[i],
        ) by {
            assert(rest[i] == chars@[i + from]);
        }
        if to > from {
            assert(rest[to - from - 1] == chars@[to - 1]);
        }
        lemma_trim_end(rest, to - from);
        assert(rest.take(to - from) =~= s@.subrange(from as int, to as int));
    }
    s.substring_char(from, to)
}

/// Whether a text holds nothing but white space.
pub fn is_blank(s: &str) -> (res: bool)
    ensures
        res == blank(s@),
{
    proof {
        lemma_blank_iff_trimmed_empty(s@);
    }
    trim(s).is_empty()
}

// ── ASCII case ──────────────────────────────────────────────────────────

/// The lower-case form of an ASCII letter; any other character is itself.
pub open spec fn ascii_lower(c: char) -> char {
    if 'A' <= c <= 'Z' {
        ((c as u8) + 32) as u8 as char
    } else {
        c
    }
}

/// A text with its ASCII letters in lower case.
pub open spec fn ascii_lowered(s: Seq<char>) -> Seq<char> {
    s.map_values(|c: char| ascii_lower(c))
}

fn lower_char(c: char) -> (res: char)
    ensures
        res == ascii_lower(c),
{
    if 'A' <= c && c <= 'Z' {
        ((c as u8) + 32) as char
    } else {
        c
    }
}

/// Whether `s`, with its ASCII letters in lower case, is `lower`.
pub fn lowers_to(s: &str, lower: &str) -> (res: bool)
    ensures
        res == (ascii_lowered(s@) == lower@),
{
    let a: Vec<char> = chars_of(s);
    let b: Vec<char> = chars_of(lower);
    if a.len() != b.len() {
        assert(ascii_lowered(s@).len() != lower@.len());
        return false;
    }
    let mut i: usize = 0;
    while i < a.len()
        invariant
            i <= a.len(),
            a.len() == b.len(),
            a@ == s@,
            b@ == lower@,
            forall|j: int| 0 <= j < i ==> ascii_lower(#[trigger] a@[j]) == b@[j],
        decreases a.len() - i,
    {
        if lower_char(a[i]) != b[i] {
            assert(ascii_lowered(s@)[i as int] != lower@[i as int]);
            return false;
        }
        i += 1;
    }
    assert(ascii_lowered(s@) =~= lower@);
    true
}

// ── Searching and splitting ─────────────────────────────────────────────

/// Whether `needle` stands somewhere in `s`.
pub open spec fn occurs(s: Seq<char>, needle: Seq<char>) -> bool {
    exists|i: int| occurs_at(s, needle, i)
}

/// Whether `needle` stands in `s` from position `i` on.
pub open spec fn occurs_at(s: Seq<char>, needle: Seq<char>, i: int) -> bool {
    &&& 0 <= i <= s.len() - needle.len()
    &&& s.subrange(i, i + needle.len()) == needle
}

fn stands_at(s: &Vec<char>, needle: &Vec<char>, at: usize) -> (res: bool)
    requires
        at + needle.len() <= s.len(),
    ensures
        res == occurs_at(s@, needle@, at as int),
{
    let mut j: usize = 0;
    while j < needle.len()
        invariant
            j <= needle.len(),
            at + needle.len() <= s.len(),
            forall|k: int| 0 <= k < j ==> s@[at + k] == #[trigger] needle@[k],
        decreases needle.len() - j,
    {
        if s[at + j] != needle[j] {
            assert(s@.subrange(at as int, at + needle@.len())[j as int] != needle@[j as int]);
            return false;
        }
        j += 1;
    }
    assert(s@.subrange(at as int, at + needle@.len()) =~= needle@);
    true
}

/// Whether `needle` stands somewhere in `s`.
pub fn contains_text(s: &str, needle: &str) -> (res: bool)
    ensures
        res == occurs(s@, needle@),
{
    let hay: Vec<char> = chars_of(s);
    let pin: Vec<char> = chars_of(needle);
    if pin.len() > hay.len() {
        return false;
    }
    let last: usize = hay.len() - pin.len();
    let mut i: usize = 0;
    while i <= last
        invariant
            i <= last + 1,
            last == hay.len() - pin.len(),
            pin.len() <= hay.len(),
            hay@ == s@,
            pin@ == needle@,
            last < usize::MAX || pin.len() == 0,
            forall|k: int| 0 <= k < i ==> !#[trigger] occurs_at(s@, needle@, k),
        decreases last + 1 - i,
    {
        if stands_at(&hay, &pin, i) {
            return true;
        }
        if i == last {
            assert(forall|k: int| #[trigger] occurs_at(s@, needle@, k) ==> 0 <= k <= last);
            return false;
        }
        i += 1;
    }
    false
}

/// Whether `s` begins with `prefix`.
pub fn begins_with(s: &str, prefix: &str) -> (res: bool)
    ensures
        res == prefix@.is_prefix_of(s@),
{
    let hay: Vec<char> = chars_of(s);
    let pin: Vec<char> = chars_of(prefix);
    if pin.len() > hay.len() {
        return false;
    }
    let res: bool = stands_at(&hay, &pin, 0);
    proof {
        let head = s@.subrange(0, prefix@.len() as int);
        if res {
            assert(prefix@.is_prefix_of(s@));
        } else {
            assert(!prefix@.is_prefix_of(s@));
        }
    }
    res
}

/// Where `c` first stands in `s`.
fn find_char(s: &Vec<char>, c: char) -> (res: Option<usize>)
    ensures
        match res {
            Some(i) => i < s.len() && s@[i as int] == c && forall|j: int|
                0 <= j < i ==> #[trigger] s@[j] != c,
            None => !s@.contains(c),
        },
{
    let mut i: usize = 0;
    while i < s.len()
        invariant
            i <= s.len(),
            forall|j: int| 0 <= j < i ==> #[trigger] s@[j] != c,
        decreases s.len() - i,
    {
        if s[i] == c {
            return Some(i);
        }
        i += 1;
    }
    None
}

/// Where `c` last stands in `s`.
fn find_last_char(s: &Vec<char>, c: char) -> (res: Option<usize>)
    ensures
        match res {
            Some(i) => i < s.len() && s@[i as int] == c && forall|j: int|
                i < j < s.len() ==> #[trigger] s@[j] != c,
            None => !s@.contains(c),
        },
{
    let mut i: usize = s.len();
    while i > 0
        invariant
            i <= s.len(),
            forall|j: int| i <= j < s.len() ==> #[trigger] s@[j] != c,
        decreases i,
    {
        if s[i - 1] == c {
            return Some(i - 1);
        }
        i -= 1;
    }
    None
}

/// Splits a text at the first `c`; `None` if `c` does not stand in it.
pub fn split_first<'a>(s: &'a str, c: char) -> (res: Option<(&'a str, &'a str)>)
    ensures
        match res {
            Some(parts) => s@ == parts.0@.push(c) + parts.1@ && !parts.0@.contains(c),
            None => !s@.contains(c),
        },
{
    let chars: Vec<char> = chars_of(s);
    match find_char(&chars, c) {
        Some(i) => {
            let head: &str = s.substring_char(0, i);
            let tail: &str = s.substring_char(i + 1, chars.len());
            assert(s@ =~= head@.push(c) + tail@);
            Some((head, tail))
        },
        None => None,
    }
}

/// Splits a text at the last `c`; `None` if `c` does not stand in it.
pub fn split_last<'a>(s: &'a str, c: char) -> (res: Option<(&'a str, &'a str)>)
    ensures
        match res {
            Some(parts) => s@ == parts.0@.push(c) + parts.1@ && !parts.1@.contains(c),
            None => !s@.contains(c),
        },
{
    let chars: Vec<char> = chars_of(s);
    match find_last_char(&chars, c) {
        Some(i) => {
            let head: &str = s.substring_char(0, i);
            let tail: &str = s.substring_char(i + 1, chars.len());
            assert(s@ =~= head@.push(c) + tail@);
            Some((head, tail))
        },
        None => None,
    }
}

/// Two texts that are split at the first `c` in the same way are the same
/// split.
pub proof fn lemma_split_first_unique(
    c: char,
    head1: Seq<char>,
    tail1: Seq<char>,
    head2: Seq<char>,
    tail2: Seq<char>,
)
    requires
        head1.push(c) + tail1 == head2.push(c) + tail2,
        !head1.contains(c),
        !head2.contains(c),
    ensures
        head1 == head2,
        tail1 == tail2,
{
    let s1 = head1.push(c) + tail1;
    let s2 = head2.push(c) + tail2;
    if head1.len() < head2.len() {
        assert(s1[head1.len() as int] == c);
        assert(s2[head1.len() as int] == head2[head1.len() as int]);
        assert(head2.contains(c));
    } else if head2.len() < head1.len() {
        assert(s2[head2.len() as int] == c);
        assert(s1[head2.len() as int] == head1[head2.len() as int]);
        assert(head1.contains(c));
    }
    assert forall|i: int| 0 <= i < head1.len() implies head1[i] == head2[i] by {
        assert(s1[i] == s2[i]);
    }
    assert(head1 =~= head2);
    assert(s1.skip(head1.len() as int + 1) =~= tail1);
    assert(s2.skip(head2.len() as int + 1) =~= tail2);
}

// ── Decimal numbers ─────────────────────────────────────────────────────

/// The decimal digit with the value `n`.
pub open spec fn digit(n: nat) -> char {
    (('0' as u8) + n) as u8 as char
}

/// A number written in decimal.
pub open spec fn decimal(n: nat) -> Seq<char>
    decreases n,
{
    if n < 10 {
        seq![digit(n)]
    } else {
        decimal(n / 10).push(digit(n % 10))
    }
}

/// Whether a character is a decimal digit.
pub open spec fn is_digit(c: char) -> bool {
    '0' <= c <= '9'
}

/// The number that a sequence of decimal digits stands for.
pub open spec fn digits_value(s: Seq<char>) -> nat
    decreases s.len(),
{
    if s.len() == 0 {
        0
    } else {
        digits_value(s.drop_last()) * 10 + (s.last() as u32 - '0' as u32) as nat
    }
}

/// A text without one leading plus sign.
pub open spec fn without_plus(s: Seq<char>) -> Seq<char> {
    if s.len() > 0 && s[0] == '+' {
        s.skip(1)
    } else {
        s
    }
}

/// The number that a text spells: an optional plus sign, then digits only, at
/// least one, with a value of at most 32 bits.
pub open spec fn number(s: Seq<char>) -> Option<u32> {
    let digits = without_plus(s);
    if digits.len() > 0 && (forall|i: int|
        0 <= i < digits.len() ==> is_digit(#[trigger] digits[i])) && digits_value(digits)
        <= u32::MAX {
        Some(digits_value(digits) as u32)
    } else {
        None
    }
}

/// Reads a number of at most 32 bits.
pub fn parse_u32(s: &str) -> (res: Option<u32>)
    ensures
        res == number(s@),
{
    let chars: Vec<char> = chars_of(s);
    let ghost digits = without_plus(s@);
    let start: usize = if chars.len() > 0 && chars[0] == '+' {
        1
    } else {
        0
    };
    if start == chars.len() {
        return None;
    }
    let mut total: u64 = 0;
    let mut too_big: bool = false;
    let mut i: usize = start;
    while i < chars.len()
        invariant
            start <= i <= chars.len(),
            start <= 1,
            chars@ == s@,
            digits == s@.skip(start as int),
            digits == without_plus(s@),
            forall|j: int| 0 <= j < i - start ==> is_digit(#[trigger] digits[j]),
            !too_big ==> total == digits_value(digits.take(i - start)) && total <= u32::MAX,
            too_big ==> digits_value(digits.take(i - start)) > u32::MAX,
        decreases chars.len() - i,
    {
        let c: char = chars[i];
        if !('0' <= c && c <= '9') {
            assert(!is_digit(digits[i - start]));
            return None;
        }
        proof {
            assert(digits[i - start] == c);
            assert(digits.take(i - start + 1).drop_last() =~= digits.take(i - start));
            assert(digits.take(i - start + 1).last() == c);
        }
        if !too_big {
            total = total * 10 + (c as u32 - '0' as u32) as u64;
            if total > u32::MAX as u64 {
                too_big = true;
            }
        }
        i += 1;
    }
    assert(digits.take(i - start) =~= digits);
    if too_big {
        None
    } else {
        Some(total as u32)
    }
}

fn digit_text(n: u64) -> (res: &'static str)
    requires
        n < 10,
    ensures
        res@ == seq![digit(n as nat)],
{
    proof {
        reveal_strlit("0");
        reveal_strlit("1");
        reveal_strlit("2");
        reveal_strlit("3");
        reveal_strlit("4");
        reveal_strlit("5");
        reveal_strlit("6");
        reveal_strlit("7");
        reveal_strlit("8");
        reveal_strlit("9");
    }
    let res: &'static str = match n {
        0 => "0",
        1 => "1",
        2 => "2",
        3 => "3",
        4 => "4",
        5 => "5",
        6 => "6",
        7 => "7",
        8 => "8",
        _ => "9",
    };
    assert(res@ =~= seq![digit(n as nat)]);
    res
}

/// A number written in decimal.
pub fn decimal_text(n: u64) -> (res: String)
    ensures
        res@ == decimal(n as nat),
    decreases n,
{
    if n < 10 {
        digit_text(n).to_owned()
    } else {
        let head: String = decimal_text(n / 10);
        let res: String = head.concat(digit_text(n % 10));
        assert(res@ =~= decimal((n / 10) as nat).push(digit((n % 10) as nat)));
        res
    }
}

/// A number written in decimal is at least one digit, and digits only.
pub proof fn lemma_decimal_digits(n: nat)
    ensures
        decimal(n).len() > 0,
        forall|i: int| 0 <= i < decimal(n).len() ==> is_digit(#[trigger] decimal(n)[i]),
        digits_value(decimal(n)) == n,
    decreases n,
{
    if n < 10 {
        let s = seq![digit(n)];
        assert(s.drop_last() =~= Seq::<char>::empty());
        assert(digits_value(s.drop_last()) == 0);
    } else {
        lemma_decimal_digits(n / 10);
        let head = decimal(n / 10);
        let s = head.push(digit(n % 10));
        assert(s.drop_last() =~= head);
    }
}

/// Different numbers behind the same text make different texts.
pub proof fn lemma_decimal_after(prefix: Seq<char>, n: nat, m: nat)
    ensures
        prefix + decimal(n) == prefix + decimal(m) ==> n == m,
{
    lemma_decimal_digits(n);
    lemma_decimal_digits(m);
    if prefix + decimal(n) == prefix + decimal(m) {
        let k = prefix.len() as int;
        assert((prefix + decimal(n)).skip(k) =~= decimal(n));
        assert((prefix + decimal(m)).skip(k) =~= decimal(m));
    }
}

// ── Putting texts together ──────────────────────────────────────────────

/// Two texts, one after the other.
pub fn join2(a: &str, b: &str) -> (res: String)
    ensures
        res@ == a@ + b@,
{
    a.to_owned().concat(b)
}

/// Three texts, one after the other.
pub fn join3(a: &str, b: &str, c: &str) -> (res: String)
    ensures
        res@ == a@ + b@ + c@,
{
    a.to_owned().concat(b).concat(c)
}

// ── What holds of texts ─────────────────────────────────────────────────

/// White space is what Unicode counts as such; no letter, digit or mark is.
pub proof fn law_white_space(c: char)
    ensures
        is_white_space(c) <==> (c == ' ' || c == '\t' || c == '\n' || c == '\r' || c == '\u{b}' || c
            == '\u{c}' || c == '\u{85}' || c == '\u{a0}' || c == '\u{1680}' || '\u{2000}' <= c
            <= '\u{200a}' || c == '\u{2028}' || c == '\u{2029}' || c == '\u{202f}' || c
            == '\u{205f}' || c == '\u{3000}'),
{
}

/// Trimming takes away the white space before and after a text and nothing
/// else.
pub proof fn law_trimming_keeps_the_text(before: Seq<char>, s: Seq<char>, after: Seq<char>)
    requires
        forall|i: int| 0 <= i < before.len() ==> is_white_space(#[trigger] before[i]),
        forall|i: int| 0 <= i < after.len() ==> is_white_space(#[trigger] after[i]),
        s.len() > 0,
        !is_white_space(s[0]),
        !is_white_space(s.last()),
    ensures
        trimmed(before + s + after) == s,
        !blank(before + s + after),
        blank(before + after),
        trimmed(before + after) == Seq::<char>::empty(),
{
    let all = before + s + after;
    lemma_trim_start(all, before.len() as int);
    assert(all[before.len() as int] == s[0]);
    assert(!is_white_space(all[before.len() as int]));
    let rest = all.skip(before.len() as int);
    assert(rest =~= s + after);
    lemma_trim_end(rest, s.len() as int);
    assert(rest.take(s.len() as int) =~= s);
    lemma_blank_iff_trimmed_empty(before + after);
    assert(trimmed(before + after) =~= Seq::<char>::empty());
}

/// A number written in decimal is read as that number.
pub proof fn law_decimal_is_read_back(n: u32)
    ensures
        number(decimal(n as nat)) == Some(n),
        number(seq!['+'] + decimal(n as nat)) == Some(n),
{
    let s = decimal(n as nat);
    lemma_decimal_digits(n as nat);
    assert(is_digit(s[0]));
    assert((seq!['+'] + s).skip(1) =~= s);
}

/// A text with anything but digits behind an optional plus sign is no number,
/// nor is an empty text.
pub proof fn law_numbers_are_digits(s: Seq<char>, i: int)
    requires
        s.len() == 0 || (0 <= i < s.len() && !('0' <= s[i] <= '9') && !(i == 0 && s[i] == '+')),
    ensures
        number(s) is None,
{
    let digits = without_plus(s);
    if s.len() > 0 {
        if s[0] == '+' {
            assert(digits[i - 1] == s[i]);
            assert(!is_digit(digits[i - 1]));
        } else {
            assert(!is_digit(digits[i]));
        }
    }
}

/// Case does not matter beyond A to Z, and nothing else is changed.
pub proof fn law_lowering_is_for_letters(s: Seq<char>, i: int)
    requires
        0 <= i < s.len(),
    ensures
        ascii_lowered(s).len() == s.len(),
        'A' <= s[i] <= 'Z' ==> ascii_lowered(s)[i] as u32 == s[i] as u32 + 32,
        !('A' <= s[i] <= 'Z') ==> ascii_lowered(s)[i] == s[i],
{
}

/// Filtering a list of which all is kept leaves it as it is.
pub proof fn lemma_filter_all<A>(items: Seq<A>, keep: spec_fn(A) -> bool)
    requires
        forall|i: int| 0 <= i < items.len() ==> keep(#[trigger] items[i]),
    ensures
        items.filter(keep) == items,
    decreases items.len(),
{
    reveal(Seq::filter);
    if items.len() > 0 {
        lemma_filter_all(items.drop_last(), keep);
        assert(items.drop_last().push(items.last()) =~= items);
    }
}

/// An item that is not kept makes no difference to what is.
pub proof fn lemma_filter_insert<A>(items: Seq<A>, keep: spec_fn(A) -> bool, i: int, item: A)
    requires
        0 <= i <= items.len(),
        !keep(item),
    ensures
        items.insert(i, item).filter(keep) == items.filter(keep),
{
    reveal(Seq::filter);
    let head = items.subrange(0, i);
    let tail = items.subrange(i, items.len() as int);
    assert(items.insert(i, item) =~= head.push(item) + tail);
    assert(items =~= head + tail);
    Seq::filter_distributes_over_add(head.push(item), tail, keep);
    Seq::filter_distributes_over_add(head, tail, keep);
    assert(head.push(item).drop_last() =~= head);
}

/// What is kept is kept as often as it occurs.
pub proof fn lemma_filter_count<A>(items: Seq<A>, keep: spec_fn(A) -> bool, item: A)
    ensures
        items.filter(keep).to_multiset().count(item) == if keep(item) {
            items.to_multiset().count(item)
        } else {
            0
        },
    decreases items.len(),
{
    broadcast use vstd::seq_lib::group_to_multiset_ensures;

    reveal(Seq::filter);
    if items.len() > 0 {
        let rest = items.drop_last();
        lemma_filter_count(rest, keep, item);
        assert(rest.push(items.last()) =~= items);
        assert(items.to_multiset() =~= rest.to_multiset().insert(items.last()));
        if keep(items.last()) {
            assert(items.filter(keep) =~= rest.filter(keep).push(items.last()));
        }
    } else {
        assert(items.filter(keep) =~= items);
        assert(items =~= Seq::<A>::empty());
    }
}

/// The models of a list are those of its items, one by one; what is not there
/// has none.
pub proof fn law_lists_are_modelled_item_by_item<T: View>(items: Seq<T>, item: T, i: int)
    ensures
        views(items).len() == items.len(),
        0 <= i < items.len() ==> views(items)[i] == items[i]@,
        opt_view(Some(item)) == Some(item@),
        opt_view(None::<T>) is None,
{
}

} // verus!
