//! Fields of forms and addresses in the `application/x-www-form-urlencoded`
//! syntax.
//!
//! A body is a list of name and value pairs, in which a name may occur more
//! than once.

use vstd::prelude::*;
use vstd::string::*;
use vstd::utf8;

use crate::text;

verus! {

/// The name and value pairs that a form body spells, in their order: what
/// `form_urlencoded::parse` yields.
pub uninterp spec fn form_pairs(body: Seq<u8>) -> Seq<(Seq<char>, Seq<char>)>;

/// Whether a byte stands for itself in a name or a value: ASCII letters and
/// digits, and `*`, `-`, `.`, `_`.
pub open spec fn stands_for_itself(byte: u8) -> bool {
    ||| 0x30 <= byte <= 0x39
    ||| 0x41 <= byte <= 0x5A
    ||| 0x61 <= byte <= 0x7A
    ||| byte == 0x2A
    ||| byte == 0x2D
    ||| byte == 0x2E
    ||| byte == 0x5F
}

/// A digit of base sixteen, in upper case.
pub open spec fn hex_digit(n: int) -> char {
    if n < 10 {
        (0x30 + n) as char
    } else {
        (0x41 + n - 10) as char
    }
}

/// A byte as it stands in a name or a value: as itself, a plus sign for a
/// space, or a percent sign and two digits.
pub open spec fn byte_encoded(byte: u8) -> Seq<char> {
    if stands_for_itself(byte) {
        seq![byte as char]
    } else if byte == 0x20 {
        seq!['+']
    } else {
        seq!['%', hex_digit(byte as int / 16), hex_digit(byte as int % 16)]
    }
}

/// A text as it stands in a name or a value: its UTF-8 bytes, one after the
/// other.
pub open spec fn url_encoded(s: Seq<char>) -> Seq<char> {
    utf8::encode_utf8(s).map_values(|byte: u8| byte_encoded(byte)).flatten()
}

/// Calls `form_urlencoded::parse` and collects the pairs. Trusted: they
/// depend on the body alone.
#[verifier::external_body]
fn parse_pairs(body: &[u8]) -> (res: Vec<(String, String)>)
    ensures
        text::views(res@) == form_pairs(body@),
{
    form_urlencoded::parse(body).into_owned().collect()
}

/// Calls `form_urlencoded::Serializer::append_pair` on a query that is there
/// already. Trusted: an ampersand stands between the query, where it is not
/// empty, and the new pair; name and value are encoded, with an equals sign
/// between them; and parsing what comes out gives the pairs of the query and
/// then the new one.
#[verifier::external_body]
fn append_pair(query: &str, name: &str, value: &str) -> (res: String)
    ensures
        res@ == with_separator(query@) + url_encoded(name@) + "="@ + url_encoded(value@),
        form_pairs(utf8::encode_utf8(res@)) == if query@.len() == 0 {
            seq![(name@, value@)]
        } else {
            form_pairs(utf8::encode_utf8(query@)).push((name@, value@))
        },
{
    form_urlencoded::Serializer::new(query.to_owned()).append_pair(name, value).finish()
}

/// A query with what stands between it and one more pair.
pub open spec fn with_separator(query: Seq<char>) -> Seq<char> {
    if query.len() == 0 {
        query
    } else {
        query + "&"@
    }
}

/// A list of pairs as a query.
pub open spec fn query_text(pairs: Seq<(Seq<char>, Seq<char>)>) -> Seq<char>
    decreases pairs.len(),
{
    if pairs.len() == 0 {
        Seq::empty()
    } else {
        with_separator(query_text(pairs.drop_last())) + url_encoded(pairs.last().0) + "="@
            + url_encoded(pairs.last().1)
    }
}

/// The name and value pairs of a form body.
pub fn fields(body: &[u8]) -> (res: Vec<(String, String)>)
    ensures
        text::views(res@) == form_pairs(body@),
{
    parse_pairs(body)
}

/// A list of pairs as a query. Parsing it gives the pairs back.
pub fn query(pairs: &Vec<(&str, &str)>) -> (res: String)
    ensures
        res@ == query_text(text::views(pairs@)),
        pairs@.len() > 0 ==> res@.len() > 0 && form_pairs(utf8::encode_utf8(res@)) == text::views(
            pairs@,
        ),
{
    proof {
        reveal_strlit("=");
    }
    let ghost all = text::views(pairs@);
    let mut out: String = String::new();
    let mut i: usize = 0;
    assert(out@ =~= query_text(all.take(0)));
    while i < pairs.len()
        invariant
            i <= pairs.len(),
            all == text::views(pairs@),
            "="@.len() == 1,
            out@ == query_text(all.take(i as int)),
            i > 0 ==> out@.len() > 0 && form_pairs(utf8::encode_utf8(out@)) == all.take(i as int),
            i == 0 ==> out@.len() == 0,
        decreases pairs.len() - i,
    {
        let (name, value): (&str, &str) = pairs[i];
        proof {
            text::lemma_views_take(pairs@, i as int);
            assert(all.take(i + 1).drop_last() =~= all.take(i as int));
            assert(all.take(i + 1).last() == (name@, value@));
            assert(seq![(name@, value@)] =~= Seq::empty().push((name@, value@)));
            if i == 0 {
                assert(all.take(1) =~= seq![(name@, value@)]);
            }
        }
        out = append_pair(out.as_str(), name, value);
        i += 1;
    }
    assert(all.take(i as int) =~= all);
    out
}

// ── Looking fields up ───────────────────────────────────────────────────

/// The value of the first field with the name `key`.
pub open spec fn first_of(pairs: Seq<(Seq<char>, Seq<char>)>, key: Seq<char>) -> Option<Seq<char>>
    decreases pairs.len(),
{
    if pairs.len() == 0 {
        None
    } else if pairs[0].0 == key {
        Some(pairs[0].1)
    } else {
        first_of(pairs.drop_first(), key)
    }
}

/// The value of the last field with the name `key`.
pub open spec fn last_of(pairs: Seq<(Seq<char>, Seq<char>)>, key: Seq<char>) -> Option<Seq<char>>
    decreases pairs.len(),
{
    if pairs.len() == 0 {
        None
    } else if pairs.last().0 == key {
        Some(pairs.last().1)
    } else {
        last_of(pairs.drop_last(), key)
    }
}

/// The values of all fields with the name `key`, in their order.
pub open spec fn all_of(pairs: Seq<(Seq<char>, Seq<char>)>, key: Seq<char>) -> Seq<Seq<char>>
    decreases pairs.len(),
{
    if pairs.len() == 0 {
        Seq::empty()
    } else if pairs.last().0 == key {
        all_of(pairs.drop_last(), key).push(pairs.last().1)
    } else {
        all_of(pairs.drop_last(), key)
    }
}

/// The text in an option, or another where there is none.
pub open spec fn text_or(value: Option<Seq<char>>, other: Seq<char>) -> Seq<char> {
    match value {
        Some(s) => s,
        None => other,
    }
}

/// The number that an optional text spells, or another where there is none.
pub open spec fn number_or(value: Option<Seq<char>>, other: u32) -> u32 {
    match value {
        Some(s) => match text::number(s) {
            Some(n) => n,
            None => other,
        },
        None => other,
    }
}

/// At least one.
pub open spec fn at_least_one(n: u32) -> u32 {
    if n < 1 {
        1
    } else {
        n
    }
}

/// The value of the first field with the name `key`.
pub fn first_in(pairs: &Vec<(String, String)>, key: &str) -> (res: Option<String>)
    ensures
        text::opt_view(res) == first_of(text::views(pairs@), key@),
{
    let ghost all = text::views(pairs@);
    let mut i: usize = 0;
    assert(all.skip(0) =~= all);
    while i < pairs.len()
        invariant
            i <= pairs.len(),
            all == text::views(pairs@),
            first_of(all, key@) == first_of(all.skip(i as int), key@),
        decreases pairs.len() - i,
    {
        assert(all.skip(i as int)[0] == pairs@[i as int]@);
        if text::same_text(pairs[i].0.as_str(), key) {
            return Some(pairs[i].1.clone());
        }
        assert(all.skip(i as int).drop_first() =~= all.skip(i + 1));
        i += 1;
    }
    None
}

/// The value of the last field with the name `key`.
pub fn last_in(pairs: &Vec<(String, String)>, key: &str) -> (res: Option<String>)
    ensures
        text::opt_view(res) == last_of(text::views(pairs@), key@),
{
    let ghost all = text::views(pairs@);
    let mut i: usize = pairs.len();
    assert(all.take(all.len() as int) =~= all);
    while i > 0
        invariant
            i <= pairs.len(),
            all == text::views(pairs@),
            last_of(all, key@) == last_of(all.take(i as int), key@),
        decreases i,
    {
        assert(all.take(i as int).last() == pairs@[i - 1]@);
        if text::same_text(pairs[i - 1].0.as_str(), key) {
            return Some(pairs[i - 1].1.clone());
        }
        assert(all.take(i as int).drop_last() =~= all.take(i - 1));
        i -= 1;
    }
    None
}

/// The values of all fields with the name `key`, in their order.
pub fn all_in(pairs: &Vec<(String, String)>, key: &str) -> (res: Vec<String>)
    ensures
        text::views(res@) == all_of(text::views(pairs@), key@),
{
    let ghost all = text::views(pairs@);
    let mut found: Vec<String> = Vec::new();
    let mut i: usize = 0;
    assert(text::views(found@) =~= all_of(all.take(0), key@));
    while i < pairs.len()
        invariant
            i <= pairs.len(),
            all == text::views(pairs@),
            text::views(found@) == all_of(all.take(i as int), key@),
        decreases pairs.len() - i,
    {
        let ghost before = found@;
        proof {
            text::lemma_views_take(pairs@, i as int);
            assert(all.take(i + 1).drop_last() =~= all.take(i as int));
        }
        if text::same_text(pairs[i].0.as_str(), key) {
            let value: String = pairs[i].1.clone();
            proof {
                text::lemma_views_push(before, value);
            }
            found.push(value);
        }
        i += 1;
    }
    assert(all.take(i as int) =~= all);
    found
}

/// The text in an option, or another where there is none.
pub fn take_or(value: Option<String>, other: &str) -> (res: String)
    ensures
        res@ == text_or(text::opt_view(value), other@),
{
    match value {
        Some(s) => s,
        None => other.to_owned(),
    }
}

/// The number that an optional text spells, or another where there is none.
pub fn parse_or(value: &Option<String>, other: u32) -> (res: u32)
    ensures
        res == number_or(text::opt_view(*value), other),
{
    match value {
        Some(s) => match text::parse_u32(s.as_str()) {
            Some(n) => n,
            None => other,
        },
        None => other,
    }
}

/// At least one.
pub fn one_or_more(n: u32) -> (res: u32)
    ensures
        res == at_least_one(n),
{
    if n < 1 {
        1
    } else {
        n
    }
}

/// The numbers that a list of texts spells; zero for a text that spells none.
pub open spec fn numbers(texts: Seq<Seq<char>>) -> Seq<u32> {
    texts.map_values(|s: Seq<char>| number_or(Some(s), 0))
}

/// The numbers that a list of texts spells; zero for a text that spells none.
pub fn parse_all(texts: &Vec<String>) -> (res: Vec<u32>)
    ensures
        res@ == numbers(text::views(texts@)),
{
    let mut out: Vec<u32> = Vec::new();
    let mut i: usize = 0;
    while i < texts.len()
        invariant
            i <= texts.len(),
            out@ == numbers(text::views(texts@)).take(i as int),
        decreases texts.len() - i,
    {
        let n: u32 = match text::parse_u32(texts[i].as_str()) {
            Some(n) => n,
            None => 0,
        };
        out.push(n);
        assert(numbers(text::views(texts@)).take(i + 1) =~= numbers(text::views(texts@)).take(
            i as int,
        ).push(n));
        i += 1;
    }
    assert(out@ =~= numbers(text::views(texts@)));
    out
}

/// The text at a position, and the empty text past the end.
pub open spec fn text_at(texts: Seq<Seq<char>>, i: int) -> Seq<char> {
    if 0 <= i < texts.len() {
        texts[i]
    } else {
        Seq::empty()
    }
}

/// The text at a position, and the empty text past the end.
pub fn get_text(texts: &Vec<String>, i: usize) -> (res: String)
    ensures
        res@ == text_at(text::views(texts@), i as int),
{
    if i < texts.len() {
        texts[i].clone()
    } else {
        String::new()
    }
}

// ── What holds of fields ────────────────────────────────────────────────

/// Whether the pair at position `i` is the first one under a name.
pub open spec fn is_first(pairs: Seq<(Seq<char>, Seq<char>)>, key: Seq<char>, i: int) -> bool {
    &&& 0 <= i < pairs.len()
    &&& pairs[i].0 == key
    &&& forall|j: int| 0 <= j < i ==> (#[trigger] pairs[j]).0 != key
}

/// Whether the pair at position `i` is the last one under a name.
pub open spec fn is_last(pairs: Seq<(Seq<char>, Seq<char>)>, key: Seq<char>, i: int) -> bool {
    &&& 0 <= i < pairs.len()
    &&& pairs[i].0 == key
    &&& forall|j: int| i < j < pairs.len() ==> (#[trigger] pairs[j]).0 != key
}

/// Whether there is no pair under a name.
pub open spec fn is_absent(pairs: Seq<(Seq<char>, Seq<char>)>, key: Seq<char>) -> bool {
    forall|j: int| 0 <= j < pairs.len() ==> (#[trigger] pairs[j]).0 != key
}

/// The first value under a name is that of the first pair under it.
pub proof fn law_first_value(pairs: Seq<(Seq<char>, Seq<char>)>, key: Seq<char>, i: int)
    requires
        is_first(pairs, key, i),
    ensures
        first_of(pairs, key) == Some(pairs[i].1),
    decreases pairs.len(),
{
    if i > 0 {
        assert(pairs[0].0 != key);
        let rest = pairs.drop_first();
        assert forall|j: int| 0 <= j < i - 1 implies (#[trigger] rest[j]).0 != key by {
            assert(rest[j] == pairs[j + 1]);
        }
        law_first_value(rest, key, i - 1);
    }
}

/// The last value under a name is that of the last pair under it.
pub proof fn law_last_value(pairs: Seq<(Seq<char>, Seq<char>)>, key: Seq<char>, i: int)
    requires
        is_last(pairs, key, i),
    ensures
        last_of(pairs, key) == Some(pairs[i].1),
    decreases pairs.len(),
{
    if i < pairs.len() - 1 {
        assert(pairs[pairs.len() - 1].0 != key);
        law_last_value(pairs.drop_last(), key, i);
    }
}

/// Under a name that no pair has there is no value.
pub proof fn law_no_value(pairs: Seq<(Seq<char>, Seq<char>)>, key: Seq<char>)
    requires
        is_absent(pairs, key),
    ensures
        first_of(pairs, key) is None,
        last_of(pairs, key) is None,
        all_of(pairs, key) == Seq::<Seq<char>>::empty(),
    decreases pairs.len(),
{
    if pairs.len() > 0 {
        assert(pairs[0].0 != key);
        assert(pairs[pairs.len() - 1].0 != key);
        let rest = pairs.drop_first();
        assert forall|j: int| 0 <= j < rest.len() implies (#[trigger] rest[j]).0 != key by {
            assert(rest[j] == pairs[j + 1]);
        }
        law_no_value(rest, key);
        law_no_value(pairs.drop_last(), key);
    }
}

/// The values under a name are gathered pair by pair, in the order of the
/// pairs.
pub proof fn law_values_in_order(
    head: Seq<(Seq<char>, Seq<char>)>,
    pair: (Seq<char>, Seq<char>),
    tail: Seq<(Seq<char>, Seq<char>)>,
    key: Seq<char>,
)
    ensures
        pair.0 == key ==> all_of(head.push(pair) + tail, key) == all_of(head, key).push(pair.1)
            + all_of(tail, key),
        pair.0 != key ==> all_of(head.push(pair) + tail, key) == all_of(head, key) + all_of(
            tail,
            key,
        ),
    decreases tail.len(),
{
    if tail.len() == 0 {
        assert(head.push(pair) + tail =~= head.push(pair));
        assert(head.push(pair).drop_last() =~= head);
        assert(all_of(tail, key) =~= Seq::<Seq<char>>::empty());
        assert(all_of(head, key).push(pair.1) + all_of(tail, key) =~= all_of(head, key).push(
            pair.1,
        ));
        assert(all_of(head, key) + all_of(tail, key) =~= all_of(head, key));
    } else {
        law_values_in_order(head, pair, tail.drop_last(), key);
        let all = head.push(pair) + tail;
        assert(all.drop_last() =~= head.push(pair) + tail.drop_last());
        assert(all.last() == tail.last());
        if tail.last().0 == key {
            if pair.0 == key {
                assert(all_of(all, key) =~= all_of(head, key).push(pair.1) + all_of(tail, key));
            } else {
                assert(all_of(all, key) =~= all_of(head, key) + all_of(tail, key));
            }
        }
    }
}

/// A number in a field is read as it is; a field that holds none, or is not
/// there, gives way to the number that stands in for it.
pub proof fn law_numbers_in_fields(n: u32, s: Seq<char>, other: u32)
    ensures
        number_or(Some(text::decimal(n as nat)), other) == n,
        text::number(s) is None ==> number_or(Some(s), other) == other,
        number_or(None, other) == other,
        n >= 1 ==> at_least_one(n) == n,
        at_least_one(0) == 1,
{
    text::law_decimal_is_read_back(n);
}

/// One more pair goes to the end of a query, behind an ampersand unless it is
/// the first, and leaves what is there as it is.
pub proof fn law_queries_grow_at_the_end(
    pairs: Seq<(Seq<char>, Seq<char>)>,
    pair: (Seq<char>, Seq<char>),
)
    ensures
        query_text(pairs.push(pair)) == if query_text(pairs).len() == 0 {
            url_encoded(pair.0) + "="@ + url_encoded(pair.1)
        } else {
            query_text(pairs) + "&"@ + url_encoded(pair.0) + "="@ + url_encoded(pair.1)
        },
{
    assert(pairs.push(pair).drop_last() =~= pairs);
    if query_text(pairs).len() == 0 {
        assert(query_text(pairs) + url_encoded(pair.0) =~= url_encoded(pair.0));
    }
}

/// Every byte can be told from what stands for it in a query: letters, digits
/// and four marks stand for themselves, a plus sign for a space, and a percent
/// sign with two hexadecimal digits for any other byte.
pub proof fn law_bytes_can_be_read_back(byte: u8, other: u8)
    ensures
        byte_encoded(byte) == byte_encoded(other) ==> byte == other,
        byte_encoded(byte).len() == 1 || byte_encoded(byte).len() == 3,
        byte_encoded(byte).len() == 3 ==> byte_encoded(byte)[0] == '%',
        !byte_encoded(byte).contains('&'),
        !byte_encoded(byte).contains('='),
        byte == 0x20 ==> byte_encoded(byte) == seq!['+'],
{
    assert(0 <= byte as int / 16 < 16 && 0 <= byte as int % 16 < 16);
    assert(0 <= other as int / 16 < 16 && 0 <= other as int % 16 < 16);
    let a = byte_encoded(byte);
    let b = byte_encoded(other);
    if a == b {
        assert(a[0] == b[0]);
        if a.len() == 3 {
            assert(a[1] == b[1] && a[2] == b[2]);
        }
    }
}

} // verus!
