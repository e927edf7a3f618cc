//! JSON text as the 1Password core reads and writes it.
//!
//! serde_json writes and reads the scalar values (strings, numbers, byte
//! arrays); the objects and arrays that carry them are framed here.
use vstd::prelude::*;

verus! {

/// `serde_json::Error`, the error of a failed JSON read.
#[verifier::external_type_specification]
#[verifier::external_body]
pub struct ExJsonError(serde_json::Error);

/// The lowercase hexadecimal digit for `d`, which is below sixteen.
pub open spec fn hex_digit_char(d: int) -> char {
    if d < 10 {
        digit_char(d)
    } else if d == 10 {
        'a'
    } else if d == 11 {
        'b'
    } else if d == 12 {
        'c'
    } else if d == 13 {
        'd'
    } else if d == 14 {
        'e'
    } else {
        'f'
    }
}

/// How one character is written inside a JSON string: a quote and a
/// backslash are preceded by a backslash; backspace, tab, line feed, form
/// feed and carriage return are written `\b`, `\t`, `\n`, `\f`, `\r`; any
/// other control character below 0x20 is written `\u00` and two lowercase
/// hexadecimal digits; every other character stands as it is.
pub open spec fn escaped_char(c: char) -> Seq<char> {
    let code = c as int;
    if c == '"' {
        seq!['\\', '"']
    } else if c == '\\' {
        seq!['\\', '\\']
    } else if code == 8 {
        seq!['\\', 'b']
    } else if code == 9 {
        seq!['\\', 't']
    } else if code == 10 {
        seq!['\\', 'n']
    } else if code == 12 {
        seq!['\\', 'f']
    } else if code == 13 {
        seq!['\\', 'r']
    } else if code < 32 {
        seq!['\\', 'u', '0', '0', hex_digit_char(code / 16), hex_digit_char(code % 16)]
    } else {
        seq![c]
    }
}

/// The characters of a string, each written as inside a JSON string.
pub open spec fn escaped_text(s: Seq<char>) -> Seq<char>
    decreases s.len(),
{
    if s.len() == 0 {
        Seq::empty()
    } else {
        escaped_text(s.drop_last()) + escaped_char(s.last())
    }
}

/// The JSON text that serde_json writes for a string value: the escaped
/// characters between double quotes.
pub open spec fn json_string_text(s: Seq<char>) -> Seq<char> {
    seq!['"'] + escaped_text(s) + seq!['"']
}

/// The `u64` that serde_json reads from the given bytes, if they hold one.
pub uninterp spec fn json_u64_value(bytes: Seq<u8>) -> Option<u64>;

/// The string that serde_json reads from the given JSON text, if it holds one.
pub uninterp spec fn json_string_value(text: Seq<char>) -> Option<Seq<char>>;

/// The byte array that serde_json reads from the given JSON text, if it holds one.
pub uninterp spec fn json_byte_array_value(text: Seq<char>) -> Option<Seq<u8>>;

/// Writes `s` as a JSON string: displays `serde_json::Value::String(s)`,
/// as the core's parameters are written. Trusted to give `json_string_text`:
/// serde_json's compact formatter writes the string between quotes and
/// escapes it byte by byte with its escape table (bytes of non-ASCII
/// characters are never escaped, so the table reads the same on characters).
#[verifier::external_body]
pub fn json_string(s: &str) -> (res: String)
    ensures
        res@ == json_string_text(s@),
{
    serde_json::Value::String(s.to_owned()).to_string()
}

/// Reads a `u64` with `serde_json::from_slice`. Trusted to succeed exactly
/// when `json_u64_value` names a number, and then to give that number.
#[verifier::external_body]
pub fn read_json_u64(bytes: &[u8]) -> (res: Result<u64, serde_json::Error>)
    ensures
        res is Ok <==> json_u64_value(bytes@) is Some,
        res matches Ok(v) ==> json_u64_value(bytes@) == Some(v),
{
    serde_json::from_slice::<u64>(bytes)
}

/// Reads a string with `serde_json::from_str`. Trusted to succeed exactly
/// when `json_string_value` names a string, and then to give that string.
#[verifier::external_body]
pub fn read_json_string(text: &str) -> (res: Result<String, serde_json::Error>)
    ensures
        res is Ok <==> json_string_value(text@) is Some,
        res matches Ok(v) ==> json_string_value(text@) == Some(v@),
{
    serde_json::from_str::<String>(text)
}

/// Reads a byte array with `serde_json::from_str`. Trusted to succeed
/// exactly when `json_byte_array_value` names an array, and then to give it.
#[verifier::external_body]
pub fn read_json_byte_array(text: &str) -> (res: Result<Vec<u8>, serde_json::Error>)
    ensures
        res is Ok <==> json_byte_array_value(text@) is Some,
        res matches Ok(v) ==> json_byte_array_value(text@) == Some(v@),
{
    serde_json::from_str::<Vec<u8>>(text)
}

/// Displays a `serde_json::Error`. Its text depends on where the read
/// failed, which the error does not show to Verus: nothing is stated of it.
#[verifier::external_body]
pub fn json_error_text(err: &serde_json::Error) -> String {
    format!("{err}")
}

/// Appends one character: `String::push`.
#[verifier::external_body]
pub fn push_char(s: &mut String, c: char)
    ensures
        final(s)@ == old(s)@.push(c),
{
    s.push(c);
}

/// The decimal digit character for `d`, which is below ten.
pub open spec fn digit_char(d: int) -> char {
    if d == 0 {
        '0'
    } else if d == 1 {
        '1'
    } else if d == 2 {
        '2'
    } else if d == 3 {
        '3'
    } else if d == 4 {
        '4'
    } else if d == 5 {
        '5'
    } else if d == 6 {
        '6'
    } else if d == 7 {
        '7'
    } else if d == 8 {
        '8'
    } else {
        '9'
    }
}

/// The decimal text of a natural number, without leading zeros.
pub open spec fn decimal_text(n: nat) -> Seq<char>
    decreases n,
{
    if n < 10 {
        seq![digit_char(n as int)]
    } else {
        decimal_text(n / 10).push(digit_char((n % 10) as int))
    }
}

/// The decimal text of an integer, with a leading '-' when it is negative.
pub open spec fn signed_decimal_text(i: int) -> Seq<char> {
    if i < 0 {
        seq!['-'] + decimal_text((-i) as nat)
    } else {
        decimal_text(i as nat)
    }
}

fn digit(d: u64) -> (c: char)
    requires
        d < 10,
    ensures
        c == digit_char(d as int),
{
    if d == 0 {
        '0'
    } else if d == 1 {
        '1'
    } else if d == 2 {
        '2'
    } else if d == 3 {
        '3'
    } else if d == 4 {
        '4'
    } else if d == 5 {
        '5'
    } else if d == 6 {
        '6'
    } else if d == 7 {
        '7'
    } else if d == 8 {
        '8'
    } else {
        '9'
    }
}

/// Appends the decimal text of `n`, as serde_json writes a number.
pub fn push_decimal(s: &mut String, n: u64)
    ensures
        final(s)@ == old(s)@ + decimal_text(n as nat),
    decreases n,
{
    if n >= 10 {
        push_decimal(s, n / 10);
    }
    push_char(s, digit(n % 10));
    assert(s@ =~= old(s)@ + decimal_text(n as nat));
}

/// The decimal text of `n`.
pub fn u64_decimal(n: u64) -> (res: String)
    ensures
        res@ == decimal_text(n as nat),
{
    let mut s = String::new();
    push_decimal(&mut s, n);
    assert(s@ =~= decimal_text(n as nat));
    s
}

/// The decimal text of `i`, with a leading '-' when it is negative.
pub fn i32_decimal(i: i32) -> (res: String)
    ensures
        res@ == signed_decimal_text(i as int),
{
    let mut s = String::new();
    if i < 0 {
        push_char(&mut s, '-');
        let magnitude: u64 = (0i64 - (i as i64)) as u64;
        push_decimal(&mut s, magnitude);
    } else {
        push_decimal(&mut s, i as u64);
    }
    assert(s@ =~= signed_decimal_text(i as int));
    s
}

/// The texts joined by commas.
pub open spec fn comma_joined(texts: Seq<Seq<char>>) -> Seq<char>
    decreases texts.len(),
{
    if texts.len() == 0 {
        Seq::empty()
    } else if texts.len() == 1 {
        texts[0]
    } else {
        comma_joined(texts.drop_last()) + seq![','] + texts.last()
    }
}

/// A JSON array whose elements have the given texts.
pub open spec fn json_array_text(elements: Seq<Seq<char>>) -> Seq<char> {
    seq!['['] + comma_joined(elements) + seq![']']
}

/// A JSON object member: the key as a JSON string, a colon, the value's text.
pub open spec fn json_member_text(key: Seq<char>, value: Seq<char>) -> Seq<char> {
    json_string_text(key) + seq![':'] + value
}

/// The keys and value texts of object entries held as strings.
pub open spec fn entry_views(entries: Seq<(String, String)>) -> Seq<(Seq<char>, Seq<char>)> {
    Seq::new(entries.len(), |i: int| (entries[i].0@, entries[i].1@))
}

/// The member texts of an object whose entries pair keys with value texts.
pub open spec fn member_texts(entries: Seq<(Seq<char>, Seq<char>)>) -> Seq<Seq<char>> {
    Seq::new(entries.len(), |i: int| json_member_text(entries[i].0, entries[i].1))
}

/// A JSON object with the given entries, in order.
pub open spec fn json_object_text(entries: Seq<(Seq<char>, Seq<char>)>) -> Seq<char> {
    seq!['{'] + comma_joined(member_texts(entries)) + seq!['}']
}

/// A JSON object whose entries pair keys with JSON texts, in order.
pub fn json_object(entries: &[(String, String)]) -> (res: String)
    ensures
        res@ == json_object_text(entry_views(entries@)),
{
    let ghost texts = member_texts(entry_views(entries@));
    let mut body = String::new();
    let n = entries.len();
    let mut i: usize = 0;
    while i < n
        invariant
            n == entries@.len(),
            i <= n,
            texts == member_texts(entry_views(entries@)),
            body@ == comma_joined(texts.take(i as int)),
        decreases n - i,
    {
        let key = json_string(entries[i].0.as_str());
        if i > 0 {
            push_char(&mut body, ',');
        }
        let ghost before = body@;
        body.append(key.as_str());
        push_char(&mut body, ':');
        body.append(entries[i].1.as_str());
        assert(texts[i as int] =~= json_member_text(entries@[i as int].0@, entries@[i as int].1@));
        assert(texts.take(i + 1).drop_last() =~= texts.take(i as int));
        assert(texts.take(i + 1).last() == texts[i as int]);
        assert(body@ =~= comma_joined(texts.take(i + 1)));
        i = i + 1;
    }
    assert(texts.take(n as int) =~= texts);
    let mut res = String::new();
    push_char(&mut res, '{');
    res.append(body.as_str());
    push_char(&mut res, '}');
    assert(res@ =~= json_object_text(entry_views(entries@)));
    res
}

/// The number a decimal digit character stands for.
pub open spec fn digit_value(c: char) -> int {
    c as int - '0' as int
}

/// The number a string of decimal digits stands for, read from the left.
pub open spec fn decimal_value(s: Seq<char>) -> int
    decreases s.len(),
{
    if s.len() == 0 {
        0
    } else {
        decimal_value(s.drop_last()) * 10 + digit_value(s.last())
    }
}

/// Each digit below ten is written as the digit character that stands for it.
pub proof fn lemma_digit_char_stands_for_its_digit(d: int)
    requires
        0 <= d < 10,
    ensures
        digit_value(digit_char(d)) == d,
        '0' as int <= digit_char(d) as int <= '9' as int,
{
}

/// The decimal text of `n` is a nonempty string of digit characters that
/// stands for `n`, and it starts with `0` only when `n` is zero.
pub proof fn lemma_decimal_text_stands_for_its_number(n: nat)
    ensures
        decimal_value(decimal_text(n)) == n,
        decimal_text(n).len() >= 1,
        forall|i: int|
            0 <= i < decimal_text(n).len() ==> '0' as int <= #[trigger] decimal_text(n)[i] as int
                <= '9' as int,
        decimal_text(n)[0] == '0' ==> n == 0,
    decreases n,
{
    if n < 10 {
        lemma_digit_char_stands_for_its_digit(n as int);
        assert(decimal_text(n).drop_last() =~= Seq::<char>::empty());
        assert(decimal_value(Seq::<char>::empty()) == 0);
        assert(decimal_value(decimal_text(n)) == decimal_value(decimal_text(n).drop_last()) * 10
            + digit_value(decimal_text(n).last()));
    } else {
        let high = (n / 10) as nat;
        let low = (n % 10) as int;
        lemma_decimal_text_stands_for_its_number(high);
        lemma_digit_char_stands_for_its_digit(low);
        let t = decimal_text(n);
        assert(t.drop_last() =~= decimal_text(high));
        assert(t.last() == digit_char(low));
        assert(decimal_value(t) == decimal_value(t.drop_last()) * 10 + digit_value(t.last()));
        assert(n == high * 10 + low) by (nonlinear_arith)
            requires
                high == n / 10,
                low == n % 10,
        ;
        assert forall|i: int| 0 <= i < t.len() implies '0' as int <= #[trigger] t[i] as int
            <= '9' as int by {
            if i < t.len() - 1 {
                assert(t[i] == decimal_text(high)[i]);
            }
        }
        assert(t[0] == decimal_text(high)[0]);
    }
}

/// The texts joined by commas, with one more text at the end: a comma
/// stands before it unless it is the first.
pub proof fn lemma_comma_joined_with_one_more(texts: Seq<Seq<char>>, t: Seq<char>)
    ensures
        comma_joined(texts.push(t)) == if texts.len() == 0 {
            t
        } else {
            comma_joined(texts) + seq![','] + t
        },
{
    assert(texts.push(t).drop_last() =~= texts);
}

/// An array without elements is written `[]`.
pub proof fn lemma_empty_array_text()
    ensures
        json_array_text(Seq::empty()) == seq!['[', ']'],
{
    assert(json_array_text(Seq::empty()) =~= seq!['[', ']']);
}

/// An array with one more element at the end is written as the array
/// without its closing bracket, a comma unless the element is the first,
/// the element's text, and the closing bracket.
pub proof fn lemma_array_with_one_more_element(elements: Seq<Seq<char>>, e: Seq<char>)
    ensures
        json_array_text(elements.push(e)) == json_array_text(elements).drop_last() + (if elements.len()
            == 0 {
            Seq::empty()
        } else {
            seq![',']
        }) + e + seq![']'],
{
    lemma_comma_joined_with_one_more(elements, e);
    assert(json_array_text(elements).drop_last() =~= seq!['['] + comma_joined(elements));
    assert(json_array_text(elements.push(e)) =~= json_array_text(elements).drop_last() + (if elements.len()
        == 0 {
        Seq::empty()
    } else {
        seq![',']
    }) + e + seq![']']);
}

/// An object without members is written `{}`.
pub proof fn lemma_empty_object_text()
    ensures
        json_object_text(Seq::empty()) == seq!['{', '}'],
{
    assert(member_texts(Seq::empty()) =~= Seq::<Seq<char>>::empty());
    assert(json_object_text(Seq::empty()) =~= seq!['{', '}']);
}

/// An object with one more member at the end is written as the object
/// without its closing brace, a comma unless the member is the first, the
/// key as a JSON string, a colon, the value's text, and the closing brace.
pub proof fn lemma_object_with_one_more_member(
    members: Seq<(Seq<char>, Seq<char>)>,
    key: Seq<char>,
    value: Seq<char>,
)
    ensures
        json_object_text(members.push((key, value))) == json_object_text(members).drop_last() + (
        if members.len() == 0 {
            Seq::empty()
        } else {
            seq![',']
        }) + json_string_text(key) + seq![':'] + value + seq!['}'],
{
    let texts = member_texts(members);
    let member = json_member_text(key, value);
    assert(member_texts(members.push((key, value))) =~= texts.push(member));
    lemma_comma_joined_with_one_more(texts, member);
    assert(json_object_text(members).drop_last() =~= seq!['{'] + comma_joined(texts));
    assert(json_object_text(members.push((key, value))) =~= json_object_text(members).drop_last() + (
    if members.len() == 0 {
        Seq::empty()
    } else {
        seq![',']
    }) + json_string_text(key) + seq![':'] + value + seq!['}']);
}

} // verus!
