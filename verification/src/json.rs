//! The types that come with an encoding: `i32`, `bool` and `String`, each
//! encoded as JSON by `serde_json`. For `String` an encoding counts only
//! where `serde_json` reads it back as the value it was made from; for `i32`
//! and `bool` that is proved.

use vstd::prelude::*;
use vstd::string::StringExecFns;
use crate::item::ItemTrait;

verus! {

/// The error of `serde_json`, carried from a call to where it is dropped.
#[verifier::external_type_specification]
#[verifier::external_body]
pub struct ExJsonError(serde_json::Error);

/// The character of a decimal digit.
pub open spec fn digit(d: int) -> char {
    if d == 0 {
        '0'
    } else if d == 1 {
        '1'
    } else if d == 2 {
        '2'
    } else if d == 3 {
        '3'
    } else if d == 4 {
        '4'
    } else if d == 5 {
        '5'
    } else if d == 6 {
        '6'
    } else if d == 7 {
        '7'
    } else if d == 8 {
        '8'
    } else {
        '9'
    }
}

/// The decimal digits of a number, the highest first and no zero in front.
pub open spec fn decimal(n: nat) -> Seq<char>
    decreases n,
{
    if n < 10 {
        seq![digit(n as int)]
    } else {
        decimal(n / 10).push(digit((n % 10) as int))
    }
}

/// The JSON text of a number: its decimal digits, after a minus sign where
/// it is negative.
pub open spec fn i32_text(value: i32) -> Seq<char> {
    if value < 0 {
        seq!['-'] + decimal((-value) as nat)
    } else {
        decimal(value as nat)
    }
}

/// The white space of JSON: space, tab, line feed and carriage return.
pub open spec fn is_json_space(c: char) -> bool {
    c == ' ' || c == '\t' || c == '\n' || c == '\r'
}

/// Whether `text` holds `word` from `start` on, and nothing but white space
/// before and after it.
pub open spec fn padded_at(text: Seq<char>, word: Seq<char>, start: int) -> bool {
    &&& 0 <= start
    &&& start + word.len() <= text.len()
    &&& text.subrange(start, start + word.len()) == word
    &&& forall|i: int|
        0 <= i < text.len() && !(start <= i < start + word.len()) ==> is_json_space(
            #[trigger] text[i],
        )
}

/// Whether `text` is `word` with nothing but white space around it.
pub open spec fn padded(text: Seq<char>, word: Seq<char>) -> bool {
    exists|start: int| padded_at(text, word, start)
}

/// The number that a JSON text is, read as an `i32`: the text is the JSON
/// text of the number with nothing but white space around it. A text that is
/// that of no `i32` is none: a number with more digits than needed, with a
/// fraction or an exponent, or beyond the range of `i32`.
pub open spec fn i32_of_json(text: Seq<char>) -> Option<i32> {
    if exists|value: i32| padded(text, #[trigger] i32_text(value)) {
        Some(choose|value: i32| padded(text, #[trigger] i32_text(value)))
    } else {
        None
    }
}

/// The number that a sequence of decimal digits stands for.
pub open spec fn number(digits: Seq<char>) -> int
    decreases digits.len(),
{
    if digits.len() == 0 {
        0
    } else {
        number(digits.drop_last()) * 10 + digit_value(digits.last())
    }
}

/// The value of the character of a decimal digit.
pub open spec fn digit_value(c: char) -> int {
    if c == '0' {
        0
    } else if c == '1' {
        1
    } else if c == '2' {
        2
    } else if c == '3' {
        3
    } else if c == '4' {
        4
    } else if c == '5' {
        5
    } else if c == '6' {
        6
    } else if c == '7' {
        7
    } else if c == '8' {
        8
    } else {
        9
    }
}

/// The digits of a number are at least one, none of them is white space or
/// a minus sign, and they stand for the number.
pub proof fn lemma_decimal(n: nat)
    ensures
        decimal(n).len() >= 1,
        forall|i: int|
            0 <= i < decimal(n).len() ==> !is_json_space(#[trigger] decimal(n)[i]) && decimal(
                n,
            )[i] != '-',
        number(decimal(n)) == n,
    decreases n,
{
    if n < 10 {
        let one = seq![digit(n as int)];
        assert(one.drop_last() =~= Seq::<char>::empty());
        assert(number(one.drop_last()) == 0);
        assert(number(one) == number(one.drop_last()) * 10 + digit_value(one.last()));
    } else {
        lemma_decimal(n / 10);
        let front = decimal(n / 10);
        let all = front.push(digit((n % 10) as int));
        assert(all.drop_last() =~= front);
        assert(number(all) == number(all.drop_last()) * 10 + digit_value(all.last()));
    }
}

/// The JSON text of a number is not empty and has no white space in it.
pub proof fn lemma_i32_text_is_dense(value: i32)
    ensures
        i32_text(value).len() >= 1,
        forall|i: int|
            0 <= i < i32_text(value).len() ==> !is_json_space(#[trigger] i32_text(value)[i]),
{
    if value < 0 {
        lemma_decimal((-value) as nat);
    } else {
        lemma_decimal(value as nat);
    }
}

/// Two numbers with the same JSON text are the same.
pub proof fn lemma_i32_text_is_one_to_one(value: i32, other: i32)
    requires
        i32_text(other) == i32_text(value),
    ensures
        other == value,
{
    let mine = i32_text(value);
    let theirs = i32_text(other);
    if value < 0 {
        lemma_decimal((-value) as nat);
        assert(mine[0] == '-');
        assert(mine.subrange(1, mine.len() as int) =~= decimal((-value) as nat));
        if other < 0 {
            lemma_decimal((-other) as nat);
            assert(theirs.subrange(1, theirs.len() as int) =~= decimal((-other) as nat));
        } else {
            lemma_decimal(other as nat);
            assert(theirs[0] == decimal(other as nat)[0]);
        }
    } else {
        lemma_decimal(value as nat);
        assert(mine[0] == decimal(value as nat)[0]);
        if other < 0 {
            lemma_decimal((-other) as nat);
            assert(theirs[0] == '-');
        } else {
            lemma_decimal(other as nat);
        }
    }
}

/// A text without white space that is a word with white space around it is
/// the word.
pub proof fn lemma_padded_dense(text: Seq<char>, word: Seq<char>)
    requires
        word.len() >= 1,
        forall|i: int| 0 <= i < text.len() ==> !is_json_space(#[trigger] text[i]),
        padded(text, word),
    ensures
        word == text,
{
    let start = choose|start: int| padded_at(text, word, start);
    if start > 0 {
        assert(is_json_space(text[0]));
    }
    if start + word.len() < text.len() {
        assert(is_json_space(text[text.len() - 1]));
    }
    assert(text.subrange(0, text.len() as int) =~= text);
}

/// The JSON text of a number is read back as that number.
pub proof fn lemma_i32_text_reads_back(value: i32)
    ensures
        i32_of_json(i32_text(value)) == Some(value),
{
    let text = i32_text(value);
    lemma_i32_text_is_dense(value);
    assert(text.subrange(0, text.len() as int) =~= text);
    assert(padded_at(text, text, 0));
    assert(padded(text, i32_text(value)));
    let read = choose|read: i32| padded(text, #[trigger] i32_text(read));
    lemma_i32_text_is_dense(read);
    lemma_padded_dense(text, i32_text(read));
    lemma_i32_text_is_one_to_one(value, read);
}

/// `serde_json::to_string` on an `i32`. It writes the number in decimal, and
/// does not fail: the digits go into a vector in memory, and the only error
/// on that way is one of the writer.
#[verifier::external_body]
fn i32_to_json(value: i32) -> (r: Result<String, serde_json::Error>)
    ensures
        r is Ok,
        r->Ok_0@ == i32_text(value),
{
    serde_json::to_string(&value)
}

/// `serde_json::from_str` read as an `i32`, with `serde_json` built without
/// its feature `arbitrary_precision`. It skips white space, reads a number
/// that is written as `serde_json` writes an `i32`, and takes nothing but
/// white space after it; every other text is an error.
#[verifier::external_body]
fn i32_from_json(text: &str) -> (r: Result<i32, serde_json::Error>)
    ensures
        match r {
            Ok(value) => i32_of_json(text@) == Some(value),
            Err(_) => i32_of_json(text@) is None,
        },
{
    serde_json::from_str::<i32>(text)
}

impl ItemTrait for i32 {
    open spec fn spec_type_tag() -> Seq<char> {
        "i32"@
    }

    open spec fn spec_encode(value: i32) -> Option<Seq<char>> {
        Some(i32_text(value))
    }

    open spec fn spec_decode(text: Seq<char>) -> Option<i32> {
        i32_of_json(text)
    }

    proof fn lemma_round_trip(value: i32) {
        lemma_i32_text_reads_back(value);
    }

    fn type_tag() -> (tag: String) {
        String::from_str("i32")
    }

    fn encode(&self) -> (text: Option<String>) {
        match i32_to_json(*self) {
            Ok(text) => Some(text),
            Err(_) => None,
        }
    }

    fn decode(text: &str) -> (value: Option<i32>) {
        match i32_from_json(text) {
            Ok(value) => Some(value),
            Err(_) => None,
        }
    }
}

/// The JSON text of a truth value: `true` or `false`.
pub open spec fn bool_text(value: bool) -> Seq<char> {
    if value {
        "true"@
    } else {
        "false"@
    }
}

/// The truth value that a JSON text is: `true` or `false` with nothing but
/// white space around it, and nothing else.
pub open spec fn bool_of_json(text: Seq<char>) -> Option<bool> {
    if padded(text, "true"@) {
        Some(true)
    } else if padded(text, "false"@) {
        Some(false)
    } else {
        None
    }
}

/// The JSON text of a truth value is read back as that value.
pub proof fn lemma_bool_text_reads_back(value: bool)
    ensures
        bool_of_json(bool_text(value)) == Some(value),
{
    reveal_strlit("true");
    reveal_strlit("false");
    let yes = "true"@;
    let no = "false"@;
    if value {
        assert(yes.subrange(0, 4) =~= yes);
        assert(padded_at(yes, yes, 0));
    } else {
        assert(no.subrange(0, 5) =~= no);
        assert(padded_at(no, no, 0));
        assert forall|start: int| !padded_at(no, yes, start) by {
            if padded_at(no, yes, start) {
                if start == 0 {
                    assert(is_json_space(no[4]));
                } else {
                    assert(is_json_space(no[0]));
                }
            }
        }
    }
}

/// `serde_json::to_string` on a `bool`. It writes `true` or `false`, and
/// does not fail: the word goes into a vector in memory, and the only error
/// on that way is one of the writer.
#[verifier::external_body]
fn bool_to_json(value: bool) -> (r: Result<String, serde_json::Error>)
    ensures
        r is Ok,
        r->Ok_0@ == bool_text(value),
{
    serde_json::to_string(&value)
}

/// `serde_json::from_str` read as a `bool`. It skips white space, reads the
/// word `true` or `false`, and takes nothing but white space after it; every
/// other text is an error.
#[verifier::external_body]
fn bool_from_json(text: &str) -> (r: Result<bool, serde_json::Error>)
    ensures
        match r {
            Ok(value) => bool_of_json(text@) == Some(value),
            Err(_) => bool_of_json(text@) is None,
        },
{
    serde_json::from_str::<bool>(text)
}

impl ItemTrait for bool {
    open spec fn spec_type_tag() -> Seq<char> {
        "bool"@
    }

    open spec fn spec_encode(value: bool) -> Option<Seq<char>> {
        Some(bool_text(value))
    }

    open spec fn spec_decode(text: Seq<char>) -> Option<bool> {
        bool_of_json(text)
    }

    proof fn lemma_round_trip(value: bool) {
        lemma_bool_text_reads_back(value);
    }

    fn type_tag() -> (tag: String) {
        String::from_str("bool")
    }

    fn encode(&self) -> (text: Option<String>) {
        match bool_to_json(*self) {
            Ok(text) => Some(text),
            Err(_) => None,
        }
    }

    fn decode(text: &str) -> (value: Option<bool>) {
        match bool_from_json(text) {
            Ok(value) => Some(value),
            Err(_) => None,
        }
    }
}

/// What `serde_json::to_string` makes of a string: the JSON text.
pub uninterp spec fn json_of_string(value: Seq<char>) -> Seq<char>;

/// What `serde_json::from_str` reads as a `String` from a text: the string,
/// or nothing where it reports an error.
pub uninterp spec fn string_of_json(text: Seq<char>) -> Option<Seq<char>>;

/// `serde_json::to_string` on a `String`. The call has no other input than
/// the characters of the string, so its text is `json_of_string` of them. It
/// does not fail: the escaped string goes into a vector in memory, and the
/// only error on that way is one of the writer.
#[verifier::external_body]
fn string_to_json(value: &String) -> (r: Result<String, serde_json::Error>)
    ensures
        r is Ok,
        r->Ok_0@ == json_of_string(value@),
{
    serde_json::to_string(value)
}

/// `serde_json::from_str` read as a `String`. The call has no other input
/// than the text, so its outcome is `string_of_json` of it.
#[verifier::external_body]
fn string_from_json(text: &str) -> (r: Result<String, serde_json::Error>)
    ensures
        match r {
            Ok(value) => string_of_json(text@) == Some(value@),
            Err(_) => string_of_json(text@) is None,
        },
{
    serde_json::from_str::<String>(text)
}

impl ItemTrait for String {
    open spec fn spec_type_tag() -> Seq<char> {
        "String"@
    }

    open spec fn spec_encode(value: Seq<char>) -> Option<Seq<char>> {
        if string_of_json(json_of_string(value)) == Some(value) {
            Some(json_of_string(value))
        } else {
            None
        }
    }

    open spec fn spec_decode(text: Seq<char>) -> Option<Seq<char>> {
        string_of_json(text)
    }

    proof fn lemma_round_trip(value: Seq<char>) {
    }

    fn type_tag() -> (tag: String) {
        String::from_str("String")
    }

    fn encode(&self) -> (text: Option<String>) {
        match string_to_json(self) {
            Ok(text) => match string_from_json(text.as_str()) {
                Ok(back) => if back == *self {
                    Some(text)
                } else {
                    None
                },
                Err(_) => None,
            },
            Err(_) => None,
        }
    }

    fn decode(text: &str) -> (value: Option<String>) {
        match string_from_json(text) {
            Ok(value) => Some(value),
            Err(_) => None,
        }
    }
}

/// The types that come with an encoding have three different tags.
pub proof fn tags_differ()
    ensures
        <i32 as ItemTrait>::spec_type_tag() != <bool as ItemTrait>::spec_type_tag(),
        <i32 as ItemTrait>::spec_type_tag() != <String as ItemTrait>::spec_type_tag(),
        <bool as ItemTrait>::spec_type_tag() != <String as ItemTrait>::spec_type_tag(),
{
    reveal_strlit("i32");
    reveal_strlit("bool");
    reveal_strlit("String");
    assert("i32"@.len() == 3);
    assert("bool"@.len() == 4);
    assert("String"@.len() == 6);
}

} // verus!
