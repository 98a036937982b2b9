//! The JSON bodies the service sends: the `{"message": ...}` object for an
//! accepted person and a fixed `{"error": ...}` object for each rejection.
//! Quoting a string is delegated to serde_json behind a trusted wrapper.

use vstd::prelude::*;
use vstd::string::*;
use crate::digits::{dec_rep, digit_char};
use crate::person::{message_of, BodyError};

verus! {

/// What serde_json produces when it serialises a string slice: the quoted,
/// escaped JSON form, a function of the characters alone.
pub uninterp spec fn json_quoted(s: Seq<char>) -> Seq<char>;

/// True of a character that JSON string serialisation copies through
/// unchanged: not a control character, not the quote, not the backslash.
pub open spec fn char_unescaped(c: char) -> bool {
    (c as u32) >= 0x20 && c != '"' && c != '\\'
}

/// True of text whose JSON quotation is the text itself between two quote
/// marks.
pub open spec fn unescaped(s: Seq<char>) -> bool {
    forall|i: int| 0 <= i < s.len() ==> char_unescaped(#[trigger] s[i])
}

/// Relies on serde_json::to_string on a string slice: it writes one quote
/// mark, the input with the quote, the backslash and the control characters
/// escaped and every other character copied unchanged, then one quote mark,
/// and it cannot fail when writing to a string.
#[verifier::external_body]
fn quote_str(s: &str) -> (r: String)
    ensures
        r@ == json_quoted(s@),
        unescaped(s@) ==> r@ == seq!['"'] + s@ + seq!['"'],
{
    serde_json::to_string(s).unwrap_or_default()
}

/// Every character of a decimal numeral is a digit, so none of them needs
/// an escape.
pub proof fn lemma_dec_rep_unescaped(n: nat)
    ensures
        unescaped(dec_rep(n)),
    decreases n,
{
    if n < 10 {
        assert(char_unescaped(digit_char(n)));
    } else {
        lemma_dec_rep_unescaped(n / 10);
        assert(char_unescaped(digit_char(n % 10)));
        assert forall|i: int| 0 <= i < dec_rep(n).len() implies char_unescaped(
            dec_rep(n)[i],
        ) by {
            if i < dec_rep(n / 10).len() {
                assert(dec_rep(n)[i] == dec_rep(n / 10)[i]);
            }
        }
    }
}

/// The fixed text around a name and an age needs no escape, so a message
/// built from an unescaped name is unescaped as a whole.
pub proof fn lemma_message_unescaped(name: Seq<char>, age: nat)
    requires
        unescaped(name),
    ensures
        unescaped(message_of(name, age)),
{
    reveal_strlit("Hello ");
    reveal_strlit(", you are ");
    reveal_strlit(" years old.");
    lemma_dec_rep_unescaped(age);
    assert forall|i: int| 0 <= i < message_of(name, age).len() implies char_unescaped(
        message_of(name, age)[i],
    ) by {
        let hello = "Hello "@;
        let youare = ", you are "@;
        let yearsold = " years old."@;
        let m = message_of(name, age);
        assert(m == hello + name + youare + dec_rep(age) + yearsold);
        if i < hello.len() {
            assert(m[i] == hello[i]);
        } else if i < hello.len() + name.len() {
            assert(m[i] == name[i - hello.len()]);
        } else if i < hello.len() + name.len() + youare.len() {
            assert(m[i] == youare[i - hello.len() - name.len()]);
        } else if i < hello.len() + name.len() + youare.len() + dec_rep(age).len() {
            assert(m[i] == dec_rep(age)[i - hello.len() - name.len() - youare.len()]);
        } else {
            assert(m[i] == yearsold[i - hello.len() - name.len() - youare.len() - dec_rep(
                age,
            ).len()]);
        }
    }
}

/// The success body: a JSON object with the single key `message` holding
/// the quoted message text.
pub open spec fn message_object(msg: Seq<char>) -> Seq<char> {
    "{\"message\":"@ + json_quoted(msg) + "}"@
}

/// Wrap a message in the `{"message": ...}` object. When no character of
/// the message needs an escape, the body is the message verbatim between
/// the fixed frame.
pub fn message_body(msg: &str) -> (r: String)
    ensures
        r@ == message_object(msg@),
        unescaped(msg@) ==> r@ == "{\"message\":\""@ + msg@ + "\"}"@,
{
    let mut s = String::from_str("{\"message\":");
    let q = quote_str(msg);
    s.append(q.as_str());
    s.append("}");
    proof {
        assert(s@ =~= message_object(msg@));
        if unescaped(msg@) {
            reveal_strlit("{\"message\":");
            reveal_strlit("{\"message\":\"");
            reveal_strlit("}");
            reveal_strlit("\"}");
            assert(s@ =~= "{\"message\":\""@ + msg@ + "\"}"@);
        }
    }
    s
}

/// The error body for each rejection, a fixed JSON object under the key
/// `error`.
pub open spec fn error_object(e: BodyError) -> Seq<char> {
    match e {
        BodyError::BadContentType => "{\"error\":\"content type is not JSON\"}"@,
        BodyError::NotJson => "{\"error\":\"invalid JSON body\"}"@,
        BodyError::BadName => "{\"error\":\"missing or invalid name\"}"@,
        BodyError::BadAge => "{\"error\":\"missing or invalid age\"}"@,
        BodyError::AgeTooLarge => "{\"error\":\"age out of range\"}"@,
    }
}

/// Build the fixed error body for a rejection.
pub fn error_body(e: &BodyError) -> (r: String)
    ensures
        r@ == error_object(*e),
{
    match e {
        BodyError::BadContentType => String::from_str("{\"error\":\"content type is not JSON\"}"),
        BodyError::NotJson => String::from_str("{\"error\":\"invalid JSON body\"}"),
        BodyError::BadName => String::from_str("{\"error\":\"missing or invalid name\"}"),
        BodyError::BadAge => String::from_str("{\"error\":\"missing or invalid age\"}"),
        BodyError::AgeTooLarge => String::from_str("{\"error\":\"age out of range\"}"),
    }
}

} // verus!
