//! The two route handlers, as pure functions from request data to a reply.

use vstd::prelude::*;
use vstd::string::*;
use crate::json_in::{doc_age, doc_name, json_parses, read_person_fields};
use crate::json_out::{
    error_body, error_object, lemma_message_unescaped, message_body, message_object, unescaped,
};
use crate::person::{format_message, message_of, person_from_fields, BodyError, Person};

verus! {

/// One HTTP reply: a status code and a body.
pub struct Reply {
    pub status: u16,
    pub body: String,
}

/// The constant greeting.
pub open spec fn greeting_text() -> Seq<char> {
    "Hello from the server!"@
}

/// The GET route: always status 200 with the constant greeting, whatever
/// the request carried.
pub fn greet() -> (r: Reply)
    ensures
        r.status == 200,
        r.body@ == greeting_text(),
{
    Reply { status: 200, body: String::from_str("Hello from the server!") }
}

/// The POST route on a record that already passed validation: status 200
/// and the message object, with the person's two fields substituted
/// literally. When no character of the name needs an escape, the body is
/// pinned down to the letter.
pub fn create_person(p: &Person) -> (r: Reply)
    ensures
        r.status == 200,
        r.body@ == message_object(message_of(p.name@, p.age as nat)),
        unescaped(p.name@) ==> r.body@ == "{\"message\":\""@ + message_of(p.name@, p.age as nat)
            + "\"}"@,
{
    proof {
        if unescaped(p.name@) {
            lemma_message_unescaped(p.name@, p.age as nat);
        }
    }
    let msg = format_message(p);
    Reply { status: 200, body: message_body(msg.as_str()) }
}

/// The POST route after field extraction: status 200 with the message
/// object exactly when a name string and an age integer fitting 32 bits
/// are both there, and otherwise status 400 with the error body that names
/// what was wrong.
pub fn reply_to_fields(name: Option<&str>, age: Option<u64>) -> (r: Reply)
    ensures
        r.status == 200 || r.status == 400,
        (name is Some && age is Some && age->0 <= u32::MAX) <==> r.status == 200,
        r.status == 200 ==> r.body@ == message_object(message_of(name->0@, age->0 as nat)),
        name is None ==> r.body@ == error_object(BodyError::BadName),
        (name is Some && age is None) ==> r.body@ == error_object(BodyError::BadAge),
        (name is Some && age is Some && age->0 > u32::MAX) ==> r.body@ == error_object(
            BodyError::AgeTooLarge,
        ),
{
    match person_from_fields(name, age) {
        Ok(p) => create_person(&p),
        Err(e) => Reply { status: 400, body: error_body(&e) },
    }
}

/// The POST route on the raw request body: status 200 with the message
/// object built from the document's own `name` and `age` exactly when the
/// bytes parse as JSON and hold a string name and an age integer fitting
/// 32 bits; otherwise status 400 with the error body that names the first
/// thing wrong.
pub fn post_data(body: &[u8]) -> (r: Reply)
    ensures
        r.status == 200 || r.status == 400,
        r.status == 200 <==> (json_parses(body@) && doc_name(body@) is Some && doc_age(body@)
            is Some && doc_age(body@)->0 <= u32::MAX),
        r.status == 200 ==> r.body@ == message_object(
            message_of(doc_name(body@)->0, doc_age(body@)->0 as nat),
        ),
        !json_parses(body@) ==> r.body@ == error_object(BodyError::NotJson),
        (json_parses(body@) && doc_name(body@) is None) ==> r.body@ == error_object(
            BodyError::BadName,
        ),
        (json_parses(body@) && doc_name(body@) is Some && doc_age(body@) is None) ==> r.body@
            == error_object(BodyError::BadAge),
        (json_parses(body@) && doc_name(body@) is Some && doc_age(body@) is Some && doc_age(
            body@,
        )->0 > u32::MAX) ==> r.body@ == error_object(BodyError::AgeTooLarge),
{
    match read_person_fields(body) {
        None => Reply { status: 400, body: error_body(&BodyError::NotJson) },
        Some((name, age)) => {
            let name_ref: Option<&str> = match &name {
                Some(s) => Some(s.as_str()),
                None => None,
            };
            reply_to_fields(name_ref, age)
        },
    }
}

/// The POST route on the raw request: a request that does not declare a
/// JSON content type is rejected with status 400 before its body is read,
/// as the JSON extractor rejects it; a request that does is answered as
/// `post_data` says of its body.
pub fn post_request(json_content_type: bool, body: &[u8]) -> (r: Reply)
    ensures
        r.status == 200 || r.status == 400,
        !json_content_type ==> r.status == 400 && r.body@ == error_object(
            BodyError::BadContentType,
        ),
        json_content_type ==> {
            &&& r.status == 200 <==> (json_parses(body@) && doc_name(body@) is Some && doc_age(
                body@,
            ) is Some && doc_age(body@)->0 <= u32::MAX)
            &&& r.status == 200 ==> r.body@ == message_object(
                message_of(doc_name(body@)->0, doc_age(body@)->0 as nat),
            )
            &&& !json_parses(body@) ==> r.body@ == error_object(BodyError::NotJson)
            &&& (json_parses(body@) && doc_name(body@) is None) ==> r.body@ == error_object(
                BodyError::BadName,
            )
            &&& (json_parses(body@) && doc_name(body@) is Some && doc_age(body@) is None)
                ==> r.body@ == error_object(BodyError::BadAge)
            &&& (json_parses(body@) && doc_name(body@) is Some && doc_age(body@) is Some
                && doc_age(body@)->0 > u32::MAX) ==> r.body@ == error_object(
                BodyError::AgeTooLarge,
            )
        },
{
    if json_content_type {
        post_data(body)
    } else {
        Reply { status: 400, body: error_body(&BodyError::BadContentType) }
    }
}

} // verus!
