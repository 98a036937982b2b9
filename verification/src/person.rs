//! The person record carried by the POST route, the validation that builds
//! it from extracted fields, and the formatted message it produces.

use vstd::prelude::*;
use vstd::string::*;
use crate::digits::{dec_rep, u32_to_string};

verus! {

/// A validated request record: a name (any text, empty allowed) and a
/// non-negative age that fits in 32 bits.
pub struct Person {
    pub name: String,
    pub age: u32,
}

/// Why a request body was rejected.
pub enum BodyError {
    /// The request did not declare a JSON content type.
    BadContentType,
    /// The body is not well-formed JSON.
    NotJson,
    /// The `name` field is absent or not a string.
    BadName,
    /// The `age` field is absent, negative, or not an integer.
    BadAge,
    /// The `age` field is an integer too large for 32 bits.
    AgeTooLarge,
}

/// The reply text for a person: `Hello {name}, you are {age} years old.`
pub open spec fn message_of(name: Seq<char>, age: nat) -> Seq<char> {
    "Hello "@ + name + ", you are "@ + dec_rep(age) + " years old."@
}

/// Format the reply text for a person by literal substitution of the two
/// fields.
pub fn format_message(p: &Person) -> (r: String)
    ensures
        r@ == message_of(p.name@, p.age as nat),
{
    let mut s = String::from_str("Hello ");
    s.append(p.name.as_str());
    s.append(", you are ");
    let age_text = u32_to_string(p.age);
    s.append(age_text.as_str());
    s.append(" years old.");
    proof {
        assert(s@ =~= message_of(p.name@, p.age as nat));
    }
    s
}

/// Build a person from the two extracted fields, or say exactly why it
/// cannot be built: a missing or non-string name, then a missing or
/// non-integer age, then an age beyond 32 bits.
pub fn person_from_fields(name: Option<&str>, age: Option<u64>) -> (r: Result<Person, BodyError>)
    ensures
        (name is Some && age is Some && age->0 <= u32::MAX) <==> r is Ok,
        r is Ok ==> (r->Ok_0.name@ == name->0@ && r->Ok_0.age == age->0),
        name is None ==> r == Err::<Person, BodyError>(BodyError::BadName),
        (name is Some && age is None) ==> r == Err::<Person, BodyError>(BodyError::BadAge),
        (name is Some && age is Some && age->0 > u32::MAX) ==> r == Err::<Person, BodyError>(
            BodyError::AgeTooLarge,
        ),
{
    match (name, age) {
        (Some(n), Some(a)) => {
            if a <= u32::MAX as u64 {
                Ok(Person { name: n.to_owned(), age: a as u32 })
            } else {
                Err(BodyError::AgeTooLarge)
            }
        },
        (None, _) => Err(BodyError::BadName),
        (Some(_), None) => Err(BodyError::BadAge),
    }
}

} // verus!
