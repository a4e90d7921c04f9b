//! The echo endpoint behind the authentication layer, used to check that a
//! token gets through.

use vstd::prelude::*;

verus! {

/// Body of an echo request.
#[derive(Clone, Debug)]
pub struct TestJsonRequest {
    pub name: String,
    pub message: String,
}

/// Body of an echo answer.
#[derive(Clone, Debug)]
pub struct TestJsonResponse {
    pub message: String,
}

/// Relies on `String::push_str`: appends `tail`.
#[verifier::external_body]
fn append(s: &mut String, tail: &str)
    ensures
        final(s)@ == old(s)@ + tail@,
{
    s.push_str(tail)
}

/// Greets the sender by name and repeats the message: `Hi, <name>! <message>!`.
pub fn test_posting_json(payload: TestJsonRequest) -> (r: TestJsonResponse)
    ensures
        r.message@ == "Hi, "@ + payload.name@ + "! "@ + payload.message@ + "!"@,
{
    let mut text = "Hi, ".to_owned();
    append(&mut text, payload.name.as_str());
    append(&mut text, "! ");
    append(&mut text, payload.message.as_str());
    append(&mut text, "!");
    TestJsonResponse { message: text }
}

} // verus!
