//! What a call of the raffle answers.

use vstd::prelude::*;
use crate::nod::MintCommand;
use crate::text::owned;

verus! {

/// A key with its value.
#[derive(Clone, Debug)]
pub struct Attribute {
    pub key: String,
    pub value: String,
}

/// Something that happened, with what is to be known of it.
#[derive(Clone, Debug)]
pub struct Event {
    pub ty: String,
    pub attributes: Vec<Attribute>,
}

/// The answer of a call that succeeded: the orders to mint, in the order in
/// which they are to be carried out, and what is logged.
#[derive(Clone, Debug)]
pub struct Response {
    pub messages: Vec<MintCommand>,
    pub attributes: Vec<Attribute>,
    pub events: Vec<Event>,
}

impl Response {
    /// Whether the response logs the action `action` and one event of the
    /// same name that has the one attribute `key` with the value `value`.
    pub open spec fn logs_one(self, action: Seq<char>, key: Seq<char>, value: Seq<char>) -> bool {
        &&& self.attributes.len() == 1
        &&& self.attributes[0].key@ == "action"@
        &&& self.attributes[0].value@ == action
        &&& self.events.len() == 1
        &&& self.events[0].ty@ == action
        &&& self.events[0].attributes.len() == 1
        &&& self.events[0].attributes[0].key@ == key
        &&& self.events[0].attributes[0].value@ == value
    }

    /// Whether the response logs the action `action` and one event of the
    /// same name that has two attributes.
    pub open spec fn logs_two(
        self,
        action: Seq<char>,
        first_key: Seq<char>,
        first_value: Seq<char>,
        second_key: Seq<char>,
        second_value: Seq<char>,
    ) -> bool {
        &&& self.attributes.len() == 1
        &&& self.attributes[0].key@ == "action"@
        &&& self.attributes[0].value@ == action
        &&& self.events.len() == 1
        &&& self.events[0].ty@ == action
        &&& self.events[0].attributes.len() == 2
        &&& self.events[0].attributes[0].key@ == first_key
        &&& self.events[0].attributes[0].value@ == first_value
        &&& self.events[0].attributes[1].key@ == second_key
        &&& self.events[0].attributes[1].value@ == second_value
    }
}

/// A response that orders nothing and logs the action `action` with one
/// event of the same name, which has the one attribute `key`.
pub fn logged(action: &str, key: &str, value: String) -> (response: Response)
    ensures
        response.messages@.len() == 0,
        response.logs_one(action@, key@, value@),
{
    let mut attributes: Vec<Attribute> = Vec::new();
    attributes.push(Attribute { key: owned("action"), value: owned(action) });
    let mut event_attributes: Vec<Attribute> = Vec::new();
    event_attributes.push(Attribute { key: owned(key), value });
    let mut events: Vec<Event> = Vec::new();
    events.push(Event { ty: owned(action), attributes: event_attributes });
    Response { messages: Vec::new(), attributes, events }
}

} // verus!
