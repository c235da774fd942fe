//! Requests from Neovim, and what they are answered.

use neovim_lib::Value;
use vstd::prelude::*;

use crate::event::Request;
use crate::state::UIState;

verus! {

/// A value as it is sent to Neovim.
#[verifier::external_type_specification]
#[verifier::external_body]
pub struct ExValue(Value);

/// The text that a value holds, as `Value::as_str` reads it: none, unless the
/// value is a string.
pub uninterp spec fn value_text(value: Value) -> Option<Seq<char>>;

/// The elements that a value holds, as `Value::as_array` reads them: none,
/// unless the value is an array.
pub uninterp spec fn value_items(value: Value) -> Option<Seq<Value>>;

/// `Value::from` for a borrowed text: the value is a string with that text, and
/// no array.
#[verifier::external_body]
fn str_value(text: &str) -> (value: Value)
    ensures
        value_text(value) == Some(text@),
        value_items(value) is None,
{
    Value::from(text)
}

/// `Value::from` for a text: the value is a string with that text, and no
/// array.
#[verifier::external_body]
fn string_value(text: String) -> (value: Value)
    ensures
        value_text(value) == Some(text@),
        value_items(value) is None,
{
    Value::from(text)
}

/// `Value::from` for a list of values: the value is an array of them, in order,
/// and no string.
#[verifier::external_body]
fn list_value(items: Vec<Value>) -> (value: Value)
    ensures
        value_items(value) == Some(items@),
        value_text(value) is None,
{
    Value::from(items)
}

/// `value` is an array of strings, and these are their texts.
pub open spec fn holds_texts(value: Value, texts: Seq<Seq<char>>) -> bool {
    match value_items(value) {
        Some(items) => {
            &&& items.len() == texts.len()
            &&& forall|i: int|
                0 <= i < items.len() ==> #[trigger] value_text(items[i]) == Some(texts[i])
        },
        None => false,
    }
}

/// `reply` is what Neovim is answered: the styles that the cursor tooltip has,
/// or, where there is no cursor tooltip, an error that says so.
pub open spec fn is_reply(
    tooltip: bool,
    request: Request,
    styles: Seq<String>,
    reply: Result<Value, Value>,
) -> bool {
    match request {
        Request::CursorTooltipStyles => match reply {
            Ok(value) => tooltip && holds_texts(value, styles.map_values(|s: String| s@)),
            Err(value) => !tooltip && value_text(value) == Some(
                "Cursor tooltip is not supported in this build"@,
            ),
        },
    }
}

/// An array of strings with these texts.
pub fn texts_value(texts: Vec<String>) -> (value: Value)
    ensures
        holds_texts(value, texts@.map_values(|s: String| s@)),
{
    let ghost whole = texts@;
    let mut items: Vec<Value> = Vec::new();
    for text in it: texts.into_iter()
        invariant
            it.seq() == whole,
            items@.len() == it.index(),
            forall|i: int|
                0 <= i < items@.len() ==> #[trigger] value_text(items@[i]) == Some(whole[i]@),
    {
        items.push(string_value(text));
    }
    list_value(items)
}

impl UIState {
    /// Answers a request. `styles` are the styles that the cursor tooltip has;
    /// without a cursor tooltip they do not count.
    pub fn handle_request(&self, request: &Request, styles: Vec<String>) -> (reply: Result<
        Value,
        Value,
    >)
        ensures
            is_reply(self.tooltip, *request, styles@, reply),
    {
        match request {
            Request::CursorTooltipStyles => {
                if self.tooltip {
                    Ok(texts_value(styles))
                } else {
                    Err(str_value("Cursor tooltip is not supported in this build"))
                }
            },
        }
    }
}

/// With a cursor tooltip the answer is its styles, all of them, in order, each as
/// a string; without one it is an error in these words.
pub proof fn law_styles_are_answered_in_order(
    tooltip: bool,
    styles: Seq<String>,
    reply: Result<Value, Value>,
)
    requires
        is_reply(tooltip, Request::CursorTooltipStyles, styles, reply),
    ensures
        reply is Ok <==> tooltip,
        match reply {
            Ok(value) => match value_items(value) {
                Some(items) => {
                    &&& items.len() == styles.len()
                    &&& forall|i: int|
                        0 <= i < styles.len() ==> #[trigger] value_text(items[i]) == Some(
                            styles[i]@,
                        )
                },
                None => false,
            },
            Err(value) => value_text(value) == Some(
                "Cursor tooltip is not supported in this build"@,
            ),
        },
{
}

/// A value that holds texts is an array of just these, in order.
pub proof fn law_texts_stand_in_order(value: Value, texts: Seq<Seq<char>>)
    requires
        holds_texts(value, texts),
    ensures
        match value_items(value) {
            Some(items) => {
                &&& items.len() == texts.len()
                &&& forall|i: int|
                    0 <= i < texts.len() ==> #[trigger] value_text(items[i]) == Some(texts[i])
            },
            None => false,
        },
{
}

} // verus!
