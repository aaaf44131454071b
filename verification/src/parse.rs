//! Verified shape-checking of a transaction-query response: a JSON
//! value is walked field by field and turned into the library's
//! response model. Parsing succeeds exactly when the text is one
//! well-formed JSON document of the expected shape; any missing or
//! mistyped field yields `ParseError` rather than a partial result,
//! and a successful result's every field is pinned to the document's
//! corresponding member.

use vstd::prelude::*;
use vstd::string::StringExecFns;

use crate::errors::CliError;
use crate::jsonval::{
    arr_of, i64_of, json_err_text, json_from_str, json_parsed_of, obj_member_of, str_of, text_of,
    u64_of, value_as_array, value_as_i64, value_as_str, value_as_u64, value_get, value_to_text,
};
use crate::model::{Attribute, Body, Event, Fund, Log, Message, TransactionResponse, Tx};

verus! {

/// The object has a string member under the key.
pub open spec fn string_member_ok(v: serde_json::Value, key: Seq<char>) -> bool {
    &&& obj_member_of(v, key) is Some
    &&& str_of(obj_member_of(v, key)->Some_0) is Some
}

/// The text of the string member under the key.
pub open spec fn string_member(v: serde_json::Value, key: Seq<char>) -> Seq<char> {
    str_of(obj_member_of(v, key)->Some_0)->Some_0
}

/// The object has an array member under the key.
pub open spec fn array_member_ok(v: serde_json::Value, key: Seq<char>) -> bool {
    &&& obj_member_of(v, key) is Some
    &&& arr_of(obj_member_of(v, key)->Some_0) is Some
}

/// The elements of the array member under the key.
pub open spec fn array_member(v: serde_json::Value, key: Seq<char>) -> Seq<serde_json::Value> {
    arr_of(obj_member_of(v, key)->Some_0)->Some_0
}

/// The value is a well-shaped attribute: `{key, value}`, both strings.
pub open spec fn attribute_ok(v: serde_json::Value) -> bool {
    &&& string_member_ok(v, "key"@)
    &&& string_member_ok(v, "value"@)
}

/// The parsed attribute carries the document's key and value.
pub open spec fn attribute_matches(v: serde_json::Value, a: Attribute) -> bool {
    &&& a.key@ == string_member(v, "key"@)
    &&& a.value@ == string_member(v, "value"@)
}

/// The value is a well-shaped event: a string `type` and an array of
/// well-shaped attributes.
pub open spec fn event_ok(v: serde_json::Value) -> bool {
    &&& string_member_ok(v, "type"@)
    &&& array_member_ok(v, "attributes"@)
    &&& forall|k: int|
        0 <= k < array_member(v, "attributes"@).len() ==> attribute_ok(
            #[trigger] array_member(v, "attributes"@)[k],
        )
}

/// The parsed event carries the document's type tag and its
/// attributes, in order.
pub open spec fn event_matches(v: serde_json::Value, e: Event) -> bool {
    &&& e.event_type@ == string_member(v, "type"@)
    &&& e.attributes@.len() == array_member(v, "attributes"@).len()
    &&& forall|k: int|
        0 <= k < e.attributes@.len() ==> attribute_matches(
            array_member(v, "attributes"@)[k],
            #[trigger] e.attributes@[k],
        )
}

/// Every element is a well-shaped event.
pub open spec fn events_ok(elts: Seq<serde_json::Value>) -> bool {
    forall|k: int| 0 <= k < elts.len() ==> event_ok(#[trigger] elts[k])
}

/// The parsed events carry the elements, in order.
pub open spec fn events_match(elts: Seq<serde_json::Value>, evs: Seq<Event>) -> bool {
    &&& evs.len() == elts.len()
    &&& forall|k: int| 0 <= k < elts.len() ==> event_matches(elts[k], #[trigger] evs[k])
}

/// The value is a well-shaped coin amount: `{denom, amount}`, both
/// strings.
pub open spec fn fund_ok(v: serde_json::Value) -> bool {
    &&& string_member_ok(v, "denom"@)
    &&& string_member_ok(v, "amount"@)
}

/// The parsed fund carries the document's denomination and amount.
pub open spec fn fund_matches(v: serde_json::Value, f: Fund) -> bool {
    &&& f.denom@ == string_member(v, "denom"@)
    &&& f.amount@ == string_member(v, "amount"@)
}

/// The value is a well-shaped message: string tags, some `msg`
/// payload, and an array of well-shaped funds.
pub open spec fn message_ok(v: serde_json::Value) -> bool {
    &&& string_member_ok(v, "@type"@)
    &&& string_member_ok(v, "sender"@)
    &&& string_member_ok(v, "contract"@)
    &&& obj_member_of(v, "msg"@) is Some
    &&& array_member_ok(v, "funds"@)
    &&& forall|k: int|
        0 <= k < array_member(v, "funds"@).len() ==> fund_ok(
            #[trigger] array_member(v, "funds"@)[k],
        )
}

/// The parsed message carries the document's fields; the `msg` payload
/// is its compact JSON text.
pub open spec fn message_matches(v: serde_json::Value, m: Message) -> bool {
    &&& m.type_@ == string_member(v, "@type"@)
    &&& m.sender@ == string_member(v, "sender"@)
    &&& m.contract@ == string_member(v, "contract"@)
    &&& m.msg@ == text_of(obj_member_of(v, "msg"@)->Some_0)
    &&& m.funds@.len() == array_member(v, "funds"@).len()
    &&& forall|k: int|
        0 <= k < m.funds@.len() ==> fund_matches(
            array_member(v, "funds"@)[k],
            #[trigger] m.funds@[k],
        )
}

/// The parsed texts are the elements' compact JSON texts, in order.
pub open spec fn texts_match(elts: Seq<serde_json::Value>, texts: Seq<String>) -> bool {
    &&& texts.len() == elts.len()
    &&& forall|k: int| 0 <= k < elts.len() ==> (#[trigger] texts[k])@ == text_of(elts[k])
}

/// The value is a well-shaped transaction body.
pub open spec fn body_ok(v: serde_json::Value) -> bool {
    &&& array_member_ok(v, "messages"@)
    &&& forall|k: int|
        0 <= k < array_member(v, "messages"@).len() ==> message_ok(
            #[trigger] array_member(v, "messages"@)[k],
        )
    &&& string_member_ok(v, "memo"@)
    &&& string_member_ok(v, "timeout_height"@)
    &&& array_member_ok(v, "extension_options"@)
    &&& array_member_ok(v, "non_critical_extension_options"@)
}

/// The parsed body carries the document's messages, memo, timeout
/// height and extension options.
pub open spec fn body_matches(v: serde_json::Value, b: Body) -> bool {
    &&& b.messages@.len() == array_member(v, "messages"@).len()
    &&& forall|k: int|
        0 <= k < b.messages@.len() ==> message_matches(
            array_member(v, "messages"@)[k],
            #[trigger] b.messages@[k],
        )
    &&& b.memo@ == string_member(v, "memo"@)
    &&& b.timeout_height@ == string_member(v, "timeout_height"@)
    &&& texts_match(array_member(v, "extension_options"@), b.extension_options@)
    &&& texts_match(
        array_member(v, "non_critical_extension_options"@),
        b.non_critical_extension_options@,
    )
}

/// The value is a well-shaped wrapped transaction.
pub open spec fn tx_ok(v: serde_json::Value) -> bool {
    &&& string_member_ok(v, "@type"@)
    &&& obj_member_of(v, "body"@) is Some
    &&& body_ok(obj_member_of(v, "body"@)->Some_0)
}

/// The parsed transaction carries the document's type tag and body.
pub open spec fn tx_matches(v: serde_json::Value, t: Tx) -> bool {
    &&& t.type_@ == string_member(v, "@type"@)
    &&& body_matches(obj_member_of(v, "body"@)->Some_0, t.body)
}

/// The value is a well-shaped per-message log.
pub open spec fn log_ok(v: serde_json::Value) -> bool {
    &&& obj_member_of(v, "msg_index"@) is Some
    &&& u64_of(obj_member_of(v, "msg_index"@)->Some_0) is Some
    &&& string_member_ok(v, "log"@)
    &&& array_member_ok(v, "events"@)
    &&& events_ok(array_member(v, "events"@))
}

/// The parsed log carries the document's index, text and events.
pub open spec fn log_matches(v: serde_json::Value, l: Log) -> bool {
    &&& l.msg_index == u64_of(obj_member_of(v, "msg_index"@)->Some_0)->Some_0
    &&& l.log@ == string_member(v, "log"@)
    &&& events_match(array_member(v, "events"@), l.events@)
}

/// The value is a well-shaped transaction-query response.
pub open spec fn response_shape_ok(v: serde_json::Value) -> bool {
    &&& obj_member_of(v, "code"@) is Some
    &&& i64_of(obj_member_of(v, "code"@)->Some_0) is Some
    &&& string_member_ok(v, "codespace"@)
    &&& string_member_ok(v, "data"@)
    &&& array_member_ok(v, "events"@)
    &&& events_ok(array_member(v, "events"@))
    &&& obj_member_of(v, "tx"@) is Some
    &&& tx_ok(obj_member_of(v, "tx"@)->Some_0)
    &&& array_member_ok(v, "logs"@)
    &&& forall|k: int|
        0 <= k < array_member(v, "logs"@).len() ==> log_ok(#[trigger] array_member(v, "logs"@)[k])
}

/// The parsed response carries the document's every field.
pub open spec fn response_shape_matches(v: serde_json::Value, resp: TransactionResponse) -> bool {
    &&& resp.code == i64_of(obj_member_of(v, "code"@)->Some_0)->Some_0
    &&& resp.codespace@ == string_member(v, "codespace"@)
    &&& resp.data@ == string_member(v, "data"@)
    &&& events_match(array_member(v, "events"@), resp.events@)
    &&& tx_matches(obj_member_of(v, "tx"@)->Some_0, resp.tx)
    &&& resp.logs@.len() == array_member(v, "logs"@).len()
    &&& forall|k: int|
        0 <= k < resp.logs@.len() ==> log_matches(
            array_member(v, "logs"@)[k],
            #[trigger] resp.logs@[k],
        )
}

/// The text is one well-formed JSON document of the response shape.
pub open spec fn response_ok(s: Seq<char>) -> bool {
    &&& json_parsed_of(s) is Some
    &&& response_shape_ok(json_parsed_of(s)->Some_0)
}

/// The parsed response carries every field of the document the text
/// parses to.
pub open spec fn response_matches(s: Seq<char>, resp: TransactionResponse) -> bool {
    &&& json_parsed_of(s) is Some
    &&& response_shape_matches(json_parsed_of(s)->Some_0, resp)
}

/// The error for a field that is absent or of the wrong kind.
fn missing_field(field: &str) -> (r: CliError)
    ensures
        r matches CliError::ParseError(_),
{
    let mut m = String::from_str("missing or invalid field: ");
    m.append(field);
    CliError::ParseError(m)
}

/// A required string member of a JSON object.
fn parse_string_field(v: &serde_json::Value, key: &str) -> (r: Result<String, CliError>)
    ensures
        r is Ok <==> string_member_ok(*v, key@),
        r matches Ok(s) ==> s@ == string_member(*v, key@),
        r matches Err(e) ==> e matches CliError::ParseError(_),
{
    match value_get(v, key) {
        Some(f) => match value_as_str(f) {
            Some(s) => Ok(String::from_str(s)),
            None => Err(missing_field(key)),
        },
        None => Err(missing_field(key)),
    }
}

/// A required array member of a JSON object.
fn parse_array_field<'a>(v: &'a serde_json::Value, key: &str) -> (r: Result<
    &'a Vec<serde_json::Value>,
    CliError,
>)
    ensures
        r is Ok <==> array_member_ok(*v, key@),
        r matches Ok(a) ==> a@ == array_member(*v, key@),
        r matches Err(e) ==> e matches CliError::ParseError(_),
{
    match value_get(v, key) {
        Some(f) => match value_as_array(f) {
            Some(a) => Ok(a),
            None => Err(missing_field(key)),
        },
        None => Err(missing_field(key)),
    }
}

/// One event attribute: `{key, value}`, both strings.
fn parse_attribute(v: &serde_json::Value) -> (r: Result<Attribute, CliError>)
    ensures
        r is Ok <==> attribute_ok(*v),
        r matches Ok(a) ==> attribute_matches(*v, a),
        r matches Err(e) ==> e matches CliError::ParseError(_),
{
    let key = match parse_string_field(v, "key") {
        Ok(s) => s,
        Err(e) => {
            return Err(e);
        },
    };
    let value = match parse_string_field(v, "value") {
        Ok(s) => s,
        Err(e) => {
            return Err(e);
        },
    };
    Ok(Attribute { key, value })
}

/// One event: its type tag and ordered attribute list.
#[verifier::loop_isolation(false)]
fn parse_event(v: &serde_json::Value) -> (r: Result<Event, CliError>)
    ensures
        r is Ok <==> event_ok(*v),
        r matches Ok(e) ==> event_matches(*v, e),
        r matches Err(e) ==> e matches CliError::ParseError(_),
{
    let event_type = match parse_string_field(v, "type") {
        Ok(s) => s,
        Err(e) => {
            return Err(e);
        },
    };
    let raw_attrs = match parse_array_field(v, "attributes") {
        Ok(a) => a,
        Err(e) => {
            return Err(e);
        },
    };
    let mut attributes: Vec<Attribute> = Vec::new();
    let mut i: usize = 0;
    while i < raw_attrs.len()
        invariant
            i <= raw_attrs@.len(),
            attributes@.len() == i as int,
            forall|k: int| 0 <= k < i as int ==> attribute_ok(#[trigger] raw_attrs@[k]),
            forall|k: int|
                0 <= k < i as int ==> attribute_matches(
                    raw_attrs@[k],
                    #[trigger] attributes@[k],
                ),
        decreases raw_attrs@.len() - i,
    {
        match parse_attribute(&raw_attrs[i]) {
            Ok(a) => attributes.push(a),
            Err(e) => {
                proof {
                    assert(!attribute_ok(array_member(*v, "attributes"@)[i as int]));
                }
                return Err(e);
            },
        }
        i = i + 1;
    }
    Ok(Event { event_type, attributes })
}

/// An ordered list of events.
#[verifier::loop_isolation(false)]
fn parse_events(arr: &Vec<serde_json::Value>) -> (r: Result<Vec<Event>, CliError>)
    ensures
        r is Ok <==> events_ok(arr@),
        r matches Ok(evs) ==> events_match(arr@, evs@),
        r matches Err(e) ==> e matches CliError::ParseError(_),
{
    let mut events: Vec<Event> = Vec::new();
    let mut i: usize = 0;
    while i < arr.len()
        invariant
            i <= arr@.len(),
            events@.len() == i as int,
            forall|k: int| 0 <= k < i as int ==> event_ok(#[trigger] arr@[k]),
            forall|k: int| 0 <= k < i as int ==> event_matches(arr@[k], #[trigger] events@[k]),
        decreases arr@.len() - i,
    {
        match parse_event(&arr[i]) {
            Ok(ev) => events.push(ev),
            Err(e) => {
                return Err(e);
            },
        }
        i = i + 1;
    }
    Ok(events)
}

/// One coin amount: `{denom, amount}`, both strings.
fn parse_fund(v: &serde_json::Value) -> (r: Result<Fund, CliError>)
    ensures
        r is Ok <==> fund_ok(*v),
        r matches Ok(f) ==> fund_matches(*v, f),
        r matches Err(e) ==> e matches CliError::ParseError(_),
{
    let denom = match parse_string_field(v, "denom") {
        Ok(s) => s,
        Err(e) => {
            return Err(e);
        },
    };
    let amount = match parse_string_field(v, "amount") {
        Ok(s) => s,
        Err(e) => {
            return Err(e);
        },
    };
    Ok(Fund { denom, amount })
}

/// One message of the transaction body; its `msg` payload, arbitrary
/// JSON, is kept as its JSON text.
#[verifier::loop_isolation(false)]
fn parse_message(v: &serde_json::Value) -> (r: Result<Message, CliError>)
    ensures
        r is Ok <==> message_ok(*v),
        r matches Ok(m) ==> message_matches(*v, m),
        r matches Err(e) ==> e matches CliError::ParseError(_),
{
    let type_ = match parse_string_field(v, "@type") {
        Ok(s) => s,
        Err(e) => {
            return Err(e);
        },
    };
    let sender = match parse_string_field(v, "sender") {
        Ok(s) => s,
        Err(e) => {
            return Err(e);
        },
    };
    let contract = match parse_string_field(v, "contract") {
        Ok(s) => s,
        Err(e) => {
            return Err(e);
        },
    };
    let msg = match value_get(v, "msg") {
        Some(m) => value_to_text(m),
        None => {
            return Err(missing_field("msg"));
        },
    };
    let raw_funds = match parse_array_field(v, "funds") {
        Ok(a) => a,
        Err(e) => {
            return Err(e);
        },
    };
    let mut funds: Vec<Fund> = Vec::new();
    let mut i: usize = 0;
    while i < raw_funds.len()
        invariant
            i <= raw_funds@.len(),
            funds@.len() == i as int,
            forall|k: int| 0 <= k < i as int ==> fund_ok(#[trigger] raw_funds@[k]),
            forall|k: int| 0 <= k < i as int ==> fund_matches(raw_funds@[k], #[trigger] funds@[k]),
        decreases raw_funds@.len() - i,
    {
        match parse_fund(&raw_funds[i]) {
            Ok(f) => funds.push(f),
            Err(e) => {
                proof {
                    assert(!fund_ok(array_member(*v, "funds"@)[i as int]));
                }
                return Err(e);
            },
        }
        i = i + 1;
    }
    Ok(Message { type_, sender, contract, msg, funds })
}

/// A required array member whose elements are kept as JSON text.
#[verifier::loop_isolation(false)]
fn parse_text_array(v: &serde_json::Value, key: &str) -> (r: Result<Vec<String>, CliError>)
    ensures
        r is Ok <==> array_member_ok(*v, key@),
        r matches Ok(t) ==> texts_match(array_member(*v, key@), t@),
        r matches Err(e) ==> e matches CliError::ParseError(_),
{
    let raw = match parse_array_field(v, key) {
        Ok(a) => a,
        Err(e) => {
            return Err(e);
        },
    };
    let mut texts: Vec<String> = Vec::new();
    let mut i: usize = 0;
    while i < raw.len()
        invariant
            i <= raw@.len(),
            texts@.len() == i as int,
            forall|k: int| 0 <= k < i as int ==> (#[trigger] texts@[k])@ == text_of(raw@[k]),
        decreases raw@.len() - i,
    {
        texts.push(value_to_text(&raw[i]));
        i = i + 1;
    }
    Ok(texts)
}

/// The transaction body: message list, memo and extension options.
#[verifier::loop_isolation(false)]
fn parse_body(v: &serde_json::Value) -> (r: Result<Body, CliError>)
    ensures
        r is Ok <==> body_ok(*v),
        r matches Ok(b) ==> body_matches(*v, b),
        r matches Err(e) ==> e matches CliError::ParseError(_),
{
    let raw_messages = match parse_array_field(v, "messages") {
        Ok(a) => a,
        Err(e) => {
            return Err(e);
        },
    };
    let mut messages: Vec<Message> = Vec::new();
    let mut i: usize = 0;
    while i < raw_messages.len()
        invariant
            i <= raw_messages@.len(),
            messages@.len() == i as int,
            forall|k: int| 0 <= k < i as int ==> message_ok(#[trigger] raw_messages@[k]),
            forall|k: int|
                0 <= k < i as int ==> message_matches(
                    raw_messages@[k],
                    #[trigger] messages@[k],
                ),
        decreases raw_messages@.len() - i,
    {
        match parse_message(&raw_messages[i]) {
            Ok(m) => messages.push(m),
            Err(e) => {
                proof {
                    assert(!message_ok(array_member(*v, "messages"@)[i as int]));
                }
                return Err(e);
            },
        }
        i = i + 1;
    }
    let memo = match parse_string_field(v, "memo") {
        Ok(s) => s,
        Err(e) => {
            return Err(e);
        },
    };
    let timeout_height = match parse_string_field(v, "timeout_height") {
        Ok(s) => s,
        Err(e) => {
            return Err(e);
        },
    };
    let extension_options = match parse_text_array(v, "extension_options") {
        Ok(t) => t,
        Err(e) => {
            return Err(e);
        },
    };
    let non_critical_extension_options = match parse_text_array(
        v,
        "non_critical_extension_options",
    ) {
        Ok(t) => t,
        Err(e) => {
            return Err(e);
        },
    };
    Ok(Body { messages, memo, timeout_height, extension_options, non_critical_extension_options })
}

/// The wrapped transaction: its type tag and body.
fn parse_tx(v: &serde_json::Value) -> (r: Result<Tx, CliError>)
    ensures
        r is Ok <==> tx_ok(*v),
        r matches Ok(t) ==> tx_matches(*v, t),
        r matches Err(e) ==> e matches CliError::ParseError(_),
{
    let type_ = match parse_string_field(v, "@type") {
        Ok(s) => s,
        Err(e) => {
            return Err(e);
        },
    };
    let body = match value_get(v, "body") {
        Some(b) => match parse_body(b) {
            Ok(b) => b,
            Err(e) => {
                return Err(e);
            },
        },
        None => {
            return Err(missing_field("body"));
        },
    };
    Ok(Tx { type_, body })
}

/// One per-message log: its index, raw log text and events.
fn parse_log(v: &serde_json::Value) -> (r: Result<Log, CliError>)
    ensures
        r is Ok <==> log_ok(*v),
        r matches Ok(l) ==> log_matches(*v, l),
        r matches Err(e) ==> e matches CliError::ParseError(_),
{
    let msg_index = match value_get(v, "msg_index") {
        Some(m) => match value_as_u64(m) {
            Some(n) => n,
            None => {
                return Err(missing_field("msg_index"));
            },
        },
        None => {
            return Err(missing_field("msg_index"));
        },
    };
    let log = match parse_string_field(v, "log") {
        Ok(s) => s,
        Err(e) => {
            return Err(e);
        },
    };
    let raw_events = match parse_array_field(v, "events") {
        Ok(a) => a,
        Err(e) => {
            return Err(e);
        },
    };
    let events = match parse_events(raw_events) {
        Ok(ev) => ev,
        Err(e) => {
            return Err(e);
        },
    };
    Ok(Log { msg_index, log, events })
}

/// Parse raw daemon output into a transaction response. Succeeds
/// exactly when the text is one well-formed JSON document of the
/// expected shape, and then every field of the result is the
/// document's; fails with `ParseError`, and with no other error,
/// otherwise.
#[verifier::loop_isolation(false)]
pub fn parse_response(text: &str) -> (r: Result<TransactionResponse, CliError>)
    ensures
        r is Ok <==> response_ok(text@),
        r matches Ok(resp) ==> response_matches(text@, resp),
        r matches Err(e) ==> e matches CliError::ParseError(_),
{
    let root = match json_from_str(text) {
        Ok(v) => v,
        Err(e) => {
            return Err(CliError::ParseError(json_err_text(&e)));
        },
    };
    let code = match value_get(&root, "code") {
        Some(c) => match value_as_i64(c) {
            Some(n) => n,
            None => {
                return Err(missing_field("code"));
            },
        },
        None => {
            return Err(missing_field("code"));
        },
    };
    let codespace = match parse_string_field(&root, "codespace") {
        Ok(s) => s,
        Err(e) => {
            return Err(e);
        },
    };
    let data = match parse_string_field(&root, "data") {
        Ok(s) => s,
        Err(e) => {
            return Err(e);
        },
    };
    let raw_events = match parse_array_field(&root, "events") {
        Ok(a) => a,
        Err(e) => {
            return Err(e);
        },
    };
    let events = match parse_events(raw_events) {
        Ok(ev) => ev,
        Err(e) => {
            return Err(e);
        },
    };
    let tx = match value_get(&root, "tx") {
        Some(t) => match parse_tx(t) {
            Ok(t) => t,
            Err(e) => {
                return Err(e);
            },
        },
        None => {
            return Err(missing_field("tx"));
        },
    };
    let raw_logs = match parse_array_field(&root, "logs") {
        Ok(a) => a,
        Err(e) => {
            return Err(e);
        },
    };
    let mut logs: Vec<Log> = Vec::new();
    let mut i: usize = 0;
    while i < raw_logs.len()
        invariant
            i <= raw_logs@.len(),
            logs@.len() == i as int,
            forall|k: int| 0 <= k < i as int ==> log_ok(#[trigger] raw_logs@[k]),
            forall|k: int| 0 <= k < i as int ==> log_matches(raw_logs@[k], #[trigger] logs@[k]),
        decreases raw_logs@.len() - i,
    {
        match parse_log(&raw_logs[i]) {
            Ok(l) => logs.push(l),
            Err(e) => {
                proof {
                    assert(!log_ok(array_member(root, "logs"@)[i as int]));
                }
                return Err(e);
            },
        }
        i = i + 1;
    }
    Ok(TransactionResponse { code, codespace, data, events, tx, logs })
}

} // verus!
