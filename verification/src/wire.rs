//! The JSON form in which session states and operation results leave the
//! dispatcher.
//!
//! Strings are encoded by `serde_json`; the objects and arrays around them
//! are put together here.
use crate::response::{OperationResult, Payload, PayloadModel, ResultModel};
use crate::session::SessionState;
use crate::text::texts;
use vstd::prelude::*;
use vstd::string::*;
use vstd::utf8::encode_utf8;

verus! {

#[verifier::external_type_specification]
#[verifier::external_body]
pub struct ExJsonError(serde_json::Error);

/// A value could not be put into JSON.
#[derive(Clone, Copy, Debug, PartialEq, Eq, Structural)]
pub enum WireError {
    /// The encoder refused a string.
    Unencodable,
}

/// The JSON string literal, quotes and escapes included, that
/// `serde_json::to_vec` writes for `text`.
pub uninterp spec fn json_string(text: Seq<char>) -> Seq<u8>;

/// Calls `serde_json::to_vec` on a string slice. It succeeds: a string is
/// written as it is, escaped, into a byte vector, and the only failure on
/// that way would be the vector's as a writer. What it returns depends on the
/// text alone.
#[verifier::external_body]
fn encode_string(text: &str) -> (r: Result<Vec<u8>, serde_json::Error>)
    ensures
        r is Ok,
        r matches Ok(bytes) ==> bytes@ == json_string(text@),
{
    serde_json::to_vec(text)
}

/// The contents of a list of byte strings, in order.
pub open spec fn contents(items: Seq<Vec<u8>>) -> Seq<Seq<u8>> {
    Seq::new(items.len(), |i: int| items[i]@)
}

/// The items with a comma between each two of them.
pub open spec fn joined(items: Seq<Seq<u8>>) -> Seq<u8>
    decreases items.len(),
{
    if items.len() == 0 {
        Seq::empty()
    } else if items.len() == 1 {
        items[0]
    } else {
        joined(items.drop_last()) + encode_utf8(","@) + items.last()
    }
}

/// The JSON array of values that are encoded already.
pub open spec fn array_json(items: Seq<Seq<u8>>) -> Seq<u8> {
    encode_utf8("["@) + joined(items) + encode_utf8("]"@)
}

/// The encoded value, or `null` in its place.
pub open spec fn or_null(value: Option<Seq<u8>>) -> Seq<u8> {
    match value {
        Some(bytes) => bytes,
        None => encode_utf8("null"@),
    }
}

/// The JSON object of a session state whose permissions are encoded already.
pub open spec fn state_object(permissions: Seq<u8>) -> Seq<u8> {
    encode_utf8("{\"permissions\":"@) + permissions + encode_utf8("}"@)
}

/// The JSON object of an operation result whose data and error are encoded
/// already: the fields `success`, `data` and `error`, in this order.
pub open spec fn result_object(
    success: bool,
    data: Option<Seq<u8>>,
    error: Option<Seq<u8>>,
) -> Seq<u8> {
    encode_utf8("{\"success\":"@) + encode_utf8(
        if success {
            "true"@
        } else {
            "false"@
        },
    ) + encode_utf8(",\"data\":"@) + or_null(data) + encode_utf8(",\"error\":"@) + or_null(error)
        + encode_utf8("}"@)
}

/// The JSON array of the strings `names`.
pub open spec fn json_names(names: Seq<Seq<char>>) -> Seq<u8> {
    array_json(Seq::new(names.len(), |i: int| json_string(names[i])))
}

/// The JSON object of a session state with the labels `labels`.
pub open spec fn state_json(labels: Seq<Seq<char>>) -> Seq<u8> {
    state_object(json_names(labels))
}

/// The JSON value of the data of a result, where it has any.
pub open spec fn data_json(data: Option<PayloadModel>) -> Option<Seq<u8>> {
    match data {
        None => None,
        Some(PayloadModel::Text(text)) => Some(json_string(text)),
        Some(PayloadModel::Names(names)) => Some(json_names(names)),
    }
}

/// The JSON value of the error of a result, where it has one.
pub open spec fn error_json(error: Option<Seq<char>>) -> Option<Seq<u8>> {
    match error {
        None => None,
        Some(message) => Some(json_string(message)),
    }
}

/// The JSON object of an operation result.
pub open spec fn result_json(result: ResultModel) -> Seq<u8> {
    result_object(result.success, data_json(result.data), error_json(result.error))
}

fn put(out: &mut Vec<u8>, text: &str)
    ensures
        final(out)@ == old(out)@ + encode_utf8(text@),
{
    let bytes = text.as_bytes();
    let mut i: usize = 0;
    while i < bytes.len()
        invariant
            i <= bytes@.len(),
            bytes@ == encode_utf8(text@),
            out@ == old(out)@ + bytes@.take(i as int),
        decreases bytes@.len() - i,
    {
        out.push(bytes[i]);
        assert(bytes@.take(i + 1) == bytes@.take(i as int).push(bytes@[i as int]));
        i = i + 1;
    }
    assert(bytes@.take(bytes@.len() as int) == bytes@);
}

fn put_bytes(out: &mut Vec<u8>, bytes: &Vec<u8>)
    ensures
        final(out)@ == old(out)@ + bytes@,
{
    let mut i: usize = 0;
    while i < bytes.len()
        invariant
            i <= bytes@.len(),
            out@ == old(out)@ + bytes@.take(i as int),
        decreases bytes@.len() - i,
    {
        out.push(bytes[i]);
        assert(bytes@.take(i + 1) == bytes@.take(i as int).push(bytes@[i as int]));
        i = i + 1;
    }
    assert(bytes@.take(bytes@.len() as int) == bytes@);
}

fn put_or_null(out: &mut Vec<u8>, value: &Option<Vec<u8>>)
    ensures
        final(out)@ == old(out)@ + or_null(
            match value {
                Some(bytes) => Some(bytes@),
                None => None,
            },
        ),
{
    match value {
        Some(bytes) => put_bytes(out, bytes),
        None => put(out, "null"),
    }
}

/// Puts encoded values into a JSON array.
pub fn frame_array(items: &Vec<Vec<u8>>) -> (r: Vec<u8>)
    ensures
        r@ == array_json(contents(items@)),
{
    let ghost all = contents(items@);
    let mut out: Vec<u8> = Vec::new();
    put(&mut out, "[");
    let ghost opened = out@;
    let mut i: usize = 0;
    while i < items.len()
        invariant
            i <= items@.len(),
            all == contents(items@),
            opened == encode_utf8("["@),
            out@ == opened + joined(all.take(i as int)),
        decreases items@.len() - i,
    {
        if i > 0 {
            put(&mut out, ",");
        }
        put_bytes(&mut out, &items[i]);
        proof {
            let upto = all.take(i + 1);
            assert(upto.drop_last() == all.take(i as int));
            assert(upto.last() == items@[i as int]@);
            if i == 0 {
                assert(joined(all.take(0)) == Seq::<u8>::empty());
            }
            assert(out@ == opened + joined(upto));
        }
        i = i + 1;
    }
    assert(all.take(items@.len() as int) == all);
    put(&mut out, "]");
    out
}

/// Puts encoded permissions into the JSON object of a session state.
pub fn frame_state(permissions: &Vec<u8>) -> (r: Vec<u8>)
    ensures
        r@ == state_object(permissions@),
{
    let mut out: Vec<u8> = Vec::new();
    put(&mut out, "{\"permissions\":");
    put_bytes(&mut out, permissions);
    put(&mut out, "}");
    out
}

/// Puts the encoded data and error of an operation result into its JSON
/// object.
pub fn frame_result(success: bool, data: &Option<Vec<u8>>, error: &Option<Vec<u8>>) -> (r: Vec<
    u8,
>)
    ensures
        r@ == result_object(
            success,
            match data {
                Some(bytes) => Some(bytes@),
                None => None,
            },
            match error {
                Some(bytes) => Some(bytes@),
                None => None,
            },
        ),
{
    let mut out: Vec<u8> = Vec::new();
    put(&mut out, "{\"success\":");
    if success {
        put(&mut out, "true");
    } else {
        put(&mut out, "false");
    }
    put(&mut out, ",\"data\":");
    put_or_null(&mut out, data);
    put(&mut out, ",\"error\":");
    put_or_null(&mut out, error);
    put(&mut out, "}");
    out
}

fn encode_text(text: &str) -> (r: Result<Vec<u8>, WireError>)
    ensures
        r is Ok,
        r matches Ok(bytes) ==> bytes@ == json_string(text@),
{
    let answer = encode_string(text);
    text_outcome(answer)
}

/// What becomes of the encoder's answer: the bytes it wrote, as they are,
/// or the one error that stands for every refusal.
pub fn text_outcome(answer: Result<Vec<u8>, serde_json::Error>) -> (r: Result<Vec<u8>, WireError>)
    ensures
        match answer {
            Ok(bytes) => r == Ok::<Vec<u8>, WireError>(bytes),
            Err(_) => r == Err::<Vec<u8>, WireError>(WireError::Unencodable),
        },
{
    match answer {
        Ok(bytes) => Ok(bytes),
        Err(_) => Err(WireError::Unencodable),
    }
}

/// The JSON array of a list of strings. It does not fail.
pub fn encode_names(names: &Vec<String>) -> (r: Result<Vec<u8>, WireError>)
    ensures
        r is Ok,
        r matches Ok(bytes) ==> bytes@ == json_names(texts(names@)),
{
    let mut items: Vec<Vec<u8>> = Vec::new();
    let mut i: usize = 0;
    while i < names.len()
        invariant
            i <= names@.len(),
            items@.len() == i,
            forall|j: int| 0 <= j < i ==> (#[trigger] items@[j])@ == json_string(names@[j]@),
        decreases names@.len() - i,
    {
        match encode_text(names[i].as_str()) {
            Ok(bytes) => {
                items.push(bytes);
            },
            Err(e) => {
                return Err(e);
            },
        }
        i = i + 1;
    }
    assert(contents(items@) =~= Seq::new(
        texts(names@).len(),
        |i: int| json_string(texts(names@)[i]),
    ));
    Ok(frame_array(&items))
}

/// The JSON form of a session state. It does not fail.
pub fn encode_state(state: &SessionState) -> (r: Result<Vec<u8>, WireError>)
    ensures
        r is Ok,
        r matches Ok(bytes) ==> bytes@ == state_json(state@),
{
    match encode_names(&state.permissions) {
        Ok(permissions) => Ok(frame_state(&permissions)),
        Err(e) => Err(e),
    }
}

/// The JSON form of an operation result. It does not fail.
pub fn encode_result(result: &OperationResult) -> (r: Result<Vec<u8>, WireError>)
    ensures
        r is Ok,
        r matches Ok(bytes) ==> bytes@ == result_json(result@),
{
    let data: Option<Vec<u8>> = match &result.data {
        None => None,
        Some(Payload::Text(text)) => match encode_text(text.as_str()) {
            Ok(bytes) => Some(bytes),
            Err(e) => {
                return Err(e);
            },
        },
        Some(Payload::Names(names)) => match encode_names(names) {
            Ok(bytes) => Some(bytes),
            Err(e) => {
                return Err(e);
            },
        },
    };
    let error: Option<Vec<u8>> = match &result.error {
        None => None,
        Some(message) => match encode_text(message.as_str()) {
            Ok(bytes) => Some(bytes),
            Err(e) => {
                return Err(e);
            },
        },
    };
    Ok(frame_result(result.success, &data, &error))
}

} // verus!
