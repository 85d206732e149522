//! Messages exchanged with a device and their wire format.
//!
//! Outbound frames are JSON objects of the shape
//! `{"type":"settings","data":{"presence_timeout":60000}}`; the tag comes
//! first, the payload second, and no whitespace is emitted.

use vstd::prelude::*;
use vstd::string::*;
use crate::json::{member, member_of, parse_json, parsed_json, Json};

verus! {

/// A message that the server pushes to a device.
#[derive(Clone, Copy, Debug, PartialEq, Eq, Structural)]
pub enum WsOutputData {
    /// Baseline configuration: how long presence is held, in milliseconds.
    Settings { presence_timeout: u64 },
    /// The presence state that the device should show.
    Presence { status: bool },
}

/// The presence timeout pushed to a device on every (re)connect, in milliseconds.
pub const DEFAULT_PRESENCE_TIMEOUT_MS: u64 = 60000;

/// The message that establishes a device's configuration when its session opens.
pub fn initial_settings() -> (msg: WsOutputData)
    ensures
        msg == (WsOutputData::Settings { presence_timeout: DEFAULT_PRESENCE_TIMEOUT_MS }),
{
    WsOutputData::Settings { presence_timeout: DEFAULT_PRESENCE_TIMEOUT_MS }
}

/// The character that writes the decimal digit `d`.
pub open spec fn digit(d: nat) -> char
    recommends
        d < 10,
{
    if d == 0 {
        '0'
    } else if d == 1 {
        '1'
    } else if d == 2 {
        '2'
    } else if d == 3 {
        '3'
    } else if d == 4 {
        '4'
    } else if d == 5 {
        '5'
    } else if d == 6 {
        '6'
    } else if d == 7 {
        '7'
    } else if d == 8 {
        '8'
    } else {
        '9'
    }
}

/// The decimal numeral of `n`: most significant digit first, no leading zero
/// except for zero itself.
pub open spec fn decimal(n: nat) -> Seq<char>
    decreases n,
{
    if n < 10 {
        seq![digit(n)]
    } else {
        decimal(n / 10).push(digit(n % 10))
    }
}

/// The text of the outbound frame that carries `msg`.
pub open spec fn encoded(msg: WsOutputData) -> Seq<char> {
    match msg {
        WsOutputData::Settings { presence_timeout } => {
            "{\"type\":\"settings\",\"data\":{\"presence_timeout\":"@ + decimal(
                presence_timeout as nat,
            ) + "}}"@
        },
        WsOutputData::Presence { status } => {
            if status {
                "{\"type\":\"presence\",\"data\":{\"status\":true}}"@
            } else {
                "{\"type\":\"presence\",\"data\":{\"status\":false}}"@
            }
        },
    }
}

fn digit_text(d: u64) -> (text: &'static str)
    requires
        d < 10,
    ensures
        text@ == seq![digit(d as nat)],
{
    proof {
        reveal_strlit("0");
        reveal_strlit("1");
        reveal_strlit("2");
        reveal_strlit("3");
        reveal_strlit("4");
        reveal_strlit("5");
        reveal_strlit("6");
        reveal_strlit("7");
        reveal_strlit("8");
        reveal_strlit("9");
    }
    let text = if d == 0 {
        "0"
    } else if d == 1 {
        "1"
    } else if d == 2 {
        "2"
    } else if d == 3 {
        "3"
    } else if d == 4 {
        "4"
    } else if d == 5 {
        "5"
    } else if d == 6 {
        "6"
    } else if d == 7 {
        "7"
    } else if d == 8 {
        "8"
    } else {
        "9"
    };
    text
}

fn append_decimal(out: &mut String, n: u64)
    ensures
        final(out)@ == old(out)@ + decimal(n as nat),
    decreases n,
{
    if n >= 10 {
        append_decimal(out, n / 10);
    }
    let d: u64 = n % 10;
    out.append(digit_text(d));
}

/// Encodes an outbound message as the text of its frame. Encoding never fails.
pub fn encode(msg: &WsOutputData) -> (frame: String)
    ensures
        frame@ == encoded(*msg),
{
    match msg {
        WsOutputData::Settings { presence_timeout } => {
            let mut frame = String::from_str("{\"type\":\"settings\",\"data\":{\"presence_timeout\":");
            append_decimal(&mut frame, *presence_timeout);
            frame.append("}}");
            frame
        },
        WsOutputData::Presence { status } => {
            if *status {
                String::from_str("{\"type\":\"presence\",\"data\":{\"status\":true}}")
            } else {
                String::from_str("{\"type\":\"presence\",\"data\":{\"status\":false}}")
            }
        },
    }
}

/// An IEEE-754 double, carried as its bit pattern.
#[derive(Clone, Copy, Debug, PartialEq, Eq, Structural)]
pub struct Real {
    pub bits: u64,
}

/// What a device reports.
#[derive(Clone, Copy, Debug, PartialEq, Eq, Structural)]
pub enum WsInnerData {
    /// Presence or motion was detected.
    Move,
    /// A sensor sample: temperature, relative humidity and energy in watt-hours.
    Temp { temp: Real, hum: Real, wh: Real },
}

/// A decoded inbound frame.
#[derive(Clone, Copy, Debug, PartialEq, Eq, Structural)]
pub struct WsInputData {
    pub device_id: i64,
    pub inner: WsInnerData,
}

/// A member of an inbound frame.
#[derive(Clone, Copy, Debug, PartialEq, Eq, Structural)]
pub enum Field {
    DeviceId,
    Type,
    Data,
    Temp,
    Hum,
    Wh,
}

/// Why an inbound frame was not understood.
#[derive(Clone, Copy, Debug, PartialEq, Eq, Structural)]
pub enum DecodeError {
    /// The bytes are not a JSON document.
    Syntax,
    /// The document is not an object.
    NotAnObject,
    /// A required member is absent.
    Missing(Field),
    /// A member is present and has the wrong type.
    Invalid(Field),
    /// The discriminant is a string other than `move` and `temp`.
    UnknownType,
}

/// The number that the member `key` of a sample holds.
pub open spec fn real_of(fields: Seq<(String, Json)>, key: Seq<char>, field: Field) -> Result<
    Real,
    DecodeError,
> {
    match member_of(fields, key) {
        None => Err(DecodeError::Missing(field)),
        Some(Json::Number(_, Some(bits))) => Ok(Real { bits }),
        Some(_) => Err(DecodeError::Invalid(field)),
    }
}

/// The sample that the payload of a `temp` frame holds. Members other than
/// `temp`, `hum` and `wh` are ignored.
pub open spec fn sample_of(fields: Seq<(String, Json)>) -> Result<WsInnerData, DecodeError> {
    match real_of(fields, "temp"@, Field::Temp) {
        Err(e) => Err(e),
        Ok(temp) => match real_of(fields, "hum"@, Field::Hum) {
            Err(e) => Err(e),
            Ok(hum) => match real_of(fields, "wh"@, Field::Wh) {
                Err(e) => Err(e),
                Ok(wh) => Ok(WsInnerData::Temp { temp, hum, wh }),
            },
        },
    }
}

/// What a frame with discriminant `tag` and payload `data` reports. A `move`
/// frame has no payload, or `null`; a `temp` frame has an object.
pub open spec fn payload_of(tag: Seq<char>, data: Option<Json>) -> Result<
    WsInnerData,
    DecodeError,
> {
    if tag == "move"@ {
        match data {
            None => Ok(WsInnerData::Move),
            Some(Json::Null) => Ok(WsInnerData::Move),
            Some(_) => Err(DecodeError::Invalid(Field::Data)),
        }
    } else if tag == "temp"@ {
        match data {
            None => Err(DecodeError::Missing(Field::Data)),
            Some(Json::Object(fields)) => sample_of(fields@),
            Some(_) => Err(DecodeError::Invalid(Field::Data)),
        }
    } else {
        Err(DecodeError::UnknownType)
    }
}

/// The inbound frame that a JSON document is. The document must be an object
/// with an integer `device_id` and a string `type`; the members are examined in
/// the order `device_id`, `type`, `data`, and the first fault is reported.
/// Members that the protocol does not name are ignored.
pub open spec fn frame_of(json: Json) -> Result<WsInputData, DecodeError> {
    match json {
        Json::Object(members) => match member_of(members@, "device_id"@) {
            None => Err(DecodeError::Missing(Field::DeviceId)),
            Some(Json::Number(Some(device_id), _)) => match member_of(members@, "type"@) {
                None => Err(DecodeError::Missing(Field::Type)),
                Some(Json::Text(tag)) => match payload_of(tag@, member_of(members@, "data"@)) {
                    Err(e) => Err(e),
                    Ok(inner) => Ok(WsInputData { device_id, inner }),
                },
                Some(_) => Err(DecodeError::Invalid(Field::Type)),
            },
            Some(_) => Err(DecodeError::Invalid(Field::DeviceId)),
        },
        _ => Err(DecodeError::NotAnObject),
    }
}

/// The inbound frame that `bytes` carry.
pub open spec fn decoded(bytes: Seq<u8>) -> Result<WsInputData, DecodeError> {
    match parsed_json(bytes) {
        None => Err(DecodeError::Syntax),
        Some(json) => frame_of(json),
    }
}

fn real_field(fields: &Vec<(String, Json)>, key: &str, field: Field) -> (found: Result<
    Real,
    DecodeError,
>)
    ensures
        found == real_of(fields@, key@, field),
{
    match member(fields, key) {
        None => Err(DecodeError::Missing(field)),
        Some(Json::Number(_, Some(bits))) => Ok(Real { bits: *bits }),
        Some(_) => Err(DecodeError::Invalid(field)),
    }
}

fn sample(fields: &Vec<(String, Json)>) -> (found: Result<WsInnerData, DecodeError>)
    ensures
        found == sample_of(fields@),
{
    let temp = match real_field(fields, "temp", Field::Temp) {
        Err(e) => { return Err(e); },
        Ok(temp) => temp,
    };
    let hum = match real_field(fields, "hum", Field::Hum) {
        Err(e) => { return Err(e); },
        Ok(hum) => hum,
    };
    let wh = match real_field(fields, "wh", Field::Wh) {
        Err(e) => { return Err(e); },
        Ok(wh) => wh,
    };
    Ok(WsInnerData::Temp { temp, hum, wh })
}

fn payload(tag: &String, data: Option<&Json>) -> (found: Result<WsInnerData, DecodeError>)
    ensures
        found == payload_of(
            tag@,
            match data {
                Some(json) => Some(*json),
                None => None,
            },
        ),
{
    if *tag == String::from_str("move") {
        match data {
            None => Ok(WsInnerData::Move),
            Some(Json::Null) => Ok(WsInnerData::Move),
            Some(_) => Err(DecodeError::Invalid(Field::Data)),
        }
    } else if *tag == String::from_str("temp") {
        match data {
            None => Err(DecodeError::Missing(Field::Data)),
            Some(Json::Object(fields)) => sample(fields),
            Some(_) => Err(DecodeError::Invalid(Field::Data)),
        }
    } else {
        Err(DecodeError::UnknownType)
    }
}

/// Reads an inbound frame out of a parsed JSON document.
pub fn decode_value(json: &Json) -> (frame: Result<WsInputData, DecodeError>)
    ensures
        frame == frame_of(*json),
{
    match json {
        Json::Object(members) => match member(members, "device_id") {
            None => Err(DecodeError::Missing(Field::DeviceId)),
            Some(Json::Number(Some(device_id), _)) => match member(members, "type") {
                None => Err(DecodeError::Missing(Field::Type)),
                Some(Json::Text(tag)) => match payload(tag, member(members, "data")) {
                    Err(e) => Err(e),
                    Ok(inner) => Ok(WsInputData { device_id: *device_id, inner }),
                },
                Some(_) => Err(DecodeError::Invalid(Field::Type)),
            },
            Some(_) => Err(DecodeError::Invalid(Field::DeviceId)),
        },
        _ => Err(DecodeError::NotAnObject),
    }
}

/// Decodes the bytes of an inbound frame. Bytes that are not a JSON document
/// give `DecodeError::Syntax`; a document is read as `decode_value` reads it.
pub fn decode(bytes: &[u8]) -> (frame: Result<WsInputData, DecodeError>)
    ensures
        frame == decoded(bytes@),
{
    match parse_json(bytes) {
        None => Err(DecodeError::Syntax),
        Some(json) => decode_value(&json),
    }
}

} // verus!
