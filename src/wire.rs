use vstd::prelude::*;

use crate::chat::{OpenAIChatFunction, OpenAIChatMessage, OpenAIChatRole};
use crate::images::{ImgFormat, ImgSize, ImgType};

verus! {

/// Declares `serde_json::Value` so that arbitrary JSON (function parameters,
/// logprobs, ...) can be carried through; nothing is assumed of its contents.
#[verifier::external_type_specification]
#[verifier::external_body]
pub struct ExJsonValue(serde_json::Value);

/// A non-negative decimal with three fractional digits, stored as thousandths
/// (`1.0` is `Decimal { thousandths: 1000 }`).
#[derive(Debug, Clone, Copy, PartialEq, Eq, Structural)]
pub struct Decimal {
    pub thousandths: u32,
}

impl Decimal {
    pub fn from_thousandths(thousandths: u32) -> (r: Decimal)
        ensures
            r.thousandths == thousandths,
    {
        Decimal { thousandths }
    }

    pub fn one() -> (r: Decimal)
        ensures
            r.thousandths == 1000,
    {
        Decimal { thousandths: 1000 }
    }
}

/// The value of one field of a JSON request body.
#[derive(Debug)]
pub enum FieldValue {
    Text(String),
    Texts(Vec<String>),
    Unsigned(u64),
    Signed(i64),
    Flag(bool),
    Fraction(Decimal),
    Json(serde_json::Value),
    Role(OpenAIChatRole),
    Messages(Vec<OpenAIChatMessage>),
    Functions(Vec<OpenAIChatFunction>),
    Bias(Vec<(String, i8)>),
    Size(ImgSize),
    Format(ImgFormat),
}

/// One key of a JSON request body. A body is a sequence of these, in order;
/// an option that is unset has no entry at all (there is no null value).
#[derive(Debug)]
pub struct BodyField {
    pub name: &'static str,
    pub value: FieldValue,
}

pub open spec fn field(name: &'static str, value: FieldValue) -> BodyField {
    BodyField { name, value }
}

/// The entry for an optional field: one entry when set, none when unset.
pub open spec fn opt_field(name: &'static str, value: Option<FieldValue>) -> Seq<BodyField> {
    match value {
        Some(v) => seq![field(name, v)],
        None => seq![],
    }
}

/// The keys of a body, in order.
pub open spec fn field_names(body: Seq<BodyField>) -> Seq<&'static str> {
    body.map_values(|f: BodyField| f.name)
}

pub(crate) fn push_field(body: &mut Vec<BodyField>, name: &'static str, value: FieldValue)
    ensures
        final(body)@ == old(body)@.push(field(name, value)),
{
    body.push(BodyField { name, value });
}

pub(crate) fn push_opt_field(body: &mut Vec<BodyField>, name: &'static str, value: Option<FieldValue>)
    ensures
        final(body)@ == old(body)@ + opt_field(name, value),
{
    match value {
        Some(v) => {
            body.push(BodyField { name, value: v });
        },
        None => {
            assert(old(body)@ + opt_field(name, value) =~= old(body)@);
        },
    }
}

/// The most stop sequences a request may carry.
pub const MAX_STOP_SEQUENCES: usize = 4;

/// Why an options value cannot be sent; found before any network call.
#[derive(Debug, Clone, Copy, PartialEq, Eq, Structural)]
pub enum ValidationError {
    EmptyModel,
    EmptyPrompt,
    EmptyMessages,
    EmptyInput,
    EmptyInstruction,
    EmptyImage,
    TooManyStopSequences,
}

/// `Ok` when the text is not empty, else the given error.
pub open spec fn text_check(s: Seq<char>, e: ValidationError) -> Result<(), ValidationError> {
    if s.len() == 0 {
        Err(e)
    } else {
        Ok(())
    }
}

/// At most `MAX_STOP_SEQUENCES` stop sequences are allowed.
pub open spec fn stop_check(stop: Option<Vec<String>>) -> Result<(), ValidationError> {
    match stop {
        Some(v) => if v@.len() > MAX_STOP_SEQUENCES {
            Err(ValidationError::TooManyStopSequences)
        } else {
            Ok(())
        },
        None => Ok(()),
    }
}

/// The first error of two checks made in order.
pub open spec fn first_error(
    a: Result<(), ValidationError>,
    b: Result<(), ValidationError>,
) -> Result<(), ValidationError> {
    match a {
        Err(e) => Err(e),
        Ok(_) => b,
    }
}

pub(crate) fn check_text(s: &String, e: ValidationError) -> (r: Result<(), ValidationError>)
    ensures
        r == text_check(s@, e),
{
    if s.as_str().is_empty() {
        Err(e)
    } else {
        Ok(())
    }
}

pub(crate) fn check_stop(stop: &Option<Vec<String>>) -> (r: Result<(), ValidationError>)
    ensures
        r == stop_check(*stop),
{
    match stop {
        Some(v) => if v.len() > MAX_STOP_SEQUENCES {
            Err(ValidationError::TooManyStopSequences)
        } else {
            Ok(())
        },
        None => Ok(()),
    }
}

pub open spec fn text_entry(v: Option<String>) -> Option<FieldValue> {
    match v {
        Some(x) => Some(FieldValue::Text(x)),
        None => None,
    }
}

pub(crate) fn to_text_entry(v: Option<String>) -> (r: Option<FieldValue>)
    ensures
        r == text_entry(v),
{
    match v {
        Some(x) => Some(FieldValue::Text(x)),
        None => None,
    }
}

pub open spec fn unsigned_entry(v: Option<u64>) -> Option<FieldValue> {
    match v {
        Some(x) => Some(FieldValue::Unsigned(x)),
        None => None,
    }
}

pub(crate) fn to_unsigned_entry(v: Option<u64>) -> (r: Option<FieldValue>)
    ensures
        r == unsigned_entry(v),
{
    match v {
        Some(x) => Some(FieldValue::Unsigned(x)),
        None => None,
    }
}

pub open spec fn signed_entry(v: Option<i8>) -> Option<FieldValue> {
    match v {
        Some(x) => Some(FieldValue::Signed(x as i64)),
        None => None,
    }
}

pub(crate) fn to_signed_entry(v: Option<i8>) -> (r: Option<FieldValue>)
    ensures
        r == signed_entry(v),
{
    match v {
        Some(x) => Some(FieldValue::Signed(x as i64)),
        None => None,
    }
}

pub open spec fn flag_entry(v: Option<bool>) -> Option<FieldValue> {
    match v {
        Some(x) => Some(FieldValue::Flag(x)),
        None => None,
    }
}

pub(crate) fn to_flag_entry(v: Option<bool>) -> (r: Option<FieldValue>)
    ensures
        r == flag_entry(v),
{
    match v {
        Some(x) => Some(FieldValue::Flag(x)),
        None => None,
    }
}

pub open spec fn fraction_entry(v: Option<Decimal>) -> Option<FieldValue> {
    match v {
        Some(x) => Some(FieldValue::Fraction(x)),
        None => None,
    }
}

pub(crate) fn to_fraction_entry(v: Option<Decimal>) -> (r: Option<FieldValue>)
    ensures
        r == fraction_entry(v),
{
    match v {
        Some(x) => Some(FieldValue::Fraction(x)),
        None => None,
    }
}

pub open spec fn json_entry(v: Option<serde_json::Value>) -> Option<FieldValue> {
    match v {
        Some(x) => Some(FieldValue::Json(x)),
        None => None,
    }
}

pub(crate) fn to_json_entry(v: Option<serde_json::Value>) -> (r: Option<FieldValue>)
    ensures
        r == json_entry(v),
{
    match v {
        Some(x) => Some(FieldValue::Json(x)),
        None => None,
    }
}

pub open spec fn texts_entry(v: Option<Vec<String>>) -> Option<FieldValue> {
    match v {
        Some(x) => Some(FieldValue::Texts(x)),
        None => None,
    }
}

pub(crate) fn to_texts_entry(v: Option<Vec<String>>) -> (r: Option<FieldValue>)
    ensures
        r == texts_entry(v),
{
    match v {
        Some(x) => Some(FieldValue::Texts(x)),
        None => None,
    }
}

pub open spec fn bias_entry(v: Option<Vec<(String, i8)>>) -> Option<FieldValue> {
    match v {
        Some(x) => Some(FieldValue::Bias(x)),
        None => None,
    }
}

pub(crate) fn to_bias_entry(v: Option<Vec<(String, i8)>>) -> (r: Option<FieldValue>)
    ensures
        r == bias_entry(v),
{
    match v {
        Some(x) => Some(FieldValue::Bias(x)),
        None => None,
    }
}

} // verus!
