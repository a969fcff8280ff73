use vstd::prelude::*;
use crate::token::JsonToken;

verus! {

/// Where an object interpreter stands between its members.
#[derive(PartialEq, Eq, Structural, Clone, Copy, Debug)]
pub enum ObjectPhase {
    Start,
    FirstKey,
    Key,
    Colon,
    Value,
    SepOrEnd,
}

/// Where an array interpreter stands between its elements.
#[derive(PartialEq, Eq, Structural, Clone, Copy, Debug)]
pub enum ArrayPhase {
    Start,
    FirstValue,
    Value,
    SepOrEnd,
}

/// What a frame made of a token.
#[derive(PartialEq, Eq, Structural, Clone, Copy, Debug)]
pub enum FrameStep {
    /// Punctuation of the frame itself.
    Continue,
    /// The token is the key of the next member.
    GotKey,
    /// A member's or element's value starts with the next token.
    StartValue,
    /// An element's value starts with this very token.
    StartValueHere,
    /// The token belongs to the value in progress.
    Delegate,
    Complete,
    Reject,
}

pub open spec fn object_frame_spec(p: ObjectPhase, t: JsonToken) -> (ObjectPhase, FrameStep) {
    match p {
        ObjectPhase::Start => if t is BeginObject {
            (ObjectPhase::FirstKey, FrameStep::Continue)
        } else {
            (p, FrameStep::Reject)
        },
        ObjectPhase::FirstKey => if t is EndObject {
            (p, FrameStep::Complete)
        } else if t is Str {
            (ObjectPhase::Colon, FrameStep::GotKey)
        } else {
            (p, FrameStep::Reject)
        },
        ObjectPhase::Key => if t is Str {
            (ObjectPhase::Colon, FrameStep::GotKey)
        } else {
            (p, FrameStep::Reject)
        },
        ObjectPhase::Colon => if t is NameSeparator {
            (ObjectPhase::Value, FrameStep::StartValue)
        } else {
            (p, FrameStep::Reject)
        },
        ObjectPhase::Value => (p, FrameStep::Delegate),
        ObjectPhase::SepOrEnd => if t is ValueSeparator {
            (ObjectPhase::Key, FrameStep::Continue)
        } else if t is EndObject {
            (p, FrameStep::Complete)
        } else {
            (p, FrameStep::Reject)
        },
    }
}

pub open spec fn array_frame_spec(p: ArrayPhase, t: JsonToken) -> (ArrayPhase, FrameStep) {
    match p {
        ArrayPhase::Start => if t is BeginArray {
            (ArrayPhase::FirstValue, FrameStep::Continue)
        } else {
            (p, FrameStep::Reject)
        },
        ArrayPhase::FirstValue => if t is EndArray {
            (p, FrameStep::Complete)
        } else {
            (ArrayPhase::Value, FrameStep::StartValueHere)
        },
        ArrayPhase::Value => (p, FrameStep::Delegate),
        ArrayPhase::SepOrEnd => if t is ValueSeparator {
            (ArrayPhase::Value, FrameStep::StartValue)
        } else if t is EndArray {
            (p, FrameStep::Complete)
        } else {
            (p, FrameStep::Reject)
        },
    }
}

/// One token of an object's own punctuation and keys.
pub fn object_frame(p: &mut ObjectPhase, t: &JsonToken) -> (r: FrameStep)
    ensures
        (*final(p), r) == object_frame_spec(*old(p), *t),
{
    match *p {
        ObjectPhase::Start => match t {
            JsonToken::BeginObject => {
                *p = ObjectPhase::FirstKey;
                FrameStep::Continue
            },
            _ => FrameStep::Reject,
        },
        ObjectPhase::FirstKey => match t {
            JsonToken::EndObject => FrameStep::Complete,
            JsonToken::Str(_) => {
                *p = ObjectPhase::Colon;
                FrameStep::GotKey
            },
            _ => FrameStep::Reject,
        },
        ObjectPhase::Key => match t {
            JsonToken::Str(_) => {
                *p = ObjectPhase::Colon;
                FrameStep::GotKey
            },
            _ => FrameStep::Reject,
        },
        ObjectPhase::Colon => match t {
            JsonToken::NameSeparator => {
                *p = ObjectPhase::Value;
                FrameStep::StartValue
            },
            _ => FrameStep::Reject,
        },
        ObjectPhase::Value => FrameStep::Delegate,
        ObjectPhase::SepOrEnd => match t {
            JsonToken::ValueSeparator => {
                *p = ObjectPhase::Key;
                FrameStep::Continue
            },
            JsonToken::EndObject => FrameStep::Complete,
            _ => FrameStep::Reject,
        },
    }
}

/// One token of an array's own punctuation.
pub fn array_frame(p: &mut ArrayPhase, t: &JsonToken) -> (r: FrameStep)
    ensures
        (*final(p), r) == array_frame_spec(*old(p), *t),
{
    match *p {
        ArrayPhase::Start => match t {
            JsonToken::BeginArray => {
                *p = ArrayPhase::FirstValue;
                FrameStep::Continue
            },
            _ => FrameStep::Reject,
        },
        ArrayPhase::FirstValue => match t {
            JsonToken::EndArray => FrameStep::Complete,
            _ => {
                *p = ArrayPhase::Value;
                FrameStep::StartValueHere
            },
        },
        ArrayPhase::Value => FrameStep::Delegate,
        ArrayPhase::SepOrEnd => match t {
            JsonToken::ValueSeparator => {
                *p = ArrayPhase::Value;
                FrameStep::StartValue
            },
            JsonToken::EndArray => FrameStep::Complete,
            _ => FrameStep::Reject,
        },
    }
}

} // verus!
