use vstd::prelude::*;

verus! {

/// One lexical JSON event, as the tokenizer hands it over.
#[derive(Clone, Debug)]
pub enum JsonToken {
    BeginObject,
    EndObject,
    BeginArray,
    EndArray,
    NameSeparator,
    ValueSeparator,
    Str(Vec<u8>),
    Number(Vec<u8>),
    True,
    False,
    Null,
}

/// What one step of an interpreter did with a token.
#[derive(PartialEq, Eq, Structural, Clone, Copy, Debug)]
pub enum Outcome {
    /// The token was consumed and the field is still in progress.
    Continue,
    /// The field is finished and its destination holds a value.
    Complete,
    /// The token breaks the field's grammar or one of its rules.
    Reject,
}

pub open spec fn is_scalar(t: JsonToken) -> bool {
    match t {
        JsonToken::Str(_) | JsonToken::Number(_) | JsonToken::True | JsonToken::False
        | JsonToken::Null => true,
        _ => false,
    }
}

pub open spec fn is_open(t: JsonToken) -> bool {
    t is BeginArray || t is BeginObject
}

pub open spec fn is_close(t: JsonToken) -> bool {
    t is EndArray || t is EndObject
}

/// Skipping one value of any shape: `depth` counts the arrays and objects
/// that are open; zero means that the value has not started.
pub open spec fn skip_step(depth: u32, t: JsonToken) -> (u32, Outcome) {
    if depth == 0 {
        if is_scalar(t) {
            (0, Outcome::Complete)
        } else if is_open(t) {
            (1, Outcome::Continue)
        } else {
            (0, Outcome::Reject)
        }
    } else if is_open(t) {
        if depth == u32::MAX {
            (depth, Outcome::Reject)
        } else {
            ((depth + 1) as u32, Outcome::Continue)
        }
    } else if is_close(t) {
        if depth == 1 {
            (0, Outcome::Complete)
        } else {
            ((depth - 1) as u32, Outcome::Continue)
        }
    } else {
        (depth, Outcome::Continue)
    }
}

pub fn is_scalar_token(t: &JsonToken) -> (r: bool)
    ensures
        r == is_scalar(*t),
{
    match t {
        JsonToken::Str(_) | JsonToken::Number(_) | JsonToken::True | JsonToken::False
        | JsonToken::Null => true,
        _ => false,
    }
}

/// Advances the skipping of one value by a token.
pub fn skip_value(depth: &mut u32, t: &JsonToken) -> (r: Outcome)
    ensures
        (*final(depth), r) == skip_step(*old(depth), *t),
{
    let opens = match t {
        JsonToken::BeginArray | JsonToken::BeginObject => true,
        _ => false,
    };
    let closes = match t {
        JsonToken::EndArray | JsonToken::EndObject => true,
        _ => false,
    };
    if *depth == 0 {
        if is_scalar_token(t) {
            Outcome::Complete
        } else if opens {
            *depth = 1;
            Outcome::Continue
        } else {
            Outcome::Reject
        }
    } else if opens {
        if *depth == u32::MAX {
            Outcome::Reject
        } else {
            *depth = *depth + 1;
            Outcome::Continue
        }
    } else if closes {
        *depth = *depth - 1;
        if *depth == 0 {
            Outcome::Complete
        } else {
            Outcome::Continue
        }
    } else {
        Outcome::Continue
    }
}

} // verus!
