use vstd::prelude::*;
use crate::bounded::{number_arg_bytes, number_arg_from, string_arg_bytes, string_arg_from};
use crate::token::{JsonToken, Outcome, is_scalar, skip_step, skip_value};
use arrayvec::ArrayVec;

verus! {

/// Largest string argument of a capability, in bytes.
pub const STRING_ARG_CAPACITY: usize = 128;

/// Largest numeric argument text of a capability, in bytes.
pub const NUMBER_ARG_CAPACITY: usize = 20;

/// A positional string argument: absent, present but not usable (wrong
/// type), or a value.
pub type StringSlot = Option<Option<ArrayVec<u8, 128>>>;

/// A positional numeric argument, in the same three forms.
pub type NumberSlot = Option<Option<ArrayVec<u8, 20>>>;

pub type SlotModel = Option<Option<Seq<u8>>>;

pub open spec fn string_slot_model(s: StringSlot) -> SlotModel {
    match s {
        None => None,
        Some(None) => Some(None),
        Some(Some(v)) => Some(Some(string_arg_bytes(v))),
    }
}

pub open spec fn number_slot_model(s: NumberSlot) -> SlotModel {
    match s {
        None => None,
        Some(None) => Some(None),
        Some(Some(v)) => Some(Some(number_arg_bytes(v))),
    }
}

/// The three positional arguments of a capability.
#[derive(Clone, Debug)]
pub struct CapabilityArgs {
    pub first: StringSlot,
    pub second: StringSlot,
    pub third: NumberSlot,
}

/// Model of [`CapabilityArgs`].
pub struct ArgsModel {
    pub first: SlotModel,
    pub second: SlotModel,
    pub third: SlotModel,
}

impl View for CapabilityArgs {
    type V = ArgsModel;

    open spec fn view(&self) -> ArgsModel {
        ArgsModel {
            first: string_slot_model(self.first),
            second: string_slot_model(self.second),
            third: number_slot_model(self.third),
        }
    }
}

pub open spec fn dest_model(d: Option<CapabilityArgs>) -> Option<ArgsModel> {
    match d {
        None => None,
        Some(a) => Some(a@),
    }
}

/// Saved continuation of the capability-argument interpreter. The arguments
/// carry the nesting depth of a value that is being skipped.
#[derive(PartialEq, Eq, Structural, Clone, Copy, Debug)]
pub enum KadenaCapabilityArgsInterpState {
    Start,
    Begin,
    FirstArgument(u32),
    FirstValueSep,
    SecondArgument(u32),
    SecondValueSep,
    ThirdArgument(u32),
    ThirdValueSep,
    FallbackValue(u32),
    FallbackValueSep,
}

/// The bytes of a token of the kind a slot takes: a string, or a number.
pub open spec fn usable_bytes(t: JsonToken, number: bool) -> Option<Seq<u8>> {
    match t {
        JsonToken::Str(b) => if number { None } else { Some(b@) },
        JsonToken::Number(b) => if number { Some(b@) } else { None },
        _ => None,
    }
}

/// One token of one argument: a usable token that fits becomes the value; a
/// value of another shape is skipped whole and leaves the slot present but empty.
pub open spec fn arg_step(depth: u32, t: JsonToken, cap: nat, number: bool) -> (u32, Option<SlotModel>, Outcome) {
    if depth == 0 && usable_bytes(t, number) is Some {
        let b = usable_bytes(t, number).unwrap();
        if b.len() <= cap {
            (0, Some(Some(Some(b))), Outcome::Complete)
        } else {
            (0, None, Outcome::Reject)
        }
    } else {
        let (d, o) = skip_step(depth, t);
        (d, if o == Outcome::Complete { Some(Some(None)) } else { None }, o)
    }
}

pub open spec fn set_slot(m: ArgsModel, i: int, v: SlotModel) -> ArgsModel {
    if i == 0 {
        ArgsModel { first: v, ..m }
    } else if i == 1 {
        ArgsModel { second: v, ..m }
    } else {
        ArgsModel { third: v, ..m }
    }
}

pub open spec fn arg_state(i: int, depth: u32) -> KadenaCapabilityArgsInterpState {
    if i == 0 {
        KadenaCapabilityArgsInterpState::FirstArgument(depth)
    } else if i == 1 {
        KadenaCapabilityArgsInterpState::SecondArgument(depth)
    } else {
        KadenaCapabilityArgsInterpState::ThirdArgument(depth)
    }
}

pub open spec fn sep_state(i: int) -> KadenaCapabilityArgsInterpState {
    if i == 0 {
        KadenaCapabilityArgsInterpState::FirstValueSep
    } else if i == 1 {
        KadenaCapabilityArgsInterpState::SecondValueSep
    } else {
        KadenaCapabilityArgsInterpState::ThirdValueSep
    }
}

/// One token of the argument in slot `i`.
pub open spec fn slot_step(i: int, depth: u32, t: JsonToken, d: Option<ArgsModel>)
    -> (KadenaCapabilityArgsInterpState, Option<ArgsModel>, Outcome) {
    let cap: nat = if i == 2 { NUMBER_ARG_CAPACITY as nat } else { STRING_ARG_CAPACITY as nat };
    let (nd, v, o) = arg_step(depth, t, cap, i == 2);
    if d is None || o == Outcome::Reject {
        (arg_state(i, depth), d, Outcome::Reject)
    } else if o == Outcome::Complete {
        (sep_state(i), Some(set_slot(d.unwrap(), i, v.unwrap())), Outcome::Continue)
    } else {
        (arg_state(i, nd), d, Outcome::Continue)
    }
}

/// The transition function of the capability-argument interpreter.
pub open spec fn args_step(s: KadenaCapabilityArgsInterpState, t: JsonToken, d: Option<ArgsModel>)
    -> (KadenaCapabilityArgsInterpState, Option<ArgsModel>, Outcome) {
    match s {
        KadenaCapabilityArgsInterpState::Start => if t is BeginArray {
            (
                KadenaCapabilityArgsInterpState::Begin,
                Some(ArgsModel { first: None, second: None, third: None }),
                Outcome::Continue,
            )
        } else {
            (s, d, Outcome::Reject)
        },
        KadenaCapabilityArgsInterpState::Begin => if t is EndArray {
            (s, d, Outcome::Complete)
        } else {
            slot_step(0, 0, t, d)
        },
        KadenaCapabilityArgsInterpState::FirstArgument(depth) => slot_step(0, depth, t, d),
        KadenaCapabilityArgsInterpState::SecondArgument(depth) => slot_step(1, depth, t, d),
        KadenaCapabilityArgsInterpState::ThirdArgument(depth) => slot_step(2, depth, t, d),
        KadenaCapabilityArgsInterpState::FirstValueSep => if t is ValueSeparator {
            (KadenaCapabilityArgsInterpState::SecondArgument(0), d, Outcome::Continue)
        } else if t is EndArray {
            (s, d, Outcome::Complete)
        } else {
            (s, d, Outcome::Reject)
        },
        KadenaCapabilityArgsInterpState::SecondValueSep => if t is ValueSeparator {
            (KadenaCapabilityArgsInterpState::ThirdArgument(0), d, Outcome::Continue)
        } else if t is EndArray {
            (s, d, Outcome::Complete)
        } else {
            (s, d, Outcome::Reject)
        },
        KadenaCapabilityArgsInterpState::ThirdValueSep
        | KadenaCapabilityArgsInterpState::FallbackValueSep => if t is ValueSeparator {
            (KadenaCapabilityArgsInterpState::FallbackValue(0), d, Outcome::Continue)
        } else if t is EndArray {
            (s, d, Outcome::Complete)
        } else {
            (s, d, Outcome::Reject)
        },
        KadenaCapabilityArgsInterpState::FallbackValue(depth) => {
            let (nd, o) = skip_step(depth, t);
            if o == Outcome::Complete {
                (KadenaCapabilityArgsInterpState::FallbackValueSep, d, Outcome::Continue)
            } else {
                (KadenaCapabilityArgsInterpState::FallbackValue(nd), d, o)
            }
        },
    }
}

/// The bytes of a token of the kind a slot takes.
fn usable_token_bytes(t: &JsonToken, number: bool) -> (r: Option<&Vec<u8>>)
    ensures
        r is Some <==> usable_bytes(*t, number) is Some,
        r matches Some(b) ==> b@ == usable_bytes(*t, number).unwrap(),
{
    match t {
        JsonToken::Str(b) => if number { None } else { Some(b) },
        JsonToken::Number(b) => if number { Some(b) } else { None },
        _ => None,
    }
}

fn set_arg_state(state: &mut KadenaCapabilityArgsInterpState, i: usize, depth: u32)
    requires
        i < 3,
    ensures
        *final(state) == arg_state(i as int, depth),
{
    *state = if i == 0 {
        KadenaCapabilityArgsInterpState::FirstArgument(depth)
    } else if i == 1 {
        KadenaCapabilityArgsInterpState::SecondArgument(depth)
    } else {
        KadenaCapabilityArgsInterpState::ThirdArgument(depth)
    };
}

/// Records a wrong-typed argument in slot `i` and moves to the separator after it.
fn set_unusable(args: &mut CapabilityArgs, state: &mut KadenaCapabilityArgsInterpState, i: usize)
    requires
        i < 3,
    ensures
        final(args)@ == set_slot(old(args)@, i as int, Some(None)),
        *final(state) == sep_state(i as int),
{
    if i == 0 {
        args.first = Some(None);
        *state = KadenaCapabilityArgsInterpState::FirstValueSep;
    } else if i == 1 {
        args.second = Some(None);
        *state = KadenaCapabilityArgsInterpState::SecondValueSep;
    } else {
        args.third = Some(None);
        *state = KadenaCapabilityArgsInterpState::ThirdValueSep;
    }
}

fn step_slot(
    i: usize,
    depth: u32,
    t: &JsonToken,
    state: &mut KadenaCapabilityArgsInterpState,
    destination: &mut Option<CapabilityArgs>,
) -> (r: Outcome)
    requires
        i < 3,
    ensures
        (*final(state), dest_model(*final(destination)), r) == slot_step(i as int, depth, *t, dest_model(*old(destination))),
{
    let usable = if depth == 0 {
        usable_token_bytes(t, i == 2)
    } else {
        None
    };
    match destination {
        None => {
            set_arg_state(state, i, depth);
            Outcome::Reject
        },
        Some(args) => match usable {
            Some(b) => {
                if i == 2 {
                    match number_arg_from(b.as_slice()) {
                        Some(v) => {
                            args.third = Some(Some(v));
                            *state = KadenaCapabilityArgsInterpState::ThirdValueSep;
                            Outcome::Continue
                        },
                        None => {
                            set_arg_state(state, i, depth);
                            Outcome::Reject
                        },
                    }
                } else {
                    match string_arg_from(b.as_slice()) {
                        Some(v) => {
                            if i == 0 {
                                args.first = Some(Some(v));
                                *state = KadenaCapabilityArgsInterpState::FirstValueSep;
                            } else {
                                args.second = Some(Some(v));
                                *state = KadenaCapabilityArgsInterpState::SecondValueSep;
                            }
                            Outcome::Continue
                        },
                        None => {
                            set_arg_state(state, i, depth);
                            Outcome::Reject
                        },
                    }
                }
            },
            None => {
                let mut nd = depth;
                let o = skip_value(&mut nd, t);
                match o {
                    Outcome::Complete => {
                        set_unusable(args, state, i);
                        Outcome::Continue
                    },
                    Outcome::Continue => {
                        set_arg_state(state, i, nd);
                        Outcome::Continue
                    },
                    Outcome::Reject => {
                        set_arg_state(state, i, depth);
                        Outcome::Reject
                    },
                }
            },
        },
    }
}

/// Interpreter for the argument array of a capability: up to three positional
/// arguments are kept, and any further elements are skipped whole.
pub struct KadenaCapabilityArgsInterp;

impl KadenaCapabilityArgsInterp {
    pub fn init(&self) -> (r: KadenaCapabilityArgsInterpState)
        ensures
            r == KadenaCapabilityArgsInterpState::Start,
    {
        KadenaCapabilityArgsInterpState::Start
    }

    /// Consumes one token.
    pub fn parse(
        &self,
        state: &mut KadenaCapabilityArgsInterpState,
        token: &JsonToken,
        destination: &mut Option<CapabilityArgs>,
    ) -> (r: Outcome)
        ensures
            (*final(state), dest_model(*final(destination)), r) == args_step(*old(state), *token, dest_model(*old(destination))),
    {
        let is_sep = match token {
            JsonToken::ValueSeparator => true,
            _ => false,
        };
        let is_end = match token {
            JsonToken::EndArray => true,
            _ => false,
        };
        match *state {
            KadenaCapabilityArgsInterpState::Start => {
                match token {
                    JsonToken::BeginArray => {
                        *destination = Some(CapabilityArgs { first: None, second: None, third: None });
                        *state = KadenaCapabilityArgsInterpState::Begin;
                        Outcome::Continue
                    },
                    _ => Outcome::Reject,
                }
            },
            KadenaCapabilityArgsInterpState::Begin => {
                if is_end {
                    Outcome::Complete
                } else {
                    step_slot(0, 0, token, state, destination)
                }
            },
            KadenaCapabilityArgsInterpState::FirstArgument(depth) => step_slot(0, depth, token, state, destination),
            KadenaCapabilityArgsInterpState::SecondArgument(depth) => step_slot(1, depth, token, state, destination),
            KadenaCapabilityArgsInterpState::ThirdArgument(depth) => step_slot(2, depth, token, state, destination),
            KadenaCapabilityArgsInterpState::FirstValueSep => {
                if is_sep {
                    *state = KadenaCapabilityArgsInterpState::SecondArgument(0);
                    Outcome::Continue
                } else if is_end {
                    Outcome::Complete
                } else {
                    Outcome::Reject
                }
            },
            KadenaCapabilityArgsInterpState::SecondValueSep => {
                if is_sep {
                    *state = KadenaCapabilityArgsInterpState::ThirdArgument(0);
                    Outcome::Continue
                } else if is_end {
                    Outcome::Complete
                } else {
                    Outcome::Reject
                }
            },
            KadenaCapabilityArgsInterpState::ThirdValueSep
            | KadenaCapabilityArgsInterpState::FallbackValueSep => {
                if is_sep {
                    *state = KadenaCapabilityArgsInterpState::FallbackValue(0);
                    Outcome::Continue
                } else if is_end {
                    Outcome::Complete
                } else {
                    Outcome::Reject
                }
            },
            KadenaCapabilityArgsInterpState::FallbackValue(depth) => {
                let mut nd = depth;
                let o = skip_value(&mut nd, token);
                match o {
                    Outcome::Complete => {
                        *state = KadenaCapabilityArgsInterpState::FallbackValueSep;
                        Outcome::Continue
                    },
                    _ => {
                        *state = KadenaCapabilityArgsInterpState::FallbackValue(nd);
                        o
                    },
                }
            },
        }
    }
}


/// Runs the interpreter over a token sequence; every token but the last must
/// leave the argument array in progress.
pub open spec fn args_run(s: KadenaCapabilityArgsInterpState, d: Option<ArgsModel>, ts: Seq<JsonToken>)
    -> (KadenaCapabilityArgsInterpState, Option<ArgsModel>, Outcome)
    decreases ts.len(),
{
    if ts.len() == 0 {
        (s, d, Outcome::Continue)
    } else {
        let (s1, d1, o) = args_step(s, ts[0], d);
        if ts.len() == 1 {
            (s1, d1, o)
        } else if o == Outcome::Continue {
            args_run(s1, d1, ts.drop_first())
        } else {
            (s1, d1, Outcome::Reject)
        }
    }
}

/// The tokens of the elements after the first one: a separator before each.
pub open spec fn tail_tokens(e: Seq<JsonToken>) -> Seq<JsonToken>
    decreases e.len(),
{
    if e.len() == 0 {
        Seq::empty()
    } else {
        seq![JsonToken::ValueSeparator, e[0]] + tail_tokens(e.drop_first())
    }
}

/// The tokens of a JSON array whose elements are the scalar tokens `e`.
pub open spec fn array_tokens(e: Seq<JsonToken>) -> Seq<JsonToken> {
    if e.len() == 0 {
        seq![JsonToken::BeginArray, JsonToken::EndArray]
    } else {
        seq![JsonToken::BeginArray, e[0]] + tail_tokens(e.drop_first()) + seq![JsonToken::EndArray]
    }
}

/// Element `i` is usable in slot `i`: a string (a number for the third slot) that fits.
pub open spec fn well_typed_arg(e: Seq<JsonToken>, i: int) -> bool {
    let number = i == 2;
    let cap: nat = if number { NUMBER_ARG_CAPACITY as nat } else { STRING_ARG_CAPACITY as nat };
    usable_bytes(e[i], number) is Some && usable_bytes(e[i], number).unwrap().len() <= cap
}

pub open spec fn expected_slot(e: Seq<JsonToken>, i: int) -> SlotModel {
    if i < e.len() {
        Some(Some(usable_bytes(e[i], i == 2).unwrap()))
    } else {
        None
    }
}

pub open spec fn expected_args(e: Seq<JsonToken>) -> ArgsModel {
    ArgsModel { first: expected_slot(e, 0), second: expected_slot(e, 1), third: expected_slot(e, 2) }
}

/// Running over two consecutive pieces of input is running over the first,
/// then resuming from the saved state with the second.
pub proof fn lemma_args_run_split(
    s: KadenaCapabilityArgsInterpState,
    d: Option<ArgsModel>,
    ts1: Seq<JsonToken>,
    ts2: Seq<JsonToken>,
)
    requires
        args_run(s, d, ts1).2 == Outcome::Continue,
    ensures
        args_run(s, d, ts1 + ts2) == args_run(args_run(s, d, ts1).0, args_run(s, d, ts1).1, ts2),
    decreases ts1.len(),
{
    if ts1.len() == 0 {
        assert(ts1 + ts2 =~= ts2);
    } else if ts2.len() > 0 {
        assert((ts1 + ts2)[0] == ts1[0]);
        if ts1.len() == 1 {
            assert((ts1 + ts2).drop_first() =~= ts2);
        } else {
            assert((ts1 + ts2).drop_first() =~= ts1.drop_first() + ts2);
            let (s1, d1, o) = args_step(s, ts1[0], d);
            lemma_args_run_split(s1, d1, ts1.drop_first(), ts2);
        }
    } else {
        assert(ts1 + ts2 =~= ts1);
    }
}

proof fn lemma_run_pair(s: KadenaCapabilityArgsInterpState, d: Option<ArgsModel>, a: JsonToken, b: JsonToken)
    ensures
        args_run(s, d, seq![a, b]) == ({
            let (s1, d1, o) = args_step(s, a, d);
            if o == Outcome::Continue {
                args_step(s1, b, d1)
            } else {
                (s1, d1, Outcome::Reject)
            }
        }),
{
    let ts = seq![a, b];
    assert(ts.drop_first() =~= seq![b]);
    let (s1, d1, o) = args_step(s, a, d);
    assert(args_run(s1, d1, seq![b]) == args_step(s1, b, d1));
}

proof fn lemma_fallback_tail(s: KadenaCapabilityArgsInterpState, d: Option<ArgsModel>, rest: Seq<JsonToken>)
    requires
        s == KadenaCapabilityArgsInterpState::ThirdValueSep || s == KadenaCapabilityArgsInterpState::FallbackValueSep,
        forall|i: int| 0 <= i < rest.len() ==> #[trigger] is_scalar(rest[i]),
    ensures
        args_run(s, d, tail_tokens(rest) + seq![JsonToken::EndArray]).1 == d,
        args_run(s, d, tail_tokens(rest) + seq![JsonToken::EndArray]).2 == Outcome::Complete,
    decreases rest.len(),
{
    let end = seq![JsonToken::EndArray];
    if rest.len() == 0 {
        assert(tail_tokens(rest) + end =~= end);
    } else {
        let head = seq![JsonToken::ValueSeparator, rest[0]];
        assert(is_scalar(rest[0]));
        assert(tail_tokens(rest) + end =~= head + (tail_tokens(rest.drop_first()) + end));
        lemma_run_pair(s, d, JsonToken::ValueSeparator, rest[0]);
        lemma_args_run_split(s, d, head, tail_tokens(rest.drop_first()) + end);
        assert forall|i: int| 0 <= i < rest.drop_first().len() implies #[trigger] is_scalar(rest.drop_first()[i]) by {
            assert(rest.drop_first()[i] == rest[i + 1]);
        }
        lemma_fallback_tail(KadenaCapabilityArgsInterpState::FallbackValueSep, d, rest.drop_first());
    }
}

/// An argument array of well-typed elements yields its first three elements
/// in their positions, with absent slots past its end; elements after the
/// third are skipped and the array still completes.
pub proof fn lemma_args_positional(e: Seq<JsonToken>)
    requires
        forall|i: int| 0 <= i < e.len() && i < 3 ==> well_typed_arg(e, i),
        forall|i: int| 3 <= i < e.len() ==> #[trigger] is_scalar(e[i]),
    ensures
        args_run(KadenaCapabilityArgsInterpState::Start, None, array_tokens(e)).1 == Some(expected_args(e)),
        args_run(KadenaCapabilityArgsInterpState::Start, None, array_tokens(e)).2 == Outcome::Complete,
{
    let st = KadenaCapabilityArgsInterpState::Start;
    let end = seq![JsonToken::EndArray];
    let empty = ArgsModel { first: None, second: None, third: None };
    if e.len() == 0 {
        lemma_run_pair(st, None, JsonToken::BeginArray, JsonToken::EndArray);
        assert(empty == expected_args(e));
    } else {
        let e1 = e.drop_first();
        assert(well_typed_arg(e, 0));
        let m1 = ArgsModel { first: expected_slot(e, 0), second: None, third: None };
        let opening = seq![JsonToken::BeginArray, e[0]];
        lemma_run_pair(st, None, JsonToken::BeginArray, e[0]);
        assert(args_run(st, None, opening) == (KadenaCapabilityArgsInterpState::FirstValueSep, Some(m1), Outcome::Continue));
        assert(array_tokens(e) =~= opening + (tail_tokens(e1) + end));
        lemma_args_run_split(st, None, opening, tail_tokens(e1) + end);
        if e1.len() == 0 {
            assert(tail_tokens(e1) + end =~= end);
            assert(m1 == expected_args(e));
        } else {
            assert(well_typed_arg(e, 1));
            let e2 = e1.drop_first();
            let m2 = ArgsModel { second: expected_slot(e, 1), ..m1 };
            let second_piece = seq![JsonToken::ValueSeparator, e1[0]];
            lemma_run_pair(KadenaCapabilityArgsInterpState::FirstValueSep, Some(m1), JsonToken::ValueSeparator, e1[0]);
            assert(args_run(KadenaCapabilityArgsInterpState::FirstValueSep, Some(m1), second_piece)
                == (KadenaCapabilityArgsInterpState::SecondValueSep, Some(m2), Outcome::Continue));
            assert(tail_tokens(e1) + end =~= second_piece + (tail_tokens(e2) + end));
            lemma_args_run_split(KadenaCapabilityArgsInterpState::FirstValueSep, Some(m1), second_piece, tail_tokens(e2) + end);
            if e2.len() == 0 {
                assert(tail_tokens(e2) + end =~= end);
                assert(m2 == expected_args(e));
            } else {
                assert(well_typed_arg(e, 2));
                let e3 = e2.drop_first();
                let m3 = ArgsModel { third: expected_slot(e, 2), ..m2 };
                let third_piece = seq![JsonToken::ValueSeparator, e2[0]];
                lemma_run_pair(KadenaCapabilityArgsInterpState::SecondValueSep, Some(m2), JsonToken::ValueSeparator, e2[0]);
                assert(args_run(KadenaCapabilityArgsInterpState::SecondValueSep, Some(m2), third_piece)
                    == (KadenaCapabilityArgsInterpState::ThirdValueSep, Some(m3), Outcome::Continue));
                assert(tail_tokens(e2) + end =~= third_piece + (tail_tokens(e3) + end));
                lemma_args_run_split(KadenaCapabilityArgsInterpState::SecondValueSep, Some(m2), third_piece, tail_tokens(e3) + end);
                assert forall|i: int| 0 <= i < e3.len() implies #[trigger] is_scalar(e3[i]) by {
                    assert(e3[i] == e[i + 3]);
                }
                lemma_fallback_tail(KadenaCapabilityArgsInterpState::ThirdValueSep, Some(m3), e3);
                assert(m3 == expected_args(e));
            }
        }
    }
}

} // verus!
