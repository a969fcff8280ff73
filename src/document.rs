use vstd::prelude::*;
use arrayvec::ArrayVec;
use crate::bounded::{cap_name_bytes, cap_name_from, id_bytes, id_from, public_key_bytes, public_key_from};
use crate::capability_args::{ArgsModel, CapabilityArgs, KadenaCapabilityArgsInterp, KadenaCapabilityArgsInterpState};
use crate::coverage::{CapabilityCoverage, reduce};
use crate::cross_chain::{CODE_CAPACITY, CrossChainTransfer, classify_code};
use crate::frame::{ArrayPhase, FrameStep, ObjectPhase, array_frame, object_frame};
use crate::policy::{
    CAPABILITY_NAME_CAPACITY, CapabilityPrompt, CommandData, capability_verdict, check_capability,
    needs_unsafe_warning, signer_coverage, signer_coverage_spec, unsafe_warning_spec,
};
use crate::text::key_is;
use crate::token::{JsonToken, Outcome, skip_value};

verus! {

/// Largest chain id and network id, in bytes.
pub const CHAIN_ID_CAPACITY: usize = 32;

/// Largest signer public key, in bytes.
pub const PUBLIC_KEY_CAPACITY: usize = 64;

/// The role of the member whose value is in progress.
#[derive(PartialEq, Eq, Structural, Clone, Copy, Debug)]
pub enum Field {
    Skip,
    Meta,
    Payload,
    Exec,
    Signers,
    NetworkId,
    ChainId,
    Code,
    PubKey,
    Clist,
    Name,
    Args,
}

/// What the user is to be shown as a field of the document completes.
#[derive(Debug)]
pub enum DocEvent {
    Nothing,
    ChainId(ArrayVec<u8, 32>),
    Code(CommandData, Option<CrossChainTransfer>),
    SignerKey(ArrayVec<u8, 64>),
    Capability(CapabilityPrompt),
    Network(ArrayVec<u8, 32>),
    /// The document is complete; `warning` says whether the unsafe-transaction
    /// warning is owed.
    Finished { warning: bool },
}

/// Saved continuation of the transaction document interpreter, with the
/// partial results of its fields.
pub struct KadenaCmdState {
    pub doc: ObjectPhase,
    pub doc_field: Field,
    pub meta: ObjectPhase,
    pub meta_field: Field,
    pub payload: ObjectPhase,
    pub payload_field: Field,
    pub exec_body: ObjectPhase,
    pub exec_field: Field,
    pub signers: ArrayPhase,
    pub signer: ObjectPhase,
    pub signer_field: Field,
    pub clist: ArrayPhase,
    pub cap: ObjectPhase,
    pub cap_field: Field,
    pub args: KadenaCapabilityArgsInterpState,
    pub skip: u32,
    pub code_skipped: bool,
    pub chain_id: Option<ArrayVec<u8, 32>>,
    pub network_id: Option<ArrayVec<u8, 32>>,
    pub code: Option<CommandData>,
    pub pub_key: Option<ArrayVec<u8, 64>>,
    pub cap_name: Option<ArrayVec<u8, 14>>,
    pub cap_args: Option<CapabilityArgs>,
    /// Capabilities of the signer in progress, and how many of them are
    /// unrecognised (this count stops at its largest value).
    pub caps: u64,
    pub unrecognized: u64,
    /// Coverage of the signers completed so far.
    pub running: CapabilityCoverage,
    pub signer_covs: Ghost<Seq<CapabilityCoverage>>,
    /// Capability and unrecognised-capability counts of each completed signer.
    pub signer_counts: Ghost<Seq<(nat, nat)>>,
    /// Name and arguments of every capability accepted so far.
    pub accepted: Ghost<Seq<(Seq<u8>, ArgsModel)>>,
    /// Coverage of the whole signer list, once it is complete.
    pub coverage: Option<CapabilityCoverage>,
    /// The document is complete; no further token is taken.
    pub finished: bool,
}

impl KadenaCmdState {
    /// The coverage accumulated is the reduction of the per-signer rule over
    /// the completed signers, and every accepted capability passed the allow-list.
    pub open spec fn wf(&self) -> bool {
        &&& self.running == reduce(self.signer_covs@)
        &&& (self.coverage is Some ==> self.coverage == Some(self.running))
        &&& self.signer_covs@.len() == self.signer_counts@.len()
        &&& forall|i: int|
            0 <= i < self.signer_covs@.len() ==> #[trigger] self.signer_covs@[i] == signer_coverage_spec(
                self.signer_counts@[i].0,
                self.signer_counts@[i].1,
            )
        &&& forall|i: int|
            0 <= i < self.accepted@.len() ==> (#[trigger] capability_verdict(
                self.accepted@[i].0,
                self.accepted@[i].1,
            )) is Some
    }
}

/// What an event says agrees with the state it leaves behind.
pub open spec fn event_ok(st: KadenaCmdState, ev: DocEvent) -> bool {
    match ev {
        DocEvent::Capability(p) => st.cap_name is Some && st.cap_args is Some && capability_verdict(
            cap_name_bytes(st.cap_name.unwrap()),
            st.cap_args.unwrap()@,
        ) == Some(p@),
        DocEvent::Finished { warning } => warning == unsafe_warning_spec(st.code, st.coverage),
        DocEvent::Code(c, _) => st.code == Some(c),
        _ => true,
    }
}

fn cmd_lookup(k: &[u8]) -> Option<Field> {
    if key_is(k, "nonce") {
        Some(Field::Skip)
    } else if key_is(k, "meta") {
        Some(Field::Meta)
    } else if key_is(k, "payload") {
        Some(Field::Payload)
    } else if key_is(k, "signers") {
        Some(Field::Signers)
    } else if key_is(k, "networkId") {
        Some(Field::NetworkId)
    } else {
        None
    }
}

fn meta_lookup(k: &[u8]) -> Option<Field> {
    if key_is(k, "chainId") {
        Some(Field::ChainId)
    } else if key_is(k, "sender") || key_is(k, "gasLimit") || key_is(k, "gasPrice") || key_is(k, "ttl")
        || key_is(k, "creationTime") {
        Some(Field::Skip)
    } else {
        None
    }
}

fn payload_lookup(k: &[u8]) -> Option<Field> {
    if key_is(k, "exec") {
        Some(Field::Exec)
    } else {
        None
    }
}

fn exec_lookup(k: &[u8]) -> Option<Field> {
    if key_is(k, "code") {
        Some(Field::Code)
    } else if key_is(k, "data") {
        Some(Field::Skip)
    } else {
        None
    }
}

fn signer_lookup(k: &[u8]) -> Option<Field> {
    if key_is(k, "pubKey") {
        Some(Field::PubKey)
    } else if key_is(k, "clist") {
        Some(Field::Clist)
    } else if key_is(k, "scheme") || key_is(k, "addr") {
        Some(Field::Skip)
    } else {
        None
    }
}

fn cap_lookup(k: &[u8]) -> Option<Field> {
    if key_is(k, "name") {
        Some(Field::Name)
    } else if key_is(k, "args") {
        Some(Field::Args)
    } else {
        None
    }
}

fn member_key(t: &JsonToken) -> &[u8] {
    match t {
        JsonToken::Str(b) => b.as_slice(),
        _ => &[],
    }
}

/// A capability name: a string token that fits.
fn cap_name_of(t: &JsonToken) -> (r: Option<ArrayVec<u8, 14>>)
    ensures
        r is Some <==> (t matches JsonToken::Str(b) && b@.len() <= CAPABILITY_NAME_CAPACITY),
        r matches Some(v) ==> (t matches JsonToken::Str(b) && cap_name_bytes(v) == b@),
{
    match t {
        JsonToken::Str(b) => cap_name_from(b.as_slice()),
        _ => None,
    }
}

/// A chain id or network id: a string token that fits.
fn id_of(t: &JsonToken) -> (r: Option<ArrayVec<u8, 32>>)
    ensures
        r is Some <==> (t matches JsonToken::Str(b) && b@.len() <= CHAIN_ID_CAPACITY),
        r matches Some(v) ==> (t matches JsonToken::Str(b) && id_bytes(v) == b@),
{
    match t {
        JsonToken::Str(b) => id_from(b.as_slice()),
        _ => None,
    }
}

/// A signer's public key: a string token that fits.
fn public_key_of(t: &JsonToken) -> (r: Option<ArrayVec<u8, 64>>)
    ensures
        r is Some <==> (t matches JsonToken::Str(b) && b@.len() <= PUBLIC_KEY_CAPACITY),
        r matches Some(v) ==> (t matches JsonToken::Str(b) && public_key_bytes(v) == b@),
{
    match t {
        JsonToken::Str(b) => public_key_from(b.as_slice()),
        _ => None,
    }
}

/// A value that is only skipped: `Complete` once it is whole.
fn step_skip(st: &mut KadenaCmdState, t: &JsonToken) -> (r: Outcome)
    requires
        old(st).wf(),
    ensures
        final(st).wf(),
        final(st).code == old(st).code,
        final(st).coverage == old(st).coverage,
{
    skip_value(&mut st.skip, t)
}

fn step_cap(st: &mut KadenaCmdState, t: &JsonToken) -> (r: (Outcome, DocEvent))
    requires
        old(st).wf(),
        old(st).coverage is None,
    ensures
        final(st).wf(),
        event_ok(*final(st), r.1),
        !(r.1 is Finished),
        final(st).code == old(st).code,
        final(st).coverage == old(st).coverage,
{
    match object_frame(&mut st.cap, t) {
        FrameStep::GotKey => match cap_lookup(member_key(t)) {
            Some(f) => {
                st.cap_field = f;
                (Outcome::Continue, DocEvent::Nothing)
            },
            None => (Outcome::Reject, DocEvent::Nothing),
        },
        FrameStep::StartValue => {
            if st.cap_field == Field::Args {
                st.args = KadenaCapabilityArgsInterp.init();
            }
            (Outcome::Continue, DocEvent::Nothing)
        },
        FrameStep::Delegate => {
            if st.cap_field == Field::Name {
                match cap_name_of(t) {
                    Some(n) => {
                        st.cap_name = Some(n);
                        st.cap = ObjectPhase::SepOrEnd;
                        (Outcome::Continue, DocEvent::Nothing)
                    },
                    None => (Outcome::Reject, DocEvent::Nothing),
                }
            } else {
                let o = KadenaCapabilityArgsInterp.parse(&mut st.args, t, &mut st.cap_args);
                match o {
                    Outcome::Complete => {
                        st.cap = ObjectPhase::SepOrEnd;
                        (Outcome::Continue, DocEvent::Nothing)
                    },
                    _ => (o, DocEvent::Nothing),
                }
            }
        },
        FrameStep::Complete => {
            if st.caps == u64::MAX {
                return (Outcome::Reject, DocEvent::Nothing);
            }
            let verdict = match (&st.cap_name, &st.cap_args) {
                (Some(n), Some(a)) => check_capability(n, a),
                _ => None,
            };
            match verdict {
                Some(p) => {
                    proof {
                        let entry = (cap_name_bytes(st.cap_name.unwrap()), st.cap_args.unwrap()@);
                        assert(st.accepted@.push(entry).last() == entry);
                        st.accepted@ = st.accepted@.push(entry);
                    }
                    st.caps = st.caps + 1;
                    match p {
                        CapabilityPrompt::Unrecognized => {
                            st.unrecognized = st.unrecognized.saturating_add(1);
                        },
                        _ => {},
                    }
                    (Outcome::Complete, DocEvent::Capability(p))
                },
                None => (Outcome::Reject, DocEvent::Nothing),
            }
        },
        FrameStep::Reject => (Outcome::Reject, DocEvent::Nothing),
        _ => (Outcome::Continue, DocEvent::Nothing),
    }
}

fn step_clist(st: &mut KadenaCmdState, t: &JsonToken) -> (r: (Outcome, DocEvent))
    requires
        old(st).wf(),
        old(st).coverage is None,
    ensures
        final(st).wf(),
        event_ok(*final(st), r.1),
        !(r.1 is Finished),
        final(st).code == old(st).code,
        final(st).coverage == old(st).coverage,
{
    let step = array_frame(&mut st.clist, t);
    match step {
        FrameStep::StartValue | FrameStep::StartValueHere => {
            st.cap = ObjectPhase::Start;
            st.cap_field = Field::Skip;
            st.cap_name = None;
            st.cap_args = None;
            if step == FrameStep::StartValue {
                return (Outcome::Continue, DocEvent::Nothing);
            }
        },
        FrameStep::Delegate => {},
        FrameStep::Complete => {
            return (Outcome::Complete, DocEvent::Nothing);
        },
        FrameStep::Reject => {
            return (Outcome::Reject, DocEvent::Nothing);
        },
        _ => {
            return (Outcome::Continue, DocEvent::Nothing);
        },
    }
    let (o, ev) = step_cap(st, t);
    match o {
        Outcome::Complete => {
            st.clist = ArrayPhase::SepOrEnd;
            (Outcome::Continue, ev)
        },
        _ => (o, ev),
    }
}

fn step_signer(st: &mut KadenaCmdState, t: &JsonToken) -> (r: (Outcome, DocEvent))
    requires
        old(st).wf(),
        old(st).coverage is None,
    ensures
        final(st).wf(),
        event_ok(*final(st), r.1),
        !(r.1 is Finished),
        final(st).code == old(st).code,
        final(st).coverage == old(st).coverage,
{
    match object_frame(&mut st.signer, t) {
        FrameStep::GotKey => match signer_lookup(member_key(t)) {
            Some(f) => {
                st.signer_field = f;
                (Outcome::Continue, DocEvent::Nothing)
            },
            None => (Outcome::Reject, DocEvent::Nothing),
        },
        FrameStep::StartValue => {
            st.skip = 0;
            st.clist = ArrayPhase::Start;
            (Outcome::Continue, DocEvent::Nothing)
        },
        FrameStep::Delegate => {
            let (o, ev) = if st.signer_field == Field::PubKey {
                match (public_key_of(t), public_key_of(t)) {
                    (Some(k), Some(shown)) => {
                        st.pub_key = Some(k);
                        (Outcome::Complete, DocEvent::SignerKey(shown))
                    },
                    _ => (Outcome::Reject, DocEvent::Nothing),
                }
            } else if st.signer_field == Field::Clist {
                step_clist(st, t)
            } else {
                (step_skip(st, t), DocEvent::Nothing)
            };
            match o {
                Outcome::Complete => {
                    st.signer = ObjectPhase::SepOrEnd;
                    (Outcome::Continue, ev)
                },
                _ => (o, ev),
            }
        },
        FrameStep::Complete => {
            let c = signer_coverage(st.caps, st.unrecognized);
            proof {
                assert(st.signer_covs@.push(c).drop_last() =~= st.signer_covs@);
            }
            st.running.add_and_set(&c);
            st.signer_covs = Ghost(st.signer_covs@.push(c));
            st.signer_counts = Ghost(st.signer_counts@.push((st.caps as nat, st.unrecognized as nat)));
            (Outcome::Complete, DocEvent::Nothing)
        },
        FrameStep::Reject => (Outcome::Reject, DocEvent::Nothing),
        _ => (Outcome::Continue, DocEvent::Nothing),
    }
}

fn step_signers(st: &mut KadenaCmdState, t: &JsonToken) -> (r: (Outcome, DocEvent))
    requires
        old(st).wf(),
        old(st).coverage is None,
    ensures
        final(st).wf(),
        event_ok(*final(st), r.1),
        !(r.1 is Finished),
        final(st).code == old(st).code,
        r.0 == Outcome::Complete ==> final(st).coverage is Some,
{
    let step = array_frame(&mut st.signers, t);
    match step {
        FrameStep::StartValue | FrameStep::StartValueHere => {
            st.signer = ObjectPhase::Start;
            st.signer_field = Field::Skip;
            st.pub_key = None;
            st.caps = 0;
            st.unrecognized = 0;
            if step == FrameStep::StartValue {
                return (Outcome::Continue, DocEvent::Nothing);
            }
        },
        FrameStep::Delegate => {},
        FrameStep::Complete => {
            st.coverage = Some(st.running);
            return (Outcome::Complete, DocEvent::Nothing);
        },
        FrameStep::Reject => {
            return (Outcome::Reject, DocEvent::Nothing);
        },
        _ => {
            return (Outcome::Continue, DocEvent::Nothing);
        },
    }
    let (o, ev) = step_signer(st, t);
    match o {
        Outcome::Complete => {
            st.signers = ArrayPhase::SepOrEnd;
            (Outcome::Continue, ev)
        },
        _ => (o, ev),
    }
}

fn step_meta(st: &mut KadenaCmdState, t: &JsonToken) -> (r: (Outcome, DocEvent))
    requires
        old(st).wf(),
    ensures
        final(st).wf(),
        event_ok(*final(st), r.1),
        !(r.1 is Finished),
        final(st).code == old(st).code,
        final(st).coverage == old(st).coverage,
{
    match object_frame(&mut st.meta, t) {
        FrameStep::GotKey => match meta_lookup(member_key(t)) {
            Some(f) => {
                st.meta_field = f;
                (Outcome::Continue, DocEvent::Nothing)
            },
            None => (Outcome::Reject, DocEvent::Nothing),
        },
        FrameStep::StartValue => {
            st.skip = 0;
            (Outcome::Continue, DocEvent::Nothing)
        },
        FrameStep::Delegate => {
            let (o, ev) = if st.meta_field == Field::ChainId {
                match (id_of(t), id_of(t)) {
                    (Some(c), Some(shown)) => {
                        st.chain_id = Some(c);
                        (Outcome::Complete, DocEvent::ChainId(shown))
                    },
                    _ => (Outcome::Reject, DocEvent::Nothing),
                }
            } else {
                (step_skip(st, t), DocEvent::Nothing)
            };
            match o {
                Outcome::Complete => {
                    st.meta = ObjectPhase::SepOrEnd;
                    (Outcome::Continue, ev)
                },
                _ => (o, ev),
            }
        },
        FrameStep::Complete => (Outcome::Complete, DocEvent::Nothing),
        FrameStep::Reject => (Outcome::Reject, DocEvent::Nothing),
        _ => (Outcome::Continue, DocEvent::Nothing),
    }
}

/// The code member: a string is classified; a value of another shape is
/// skipped and leaves the code unknown.
fn step_code(st: &mut KadenaCmdState, t: &JsonToken) -> (r: (Outcome, DocEvent))
    requires
        old(st).wf(),
    ensures
        final(st).wf(),
        event_ok(*final(st), r.1),
        !(r.1 is Finished),
        final(st).coverage == old(st).coverage,
{
    let text = match t {
        JsonToken::Str(b) => if st.code_skipped { None } else { Some(b) },
        _ => None,
    };
    if let Some(c) = text {
        if c.len() <= CODE_CAPACITY {
            let (class, x) = classify_code(Some(c.as_slice()));
            st.code = Some(class);
            (Outcome::Complete, DocEvent::Code(class, x))
        } else {
            (Outcome::Reject, DocEvent::Nothing)
        }
    } else {
        st.code_skipped = true;
        let o = step_skip(st, t);
        match o {
            Outcome::Complete => {
                st.code = Some(CommandData::Unknown);
                (o, DocEvent::Code(CommandData::Unknown, None))
            },
            _ => (o, DocEvent::Nothing),
        }
    }
}

fn step_exec(st: &mut KadenaCmdState, t: &JsonToken) -> (r: (Outcome, DocEvent))
    requires
        old(st).wf(),
    ensures
        final(st).wf(),
        event_ok(*final(st), r.1),
        !(r.1 is Finished),
        final(st).coverage == old(st).coverage,
{
    match object_frame(&mut st.exec_body, t) {
        FrameStep::GotKey => match exec_lookup(member_key(t)) {
            Some(f) => {
                st.exec_field = f;
                (Outcome::Continue, DocEvent::Nothing)
            },
            None => (Outcome::Reject, DocEvent::Nothing),
        },
        FrameStep::StartValue => {
            st.skip = 0;
            st.code_skipped = false;
            (Outcome::Continue, DocEvent::Nothing)
        },
        FrameStep::Delegate => {
            let (o, ev) = if st.exec_field == Field::Code {
                step_code(st, t)
            } else {
                (step_skip(st, t), DocEvent::Nothing)
            };
            match o {
                Outcome::Complete => {
                    st.exec_body = ObjectPhase::SepOrEnd;
                    (Outcome::Continue, ev)
                },
                _ => (o, ev),
            }
        },
        FrameStep::Complete => (Outcome::Complete, DocEvent::Nothing),
        FrameStep::Reject => (Outcome::Reject, DocEvent::Nothing),
        _ => (Outcome::Continue, DocEvent::Nothing),
    }
}

fn step_payload(st: &mut KadenaCmdState, t: &JsonToken) -> (r: (Outcome, DocEvent))
    requires
        old(st).wf(),
    ensures
        final(st).wf(),
        event_ok(*final(st), r.1),
        !(r.1 is Finished),
        final(st).coverage == old(st).coverage,
{
    match object_frame(&mut st.payload, t) {
        FrameStep::GotKey => match payload_lookup(member_key(t)) {
            Some(f) => {
                st.payload_field = f;
                (Outcome::Continue, DocEvent::Nothing)
            },
            None => (Outcome::Reject, DocEvent::Nothing),
        },
        FrameStep::StartValue => {
            st.exec_body = ObjectPhase::Start;
            (Outcome::Continue, DocEvent::Nothing)
        },
        FrameStep::Delegate => {
            let (o, ev) = step_exec(st, t);
            match o {
                Outcome::Complete => {
                    st.payload = ObjectPhase::SepOrEnd;
                    (Outcome::Continue, ev)
                },
                _ => (o, ev),
            }
        },
        FrameStep::Complete => (Outcome::Complete, DocEvent::Nothing),
        FrameStep::Reject => (Outcome::Reject, DocEvent::Nothing),
        _ => (Outcome::Continue, DocEvent::Nothing),
    }
}

/// The state in which a document starts.
pub open spec fn initial_cmd_state() -> KadenaCmdState {
    KadenaCmdState {
        doc: ObjectPhase::Start,
        doc_field: Field::Skip,
        meta: ObjectPhase::Start,
        meta_field: Field::Skip,
        payload: ObjectPhase::Start,
        payload_field: Field::Skip,
        exec_body: ObjectPhase::Start,
        exec_field: Field::Skip,
        signers: ArrayPhase::Start,
        signer: ObjectPhase::Start,
        signer_field: Field::Skip,
        clist: ArrayPhase::Start,
        cap: ObjectPhase::Start,
        cap_field: Field::Skip,
        args: KadenaCapabilityArgsInterpState::Start,
        skip: 0,
        code_skipped: false,
        chain_id: None,
        network_id: None,
        code: None,
        pub_key: None,
        cap_name: None,
        cap_args: None,
        caps: 0,
        unrecognized: 0,
        running: CapabilityCoverage::Full,
        signer_covs: Ghost(Seq::empty()),
        signer_counts: Ghost(Seq::empty()),
        accepted: Ghost(Seq::empty()),
        coverage: None,
        finished: false,
    }
}

/// Interpreter for a whole transaction document.
pub struct KadenaCmdInterp;

impl KadenaCmdInterp {
    pub fn init(&self) -> (r: KadenaCmdState)
        ensures
            r.wf(),
            r == initial_cmd_state(),
    {
        KadenaCmdState {
            doc: ObjectPhase::Start,
            doc_field: Field::Skip,
            meta: ObjectPhase::Start,
            meta_field: Field::Skip,
            payload: ObjectPhase::Start,
            payload_field: Field::Skip,
            exec_body: ObjectPhase::Start,
            exec_field: Field::Skip,
            signers: ArrayPhase::Start,
            signer: ObjectPhase::Start,
            signer_field: Field::Skip,
            clist: ArrayPhase::Start,
            cap: ObjectPhase::Start,
            cap_field: Field::Skip,
            args: KadenaCapabilityArgsInterpState::Start,
            skip: 0,
            code_skipped: false,
            chain_id: None,
            network_id: None,
            code: None,
            pub_key: None,
            cap_name: None,
            cap_args: None,
            caps: 0,
            unrecognized: 0,
            running: CapabilityCoverage::Full,
            signer_covs: Ghost(Seq::empty()),
            signer_counts: Ghost(Seq::empty()),
            accepted: Ghost(Seq::empty()),
            coverage: None,
            finished: false,
        }
    }

    /// Consumes one token of the document. The event names what is to be shown
    /// now; `Finished` comes with `Complete` and with nothing else.
    pub fn parse(&self, st: &mut KadenaCmdState, t: &JsonToken) -> (r: (Outcome, DocEvent))
        requires
            old(st).wf(),
        ensures
            final(st).wf(),
            event_ok(*final(st), r.1),
            r.0 == Outcome::Complete <==> r.1 is Finished,
            r.0 == Outcome::Complete ==> final(st).finished,
            old(st).finished ==> r.0 == Outcome::Reject && final(st).finished,
    {
        if st.finished {
            return (Outcome::Reject, DocEvent::Nothing);
        }
        match object_frame(&mut st.doc, t) {
            FrameStep::GotKey => match cmd_lookup(member_key(t)) {
                Some(f) => {
                    if f == Field::Signers && st.coverage.is_some() {
                        return (Outcome::Reject, DocEvent::Nothing);
                    }
                    st.doc_field = f;
                    (Outcome::Continue, DocEvent::Nothing)
                },
                None => (Outcome::Reject, DocEvent::Nothing),
            },
            FrameStep::StartValue => {
                st.skip = 0;
                st.meta = ObjectPhase::Start;
                st.payload = ObjectPhase::Start;
                st.signers = ArrayPhase::Start;
                (Outcome::Continue, DocEvent::Nothing)
            },
            FrameStep::Delegate => {
                let (o, ev) = if st.doc_field == Field::Meta {
                    step_meta(st, t)
                } else if st.doc_field == Field::Payload {
                    step_payload(st, t)
                } else if st.doc_field == Field::Signers {
                    if st.coverage.is_some() {
                        (Outcome::Reject, DocEvent::Nothing)
                    } else {
                        step_signers(st, t)
                    }
                } else if st.doc_field == Field::NetworkId {
                    match (id_of(t), id_of(t)) {
                        (Some(n), Some(shown)) => {
                            st.network_id = Some(n);
                            (Outcome::Complete, DocEvent::Network(shown))
                        },
                        _ => (Outcome::Reject, DocEvent::Nothing),
                    }
                } else {
                    (step_skip(st, t), DocEvent::Nothing)
                };
                match o {
                    Outcome::Complete => {
                        st.doc = ObjectPhase::SepOrEnd;
                        (Outcome::Continue, ev)
                    },
                    _ => (o, ev),
                }
            },
            FrameStep::Complete => {
                let warning = needs_unsafe_warning(st.code, st.coverage);
                st.finished = true;
                (Outcome::Complete, DocEvent::Finished { warning })
            },
            FrameStep::Reject => (Outcome::Reject, DocEvent::Nothing),
            _ => (Outcome::Continue, DocEvent::Nothing),
        }
    }
}

} // verus!
