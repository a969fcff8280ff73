use vstd::prelude::*;
use crate::document::{DocEvent, KadenaCmdInterp, KadenaCmdState, event_ok, initial_cmd_state};
use crate::token::{JsonToken, Outcome};
use arrayvec::ArrayVec;
use crate::bounded::{new_path, path_components, path_slice, push_component};

verus! {

/// Most components that a derivation path may have.
pub const MAX_PATH_COMPONENTS: u8 = 10;

/// The little-endian 32-bit integer at `i` in `s`.
pub open spec fn le_u32(s: Seq<u8>, i: int) -> int {
    s[i] as int + 256 * (s[i + 1] as int) + 65536 * (s[i + 2] as int) + 16777216 * (s[i + 3] as int)
}

/// Incremental reader of a derivation path: a count byte, then that many
/// little-endian 32-bit components.
pub struct PathState {
    pub count: Option<u8>,
    pub components: ArrayVec<u32, 10>,
    pub pending: Vec<u8>,
    /// The bytes consumed so far.
    pub seen: Ghost<Seq<u8>>,
}

impl PathState {
    pub open spec fn wf(&self) -> bool {
        let s = self.seen@;
        &&& (s.len() == 0 <==> self.count is None)
        &&& (s.len() == 0 ==> path_components(self.components).len() == 0 && self.pending@.len() == 0)
        &&& (self.count matches Some(n) ==> n <= MAX_PATH_COMPONENTS && s[0] == n && s.len() == 1 + 4
            * path_components(self.components).len() + self.pending@.len() && self.pending@.len() < 4
            && path_components(self.components).len() * 4 + self.pending@.len() <= 4 * n
            && self.pending@ == s.subrange(1 + 4 * (path_components(self.components).len() as int), s.len() as int)
            && forall|i: int|
            0 <= i < path_components(self.components).len() ==> #[trigger] path_components(self.components)[i] as int == le_u32(s, 1 + 4 * i))
    }

    /// Every component has been read.
    pub open spec fn done(&self) -> bool {
        self.count matches Some(n) && path_components(self.components).len() == n && self.pending@.len() == 0
    }

    /// The components read so far.
    pub fn component_list(&self) -> (r: &[u32])
        ensures
            r@ == path_components(self.components),
    {
        path_slice(&self.components)
    }

    pub fn new() -> (r: PathState)
        ensures
            r.wf(),
            r.seen@.len() == 0,
    {
        PathState { count: None, components: new_path(), pending: Vec::new(), seen: Ghost(Seq::empty()) }
    }

    /// Consumes one byte: `Complete` once the last component is whole,
    /// `Reject` on a count above the limit.
    pub fn parse_byte(&mut self, b: u8) -> (r: Outcome)
        requires
            old(self).wf(),
            !old(self).done(),
        ensures
            r != Outcome::Reject ==> final(self).wf(),
            r != Outcome::Reject ==> final(self).seen@ == old(self).seen@.push(b),
            r == Outcome::Reject <==> (old(self).count is None && b > MAX_PATH_COMPONENTS),
            r == Outcome::Complete <==> (r != Outcome::Reject && final(self).done()),
    {
        let ghost s0 = self.seen@;
        let ghost s1 = s0.push(b);
        match self.count {
            None => {
                if b > MAX_PATH_COMPONENTS {
                    return Outcome::Reject;
                }
                self.count = Some(b);
                self.seen = Ghost(s1);
                assert(self.pending@ =~= s1.subrange(1, 1));
                if b == 0 {
                    Outcome::Complete
                } else {
                    Outcome::Continue
                }
            },
            Some(n) => {
                if self.pending.len() < 3 {
                    self.pending.push(b);
                    self.seen = Ghost(s1);
                    proof {
                        assert(self.pending@ =~= s1.subrange(1 + 4 * (path_components(self.components).len() as int), s1.len() as int));
                        assert forall|i: int| 0 <= i < path_components(self.components).len() implies #[trigger] path_components(self.components)[i] as int
                            == le_u32(s1, 1 + 4 * i) by {
                            assert(le_u32(s1, 1 + 4 * i) == le_u32(s0, 1 + 4 * i));
                        }
                    }
                    Outcome::Continue
                } else {
                    let b0 = self.pending[0];
                    let b1 = self.pending[1];
                    let b2 = self.pending[2];
                    assert(0 <= (b0 as int) + 256 * (b1 as int) + 65536 * (b2 as int) + 16777216 * (b as int)
                        <= 0xffff_ffff) by (nonlinear_arith)
                        requires
                            b0 <= 255,
                            b1 <= 255,
                            b2 <= 255,
                            b <= 255,
                    ;
                    let v: u32 = b0 as u32 + 256 * (b1 as u32) + 65536 * (b2 as u32) + 16777216 * (b as u32);
                    let ghost k: int = path_components(self.components).len() as int;
                    proof {
                        let base: int = 1 + 4 * k;
                        assert(s1[base] == b0 && s1[base + 1] == b1 && s1[base + 2] == b2 && s1[base + 3] == b) by {
                            assert(self.pending@[0] == s0.subrange(base, s0.len() as int)[0]);
                            assert(self.pending@[1] == s0.subrange(base, s0.len() as int)[1]);
                            assert(self.pending@[2] == s0.subrange(base, s0.len() as int)[2]);
                        }
                    }
                    let pushed = push_component(&mut self.components, v);
                    assert(pushed);
                    self.pending.clear();
                    self.seen = Ghost(s1);
                    proof {
                        assert(self.pending@ =~= s1.subrange(1 + 4 * (path_components(self.components).len() as int), s1.len() as int));
                        assert forall|i: int| 0 <= i < path_components(self.components).len() implies #[trigger] path_components(self.components)[i] as int
                            == le_u32(s1, 1 + 4 * i) by {
                            if i < k {
                                assert(le_u32(s1, 1 + 4 * i) == le_u32(s0, 1 + 4 * i));
                            }
                        }
                    }
                    if path_slice(&self.components).len() == n as usize {
                        Outcome::Complete
                    } else {
                        Outcome::Continue
                    }
                }
            },
        }
    }
}

/// Where a signing operation stands: reading the transaction, then the path.
#[derive(PartialEq, Eq, Structural, Clone, Copy, Debug)]
pub enum SignPhase {
    Transaction,
    Path,
    Done,
}

/// Resumable state of a signing operation.
pub struct SignState {
    pub phase: SignPhase,
    pub cmd: KadenaCmdState,
    pub path: PathState,
}

/// Resumable state of an address derivation.
pub struct GetAddressState {
    pub path: PathState,
}

pub open spec fn is_initial_path(p: PathState) -> bool {
    p.wf() && p.seen@.len() == 0
}

pub open spec fn is_initial_sign(x: SignState) -> bool {
    x.phase == SignPhase::Transaction && x.cmd == initial_cmd_state() && is_initial_path(x.path)
}

impl SignState {
    pub fn new() -> (r: SignState)
        ensures
            is_initial_sign(r),
    {
        SignState { phase: SignPhase::Transaction, cmd: KadenaCmdInterp.init(), path: PathState::new() }
    }

    /// Feeds one token of the transaction; once the document is complete the
    /// operation moves on to the signing path. A token out of turn is refused.
    pub fn parse_token(&mut self, t: &JsonToken) -> (r: (Outcome, DocEvent))
        requires
            old(self).cmd.wf(),
        ensures
            final(self).cmd.wf(),
            event_ok(final(self).cmd, r.1),
            old(self).phase != SignPhase::Transaction ==> r.0 == Outcome::Reject && *final(self) == *old(self),
            old(self).phase == SignPhase::Transaction ==> (final(self).phase == SignPhase::Path <==> r.0 == Outcome::Complete),
            r.0 != Outcome::Complete ==> final(self).phase == old(self).phase,
    {
        if self.phase != SignPhase::Transaction {
            return (Outcome::Reject, DocEvent::Nothing);
        }
        let r = KadenaCmdInterp.parse(&mut self.cmd, t);
        if r.0 == Outcome::Complete {
            self.phase = SignPhase::Path;
        }
        r
    }

    /// Feeds one byte of the signing path; a byte out of turn is refused.
    pub fn parse_path_byte(&mut self, b: u8) -> (r: Outcome)
        requires
            old(self).path.wf(),
            old(self).phase == SignPhase::Path ==> !old(self).path.done(),
        ensures
            old(self).phase != SignPhase::Path ==> r == Outcome::Reject && *final(self) == *old(self),
            old(self).phase == SignPhase::Path && r != Outcome::Reject ==> final(self).path.wf()
                && final(self).path.seen@ == old(self).path.seen@.push(b),
            old(self).phase == SignPhase::Path ==> (r == Outcome::Complete <==> final(self).phase == SignPhase::Done),
    {
        if self.phase != SignPhase::Path {
            return Outcome::Reject;
        }
        let r = self.path.parse_byte(b);
        if r == Outcome::Complete {
            self.phase = SignPhase::Done;
        }
        r
    }
}

impl GetAddressState {
    pub fn new() -> (r: GetAddressState)
        ensures
            is_initial_path(r.path),
    {
        GetAddressState { path: PathState::new() }
    }
}

/// The one operation that is live, with its resumable state.
pub enum ParsersState {
    NoState,
    GetAddressState(GetAddressState),
    SignState(SignState),
}

/// Discards whatever operation was in progress.
pub fn reset_parsers_state(state: &mut ParsersState)
    ensures
        *final(state) is NoState,
{
    *state = ParsersState::NoState;
}

/// The state of the address derivation, started afresh unless one is
/// already in progress.
pub fn get_get_address_state(s: &mut ParsersState) -> (r: &mut GetAddressState)
    ensures
        *old(s) is GetAddressState ==> *r == (*old(s))->GetAddressState_0,
        !(*old(s) is GetAddressState) ==> is_initial_path(r.path),
        *final(s) == ParsersState::GetAddressState(*final(r)),
{
    match s {
        ParsersState::GetAddressState(_) => {},
        _ => {
            *s = ParsersState::GetAddressState(GetAddressState::new());
        },
    }
    match s {
        ParsersState::GetAddressState(a) => a,
        _ => vstd::pervasive::unreached(),
    }
}

/// The state of the signing operation, started afresh unless one is already
/// in progress.
pub fn get_sign_state(s: &mut ParsersState) -> (r: &mut SignState)
    ensures
        *old(s) is SignState ==> *r == (*old(s))->SignState_0,
        !(*old(s) is SignState) ==> is_initial_sign(*r),
        *final(s) == ParsersState::SignState(*final(r)),
{
    match s {
        ParsersState::SignState(_) => {},
        _ => {
            *s = ParsersState::SignState(SignState::new());
        },
    }
    match s {
        ParsersState::SignState(a) => a,
        _ => vstd::pervasive::unreached(),
    }
}

} // verus!
