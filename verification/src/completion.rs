//! The completion bridge: one callback-driven native operation becomes one
//! observable resolution.
//!
//! A [`CompletionBridge`] issues a fresh [`ContextToken`] for each operation
//! and keeps its [`CompletionSlot`] in a [`CallbackRegistry`] until the
//! native callback resolves it. The reader holds an [`Awaitable`] and asks
//! the bridge for the outcome, by blocking wait or by suspension.

use vstd::prelude::*;
use std::collections::HashMap;
use crate::error::SCError;

verus! {

broadcast use vstd::std_specs::hash::group_hash_axioms;

/// The opaque key that native code gets as user data and hands back with the
/// callback. It is only ever looked up.
#[derive(Debug, Clone, Copy, PartialEq, Eq, Structural, Hash)]
pub struct ContextToken {
    pub id: u64,
}

/// A single-assignment cell: unresolved, or resolved with a result.
#[derive(Debug)]
pub struct CompletionSlot<T> {
    outcome: Option<Result<T, SCError>>,
    awaited: bool,
}

impl<T> CompletionSlot<T> {
    /// What the slot was resolved with, if it was.
    pub closed spec fn outcome(&self) -> Option<Result<T, SCError>> {
        self.outcome
    }

    /// Whether a reader still waits for this slot.
    pub closed spec fn awaited(&self) -> bool {
        self.awaited
    }

    /// What the slot holds after a resolution with `result` was tried: what
    /// it held before, if it was resolved, else `result`.
    pub open spec fn first_outcome(&self, result: Result<T, SCError>) -> Option<Result<T, SCError>> {
        if self.outcome() is Some {
            self.outcome()
        } else {
            Some(result)
        }
    }

    /// An unresolved slot with a reader.
    pub fn new() -> (slot: Self)
        ensures
            slot.outcome() is None,
            slot.awaited(),
    {
        CompletionSlot { outcome: None, awaited: true }
    }

    /// Whether the slot was resolved.
    pub fn is_resolved(&self) -> (b: bool)
        ensures
            b == (self.outcome() is Some),
    {
        self.outcome.is_some()
    }

    /// Whether a reader still waits for this slot.
    pub fn is_awaited(&self) -> (b: bool)
        ensures
            b == self.awaited(),
    {
        self.awaited
    }

    /// Resolves the slot. A slot is resolved once: a second resolution is a
    /// fault of the caller.
    pub fn resolve(&mut self, result: Result<T, SCError>)
        requires
            old(self).outcome() is None,
        ensures
            final(self).outcome() == Some(result),
            final(self).awaited() == old(self).awaited(),
    {
        self.outcome = Some(result);
    }

    /// Resolves the slot unless it is resolved already: the first result
    /// stands, and a later one is handed back.
    pub fn resolve_once(&mut self, result: Result<T, SCError>) -> (rejected: Option<
        Result<T, SCError>,
    >)
        ensures
            rejected == (if old(self).outcome() is Some {
                Some(result)
            } else {
                None
            }),
            final(self).outcome() == old(self).first_outcome(result),
            final(self).awaited() == old(self).awaited(),
    {
        if self.outcome.is_some() {
            Some(result)
        } else {
            self.outcome = Some(result);
            None
        }
    }

    /// Records that the reader has gone. What the slot holds stays.
    pub fn abandon(&mut self)
        ensures
            !final(self).awaited(),
            final(self).outcome() == old(self).outcome(),
    {
        self.awaited = false;
    }

    /// Ends the slot and hands out what it was resolved with.
    pub fn into_outcome(self) -> (r: Option<Result<T, SCError>>)
        ensures
            r == self.outcome(),
    {
        self.outcome
    }
}

/// What the registry found for a callback.
#[derive(Debug)]
pub enum Lookup<T> {
    /// The token was registered: its slot, resolved with the result.
    Resolved(CompletionSlot<T>),
    /// The token is not registered: the result, untouched.
    Unknown(Result<T, SCError>),
}

/// The table from tokens to the slots that wait for their callback.
pub struct CallbackRegistry<T> {
    slots: HashMap<u64, CompletionSlot<T>>,
}

impl<T> CallbackRegistry<T> {
    /// The registered tokens, each with its slot.
    pub closed spec fn entries(&self) -> Map<u64, CompletionSlot<T>> {
        self.slots@
    }

    /// The registry's invariant: every registered slot is unresolved.
    pub open spec fn wf(&self) -> bool {
        forall|t: u64| #[trigger]
            self.entries().contains_key(t) ==> self.entries()[t].outcome() is None
    }

    /// A registry without entries.
    pub fn new() -> (registry: Self)
        ensures
            registry.wf(),
            registry.entries() == Map::<u64, CompletionSlot<T>>::empty(),
    {
        CallbackRegistry { slots: HashMap::new() }
    }

    /// How many tokens are registered.
    pub fn len(&self) -> (n: usize)
        ensures
            n == self.entries().len(),
    {
        self.slots.len()
    }

    /// Whether `token` is registered.
    pub fn contains(&self, token: ContextToken) -> (b: bool)
        ensures
            b == self.entries().contains_key(token.id),
    {
        self.slots.contains_key(&token.id)
    }

    /// Registers `slot` under `token`. A token is never reused, and only an
    /// unresolved slot can wait for a callback: a token that is registered
    /// already, or a slot that is resolved already, is refused, and the slot
    /// is handed back with the registry as it was.
    pub fn register(&mut self, token: ContextToken, slot: CompletionSlot<T>) -> (r: Result<
        (),
        CompletionSlot<T>,
    >)
        requires
            old(self).wf(),
        ensures
            final(self).wf(),
            r is Ok <==> !old(self).entries().contains_key(token.id) && slot.outcome() is None,
            r is Ok ==> final(self).entries() == old(self).entries().insert(token.id, slot),
            r is Err ==> r->Err_0 == slot && final(self).entries() == old(self).entries(),
    {
        if self.slots.contains_key(&token.id) || slot.is_resolved() {
            Err(slot)
        } else {
            self.slots.insert(token.id, slot);
            Ok(())
        }
    }

    /// The callback for `token` has fired with `result`. The token is
    /// looked up and removed in one step, and its slot is handed out,
    /// resolved. For a token that is not registered, as for a second
    /// callback, nothing happens, and the result is handed back.
    pub fn resolve(&mut self, token: ContextToken, result: Result<T, SCError>) -> (found: Lookup<T>)
        requires
            old(self).wf(),
        ensures
            final(self).wf(),
            final(self).entries() == old(self).entries().remove(token.id),
            old(self).entries().contains_key(token.id) ==> {
                &&& found matches Lookup::Resolved(slot)
                &&& slot.outcome() == Some(result)
                &&& slot.awaited() == old(self).entries()[token.id].awaited()
            },
            !old(self).entries().contains_key(token.id) ==> found == Lookup::Unknown(result),
    {
        match self.slots.remove(&token.id) {
            Some(mut slot) => {
                slot.resolve(result);
                Lookup::Resolved(slot)
            },
            None => Lookup::Unknown(result),
        }
    }

    /// The reader of `token` has gone. The entry stays until the callback
    /// fires, marked so that its result is then discarded. Returns whether
    /// the token is registered.
    pub fn abandon(&mut self, token: ContextToken) -> (found: bool)
        requires
            old(self).wf(),
        ensures
            final(self).wf(),
            found == old(self).entries().contains_key(token.id),
            final(self).entries().dom() == old(self).entries().dom(),
            forall|t: u64|
                t != token.id && old(self).entries().contains_key(t) ==> #[trigger] final(
                    self).entries()[t] == old(self).entries()[t],
            found ==> !final(self).entries()[token.id].awaited(),
    {
        match self.slots.remove(&token.id) {
            Some(mut slot) => {
                slot.abandon();
                self.slots.insert(token.id, slot);
                assert(self.entries().dom() =~= old(self).entries().dom());
                true
            },
            None => {
                assert(self.entries().dom() =~= old(self).entries().dom());
                false
            },
        }
    }
}

/// The reader's end of one completion. There is one reader, so it cannot be
/// copied.
#[derive(Debug, PartialEq, Eq)]
pub struct Awaitable {
    token: ContextToken,
}

impl Awaitable {
    /// The token of the completion that is awaited.
    pub closed spec fn token_of(&self) -> ContextToken {
        self.token
    }

    /// The token of the completion that is awaited.
    pub fn token(&self) -> (t: ContextToken)
        ensures
            t == self.token_of(),
    {
        self.token
    }
}

/// What a reader finds when it asks for the outcome.
#[derive(Debug)]
pub enum Readiness<T> {
    /// Not resolved yet: the reader parks or yields, and asks again.
    Pending(Awaitable),
    /// Resolved, with the result.
    Ready(Result<T, SCError>),
}

/// What became of one callback.
#[derive(Debug, Clone, Copy, PartialEq, Eq, Structural)]
pub enum Resolution {
    /// The slot was resolved and waits for its reader.
    Delivered,
    /// The reader had abandoned the completion: the result was discarded.
    Discarded,
    /// The token is not registered: the callback was ignored.
    Unknown,
}

impl Resolution {
    /// The fault that a callback for an unregistered token stands for. It is
    /// recovered where it happens and never surfaced to a caller.
    pub fn violation(self) -> (e: Option<SCError>)
        ensures
            e == (if self == Resolution::Unknown {
                Some(SCError::InternalProtocolViolation)
            } else {
                None
            }),
    {
        match self {
            Resolution::Unknown => Some(SCError::InternalProtocolViolation),
            _ => None,
        }
    }
}

/// The state of a bridge, as maps.
pub struct BridgeState<T> {
    /// Tokens whose callback has not fired, each with whether its reader
    /// still waits.
    pub pending: Map<u64, bool>,
    /// Results that wait for their reader.
    pub ready: Map<u64, Result<T, SCError>>,
    /// How many tokens were issued: the next token.
    pub issued: nat,
}

impl<T> BridgeState<T> {
    /// Nothing pending, nothing ready, no token issued.
    pub open spec fn initial() -> Self {
        BridgeState { pending: Map::empty(), ready: Map::empty(), issued: 0 }
    }

    /// The state after a new completion was opened under the next token.
    pub open spec fn open(self) -> Self {
        BridgeState {
            pending: self.pending.insert(self.issued as u64, true),
            ready: self.ready,
            issued: self.issued + 1,
        }
    }

    /// What becomes of a callback for `token`.
    pub open spec fn resolution(self, token: u64) -> Resolution {
        if !self.pending.contains_key(token) {
            Resolution::Unknown
        } else if self.pending[token] {
            Resolution::Delivered
        } else {
            Resolution::Discarded
        }
    }

    /// The state after a callback for `token` with `result`.
    pub open spec fn resolve(self, token: u64, result: Result<T, SCError>) -> Self {
        match self.resolution(token) {
            Resolution::Unknown => self,
            Resolution::Discarded => BridgeState {
                pending: self.pending.remove(token),
                ready: self.ready,
                issued: self.issued,
            },
            Resolution::Delivered => BridgeState {
                pending: self.pending.remove(token),
                ready: self.ready.insert(token, result),
                issued: self.issued,
            },
        }
    }

    /// The result that a callback for `token` hands back because nobody is
    /// there to take it: none if it is delivered, else `result`.
    pub open spec fn spare(self, token: u64, result: Result<T, SCError>) -> Option<
        Result<T, SCError>,
    > {
        if self.resolution(token) == Resolution::Delivered {
            None
        } else {
            Some(result)
        }
    }

    /// What a blocking wait on `token` observes: the result, once there is one.
    pub open spec fn blocking_observation(self, token: u64) -> Option<Result<T, SCError>> {
        if self.ready.contains_key(token) {
            Some(self.ready[token])
        } else {
            None
        }
    }

    /// What a suspended reader of `token` observes when it is woken.
    pub open spec fn suspended_observation(self, token: u64) -> Option<Result<T, SCError>> {
        if self.ready.dom().contains(token) {
            Some(self.ready.index(token))
        } else {
            None
        }
    }

    /// The state after the reader of `token` took its result, if there was one.
    pub open spec fn consume(self, token: u64) -> Self {
        BridgeState { pending: self.pending, ready: self.ready.remove(token), issued: self.issued }
    }

    /// The state after the reader of `token` went away.
    pub open spec fn abandon(self, token: u64) -> Self {
        BridgeState {
            pending: if self.pending.contains_key(token) {
                self.pending.insert(token, false)
            } else {
                self.pending
            },
            ready: self.ready.remove(token),
            issued: self.issued,
        }
    }

    /// No token is both pending and ready, and every token was issued.
    pub open spec fn consistent(self) -> bool {
        &&& forall|t: u64| self.pending.contains_key(t) ==> !self.ready.contains_key(t)
        &&& forall|t: u64| self.pending.contains_key(t) ==> (t as nat) < self.issued
        &&& forall|t: u64| self.ready.contains_key(t) ==> (t as nat) < self.issued
    }
}

/// A blocking wait and a suspension observe the same thing.
pub proof fn lemma_read_modes_agree<T>(state: BridgeState<T>, token: u64)
    ensures
        state.blocking_observation(token) == state.suspended_observation(token),
{
}

/// A token is resolved at most once: after a callback for `token`, a second
/// callback for it is ignored and changes nothing, whatever it carries.
pub proof fn lemma_second_resolution_is_ignored<T>(
    state: BridgeState<T>,
    token: u64,
    first: Result<T, SCError>,
    second: Result<T, SCError>,
)
    ensures
        state.resolve(token, first).resolution(token) == Resolution::Unknown,
        state.resolve(token, first).resolve(token, second) == state.resolve(token, first),
{
}

/// The first callback for an awaited token decides what the reader
/// observes, by either mode, and a second callback does not change it.
pub proof fn lemma_one_resolution_is_observed<T>(
    state: BridgeState<T>,
    token: u64,
    first: Result<T, SCError>,
    second: Result<T, SCError>,
)
    requires
        state.resolution(token) == Resolution::Delivered,
    ensures
        state.resolve(token, first).blocking_observation(token) == Some(first),
        state.resolve(token, first).resolve(token, second).blocking_observation(token) == Some(
            first,
        ),
        state.resolve(token, first).resolve(token, second).suspended_observation(token) == Some(
            first,
        ),
{
}

/// Opening, resolving, consuming and abandoning keep a state consistent.
pub proof fn lemma_consistency_is_kept<T>(
    state: BridgeState<T>,
    token: u64,
    result: Result<T, SCError>,
)
    requires
        state.consistent(),
        state.issued < u64::MAX,
    ensures
        state.open().consistent(),
        state.resolve(token, result).consistent(),
        state.consume(token).consistent(),
        state.abandon(token).consistent(),
{
}

/// A token is never reused: the token that the next completion gets is
/// neither pending nor ready, and it differs from the one after it.
pub proof fn lemma_next_token_is_fresh<T>(state: BridgeState<T>)
    requires
        state.consistent(),
        state.issued < u64::MAX,
    ensures
        !state.pending.contains_key(state.issued as u64),
        !state.ready.contains_key(state.issued as u64),
        state.open().issued as u64 != state.issued as u64,
{
}

/// The registry stays bounded: once a completion that was opened is
/// resolved, the pending tokens are those from before it was opened.
pub proof fn lemma_resolution_ends_registration<T>(state: BridgeState<T>, result: Result<T, SCError>)
    requires
        state.consistent(),
        state.issued < u64::MAX,
    ensures
        state.open().resolve(state.issued as u64, result).pending == state.pending,
        state.open().resolution(state.issued as u64) == Resolution::Delivered,
{
    let token = state.issued as u64;
    assert(state.pending.insert(token, true).remove(token) =~= state.pending);
}

/// The bridge between native callbacks and their readers.
pub struct CompletionBridge<T> {
    registry: CallbackRegistry<T>,
    ready: HashMap<u64, Result<T, SCError>>,
    issued: u64,
}

impl<T> View for CompletionBridge<T> {
    type V = BridgeState<T>;

    closed spec fn view(&self) -> BridgeState<T> {
        BridgeState {
            pending: Map::new(
                |t: u64| self.registry.entries().contains_key(t),
                |t: u64| self.registry.entries()[t].awaited(),
            ),
            ready: self.ready@,
            issued: self.issued as nat,
        }
    }
}

impl<T> CompletionBridge<T> {
    /// The bridge's invariant: its state is consistent, and every registered
    /// slot is unresolved.
    pub closed spec fn wf(&self) -> bool {
        &&& self@.consistent()
        &&& self.registry.wf()
    }

    /// A bridge on which nothing was opened yet.
    pub fn new() -> (bridge: Self)
        ensures
            bridge.wf(),
            bridge@ == BridgeState::<T>::initial(),
    {
        let bridge = CompletionBridge {
            registry: CallbackRegistry::new(),
            ready: HashMap::new(),
            issued: 0,
        };
        assert(bridge@.pending =~= Map::<u64, bool>::empty());
        bridge
    }

    /// How many tokens were issued so far.
    pub fn issued(&self) -> (n: u64)
        ensures
            n == self@.issued,
    {
        self.issued
    }

    /// How many tokens wait for their callback.
    pub fn pending_count(&self) -> (n: usize)
        ensures
            n == self@.pending.dom().len(),
    {
        assert(self@.pending.dom() =~= self.registry.entries().dom());
        self.registry.len()
    }

    /// Whether `token` waits for its callback.
    pub fn is_pending(&self, token: ContextToken) -> (b: bool)
        ensures
            b == self@.pending.contains_key(token.id),
    {
        self.registry.contains(token)
    }

    /// Opens a completion: a fresh slot is registered under a token that was
    /// never used before. The token goes to the native call, the awaitable to
    /// the reader. `None` only when all tokens are used up.
    pub fn open(&mut self) -> (r: Option<(Awaitable, ContextToken)>)
        requires
            old(self).wf(),
        ensures
            final(self).wf(),
            r is Some <==> old(self)@.issued < u64::MAX,
            r is None ==> final(self)@ == old(self)@,
            r is Some ==> {
                &&& final(self)@ == old(self)@.open()
                &&& r->Some_0.1.id == old(self)@.issued
                &&& r->Some_0.0.token_of() == r->Some_0.1
                &&& !old(self)@.pending.contains_key(r->Some_0.1.id)
                &&& !old(self)@.ready.contains_key(r->Some_0.1.id)
            },
    {
        if self.issued == u64::MAX {
            return None;
        }
        let token = ContextToken { id: self.issued };
        let ghost before = self@;
        let _ = self.registry.register(token, CompletionSlot::new());
        self.issued = self.issued + 1;
        assert(self@.pending =~= before.open().pending);
        Some((Awaitable { token }, token))
    }

    /// The callback for `token` has fired with `result`. The token is looked
    /// up and removed in one step. If its reader still waits, the result is
    /// kept for it; if the reader has gone, the result is not kept; if the
    /// token is not registered, as for a second callback, nothing happens.
    /// A result that is not kept is handed back, so that what it owns can be
    /// released.
    pub fn resolve(&mut self, token: ContextToken, result: Result<T, SCError>) -> (res: (
        Resolution,
        Option<Result<T, SCError>>,
    ))
        requires
            old(self).wf(),
        ensures
            final(self).wf(),
            res.0 == old(self)@.resolution(token.id),
            res.1 == old(self)@.spare(token.id, result),
            final(self)@ == old(self)@.resolve(token.id, result),
    {
        let ghost before = self@;
        match self.registry.resolve(token, result) {
            Lookup::Unknown(result) => {
                assert(self@.pending =~= before.pending);
                (Resolution::Unknown, Some(result))
            },
            Lookup::Resolved(slot) => {
                assert(self@.pending =~= before.pending.remove(token.id));
                let awaited = slot.is_awaited();
                let result = slot.into_outcome().unwrap();
                if awaited {
                    self.ready.insert(token.id, result);
                    (Resolution::Delivered, None)
                } else {
                    (Resolution::Discarded, Some(result))
                }
            },
        }
    }

    /// One step of a blocking wait: the result if the completion was
    /// resolved, else the awaitable back, for the caller to park on.
    pub fn wait_step(&mut self, awaitable: Awaitable) -> (r: Readiness<T>)
        requires
            old(self).wf(),
        ensures
            final(self).wf(),
            match old(self)@.blocking_observation(awaitable.token_of().id) {
                Some(result) => r == Readiness::Ready(result) && final(self)@ == old(self)@.consume(
                    awaitable.token_of().id,
                ),
                None => r == Readiness::<T>::Pending(awaitable) && final(self)@ == old(self)@,
            },
    {
        self.take_ready(awaitable)
    }

    /// One poll of a suspended reader: the result if the completion was
    /// resolved, else the awaitable back, for the caller to yield on.
    pub fn poll(&mut self, awaitable: Awaitable) -> (r: Readiness<T>)
        requires
            old(self).wf(),
        ensures
            final(self).wf(),
            match old(self)@.suspended_observation(awaitable.token_of().id) {
                Some(result) => r == Readiness::Ready(result) && final(self)@ == old(self)@.consume(
                    awaitable.token_of().id,
                ),
                None => r == Readiness::<T>::Pending(awaitable) && final(self)@ == old(self)@,
            },
    {
        self.take_ready(awaitable)
    }

    fn take_ready(&mut self, awaitable: Awaitable) -> (r: Readiness<T>)
        requires
            old(self).wf(),
        ensures
            final(self).wf(),
            old(self)@.ready.contains_key(awaitable.token_of().id) ==> r == Readiness::Ready(
                old(self)@.ready[awaitable.token_of().id],
            ) && final(self)@ == old(self)@.consume(awaitable.token_of().id),
            !old(self)@.ready.contains_key(awaitable.token_of().id) ==> r == Readiness::<
                T,
            >::Pending(awaitable) && final(self)@ == old(self)@,
    {
        let ghost before = self@;
        match self.ready.remove(&awaitable.token.id) {
            Some(result) => {
                assert(self@.pending =~= before.pending);
                Readiness::Ready(result)
            },
            None => {
                assert(self@.pending =~= before.pending);
                assert(self@.ready =~= before.ready);
                Readiness::Pending(awaitable)
            },
        }
    }

    /// The reader gives up. A result that waits for it is handed back, so
    /// that what it owns can be released. A token whose callback has not
    /// fired stays registered until it does, and its result is then
    /// discarded: the callback never meets a missing entry.
    pub fn abandon(&mut self, awaitable: Awaitable) -> (unread: Option<Result<T, SCError>>)
        requires
            old(self).wf(),
        ensures
            final(self).wf(),
            unread == old(self)@.blocking_observation(awaitable.token_of().id),
            final(self)@ == old(self)@.abandon(awaitable.token_of().id),
    {
        let ghost before = self@;
        let token = awaitable.token;
        let unread = self.ready.remove(&token.id);
        let _ = self.registry.abandon(token);
        assert(self@.pending =~= before.abandon(token.id).pending);
        unread
    }
}

} // verus!
