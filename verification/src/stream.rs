//! The stream session: the state machine of one continuous capture.
//!
//! `Idle -> Starting -> Running <-> Reconfiguring -> Stopping -> Stopped`.
//! Each lifecycle operation comes in two halves. The first half looks at the
//! state, moves the session, and names the handle for the native call. The
//! second half takes what the native completion reported. Frame delivery is
//! no transition: it only asks whether a frame is forwarded, and to whom.

use vstd::prelude::*;
use crate::error::SCError;
use crate::handle::{NativeHandle, OwnedHandle, ResourceKind};

verus! {

/// The lifecycle states of a session.
#[derive(Debug, Clone, Copy, PartialEq, Eq, Structural, Hash)]
pub enum StreamState {
    Idle,
    Starting,
    Running,
    Reconfiguring,
    Stopping,
    /// Terminal: a new session must be built to capture again.
    Stopped,
}

/// The kinds of frame that a stream delivers.
#[derive(Debug, Clone, Copy, PartialEq, Eq, Structural, Hash)]
pub enum SCStreamOutputType {
    /// Video frames.
    Screen,
    /// Audio samples.
    Audio,
}

impl SCStreamOutputType {
    /// The number by which the native layer knows the kind.
    pub open spec fn raw(self) -> i32 {
        match self {
            SCStreamOutputType::Screen => 0,
            SCStreamOutputType::Audio => 1,
        }
    }

    /// The number by which the native layer knows the kind: 0 for video,
    /// 1 for audio.
    pub fn as_i32(self) -> (n: i32)
        ensures
            n == self.raw(),
    {
        match self {
            SCStreamOutputType::Screen => 0,
            SCStreamOutputType::Audio => 1,
        }
    }

    /// The kind that the native layer knows by `n`, if there is one.
    pub fn from_i32(n: i32) -> (kind: Option<Self>)
        ensures
            kind is Some <==> n == 0 || n == 1,
            kind is Some ==> kind->Some_0.raw() == n,
    {
        if n == 0 {
            Some(SCStreamOutputType::Screen)
        } else if n == 1 {
            Some(SCStreamOutputType::Audio)
        } else {
            None
        }
    }
}

/// A change that was proposed and waits for its native completion.
#[derive(Debug, Clone, Copy, PartialEq, Eq, Structural)]
pub enum Candidate {
    Configuration(NativeHandle),
    Filter(NativeHandle),
}

/// What can happen to a session.
#[derive(Debug, Clone, Copy, PartialEq, Eq, Structural)]
pub enum SessionEvent {
    Start,
    StartCompleted { success: bool },
    Update { candidate: Candidate },
    ReconfigureCompleted { success: bool },
    Stop,
    StopCompleted { success: bool },
    Deliver { kind: SCStreamOutputType },
    SetConsumer { kind: SCStreamOutputType, consumer: u64 },
    RemoveConsumer { kind: SCStreamOutputType },
}

/// A session, as plain values.
pub struct SessionModel {
    pub state: StreamState,
    /// The flag that admits deliveries. It is on from the beginning and goes
    /// off once, when a stop begins.
    pub accepting: bool,
    pub stream: NativeHandle,
    /// The configuration in force.
    pub configuration: NativeHandle,
    /// The filter in force.
    pub filter: NativeHandle,
    /// The change whose completion is awaited.
    pub candidate: Option<Candidate>,
    pub screen_consumer: Option<u64>,
    pub audio_consumer: Option<u64>,
}

impl SessionModel {
    /// A new session: idle, admitting deliveries, without consumers.
    pub open spec fn initial(
        stream: NativeHandle,
        filter: NativeHandle,
        configuration: NativeHandle,
    ) -> Self {
        SessionModel {
            state: StreamState::Idle,
            accepting: true,
            stream,
            configuration,
            filter,
            candidate: None,
            screen_consumer: None,
            audio_consumer: None,
        }
    }

    /// The consumer registered for `kind`.
    pub open spec fn consumer(self, kind: SCStreamOutputType) -> Option<u64> {
        match kind {
            SCStreamOutputType::Screen => self.screen_consumer,
            SCStreamOutputType::Audio => self.audio_consumer,
        }
    }

    /// Whether a lifecycle event is due in this state. Deliveries and
    /// consumer changes are always taken.
    pub open spec fn accepts(self, event: SessionEvent) -> bool {
        match event {
            SessionEvent::Start => self.state == StreamState::Idle,
            SessionEvent::StartCompleted { .. } => self.state == StreamState::Starting,
            SessionEvent::Update { .. } => self.state == StreamState::Running,
            SessionEvent::ReconfigureCompleted { .. } => self.state == StreamState::Reconfiguring,
            SessionEvent::Stop => self.state != StreamState::Stopped,
            SessionEvent::StopCompleted { .. } => self.state == StreamState::Stopping,
            _ => true,
        }
    }

    /// Whether a frame of `kind` that arrives now goes to a consumer.
    pub open spec fn forwards(self, kind: SCStreamOutputType) -> bool {
        &&& self.accepting
        &&& (self.state == StreamState::Running || self.state == StreamState::Reconfiguring)
        &&& self.consumer(kind) is Some
    }

    /// Whether deliveries are shut out for good.
    pub open spec fn closed(self) -> bool {
        !self.accepting || self.state == StreamState::Stopped
    }

    /// The session after `candidate` came into force.
    pub open spec fn applied(self, candidate: Candidate) -> Self {
        match candidate {
            Candidate::Configuration(h) => SessionModel { configuration: h, ..self },
            Candidate::Filter(h) => SessionModel { filter: h, ..self },
        }
    }

    /// The session after one event. An event that is not due changes nothing.
    pub open spec fn step(self, event: SessionEvent) -> Self {
        if !self.accepts(event) {
            self
        } else {
            match event {
                SessionEvent::Start => SessionModel { state: StreamState::Starting, ..self },
                SessionEvent::StartCompleted { success } => SessionModel {
                    state: if success {
                        StreamState::Running
                    } else {
                        StreamState::Idle
                    },
                    ..self
                },
                SessionEvent::Update { candidate } => SessionModel {
                    state: StreamState::Reconfiguring,
                    candidate: Some(candidate),
                    ..self
                },
                SessionEvent::ReconfigureCompleted { success } => {
                    let next = SessionModel {
                        state: StreamState::Running,
                        candidate: None,
                        ..self
                    };
                    if success && self.candidate is Some {
                        next.applied(self.candidate->Some_0)
                    } else {
                        next
                    }
                },
                SessionEvent::Stop => SessionModel {
                    state: StreamState::Stopping,
                    accepting: false,
                    ..self
                },
                SessionEvent::StopCompleted { success } => SessionModel {
                    state: if success {
                        StreamState::Stopped
                    } else {
                        StreamState::Stopping
                    },
                    ..self
                },
                SessionEvent::Deliver { .. } => self,
                SessionEvent::SetConsumer { kind, consumer } => match kind {
                    SCStreamOutputType::Screen => SessionModel {
                        screen_consumer: Some(consumer),
                        ..self
                    },
                    SCStreamOutputType::Audio => SessionModel {
                        audio_consumer: Some(consumer),
                        ..self
                    },
                },
                SessionEvent::RemoveConsumer { kind } => match kind {
                    SCStreamOutputType::Screen => SessionModel { screen_consumer: None, ..self },
                    SCStreamOutputType::Audio => SessionModel { audio_consumer: None, ..self },
                },
            }
        }
    }

    /// The session after a sequence of events, first to last.
    pub open spec fn run(self, events: Seq<SessionEvent>) -> Self
        decreases events.len(),
    {
        if events.len() == 0 {
            self
        } else {
            self.step(events[0]).run(events.skip(1))
        }
    }

    /// How many of the deliveries among `events` go to a consumer.
    pub open spec fn forwarded_count(self, events: Seq<SessionEvent>) -> nat
        decreases events.len(),
    {
        if events.len() == 0 {
            0
        } else {
            let here: nat = match events[0] {
                SessionEvent::Deliver { kind } => if self.forwards(kind) {
                    1
                } else {
                    0
                },
                _ => 0,
            };
            here + self.step(events[0]).forwarded_count(events.skip(1))
        }
    }
}

impl SessionModel {
    /// Whether the flag that admits deliveries is in step with the state:
    /// it is off exactly from `Stopping` on.
    pub open spec fn flag_in_step(self) -> bool {
        self.accepting <==> !(self.state == StreamState::Stopping || self.state
            == StreamState::Stopped)
    }
}

/// The flag that admits deliveries goes off exactly when a stop begins: a
/// session whose flag is in step with its state, as a new session's is,
/// keeps it so through every run. The flag is off in `Stopping` and
/// `Stopped` and on in every other state.
pub proof fn lemma_flag_flips_with_stop(session: SessionModel, events: Seq<SessionEvent>)
    requires
        session.flag_in_step(),
    ensures
        session.run(events).flag_in_step(),
    decreases events.len(),
{
    if events.len() > 0 {
        lemma_flag_flips_with_stop(session.step(events[0]), events.skip(1));
    }
}

/// A new session has its flag in step with its state.
pub proof fn lemma_new_session_flag(
    stream: NativeHandle,
    filter: NativeHandle,
    configuration: NativeHandle,
)
    ensures
        SessionModel::initial(stream, filter, configuration).flag_in_step(),
        !SessionModel::initial(stream, filter, configuration).closed(),
{
}

/// Once deliveries are shut out they stay shut out, whatever happens.
pub proof fn lemma_closed_stays_closed(session: SessionModel, event: SessionEvent)
    requires
        session.closed(),
    ensures
        session.step(event).closed(),
        forall|kind: SCStreamOutputType| !session.forwards(kind),
{
}

/// A session that is shut for deliveries forwards none of them, whatever
/// else happens in between.
pub proof fn lemma_closed_forwards_nothing(session: SessionModel, events: Seq<SessionEvent>)
    requires
        session.closed(),
    ensures
        session.forwarded_count(events) == 0,
    decreases events.len(),
{
    if events.len() > 0 {
        lemma_closed_stays_closed(session, events[0]);
        lemma_closed_forwards_nothing(session.step(events[0]), events.skip(1));
    }
}

/// The count of forwarded frames over two stretches of events is the sum of
/// the counts over each.
pub proof fn lemma_forwarded_count_splits(
    session: SessionModel,
    before: Seq<SessionEvent>,
    after: Seq<SessionEvent>,
)
    ensures
        session.forwarded_count(before + after) == session.forwarded_count(before) + session.run(
            before,
        ).forwarded_count(after),
    decreases before.len(),
{
    if before.len() == 0 {
        assert(before + after =~= after);
    } else {
        assert((before + after)[0] == before[0]);
        assert((before + after).skip(1) =~= before.skip(1) + after);
        lemma_forwarded_count_splits(session.step(before[0]), before.skip(1), after);
    }
}

/// A delivery that arrives after a stop has begun is never forwarded: the
/// count of forwarded frames stops growing where the stop begins, whatever
/// was delivered before and whatever arrives later.
pub proof fn lemma_no_forwarding_after_stop(
    session: SessionModel,
    before: Seq<SessionEvent>,
    after: Seq<SessionEvent>,
)
    ensures
        session.forwarded_count(before + seq![SessionEvent::Stop] + after)
            == session.forwarded_count(before),
{
    let at_stop = session.run(before);
    let stop = seq![SessionEvent::Stop];
    lemma_forwarded_count_splits(session, before + stop, after);
    lemma_forwarded_count_splits(session, before, stop);
    lemma_forwarded_count_splits(at_stop, stop, Seq::<SessionEvent>::empty());
    assert(stop + Seq::<SessionEvent>::empty() =~= stop);
    assert(stop.skip(1) =~= Seq::<SessionEvent>::empty());
    assert(at_stop.forwarded_count(stop) == 0) by {
        reveal_with_fuel(SessionModel::forwarded_count, 2);
    }
    assert(at_stop.run(stop) == at_stop.step(SessionEvent::Stop)) by {
        reveal_with_fuel(SessionModel::run, 2);
    }
    lemma_run_splits(session, before, stop);
    lemma_closed_forwards_nothing(at_stop.step(SessionEvent::Stop), after);
}

/// Running two stretches of events one after the other is running them as one.
pub proof fn lemma_run_splits(
    session: SessionModel,
    before: Seq<SessionEvent>,
    after: Seq<SessionEvent>,
)
    ensures
        session.run(before + after) == session.run(before).run(after),
    decreases before.len(),
{
    if before.len() == 0 {
        assert(before + after =~= after);
    } else {
        assert((before + after)[0] == before[0]);
        assert((before + after).skip(1) =~= before.skip(1) + after);
        lemma_run_splits(session.step(before[0]), before.skip(1), after);
    }
}

/// A session that is started, reconfigured, reconfigured again without
/// success and then stopped ends stopped. The failed reconfiguration leaves
/// it running with the configuration it had, and the stop after it goes
/// through.
pub proof fn lemma_failed_reconfigure_keeps_running(
    session: SessionModel,
    first: NativeHandle,
    second: NativeHandle,
)
    requires
        session.state == StreamState::Idle,
    ensures
        ({
            let running = session.step(SessionEvent::Start).step(
                SessionEvent::StartCompleted { success: true },
            ).step(SessionEvent::Update { candidate: Candidate::Configuration(first) }).step(
                SessionEvent::ReconfigureCompleted { success: true },
            );
            let failed = running.step(
                SessionEvent::Update { candidate: Candidate::Configuration(second) },
            ).step(SessionEvent::ReconfigureCompleted { success: false });
            &&& running.state == StreamState::Running
            &&& running.configuration == first
            &&& failed.state == StreamState::Running
            &&& failed.configuration == first
            &&& failed.filter == session.filter
            &&& failed.accepts(SessionEvent::Stop)
            &&& failed.step(SessionEvent::Stop).step(
                SessionEvent::StopCompleted { success: true },
            ).state == StreamState::Stopped
        }),
{
}

/// A stopped session stays stopped, whatever happens.
pub proof fn lemma_stopped_is_terminal(session: SessionModel, event: SessionEvent)
    requires
        session.state == StreamState::Stopped,
    ensures
        session.step(event).state == StreamState::Stopped,
{
}


/// A change that waits for its native completion, with the handle it owns.
#[derive(Debug)]
pub enum PendingUpdate {
    Configuration(OwnedHandle),
    Filter(OwnedHandle),
}

impl PendingUpdate {
    /// The change, as plain values.
    pub open spec fn candidate(&self) -> Candidate {
        match self {
            PendingUpdate::Configuration(h) => Candidate::Configuration(h.raw()),
            PendingUpdate::Filter(h) => Candidate::Filter(h.raw()),
        }
    }

    /// The handle that the change owns.
    pub fn into_handle(self) -> (h: OwnedHandle)
        ensures
            h == match self {
                PendingUpdate::Configuration(c) => c,
                PendingUpdate::Filter(f) => f,
            },
    {
        match self {
            PendingUpdate::Configuration(c) => c,
            PendingUpdate::Filter(f) => f,
        }
    }
}

/// What became of one delivered frame. Either way the sample comes back:
/// to be handed to the consumer, or to be released.
#[derive(Debug)]
pub enum Delivery {
    /// The frame goes to `consumer`.
    Forwarded { consumer: u64, sample: OwnedHandle },
    /// The frame goes to nobody.
    Dropped { sample: OwnedHandle },
}

/// The handles of a stopped session, for their owners to release.
#[derive(Debug)]
pub struct Teardown {
    pub stream: OwnedHandle,
    pub configuration: OwnedHandle,
    pub filter: OwnedHandle,
    /// A change that was proposed and never came into force.
    pub candidate: Option<OwnedHandle>,
}

/// One continuous capture.
#[derive(Debug)]
pub struct StreamSession {
    stream: OwnedHandle,
    configuration: OwnedHandle,
    filter: OwnedHandle,
    candidate: Option<PendingUpdate>,
    state: StreamState,
    accepting: bool,
    screen_consumer: Option<u64>,
    audio_consumer: Option<u64>,
}

impl View for StreamSession {
    type V = SessionModel;

    closed spec fn view(&self) -> SessionModel {
        SessionModel {
            state: self.state,
            accepting: self.accepting,
            stream: self.stream.raw(),
            configuration: self.configuration.raw(),
            filter: self.filter.raw(),
            candidate: match self.candidate {
                Some(update) => Some(update.candidate()),
                None => None,
            },
            screen_consumer: self.screen_consumer,
            audio_consumer: self.audio_consumer,
        }
    }
}

impl StreamSession {
    /// The handles that the session owns: stream, configuration, filter, and
    /// the proposed change if there is one.
    pub closed spec fn owned(&self) -> (OwnedHandle, OwnedHandle, OwnedHandle, Option<OwnedHandle>) {
        (
            self.stream,
            self.configuration,
            self.filter,
            match self.candidate {
                Some(PendingUpdate::Configuration(h)) => Some(h),
                Some(PendingUpdate::Filter(h)) => Some(h),
                None => None,
            },
        )
    }

    /// A session over a stream that the native layer created for `filter`
    /// and `configuration`. It is idle. Each handle is of its own kind.
    pub fn new(stream: OwnedHandle, filter: OwnedHandle, configuration: OwnedHandle) -> (session:
        Self)
        requires
            stream.resource_kind() == ResourceKind::Stream,
            filter.resource_kind() == ResourceKind::Filter,
            configuration.resource_kind() == ResourceKind::Configuration,
        ensures
            session@ == SessionModel::initial(stream.raw(), filter.raw(), configuration.raw()),
            session.owned() == (stream, configuration, filter, None::<OwnedHandle>),
    {
        StreamSession {
            stream,
            configuration,
            filter,
            candidate: None,
            state: StreamState::Idle,
            accepting: true,
            screen_consumer: None,
            audio_consumer: None,
        }
    }

    /// The state of the session.
    pub fn state(&self) -> (s: StreamState)
        ensures
            s == self@.state,
    {
        self.state
    }

    /// Whether the flag that admits deliveries is still on.
    pub fn is_accepting_deliveries(&self) -> (b: bool)
        ensures
            b == self@.accepting,
    {
        self.accepting
    }

    /// The stream handle, for native calls.
    pub fn stream(&self) -> (h: NativeHandle)
        ensures
            h == self@.stream,
    {
        self.stream.as_raw()
    }

    /// The configuration in force.
    pub fn configuration(&self) -> (h: NativeHandle)
        ensures
            h == self@.configuration,
    {
        self.configuration.as_raw()
    }

    /// The filter in force.
    pub fn filter(&self) -> (h: NativeHandle)
        ensures
            h == self@.filter,
    {
        self.filter.as_raw()
    }

    /// The consumer registered for `kind`.
    pub fn output_handler(&self, kind: SCStreamOutputType) -> (c: Option<u64>)
        ensures
            c == self@.consumer(kind),
    {
        match kind {
            SCStreamOutputType::Screen => self.screen_consumer,
            SCStreamOutputType::Audio => self.audio_consumer,
        }
    }

    /// Registers `consumer` for frames of `kind`, before or after the start.
    /// It gets the frames delivered from now on. There is one consumer per
    /// kind: the one that was registered before is deregistered and returned.
    pub fn add_output_handler(&mut self, kind: SCStreamOutputType, consumer: u64) -> (replaced:
        Option<u64>)
        ensures
            replaced == old(self)@.consumer(kind),
            final(self)@ == old(self)@.step(SessionEvent::SetConsumer { kind, consumer }),
            final(self).owned() == old(self).owned(),
    {
        match kind {
            SCStreamOutputType::Screen => {
                let replaced = self.screen_consumer;
                self.screen_consumer = Some(consumer);
                replaced
            },
            SCStreamOutputType::Audio => {
                let replaced = self.audio_consumer;
                self.audio_consumer = Some(consumer);
                replaced
            },
        }
    }

    /// Deregisters the consumer for frames of `kind`, and returns it.
    pub fn remove_output_handler(&mut self, kind: SCStreamOutputType) -> (removed: Option<u64>)
        ensures
            removed == old(self)@.consumer(kind),
            final(self)@ == old(self)@.step(SessionEvent::RemoveConsumer { kind }),
            final(self).owned() == old(self).owned(),
    {
        match kind {
            SCStreamOutputType::Screen => {
                let removed = self.screen_consumer;
                self.screen_consumer = None;
                removed
            },
            SCStreamOutputType::Audio => {
                let removed = self.audio_consumer;
                self.audio_consumer = None;
                removed
            },
        }
    }

    /// Begins the start. From `Idle` the session goes to `Starting` and the
    /// stream handle is returned for the native start call. In any other
    /// state nothing changes and the start is refused.
    pub fn start(&mut self) -> (r: Result<NativeHandle, SCError>)
        ensures
            final(self)@ == old(self)@.step(SessionEvent::Start),
            final(self).owned() == old(self).owned(),
            old(self)@.accepts(SessionEvent::Start) ==> r == Ok::<NativeHandle, SCError>(
                old(self)@.stream,
            ),
            !old(self)@.accepts(SessionEvent::Start) ==> r == Err::<NativeHandle, SCError>(
                SCError::CaptureStartFailed(None),
            ),
    {
        match self.state {
            StreamState::Idle => {
                self.state = StreamState::Starting;
                Ok(self.stream.as_raw())
            },
            _ => Err(SCError::CaptureStartFailed(None)),
        }
    }

    /// The native start has completed. On success the session is `Running`.
    /// On failure it is `Idle` again and the failure is surfaced with the
    /// native message. A completion that no start awaits is ignored.
    pub fn start_completed(&mut self, success: bool, message: Option<String>) -> (r: Result<
        (),
        SCError,
    >)
        ensures
            final(self)@ == old(self)@.step(SessionEvent::StartCompleted { success }),
            final(self).owned() == old(self).owned(),
            r == (if !old(self)@.accepts(SessionEvent::StartCompleted { success }) {
                Err::<(), SCError>(SCError::InternalProtocolViolation)
            } else if success {
                Ok::<(), SCError>(())
            } else {
                Err::<(), SCError>(SCError::CaptureStartFailed(message))
            }),
    {
        match self.state {
            StreamState::Starting => {
                if success {
                    self.state = StreamState::Running;
                    Ok(())
                } else {
                    self.state = StreamState::Idle;
                    Err(SCError::CaptureStartFailed(message))
                }
            },
            _ => Err(SCError::InternalProtocolViolation),
        }
    }

    /// Proposes a new configuration. While `Running` the session goes to
    /// `Reconfiguring`, keeps the proposal, and returns its handle for the
    /// native update call. In any other state nothing changes and the
    /// proposal is handed back with the refusal.
    pub fn update_configuration(&mut self, configuration: OwnedHandle) -> (r: Result<
        NativeHandle,
        (SCError, OwnedHandle),
    >)
        requires
            configuration.resource_kind() == ResourceKind::Configuration,
        ensures
            final(self)@ == old(self)@.step(
                SessionEvent::Update { candidate: Candidate::Configuration(configuration.raw()) },
            ),
            old(self)@.state == StreamState::Running ==> r == Ok::<
                NativeHandle,
                (SCError, OwnedHandle),
            >(configuration.raw()) && final(self).owned() == (
                old(self).owned().0,
                old(self).owned().1,
                old(self).owned().2,
                Some(configuration),
            ),
            old(self)@.state != StreamState::Running ==> r == Err::<
                NativeHandle,
                (SCError, OwnedHandle),
            >((SCError::ReconfigurationFailed(None), configuration)) && final(self).owned() == old(self).owned(),
    {
        self.propose(PendingUpdate::Configuration(configuration))
    }

    /// Proposes a new filter. As [`StreamSession::update_configuration`].
    pub fn update_filter(&mut self, filter: OwnedHandle) -> (r: Result<
        NativeHandle,
        (SCError, OwnedHandle),
    >)
        requires
            filter.resource_kind() == ResourceKind::Filter,
        ensures
            final(self)@ == old(self)@.step(
                SessionEvent::Update { candidate: Candidate::Filter(filter.raw()) },
            ),
            old(self)@.state == StreamState::Running ==> r == Ok::<
                NativeHandle,
                (SCError, OwnedHandle),
            >(filter.raw()) && final(self).owned() == (
                old(self).owned().0,
                old(self).owned().1,
                old(self).owned().2,
                Some(filter),
            ),
            old(self)@.state != StreamState::Running ==> r == Err::<
                NativeHandle,
                (SCError, OwnedHandle),
            >((SCError::ReconfigurationFailed(None), filter)) && final(self).owned() == old(self).owned(),
    {
        self.propose(PendingUpdate::Filter(filter))
    }

    fn propose(&mut self, update: PendingUpdate) -> (r: Result<NativeHandle, (SCError, OwnedHandle)>)
        ensures
            final(self)@ == old(self)@.step(SessionEvent::Update { candidate: update.candidate() }),
            old(self)@.state == StreamState::Running ==> r == Ok::<
                NativeHandle,
                (SCError, OwnedHandle),
            >(
                match update {
                    PendingUpdate::Configuration(h) => h.raw(),
                    PendingUpdate::Filter(h) => h.raw(),
                },
            ) && final(self).owned() == (
                old(self).owned().0,
                old(self).owned().1,
                old(self).owned().2,
                Some(
                    match update {
                        PendingUpdate::Configuration(h) => h,
                        PendingUpdate::Filter(h) => h,
                    },
                ),
            ),
            old(self)@.state != StreamState::Running ==> r == Err::<
                NativeHandle,
                (SCError, OwnedHandle),
            >(
                (
                    SCError::ReconfigurationFailed(None),
                    match update {
                        PendingUpdate::Configuration(h) => h,
                        PendingUpdate::Filter(h) => h,
                    },
                ),
            ) && final(self).owned() == old(self).owned(),
    {
        match self.state {
            StreamState::Running => {
                let raw = match &update {
                    PendingUpdate::Configuration(h) => h.as_raw(),
                    PendingUpdate::Filter(h) => h.as_raw(),
                };
                self.state = StreamState::Reconfiguring;
                self.candidate = Some(update);
                Ok(raw)
            },
            _ => Err((SCError::ReconfigurationFailed(None), update.into_handle())),
        }
    }

    /// The native update has completed. Either way the session is `Running`
    /// again. On success the proposal is in force, and the handle it
    /// replaced is returned for release. On failure what was in force stays
    /// in force, the proposal is returned for release, and the failure is
    /// surfaced with the native message. A completion that no update awaits
    /// is ignored.
    pub fn reconfigure_completed(&mut self, success: bool, message: Option<String>) -> (r: (
        Result<(), SCError>,
        Option<OwnedHandle>,
    ))
        ensures
            final(self)@ == old(self)@.step(SessionEvent::ReconfigureCompleted { success }),
            r.0 == (if !old(self)@.accepts(SessionEvent::ReconfigureCompleted { success }) {
                Err::<(), SCError>(SCError::InternalProtocolViolation)
            } else if success {
                Ok::<(), SCError>(())
            } else {
                Err::<(), SCError>(SCError::ReconfigurationFailed(message))
            }),
            !old(self)@.accepts(SessionEvent::ReconfigureCompleted { success }) ==> r.1 is None
                && final(self).owned() == old(self).owned(),
            old(self)@.accepts(SessionEvent::ReconfigureCompleted { success }) ==> final(self).owned().3 is None && final(self).owned().0 == old(self).owned().0,
            old(self)@.accepts(SessionEvent::ReconfigureCompleted { success }) && !success ==> r.1
                == old(self).owned().3 && final(self).owned().1 == old(self).owned().1 && final(self).owned().2 == old(self).owned().2,
            old(self)@.accepts(SessionEvent::ReconfigureCompleted { success }) && success ==> (
            match old(self)@.candidate {
                Some(Candidate::Configuration(_)) => r.1 == Some(old(self).owned().1)
                    && Some(final(self).owned().1) == old(self).owned().3 && final(self).owned().2 == old(self).owned().2,
                Some(Candidate::Filter(_)) => r.1 == Some(old(self).owned().2) && Some(
                    final(self).owned().2,
                ) == old(self).owned().3 && final(self).owned().1 == old(self).owned().1,
                None => r.1 is None && final(self).owned().1 == old(self).owned().1 && final(self).owned().2 == old(self).owned().2,
            }),
    {
        match self.state {
            StreamState::Reconfiguring => {
                self.state = StreamState::Running;
                let proposed = self.candidate.take();
                if !success {
                    let spare = match proposed {
                        Some(update) => Some(update.into_handle()),
                        None => None,
                    };
                    (Err(SCError::ReconfigurationFailed(message)), spare)
                } else {
                    match proposed {
                        Some(PendingUpdate::Configuration(mut h)) => {
                            core::mem::swap(&mut self.configuration, &mut h);
                            (Ok(()), Some(h))
                        },
                        Some(PendingUpdate::Filter(mut h)) => {
                            core::mem::swap(&mut self.filter, &mut h);
                            (Ok(()), Some(h))
                        },
                        None => (Ok(()), None),
                    }
                }
            },
            _ => (Err(SCError::InternalProtocolViolation), None),
        }
    }

    /// Begins the stop. The flag that admits deliveries goes off here, once,
    /// and the session goes to `Stopping`; the stream handle is returned for
    /// the native stop call. A stop is taken in every state but `Stopped`,
    /// also when a start never completed, so that nothing native is leaked.
    pub fn stop(&mut self) -> (r: Result<NativeHandle, SCError>)
        ensures
            final(self)@ == old(self)@.step(SessionEvent::Stop),
            final(self).owned() == old(self).owned(),
            old(self)@.state != StreamState::Stopped ==> r == Ok::<NativeHandle, SCError>(
                old(self)@.stream,
            ) && !final(self)@.accepting,
            old(self)@.state == StreamState::Stopped ==> r == Err::<NativeHandle, SCError>(
                SCError::CaptureStopFailed(None),
            ),
    {
        match self.state {
            StreamState::Stopped => Err(SCError::CaptureStopFailed(None)),
            _ => {
                self.accepting = false;
                self.state = StreamState::Stopping;
                Ok(self.stream.as_raw())
            },
        }
    }

    /// The native stop has completed. On success the session is `Stopped`.
    /// On failure it stays `Stopping`, where the stop can be tried again,
    /// and the failure is surfaced with the native message. A completion
    /// that no stop awaits is ignored.
    pub fn stop_completed(&mut self, success: bool, message: Option<String>) -> (r: Result<
        (),
        SCError,
    >)
        ensures
            final(self)@ == old(self)@.step(SessionEvent::StopCompleted { success }),
            final(self).owned() == old(self).owned(),
            r == (if !old(self)@.accepts(SessionEvent::StopCompleted { success }) {
                Err::<(), SCError>(SCError::InternalProtocolViolation)
            } else if success {
                Ok::<(), SCError>(())
            } else {
                Err::<(), SCError>(SCError::CaptureStopFailed(message))
            }),
    {
        match self.state {
            StreamState::Stopping => {
                if success {
                    self.state = StreamState::Stopped;
                    Ok(())
                } else {
                    Err(SCError::CaptureStopFailed(message))
                }
            },
            _ => Err(SCError::InternalProtocolViolation),
        }
    }

    /// A frame of `kind` has arrived. It is forwarded to the consumer of its
    /// kind if the flag that admits deliveries is on, the session is
    /// `Running` or `Reconfiguring`, and there is such a consumer. Else it
    /// is dropped. The session does not change.
    pub fn deliver(&self, kind: SCStreamOutputType, sample: OwnedHandle) -> (d: Delivery)
        ensures
            self@.forwards(kind) ==> d == (Delivery::Forwarded {
                consumer: self@.consumer(kind)->Some_0,
                sample,
            }),
            !self@.forwards(kind) ==> d == (Delivery::Dropped { sample }),
    {
        let live = match self.state {
            StreamState::Running => true,
            StreamState::Reconfiguring => true,
            _ => false,
        };
        if self.accepting && live {
            match self.output_handler(kind) {
                Some(consumer) => Delivery::Forwarded { consumer, sample },
                None => Delivery::Dropped { sample },
            }
        } else {
            Delivery::Dropped { sample }
        }
    }

    /// Ends a stopped session and hands out its handles for release. A
    /// session that is not stopped is handed back as it is.
    pub fn into_handles(self) -> (r: Result<Teardown, StreamSession>)
        ensures
            self@.state == StreamState::Stopped ==> r == Ok::<Teardown, StreamSession>(
                Teardown {
                    stream: self.owned().0,
                    configuration: self.owned().1,
                    filter: self.owned().2,
                    candidate: self.owned().3,
                },
            ),
            self@.state != StreamState::Stopped ==> r == Err::<Teardown, StreamSession>(self),
    {
        match self.state {
            StreamState::Stopped => {
                let candidate = match self.candidate {
                    Some(update) => Some(update.into_handle()),
                    None => None,
                };
                Ok(
                    Teardown {
                        stream: self.stream,
                        configuration: self.configuration,
                        filter: self.filter,
                        candidate,
                    },
                )
            },
            _ => Err(self),
        }
    }
}

} // verus!
