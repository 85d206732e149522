//! The session of one device connection: its states, the events that the
//! connection reports and what the session does about each.
//!
//! The session decides; whoever drives it performs the I/O. The driver waits
//! for the next event, hands it to `Session::step`, carries out the action
//! that comes back and, when told to close, runs `Session::close`.

use vstd::prelude::*;
use crate::handle::OutboundHandle;
use crate::protocol::{
    decode, decoded, encode, encoded, initial_settings, DecodeError, Real, WsInnerData,
    WsInputData, WsOutputData,
};
use crate::registry::{entry_of, is_current, next_generation, well_numbered, SessionRegistry};

verus! {

/// Where a session stands in its life. `Closed` is final.
#[derive(Clone, Copy, Debug, PartialEq, Eq, Structural)]
pub enum SessionState {
    Connecting,
    Active,
    Closed,
}

/// One of the two things a session waits for.
#[derive(Clone, Copy, Debug, PartialEq, Eq, Structural)]
pub enum Source {
    /// The next frame from the device.
    Inbound,
    /// The next message on the session's delivery channel.
    Outbound,
}

/// A sensor sample as it is stored. The room is the device that the session
/// serves; a record is never changed once made.
#[derive(Clone, Copy, Debug, PartialEq, Eq, Structural)]
pub struct TelemetryRecord {
    pub room_id: i64,
    pub temperature: Real,
    pub humidity: Real,
    pub watt_hours: Real,
    pub recorded_at: u64,
}

/// What the driver reports to the session.
#[derive(Debug)]
pub enum SessionEvent {
    /// A frame arrived from the device.
    Frame(Vec<u8>),
    /// Reading from the connection failed.
    ReadFailed,
    /// The device closed the connection.
    PeerClosed,
    /// A message was taken off the delivery channel.
    Command(WsOutputData),
    /// Writing a frame to the connection failed.
    WriteFailed,
    /// The telemetry store did not take a record.
    PersistFailed,
}

/// A session event as plain data.
pub enum SessionEventView {
    Frame(Seq<u8>),
    ReadFailed,
    PeerClosed,
    Command(WsOutputData),
    WriteFailed,
    PersistFailed,
}

impl View for SessionEvent {
    type V = SessionEventView;

    open spec fn view(&self) -> SessionEventView {
        match *self {
            SessionEvent::Frame(bytes) => SessionEventView::Frame(bytes@),
            SessionEvent::ReadFailed => SessionEventView::ReadFailed,
            SessionEvent::PeerClosed => SessionEventView::PeerClosed,
            SessionEvent::Command(msg) => SessionEventView::Command(msg),
            SessionEvent::WriteFailed => SessionEventView::WriteFailed,
            SessionEvent::PersistFailed => SessionEventView::PersistFailed,
        }
    }
}

/// What the session asks of the driver.
#[derive(Debug)]
pub enum SessionAction {
    /// Nothing; wait for the next event.
    Continue,
    /// Append the record to the telemetry store and do not wait for the
    /// outcome; report a failure as `SessionEvent::PersistFailed`.
    Persist(TelemetryRecord),
    /// Write the text as one frame to the connection.
    Write(String),
    /// Stop waiting and run `Session::close`.
    Close,
}

/// A session action as plain data.
pub enum SessionActionView {
    Continue,
    Persist(TelemetryRecord),
    Write(Seq<char>),
    Close,
}

impl View for SessionAction {
    type V = SessionActionView;

    open spec fn view(&self) -> SessionActionView {
        match *self {
            SessionAction::Continue => SessionActionView::Continue,
            SessionAction::Persist(record) => SessionActionView::Persist(record),
            SessionAction::Write(text) => SessionActionView::Write(text@),
            SessionAction::Close => SessionActionView::Close,
        }
    }
}

/// The other source.
pub open spec fn other(source: Source) -> Source {
    match source {
        Source::Inbound => Source::Outbound,
        Source::Outbound => Source::Inbound,
    }
}

/// The source that an event came from; `None` for the outcome of an action.
pub open spec fn source_of(event: SessionEventView) -> Option<Source> {
    match event {
        SessionEventView::Frame(_) => Some(Source::Inbound),
        SessionEventView::ReadFailed => Some(Source::Inbound),
        SessionEventView::PeerClosed => Some(Source::Inbound),
        SessionEventView::Command(_) => Some(Source::Outbound),
        SessionEventView::WriteFailed => None,
        SessionEventView::PersistFailed => None,
    }
}

/// The record that stores a report of device `room_id` made at `now`; `None`
/// where the report is not a sample.
pub open spec fn record_of(room_id: i64, inner: WsInnerData, now: u64) -> Option<TelemetryRecord> {
    match inner {
        WsInnerData::Move => None,
        WsInnerData::Temp { temp, hum, wh } => Some(
            TelemetryRecord {
                room_id,
                temperature: temp,
                humidity: hum,
                watt_hours: wh,
                recorded_at: now,
            },
        ),
    }
}

/// What an active session of device `room_id` does about the outcome of
/// decoding a frame at `now`: a sample is stored, anything else is passed over.
pub open spec fn frame_reaction(
    room_id: i64,
    frame: Result<WsInputData, DecodeError>,
    now: u64,
) -> SessionActionView {
    match frame {
        Err(_) => SessionActionView::Continue,
        Ok(input) => match record_of(room_id, input.inner, now) {
            Some(record) => SessionActionView::Persist(record),
            None => SessionActionView::Continue,
        },
    }
}

/// What an active session of device `room_id` does about an event at `now`.
pub open spec fn reaction(room_id: i64, event: SessionEventView, now: u64) -> SessionActionView {
    match event {
        SessionEventView::Frame(bytes) => frame_reaction(room_id, decoded(bytes), now),
        SessionEventView::ReadFailed => SessionActionView::Close,
        SessionEventView::PeerClosed => SessionActionView::Close,
        SessionEventView::Command(msg) => SessionActionView::Write(encoded(msg)),
        SessionEventView::WriteFailed => SessionActionView::Close,
        SessionEventView::PersistFailed => SessionActionView::Continue,
    }
}

/// The session of one connection.
#[derive(Debug)]
pub struct Session {
    device_id: i64,
    state: SessionState,
    generation: u64,
    preferred: Source,
    persist_failures: u64,
}

impl Session {
    /// The device that the session serves.
    pub closed spec fn spec_device_id(&self) -> i64 {
        self.device_id
    }

    /// The state of the session.
    pub closed spec fn spec_state(&self) -> SessionState {
        self.state
    }

    /// The number of the session's registration; it means something only
    /// once the session has become active.
    pub closed spec fn spec_generation(&self) -> u64 {
        self.generation
    }

    /// The source that the driver polls first.
    pub closed spec fn spec_preferred(&self) -> Source {
        self.preferred
    }

    /// How many records the telemetry store has refused; stops at `u64::MAX`.
    pub closed spec fn spec_persist_failures(&self) -> u64 {
        self.persist_failures
    }

    /// A session for `device_id` whose connection is not yet established.
    pub fn connect(device_id: i64) -> (session: Session)
        ensures
            session.spec_device_id() == device_id,
            session.spec_state() == SessionState::Connecting,
            session.spec_preferred() == Source::Outbound,
            session.spec_persist_failures() == 0,
    {
        Session {
            device_id,
            state: SessionState::Connecting,
            generation: 0,
            preferred: Source::Outbound,
            persist_failures: 0,
        }
    }

    /// Makes a connecting session active: queues the initial settings on
    /// `handle`, then registers `handle` for the session's device, replacing
    /// any earlier registration. Returns the replaced handle. A session that
    /// is not connecting is left as it is, and so is the registry; the handle
    /// comes back as the error.
    pub fn activate(&mut self, registry: &mut SessionRegistry, handle: OutboundHandle) -> (outcome:
        Result<Option<OutboundHandle>, OutboundHandle>)
        ensures
            final(self).spec_device_id() == old(self).spec_device_id(),
            final(self).spec_persist_failures() == old(self).spec_persist_failures(),
            well_numbered(old(registry).generations(), old(registry).issued()) ==> well_numbered(
                final(registry).generations(),
                final(registry).issued(),
            ),
            old(self).spec_state() == SessionState::Connecting ==> {
                &&& final(self).spec_state() == SessionState::Active
                &&& final(self).spec_preferred() == Source::Outbound
                &&& final(self).spec_generation() == old(registry).issued()
                &&& final(registry)@ == old(registry)@.insert(old(self).spec_device_id(), handle)
                &&& final(registry).generations() == old(registry).generations().insert(
                    old(self).spec_device_id(),
                    old(registry).issued(),
                )
                &&& final(registry).issued() == next_generation(old(registry).issued())
                &&& outcome == Ok::<Option<OutboundHandle>, OutboundHandle>(
                    entry_of(old(registry)@, old(self).spec_device_id()),
                )
            },
            old(self).spec_state() != SessionState::Connecting ==> {
                &&& *final(self) == *old(self)
                &&& final(registry)@ == old(registry)@
                &&& final(registry).generations() == old(registry).generations()
                &&& final(registry).issued() == old(registry).issued()
                &&& outcome == Err::<Option<OutboundHandle>, OutboundHandle>(handle)
            },
    {
        match self.state {
            SessionState::Connecting => {
                let _ = handle.deliver(initial_settings());
                let previous = registry.register(self.device_id, handle);
                self.generation = match registry.generation(self.device_id) {
                    Some(generation) => generation,
                    None => 0,
                };
                self.state = SessionState::Active;
                self.preferred = Source::Outbound;
                Ok(previous)
            },
            _ => Err(handle),
        }
    }

    /// Decides what to do about the outcome of decoding a frame at `now`.
    pub fn on_frame(&self, frame: Result<WsInputData, DecodeError>, now: u64) -> (action:
        SessionAction)
        ensures
            action@ == frame_reaction(self.spec_device_id(), frame, now),
    {
        match frame {
            Err(_) => SessionAction::Continue,
            Ok(input) => match input.inner {
                WsInnerData::Move => SessionAction::Continue,
                WsInnerData::Temp { temp, hum, wh } => SessionAction::Persist(
                    TelemetryRecord {
                        room_id: self.device_id,
                        temperature: temp,
                        humidity: hum,
                        watt_hours: wh,
                        recorded_at: now,
                    },
                ),
            },
        }
    }

    /// Takes one event at time `now` and says what the driver is to do.
    ///
    /// An active session reacts as `reaction` says and stays active: a frame
    /// that does not decode is passed over, a failure of the connection asks
    /// for the close. After an event from one source the other source is
    /// preferred. A session that is not active changes nothing and asks for
    /// the close.
    pub fn step(&mut self, event: SessionEvent, now: u64) -> (action: SessionAction)
        ensures
            final(self).spec_device_id() == old(self).spec_device_id(),
            final(self).spec_state() == old(self).spec_state(),
            final(self).spec_generation() == old(self).spec_generation(),
            old(self).spec_state() == SessionState::Active ==> {
                &&& action@ == reaction(old(self).spec_device_id(), event@, now)
                &&& final(self).spec_preferred() == match source_of(event@) {
                    Some(source) => other(source),
                    None => old(self).spec_preferred(),
                }
                &&& final(self).spec_persist_failures() == if event@ is PersistFailed
                    && old(self).spec_persist_failures() < u64::MAX {
                    (old(self).spec_persist_failures() + 1) as u64
                } else {
                    old(self).spec_persist_failures()
                }
            },
            old(self).spec_state() != SessionState::Active ==> {
                &&& action@ == SessionActionView::Close
                &&& *final(self) == *old(self)
            },
    {
        match self.state {
            SessionState::Active => {},
            _ => {
                return SessionAction::Close;
            },
        }
        match event {
            SessionEvent::Frame(bytes) => {
                self.preferred = Source::Outbound;
                self.on_frame(decode(bytes.as_slice()), now)
            },
            SessionEvent::ReadFailed => {
                self.preferred = Source::Outbound;
                SessionAction::Close
            },
            SessionEvent::PeerClosed => {
                self.preferred = Source::Outbound;
                SessionAction::Close
            },
            SessionEvent::Command(msg) => {
                self.preferred = Source::Inbound;
                SessionAction::Write(encode(&msg))
            },
            SessionEvent::WriteFailed => SessionAction::Close,
            SessionEvent::PersistFailed => {
                if self.persist_failures < u64::MAX {
                    self.persist_failures = self.persist_failures + 1;
                }
                SessionAction::Continue
            },
        }
    }

    /// Ends the session. An active session withdraws its own registration:
    /// the entry of its device leaves the registry unless a later session of
    /// the same device has replaced it. A session that never became active,
    /// or that has ended already, leaves the registry alone.
    pub fn close(&mut self, registry: &mut SessionRegistry)
        ensures
            final(self).spec_state() == SessionState::Closed,
            final(self).spec_device_id() == old(self).spec_device_id(),
            final(self).spec_generation() == old(self).spec_generation(),
            final(self).spec_preferred() == old(self).spec_preferred(),
            final(self).spec_persist_failures() == old(self).spec_persist_failures(),
            final(registry).issued() == old(registry).issued(),
            well_numbered(old(registry).generations(), old(registry).issued()) ==> well_numbered(
                final(registry).generations(),
                final(registry).issued(),
            ),
            withdraws(*old(self), *old(registry)) ==> {
                &&& final(registry)@ == old(registry)@.remove(old(self).spec_device_id())
                &&& final(registry).generations() == old(registry).generations().remove(
                    old(self).spec_device_id(),
                )
                &&& entry_of(final(registry)@, old(self).spec_device_id()) is None
            },
            !withdraws(*old(self), *old(registry)) ==> {
                &&& final(registry)@ == old(registry)@
                &&& final(registry).generations() == old(registry).generations()
            },
    {
        match self.state {
            SessionState::Active => {
                let _ = registry.remove_registration(self.device_id, self.generation);
            },
            _ => {},
        }
        self.state = SessionState::Closed;
    }

    /// The device that the session serves.
    pub fn device_id(&self) -> (device_id: i64)
        ensures
            device_id == self.spec_device_id(),
    {
        self.device_id
    }

    /// The state of the session.
    pub fn state(&self) -> (state: SessionState)
        ensures
            state == self.spec_state(),
    {
        self.state
    }

    /// The number of the session's registration.
    pub fn generation(&self) -> (generation: u64)
        ensures
            generation == self.spec_generation(),
    {
        self.generation
    }

    /// The source that the driver is to poll first when both may be ready.
    pub fn preferred(&self) -> (source: Source)
        ensures
            source == self.spec_preferred(),
    {
        self.preferred
    }

    /// How many records the telemetry store has refused so far.
    pub fn persist_failures(&self) -> (count: u64)
        ensures
            count == self.spec_persist_failures(),
    {
        self.persist_failures
    }
}

/// Whether `session`, on closing, takes an entry out of `registry`: it is
/// active, and its device's entry is the one that it registered itself.
pub open spec fn withdraws(session: Session, registry: SessionRegistry) -> bool {
    session.spec_state() == SessionState::Active && is_current(
        registry.generations(),
        session.spec_device_id(),
        session.spec_generation(),
    )
}

/// A frame that does not decode leaves no record and does not end the
/// session: the session passes it over and waits for the next event.
pub proof fn lemma_malformed_frame_is_passed_over(room_id: i64, bytes: Seq<u8>, now: u64)
    requires
        decoded(bytes) is Err,
    ensures
        reaction(room_id, SessionEventView::Frame(bytes), now) == SessionActionView::Continue,
{
}

/// No frame, whatever it holds, makes the session close or write.
pub proof fn lemma_frames_never_close(room_id: i64, bytes: Seq<u8>, now: u64)
    ensures
        reaction(room_id, SessionEventView::Frame(bytes), now) is Continue || reaction(
            room_id,
            SessionEventView::Frame(bytes),
            now,
        ) is Persist,
{
}

/// A frame that decodes to a sample leaves exactly the record of that sample,
/// filed under the device that the session serves and stamped with the time
/// of the event; the identity that the frame itself claims plays no part.
pub proof fn lemma_sample_is_recorded(
    room_id: i64,
    bytes: Seq<u8>,
    now: u64,
    claimed: i64,
    temp: Real,
    hum: Real,
    wh: Real,
)
    requires
        decoded(bytes) == Ok::<WsInputData, DecodeError>(
            WsInputData { device_id: claimed, inner: WsInnerData::Temp { temp, hum, wh } },
        ),
    ensures
        reaction(room_id, SessionEventView::Frame(bytes), now) == SessionActionView::Persist(
            TelemetryRecord {
                room_id,
                temperature: temp,
                humidity: hum,
                watt_hours: wh,
                recorded_at: now,
            },
        ),
{
}

} // verus!
