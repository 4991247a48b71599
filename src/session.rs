//! The control of one synchronisation session: what each inbound frame and each
//! heartbeat tick leads to.
use vstd::prelude::*;
use crate::backup::{classify_text, has_backup_marker, TextKind};
use crate::document::DocumentStore;
use crate::heartbeat::{timed_out, Heartbeat, Tick};
use crate::registry::{recipients_of, Registry};

verus! {

/// Where a session is in its life.
#[derive(Debug, Clone, Copy, PartialEq, Eq, Structural)]
pub enum Phase {
    /// Created, not yet registered.
    Starting,
    /// Registered, exchanging frames with its peer.
    Active,
    /// Closed and deregistered.
    Stopped,
}

/// An inbound frame from the peer.
#[derive(Debug)]
pub enum Frame {
    Ping(Vec<u8>),
    Pong(Vec<u8>),
    Text(String),
    Binary(Vec<u8>),
    Close,
    /// Anything the transport could not make sense of.
    Malformed,
}

/// What the session asks its transport and storage to do for one inbound frame.
#[derive(Debug)]
pub enum Action {
    /// Answer the peer with a pong that carries this payload.
    Pong(Vec<u8>),
    /// Nothing to send.
    Idle,
    /// Write this payload verbatim to a new backup file; relay nothing.
    Backup(String),
    /// Replace the document with this text and, once that succeeded, relay the text
    /// to every other live connection.
    Update(String),
    /// Send these bytes back to the peer, and to nobody else.
    Echo(Vec<u8>),
    /// Close the connection.
    Stop,
}

/// One connection's session.
pub struct Session {
    /// The connection's id, unique among live connections.
    pub id: u64,
    pub phase: Phase,
    pub heartbeat: Heartbeat,
}

impl Session {
    /// A session for connection `id`, created at `now_ms`.
    pub fn new(id: u64, now_ms: u64) -> (r: Session)
        ensures
            r.id == id,
            r.phase == Phase::Starting,
            r.heartbeat.last_beat_ms == now_ms,
    {
        Session { id, phase: Phase::Starting, heartbeat: Heartbeat::new(now_ms) }
    }

    /// Starts the session: registers the connection under `handle` and returns the
    /// whole current document, which is to be pushed to the peer.
    pub fn start<H>(&mut self, registry: &mut Registry<H>, handle: H, document: &DocumentStore) -> (r: String)
        requires
            old(self).phase == Phase::Starting,
            old(registry).wf(),
        ensures
            final(self).phase == Phase::Active,
            final(self).id == old(self).id,
            final(self).heartbeat == old(self).heartbeat,
            final(registry).wf(),
            final(registry).ids() == old(registry).ids().insert(old(self).id),
            old(registry).ids().contains(old(self).id) ==> final(registry).members() == old(
                registry,
            ).members(),
            !old(registry).ids().contains(old(self).id) ==> final(registry).members() == old(
                registry,
            ).members().push((old(self).id, handle)),
            r@ == document@,
    {
        registry.register(self.id, handle);
        self.phase = Phase::Active;
        document.read()
    }

    /// Handles one inbound frame received at `now_ms`. A stopped session stays stopped
    /// and only asks for the connection to be closed.
    pub fn on_frame(&mut self, frame: Frame, now_ms: u64) -> (r: Action)
        ensures
            final(self).id == old(self).id,
            old(self).phase == Phase::Stopped ==> r == Action::Stop && *final(self) == *old(self),
            old(self).phase != Phase::Stopped ==> match frame {
                Frame::Ping(p) => r == Action::Pong(p) && final(self).phase == old(self).phase
                    && final(self).heartbeat.last_beat_ms == now_ms,
                Frame::Pong(_) => r == Action::Idle && final(self).phase == old(self).phase
                    && final(self).heartbeat.last_beat_ms == now_ms,
                Frame::Text(t) => final(self).phase == old(self).phase && final(self).heartbeat
                    == old(self).heartbeat && if has_backup_marker(t@) {
                    r matches Action::Backup(p) && p@ == t@.subrange(3, t@.len() as int)
                } else {
                    r matches Action::Update(u) && u@ == t@
                },
                Frame::Binary(b) => r == Action::Echo(b) && final(self).phase == old(self).phase
                    && final(self).heartbeat == old(self).heartbeat,
                Frame::Close | Frame::Malformed => r == Action::Stop && final(self).phase
                    == Phase::Stopped && final(self).heartbeat == old(self).heartbeat,
            },
    {
        if self.phase == Phase::Stopped {
            return Action::Stop;
        }
        match frame {
            Frame::Ping(p) => {
                self.heartbeat.refresh(now_ms);
                Action::Pong(p)
            },
            Frame::Pong(_) => {
                self.heartbeat.refresh(now_ms);
                Action::Idle
            },
            Frame::Text(t) => match classify_text(t) {
                TextKind::Backup(p) => Action::Backup(p),
                TextKind::Update(u) => Action::Update(u),
            },
            Frame::Binary(b) => Action::Echo(b),
            Frame::Close | Frame::Malformed => {
                self.phase = Phase::Stopped;
                Action::Stop
            },
        }
    }

    /// Handles a heartbeat tick at `now_ms`: a peer silent for too long stops the session,
    /// and a stopped session sends no more pings.
    pub fn on_tick(&mut self, now_ms: u64) -> (r: Tick)
        ensures
            final(self).id == old(self).id,
            final(self).heartbeat == old(self).heartbeat,
            old(self).phase == Phase::Stopped ==> r == Tick::TimedOut && final(self).phase
                == Phase::Stopped,
            old(self).phase != Phase::Stopped && timed_out(old(self).heartbeat.last_beat_ms, now_ms)
                ==> r == Tick::TimedOut && final(self).phase == Phase::Stopped,
            old(self).phase != Phase::Stopped && !timed_out(
                old(self).heartbeat.last_beat_ms,
                now_ms,
            ) ==> r == Tick::SendPing && final(self).phase == old(self).phase,
    {
        if self.phase == Phase::Stopped {
            return Tick::TimedOut;
        }
        let t = self.heartbeat.tick(now_ms);
        if t == Tick::TimedOut {
            self.phase = Phase::Stopped;
        }
        t
    }

    /// The handles that an update from this session is relayed to: every other live
    /// connection, or none while the session is not active.
    pub fn relay_targets<'a, H>(&self, registry: &'a Registry<H>) -> (r: Vec<&'a H>)
        ensures
            self.phase != Phase::Active ==> r@.len() == 0,
            self.phase == Phase::Active ==> r@.len() == recipients_of(registry.members(), self.id).len(),
            self.phase == Phase::Active ==> forall|k: int|
                0 <= k < r@.len() ==> *#[trigger] r@[k] == recipients_of(registry.members(), self.id)[k],
    {
        if self.phase != Phase::Active {
            return Vec::new();
        }
        registry.recipients(self.id)
    }

    /// Completes an update whose durable write has been attempted: where `written`, the
    /// document becomes `text` and the handles it is to be relayed to are returned (those
    /// of `relay_targets`); where the write failed, the document is left as it was and the
    /// update goes to nobody.
    pub fn commit_update<'a, H>(
        &self,
        document: &mut DocumentStore,
        registry: &'a Registry<H>,
        text: String,
        written: bool,
    ) -> (r: Vec<&'a H>)
        ensures
            written ==> final(document)@ == text@,
            !written ==> final(document)@ == old(document)@,
            !written || self.phase != Phase::Active ==> r@.len() == 0,
            written && self.phase == Phase::Active ==> r@.len() == recipients_of(
                registry.members(),
                self.id,
            ).len(),
            written && self.phase == Phase::Active ==> forall|k: int|
                0 <= k < r@.len() ==> *#[trigger] r@[k] == recipients_of(registry.members(), self.id)[k],
    {
        if !written {
            return Vec::new();
        }
        document.replace(text);
        self.relay_targets(registry)
    }

    /// Stops the session: the connection leaves the registry.
    pub fn stop<H>(&mut self, registry: &mut Registry<H>)
        requires
            old(registry).wf(),
        ensures
            final(self).phase == Phase::Stopped,
            final(self).id == old(self).id,
            final(registry).wf(),
            final(registry).ids() == old(registry).ids().remove(old(self).id),
            !old(registry).ids().contains(old(self).id) ==> final(registry).members() == old(
                registry,
            ).members(),
            old(registry).ids().contains(old(self).id) ==> exists|i: int|
                0 <= i < old(registry).members().len() && old(registry).members()[i].0 == old(
                    self,
                ).id && final(registry).members() == old(registry).members().remove(i),
    {
        registry.deregister(self.id);
        self.phase = Phase::Stopped;
    }
}

} // verus!
