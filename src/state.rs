use vstd::prelude::*;

verus! {

/// The process-wide flags: whether shutdown was requested, whether a client
/// holds the connection slot, and whether an admitted attempt is still
/// starting its backend or completing its handshake.
#[derive(Clone, Copy, Debug, PartialEq, Eq, Structural)]
pub struct RuntimeFlags {
    pub shutdown: bool,
    pub connected: bool,
    pub pending: bool,
}

/// Where one accepted socket stands on its way from accept to teardown.
#[derive(Clone, Copy, Debug, PartialEq, Eq, Structural)]
pub enum AttemptPhase {
    /// The raw socket was accepted; nothing was decided yet.
    Accepted,
    /// Admitted (and the slot reserved): the backend process is being started.
    Spawning,
    /// The backend runs: the transport handshake is under way.
    Handshaking,
    /// Handshake done: the relay runs and holds the connection slot.
    Relaying,
    /// Over: the relay ended or the handshake failed.
    Closed,
    /// Refused: the slot was taken or reserved, or the backend did not start.
    Rejected,
    /// Shutdown was requested: the accept loop stops.
    Stopped,
}

/// What happened to an attempt, as the accept loop and the relay report it.
#[derive(Clone, Copy, Debug, PartialEq, Eq, Structural)]
pub enum AttemptEvent {
    Admit,
    SpawnOk,
    SpawnFailed,
    HandshakeOk,
    HandshakeFailed,
    RelayEnded,
}

pub open spec fn flags_of(shutdown: bool, connected: bool, pending: bool) -> RuntimeFlags {
    RuntimeFlags { shutdown, connected, pending }
}

/// The admission rule: shutdown stops the loop, a taken or reserved slot
/// rejects, anything else starts a backend.
pub open spec fn admission_of(f: RuntimeFlags) -> AttemptPhase {
    if f.shutdown {
        AttemptPhase::Stopped
    } else if f.connected || f.pending {
        AttemptPhase::Rejected
    } else {
        AttemptPhase::Spawning
    }
}

/// One step of an attempt: the flags and phase after `e` arrives in `p`.
/// Admission reserves the slot; the reservation becomes occupancy when the
/// handshake completes and is dropped when the backend or the handshake
/// fails. Events that do not fit the phase change nothing.
pub open spec fn next_step(f: RuntimeFlags, p: AttemptPhase, e: AttemptEvent) -> (
    RuntimeFlags,
    AttemptPhase,
) {
    match (p, e) {
        (AttemptPhase::Accepted, AttemptEvent::Admit) => if admission_of(f)
            == AttemptPhase::Spawning {
            (flags_of(f.shutdown, f.connected, true), AttemptPhase::Spawning)
        } else {
            (f, admission_of(f))
        },
        (AttemptPhase::Spawning, AttemptEvent::SpawnOk) => (f, AttemptPhase::Handshaking),
        (AttemptPhase::Spawning, AttemptEvent::SpawnFailed) => (
            flags_of(f.shutdown, f.connected, false),
            AttemptPhase::Rejected,
        ),
        (AttemptPhase::Handshaking, AttemptEvent::HandshakeOk) => (
            flags_of(f.shutdown, true, false),
            AttemptPhase::Relaying,
        ),
        (AttemptPhase::Handshaking, AttemptEvent::HandshakeFailed) => (
            flags_of(f.shutdown, f.connected, false),
            AttemptPhase::Closed,
        ),
        (AttemptPhase::Relaying, AttemptEvent::RelayEnded) => (
            flags_of(f.shutdown, false, f.pending),
            AttemptPhase::Closed,
        ),
        _ => (f, p),
    }
}

/// The flags and phase after a whole sequence of events.
pub open spec fn run_steps(f: RuntimeFlags, p: AttemptPhase, es: Seq<AttemptEvent>) -> (
    RuntimeFlags,
    AttemptPhase,
)
    decreases es.len(),
{
    if es.len() == 0 {
        (f, p)
    } else {
        let (f1, p1) = next_step(f, p, es[0]);
        run_steps(f1, p1, es.drop_first())
    }
}

impl RuntimeFlags {
    /// Flags at start-up: no shutdown requested, the slot free.
    pub fn new() -> (r: RuntimeFlags)
        ensures
            r == flags_of(false, false, false),
    {
        RuntimeFlags { shutdown: false, connected: false, pending: false }
    }

    /// The decision the accept loop takes for a freshly accepted socket.
    pub fn admission(&self) -> (r: AttemptPhase)
        ensures
            r == admission_of(*self),
    {
        if self.shutdown {
            AttemptPhase::Stopped
        } else if self.connected || self.pending {
            AttemptPhase::Rejected
        } else {
            AttemptPhase::Spawning
        }
    }

    /// Reserves the slot for an admitted attempt.
    pub fn reserve(&mut self)
        ensures
            *final(self) == flags_of(old(self).shutdown, old(self).connected, true),
    {
        self.pending = true;
    }

    /// Drops the reservation of an attempt that failed before its handshake.
    pub fn cancel_reservation(&mut self)
        ensures
            *final(self) == flags_of(old(self).shutdown, old(self).connected, false),
    {
        self.pending = false;
    }

    /// Marks the slot as taken, once the handshake has completed.
    pub fn occupy(&mut self)
        ensures
            *final(self) == flags_of(old(self).shutdown, true, false),
    {
        self.connected = true;
        self.pending = false;
    }

    /// Frees the slot when a relay ends, whatever ended it.
    pub fn release(&mut self)
        ensures
            *final(self) == flags_of(old(self).shutdown, false, old(self).pending),
    {
        self.connected = false;
    }

    /// Requests shutdown; the flag is never reset afterwards.
    pub fn initiate_shutdown(&mut self)
        ensures
            *final(self) == flags_of(true, old(self).connected, old(self).pending),
    {
        self.shutdown = true;
    }
}

/// Advances one connection attempt by one event, updating the shared flags.
pub fn advance(flags: &mut RuntimeFlags, phase: AttemptPhase, event: AttemptEvent) -> (r:
    AttemptPhase)
    ensures
        (*final(flags), r) == next_step(*old(flags), phase, event),
{
    match (phase, event) {
        (AttemptPhase::Accepted, AttemptEvent::Admit) => {
            let r = flags.admission();
            if r == AttemptPhase::Spawning {
                flags.reserve();
            }
            r
        },
        (AttemptPhase::Spawning, AttemptEvent::SpawnOk) => AttemptPhase::Handshaking,
        (AttemptPhase::Spawning, AttemptEvent::SpawnFailed) => {
            flags.cancel_reservation();
            AttemptPhase::Rejected
        },
        (AttemptPhase::Handshaking, AttemptEvent::HandshakeOk) => {
            flags.occupy();
            AttemptPhase::Relaying
        },
        (AttemptPhase::Handshaking, AttemptEvent::HandshakeFailed) => {
            flags.cancel_reservation();
            AttemptPhase::Closed
        },
        (AttemptPhase::Relaying, AttemptEvent::RelayEnded) => {
            flags.release();
            AttemptPhase::Closed
        },
        _ => phase,
    }
}

/// A phase that no event leaves and in which no event touches the flags.
pub open spec fn is_final_refusal(p: AttemptPhase) -> bool {
    p == AttemptPhase::Rejected || p == AttemptPhase::Stopped
}

/// Once refused (slot taken, backend failed, or shutdown), an attempt stays
/// refused and never writes the flags, whatever events follow.
pub proof fn lemma_refused_attempt_is_inert(f: RuntimeFlags, p: AttemptPhase, es: Seq<AttemptEvent>)
    requires
        is_final_refusal(p),
    ensures
        run_steps(f, p, es) == (f, p),
    decreases es.len(),
{
    if es.len() > 0 {
        lemma_refused_attempt_is_inert(f, p, es.drop_first());
    }
}

/// While a client holds the slot, or an admitted attempt still has it
/// reserved, a further attempt never starts a backend or a handshake:
/// whatever events it sees, it ends accepted, rejected or stopped, and it
/// never writes the flags.
pub proof fn lemma_single_occupancy(f: RuntimeFlags, es: Seq<AttemptEvent>)
    requires
        f.connected || f.pending,
    ensures
        run_steps(f, AttemptPhase::Accepted, es).0 == f,
        run_steps(f, AttemptPhase::Accepted, es).1 == AttemptPhase::Accepted || is_final_refusal(
            run_steps(f, AttemptPhase::Accepted, es).1,
        ),
    decreases es.len(),
{
    if es.len() > 0 {
        let (f1, p1) = next_step(f, AttemptPhase::Accepted, es[0]);
        if p1 == AttemptPhase::Accepted {
            lemma_single_occupancy(f, es.drop_first());
        } else {
            lemma_refused_attempt_is_inert(f1, p1, es.drop_first());
        }
    }
}

/// When a relay ends, the slot is free at once and the very next accepted
/// socket is admitted, unless shutdown was requested.
pub proof fn lemma_release_readmits(f: RuntimeFlags)
    requires
        !f.shutdown,
        !f.pending,
    ensures
        !next_step(f, AttemptPhase::Relaying, AttemptEvent::RelayEnded).0.connected,
        next_step(f, AttemptPhase::Relaying, AttemptEvent::RelayEnded).1 == AttemptPhase::Closed,
        next_step(
            next_step(f, AttemptPhase::Relaying, AttemptEvent::RelayEnded).0,
            AttemptPhase::Accepted,
            AttemptEvent::Admit,
        ).1 == AttemptPhase::Spawning,
{
}

/// A failed handshake drops the reservation at once, so the next accepted
/// socket is admitted, unless a client holds the slot or shutdown was
/// requested.
pub proof fn lemma_failed_handshake_readmits(f: RuntimeFlags)
    requires
        !f.shutdown,
        !f.connected,
    ensures
        !next_step(f, AttemptPhase::Handshaking, AttemptEvent::HandshakeFailed).0.pending,
        next_step(
            next_step(f, AttemptPhase::Handshaking, AttemptEvent::HandshakeFailed).0,
            AttemptPhase::Accepted,
            AttemptEvent::Admit,
        ).1 == AttemptPhase::Spawning,
{
}

/// Shutdown is never undone by any sequence of events, and once it is set
/// the accept loop stops at the next accepted socket.
pub proof fn lemma_shutdown_stops_accepting(f: RuntimeFlags, p: AttemptPhase, es: Seq<AttemptEvent>)
    requires
        f.shutdown,
    ensures
        run_steps(f, p, es).0.shutdown,
        next_step(f, AttemptPhase::Accepted, AttemptEvent::Admit).1 == AttemptPhase::Stopped,
    decreases es.len(),
{
    if es.len() > 0 {
        let (f1, p1) = next_step(f, p, es[0]);
        lemma_shutdown_stops_accepting(f1, p1, es.drop_first());
    }
}

/// An attempt whose backend fails to start is rejected and leaves the flags
/// as it found them, so a free slot stays free, whatever events follow.
pub proof fn lemma_failed_spawn_leaves_slot_free(f: RuntimeFlags, es: Seq<AttemptEvent>)
    requires
        !f.connected,
    ensures
        run_steps(f, AttemptPhase::Accepted, seq![AttemptEvent::Admit, AttemptEvent::SpawnFailed] + es).0 == f,
        !run_steps(f, AttemptPhase::Accepted, seq![AttemptEvent::Admit, AttemptEvent::SpawnFailed] + es).0.connected,
        is_final_refusal(
            run_steps(f, AttemptPhase::Accepted, seq![AttemptEvent::Admit, AttemptEvent::SpawnFailed] + es).1,
        ),
{
    let all = seq![AttemptEvent::Admit, AttemptEvent::SpawnFailed] + es;
    let (f1, p1) = next_step(f, AttemptPhase::Accepted, AttemptEvent::Admit);
    let (f2, p2) = next_step(f1, p1, AttemptEvent::SpawnFailed);
    assert(all.drop_first().drop_first() =~= es);
    assert(all[0] == AttemptEvent::Admit);
    assert(all.drop_first()[0] == AttemptEvent::SpawnFailed);
    assert(run_steps(f, AttemptPhase::Accepted, all) == run_steps(f1, p1, all.drop_first()));
    assert(run_steps(f1, p1, all.drop_first()) == run_steps(f2, p2, es));
    lemma_refused_attempt_is_inert(f2, p2, es);
}

} // verus!
