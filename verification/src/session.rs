//! The session orchestrator's state machine: the order in which one session
//! acquires its channel, resets the sink, spawns the receiver loop and runs
//! the sender, failing fast before any further side effect when a step
//! fails.
//!
//! The surrounding program performs each side effect and reports its result
//! back; the machine's contracts force the order. The ghost `effects` log
//! records, in order, every side effect the machine has allowed.

use vstd::prelude::*;

verus! {

/// One observable side effect of session setup.
pub enum SideEffect {
    /// The bidirectional channel was acquired.
    Connect,
    /// The sink was cleared to zero length.
    ResetSink,
    /// The receiver loop was spawned.
    SpawnReceiver,
}

/// Where the orchestrator stands.
#[derive(PartialEq, Eq, Structural, Clone, Copy, Debug)]
pub enum SessionPhase {
    /// Nothing has happened yet.
    Init,
    /// Channel acquisition failed; the session never starts.
    ConnectFailed,
    /// The channel is up.
    Connected,
    /// The sink reset failed; the session aborts before any spawn.
    ResetFailed,
    /// The sink is cleared; the receiver loop may be spawned.
    SinkReady,
    /// The receiver loop runs concurrently; the sender may run.
    Running,
    /// The receiver loop has terminated and was joined.
    Complete,
}

/// The session orchestrator's state.
pub struct Session {
    /// Where the orchestrator stands.
    pub phase: SessionPhase,
    /// Every side effect allowed so far, in order.
    pub effects: Ghost<Seq<SideEffect>>,
}

impl Session {
    /// The effects log is exactly what the phase says has happened.
    pub open spec fn wf(&self) -> bool {
        match self.phase {
            SessionPhase::Init => self.effects@ == Seq::<SideEffect>::empty(),
            SessionPhase::ConnectFailed => self.effects@ == Seq::<SideEffect>::empty(),
            SessionPhase::Connected => self.effects@ == seq![SideEffect::Connect],
            SessionPhase::ResetFailed => self.effects@ == seq![SideEffect::Connect],
            SessionPhase::SinkReady => self.effects@ == seq![
                SideEffect::Connect,
                SideEffect::ResetSink,
            ],
            SessionPhase::Running => self.effects@ == seq![
                SideEffect::Connect,
                SideEffect::ResetSink,
                SideEffect::SpawnReceiver,
            ],
            SessionPhase::Complete => self.effects@ == seq![
                SideEffect::Connect,
                SideEffect::ResetSink,
                SideEffect::SpawnReceiver,
            ],
        }
    }

    /// A fresh session: nothing has happened.
    pub fn new() -> (s: Session)
        ensures
            s.wf(),
            s.phase == SessionPhase::Init,
            s.effects@ == Seq::<SideEffect>::empty(),
    {
        Session { phase: SessionPhase::Init, effects: Ghost(Seq::empty()) }
    }

    /// Channel acquisition came back. On failure the session is over before
    /// any other side effect: no reset, no spawn, ever.
    pub fn on_connect_result(&mut self, ok: bool)
        requires
            old(self).wf(),
            old(self).phase == SessionPhase::Init,
        ensures
            final(self).wf(),
            ok ==> final(self).phase == SessionPhase::Connected,
            !ok ==> final(self).phase == SessionPhase::ConnectFailed && final(self).effects@
                == Seq::<SideEffect>::empty(),
    {
        if ok {
            self.phase = SessionPhase::Connected;
            proof {
                self.effects@ = self.effects@.push(SideEffect::Connect);
            }
        } else {
            self.phase = SessionPhase::ConnectFailed;
        }
    }

    /// The sink reset came back. Only a connected session may reset the
    /// sink, and a failed reset aborts before any spawn.
    pub fn on_reset_result(&mut self, ok: bool)
        requires
            old(self).wf(),
            old(self).phase == SessionPhase::Connected,
        ensures
            final(self).wf(),
            ok ==> final(self).phase == SessionPhase::SinkReady,
            !ok ==> final(self).phase == SessionPhase::ResetFailed,
    {
        if ok {
            self.phase = SessionPhase::SinkReady;
            proof {
                self.effects@ = self.effects@.push(SideEffect::ResetSink);
                assert(self.effects@ =~= seq![SideEffect::Connect, SideEffect::ResetSink]);
            }
        } else {
            self.phase = SessionPhase::ResetFailed;
        }
    }

    /// The receiver loop is being spawned. Only a session whose sink was
    /// reset may spawn it — so the reset strictly precedes every append the
    /// receiver will ever direct.
    pub fn on_spawn(&mut self)
        requires
            old(self).wf(),
            old(self).phase == SessionPhase::SinkReady,
        ensures
            final(self).wf(),
            final(self).phase == SessionPhase::Running,
    {
        self.phase = SessionPhase::Running;
        proof {
            self.effects@ = self.effects@.push(SideEffect::SpawnReceiver);
            assert(self.effects@ =~= seq![
                SideEffect::Connect,
                SideEffect::ResetSink,
                SideEffect::SpawnReceiver,
            ]);
        }
    }

    /// The receiver loop terminated and was joined.
    pub fn on_join(&mut self)
        requires
            old(self).wf(),
            old(self).phase == SessionPhase::Running,
        ensures
            final(self).wf(),
            final(self).phase == SessionPhase::Complete,
    {
        self.phase = SessionPhase::Complete;
    }
}

/// Law: in every reachable session, the sink reset precedes the spawn of
/// the receiver loop — and with it every append the receiver directs, since
/// appends come only from the spawned loop.
pub proof fn lemma_reset_precedes_spawn(s: Session)
    requires
        s.wf(),
    ensures
        forall|i: int|
            0 <= i < s.effects@.len() && s.effects@[i] == SideEffect::SpawnReceiver ==> exists|
                j: int,
            | 0 <= j < i && s.effects@[j] == SideEffect::ResetSink,
{
    assert forall|i: int|
        0 <= i < s.effects@.len() && s.effects@[i] == SideEffect::SpawnReceiver implies exists|
        j: int,
    | 0 <= j < i && s.effects@[j] == SideEffect::ResetSink by {
        assert(s.effects@[1] == SideEffect::ResetSink);
    }
}

/// Law: a session whose channel acquisition failed performed no side effect
/// at all — no sink reset, no spawned receiver.
pub proof fn lemma_connect_failure_quiescent(s: Session)
    requires
        s.wf(),
        s.phase == SessionPhase::ConnectFailed,
    ensures
        s.effects@ == Seq::<SideEffect>::empty(),
{
}

} // verus!
