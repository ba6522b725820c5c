//! The sender sequencer: the strictly ordered send half of a session.
//!
//! One start command, then a wait for the readiness signal, then one feed
//! command per input unit in the caller-supplied order, then one finish
//! command. The machine holds only decisions; the surrounding loop performs
//! each transmission and reads the shared readiness flag for it. The ghost
//! `emitted` log records every command the machine has handed out, in order.

use vstd::prelude::*;
use crate::command::{
    spec_continue_task_command, spec_finish_task_command, spec_run_task_command,
    continue_task_command, finish_task_command, run_task_command,
};
use crate::config::SynthesisConfig;

verus! {

/// Where the sequencer stands in its strictly ordered protocol.
pub enum SenderPhase {
    /// The start command has not been handed out yet.
    Start,
    /// Start handed out; waiting for the readiness signal.
    AwaitReady,
    /// Readiness observed; `sent` input units fed so far.
    Feeding { sent: usize },
    /// The finish command has been handed out; nothing is left.
    Done,
}

/// What the surrounding loop must do next.
pub enum SenderStep {
    /// Transmit this command; a transmission failure aborts the sequence.
    Emit(String),
    /// The readiness signal has not arrived: poll again.
    Wait,
    /// The sequence is complete.
    Done,
}

/// The feed commands for the given input units, in their order.
pub open spec fn feed_commands(tid: Seq<char>, texts: Seq<Seq<char>>) -> Seq<Seq<char>> {
    texts.map_values(|t: Seq<char>| spec_continue_task_command(tid, t))
}

/// The complete wire plan of one session: one start command, one feed
/// command per input unit in order, one finish command.
pub open spec fn spec_plan(tid: Seq<char>, texts: Seq<Seq<char>>, c: SynthesisConfig) -> Seq<
    Seq<char>,
> {
    seq![spec_run_task_command(tid, c)] + feed_commands(tid, texts) + seq![
        spec_finish_task_command(tid),
    ]
}

/// The sender sequencer's state between steps.
pub struct Sender {
    /// The session's task identity, fixed at construction, carried in every
    /// command.
    pub task_id: String,
    /// The input units, in the order they must be fed.
    pub texts: Vec<String>,
    /// The synthesis parameters of the start command.
    pub config: SynthesisConfig,
    /// Where the sequencer stands.
    pub phase: SenderPhase,
    /// Every command handed out so far, in order.
    pub emitted: Ghost<Seq<Seq<char>>>,
    /// Whether a readiness signal has been observed.
    pub ready_seen: Ghost<bool>,
}

impl Sender {
    /// The emitted log is exactly the prefix of the wire plan that the
    /// phase says, and nothing past the start command leaves before
    /// readiness was observed.
    pub open spec fn wf(&self) -> bool {
        let tid = self.task_id@;
        let texts = self.texts.deep_view();
        match self.phase {
            SenderPhase::Start => {
                &&& self.emitted@ == Seq::<Seq<char>>::empty()
                &&& !self.ready_seen@
            },
            SenderPhase::AwaitReady => {
                &&& self.emitted@ == seq![spec_run_task_command(tid, self.config)]
                &&& !self.ready_seen@
            },
            SenderPhase::Feeding { sent } => {
                &&& sent <= texts.len()
                &&& self.emitted@ == seq![spec_run_task_command(tid, self.config)]
                    + feed_commands(tid, texts.take(sent as int))
                &&& self.ready_seen@
            },
            SenderPhase::Done => {
                &&& self.emitted@ == spec_plan(tid, texts, self.config)
                &&& self.ready_seen@
            },
        }
    }

    /// A fresh sequencer for one session over the given task identity,
    /// input units and configuration. Nothing is emitted yet.
    pub fn new(task_id: String, texts: Vec<String>, config: SynthesisConfig) -> (s: Sender)
        ensures
            s.wf(),
            s.phase is Start,
            s.task_id == task_id,
            s.texts == texts,
            s.config == config,
            s.emitted@ == Seq::<Seq<char>>::empty(),
            !s.ready_seen@,
    {
        Sender {
            task_id,
            texts,
            config,
            phase: SenderPhase::Start,
            emitted: Ghost(Seq::empty()),
            ready_seen: Ghost(false),
        }
    }

    /// One step of the sequence, given the current value of the shared
    /// readiness flag. Hands out the next command to transmit, or says to
    /// poll again, or that the sequence is complete. A feed or finish
    /// command is handed out only after a step saw the flag true.
    pub fn next(&mut self, ready: bool) -> (step: SenderStep)
        requires
            old(self).wf(),
        ensures
            final(self).wf(),
            final(self).task_id == old(self).task_id,
            final(self).texts == old(self).texts,
            final(self).config == old(self).config,
            // Readiness observation is monotone and happens exactly on a
            // poll that finds the flag true.
            final(self).ready_seen@ == (old(self).ready_seen@ || (old(self).phase is AwaitReady
                && ready)),
            // The emitted log grows by exactly what is handed out.
            (step matches SenderStep::Emit(c) ==> final(self).emitted@ == old(self).emitted@.push(
                c@,
            )),
            (!(step matches SenderStep::Emit(_)) ==> final(self).emitted@ == old(self).emitted@),
            // The strict order of the protocol.
            (old(self).phase is Start ==> (step matches SenderStep::Emit(c) && c@
                == spec_run_task_command(old(self).task_id@, old(self).config))
                && final(self).phase is AwaitReady),
            (old(self).phase is AwaitReady && !ready ==> (step matches SenderStep::Wait)
                && final(self).phase is AwaitReady),
            (old(self).phase is AwaitReady && ready ==> (step matches SenderStep::Wait)
                && final(self).phase == (SenderPhase::Feeding { sent: 0 })),
            (old(self).phase matches SenderPhase::Feeding { sent } ==> (if sent < old(
                self,
            ).texts.len() {
                (step matches SenderStep::Emit(c) && c@ == spec_continue_task_command(
                    old(self).task_id@,
                    old(self).texts.deep_view()[sent as int],
                )) && final(self).phase == (SenderPhase::Feeding { sent: (sent + 1) as usize })
            } else {
                (step matches SenderStep::Emit(c) && c@ == spec_finish_task_command(
                    old(self).task_id@,
                )) && final(self).phase is Done
            })),
            (old(self).phase is Done ==> (step matches SenderStep::Done)
                && final(self).phase is Done),
    {
        match self.phase {
            SenderPhase::Start => {
                let cmd = run_task_command(self.task_id.as_str(), &self.config);
                self.phase = SenderPhase::AwaitReady;
                proof {
                    self.emitted@ = self.emitted@.push(cmd@);
                }
                SenderStep::Emit(cmd)
            },
            SenderPhase::AwaitReady => {
                if ready {
                    self.phase = SenderPhase::Feeding { sent: 0 };
                    proof {
                        self.ready_seen@ = true;
                        assert(self.texts.deep_view().take(0) =~= Seq::<Seq<char>>::empty());
                        assert(self.emitted@ =~= seq![
                            spec_run_task_command(self.task_id@, self.config),
                        ] + feed_commands(self.task_id@, self.texts.deep_view().take(0)));
                    }
                    SenderStep::Wait
                } else {
                    SenderStep::Wait
                }
            },
            SenderPhase::Feeding { sent } => {
                if sent < self.texts.len() {
                    let cmd = continue_task_command(
                        self.task_id.as_str(),
                        self.texts[sent].as_str(),
                    );
                    self.phase = SenderPhase::Feeding { sent: sent + 1 };
                    proof {
                        self.emitted@ = self.emitted@.push(cmd@);
                        let tid = self.task_id@;
                        let texts = self.texts.deep_view();
                        assert(texts.take(sent + 1 as int).drop_last() =~= texts.take(sent as int));
                        assert(feed_commands(tid, texts.take(sent + 1 as int)) =~= feed_commands(
                            tid,
                            texts.take(sent as int),
                        ).push(spec_continue_task_command(tid, texts[sent as int])));
                        assert(self.emitted@ =~= seq![spec_run_task_command(tid, self.config)]
                            + feed_commands(tid, texts.take(sent + 1 as int)));
                    }
                    SenderStep::Emit(cmd)
                } else {
                    let cmd = finish_task_command(self.task_id.as_str());
                    self.phase = SenderPhase::Done;
                    proof {
                        self.emitted@ = self.emitted@.push(cmd@);
                        let tid = self.task_id@;
                        let texts = self.texts.deep_view();
                        assert(texts.take(sent as int) =~= texts);
                        assert(self.emitted@ =~= spec_plan(tid, texts, self.config));
                    }
                    SenderStep::Emit(cmd)
                }
            },
            SenderPhase::Done => SenderStep::Done,
        }
    }
}

/// Whether a character may appear in a task identity: lowercase hex or a
/// hyphen. All such characters stand for themselves inside a JSON string.
pub open spec fn task_id_char(c: char) -> bool {
    c == '-' || ('0' <= c && c <= '9') || ('a' <= c && c <= 'f')
}

/// Relies on `uuid::Uuid::new_v4` and its display form: a freshly generated
/// random identifier, rendered hyphenated in lowercase hex — 36 characters,
/// each a lowercase hex digit or a hyphen. Nothing relates two calls: each
/// yields an arbitrary such string.
#[verifier::external_body]
pub fn fresh_task_id() -> (r: String)
    ensures
        r@.len() == 36,
        forall|i: int| 0 <= i < r@.len() ==> task_id_char(r@[i]),
{
    uuid::Uuid::new_v4().to_string()
}

/// Law: a completed sequencer has emitted exactly one start command, then
/// one feed command per input unit in the callers' order, then one finish
/// command — `N + 2` commands for `N` input units, with no reordering.
pub proof fn lemma_complete_emission(s: Sender)
    requires
        s.wf(),
        s.phase is Done,
    ensures
        s.emitted@ == spec_plan(s.task_id@, s.texts.deep_view(), s.config),
        s.emitted@.len() == s.texts.deep_view().len() + 2,
        s.emitted@.first() == spec_run_task_command(s.task_id@, s.config),
        s.emitted@.last() == spec_finish_task_command(s.task_id@),
        forall|i: int|
            0 <= i < s.texts.deep_view().len() ==> s.emitted@[i + 1]
                == spec_continue_task_command(s.task_id@, s.texts.deep_view()[i]),
{
    let tid = s.task_id@;
    let texts = s.texts.deep_view();
    assert(s.emitted@.len() == texts.len() + 2);
    assert forall|i: int| 0 <= i < texts.len() implies s.emitted@[i + 1]
        == spec_continue_task_command(tid, texts[i]) by {
        assert(s.emitted@[i + 1] == feed_commands(tid, texts)[i]);
    }
}

/// Law: nothing past the start command is ever on the wire before a poll
/// saw the readiness flag true — a sequencer whose log holds more than the
/// start command has observed readiness.
pub proof fn lemma_no_feed_before_ready(s: Sender)
    requires
        s.wf(),
        s.emitted@.len() > 1,
    ensures
        s.ready_seen@,
{
}

} // verus!
