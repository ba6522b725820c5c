//! The receiver loop's state machine: demultiplexes inbound frames into
//! sink appends and lifecycle events, owns the readiness flag transition,
//! and decides when the loop stops.
//!
//! The machine holds only decisions; the surrounding loop performs the
//! channel reads, sink writes and logging it directs, and reports their
//! results back. The ghost `appended` log records, in order, every fragment
//! the machine has directed to the sink.

use vstd::prelude::*;
use crate::event::{DecodeError, EventKind, LifecycleEvent, decode_frame, json_wellformed};

verus! {

/// One unit received from the channel.
pub enum Frame {
    /// A binary payload fragment.
    Binary(Vec<u8>),
    /// A structured text frame.
    Text(String),
    /// Any other frame kind (control traffic); ignored.
    Other,
}

/// What the surrounding loop must do after handing one frame in.
pub enum Directive {
    /// Append this fragment to the sink, and report a failure back through
    /// [`Receiver::on_append_error`].
    Append(Vec<u8>),
    /// A structured frame classified as this event; surface it for
    /// diagnostics.
    Event(LifecycleEvent),
    /// A malformed structured frame; log and carry on.
    DecodeFailure,
    /// Nothing to do.
    Ignore,
}

/// Why the receiver stopped.
#[derive(Debug)]
pub enum Outcome {
    /// Terminal finished event: the task completed.
    Finished,
    /// Terminal failed event, with the description the server gave (or the
    /// sentinel substituted for an absent one).
    Failed { reason: String },
    /// A sink append failed; consuming stops early.
    SinkError,
    /// The transport reported a receive error.
    TransportError,
    /// The channel ended without a terminal event.
    Closed,
}

/// The readiness flag after an event is taken in: a one-shot false-to-true
/// transition on the started event, never back.
pub open spec fn ready_after(ready: bool, e: LifecycleEvent) -> bool {
    ready || e.kind() == EventKind::Started
}

/// The recorded outcome after an event is taken in: set by a terminal
/// event, untouched by every other.
pub open spec fn outcome_after(prev: Option<Outcome>, e: LifecycleEvent) -> Option<Outcome> {
    match e {
        LifecycleEvent::Finished => Some(Outcome::Finished),
        LifecycleEvent::Failed { reason } => Some(Outcome::Failed { reason }),
        _ => prev,
    }
}

/// The receiver's state between frames.
pub struct Receiver {
    /// The readiness flag: false until a started event is classified, true
    /// from then on.
    pub ready: bool,
    /// Whether the loop must stop taking frames in.
    pub stopped: bool,
    /// Why it stopped, once it has.
    pub outcome: Option<Outcome>,
    /// Every fragment directed to the sink so far, in arrival order.
    pub appended: Ghost<Seq<Seq<u8>>>,
}

impl Receiver {
    /// A receiver's state and stop reason agree.
    pub open spec fn wf(&self) -> bool {
        self.stopped <==> self.outcome is Some
    }

    /// A fresh receiver: not ready, running, nothing appended.
    pub fn new() -> (r: Receiver)
        ensures
            r.wf(),
            !r.ready,
            !r.stopped,
            r.outcome is None,
            r.appended@ == Seq::<Seq<u8>>::empty(),
    {
        Receiver { ready: false, stopped: false, outcome: None, appended: Ghost(Seq::empty()) }
    }

    /// Takes one inbound frame in and says what the loop must do with it.
    ///
    /// A binary fragment is directed to the sink unconditionally and in
    /// arrival order. A structured frame is decoded and classified: a
    /// started event flips the readiness flag — the only way it ever flips —
    /// a terminal event stops the machine and records the outcome, and a
    /// malformed frame is reported for logging and changes nothing.
    pub fn on_frame(&mut self, frame: Frame) -> (d: Directive)
        requires
            !old(self).stopped,
            old(self).wf(),
        ensures
            final(self).wf(),
            // The readiness flag is monotone.
            old(self).ready ==> final(self).ready,
            // The sink log grows by exactly the binary payloads, in order.
            final(self).appended@ == (match frame {
                Frame::Binary(b) => old(self).appended@.push(b@),
                _ => old(self).appended@,
            }),
            (frame matches Frame::Binary(b) ==> {
                &&& d == Directive::Append(b)
                &&& final(self).ready == old(self).ready
                &&& !final(self).stopped
                &&& final(self).outcome == old(self).outcome
            }),
            (frame matches Frame::Other ==> {
                &&& d == Directive::Ignore
                &&& final(self).ready == old(self).ready
                &&& !final(self).stopped
                &&& final(self).outcome == old(self).outcome
            }),
            (frame matches Frame::Text(t) ==> {
                &&& (d matches Directive::DecodeFailure <==> !json_wellformed(t@))
                &&& (d matches Directive::DecodeFailure ==> {
                    &&& final(self).ready == old(self).ready
                    &&& !final(self).stopped
                    &&& final(self).outcome == old(self).outcome
                })
                &&& (d matches Directive::Event(e) ==> {
                    &&& final(self).ready == ready_after(old(self).ready, e)
                    &&& final(self).stopped == e.spec_is_terminal()
                    &&& final(self).outcome == outcome_after(old(self).outcome, e)
                })
                &&& (d matches Directive::Event(e) || d matches Directive::DecodeFailure)
            }),
    {
        match frame {
            Frame::Binary(b) => {
                let ghost payload = b@;
                proof {
                    self.appended@ = self.appended@.push(payload);
                }
                Directive::Append(b)
            },
            Frame::Text(t) => {
                match decode_frame(t.as_str()) {
                    Err(DecodeError::Malformed) => Directive::DecodeFailure,
                    Ok(e) => {
                        match &e {
                            LifecycleEvent::Started => {
                                self.ready = true;
                            },
                            LifecycleEvent::Finished => {
                                self.stopped = true;
                                self.outcome = Some(Outcome::Finished);
                            },
                            LifecycleEvent::Failed { reason } => {
                                self.stopped = true;
                                self.outcome = Some(
                                    Outcome::Failed { reason: reason.clone() },
                                );
                            },
                            _ => {},
                        }
                        Directive::Event(e)
                    },
                }
            },
            Frame::Other => Directive::Ignore,
        }
    }

    /// The channel closed cleanly without a terminal event: stop.
    pub fn on_stream_end(&mut self)
        requires
            !old(self).stopped,
            old(self).wf(),
        ensures
            final(self).wf(),
            final(self).stopped,
            final(self).outcome matches Some(o) && o is Closed,
            final(self).ready == old(self).ready,
            final(self).appended@ == old(self).appended@,
    {
        self.stopped = true;
        self.outcome = Some(Outcome::Closed);
    }

    /// The transport reported a receive error: stop and report it.
    pub fn on_transport_error(&mut self)
        requires
            !old(self).stopped,
            old(self).wf(),
        ensures
            final(self).wf(),
            final(self).stopped,
            final(self).outcome matches Some(o) && o is TransportError,
            final(self).ready == old(self).ready,
            final(self).appended@ == old(self).appended@,
    {
        self.stopped = true;
        self.outcome = Some(Outcome::TransportError);
    }

    /// A directed sink append failed: stop consuming and report it.
    pub fn on_append_error(&mut self)
        requires
            !old(self).stopped,
            old(self).wf(),
        ensures
            final(self).wf(),
            final(self).stopped,
            final(self).outcome matches Some(o) && o is SinkError,
            final(self).ready == old(self).ready,
            final(self).appended@ == old(self).appended@,
    {
        self.stopped = true;
        self.outcome = Some(Outcome::SinkError);
    }
}

/// The readiness flag after a sequence of classified events is taken in,
/// event by event, exactly as [`Receiver::on_frame`] updates it.
pub open spec fn ready_run(ready: bool, events: Seq<LifecycleEvent>) -> bool
    decreases events.len(),
{
    if events.len() == 0 {
        ready
    } else {
        ready_run(ready_after(ready, events.first()), events.drop_first())
    }
}

/// Law: the readiness flag is a monotone one-shot transition — after any
/// sequence of classified events it is true exactly when it already was, or
/// a started event was among them. In particular it is false until the
/// first started event and never reverts afterwards.
pub proof fn lemma_readiness_one_shot(ready: bool, events: Seq<LifecycleEvent>)
    ensures
        ready_run(ready, events) == (ready || exists|i: int|
            0 <= i < events.len() && events[i].kind() == EventKind::Started),
    decreases events.len(),
{
    if events.len() == 0 {
    } else {
        let first_ready = ready_after(ready, events.first());
        lemma_readiness_one_shot(first_ready, events.drop_first());
        if ready_run(ready, events) {
            if !first_ready {
                let j = choose|j: int|
                    0 <= j < events.drop_first().len() && events.drop_first()[j].kind()
                        == EventKind::Started;
                assert(events[j + 1].kind() == EventKind::Started);
            } else if !ready && events.first().kind() == EventKind::Started {
                assert(events[0].kind() == EventKind::Started);
            }
        } else {
            assert forall|i: int|
                0 <= i < events.len() implies events[i].kind() != EventKind::Started by {
                if i > 0 {
                    assert(events.drop_first()[i - 1] == events[i]);
                }
            }
        }
    }
}

/// The binary payloads among a sequence of frames, in order.
pub open spec fn binary_payloads(frames: Seq<Frame>) -> Seq<Seq<u8>>
    decreases frames.len(),
{
    if frames.len() == 0 {
        Seq::empty()
    } else {
        (match frames.first() {
            Frame::Binary(b) => seq![b@],
            _ => Seq::<Seq<u8>>::empty(),
        }) + binary_payloads(frames.drop_first())
    }
}

/// The sink log after a sequence of frames is taken in, fragment by
/// fragment, exactly as [`Receiver::on_frame`] updates it.
pub open spec fn appended_run(log: Seq<Seq<u8>>, frames: Seq<Frame>) -> Seq<Seq<u8>>
    decreases frames.len(),
{
    if frames.len() == 0 {
        log
    } else {
        appended_run(
            match frames.first() {
                Frame::Binary(b) => log.push(b@),
                _ => log,
            },
            frames.drop_first(),
        )
    }
}

/// Law: taking a sequence of frames in extends the sink log by exactly the
/// binary payloads of those frames, in arrival order — byte-exact, no gaps,
/// no duplication, no reordering.
pub proof fn lemma_appends_are_binary_payloads_in_order(log: Seq<Seq<u8>>, frames: Seq<Frame>)
    ensures
        appended_run(log, frames) == log + binary_payloads(frames),
    decreases frames.len(),
{
    if frames.len() == 0 {
        assert(appended_run(log, frames) =~= log + binary_payloads(frames));
    } else {
        match frames.first() {
            Frame::Binary(b) => {
                lemma_appends_are_binary_payloads_in_order(log.push(b@), frames.drop_first());
                assert(log.push(b@) + binary_payloads(frames.drop_first()) =~= log
                    + binary_payloads(frames));
            },
            _ => {
                lemma_appends_are_binary_payloads_in_order(log, frames.drop_first());
                assert(log + binary_payloads(frames.drop_first()) =~= log
                    + binary_payloads(frames));
            },
        }
    }
}

} // verus!
