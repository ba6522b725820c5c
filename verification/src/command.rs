//! The command encoder: the three command messages of a session — start,
//! feed and finish — in their exact textual wire form.
//!
//! Every command carries a header with the action name, the session's task
//! identity, and the fixed duplex streaming marker; the payload is
//! action-specific. Construction is pure: the contracts give the full text.

use vstd::prelude::*;
use crate::config::SynthesisConfig;
use crate::encode::{escaped, spec_decimal, push_escaped, push_decimal};

verus! {

/// The exact text of the start command for task `tid` under configuration `c`.
pub open spec fn spec_run_task_command(tid: Seq<char>, c: SynthesisConfig) -> Seq<char> {
    "{\"header\":{\"action\":\"run-task\",\"task_id\":\""@ + escaped(tid)
        + "\",\"streaming\":\"duplex\"},\"payload\":{\"task_group\":\"audio\",\"task\":\"tts\",\"function\":\"SpeechSynthesizer\",\"model\":\""@
        + escaped(c.model@) + "\",\"parameters\":{\"text_type\":\""@ + escaped(c.text_type@)
        + "\",\"voice\":\""@ + escaped(c.voice@) + "\",\"format\":\""@ + escaped(c.format@)
        + "\",\"sample_rate\":"@ + spec_decimal(c.sample_rate as nat) + ",\"volume\":"@
        + spec_decimal(c.volume as nat) + ",\"rate\":"@ + spec_decimal(c.rate as nat)
        + ",\"pitch\":"@ + spec_decimal(c.pitch as nat) + "},\"input\":{}}}"@
}

/// The exact text of the feed command carrying one input unit `text`.
pub open spec fn spec_continue_task_command(tid: Seq<char>, text: Seq<char>) -> Seq<char> {
    "{\"header\":{\"action\":\"continue-task\",\"task_id\":\""@ + escaped(tid)
        + "\",\"streaming\":\"duplex\"},\"payload\":{\"input\":{\"text\":\""@ + escaped(text)
        + "\"}}}"@
}

/// The exact text of the finish command.
pub open spec fn spec_finish_task_command(tid: Seq<char>) -> Seq<char> {
    "{\"header\":{\"action\":\"finish-task\",\"task_id\":\""@ + escaped(tid)
        + "\",\"streaming\":\"duplex\"},\"payload\":{\"input\":{}}}"@
}

/// Builds the start command for task `tid` under configuration `c`.
pub fn run_task_command(tid: &str, c: &SynthesisConfig) -> (r: String)
    ensures
        r@ == spec_run_task_command(tid@, *c),
{
    let mut out = String::from_str("{\"header\":{\"action\":\"run-task\",\"task_id\":\"");
    push_escaped(&mut out, tid);
    out.append(
        "\",\"streaming\":\"duplex\"},\"payload\":{\"task_group\":\"audio\",\"task\":\"tts\",\"function\":\"SpeechSynthesizer\",\"model\":\"",
    );
    push_escaped(&mut out, c.model.as_str());
    out.append("\",\"parameters\":{\"text_type\":\"");
    push_escaped(&mut out, c.text_type.as_str());
    out.append("\",\"voice\":\"");
    push_escaped(&mut out, c.voice.as_str());
    out.append("\",\"format\":\"");
    push_escaped(&mut out, c.format.as_str());
    out.append("\",\"sample_rate\":");
    push_decimal(&mut out, c.sample_rate);
    out.append(",\"volume\":");
    push_decimal(&mut out, c.volume);
    out.append(",\"rate\":");
    push_decimal(&mut out, c.rate);
    out.append(",\"pitch\":");
    push_decimal(&mut out, c.pitch);
    out.append("},\"input\":{}}}");
    proof {
        assert(out@ =~= spec_run_task_command(tid@, *c));
    }
    out
}

/// Builds the feed command carrying one input unit `text`.
pub fn continue_task_command(tid: &str, text: &str) -> (r: String)
    ensures
        r@ == spec_continue_task_command(tid@, text@),
{
    let mut out = String::from_str("{\"header\":{\"action\":\"continue-task\",\"task_id\":\"");
    push_escaped(&mut out, tid);
    out.append("\",\"streaming\":\"duplex\"},\"payload\":{\"input\":{\"text\":\"");
    push_escaped(&mut out, text);
    out.append("\"}}}");
    proof {
        assert(out@ =~= spec_continue_task_command(tid@, text@));
    }
    out
}

/// Builds the finish command.
pub fn finish_task_command(tid: &str) -> (r: String)
    ensures
        r@ == spec_finish_task_command(tid@),
{
    let mut out = String::from_str("{\"header\":{\"action\":\"finish-task\",\"task_id\":\"");
    push_escaped(&mut out, tid);
    out.append("\",\"streaming\":\"duplex\"},\"payload\":{\"input\":{}}}");
    proof {
        assert(out@ =~= spec_finish_task_command(tid@));
    }
    out
}

} // verus!
