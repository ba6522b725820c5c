//! The exact textual wire form of the three commands.

use duplex_tts::command::{continue_task_command, finish_task_command, run_task_command};
use duplex_tts::config::SynthesisConfig;

#[test]
fn run_task_wire_form_with_defaults() {
    let cmd = run_task_command("tid-1", &SynthesisConfig::default());
    assert_eq!(
        cmd,
        "{\"header\":{\"action\":\"run-task\",\"task_id\":\"tid-1\",\"streaming\":\"duplex\"},\
         \"payload\":{\"task_group\":\"audio\",\"task\":\"tts\",\"function\":\"SpeechSynthesizer\",\
         \"model\":\"cosyvoice-v1\",\"parameters\":{\"text_type\":\"PlainText\",\
         \"voice\":\"longxiaochun\",\"format\":\"mp3\",\"sample_rate\":22050,\"volume\":50,\
         \"rate\":1,\"pitch\":1},\"input\":{}}}"
    );
}

#[test]
fn continue_task_wire_form() {
    let cmd = continue_task_command("abc", "hello");
    assert_eq!(
        cmd,
        "{\"header\":{\"action\":\"continue-task\",\"task_id\":\"abc\",\"streaming\":\"duplex\"},\
         \"payload\":{\"input\":{\"text\":\"hello\"}}}"
    );
}

#[test]
fn finish_task_wire_form() {
    let cmd = finish_task_command("abc");
    assert_eq!(
        cmd,
        "{\"header\":{\"action\":\"finish-task\",\"task_id\":\"abc\",\"streaming\":\"duplex\"},\
         \"payload\":{\"input\":{}}}"
    );
}

#[test]
fn feed_text_is_json_escaped() {
    let cmd = continue_task_command("t", "a\"b\\c\nd");
    assert_eq!(
        cmd,
        "{\"header\":{\"action\":\"continue-task\",\"task_id\":\"t\",\"streaming\":\"duplex\"},\
         \"payload\":{\"input\":{\"text\":\"a\\\"b\\\\c\\u000ad\"}}}"
    );
}

#[test]
fn non_ascii_text_stands_as_itself() {
    let cmd = continue_task_command("t", "床前明月光");
    assert!(cmd.contains("\"text\":\"床前明月光\""));
}

#[test]
fn commands_parse_back_as_json() {
    let cmd = run_task_command("tid-9", &SynthesisConfig::default());
    let v: serde_json::Value = serde_json::from_str(&cmd).expect("start command must be valid JSON");
    assert_eq!(v["header"]["action"].as_str(), Some("run-task"));
    assert_eq!(v["header"]["task_id"].as_str(), Some("tid-9"));
    assert_eq!(v["header"]["streaming"].as_str(), Some("duplex"));
    assert_eq!(v["payload"]["model"].as_str(), Some("cosyvoice-v1"));
    assert_eq!(v["payload"]["parameters"]["sample_rate"].as_u64(), Some(22050));

    let cmd = continue_task_command("tid-9", "line \"quoted\"\t.");
    let v: serde_json::Value = serde_json::from_str(&cmd).expect("feed command must be valid JSON");
    assert_eq!(v["payload"]["input"]["text"].as_str(), Some("line \"quoted\"\t."));

    let cmd = finish_task_command("tid-9");
    let v: serde_json::Value =
        serde_json::from_str(&cmd).expect("finish command must be valid JSON");
    assert_eq!(v["header"]["action"].as_str(), Some("finish-task"));
    assert_eq!(v["payload"]["input"].as_object().map(|o| o.len()), Some(0));
}

#[test]
fn default_configuration_values() {
    let c = SynthesisConfig::default();
    assert_eq!(c.model, "cosyvoice-v1");
    assert_eq!(c.voice, "longxiaochun");
    assert_eq!(c.format, "mp3");
    assert_eq!(c.text_type, "PlainText");
    assert_eq!(c.sample_rate, 22050);
    assert_eq!(c.volume, 50);
    assert_eq!(c.rate, 1);
    assert_eq!(c.pitch, 1);
}

#[test]
fn overridden_configuration_is_used() {
    let mut c = SynthesisConfig::default();
    c.voice = String::from("other-voice");
    c.sample_rate = 8000;
    let cmd = run_task_command("tid", &c);
    assert!(cmd.contains("\"voice\":\"other-voice\""));
    assert!(cmd.contains("\"sample_rate\":8000"));
}
