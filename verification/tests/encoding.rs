//! Decimal rendering, JSON escaping, and the connection helpers.

use duplex_tts::config::{bearer_value, default_endpoint, default_sink_name, request_uri};
use duplex_tts::encode::{push_decimal, push_escaped};

#[test]
fn decimal_rendering() {
    let cases: Vec<(u32, &str)> = vec![
        (0, "0"),
        (7, "7"),
        (10, "10"),
        (22050, "22050"),
        (u32::MAX, "4294967295"),
    ];
    for (n, expect) in cases {
        let mut s = String::new();
        push_decimal(&mut s, n);
        assert_eq!(s, expect);
    }
}

#[test]
fn escaping_quotes_backslashes_and_controls() {
    let mut s = String::new();
    push_escaped(&mut s, "say \"hi\" \\ twice");
    assert_eq!(s, "say \\\"hi\\\" \\\\ twice");

    let mut s = String::new();
    push_escaped(&mut s, "a\nb\tc\u{1f}");
    assert_eq!(s, "a\\u000ab\\u0009c\\u001f");
}

#[test]
fn escaping_leaves_ordinary_text_alone() {
    let mut s = String::new();
    push_escaped(&mut s, "床前明月光 plain / text!");
    assert_eq!(s, "床前明月光 plain / text!");
}

#[test]
fn escaping_appends_after_existing_content() {
    let mut s = String::from("prefix:");
    push_escaped(&mut s, "\"x\"");
    assert_eq!(s, "prefix:\\\"x\\\"");
}

#[test]
fn connection_helpers() {
    assert_eq!(default_endpoint(), "wss://dashscope.aliyuncs.com/api-ws/v1/inference/");
    assert_eq!(default_sink_name(), "output.mp3");
    assert_eq!(
        request_uri(default_endpoint(), "k-123"),
        "wss://dashscope.aliyuncs.com/api-ws/v1/inference/?token=k-123"
    );
    assert_eq!(bearer_value("k-123"), "bearer k-123");
}
