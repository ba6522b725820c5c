//! Configuration surface of a synthesis session: the fixed parameters that go
//! into the start command, and the connection constants.

use vstd::prelude::*;

verus! {

/// Parameters of one synthesis task, carried in the start command.
///
/// These are configuration values, not control flow: a caller may override
/// any of them, and `Default` gives the documented defaults.
pub struct SynthesisConfig {
    /// Model selection.
    pub model: String,
    /// Voice selection.
    pub voice: String,
    /// Output audio container format.
    pub format: String,
    /// How the fed input units are to be read.
    pub text_type: String,
    /// Output sample rate in Hz.
    pub sample_rate: u32,
    /// Output volume.
    pub volume: u32,
    /// Speech rate multiplier.
    pub rate: u32,
    /// Pitch multiplier.
    pub pitch: u32,
}

impl Default for SynthesisConfig {
    /// The documented default configuration.
    fn default() -> (c: Self)
        ensures
            c.model@ == "cosyvoice-v1"@,
            c.voice@ == "longxiaochun"@,
            c.format@ == "mp3"@,
            c.text_type@ == "PlainText"@,
            c.sample_rate == 22050u32,
            c.volume == 50u32,
            c.rate == 1u32,
            c.pitch == 1u32,
    {
        SynthesisConfig {
            model: String::from_str("cosyvoice-v1"),
            voice: String::from_str("longxiaochun"),
            format: String::from_str("mp3"),
            text_type: String::from_str("PlainText"),
            sample_rate: 22050,
            volume: 50,
            rate: 1,
            pitch: 1,
        }
    }
}

/// How long the sender sleeps between polls of the readiness flag, in
/// milliseconds.
pub const READINESS_POLL_INTERVAL_MS: u64 = 100;

/// The default service endpoint.
pub fn default_endpoint() -> (r: &'static str)
    ensures
        r@ == "wss://dashscope.aliyuncs.com/api-ws/v1/inference/"@,
{
    "wss://dashscope.aliyuncs.com/api-ws/v1/inference/"
}

/// The default name of the durable sink that binary fragments are appended to.
pub fn default_sink_name() -> (r: &'static str)
    ensures
        r@ == "output.mp3"@,
{
    "output.mp3"
}

/// The request target for channel acquisition: the endpoint with the
/// credential attached as a query token.
pub fn request_uri(endpoint: &str, credential: &str) -> (r: String)
    ensures
        r@ == endpoint@ + "?token="@ + credential@,
{
    let mut u = String::from_str(endpoint);
    u.append("?token=");
    u.append(credential);
    u
}

/// The authorization header value for channel acquisition.
pub fn bearer_value(credential: &str) -> (r: String)
    ensures
        r@ == "bearer "@ + credential@,
{
    let mut v = String::from_str("bearer ");
    v.append(credential);
    v
}

} // verus!
