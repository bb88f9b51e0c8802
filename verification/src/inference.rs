use base64::Engine;
use std::time::Duration;
use vstd::prelude::*;

use crate::error::{outcome, ChronosError, ErrorModel};
use crate::models::VlmConfig;
use crate::text::push_char;

verus! {

/// Declares `reqwest::Client` to Verus as an opaque type: the client is carried by
/// `OllamaVision` and nothing inside it is read.
#[verifier::external_type_specification]
#[verifier::external_body]
pub struct ExHttpClient(reqwest::Client);

/// The instruction sent to the vision model with every screenshot.
pub const SCREENSHOT_PROMPT: &'static str = "Analyze this screenshot. Provide a structured JSON response with the following fields: description (brief summary), active_application (name of the window in focus), activity_category (e.g., Development, Communication, Browsing), key_entities (list of relevant technologies, names, or topics), confidence_score (0.0 to 1.0).";

/// The total request timeout, in seconds, that a `reqwest` client was built with.
pub uninterp spec fn client_timeout_seconds(c: reqwest::Client) -> u64;

/// Builds the HTTP client with `reqwest::Client::builder().timeout(..).build()`.
///
/// Claims only that a client that is built has the given timeout (`ClientBuilder::timeout`
/// records it and `build` carries it into the client). Whether building succeeds is
/// not claimed: it can fail for reasons of the machine (such as the TLS back end).
#[verifier::external_body]
fn build_http_client(timeout_seconds: u64) -> (r: Result<reqwest::Client, String>)
    ensures
        r matches Ok(c) ==> client_timeout_seconds(c) == timeout_seconds,
{
    match reqwest::Client::builder().timeout(Duration::from_secs(timeout_seconds)).build() {
        Ok(client) => Ok(client),
        Err(e) => Err(e.to_string()),
    }
}

/// The client of the local Ollama vision-language model.
pub struct OllamaVision {
    client: reqwest::Client,
    config: VlmConfig,
}

impl OllamaVision {
    /// The settings the client was made with.
    pub closed spec fn settings(&self) -> VlmConfig {
        self.config
    }

    /// The HTTP client the requests are sent with.
    pub closed spec fn http(&self) -> reqwest::Client {
        self.client
    }

    /// Makes a client from its settings and the outcome of building its HTTP client.
    pub fn from_built_client(config: VlmConfig, built: Result<reqwest::Client, String>) -> (r: Result<Self, ChronosError>)
        ensures
            built matches Ok(c) ==> (r matches Ok(v) && v.settings() == config && v.http() == c),
            built matches Err(m) ==> outcome(r) == Err::<Self, ErrorModel>(
                ErrorModel::Config("Failed to build HTTP client: "@ + m@),
            ),
    {
        match built {
            Ok(client) => Ok(OllamaVision { client, config }),
            Err(m) => Err(
                ChronosError::Config(String::from_str("Failed to build HTTP client: ").concat(m.as_str())),
            ),
        }
    }

    /// Makes a client from its settings; the HTTP timeout is the configured one.
    ///
    /// A zero timeout is refused; otherwise the client is made unless its HTTP
    /// client cannot be built.
    pub fn new(config: VlmConfig) -> (r: Result<Self, ChronosError>)
        ensures
            config.timeout_seconds == 0 ==> outcome(r) == Err::<Self, ErrorModel>(
                ErrorModel::Config("VLM timeout_seconds must be greater than zero"@),
            ),
            r matches Ok(v) ==> v.settings() == config,
            r matches Ok(v) ==> client_timeout_seconds(v.http()) == config.timeout_seconds,
            config.timeout_seconds > 0 ==> (r matches Err(e) ==> exists|m: Seq<char>|
                e@ == ErrorModel::Config("Failed to build HTTP client: "@ + m)),
    {
        if config.timeout_seconds == 0 {
            return Err(
                ChronosError::Config(String::from_str("VLM timeout_seconds must be greater than zero")),
            );
        }
        let built = build_http_client(config.timeout_seconds);
        Self::from_built_client(config, built)
    }

    /// The settings the client was made with.
    pub fn config(&self) -> (c: &VlmConfig)
        ensures
            *c == self.settings(),
    {
        &self.config
    }

    /// The HTTP client, for the caller that performs the request.
    pub fn http_client(&self) -> (c: &reqwest::Client)
        ensures
            *c == self.http(),
    {
        &self.client
    }
}

/// `s` without the trailing run of `c`.
pub open spec fn trim_end(s: Seq<char>, c: char) -> Seq<char>
    decreases s.len(),
{
    if s.len() > 0 && s.last() == c {
        trim_end(s.drop_last(), c)
    } else {
        s
    }
}

/// The URL of Ollama's `/api/generate` endpoint on the host `host`.
pub fn generate_url(host: &str) -> (r: String)
    ensures
        r@ == trim_end(host@, '/') + "/api/generate"@,
{
    let mut n = host.unicode_len();
    proof {
        assert(host@.take(host@.len() as int) =~= host@);
    }
    while n > 0 && host.get_char(n - 1) == '/'
        invariant
            n <= host@.len(),
            trim_end(host@.take(n as int), '/') == trim_end(host@, '/'),
        decreases n,
    {
        assert(host@.take(n as int).drop_last() =~= host@.take(n - 1));
        n = n - 1;
    }
    let base = host.substring_char(0, n);
    String::from_str(base).concat("/api/generate")
}

/// A hexadecimal digit, in lower case (`0`-`9` are bytes 48-57, `a`-`f` bytes 97-102).
pub open spec fn hex_digit(d: nat) -> char {
    if d < 10 {
        ((48 + d) as u8) as char
    } else {
        ((87 + d) as u8) as char
    }
}

/// The JSON text of one character inside a string literal.
pub open spec fn json_escaped_char(c: char) -> Seq<char> {
    if c == '"' {
        seq!['\\', '"']
    } else if c == '\\' {
        seq!['\\', '\\']
    } else if c == '\u{8}' {
        seq!['\\', 'b']
    } else if c == '\t' {
        seq!['\\', 't']
    } else if c == '\n' {
        seq!['\\', 'n']
    } else if c == '\u{c}' {
        seq!['\\', 'f']
    } else if c == '\r' {
        seq!['\\', 'r']
    } else if (c as nat) < 0x20 {
        seq!['\\', 'u', '0', '0', hex_digit((c as nat) / 16), hex_digit((c as nat) % 16)]
    } else {
        seq![c]
    }
}

/// The JSON text of the characters of `s`, escaped for a string literal.
pub open spec fn json_escaped(s: Seq<char>) -> Seq<char>
    decreases s.len(),
{
    if s.len() == 0 {
        Seq::empty()
    } else {
        json_escaped(s.drop_last()) + json_escaped_char(s.last())
    }
}

/// The JSON string literal of `s`, as `serde_json` writes it.
pub open spec fn json_string_literal(s: Seq<char>) -> Seq<char> {
    seq!['"'] + json_escaped(s) + seq!['"']
}

fn push_hex_digit(out: &mut String, d: u32)
    requires
        d < 16,
    ensures
        final(out)@ == old(out)@.push(hex_digit(d as nat)),
{
    let b: u8 = if d < 10 {
        48 + d as u8
    } else {
        87 + d as u8
    };
    let c = b as char;
    push_char(out, c);
}

/// Writes `s` as a JSON string literal.
pub fn json_string(s: &str) -> (r: String)
    ensures
        r@ == json_string_literal(s@),
{
    let n = s.unicode_len();
    let mut out = String::new();
    push_char(&mut out, '"');
    let mut i: usize = 0;
    while i < n
        invariant
            n == s@.len(),
            i <= n,
            out@ == seq!['"'] + json_escaped(s@.take(i as int)),
        decreases n - i,
    {
        let c = s.get_char(i);
        let ghost before = out@;
        if c == '"' {
            push_char(&mut out, '\\');
            push_char(&mut out, '"');
        } else if c == '\\' {
            push_char(&mut out, '\\');
            push_char(&mut out, '\\');
        } else if c == '\u{8}' {
            push_char(&mut out, '\\');
            push_char(&mut out, 'b');
        } else if c == '\t' {
            push_char(&mut out, '\\');
            push_char(&mut out, 't');
        } else if c == '\n' {
            push_char(&mut out, '\\');
            push_char(&mut out, 'n');
        } else if c == '\u{c}' {
            push_char(&mut out, '\\');
            push_char(&mut out, 'f');
        } else if c == '\r' {
            push_char(&mut out, '\\');
            push_char(&mut out, 'r');
        } else if (c as u32) < 0x20 {
            push_char(&mut out, '\\');
            push_char(&mut out, 'u');
            push_char(&mut out, '0');
            push_char(&mut out, '0');
            push_hex_digit(&mut out, (c as u32) / 16);
            push_hex_digit(&mut out, (c as u32) % 16);
        } else {
            push_char(&mut out, c);
        }
        assert(out@ =~= before + json_escaped_char(c));
        assert(s@.take(i + 1).drop_last() =~= s@.take(i as int));
        i = i + 1;
    }
    push_char(&mut out, '"');
    assert(s@.take(n as int) =~= s@);
    out
}

/// The character of the 6-bit value `v` in the standard base64 alphabet (RFC 4648).
pub open spec fn base64_char(v: nat) -> char {
    if v < 26 {
        ((65 + v) as u8) as char
    } else if v < 52 {
        ((71 + v) as u8) as char
    } else if v < 62 {
        ((v - 4) as u8) as char
    } else if v == 62 {
        '+'
    } else {
        '/'
    }
}

/// The standard base64 encoding (RFC 4648, with `=` padding) of `b`.
pub open spec fn base64_standard(b: Seq<u8>) -> Seq<char>
    decreases b.len(),
{
    if b.len() == 0 {
        Seq::empty()
    } else if b.len() == 1 {
        seq![base64_char(b[0] as nat / 4), base64_char((b[0] as nat % 4) * 16), '=', '=']
    } else if b.len() == 2 {
        seq![
            base64_char(b[0] as nat / 4),
            base64_char((b[0] as nat % 4) * 16 + b[1] as nat / 16),
            base64_char((b[1] as nat % 16) * 4),
            '=',
        ]
    } else {
        seq![
            base64_char(b[0] as nat / 4),
            base64_char((b[0] as nat % 4) * 16 + b[1] as nat / 16),
            base64_char((b[1] as nat % 16) * 4 + b[2] as nat / 64),
            base64_char(b[2] as nat % 64),
        ] + base64_standard(b.skip(3))
    }
}

/// Encodes bytes with `base64::engine::general_purpose::STANDARD`.
///
/// Claims that the text is the RFC 4648 standard base64 encoding, with padding,
/// which is what that engine is documented to produce.
#[verifier::external_body]
pub(crate) fn encode_base64(bytes: &[u8]) -> (r: String)
    ensures
        r@ == base64_standard(bytes@),
{
    base64::engine::general_purpose::STANDARD.encode(bytes)
}

/// The JSON body of a generation request: the model, the prompt, the base64 image,
/// no streaming and a JSON answer, with the keys in the order `serde_json` writes them.
pub open spec fn generate_request_body(model: Seq<char>, prompt: Seq<char>, image_base64: Seq<char>) -> Seq<char> {
    "{\"format\":\"json\",\"images\":["@ + json_string_literal(image_base64) + "],\"model\":"@
        + json_string_literal(model) + ",\"prompt\":"@ + json_string_literal(prompt)
        + ",\"stream\":false}"@
}

/// Writes the JSON body of a generation request.
pub fn request_body(model: &str, prompt: &str, image_base64: &str) -> (r: String)
    ensures
        r@ == generate_request_body(model@, prompt@, image_base64@),
{
    let r = String::from_str("{\"format\":\"json\",\"images\":[").concat(
        json_string(image_base64).as_str(),
    ).concat("],\"model\":").concat(json_string(model).as_str()).concat(",\"prompt\":").concat(
        json_string(prompt).as_str(),
    ).concat(",\"stream\":false}");
    assert(r@ =~= generate_request_body(model@, prompt@, image_base64@));
    r
}

/// The body of the request that asks the configured model to analyse the image
/// `image_data` with the screenshot prompt.
pub fn analysis_request_body(config: &VlmConfig, image_data: &[u8]) -> (r: String)
    ensures
        r@ == generate_request_body(
            config.model_name@,
            SCREENSHOT_PROMPT@,
            base64_standard(image_data@),
        ),
{
    let image = encode_base64(image_data);
    request_body(config.model_name.as_str(), SCREENSHOT_PROMPT, image.as_str())
}

/// What the model says about a screenshot, apart from its confidence score.
#[derive(Debug, Clone, PartialEq, Eq)]
pub struct VlmAnswer {
    /// Concise summary of what is happening on screen.
    pub description: String,
    /// Name of the focused window or application.
    pub active_application: Option<String>,
    /// Activity classification.
    pub activity_category: Option<String>,
    /// Technologies, names or topics identified.
    pub key_entities: Vec<String>,
}

/// Reads the model's answer `raw`, given `parsed`, the fields of `raw` when it is the
/// JSON object the prompt asks for: those fields; otherwise the model answered in
/// plain text, which becomes the description, with nothing else known.
pub fn answer_from_response(raw: &str, parsed: Option<VlmAnswer>) -> (r: VlmAnswer)
    ensures
        parsed matches Some(a) ==> r == a,
        parsed is None ==> {
            &&& r.description@ == raw@
            &&& r.active_application is None
            &&& r.activity_category is None
            &&& r.key_entities@.len() == 0
        },
{
    match parsed {
        Some(a) => a,
        None => VlmAnswer {
            description: String::from_str(raw),
            active_application: None,
            activity_category: None,
            key_entities: Vec::new(),
        },
    }
}

/// The error for a request to Ollama that could not be completed: a timeout when
/// the request timed out, an inference error otherwise.
pub fn request_error(timed_out: bool, detail: String) -> (e: ChronosError)
    ensures
        timed_out ==> e@ == ErrorModel::Timeout(detail@),
        !timed_out ==> e@ == ErrorModel::Inference(detail@),
{
    if timed_out {
        ChronosError::Timeout(detail)
    } else {
        ChronosError::Inference(detail)
    }
}

/// Checks the HTTP status of Ollama's answer: any status outside 200-299 is an
/// inference error naming the status (`status_text` is its display, such as
/// `500 Internal Server Error`).
pub fn check_status(code: u16, status_text: &str) -> (r: Result<(), ChronosError>)
    ensures
        200 <= code <= 299 ==> r is Ok,
        !(200 <= code <= 299) ==> outcome(r) == Err::<(), ErrorModel>(
            ErrorModel::Inference("Ollama returned error status: "@ + status_text@),
        ),
{
    if 200 <= code && code <= 299 {
        Ok(())
    } else {
        Err(
            ChronosError::Inference(
                String::from_str("Ollama returned error status: ").concat(status_text),
            ),
        )
    }
}

/// The error for an answer whose JSON could not be read: a timeout when reading
/// timed out, an inference error otherwise.
pub fn response_decode_error(timed_out: bool, detail: String) -> (e: ChronosError)
    ensures
        timed_out ==> e@ == ErrorModel::Timeout(detail@),
        !timed_out ==> e@ == ErrorModel::Inference(
            "Failed to parse Ollama response JSON: "@ + detail@,
        ),
{
    if timed_out {
        ChronosError::Timeout(detail)
    } else {
        ChronosError::Inference(
            String::from_str("Failed to parse Ollama response JSON: ").concat(detail.as_str()),
        )
    }
}

} // verus!
