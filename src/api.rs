use vstd::prelude::*;

verus! {

/// Whether an HTTP status code is a success (2xx).
pub fn is_success_status(code: u16) -> (r: bool)
    ensures
        r == (200 <= code && code < 300),
{
    200 <= code && code < 300
}

/// The message of a call answered with a status that is no success.
pub open spec fn error_message(status_line: Seq<char>, body: Seq<char>) -> Seq<char> {
    "API returned error "@ + status_line + ": "@ + body
}

/// Builds the message of a call answered with a status that is no success, from the
/// status line and the body text.
pub fn api_error_message(status_line: &str, body: &str) -> (r: String)
    ensures
        r@ == error_message(status_line@, body@),
{
    let mut m = "API returned error ".to_owned();
    m.append(status_line);
    m.append(": ");
    m.append(body);
    m
}

/// Base of the provider's first-version endpoints.
pub const BASE_URL: &'static str = "https://api.elevenlabs.io/v1";

/// Base of the provider's second-version endpoints.
pub const BASE_URL_V2: &'static str = "https://api.elevenlabs.io/v2";

/// The header that carries the API key.
pub const API_KEY_HEADER: &'static str = "xi-api-key";

/// The endpoint that lists voices.
pub fn voices_url() -> (r: String)
    ensures
        r@ == BASE_URL_V2@ + "/voices"@,
{
    let mut u = BASE_URL_V2.to_owned();
    u.append("/voices");
    u
}

/// The endpoint that lists models.
pub fn models_url() -> (r: String)
    ensures
        r@ == BASE_URL@ + "/models"@,
{
    let mut u = BASE_URL.to_owned();
    u.append("/models");
    u
}

/// The endpoint that describes the account.
pub fn user_url() -> (r: String)
    ensures
        r@ == BASE_URL@ + "/user"@,
{
    let mut u = BASE_URL.to_owned();
    u.append("/user");
    u
}

/// The endpoint that streams speech in voice `voice_id`, as 44.1 kHz, 128 kbps MP3.
pub fn stream_url(voice_id: &str) -> (r: String)
    ensures
        r@ == BASE_URL@ + "/text-to-speech/"@ + voice_id@ + "/stream?output_format=mp3_44100_128"@,
{
    let mut u = BASE_URL.to_owned();
    u.append("/text-to-speech/");
    u.append(voice_id);
    u.append("/stream?output_format=mp3_44100_128");
    u
}

/// The query of the voice list: voices that are not the provider's defaults, a hundred
/// to the page (only the first page is read).
pub fn voices_query() -> (r: Vec<(String, String)>)
    ensures
        r@.len() == 2,
        r@[0].0@ == "voice_type"@,
        r@[0].1@ == "non-default"@,
        r@[1].0@ == "page_size"@,
        r@[1].1@ == "100"@,
{
    let mut q: Vec<(String, String)> = Vec::new();
    q.push(("voice_type".to_owned(), "non-default".to_owned()));
    q.push(("page_size".to_owned(), "100".to_owned()));
    q
}

/// Whether `s` ends with a slash.
pub open spec fn ends_with_slash(s: Seq<char>) -> bool {
    s.len() > 0 && s.last() == '/'
}

/// Relies on str::ends_with with a char pattern: true exactly when the last character
/// of `s` is that char.
#[verifier::external_body]
fn str_ends_with_slash(s: &str) -> (r: bool)
    ensures
        r == ends_with_slash(s@),
{
    s.ends_with('/')
}

/// The path of file `file_name` in directory `directory`, with one slash between them
/// unless the directory already ends with one.
pub fn dump_path(directory: &str, file_name: &str) -> (r: String)
    ensures
        ends_with_slash(directory@) ==> r@ == directory@ + file_name@,
        !ends_with_slash(directory@) ==> r@ == directory@ + "/"@ + file_name@,
{
    let mut p = directory.to_owned();
    if !str_ends_with_slash(directory) {
        p.append("/");
    }
    p.append(file_name);
    p
}

/// A greeting for `name`.
pub fn greet(name: &str) -> (r: String)
    ensures
        r@ == "Hello, "@ + name@ + "! You've been greeted from Rust!"@,
{
    let mut g = "Hello, ".to_owned();
    g.append(name);
    g.append("! You've been greeted from Rust!");
    g
}

} // verus!
