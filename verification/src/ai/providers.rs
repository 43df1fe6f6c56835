//! What the AI providers share: reading their answers, the retry policy of
//! their HTTP calls, Gemini request shapes, and the routing of tasks to providers.
use vstd::prelude::*;
use crate::ai::ChatMessage;
use crate::config::Config;
use crate::error::AiError;
use crate::json::{
    as_str, entry, entry_views, field, first, json_array, json_object, json_str, json_string,
    json_u64, json_view, json_views, view_field, view_first, view_str, JsonValue, JsonView,
};
use crate::text::{
    chars_of, find_from, has_prefix, occurs_at, push_str, slice_of, starts_with, string_of,
};

verus! {

/// The MIME type and payload of a data URI; anything else counts as JPEG data.
pub open spec fn data_uri_parts(uri: Seq<char>) -> (Seq<char>, Seq<char>) {
    if starts_with(uri, "data:"@) {
        let rest = uri.skip("data:"@.len() as int);
        if exists|i: int| 0 <= i < rest.len() && rest[i] == ',' {
            let c = choose|i: int| 0 <= i < rest.len() && rest[i] == ',' && forall|j: int| 0 <= j < i ==> rest[j] != ',';
            let header = rest.take(c);
            let mime = if exists|j: int| 0 <= j < header.len() && header[j] == ';' {
                header.take(choose|j: int| 0 <= j < header.len() && header[j] == ';' && forall|k: int| 0 <= k < j ==> header[k] != ';')
            } else {
                header
            };
            (mime, rest.skip(c + 1))
        } else {
            ("image/jpeg"@, uri)
        }
    } else {
        ("image/jpeg"@, uri)
    }
}

/// A data URI of a MIME type (without `;` or `,`) and any payload reads
/// back as that type and that payload.
pub proof fn lemma_data_uri_round_trip(mime: Seq<char>, data: Seq<char>)
    requires
        forall|i: int| 0 <= i < mime.len() ==> mime[i] != ';' && mime[i] != ',',
    ensures
        data_uri_parts("data:"@ + mime + ";base64,"@ + data) == (mime, data),
{
    reveal_strlit("data:");
    reveal_strlit(";base64,");
    reveal_strlit(";base64");
    let uri = "data:"@ + mime + ";base64,"@ + data;
    assert(uri.subrange(0, 5) =~= "data:"@);
    let rest = uri.skip(5);
    assert(rest =~= mime + ";base64,"@ + data);
    let c0: int = mime.len() as int + 7;
    assert(rest[c0] == ',');
    assert forall|j: int| 0 <= j < c0 implies rest[j] != ',' by {
        if j < mime.len() {
            assert(rest[j] == mime[j]);
        }
    }
    let c = choose|i: int| 0 <= i < rest.len() && rest[i] == ',' && forall|j: int| 0 <= j < i ==> rest[j] != ',';
    assert(0 <= c < rest.len() && rest[c] == ',' && forall|j: int| 0 <= j < c ==> rest[j] != ',');
    if c < c0 {
        assert(rest[c] != ',');
    }
    if c > c0 {
        assert(rest[c0] != ',');
    }
    assert(c == c0);
    let header = rest.take(c);
    assert(header =~= mime + ";base64"@);
    let s0 = mime.len() as int;
    assert(header[s0] == ';');
    assert forall|k: int| 0 <= k < s0 implies header[k] != ';' by {
        assert(header[k] == mime[k]);
    }
    let s = choose|j: int| 0 <= j < header.len() && header[j] == ';' && forall|k: int| 0 <= k < j ==> header[k] != ';';
    assert(0 <= s < header.len() && header[s] == ';' && forall|k: int| 0 <= k < s ==> header[k] != ';');
    if s < s0 {
        assert(header[s] != ';');
    }
    if s > s0 {
        assert(header[s0] != ';');
    }
    assert(header.take(s) =~= mime);
    assert(rest.skip(c + 1) =~= data);
}

/// The data URI of an encoded photo reads back as JPEG with the base64
/// payload the encoder produced: by the contracts of `encode_base64` and
/// `parse_data_uri`, parsing what the encoder builds gives `image/jpeg` and
/// the standard base64 text of the bytes.
pub proof fn lemma_encoded_photo_round_trip(bytes: Seq<u8>)
    ensures
        data_uri_parts(
            crate::image::process::jpeg_data_uri_prefix() + crate::image::process::base64_standard(bytes),
        ) == ("image/jpeg"@, crate::image::process::base64_standard(bytes)),
{
    reveal_strlit("image/jpeg");
    reveal_strlit("data:image/jpeg;base64,");
    reveal_strlit("data:");
    reveal_strlit(";base64,");
    let b = crate::image::process::base64_standard(bytes);
    assert(crate::image::process::jpeg_data_uri_prefix() + b =~= "data:"@ + "image/jpeg"@ + ";base64,"@ + b);
    lemma_data_uri_round_trip("image/jpeg"@, b);
}

/// Bare base64 text (no `data:` header) reads as JPEG data, whole: no
/// base64 text starts with `data:`, as `:` is not a base64 character.
pub proof fn lemma_bare_base64_is_jpeg(bytes: Seq<u8>)
    ensures
        data_uri_parts(crate::image::process::base64_standard(bytes)) == (
            "image/jpeg"@,
            crate::image::process::base64_standard(bytes),
        ),
{
    let b = crate::image::process::base64_standard(bytes);
    crate::image::process::lemma_base64_shape(bytes);
    reveal_strlit("data:");
    if starts_with(b, "data:"@) {
        assert(b.subrange(0, 5)[4] == ':');
        assert(crate::image::process::is_base64_char(b[4]));
    }
}

/// Index of the first `c` in `v` at or after `from`, or the length.
fn index_of_char(v: &Vec<char>, c: char, from: usize) -> (r: usize)
    requires
        from <= v.len(),
    ensures
        from <= r <= v.len(),
        r < v.len() ==> v@[r as int] == c,
        forall|j: int| from <= j < r ==> v@[j] != c,
{
    let mut i = from;
    while i < v.len() && v[i] != c
        invariant
            from <= i <= v.len(),
            forall|j: int| from <= j < i ==> v@[j] != c,
        decreases v.len() - i,
    {
        i = i + 1;
    }
    i
}

/// Helper to parse data URI into MIME type and base64 data
pub fn parse_data_uri(data_uri: &str) -> (r: (String, String))
    ensures
        (r.0@, r.1@) == data_uri_parts(data_uri@),
{
    let v = chars_of(data_uri);
    let prefix = chars_of("data:");
    if has_prefix(&v, &prefix) {
        let p = prefix.len();
        let rest = slice_of(&v, p, v.len());
        let ghost rs = data_uri@.skip("data:"@.len() as int);
        assert(rest@ =~= rs);
        let c = index_of_char(&rest, ',', 0);
        if c < rest.len() {
            let header = slice_of(&rest, 0, c);
            let s = index_of_char(&header, ';', 0);
            let mime = slice_of(&header, 0, s);
            let data = slice_of(&rest, c + 1, rest.len());
            proof {
                let cc = choose|i: int| 0 <= i < rs.len() && rs[i] == ',' && forall|j: int| 0 <= j < i ==> rs[j] != ',';
                assert(rs[c as int] == ',');
                if cc < c {
                    assert(rs[cc] != ',');
                }
                if cc > c {
                    assert(rs[c as int] != ',');
                }
                assert(cc == c);
                assert(header@ =~= rs.take(c as int));
                assert(data@ =~= rs.skip(c + 1));
                if s < header.len() {
                    let hs = header@;
                    let ss = choose|j: int| 0 <= j < hs.len() && hs[j] == ';' && forall|k: int| 0 <= k < j ==> hs[k] != ';';
                    assert(hs[s as int] == ';');
                    if ss < s {
                        assert(hs[ss] != ';');
                    }
                    if ss > s {
                        assert(hs[s as int] != ';');
                    }
                    assert(mime@ =~= hs.take(s as int));
                } else {
                    assert(mime@ =~= header@);
                }
            }
            return (string_of(&mime), string_of(&data));
        }
    }
    ("image/jpeg".to_owned(), data_uri.to_owned())
}

/// What an OpenRouter chat answer gives: the content of the first choice,
/// or why there is none (no choice, output cut at the token limit, no content).
pub open spec fn openrouter_content(response: JsonView) -> Result<Seq<char>, Seq<char>> {
    match view_first(view_field(response, "choices"@)) {
        None => Err("No choices in response"@),
        Some(choice) => {
            let content = view_str(view_field(view_field(choice, "message"@), "content"@));
            if view_str(view_field(choice, "finish_reason"@)) == Some("length"@) {
                Err("Response was truncated (finish_reason=length). Increase max_tokens. Partial output: "@
                    + match content {
                    Some(c) => c,
                    None => Seq::empty(),
                })
            } else {
                match content {
                    Some(c) => Ok(c),
                    None => Err("No content in response"@),
                }
            }
        },
    }
}

/// The message of a content-or-error outcome as an AI result.
pub open spec fn parse_result_matches(r: Result<String, AiError>, e: Result<Seq<char>, Seq<char>>) -> bool {
    match e {
        Ok(c) => r matches Ok(s) && s@ == c,
        Err(m) => r matches Err(AiError::ParseError(x)) && x@ == m,
    }
}

/// Extract the content string from an OpenRouter chat completion response
pub fn openrouter_extract_content(response: &JsonValue) -> (r: Result<String, AiError>)
    ensures
        parse_result_matches(r, openrouter_content(json_view(*response))),
{
    let choices = field(response, "choices");
    let choice = match choices {
        Some(c) => first(c),
        None => None,
    };
    let choice = match choice {
        Some(c) => c,
        None => return Err(AiError::ParseError("No choices in response".to_owned())),
    };
    let content = match field(choice, "message") {
        Some(m) => match field(m, "content") {
            Some(c) => as_str(c),
            None => None,
        },
        None => None,
    };
    let finish = match field(choice, "finish_reason") {
        Some(f) => as_str(f),
        None => None,
    };
    if let Some(f) = finish {
        if crate::url::detect::same_chars(&chars_of(f.as_str()), &chars_of("length")) {
            let mut m = chars_of(
                "Response was truncated (finish_reason=length). Increase max_tokens. Partial output: ",
            );
            if let Some(c) = &content {
                push_str(&mut m, c.as_str());
            }
            return Err(AiError::ParseError(string_of(&m)));
        }
    }
    match content {
        Some(c) => Ok(c),
        None => Err(AiError::ParseError("No content in response".to_owned())),
    }
}

/// What a Gemini answer gives: `candidates[0].content.parts[0].text`.
pub open spec fn gemini_content(response: JsonView) -> Option<Seq<char>> {
    match view_first(view_field(response, "candidates"@)) {
        None => None,
        Some(c) => match view_first(view_field(view_field(c, "content"@), "parts"@)) {
            None => None,
            Some(p) => view_str(view_field(p, "text"@)),
        },
    }
}

/// Extract generated text from a Gemini generateContent response; the
/// error carries the given rendering of the response.
pub fn gemini_extract_content(response: &JsonValue, rendered: &str) -> (r: Result<String, AiError>)
    ensures
        match gemini_content(json_view(*response)) {
            Some(c) => r matches Ok(s) && s@ == c,
            None => r matches Err(AiError::ParseError(m)) && m@
                == "No content found in Gemini response candidate parts. Raw response: "@ + rendered@,
        },
{
    let text = match field(response, "candidates") {
        Some(cs) => match first(cs) {
            Some(c) => match field(c, "content") {
                Some(ct) => match field(ct, "parts") {
                    Some(ps) => match first(ps) {
                        Some(p) => match field(p, "text") {
                            Some(t) => as_str(t),
                            None => None,
                        },
                        None => None,
                    },
                    None => None,
                },
                None => None,
            },
            None => None,
        },
        None => None,
    };
    match text {
        Some(t) => Ok(t),
        None => {
            let mut m = chars_of("No content found in Gemini response candidate parts. Raw response: ");
            push_str(&mut m, rendered);
            Err(AiError::ParseError(string_of(&m)))
        },
    }
}

/// The Gemini model name: without a leading `google/`.
pub open spec fn gemini_model_name(model: Seq<char>) -> Seq<char> {
    if starts_with(model, "google/"@) {
        model.skip("google/"@.len() as int)
    } else {
        model
    }
}

/// The Gemini `generateContent` endpoint for a model.
pub open spec fn gemini_endpoint(model: Seq<char>) -> Seq<char> {
    "https://generativelanguage.googleapis.com/v1beta/models/"@ + gemini_model_name(model)
        + ":generateContent"@
}

/// The Gemini `generateContent` endpoint for a model.
pub fn gemini_generate_url(model: &str) -> (r: String)
    ensures
        r@ == gemini_endpoint(model@),
{
    let v = chars_of(model);
    let p = chars_of("google/");
    let name = if has_prefix(&v, &p) {
        let n = slice_of(&v, p.len(), v.len());
        assert(n@ =~= model@.skip("google/"@.len() as int));
        n
    } else {
        v
    };
    let mut out = chars_of("https://generativelanguage.googleapis.com/v1beta/models/");
    crate::text::push_all(&mut out, &name);
    push_str(&mut out, ":generateContent");
    string_of(&out)
}

/// How one HTTP attempt of a provider call ended.
#[derive(Debug, Clone)]
pub enum HttpOutcome {
    /// 200 OK.
    Success,
    /// 429, with the `retry-after` header as sent, if any.
    TooManyRequests { retry_after: Option<String> },
    /// A 5xx status with the response text.
    ServerError { status: u16, body: String },
    /// Any other status with the response text.
    OtherStatus { status: u16, body: String },
}

/// What to do after an attempt.
#[derive(Debug, Clone, PartialEq, Eq)]
pub enum RetryStep {
    /// Read the answer.
    Done,
    /// Sleep this many seconds, then try again with the given backoff.
    Wait { secs: u64, next_backoff: u64 },
    /// Give up with this error.
    Fail(AiError),
}

/// The retry policy: on 429 wait the advertised delay (else the backoff),
/// on a server error wait the backoff, doubling it each time, while
/// attempts remain; otherwise fail with the status and text.
pub open spec fn retry_policy(
    attempt: u32,
    max_retries: u32,
    backoff: u64,
    outcome: HttpOutcome,
) -> RetryStep {
    match outcome {
        HttpOutcome::Success => RetryStep::Done,
        HttpOutcome::TooManyRequests { retry_after } => if attempt < max_retries {
            RetryStep::Wait {
                secs: match retry_after {
                    Some(h) => match crate::text::parsed_unsigned(h@, u64::MAX as nat) {
                        Some(n) => n as u64,
                        None => backoff,
                    },
                    None => backoff,
                },
                next_backoff: (backoff * 2) as u64,
            }
        } else {
            RetryStep::Fail(AiError::RateLimited { retry_after_secs: backoff })
        },
        HttpOutcome::ServerError { status, body } => if attempt < max_retries {
            RetryStep::Wait { secs: backoff, next_backoff: (backoff * 2) as u64 }
        } else {
            RetryStep::Fail(AiError::ProviderError { status, message: body })
        },
        HttpOutcome::OtherStatus { status, body } => RetryStep::Fail(
            AiError::ProviderError { status, message: body },
        ),
    }
}

/// Retries are bounded: once `max_retries` attempts are used up, no
/// outcome leads to another attempt; and a success never does.
pub proof fn lemma_retries_bounded(attempt: u32, max_retries: u32, backoff: u64, outcome: HttpOutcome)
    ensures
        attempt >= max_retries ==> !(retry_policy(attempt, max_retries, backoff, outcome) is Wait),
        outcome is Success ==> retry_policy(attempt, max_retries, backoff, outcome) == RetryStep::Done,
{
}

/// The step after an attempt, by the retry policy.
pub fn retry_step(attempt: u32, max_retries: u32, backoff: u64, outcome: HttpOutcome) -> (r: RetryStep)
    requires
        backoff <= u64::MAX / 2,
    ensures
        r == retry_policy(attempt, max_retries, backoff, outcome),
{
    match outcome {
        HttpOutcome::Success => RetryStep::Done,
        HttpOutcome::TooManyRequests { retry_after } => {
            if attempt < max_retries {
                let secs = match &retry_after {
                    Some(h) => match crate::text::parse_unsigned(h.as_str(), u64::MAX) {
                        Some(n) => n,
                        None => backoff,
                    },
                    None => backoff,
                };
                RetryStep::Wait { secs, next_backoff: backoff * 2 }
            } else {
                RetryStep::Fail(AiError::RateLimited { retry_after_secs: backoff })
            }
        },
        HttpOutcome::ServerError { status, body } => {
            if attempt < max_retries {
                RetryStep::Wait { secs: backoff, next_backoff: backoff * 2 }
            } else {
                RetryStep::Fail(AiError::ProviderError { status, message: body })
            }
        },
        HttpOutcome::OtherStatus { status, body } => RetryStep::Fail(
            AiError::ProviderError { status, message: body },
        ),
    }
}

/// A `{"parts": [{"text": t}]}` Gemini content block, with a role when given.
pub open spec fn gemini_parts(role: Option<Seq<char>>, text: Seq<char>) -> JsonView {
    let parts = ("parts"@, JsonView::Array(seq![JsonView::Object(seq![("text"@, JsonView::Str(text))])]));
    match role {
        Some(r) => JsonView::Object(seq![("role"@, JsonView::Str(r)), parts]),
        None => JsonView::Object(seq![parts]),
    }
}

fn gemini_parts_json(role: Option<&str>, text: String) -> (r: JsonValue)
    ensures
        json_view(r) == gemini_parts(crate::text::opt_str_view(role), text@),
{
    let ghost t = text@;
    let mut part: Vec<(String, JsonValue)> = Vec::new();
    part.push(entry("text", json_string(text)));
    let p = json_object(part);
    assert(entry_views(part@) =~= seq![("text"@, JsonView::Str(t))]);
    let mut ps: Vec<JsonValue> = Vec::new();
    ps.push(p);
    let parts = json_array(ps);
    assert(json_views(ps@) =~= seq![JsonView::Object(seq![("text"@, JsonView::Str(t))])]);
    let mut es: Vec<(String, JsonValue)> = Vec::new();
    if let Some(r) = role {
        es.push(entry("role", json_str(r)));
    }
    es.push(entry("parts", parts));
    let r = json_object(es);
    let ghost pv = ("parts"@, JsonView::Array(seq![JsonView::Object(seq![("text"@, JsonView::Str(t))])]));
    match role {
        Some(rl) => {
            assert(entry_views(es@) =~= seq![("role"@, JsonView::Str(rl@)), pv]);
        },
        None => {
            assert(entry_views(es@) =~= seq![pv]);
        },
    }
    r
}

/// The Gemini role of a chat role: `model` for the assistant, else `user`.
pub open spec fn gemini_role(role: Seq<char>) -> Seq<char> {
    if role == "assistant"@ {
        "model"@
    } else {
        "user"@
    }
}

/// The Gemini contents of a conversation's non-system messages, in order.
pub open spec fn gemini_contents(ms: Seq<ChatMessage>) -> Seq<JsonView>
    decreases ms.len(),
{
    if ms.len() == 0 {
        Seq::empty()
    } else {
        let rest = gemini_contents(ms.drop_last());
        if ms.last().role@ == "system"@ {
            rest
        } else {
            rest.push(gemini_parts(Some(gemini_role(ms.last().role@)), ms.last().content@))
        }
    }
}

/// The content of the last system message of a conversation, if any.
pub open spec fn last_system(ms: Seq<ChatMessage>) -> Option<Seq<char>>
    decreases ms.len(),
{
    if ms.len() == 0 {
        None
    } else if ms.last().role@ == "system"@ {
        Some(ms.last().content@)
    } else {
        last_system(ms.drop_last())
    }
}

/// The Gemini request for a conversation: the contents, the last system
/// message as the system instruction, and the output token limit.
pub open spec fn gemini_chat_view(ms: Seq<ChatMessage>, max_tokens: Option<u32>) -> JsonView {
    let contents = seq![("contents"@, JsonView::Array(gemini_contents(ms)))];
    let with_sys = match last_system(ms) {
        Some(s) => contents.push(("system_instruction"@, gemini_parts(None, s))),
        None => contents,
    };
    let with_cfg = match max_tokens {
        Some(t) => with_sys.push(("generationConfig"@, JsonView::Object(seq![("maxOutputTokens"@, JsonView::Number(crate::text::decimal(t as nat)))]))),
        None => with_sys,
    };
    JsonView::Object(with_cfg)
}

/// The Gemini request for a conversation.
pub fn gemini_chat_body(messages: &Vec<ChatMessage>, max_tokens: Option<u32>) -> (r: JsonValue)
    ensures
        json_view(r) == gemini_chat_view(messages@, max_tokens),
{
    let mut contents: Vec<JsonValue> = Vec::new();
    let mut system: Option<String> = None;
    let mut i: usize = 0;
    let system_role = chars_of("system");
    let assistant_role = chars_of("assistant");
    while i < messages.len()
        invariant
            i <= messages.len(),
            system_role@ == "system"@,
            assistant_role@ == "assistant"@,
            json_views(contents@) == gemini_contents(messages@.take(i as int)),
            crate::text::opt_string_view(system) == last_system(messages@.take(i as int)),
        decreases messages.len() - i,
    {
        let m = &messages[i];
        assert(messages@.take(i + 1).drop_last() =~= messages@.take(i as int));
        assert(messages@.take(i + 1).last() == messages@[i as int]);
        let role = chars_of(m.role.as_str());
        if crate::url::detect::same_chars(&role, &system_role) {
            system = Some(m.content.clone());
        } else {
            let r = if crate::url::detect::same_chars(&role, &assistant_role) {
                "model"
            } else {
                "user"
            };
            let c = gemini_parts_json(Some(r), m.content.clone());
            let ghost before = json_views(contents@);
            contents.push(c);
            assert(json_views(contents@) =~= before.push(json_view(c)));
        }
        i = i + 1;
    }
    assert(messages@.take(messages.len() as int) =~= messages@);
    let ghost cv = json_views(contents@);
    let mut es: Vec<(String, JsonValue)> = Vec::new();
    es.push(entry("contents", json_array(contents)));
    let ghost e1 = entry_views(es@);
    assert(e1 =~= seq![("contents"@, JsonView::Array(cv))]);
    if let Some(s) = system {
        let sys = gemini_parts_json(None, s);
        let ghost before = entry_views(es@);
        es.push(entry("system_instruction", sys));
        assert(entry_views(es@) =~= before.push(("system_instruction"@, json_view(sys))));
    }
    if let Some(t) = max_tokens {
        let mut cfg: Vec<(String, JsonValue)> = Vec::new();
        cfg.push(entry("maxOutputTokens", json_u64(t as u64)));
        let c = json_object(cfg);
        assert(entry_views(cfg@) =~= seq![("maxOutputTokens"@, JsonView::Number(crate::text::decimal(t as nat)))]);
        let ghost before = entry_views(es@);
        es.push(entry("generationConfig", c));
        assert(entry_views(es@) =~= before.push(("generationConfig"@, json_view(c))));
    }
    json_object(es)
}

/// The transcript in a Whisper answer's text: trimmed, and an error when
/// nothing is left.
pub fn whisper_transcript(text: &str) -> (r: Result<String, AiError>)
    ensures
        crate::text::trim(text@).len() > 0 ==> (r matches Ok(t) && t@ == crate::text::trim(text@)),
        crate::text::trim(text@).len() == 0 ==> (r matches Err(AiError::TranscriptionFailed(m)) && m@
            == "Empty transcription returned"@),
{
    let t = crate::text::trimmed(&chars_of(text));
    if t.len() == 0 {
        Err(AiError::TranscriptionFailed("Empty transcription returned".to_owned()))
    } else {
        Ok(string_of(&t))
    }
}

/// The authentication header of a Gemini request: the OAuth bearer token
/// when one was obtained, else the API key, else none.
pub fn gemini_auth_header(token: Option<&str>, api_key: Option<&str>) -> (r: Option<(String, String)>)
    ensures
        match crate::text::opt_str_view(token) {
            Some(t) => r matches Some((n, v)) && n@ == "Authorization"@ && v@ == "Bearer "@ + t,
            None => match crate::text::opt_str_view(api_key) {
                Some(k) => r matches Some((n, v)) && n@ == "x-goog-api-key"@ && v@ == k,
                None => r is None,
            },
        },
{
    match token {
        Some(t) => {
            let mut v = chars_of("Bearer ");
            crate::text::push_str(&mut v, t);
            Some(("Authorization".to_owned(), string_of(&v)))
        },
        None => match api_key {
            Some(k) => Some(("x-goog-api-key".to_owned(), k.to_owned())),
            None => None,
        },
    }
}

/// The providers a service sends its tasks to.
#[derive(Debug, Clone, PartialEq, Eq)]
pub struct AiRouting {
    pub transcription_provider: String,
    pub classification_provider: String,
    pub summarization_provider: String,
}

/// A configured provider, else the fallback.
pub open spec fn provider_or(p: Option<String>, fallback: Seq<char>) -> Seq<char> {
    match p {
        Some(s) => s@,
        None => fallback,
    }
}

impl AiRouting {
    /// The routing a configuration asks for: transcription defaults to
    /// `openai`, classification and summarization to the global provider.
    pub fn from_config(config: &Config) -> (r: Self)
        ensures
            r.transcription_provider@ == provider_or(config.transcription.provider, "openai"@),
            r.classification_provider@ == provider_or(config.classification.provider, config.ai_provider@),
            r.summarization_provider@ == provider_or(config.summarization.provider, config.ai_provider@),
    {
        let transcription_provider = match &config.transcription.provider {
            Some(p) => p.clone(),
            None => "openai".to_owned(),
        };
        let classification_provider = match &config.classification.provider {
            Some(p) => p.clone(),
            None => config.ai_provider.clone(),
        };
        let summarization_provider = match &config.summarization.provider {
            Some(p) => p.clone(),
            None => config.ai_provider.clone(),
        };
        AiRouting { transcription_provider, classification_provider, summarization_provider }
    }
}

/// The error for a task routed to a provider that is not registered.
pub fn provider_not_found(name: &str) -> (r: AiError)
    ensures
        r matches AiError::UnsupportedCapability(m) && m@ == "AI Provider '"@ + name@ + "' not found"@,
{
    let mut m = chars_of("AI Provider '");
    push_str(&mut m, name);
    push_str(&mut m, "' not found");
    AiError::UnsupportedCapability(string_of(&m))
}


/// The OpenRouter request for a conversation: the model, each message as
/// role and content, and the token limit when given.
pub open spec fn openrouter_chat_view(model: Seq<char>, ms: Seq<ChatMessage>, max_tokens: Option<u32>) -> JsonView {
    let base = seq![
        ("model"@, JsonView::Str(model)),
        ("messages"@, JsonView::Array(Seq::new(ms.len(), |i: int| crate::ai::conflict::message_view(ms[i].role@, ms[i].content@)))),
    ];
    JsonView::Object(
        match max_tokens {
            Some(t) => base.push(("max_tokens"@, JsonView::Number(crate::text::decimal(t as nat)))),
            None => base,
        },
    )
}

/// The OpenRouter request for a conversation.
pub fn openrouter_chat_body(model: &str, messages: &Vec<ChatMessage>, max_tokens: Option<u32>) -> (r: JsonValue)
    ensures
        json_view(r) == openrouter_chat_view(model@, messages@, max_tokens),
{
    let ghost target = Seq::new(
        messages@.len(),
        |i: int| crate::ai::conflict::message_view(messages@[i].role@, messages@[i].content@),
    );
    let mut items: Vec<JsonValue> = Vec::new();
    let mut i: usize = 0;
    while i < messages.len()
        invariant
            i <= messages.len(),
            target == Seq::new(
                messages@.len(),
                |k: int| crate::ai::conflict::message_view(messages@[k].role@, messages@[k].content@),
            ),
            json_views(items@) == target.take(i as int),
        decreases messages.len() - i,
    {
        let m = crate::ai::conflict::message_json(messages[i].role.as_str(), messages[i].content.clone());
        let ghost before = json_views(items@);
        items.push(m);
        assert(json_views(items@) =~= before.push(target[i as int]));
        i = i + 1;
        assert(json_views(items@) =~= target.take(i as int));
    }
    assert(target.take(messages.len() as int) =~= target);
    let mut es: Vec<(String, JsonValue)> = Vec::new();
    es.push(entry("model", json_str(model)));
    es.push(entry("messages", json_array(items)));
    let ghost base = seq![("model"@, JsonView::Str(model@)), ("messages"@, JsonView::Array(target))];
    assert(entry_views(es@) =~= base);
    if let Some(t) = max_tokens {
        es.push(entry("max_tokens", json_u64(t as u64)));
        assert(entry_views(es@) =~= base.push(("max_tokens"@, JsonView::Number(crate::text::decimal(t as nat)))));
    }
    json_object(es)
}

} // verus!
