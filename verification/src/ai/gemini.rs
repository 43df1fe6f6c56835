//! Gemini requests: response schemas in the form Gemini's REST API accepts
//! (JSON Schema without `additionalProperties` and without type unions),
//! and the request bodies of classification, summaries, transcript
//! formatting and document transcription.
use vstd::prelude::*;
use crate::ai::classify::{
    classification_prompt_text, classified_note_format_view, classified_note_response_format,
};
use crate::ai::guide::{composed_prompt, compose_system_prompt};
use crate::ai::providers::{data_uri_parts, parse_data_uri};
use crate::ai::summarize::{url_summary_format_view, url_summary_prompt_text, url_summary_response_format};
use crate::json::{
    arr1, arr2, clone_json, entry_views, get_entry, json_object, json_str, json_string, json_view,
    json_views, obj1, obj2, obj3, view_get, JsonValue, JsonView,
};
use crate::text::{chars_of, opt_str_view, opt_string_view, push_str, string_of};
use crate::url::detect::same_chars;
use crate::url::extract::PageContent;

verus! {

/// The first member of a type list that is not the string `"null"`, else `"string"`.
pub open spec fn first_non_null_type(ts: Seq<JsonView>) -> JsonView
    decreases ts.len(),
{
    if ts.len() == 0 {
        JsonView::Str("string"@)
    } else if ts[0] == JsonView::Str("null"@) {
        first_non_null_type(ts.drop_first())
    } else {
        ts[0]
    }
}

/// The entries without those named `key`, in order.
pub open spec fn without_key(es: Seq<(Seq<char>, JsonView)>, key: Seq<char>) -> Seq<(Seq<char>, JsonView)>
    decreases es.len(),
{
    if es.len() == 0 {
        es
    } else if es.last().0 == key {
        without_key(es.drop_last(), key)
    } else {
        without_key(es.drop_last(), key).push(es.last())
    }
}

/// What becomes of the member `k: x` of a schema object: a `type` list
/// becomes its first non-null type, each property schema and the `items`
/// schema are converted, anything else stays.
pub open spec fn gemini_member(k: Seq<char>, x: JsonView) -> JsonView
    decreases x, 1nat,
{
    if k == "type"@ {
        match x {
            JsonView::Array(ts) => first_non_null_type(ts),
            _ => x,
        }
    } else if k == "properties"@ {
        match x {
            JsonView::Object(ps) => JsonView::Object(gemini_properties(ps)),
            _ => x,
        }
    } else if k == "items"@ {
        gemini_schema(x)
    } else {
        x
    }
}

/// Each property schema converted, names and order kept.
pub open spec fn gemini_properties(ps: Seq<(Seq<char>, JsonView)>) -> Seq<(Seq<char>, JsonView)>
    decreases ps, 2nat,
{
    Seq::new(
        ps.len(),
        |j: int|
            if 0 <= j < ps.len() {
                (ps[j].0, gemini_schema(ps[j].1))
            } else {
                (Seq::empty(), JsonView::Null)
            },
    )
}

/// Each member of a schema object converted, names and order kept.
pub open spec fn gemini_members(es: Seq<(Seq<char>, JsonView)>) -> Seq<(Seq<char>, JsonView)>
    decreases es, 2nat,
{
    Seq::new(
        es.len(),
        |i: int|
            if 0 <= i < es.len() {
                (es[i].0, gemini_member(es[i].0, es[i].1))
            } else {
                (Seq::empty(), JsonView::Null)
            },
    )
}

/// A schema in Gemini's form: in an object, `additionalProperties` is
/// dropped and every other member converted; other values stay as they are.
pub open spec fn gemini_schema(v: JsonView) -> JsonView
    decreases v, 0nat,
{
    match v {
        JsonView::Object(es) => JsonView::Object(without_key(gemini_members(es), "additionalProperties"@)),
        _ => v,
    }
}

fn first_non_null_json(ts: &Vec<JsonValue>) -> (r: JsonValue)
    ensures
        json_view(r) == first_non_null_type(json_views(ts@)),
{
    let null_text = chars_of("null");
    let mut i: usize = 0;
    assert(json_views(ts@).skip(0) =~= json_views(ts@));
    while i < ts.len()
        invariant
            i <= ts.len(),
            null_text@ == "null"@,
            first_non_null_type(json_views(ts@)) == first_non_null_type(json_views(ts@).skip(i as int)),
        decreases ts.len() - i,
    {
        let ghost rest = json_views(ts@).skip(i as int);
        assert(rest[0] == json_view(ts@[i as int]));
        assert(rest.drop_first() =~= json_views(ts@).skip(i + 1));
        let is_null = match &ts[i] {
            JsonValue::Str(s) => same_chars(&chars_of(s.as_str()), &null_text),
            _ => false,
        };
        if !is_null {
            return clone_json(&ts[i]);
        }
        i = i + 1;
    }
    assert(json_views(ts@).skip(i as int) =~= Seq::<JsonView>::empty());
    JsonValue::Str(string_of(&chars_of("string")))
}

fn member_json(k: &str, x: &JsonValue) -> (r: JsonValue)
    ensures
        json_view(r) == gemini_member(k@, json_view(*x)),
    decreases x, 1nat,
{
    let kc = chars_of(k);
    if same_chars(&kc, &chars_of("type")) {
        match x {
            JsonValue::Array(ts) => {
                assert(json_view(*x)->Array_0 =~= json_views(ts@));
                first_non_null_json(ts)
            },
            _ => clone_json(x),
        }
    } else if same_chars(&kc, &chars_of("properties")) {
        match x {
            JsonValue::Object(ps) => {
                let ghost pv = json_view(*x)->Object_0;
                let mut out: Vec<(String, JsonValue)> = Vec::new();
                let mut j: usize = 0;
                while j < ps.len()
                    invariant
                        j <= ps.len(),
                        *x is Object && (*x)->Object_0 == *ps,
                        pv == json_view(*x)->Object_0,
                        pv.len() == ps@.len(),
                        forall|m: int| 0 <= m < ps@.len() ==> #[trigger] pv[m] == (ps@[m].0@, json_view(ps@[m].1)),
                        entry_views(out@) =~= gemini_properties(pv).take(j as int),
                    decreases ps.len() - j,
                {
                    proof {
                        assert(decreases_to!(*x => (*x)->Object_0));
                        assert(decreases_to!(*ps => ps@));
                        assert(decreases_to!(ps@ => ps@[j as int]));
                        assert(decreases_to!(ps@[j as int] => ps@[j as int].1));
                    }
                    let c = schema_json(&ps[j].1);
                    let key = string_of(&chars_of(ps[j].0.as_str()));
                    let ghost before = entry_views(out@);
                    out.push((key, c));
                    assert(pv[j as int] == (ps@[j as int].0@, json_view(ps@[j as int].1)));
                    assert(entry_views(out@) =~= before.push((pv[j as int].0, gemini_schema(pv[j as int].1))));
                    j = j + 1;
                }
                assert(gemini_properties(pv).take(ps.len() as int) =~= gemini_properties(pv));
                json_object(out)
            },
            _ => clone_json(x),
        }
    } else if same_chars(&kc, &chars_of("items")) {
        schema_json(x)
    } else {
        clone_json(x)
    }
}

fn schema_json(v: &JsonValue) -> (r: JsonValue)
    ensures
        json_view(r) == gemini_schema(json_view(*v)),
    decreases v, 0nat,
{
    match v {
        JsonValue::Object(es) => {
            let ghost ev = json_view(*v)->Object_0;
            let ghost mapped = gemini_members(ev);
            let skip_key = chars_of("additionalProperties");
            let mut out: Vec<(String, JsonValue)> = Vec::new();
            let mut i: usize = 0;
            while i < es.len()
                invariant
                    i <= es.len(),
                    *v is Object && (*v)->Object_0 == *es,
                    skip_key@ == "additionalProperties"@,
                    ev == json_view(*v)->Object_0,
                    ev.len() == es@.len(),
                    forall|m: int| 0 <= m < es@.len() ==> #[trigger] ev[m] == (es@[m].0@, json_view(es@[m].1)),
                    mapped.len() == ev.len(),
                    forall|m: int| 0 <= m < ev.len() ==> #[trigger] mapped[m] == (ev[m].0, gemini_member(ev[m].0, ev[m].1)),
                    entry_views(out@) == without_key(mapped.take(i as int), "additionalProperties"@),
                decreases es.len() - i,
            {
                proof {
                    assert(decreases_to!(*v => (*v)->Object_0));
                    assert(decreases_to!(*es => es@));
                    assert(decreases_to!(es@ => es@[i as int]));
                    assert(decreases_to!(es@[i as int] => es@[i as int].1));
                }
                let kc = chars_of(es[i].0.as_str());
                assert(mapped.take(i + 1).drop_last() =~= mapped.take(i as int));
                assert(mapped.take(i + 1).last() == mapped[i as int]);
                assert(ev[i as int] == (es@[i as int].0@, json_view(es@[i as int].1)));
                if !same_chars(&kc, &skip_key) {
                    let c = member_json(es[i].0.as_str(), &es[i].1);
                    let key = string_of(&kc);
                    let ghost before = entry_views(out@);
                    out.push((key, c));
                    assert(entry_views(out@) =~= before.push(mapped[i as int]));
                }
                i = i + 1;
            }
            assert(mapped.take(es.len() as int) =~= mapped);
            assert(json_view(*v) == JsonView::Object(ev));
            json_object(out)
        },
        _ => clone_json(v),
    }
}

/// Convert a standard OpenAPI/JSON Schema to one compatible with Gemini REST API.
/// In particular, Gemini response schema does not support union types like `["object", "null"]`.
/// We map any type array to the first non-null type in the list.
pub fn convert_to_gemini_schema(schema: JsonValue) -> (r: JsonValue)
    ensures
        json_view(r) == gemini_schema(json_view(schema)),
{
    schema_json(&schema)
}

/// The member `key` of an object, if it is an object that has one.
pub open spec fn view_member(v: JsonView, key: Seq<char>) -> Option<JsonView> {
    match v {
        JsonView::Object(es) => view_get(es, key),
        _ => None,
    }
}

/// The Gemini form of `response_format.json_schema.schema`, when present.
pub open spec fn gemini_schema_of_format(response_format: JsonView) -> Option<JsonView> {
    match view_member(response_format, "json_schema"@) {
        Some(js) => match view_member(js, "schema"@) {
            Some(s) => Some(gemini_schema(s)),
            None => None,
        },
        None => None,
    }
}

fn member<'a>(v: &'a JsonValue, key: &str) -> (r: Option<&'a JsonValue>)
    ensures
        match view_member(json_view(*v), key@) {
            Some(x) => r matches Some(m) && json_view(*m) == x,
            None => r is None,
        },
{
    match v {
        JsonValue::Object(es) => {
            assert(json_view(*v)->Object_0 =~= entry_views(es@));
            get_entry(es, key)
        },
        _ => None,
    }
}

/// Extract Gemini schema from OpenAI format response format JSON
pub fn extract_gemini_schema(response_format: &JsonValue) -> (r: Option<JsonValue>)
    ensures
        match gemini_schema_of_format(json_view(*response_format)) {
            Some(s) => r matches Some(x) && json_view(x) == s,
            None => r is None,
        },
{
    let js = match member(response_format, "json_schema") {
        Some(j) => j,
        None => return None,
    };
    match member(js, "schema") {
        Some(s) => Some(schema_json(s)),
        None => None,
    }
}


/// A `{"text": t}` part.
pub open spec fn text_part(t: Seq<char>) -> JsonView {
    JsonView::Object(seq![("text"@, JsonView::Str(t))])
}

/// A `{"inline_data": {"mime_type": m, "data": d}}` part.
pub open spec fn inline_part(mime: Seq<char>, data: Seq<char>) -> JsonView {
    JsonView::Object(seq![("inline_data"@, JsonView::Object(seq![("mime_type"@, JsonView::Str(mime)), ("data"@, JsonView::Str(data))]))])
}

/// A generation config asking for JSON, following the schema when there is one.
pub open spec fn structured_config(schema: Option<JsonView>) -> JsonView {
    let base = seq![("response_mime_type"@, JsonView::Str("application/json"@))];
    JsonView::Object(
        match schema {
            Some(sc) => base.push(("responseSchema"@, sc)),
            None => base,
        },
    )
}

/// A Gemini request: the system instruction, one user content of the
/// given parts, and the generation config when there is one.
pub open spec fn gemini_request(system_prompt: Seq<char>, parts: Seq<JsonView>, config: Option<JsonView>) -> JsonView {
    let base = seq![
        ("system_instruction"@, JsonView::Object(seq![("parts"@, JsonView::Array(seq![text_part(system_prompt)]))])),
        ("contents"@, JsonView::Array(seq![JsonView::Object(seq![("role"@, JsonView::Str("user"@)), ("parts"@, JsonView::Array(parts))])])),
    ];
    JsonView::Object(
        match config {
            Some(c) => base.push(("generationConfig"@, c)),
            None => base,
        },
    )
}

fn text_part_json(t: String) -> (r: JsonValue)
    ensures
        json_view(r) == text_part(t@),
{
    obj1("text", json_string(t))
}

fn inline_part_json(mime: String, data: String) -> (r: JsonValue)
    ensures
        json_view(r) == inline_part(mime@, data@),
{
    obj1("inline_data", obj2("mime_type", json_string(mime), "data", json_string(data)))
}

fn structured_config_json(schema: Option<JsonValue>) -> (r: JsonValue)
    ensures
        json_view(r) == structured_config(
            match schema {
                Some(x) => Some(json_view(x)),
                None => None,
            },
        ),
{
    match schema {
        Some(sc) => {
            let ghost w = json_view(sc);
            let ghost base = seq![("response_mime_type"@, JsonView::Str("application/json"@))];
            assert(base.push(("responseSchema"@, w)) =~= seq![("response_mime_type"@, JsonView::Str("application/json"@)), ("responseSchema"@, w)]);
            obj2("response_mime_type", json_str("application/json"), "responseSchema", sc)
        },
        None => obj1("response_mime_type", json_str("application/json")),
    }
}

fn request_json(system_prompt: String, parts: Vec<JsonValue>, config: Option<JsonValue>) -> (r: JsonValue)
    ensures
        json_view(r) == gemini_request(
            system_prompt@,
            json_views(parts@),
            match config {
                Some(c) => Some(json_view(c)),
                None => None,
            },
        ),
{
    let ghost pv = json_views(parts@);
    let sys = obj1("parts", arr1(text_part_json(system_prompt)));
    let user = obj2("role", json_str("user"), "parts", crate::json::json_array(parts));
    let contents = arr1(user);
    let ghost sv = json_view(sys);
    let ghost cv = json_view(contents);
    match config {
        Some(c) => {
            let ghost w = json_view(c);
            assert(seq![("system_instruction"@, sv), ("contents"@, cv)].push(("generationConfig"@, w)) =~= seq![
                ("system_instruction"@, sv),
                ("contents"@, cv),
                ("generationConfig"@, w),
            ]);
            obj3("system_instruction", sys, "contents", contents, "generationConfig", c)
        },
        None => obj2("system_instruction", sys, "contents", contents),
    }
}

/// The structured config of a request answering in the form `response_format`.
pub open spec fn config_for(response_format: JsonView) -> Option<JsonView> {
    Some(structured_config(gemini_schema_of_format(response_format)))
}

fn config_json(response_format: &JsonValue) -> (r: JsonValue)
    ensures
        Some(json_view(r)) == config_for(json_view(*response_format)),
{
    let sc = extract_gemini_schema(response_format);
    structured_config_json(sc)
}

/// The Gemini request classifying `text`.
pub open spec fn classify_text_request(text: Seq<char>, guide: Option<Seq<char>>) -> JsonView {
    gemini_request(
        composed_prompt(classification_prompt_text(), guide),
        seq![text_part(text)],
        config_for(classified_note_format_view()),
    )
}

/// The Gemini request classifying `text`, with the user's guide.
pub fn gemini_classify_text_body(text: &str, guide: Option<&str>) -> (r: JsonValue)
    ensures
        json_view(r) == classify_text_request(text@, opt_str_view(guide)),
{
    let sys = compose_system_prompt(crate::ai::classify::classification_system_prompt(), guide);
    let cfg = config_json(&classified_note_response_format());
    let mut parts: Vec<JsonValue> = Vec::new();
    parts.push(text_part_json(text.to_owned()));
    let ghost p0 = json_views(parts@);
    assert(p0 =~= seq![text_part(text@)]);
    request_json(sys, parts, Some(cfg))
}

/// The instructions for classifying an image.
pub open spec fn image_prompt_text() -> Seq<char> {
    classification_prompt_text()
        + "\n\nYou are also receiving an image. Describe what you see and classify it. If a caption is provided, use it as primary context. Include the image description in the markdown output as a short paragraph."@
}

/// The text sent with an image: the caption, else a request for a
/// description, followed by the EXIF context when there is one.
pub open spec fn image_text(caption: Option<Seq<char>>, exif_context: Seq<char>) -> Seq<char> {
    let lead = match caption {
        Some(c) => c,
        None => "Describe this image."@,
    };
    if exif_context.len() == 0 {
        lead
    } else {
        lead + "\n\n"@ + exif_context
    }
}

/// The Gemini request classifying an image given as a data URI.
pub open spec fn classify_image_request(
    image_base64: Seq<char>,
    caption: Option<Seq<char>>,
    exif_context: Seq<char>,
    guide: Option<Seq<char>>,
) -> JsonView {
    gemini_request(
        composed_prompt(image_prompt_text(), guide),
        seq![
            inline_part(data_uri_parts(image_base64).0, data_uri_parts(image_base64).1),
            text_part(image_text(caption, exif_context)),
        ],
        config_for(classified_note_format_view()),
    )
}

/// The Gemini request classifying an image with its caption and EXIF context.
pub fn gemini_classify_image_body(
    image_base64: &str,
    caption: Option<&str>,
    exif_context: &str,
    guide: Option<&str>,
) -> (r: JsonValue)
    ensures
        json_view(r) == classify_image_request(image_base64@, opt_str_view(caption), exif_context@, opt_str_view(guide)),
{
    let mut base = chars_of(crate::ai::classify::classification_system_prompt());
    push_str(
        &mut base,
        "\n\nYou are also receiving an image. Describe what you see and classify it. If a caption is provided, use it as primary context. Include the image description in the markdown output as a short paragraph.",
    );
    let base_s = string_of(&base);
    let sys = compose_system_prompt(base_s.as_str(), guide);
    let mut text = match caption {
        Some(c) => chars_of(c),
        None => chars_of("Describe this image."),
    };
    if !exif_context.is_empty() {
        push_str(&mut text, "\n\n");
        push_str(&mut text, exif_context);
    }
    let (mime, data) = parse_data_uri(image_base64);
    let cfg = config_json(&classified_note_response_format());
    let mut parts: Vec<JsonValue> = Vec::new();
    parts.push(inline_part_json(mime, data));
    parts.push(text_part_json(string_of(&text)));
    let ghost dp = data_uri_parts(image_base64@);
    assert(json_views(parts@) =~= seq![
        inline_part(dp.0, dp.1),
        text_part(image_text(opt_str_view(caption), exif_context@)),
    ]);
    request_json(sys, parts, Some(cfg))
}

/// The page description sent for a summary.
pub open spec fn summary_text(
    url: Seq<char>,
    title: Option<Seq<char>>,
    description: Option<Seq<char>>,
    body: Seq<char>,
    user_text: Option<Seq<char>>,
) -> Seq<char> {
    let t = match title {
        Some(x) => x,
        None => "[No Title]"@,
    };
    let d = match description {
        Some(x) => x,
        None => "[No Description]"@,
    };
    let main = "URL: "@ + url + "\nTitle: "@ + t + "\nDescription: "@ + d + "\nContent:\n"@ + body;
    match user_text {
        Some(u) => main + "\n\nUser instructions:\n"@ + u,
        None => main,
    }
}

/// The Gemini request summarizing a page.
pub open spec fn summarize_request(page: PageContent, user_text: Option<Seq<char>>, guide: Option<Seq<char>>) -> JsonView {
    gemini_request(
        composed_prompt(url_summary_prompt_text(), guide),
        seq![text_part(summary_text(page.url@, opt_string_view(page.title), opt_string_view(page.description), page.body_text@, user_text))],
        config_for(url_summary_format_view()),
    )
}

/// The Gemini request summarizing a page, with the user's words and guide.
pub fn gemini_summarize_body(page_content: &PageContent, user_text: Option<&str>, guide: Option<&str>) -> (r: JsonValue)
    ensures
        json_view(r) == summarize_request(*page_content, opt_str_view(user_text), opt_str_view(guide)),
{
    let sys = compose_system_prompt(crate::ai::summarize::url_summary_system_prompt(), guide);
    let mut text = chars_of("URL: ");
    push_str(&mut text, page_content.url.as_str());
    push_str(&mut text, "\nTitle: ");
    match &page_content.title {
        Some(t) => push_str(&mut text, t.as_str()),
        None => push_str(&mut text, "[No Title]"),
    }
    push_str(&mut text, "\nDescription: ");
    match &page_content.description {
        Some(d) => push_str(&mut text, d.as_str()),
        None => push_str(&mut text, "[No Description]"),
    }
    push_str(&mut text, "\nContent:\n");
    push_str(&mut text, page_content.body_text.as_str());
    if let Some(u) = user_text {
        push_str(&mut text, "\n\nUser instructions:\n");
        push_str(&mut text, u);
    }
    let cfg = config_json(&url_summary_response_format());
    let mut parts: Vec<JsonValue> = Vec::new();
    let ghost tv = text@;
    parts.push(text_part_json(string_of(&text)));
    assert(tv =~= summary_text(
        page_content.url@,
        opt_string_view(page_content.title),
        opt_string_view(page_content.description),
        page_content.body_text@,
        opt_str_view(user_text),
    ));
    assert(json_views(parts@) =~= seq![text_part(tv)]);
    request_json(sys, parts, Some(cfg))
}

/// The system prompt of transcript formatting with the style guide.
pub open spec fn transcript_style_prompt(guide_content: Seq<char>) -> Seq<char> {
    "You are a transcription formatting assistant. Your task is to transform raw transcripts into a structured, readable markdown summary. Follow this style guide: "@
        + guide_content
}

/// The Gemini request formatting a raw transcript.
pub open spec fn format_transcript_request(raw: Seq<char>, title: Seq<char>, guide_content: Seq<char>) -> JsonView {
    gemini_request(
        transcript_style_prompt(guide_content),
        seq![text_part("Video Title: "@ + title + "\nRaw Transcript:\n"@ + raw)],
        None,
    )
}

/// The Gemini request formatting a raw transcript under a style guide.
pub fn gemini_format_transcript_body(raw_transcript: &str, video_title: &str, guide_content: &str) -> (r: JsonValue)
    ensures
        json_view(r) == format_transcript_request(raw_transcript@, video_title@, guide_content@),
{
    let mut sys = chars_of(
        "You are a transcription formatting assistant. Your task is to transform raw transcripts into a structured, readable markdown summary. Follow this style guide: ",
    );
    push_str(&mut sys, guide_content);
    let mut text = chars_of("Video Title: ");
    push_str(&mut text, video_title);
    push_str(&mut text, "\nRaw Transcript:\n");
    push_str(&mut text, raw_transcript);
    let ghost tv = text@;
    let mut parts: Vec<JsonValue> = Vec::new();
    parts.push(text_part_json(string_of(&text)));
    assert(json_views(parts@) =~= seq![text_part(tv)]);
    request_json(string_of(&sys), parts, None)
}

/// The instructions for transcribing a document.
pub open spec fn pdf_prompt_text() -> Seq<char> {
    "You are a highly precise document transcription and classification assistant. You are receiving a PDF document. Your tasks are:\n1. **Transcribe** the entire document's text as accurately as possible. If there are tables, preserve their structure in markdown tables. If there are images, describe them inline.\n2. **Summarize** the document in a concise, human-readable summary of 1-3 sentences.\n3. **Classify** and tag the content.\n4. **Output your result in JSON format ONLY**, matching this schema exactly:\n{\n  \"category\": \"note\",\n  \"summary\": \"Concise 1-3 sentence summary of the document\",\n  \"markdown\": \"The full and detailed transcription of the document in markdown format\",\n  \"tags\": [\"tag1\", \"tag2\"]\n}"@
}

/// The text sent with a document: the request, with the user's instruction when given.
pub open spec fn pdf_text(user_prompt: Option<Seq<char>>) -> Seq<char> {
    match user_prompt {
        Some(p) => "Transcribe the attached PDF document. User instruction/context: "@ + p,
        None => "Transcribe the attached PDF document."@,
    }
}

/// The Gemini request transcribing a base64-encoded PDF.
pub open spec fn transcribe_pdf_request(base64_data: Seq<char>, user_prompt: Option<Seq<char>>) -> JsonView {
    gemini_request(
        pdf_prompt_text(),
        seq![inline_part("application/pdf"@, base64_data), text_part(pdf_text(user_prompt))],
        config_for(classified_note_format_view()),
    )
}

/// The Gemini request transcribing a PDF given in base64.
pub fn gemini_transcribe_pdf_body(base64_data: String, user_prompt: Option<&str>) -> (r: JsonValue)
    ensures
        json_view(r) == transcribe_pdf_request(base64_data@, opt_str_view(user_prompt)),
{
    let sys = "You are a highly precise document transcription and classification assistant. You are receiving a PDF document. Your tasks are:\n1. **Transcribe** the entire document's text as accurately as possible. If there are tables, preserve their structure in markdown tables. If there are images, describe them inline.\n2. **Summarize** the document in a concise, human-readable summary of 1-3 sentences.\n3. **Classify** and tag the content.\n4. **Output your result in JSON format ONLY**, matching this schema exactly:\n{\n  \"category\": \"note\",\n  \"summary\": \"Concise 1-3 sentence summary of the document\",\n  \"markdown\": \"The full and detailed transcription of the document in markdown format\",\n  \"tags\": [\"tag1\", \"tag2\"]\n}";
    let text = match user_prompt {
        Some(p) => {
            let mut t = chars_of("Transcribe the attached PDF document. User instruction/context: ");
            push_str(&mut t, p);
            string_of(&t)
        },
        None => "Transcribe the attached PDF document.".to_owned(),
    };
    let ghost dv = base64_data@;
    let ghost tv = text@;
    let cfg = config_json(&classified_note_response_format());
    let mut parts: Vec<JsonValue> = Vec::new();
    parts.push(inline_part_json("application/pdf".to_owned(), base64_data));
    parts.push(text_part_json(text));
    assert(json_views(parts@) =~= seq![inline_part("application/pdf"@, dv), text_part(tv)]);
    request_json(sys.to_owned(), parts, Some(cfg))
}

} // verus!
