use obsidian_ai_agent::error::UrlError;
use obsidian_ai_agent::url::detect::{
    classify_url, detect_urls, is_transcript_request, is_youtube_domain, UrlType,
};
use obsidian_ai_agent::url::extract::{
    check_body_size, check_response_head, extract_body_text, extract_page_content_from_html,
    fetch_error, is_html_content_type, normalize_text,
};
use obsidian_ai_agent::url::transcript::{parse_vtt, transcript_from_run, transcript_url, TranscriptRun};
use obsidian_ai_agent::url::youtube::{
    description_from_run, extract_video_id_from_url, oembed_url, watch_url, youtube_video_id,
    DescriptionRun, YouTubeMetadata,
};

fn yt(id: &str) -> UrlType {
    UrlType::YouTube { video_id: id.to_string() }
}

#[test]
fn test_single_url_in_text() {
    let text = "Check out https://example.com for more info";
    let urls = detect_urls(text);

    assert_eq!(urls.len(), 1);
    assert_eq!(urls[0].url, "https://example.com");
    assert_eq!(urls[0].url_type, UrlType::WebPage);
    assert_eq!(urls[0].start, 10);
    assert_eq!(urls[0].end, 29);
}

#[test]
fn test_multiple_urls_in_text() {
    let text = "First https://example.com and second https://test.org links";
    let urls = detect_urls(text);

    assert_eq!(urls.len(), 2);
    assert_eq!(urls[0].url, "https://example.com");
    assert_eq!(urls[0].start, 6);
    assert_eq!(urls[1].url, "https://test.org");
    assert_eq!(urls[1].start, 37);
}

#[test]
fn test_url_with_trailing_punctuation() {
    let text = "Visit https://example.com. More text here!";
    let urls = detect_urls(text);

    assert_eq!(urls.len(), 1);
    assert_eq!(urls[0].url, "https://example.com");
    assert!(!urls[0].url.ends_with('.'));
}

#[test]
fn test_url_with_query_and_fragment() {
    let text = "Link: https://example.com/path?key=value&foo=bar#section";
    let urls = detect_urls(text);

    assert_eq!(urls.len(), 1);
    assert_eq!(urls[0].url, "https://example.com/path?key=value&foo=bar#section");
    assert_eq!(urls[0].url_type, UrlType::WebPage);
}

#[test]
fn test_no_urls_in_text() {
    let text = "This is just plain text with no URLs at all";
    let urls = detect_urls(text);

    assert_eq!(urls.len(), 0);
}

#[test]
fn test_youtube_watch_url() {
    let text = "Watch https://www.youtube.com/watch?v=dQw4w9WgXcQ here";
    let urls = detect_urls(text);

    assert_eq!(urls.len(), 1);
    assert_eq!(urls[0].url, "https://www.youtube.com/watch?v=dQw4w9WgXcQ");
    assert_eq!(urls[0].url_type, yt("dQw4w9WgXcQ"));
}

#[test]
fn test_youtube_short_url() {
    let text = "Short link: https://youtu.be/dQw4w9WgXcQ";
    let urls = detect_urls(text);

    assert_eq!(urls.len(), 1);
    assert_eq!(urls[0].url, "https://youtu.be/dQw4w9WgXcQ");
    assert_eq!(urls[0].url_type, yt("dQw4w9WgXcQ"));
}

#[test]
fn test_youtube_shorts_url() {
    let text = "Shorts: https://www.youtube.com/shorts/dQw4w9WgXcQ";
    let urls = detect_urls(text);

    assert_eq!(urls.len(), 1);
    assert_eq!(urls[0].url, "https://www.youtube.com/shorts/dQw4w9WgXcQ");
    assert_eq!(urls[0].url_type, yt("dQw4w9WgXcQ"));
}

#[test]
fn test_youtube_mobile_url() {
    let text = "Mobile: https://m.youtube.com/watch?v=dQw4w9WgXcQ";
    let urls = detect_urls(text);

    assert_eq!(urls.len(), 1);
    assert_eq!(urls[0].url, "https://m.youtube.com/watch?v=dQw4w9WgXcQ");
    assert_eq!(urls[0].url_type, yt("dQw4w9WgXcQ"));
}

#[test]
fn test_youtube_embed_url() {
    let text = "Embed: https://www.youtube.com/embed/dQw4w9WgXcQ";
    let urls = detect_urls(text);

    assert_eq!(urls.len(), 1);
    assert_eq!(urls[0].url, "https://www.youtube.com/embed/dQw4w9WgXcQ");
    assert_eq!(urls[0].url_type, yt("dQw4w9WgXcQ"));
}

#[test]
fn test_non_youtube_url_containing_youtube_in_path() {
    let text = "Check https://example.com/watch-youtube-videos for tutorials";
    let urls = detect_urls(text);

    assert_eq!(urls.len(), 1);
    assert_eq!(urls[0].url, "https://example.com/watch-youtube-videos");
    assert_eq!(urls[0].url_type, UrlType::WebPage);
}

#[test]
fn test_youtube_url_with_additional_params() {
    let text = "https://www.youtube.com/watch?v=dQw4w9WgXcQ&t=42s&list=PLxxx";
    let urls = detect_urls(text);

    assert_eq!(urls.len(), 1);
    assert_eq!(urls[0].url_type, yt("dQw4w9WgXcQ"));
}

#[test]
fn test_multiple_mixed_urls() {
    let text = "Regular https://example.com and YouTube https://youtu.be/abc123XYZ links";
    let urls = detect_urls(text);

    assert_eq!(urls.len(), 2);
    assert_eq!(urls[0].url_type, UrlType::WebPage);
    assert_eq!(urls[1].url_type, yt("abc123XYZ"));
}

#[test]
fn test_transcript_keyword_detected_lowercase() {
    let text = "transcript https://youtube.com/watch?v=abc123";
    assert!(is_transcript_request(text));
}

#[test]
fn test_transcript_keyword_detected_uppercase() {
    let text = "Transcript https://youtu.be/abc123";
    assert!(is_transcript_request(text));
}

#[test]
fn test_transcript_keyword_in_sentence() {
    let text = "get me the transcript for https://youtube.com/watch?v=abc123";
    assert!(is_transcript_request(text));
}

#[test]
fn test_no_transcript_keyword_returns_false() {
    let text = "https://youtube.com/watch?v=abc123";
    assert!(!is_transcript_request(text));
}

#[test]
fn test_transcript_keyword_mixed_case() {
    let text = "TrAnScRiPt https://youtu.be/abc123";
    assert!(is_transcript_request(text));
}

#[test]
fn youtube_hosts_are_recognised_exactly() {
    assert!(is_youtube_domain("youtube.com"));
    assert!(is_youtube_domain("www.youtube.com"));
    assert!(is_youtube_domain("m.youtube.com"));
    assert!(is_youtube_domain("youtu.be"));
    assert!(!is_youtube_domain("notyoutube.com"));
    assert!(!is_youtube_domain("example.com"));
}

#[test]
fn classify_url_needs_both_host_and_id() {
    assert_eq!(classify_url("https://www.youtube.com/watch?v=abc"), yt("abc"));
    assert_eq!(classify_url("https://www.youtube.com/feed"), UrlType::WebPage);
    assert_eq!(classify_url("not a url"), UrlType::WebPage);
}

#[test]
fn test_youtube_metadata_struct_creation() {
    let metadata = YouTubeMetadata {
        title: "Test Video".to_string(),
        author: "Test Author".to_string(),
        thumbnail_url: Some("https://i.ytimg.com/vi/test/hqdefault.jpg".to_string()),
        video_id: "test123".to_string(),
    };

    assert_eq!(metadata.title, "Test Video");
    assert_eq!(metadata.author, "Test Author");
    assert_eq!(
        metadata.thumbnail_url,
        Some("https://i.ytimg.com/vi/test/hqdefault.jpg".to_string())
    );
    assert_eq!(metadata.video_id, "test123");
}

#[test]
fn test_video_id_extraction_watch() {
    let video_id = extract_video_id_from_url("https://www.youtube.com/watch?v=dQw4w9WgXcQ").unwrap();
    assert_eq!(video_id, "dQw4w9WgXcQ");
}

#[test]
fn test_video_id_extraction_youtu_be() {
    let video_id = extract_video_id_from_url("https://youtu.be/dQw4w9WgXcQ").unwrap();
    assert_eq!(video_id, "dQw4w9WgXcQ");
}

#[test]
fn test_video_id_extraction_shorts() {
    let video_id = extract_video_id_from_url("https://www.youtube.com/shorts/abc123XYZ").unwrap();
    assert_eq!(video_id, "abc123XYZ");
}

#[test]
fn test_video_id_extraction_mobile() {
    let video_id = extract_video_id_from_url("https://m.youtube.com/watch?v=test_video").unwrap();
    assert_eq!(video_id, "test_video");
}

#[test]
fn test_video_id_extraction_embed() {
    let video_id = extract_video_id_from_url("https://www.youtube.com/embed/embed123").unwrap();
    assert_eq!(video_id, "embed123");
}

#[test]
fn test_video_id_extraction_with_params() {
    let video_id =
        extract_video_id_from_url("https://www.youtube.com/watch?v=abc123&t=42s&list=PLxxx").unwrap();
    assert_eq!(video_id, "abc123");
}

#[test]
fn test_video_id_extraction_invalid_url() {
    let result = extract_video_id_from_url("https://example.com/not-youtube");
    assert!(result.is_err());
}

#[test]
fn video_id_error_names_the_url() {
    assert_eq!(
        extract_video_id_from_url("https://example.com/x"),
        Err(UrlError::ParseFailed(
            "Failed to extract video ID from URL: https://example.com/x".to_string()
        ))
    );
    assert_eq!(youtube_video_id("https://www.youtube.com/watch?v="), None);
}

#[test]
fn youtube_helper_urls() {
    assert_eq!(
        oembed_url("https://youtu.be/abc"),
        "https://www.youtube.com/oembed?url=https://youtu.be/abc&format=json"
    );
    assert_eq!(watch_url("abc"), "https://www.youtube.com/watch?v=abc");
}

#[test]
fn test_fetch_youtube_description_video_id_format() {
    let video_id = "dQw4w9WgXcQ";
    assert_eq!(video_id.len(), 11, "Video ID should be 11 characters");
    let r = description_from_run(
        video_id,
        &DescriptionRun::Finished { success: true, stdout: "desc".to_string(), stderr: String::new() },
    );
    assert_eq!(r, Ok("desc".to_string()));
}

#[test]
fn test_fetch_youtube_description_empty_string_validation() {
    let empty_desc = "";
    assert!(empty_desc.trim().is_empty(), "Empty description should fail validation");
    let r = description_from_run(
        "vid",
        &DescriptionRun::Finished { success: true, stdout: empty_desc.to_string(), stderr: String::new() },
    );
    assert_eq!(
        r,
        Err(UrlError::TranscriptFailed {
            video_id: "vid".to_string(),
            reason: "Video description is empty".to_string()
        })
    );
}

#[test]
fn test_fetch_youtube_description_whitespace_trimming() {
    let description_with_whitespace = "  Test description  \n\r\t  ";
    let trimmed = description_from_run(
        "vid",
        &DescriptionRun::Finished {
            success: true,
            stdout: description_with_whitespace.to_string(),
            stderr: String::new(),
        },
    )
    .unwrap();
    assert_eq!(trimmed, "Test description");
    assert!(!trimmed.is_empty());
}

#[test]
fn description_run_errors() {
    assert_eq!(
        description_from_run("v", &DescriptionRun::TimedOut(30)),
        Err(UrlError::TranscriptFailed {
            video_id: "v".to_string(),
            reason: "yt-dlp command timed out after 30s".to_string()
        })
    );
    assert_eq!(
        description_from_run("v", &DescriptionRun::NotFound),
        Err(UrlError::TranscriptFailed {
            video_id: "v".to_string(),
            reason: "yt-dlp not found. Install from: https://github.com/yt-dlp/yt-dlp#installation"
                .to_string()
        })
    );
    assert_eq!(
        description_from_run(
            "v",
            &DescriptionRun::Finished { success: false, stdout: String::new(), stderr: "boom".to_string() }
        ),
        Err(UrlError::TranscriptFailed {
            video_id: "v".to_string(),
            reason: "yt-dlp command failed: boom".to_string()
        })
    );
}

#[test]
fn test_ytdlp_command_construction() {
    let result = transcript_from_run("test_video_id", &TranscriptRun::NotFound);
    assert!(result.is_err());
    if let Err(UrlError::TranscriptFailed { video_id, reason }) = result {
        assert_eq!(video_id, "test_video_id");
        assert!(!reason.is_empty());
    } else {
        panic!("Expected UrlError::TranscriptFailed");
    }
}

#[test]
fn transcript_run_output_is_parsed() {
    let out = "WEBVTT\n\n00:00:01.000 --> 00:00:05.000\nHello <b>there</b>\n";
    let r = transcript_from_run(
        "v",
        &TranscriptRun::Finished { success: true, stdout: out.to_string(), stderr: String::new() },
    );
    assert_eq!(r, Ok("Hello there".to_string()));
    assert_eq!(transcript_url("v"), "https://youtube.com/watch?v=v");
    assert_eq!(
        transcript_from_run(
            "v",
            &TranscriptRun::Finished { success: false, stdout: String::new(), stderr: "ERROR: no subtitles".to_string() }
        ),
        Err(UrlError::TranscriptFailed {
            video_id: "v".to_string(),
            reason: "No English captions available for this video".to_string()
        })
    );
}

#[test]
fn test_parse_vtt_strips_timestamps() {
    let vtt = "WEBVTT\n\n00:00:01.000 --> 00:00:05.000\nThis is the first subtitle line\n\n00:00:05.500 --> 00:00:10.000\nThis is the second line";
    assert_eq!(parse_vtt(vtt), "This is the first subtitle line This is the second line");
}

#[test]
fn test_parse_vtt_strips_formatting_tags() {
    let vtt = "WEBVTT\n\n00:00:01.000 --> 00:00:05.000\nThis has <c>color tags</c> and <b>bold</b> and <i>italic</i>\n\n00:00:05.500 --> 00:00:10.000\nAlso <v Speaker>speaker tags</v>";
    assert_eq!(parse_vtt(vtt), "This has color tags and bold and italic Also speaker tags");
}

#[test]
fn test_parse_vtt_joins_lines() {
    let vtt = "WEBVTT\n\n00:00:01.000 --> 00:00:05.000\nLine one\ncontinues here\n\n00:00:05.500 --> 00:00:10.000\nLine two\nalso continues";
    assert_eq!(parse_vtt(vtt), "Line one continues here Line two also continues");
}

#[test]
fn test_parse_vtt_removes_subtitle_indices() {
    let vtt = "WEBVTT\n\n1\n00:00:01.000 --> 00:00:05.000\nFirst subtitle\n\n2\n00:00:05.500 --> 00:00:10.000\nSecond subtitle";
    assert_eq!(parse_vtt(vtt), "First subtitle Second subtitle");
}

#[test]
fn test_parse_vtt_handles_empty_input() {
    assert_eq!(parse_vtt(""), "");
}

#[test]
fn test_parse_vtt_handles_only_header() {
    assert_eq!(parse_vtt("WEBVTT\n\n"), "");
}

#[test]
fn test_parse_vtt_collapses_multiple_spaces() {
    let vtt = "WEBVTT\n\n00:00:01.000 --> 00:00:05.000\nMultiple    spaces     here\n\n00:00:05.500 --> 00:00:10.000\nAnd   more   spaces";
    assert_eq!(parse_vtt(vtt), "Multiple spaces here And more spaces");
}

#[test]
fn test_parse_vtt_complex_formatting() {
    let vtt = "WEBVTT\n\n1\n00:00:00.000 --> 00:00:02.500\n<c.colorE5E5E5>Welcome to the video!</c>\n\n2\n00:00:02.500 --> 00:00:05.000\n<v Speaker1>Today we'll discuss</v>\n<b>important topics</b>\n\n3\n00:00:05.000 --> 00:00:08.000\nIncluding <i>various</i> <c>formatting</c> options";
    assert_eq!(
        parse_vtt(vtt),
        "Welcome to the video! Today we'll discuss important topics Including various formatting options"
    );
}

#[test]
fn extracts_html_title_tag() {
    let html = "<html><head><title>Example Title</title></head><body><p>Hello</p></body></html>";
    let content = extract_page_content_from_html("https://example.com", html);
    assert_eq!(content.title, Some("Example Title".to_string()));
    assert_eq!(content.url, "https://example.com");
}

#[test]
fn prefers_og_title_over_html_title() {
    let html = r#"<html><head>
            <title>Regular Title</title>
            <meta property="og:title" content="OG Preferred Title" />
        </head><body><p>Hello</p></body></html>"#;
    let content = extract_page_content_from_html("https://example.com", html);
    assert_eq!(content.title, Some("OG Preferred Title".to_string()));
}

#[test]
fn extracts_meta_description() {
    let html = r#"<html><head>
            <meta name="description" content="A short summary" />
        </head><body><p>Hello</p></body></html>"#;
    let content = extract_page_content_from_html("https://example.com", html);
    assert_eq!(content.description, Some("A short summary".to_string()));
}

#[test]
fn extracts_readable_body_text_from_html() {
    let html = r#"<html><head><title>T</title></head><body>
            <header>Top Nav</header>
            <main>
                <h1>Ignored heading for now</h1>
                <p>Hello <strong>world</strong>.</p>
                <p>Second paragraph.</p>
            </main>
            <script>console.log('ignore me')</script>
            <footer>Bottom footer</footer>
        </body></html>"#;
    let content = extract_page_content_from_html("https://example.com", html);
    assert!(content.body_text.contains("Hello world."));
    assert!(content.body_text.contains("Second paragraph."));
    assert!(!content.body_text.contains("console.log"));
    assert_eq!(extract_body_text(html), content.body_text);
}

#[test]
fn handles_empty_minimal_html_gracefully() {
    let content = extract_page_content_from_html("http://127.0.0.1:1", "<html></html>");
    assert_eq!(content.title, None);
    assert_eq!(content.description, None);
    assert!(content.body_text.is_empty());
    assert_eq!(content.url, "http://127.0.0.1:1");
}

#[test]
fn normalize_text_squeezes_whitespace() {
    assert_eq!(normalize_text("  a \n\t b   c "), "a b c");
    assert_eq!(normalize_text("   "), "");
}

#[test]
fn html_content_type_detection() {
    assert!(is_html_content_type(Some("text/html; charset=utf-8")));
    assert!(is_html_content_type(Some("Application/XHTML+xml")));
    assert!(is_html_content_type(None));
    assert!(!is_html_content_type(Some("application/pdf")));
}

#[test]
fn returns_content_too_large_when_max_bytes_exceeded() {
    let head = check_response_head("https://example.com", true, "200 OK", Some(999999), Some("text/html"), 100);
    assert!(matches!(head, Err(UrlError::ContentTooLarge { .. })));
    assert_eq!(
        head,
        Err(UrlError::ContentTooLarge { url: "https://example.com".to_string(), size: 999999 })
    );
    assert_eq!(
        check_body_size("https://example.com", 2000, 1000),
        Err(UrlError::ContentTooLarge { url: "https://example.com".to_string(), size: 2000 })
    );
    assert_eq!(check_body_size("https://example.com", 1000, 1000), Ok(()));
}

#[test]
fn returns_timeout_when_request_exceeds_deadline() {
    let err = fetch_error("https://example.com", 1, true, "operation timed out");
    assert!(matches!(err, UrlError::Timeout { .. }));
    assert_eq!(err, UrlError::Timeout { url: "https://example.com".to_string(), timeout_secs: 1 });
}

#[test]
fn returns_fetch_failed_on_http_error_status() {
    let err = check_response_head("https://example.com", false, "404 Not Found", None, Some("text/html"), 1000);
    assert!(matches!(err, Err(UrlError::FetchFailed { .. })));
    assert_eq!(
        err,
        Err(UrlError::FetchFailed {
            url: "https://example.com".to_string(),
            reason: "HTTP 404 Not Found".to_string()
        })
    );
    assert_eq!(
        check_response_head("https://example.com", true, "200 OK", None, Some("text/html"), 1000),
        Ok(())
    );
    assert_eq!(
        check_response_head("https://example.com", true, "200 OK", None, Some("application/pdf"), 1000),
        Err(UrlError::ParseFailed("Response content type is not HTML".to_string()))
    );
}

#[test]
fn returns_fetch_failed_when_connection_cannot_be_established() {
    let err = fetch_error("http://127.0.0.1:9/unreachable", 1, false, "connection refused");
    assert!(matches!(err, UrlError::FetchFailed { .. } | UrlError::Timeout { .. }));
    assert_eq!(
        err,
        UrlError::FetchFailed {
            url: "http://127.0.0.1:9/unreachable".to_string(),
            reason: "connection refused".to_string()
        }
    );
}
