use htmx_shape::context::{request_context, ExtractionError, HtmxContext};
use htmx_shape::headers::{header_text, HeaderSet};
use htmx_shape::markup::{render_body_html, render_fragment, render_nav_links};
use htmx_shape::pages::{
    contains_text, fallible_handler, fallible_page, favicon_svg_handler, form_example,
    form_example_body, form_example_submit, home_handler, not_found_handler, validate_content,
    FormExamplePayload,
};
use htmx_shape::response::{
    map_resp_err, render_body_html_or_htmx, ResponseError, ShapedResponse, STATUS_BAD_REQUEST,
    STATUS_INTERNAL_SERVER_ERROR, STATUS_NOT_FOUND, STATUS_OK,
};

fn headers(pairs: &[(&str, &[u8])]) -> HeaderSet {
    let mut h = HeaderSet::new();
    for (name, value) in pairs {
        h.append(name, value.to_vec());
    }
    h
}

fn enhanced() -> HeaderSet {
    headers(&[("hx-request", b"true")])
}

fn header_of<'a>(r: &'a ShapedResponse, name: &str) -> Option<&'a str> {
    r.headers.iter().find(|(n, _)| n == name).map(|(_, v)| v.as_str())
}

fn context(target: Option<&str>) -> HtmxContext {
    HtmxContext { target: target.map(|t| t.to_string()), ..HtmxContext::default() }
}

#[test]
fn extract_without_marker_is_not_enhanced() {
    let h = headers(&[("hx-target", b"#main"), ("hx-boosted", b"true")]);
    assert_eq!(HtmxContext::try_from(&h), Err(ExtractionError::NotEnhanced));
    assert_eq!(HtmxContext::try_from(&HeaderSet::new()), Err(ExtractionError::NotEnhanced));
    assert!(request_context(&h).is_none());
}

#[test]
fn extract_reads_every_field() {
    let h = headers(&[
        ("hx-request", b"true"),
        ("hx-boosted", b"true"),
        ("hx-target", b"#main"),
        ("hx-trigger", b"btn"),
        ("hx-trigger-name", b"go"),
        ("hx-current-url", b"https://example.com/a?b=c"),
    ]);
    let c = HtmxContext::try_from(&h).unwrap();
    assert!(c.is_boost);
    assert_eq!(c.target.as_deref(), Some("#main"));
    assert_eq!(c.trigger.as_deref(), Some("btn"));
    assert_eq!(c.trigger_name.as_deref(), Some("go"));
    assert_eq!(c.current_url.unwrap().as_str(), "https://example.com/a?b=c");
}

#[test]
fn extract_marker_alone_gives_empty_context() {
    let c = HtmxContext::try_from(&enhanced()).unwrap();
    assert_eq!(c, HtmxContext::default());
}

#[test]
fn boost_needs_exact_true() {
    for v in [&b"True"[..], b"1", b"true ", b""] {
        let h = headers(&[("hx-request", b""), ("hx-boosted", v)]);
        assert!(!HtmxContext::try_from(&h).unwrap().is_boost);
    }
}

#[test]
fn extract_first_header_of_a_name_wins() {
    let h = headers(&[("hx-request", b"true"), ("hx-target", b"#a"), ("hx-target", b"#b")]);
    assert_eq!(HtmxContext::try_from(&h).unwrap().target.as_deref(), Some("#a"));
}

#[test]
fn extract_invalid_encoding_fails_whole() {
    let h = headers(&[("hx-request", b"true"), ("hx-target", b"#ok"), ("hx-trigger", b"a\xffb")]);
    assert_eq!(HtmxContext::try_from(&h), Err(ExtractionError::InvalidHeaderEncoding));
    let h = headers(&[("hx-request", b"true"), ("hx-trigger-name", b"line\nbreak")]);
    assert_eq!(HtmxContext::try_from(&h), Err(ExtractionError::InvalidHeaderEncoding));
    assert!(request_context(&h).is_none());
}

#[test]
fn extract_malformed_url_fails() {
    for v in [&b"not a url"[..], b"/relative/path", b""] {
        let h = headers(&[("hx-request", b"true"), ("hx-current-url", v)]);
        assert_eq!(HtmxContext::try_from(&h), Err(ExtractionError::InvalidUrl));
    }
}

#[test]
fn header_text_accepts_tab_and_visible_ascii() {
    assert_eq!(header_text(&b"a\tb ~".to_vec()).as_deref(), Some("a\tb ~"));
    assert_eq!(header_text(&b"\x7f".to_vec()), None);
    assert_eq!(header_text(&"é".as_bytes().to_vec()), None);
}

#[test]
fn escape_text_replaces_markup_characters() {
    assert_eq!(
        render_fragment("<a href=\"x\">&'</a>", "<b>"),
        "<title>&lt;a href=&quot;x&quot;&gt;&amp;'&lt;/a&gt;</title><b>"
    );
    assert_eq!(render_fragment("plain", ""), "<title>plain</title>");
}

#[test]
fn shape_is_idempotent() {
    let a = render_body_html_or_htmx(418, "T", "<p>b</p>", Some(context(Some("#x"))));
    let b = render_body_html_or_htmx(418, "T", "<p>b</p>", Some(context(Some("#x"))));
    assert_eq!((a.status, a.headers, a.body), (b.status, b.headers, b.body));
    let a = render_body_html_or_htmx(418, "T", "<p>b</p>", None);
    let b = render_body_html_or_htmx(418, "T", "<p>b</p>", None);
    assert_eq!((a.status, a.headers, a.body), (b.status, b.headers, b.body));
}

#[test]
fn shape_plain_mode_full_document() {
    let r = render_body_html_or_htmx(STATUS_BAD_REQUEST, "My <Title>", "<p>inner</p>", None);
    assert_eq!(r.status, STATUS_BAD_REQUEST);
    assert!(r.body.starts_with("<!DOCTYPE html><html><head><title>My &lt;Title&gt;</title>"));
    assert!(r.body.ends_with("<body hx-boost=\"true\" id=\"body\"><p>inner</p></body></html>"));
    assert_eq!(r.body, render_body_html("My <Title>", "<p>inner</p>"));
    assert_eq!(header_of(&r, "Content-Type"), Some("text/html"));
    assert_eq!(header_of(&r, "Vary"), Some("HX-Request"));
    assert_eq!(r.headers.len(), 2);
}

#[test]
fn shape_enhanced_mode_fragment() {
    let r = render_body_html_or_htmx(STATUS_BAD_REQUEST, "Title", "<p>inner</p>", Some(context(None)));
    assert_eq!(r.status, STATUS_OK);
    assert_eq!(r.body, "<title>Title</title><p>inner</p>");
    assert!(!r.body.contains("<html>"));
    assert_eq!(header_of(&r, "Content-Type"), Some("text/html"));
    assert_eq!(header_of(&r, "Vary"), Some("HX-Request"));
}

#[test]
fn shape_enhanced_overrides_error_status() {
    for code in [STATUS_NOT_FOUND, STATUS_INTERNAL_SERVER_ERROR, 302] {
        assert_eq!(render_body_html_or_htmx(code, "t", "b", Some(context(None))).status, STATUS_OK);
        assert_eq!(render_body_html_or_htmx(code, "t", "b", None).status, code);
    }
}

#[test]
fn shape_retargets_unknown_target() {
    let r = render_body_html_or_htmx(STATUS_OK, "t", "b", Some(context(Some("#wrong"))));
    assert_eq!(header_of(&r, "HX-Retarget"), Some("#body"));
    assert_eq!(header_of(&r, "HX-Reswap"), Some("innerHTML"));
    assert_eq!(r.headers.len(), 4);
}

#[test]
fn shape_keeps_default_or_absent_target() {
    for target in [Some("#body"), None] {
        let r = render_body_html_or_htmx(STATUS_OK, "t", "b", Some(context(target)));
        assert_eq!(header_of(&r, "HX-Retarget"), None);
        assert_eq!(header_of(&r, "HX-Reswap"), None);
    }
    let r = render_body_html_or_htmx(STATUS_OK, "t", "b", None);
    assert_eq!(header_of(&r, "HX-Retarget"), None);
}

#[test]
fn error_pages_differ_only_in_description() {
    let a = ResponseError::new(None, "first <failure>".to_string()).into_response();
    let b = ResponseError::new(None, "second".to_string()).into_response();
    assert_eq!(a.status, STATUS_INTERNAL_SERVER_ERROR);
    assert_eq!(a.headers, b.headers);
    assert!(a.body.contains("<code>first &lt;failure&gt;</code>"));
    assert_eq!(a.body.replace("first &lt;failure&gt;", "X"), b.body.replace("second", "X"));
    let c = ResponseError::new(Some(HtmxContext::default()), "boom".to_string()).into_response();
    assert_eq!(c.status, STATUS_OK);
    assert!(c.body.starts_with("<title>Internal Error</title><main class=\"container\">"));
    assert!(c.body.contains(&render_nav_links()));
    assert!(c.body.contains("An internal error has occurred."));
}

#[test]
fn map_resp_err_keeps_context_and_value() {
    let ok: Result<u32, String> = Ok(7);
    assert_eq!(map_resp_err(ok, None).ok(), Some(7));
    let bad: Result<u32, String> = Err("nope".to_string());
    let e = map_resp_err(bad, Some(context(Some("#x")))).err().unwrap();
    assert_eq!(e.err, "nope");
    assert_eq!(e.htmx_context, Some(context(Some("#x"))));
}

#[test]
fn scenario_plain_home_page() {
    let r = home_handler(&HeaderSet::new());
    assert_eq!(r.status, STATUS_OK);
    assert!(r.body.starts_with("<!DOCTYPE html><html>"));
    assert!(r.body.contains(&render_nav_links()));
    assert!(r.body.contains("<h1>Home</h1>"));
    assert!(r.body.contains("<title>Home page</title>"));
}

#[test]
fn scenario_enhanced_home_page() {
    let r = home_handler(&enhanced());
    assert_eq!(r.status, STATUS_OK);
    assert!(!r.body.contains("<html>"));
    assert!(r.body.starts_with("<title>Home page</title>"));
    assert_eq!(header_of(&r, "HX-Retarget"), None);
}

#[test]
fn scenario_wrong_target_retargeted() {
    let h = headers(&[("hx-request", b"true"), ("hx-target", b"#wrong")]);
    for r in [home_handler(&h), form_example(&h), not_found_handler("GET", "/x", &h)] {
        assert_eq!(header_of(&r, "HX-Retarget"), Some("#body"));
        assert_eq!(header_of(&r, "HX-Reswap"), Some("innerHTML"));
    }
}

#[test]
fn scenario_empty_form_enhanced() {
    let r = form_example_submit(&enhanced(), FormExamplePayload { content: String::new() });
    assert_eq!(r.status, STATUS_OK);
    assert!(r.body.contains("Content is empty"));
    assert!(!r.body.contains("<html>"));
}

#[test]
fn scenario_non_ascii_form_plain() {
    let r = form_example_submit(&HeaderSet::new(), FormExamplePayload { content: "héllo".to_string() });
    assert_eq!(r.status, STATUS_BAD_REQUEST);
    assert!(r.body.starts_with("<!DOCTYPE html>"));
    assert!(r.body.contains("Content is not ascii"));
    assert!(r.body.contains("value=\"héllo\""));
}

#[test]
fn scenario_valid_form() {
    let r = form_example_submit(&HeaderSet::new(), FormExamplePayload { content: "hi".to_string() });
    assert_eq!(r.status, STATUS_OK);
    assert!(r.body.contains("<strong>Success</strong><p>Content was valid</p>"));
    assert!(r.body.contains("value=\"\""));
}

#[test]
fn scenario_not_found_json() {
    let h = headers(&[("accept", b"application/json")]);
    let r = not_found_handler("GET", "/nowhere", &h);
    assert_eq!(r.status, STATUS_NOT_FOUND);
    assert!(r.body.is_empty());
    assert!(r.headers.is_empty());
}

#[test]
fn not_found_page_for_html_clients() {
    for accept in [Some(&b"text/html,application/xhtml+xml"[..]), Some(b"*/*"), Some(b"\xff"), None] {
        let h = match accept {
            Some(a) => headers(&[("accept", a)]),
            None => HeaderSet::new(),
        };
        let r = not_found_handler("POST", "/a<b", &h);
        assert_eq!(r.status, STATUS_OK);
        assert!(r.body.contains("<code>POST</code> <code>/a&lt;b</code> not found"));
    }
}

#[test]
fn validate_content_messages() {
    assert_eq!(validate_content("").as_deref(), Some("Content is empty"));
    assert_eq!(validate_content("ünï").as_deref(), Some("Content is not ascii"));
    assert_eq!(validate_content("fine text"), None);
}

#[test]
fn form_body_shows_notices() {
    let b = form_example_body(Some("ok".into()), Some("<bad>".into()), FormExamplePayload { content: "a\"b".into() });
    assert!(b.contains("<div><strong>Success</strong><p>ok</p></div><div><strong>Error</strong><p>&lt;bad&gt;</p></div>"));
    assert!(b.contains("value=\"a&quot;b\""));
}

#[test]
fn contains_text_cases() {
    assert!(contains_text("text/html", "text/html"));
    assert!(contains_text("a, */*;q=0.8", "*/*"));
    assert!(!contains_text("text/htm", "text/html"));
    assert!(contains_text("abc", ""));
    assert!(!contains_text("", "a"));
}

#[test]
fn fallible_outcomes() {
    let lucky = fallible_page(&HeaderSet::new(), false).ok().unwrap();
    assert_eq!(lucky.status, STATUS_OK);
    assert!(lucky.body.contains("You were lucky!"));
    let e = fallible_page(&enhanced(), true).err().unwrap();
    assert_eq!(e.err, "request was unlucky");
    assert!(e.htmx_context.is_some());
    let r = e.into_response();
    assert_eq!(r.status, STATUS_OK);
    assert!(r.body.contains("<code>request was unlucky</code>"));
    match fallible_handler(&HeaderSet::new()) {
        Ok(r) => assert!(r.body.contains("Lucky you")),
        Err(e) => assert_eq!(e.err, "request was unlucky"),
    }
}

#[test]
fn favicon_is_svg() {
    let r = favicon_svg_handler();
    assert_eq!(r.status, STATUS_OK);
    assert_eq!(header_of(&r, "Content-Type"), Some("image/svg+xml"));
    assert!(r.body.starts_with("<svg"));
}
