//! The pages of the site, each shaped for the request that asked for it.
use vstd::prelude::*;
use crate::context::{describes, extraction_error, opt_view, request_context};
use crate::headers::{chars_of, header_text, is_text, HeaderSet};
use crate::markup::{escape_text, html_escaped, page, render_page};
use crate::response::{
    header_view, is_shaped_for_request, render_body_html_or_htmx, ResponseError,
    ShapedResponse, STATUS_BAD_REQUEST, STATUS_NOT_FOUND, STATUS_OK,
};

verus! {

/// Shapes with the context of `h`, as every page does.
fn shape_for_request(code: u16, title: &str, inner: &str, h: &HeaderSet) -> (r: ShapedResponse)
    ensures
        is_shaped_for_request(r, code, title@, inner@, *h),
{
    let ctx = request_context(h);
    render_body_html_or_htmx(code, title, inner, ctx)
}

/// The rest of the home page after the navigation links.
pub const HOME_REST: &'static str = "<h1>Home</h1></header><section><p>This is the home page.</p></section></main>";

/// The rest of the lucky page after the navigation links.
pub const LUCKY_REST: &'static str = "<h1>Lucky you</h1></header><section><p>You were lucky!</p></section></main>";

/// The failure that the fallible page reports when the draw goes against it.
pub const UNLUCKY: &'static str = "request was unlucky";

/// The home page.
pub fn home_handler(h: &HeaderSet) -> (r: ShapedResponse)
    ensures
        is_shaped_for_request(r, STATUS_OK, "Home page"@, page(HOME_REST@), *h),
{
    let body = render_page(HOME_REST);
    shape_for_request(STATUS_OK, "Home page", body.as_str(), h)
}

/// The fallible page after the draw: a failure carrying the request's context
/// when `unlucky`, the lucky page otherwise.
pub fn fallible_page(h: &HeaderSet, unlucky: bool) -> (r: Result<ShapedResponse, ResponseError>)
    ensures
        r is Err <==> unlucky,
        r is Ok ==> is_shaped_for_request(r->Ok_0, STATUS_OK, "Lucky!"@, page(LUCKY_REST@), *h),
        r is Err ==> r->Err_0.err@ == UNLUCKY@ && r->Err_0.htmx_context.is_some()
            == extraction_error(*h).is_none() && (r->Err_0.htmx_context.is_some() ==> describes(
            r->Err_0.htmx_context->0,
            *h,
        )),
{
    let ctx = request_context(h);
    if unlucky {
        return Err(ResponseError::new(ctx, UNLUCKY.to_owned()));
    }
    let body = render_page(LUCKY_REST);
    Ok(render_body_html_or_htmx(STATUS_OK, "Lucky!", body.as_str(), ctx))
}

/// Relies on `rand::random`: a value drawn from the thread-local generator, of
/// which nothing is promised.
pub assume_specification<T>[ rand::random::<T> ]() -> (r: T)
    where
        rand::distributions::Standard: rand::distributions::Distribution<T>,
;

/// The fallible page: draws whether this request is unlucky, then fails or
/// shows the lucky page.
pub fn fallible_handler(h: &HeaderSet) -> (r: Result<ShapedResponse, ResponseError>)
    ensures
        r is Ok ==> is_shaped_for_request(r->Ok_0, STATUS_OK, "Lucky!"@, page(LUCKY_REST@), *h),
        r is Err ==> r->Err_0.err@ == UNLUCKY@ && r->Err_0.htmx_context.is_some()
            == extraction_error(*h).is_none(),
{
    let unlucky = rand::random::<bool>();
    fallible_page(h, unlucky)
}

/// The fields of the example form.
#[derive(Debug, Default, Clone)]
pub struct FormExamplePayload {
    pub content: String,
}

/// The form page after the navigation links, up to the notices.
pub const FORM_HEAD: &'static str = "<h1>Example form</h1></header><section>";

/// Opens a success notice.
pub const SUCCESS_OPEN: &'static str = "<div><strong>Success</strong><p>";

/// Opens an error notice.
pub const PROBLEM_OPEN: &'static str = "<div><strong>Error</strong><p>";

/// Closes a notice.
pub const NOTICE_CLOSE: &'static str = "</p></div>";

/// The form, up to the value of its content field.
pub const FORM_OPEN: &'static str = "<form action=\"/form-example\" method=\"post\"><input type=\"text\" name=\"content\" value=\"";

/// The form after the value of its content field, and the end of the page.
pub const FORM_CLOSE: &'static str = "\"><button type=\"submit\">Submit</button></form></section></main>";

/// The message shown after a valid submission.
pub const CONTENT_VALID: &'static str = "Content was valid";

/// The title of the form page.
pub const FORM_TITLE: &'static str = "Example form";

/// A notice with an escaped message, or nothing.
pub open spec fn notice(open: Seq<char>, message: Option<Seq<char>>) -> Seq<char> {
    match message {
        Some(m) => open + html_escaped(m) + NOTICE_CLOSE@,
        None => Seq::empty(),
    }
}

/// The form page: the notices that are given, then the form with its field
/// filled with `content`.
pub open spec fn form_body(
    success: Option<Seq<char>>,
    problem: Option<Seq<char>>,
    content: Seq<char>,
) -> Seq<char> {
    page(
        FORM_HEAD@ + notice(SUCCESS_OPEN@, success) + notice(PROBLEM_OPEN@, problem) + FORM_OPEN@
            + html_escaped(content) + FORM_CLOSE@,
    )
}

fn render_notice(out: &mut String, open: &str, message: &Option<String>)
    ensures
        final(out)@ == old(out)@ + notice(open@, opt_view(*message)),
{
    match message {
        Some(m) => {
            out.append(open);
            let esc = escape_text(m.as_str());
            out.append(esc.as_str());
            out.append(NOTICE_CLOSE);
        },
        None => {
            assert(out@ =~= old(out)@ + Seq::<char>::empty());
        },
    }
}

/// The page body of the form page, with an optional success notice, an
/// optional error notice, and the field filled from `previous_payload`.
pub fn form_example_body(
    success_message: Option<String>,
    previous_error: Option<String>,
    previous_payload: FormExamplePayload,
) -> (r: String)
    ensures
        r@ == form_body(
            opt_view(success_message),
            opt_view(previous_error),
            previous_payload.content@,
        ),
{
    let mut rest = FORM_HEAD.to_owned();
    render_notice(&mut rest, SUCCESS_OPEN, &success_message);
    render_notice(&mut rest, PROBLEM_OPEN, &previous_error);
    rest.append(FORM_OPEN);
    let esc = escape_text(previous_payload.content.as_str());
    rest.append(esc.as_str());
    rest.append(FORM_CLOSE);
    let r = render_page(rest.as_str());
    assert(r@ =~= form_body(
        opt_view(success_message),
        opt_view(previous_error),
        previous_payload.content@,
    ));
    r
}

/// The form page, empty.
pub fn form_example(h: &HeaderSet) -> (r: ShapedResponse)
    ensures
        is_shaped_for_request(r, STATUS_OK, FORM_TITLE@, form_body(None, None, Seq::empty()), *h),
{
    let body = form_example_body(None, None, FormExamplePayload { content: String::new() });
    shape_for_request(STATUS_OK, FORM_TITLE, body.as_str(), h)
}

/// Why submitted content is refused: it is empty, or it holds a character
/// outside ASCII.
pub open spec fn content_problem(content: Seq<char>) -> Option<Seq<char>> {
    if content.len() == 0 {
        Some("Content is empty"@)
    } else if !vstd::utf8::is_ascii_chars(content) {
        Some("Content is not ascii"@)
    } else {
        None
    }
}

/// Checks submitted content, giving the message that refuses it.
pub fn validate_content(content: &str) -> (r: Option<String>)
    ensures
        opt_view(r) == content_problem(content@),
{
    if content.is_empty() {
        Some("Content is empty".to_owned())
    } else if !content.is_ascii() {
        Some("Content is not ascii".to_owned())
    } else {
        None
    }
}

/// A submission of the form: the form again with the error and the submitted
/// content when it is refused, with a failure status; else the form, empty,
/// with a success notice.
pub fn form_example_submit(h: &HeaderSet, payload: FormExamplePayload) -> (r: ShapedResponse)
    ensures
        content_problem(payload.content@) is Some ==> is_shaped_for_request(
            r,
            STATUS_BAD_REQUEST,
            FORM_TITLE@,
            form_body(None, content_problem(payload.content@), payload.content@),
            *h,
        ),
        content_problem(payload.content@) is None ==> is_shaped_for_request(
            r,
            STATUS_OK,
            FORM_TITLE@,
            form_body(Some(CONTENT_VALID@), None, Seq::empty()),
            *h,
        ),
{
    match validate_content(payload.content.as_str()) {
        Some(e) => {
            let body = form_example_body(None, Some(e), payload);
            shape_for_request(STATUS_BAD_REQUEST, FORM_TITLE, body.as_str(), h)
        },
        None => {
            let body = form_example_body(
                Some(CONTENT_VALID.to_owned()),
                None,
                FormExamplePayload { content: String::new() },
            );
            shape_for_request(STATUS_OK, FORM_TITLE, body.as_str(), h)
        },
    }
}

/// Whether `needle` occurs as a contiguous run of characters in `hay`.
pub open spec fn has_infix(hay: Seq<char>, needle: Seq<char>) -> bool {
    exists|i: int|
        0 <= i && i + needle.len() <= hay.len() && #[trigger] hay.subrange(i, i + needle.len())
            == needle
}

/// Searches `hay` for `needle`.
pub fn contains_text(hay: &str, needle: &str) -> (r: bool)
    ensures
        r == has_infix(hay@, needle@),
{
    let n = hay.unicode_len();
    let m = needle.unicode_len();
    if m > n {
        return false;
    }
    let mut i: usize = 0;
    while i <= n - m
        invariant
            n == hay@.len(),
            m == needle@.len(),
            m <= n,
            0 <= i <= n - m + 1,
            forall|k: int| 0 <= k < i ==> #[trigger] hay@.subrange(k, k + m) != needle@,
        decreases n - m + 1 - i,
    {
        let mut j: usize = 0;
        while j < m && hay.get_char(i + j) == needle.get_char(j)
            invariant
                n == hay@.len(),
                m == needle@.len(),
                i + m <= n,
                0 <= j <= m,
                forall|l: int| 0 <= l < j ==> hay@[i + l] == needle@[l],
            decreases m - j,
        {
            j = j + 1;
        }
        if j == m {
            assert(hay@.subrange(i as int, i + m) =~= needle@);
            return true;
        }
        assert(hay@.subrange(i as int, i + m)[j as int] != needle@[j as int]);
        i = i + 1;
    }
    false
}

/// The header that lists the content types a client accepts.
pub const ACCEPT: &'static str = "accept";

/// Whether the client takes HTML: yes without a readable `accept` header, else
/// when it names HTML or any type.
pub open spec fn accepts_html(h: HeaderSet) -> bool {
    let v = h.value_of(ACCEPT@);
    v.is_none() || !is_text(v->0) || has_infix(chars_of(v->0), "text/html"@) || has_infix(
        chars_of(v->0),
        "*/*"@,
    )
}

/// The rest of the not-found page after the navigation links.
pub open spec fn not_found_rest(method: Seq<char>, path: Seq<char>) -> Seq<char> {
    "<h1>Not Found</h1></header><section><p><code>"@ + html_escaped(method) + "</code> <code>"@
        + html_escaped(path) + "</code> not found</p></section></main>"@
}

/// The answer to a request that matches no route: a bare not-found status for
/// a client that takes no HTML, else the not-found page.
pub fn not_found_handler(method: &str, path: &str, h: &HeaderSet) -> (r: ShapedResponse)
    ensures
        !accepts_html(*h) ==> r.status == STATUS_NOT_FOUND && r.headers@.len() == 0
            && r.body@.len() == 0,
        accepts_html(*h) ==> is_shaped_for_request(
            r,
            STATUS_OK,
            "Not found"@,
            page(not_found_rest(method@, path@)),
            *h,
        ),
{
    let accept_html = match h.get(ACCEPT) {
        Some(v) => match header_text(&v) {
            Some(t) => contains_text(t.as_str(), "text/html") || contains_text(t.as_str(), "*/*"),
            None => true,
        },
        None => true,
    };
    if !accept_html {
        return ShapedResponse { status: STATUS_NOT_FOUND, headers: Vec::new(), body: String::new() };
    }
    let mut rest = "<h1>Not Found</h1></header><section><p><code>".to_owned();
    let m = escape_text(method);
    rest.append(m.as_str());
    rest.append("</code> <code>");
    let p = escape_text(path);
    rest.append(p.as_str());
    rest.append("</code> not found</p></section></main>");
    let body = render_page(rest.as_str());
    shape_for_request(STATUS_OK, "Not found", body.as_str(), h)
}

/// The site icon, in SVG.
pub const FAVICON_SVG: &'static str = "<svg xmlns=\"http://www.w3.org/2000/svg\" viewBox=\"0 0 100 100\"><rect width=\"100\" height=\"100\" fill=\"black\"/></svg>";

/// The site icon, served as is whatever the request.
pub fn favicon_svg_handler() -> (r: ShapedResponse)
    ensures
        r.status == STATUS_OK,
        header_view(r.headers@) == seq![("Content-Type"@, "image/svg+xml"@)],
        r.body@ == FAVICON_SVG@,
{
    let mut headers: Vec<(String, String)> = Vec::new();
    headers.push(("Content-Type".to_owned(), "image/svg+xml".to_owned()));
    let r = ShapedResponse { status: STATUS_OK, headers, body: FAVICON_SVG.to_owned() };
    assert(header_view(r.headers@) =~= seq![("Content-Type"@, "image/svg+xml"@)]);
    r
}

} // verus!
