//! The shaper: one entry point that decides between a full document and a
//! fragment, sets the headers, and renders errors the same way everywhere.
use vstd::prelude::*;
use crate::context::{extraction_error, HtmxContext, HX_TARGET};
use crate::headers::{chars_of, HeaderSet};
use crate::markup::{
    document, escape_text, fragment, html_escaped, page, render_body_html, render_fragment,
    render_page,
};

verus! {

/// The success status; htmx only swaps content delivered with it.
pub const STATUS_OK: u16 = 200;

/// The status of a rejected form submission.
pub const STATUS_BAD_REQUEST: u16 = 400;

/// The status of a request that matches no route.
pub const STATUS_NOT_FOUND: u16 = 404;

/// The status of a failure while building a page.
pub const STATUS_INTERNAL_SERVER_ERROR: u16 = 500;

/// The identifier of the default swap container.
pub const DEFAULT_TARGET: &'static str = "#body";

/// The title of the error page.
pub const ERROR_TITLE: &'static str = "Internal Error";

/// Error page markup from the end of the navigation links to the description.
pub const ERROR_MID: &'static str = "<h1>Internal error</h1></header><section><p>An internal error has occurred. Please navigate back using the links above.</p><code>";

/// Error page markup after the description.
pub const ERROR_CLOSE: &'static str = "</code></section></main>";

/// A response ready to be sent: status, headers in order, and body.
pub struct ShapedResponse {
    pub status: u16,
    pub headers: Vec<(String, String)>,
    pub body: String,
}

/// Header names and values as text.
pub open spec fn header_view(h: Seq<(String, String)>) -> Seq<(Seq<char>, Seq<char>)> {
    h.map_values(|p: (String, String)| (p.0@, p.1@))
}

/// Whether the context asks for a swap target other than the default container.
pub open spec fn needs_retarget(ctx: Option<HtmxContext>) -> bool {
    &&& ctx is Some
    &&& ctx->0.target is Some
    &&& ctx->0.target->0@ != DEFAULT_TARGET@
}

/// The headers present on every shaped response.
pub open spec fn base_headers() -> Seq<(Seq<char>, Seq<char>)> {
    seq![("Content-Type"@, "text/html"@), ("Vary"@, "HX-Request"@)]
}

/// The headers that send the swap back to the whole default container.
pub open spec fn retarget_headers() -> Seq<(Seq<char>, Seq<char>)> {
    seq![("HX-Retarget"@, DEFAULT_TARGET@), ("HX-Reswap"@, "innerHTML"@)]
}

/// The headers of a shaped response.
pub open spec fn shaped_headers(ctx: Option<HtmxContext>) -> Seq<(Seq<char>, Seq<char>)> {
    if needs_retarget(ctx) {
        base_headers() + retarget_headers()
    } else {
        base_headers()
    }
}

/// The status of a shaped response: the caller's, but success for htmx.
pub open spec fn shaped_status(status: u16, ctx: Option<HtmxContext>) -> u16 {
    if ctx is Some {
        STATUS_OK
    } else {
        status
    }
}

/// The body of a shaped response: a full document for a plain navigation, a
/// fragment for htmx.
pub open spec fn shaped_body(title: Seq<char>, inner: Seq<char>, ctx: Option<HtmxContext>) -> Seq<
    char,
> {
    if ctx is Some {
        fragment(title, inner)
    } else {
        document(title, inner)
    }
}

/// Whether `r` is what shaping these inputs gives.
pub open spec fn is_shaped(
    r: ShapedResponse,
    status: u16,
    title: Seq<char>,
    inner: Seq<char>,
    ctx: Option<HtmxContext>,
) -> bool {
    &&& r.status == shaped_status(status, ctx)
    &&& header_view(r.headers@) == shaped_headers(ctx)
    &&& r.body@ == shaped_body(title, inner, ctx)
}

/// Whether `r` is what shaping these inputs gives, with the context that the
/// headers `h` yield: fragment mode exactly when extraction from `h` succeeds.
pub open spec fn is_shaped_for_request(
    r: ShapedResponse,
    status: u16,
    title: Seq<char>,
    inner: Seq<char>,
    h: HeaderSet,
) -> bool {
    let enhanced = extraction_error(h).is_none();
    let target = h.value_of(HX_TARGET@);
    let retarget = enhanced && target.is_some() && chars_of(target->0) != DEFAULT_TARGET@;
    &&& r.status == (if enhanced {
        STATUS_OK
    } else {
        status
    })
    &&& header_view(r.headers@) == (if retarget {
        base_headers() + retarget_headers()
    } else {
        base_headers()
    })
    &&& r.body@ == (if enhanced {
        fragment(title, inner)
    } else {
        document(title, inner)
    })
}

fn header(name: &str, value: &str) -> (r: (String, String))
    ensures
        r.0@ == name@,
        r.1@ == value@,
{
    (name.to_owned(), value.to_owned())
}

/// Renders either the whole document, or just the content to swap into the
/// default container, with the headers that go with it.
pub fn render_body_html_or_htmx(
    code: u16,
    title: &str,
    inner: &str,
    htmx_context: Option<HtmxContext>,
) -> (r: ShapedResponse)
    ensures
        is_shaped(r, code, title@, inner@, htmx_context),
{
    let mut headers: Vec<(String, String)> = Vec::new();
    headers.push(header("Content-Type", "text/html"));
    headers.push(header("Vary", "HX-Request"));
    let ghost ctx = htmx_context;
    match htmx_context {
        Some(hc) => {
            let retarget = match &hc.target {
                Some(t) => {
                    let default_target = DEFAULT_TARGET.to_owned();
                    !(*t == default_target)
                },
                None => false,
            };
            if retarget {
                headers.push(header("HX-Retarget", DEFAULT_TARGET));
                headers.push(header("HX-Reswap", "innerHTML"));
            }
            assert(header_view(headers@) =~= shaped_headers(ctx));
            ShapedResponse { status: STATUS_OK, headers, body: render_fragment(title, inner) }
        },
        None => {
            assert(header_view(headers@) =~= shaped_headers(ctx));
            ShapedResponse { status: code, headers, body: render_body_html(title, inner) }
        },
    }
}

/// The error page around an escaped description.
pub open spec fn error_page(description: Seq<char>) -> Seq<char> {
    page(ERROR_MID@ + html_escaped(description) + ERROR_CLOSE@)
}

/// A failure while building a page, with the htmx context captured where it happened.
pub struct ResponseError {
    /// Decides between the whole document and the fragment for the error page.
    pub htmx_context: Option<HtmxContext>,
    /// What went wrong.
    pub err: String,
}

impl ResponseError {
    /// Pairs a failure with the context of the request it happened in.
    pub fn new(htmx_context: Option<HtmxContext>, err: String) -> (r: ResponseError)
        ensures
            r.htmx_context == htmx_context,
            r.err == err,
    {
        ResponseError { htmx_context, err }
    }

    /// Renders the uniform error page, shaped for the captured context.
    pub fn into_response(self) -> (r: ShapedResponse)
        ensures
            is_shaped(
                r,
                STATUS_INTERNAL_SERVER_ERROR,
                ERROR_TITLE@,
                error_page(self.err@),
                self.htmx_context,
            ),
    {
        let mut rest = ERROR_MID.to_owned();
        let esc = escape_text(self.err.as_str());
        rest.append(esc.as_str());
        rest.append(ERROR_CLOSE);
        let body = render_page(rest.as_str());
        render_body_html_or_htmx(
            STATUS_INTERNAL_SERVER_ERROR,
            ERROR_TITLE,
            body.as_str(),
            self.htmx_context,
        )
    }
}

/// Turns the failure of `r` into a [`ResponseError`] that carries `htmx`.
pub fn map_resp_err<T>(r: Result<T, String>, htmx: Option<HtmxContext>) -> (out: Result<
    T,
    ResponseError,
>)
    ensures
        match (r, out) {
            (Ok(a), Ok(b)) => a == b,
            (Err(e), Err(f)) => f.err == e && f.htmx_context == htmx,
            _ => false,
        },
{
    match r {
        Ok(v) => Ok(v),
        Err(e) => Err(ResponseError { htmx_context: htmx, err: e }),
    }
}

} // verus!
