//! HTML text: escaping of inert text and the document shell around a body.
use vstd::prelude::*;

verus! {

/// What an escaped rendering of a single character is.
pub open spec fn escaped_char(c: char) -> Seq<char> {
    if c == '&' {
        seq!['&', 'a', 'm', 'p', ';']
    } else if c == '<' {
        seq!['&', 'l', 't', ';']
    } else if c == '>' {
        seq!['&', 'g', 't', ';']
    } else if c == '"' {
        seq!['&', 'q', 'u', 'o', 't', ';']
    } else {
        seq![c]
    }
}

/// Text rendered as inert HTML: each markup-significant character replaced by its entity.
pub open spec fn html_escaped(s: Seq<char>) -> Seq<char>
    decreases s.len(),
{
    if s.len() == 0 {
        Seq::empty()
    } else {
        html_escaped(s.drop_last()) + escaped_char(s.last())
    }
}

/// Relies on maud's `Render` impl for `str`, which writes each byte through its escaper:
/// `&`, `<`, `>` and `"` become entities, every other character is copied.
#[verifier::external_body]
pub(crate) fn escape_text(s: &str) -> (r: String)
    ensures
        r@ == html_escaped(s@),
{
    maud::Render::render(s).into_string()
}

/// Start of a full document, up to the text of its title.
pub const DOC_OPEN: &'static str = "<!DOCTYPE html><html><head><title>";

/// From the end of the title to the opening of the default swap container.
pub const DOC_HEAD_REST: &'static str = "</title><style>/*! modern-normalize v3.0.1 | MIT License | https://github.com/sindresorhus/modern-normalize */*,::after,::before{box-sizing:border-box}html{font-family:system-ui,'Segoe UI',Roboto,Helvetica,Arial,sans-serif,'Apple Color Emoji','Segoe UI Emoji';line-height:1.15;-webkit-text-size-adjust:100%;tab-size:4}body{margin:0}b,strong{font-weight:bolder}code,kbd,pre,samp{font-family:ui-monospace,SFMono-Regular,Consolas,'Liberation Mono',Menlo,monospace;font-size:1em}small{font-size:80%}sub,sup{font-size:75%;line-height:0;position:relative;vertical-align:baseline}sub{bottom:-.25em}sup{top:-.5em}table{border-color:currentcolor}button,input,optgroup,select,textarea{font-family:inherit;font-size:100%;line-height:1.15;margin:0}[type=button],[type=reset],[type=submit],button{-webkit-appearance:button}legend{padding:0}progress{vertical-align:baseline}::-webkit-inner-spin-button,::-webkit-outer-spin-button{height:auto}[type=search]{-webkit-appearance:textfield;outline-offset:-2px}::-webkit-search-decoration{-webkit-appearance:none}::-webkit-file-upload-button{-webkit-appearance:button;font:inherit}summary{display:list-item}</style><link rel=\"stylesheet\" href=\"https://cdnjs.cloudflare.com/ajax/libs/milligram/1.4.1/milligram.min.css\" integrity=\"sha512-xiunq9hpKsIcz42zt0o2vCo34xV0j6Ny8hgEylN3XBglZDtTZ2nwnqF/Z/TTCc18sGdvCjbFInNd++6q3J0N6g==\" crossorigin=\"anonymous\" referrerpolicy=\"no-referrer\"><link rel=\"shortcut icon\" type=\"image/svg\" href=\"/favicon.svg\"><script src=\"https://cdnjs.cloudflare.com/ajax/libs/htmx/2.0.4/htmx.min.js\" integrity=\"sha512-2kIcAizYXhIn8TzUvqzEDZNuDZ+aW7yE/+f1HJHXFjQcGNfv1kqzJSTBRBSlOgp6B/KZsz1K0a3ZTqP9dnxioQ==\" crossorigin=\"anonymous\" referrerpolicy=\"no-referrer\"></script></head><body hx-boost=\"true\" id=\"body\">";

/// Closes the default swap container and the document.
pub const DOC_CLOSE: &'static str = "</body></html>";

/// Opens the inline title update of a fragment.
pub const TITLE_OPEN: &'static str = "<title>";

/// Closes the inline title update of a fragment.
pub const TITLE_CLOSE: &'static str = "</title>";

/// The navigation links at the top of every page.
pub const NAV_LINKS: &'static str = "<nav><a href=\"/\">home </a> | <a href=\"/fallible\">fallible</a> | <a href=\"/does-not-exist\">does-not-exist</a> | <a href=\"/form-example\">form-example</a></nav>";

/// Opens the main container of a page and its header.
pub const PAGE_OPEN: &'static str = "<main class=\"container\"><header>";

/// A page of the site: the main container, whose header starts with the
/// navigation links, followed by `rest`.
pub open spec fn page(rest: Seq<char>) -> Seq<char> {
    PAGE_OPEN@ + NAV_LINKS@ + rest
}

/// Renders a page of the site around `rest`.
pub fn render_page(rest: &str) -> (r: String)
    ensures
        r@ == page(rest@),
{
    let mut out = PAGE_OPEN.to_owned();
    let nav = render_nav_links();
    out.append(nav.as_str());
    out.append(rest);
    out
}

/// A full document: head metadata with the escaped title and the static assets,
/// and `inner` as the whole content of the default swap container.
pub open spec fn document(title: Seq<char>, inner: Seq<char>) -> Seq<char> {
    DOC_OPEN@ + html_escaped(title) + DOC_HEAD_REST@ + inner + DOC_CLOSE@
}

/// A swappable fragment: an inline title update followed by `inner`.
pub open spec fn fragment(title: Seq<char>, inner: Seq<char>) -> Seq<char> {
    TITLE_OPEN@ + html_escaped(title) + TITLE_CLOSE@ + inner
}

/// Wraps `inner` in the full document shell with the given title.
pub fn render_body_html(title: &str, inner: &str) -> (r: String)
    ensures
        r@ == document(title@, inner@),
{
    let mut out = DOC_OPEN.to_owned();
    let esc = escape_text(title);
    out.append(esc.as_str());
    out.append(DOC_HEAD_REST);
    out.append(inner);
    out.append(DOC_CLOSE);
    out
}

/// Emits `inner` preceded by an inline title update.
pub fn render_fragment(title: &str, inner: &str) -> (r: String)
    ensures
        r@ == fragment(title@, inner@),
{
    let mut out = TITLE_OPEN.to_owned();
    let esc = escape_text(title);
    out.append(esc.as_str());
    out.append(TITLE_CLOSE);
    out.append(inner);
    out
}

/// The navigation links repeated at the top of every page.
pub fn render_nav_links() -> (r: String)
    ensures
        r@ == NAV_LINKS@,
{
    NAV_LINKS.to_owned()
}

} // verus!
