//! Laws that relate the extractor and the shaper over all inputs.
use vstd::prelude::*;
use crate::context::{
    extraction_error, text_or_absent, url_accepts, ExtractionError, HtmxContext, HX_CURRENT_URL,
    HX_REQUEST, HX_TARGET, HX_TRIGGER, HX_TRIGGER_NAME,
};
use crate::headers::{chars_of, is_text, HeaderSet};
use crate::markup::{html_escaped, DOC_CLOSE, DOC_HEAD_REST, DOC_OPEN, NAV_LINKS, PAGE_OPEN};
use crate::response::{
    error_page, header_view, is_shaped, ShapedResponse, DEFAULT_TARGET,
    ERROR_CLOSE, ERROR_MID, ERROR_TITLE, STATUS_INTERNAL_SERVER_ERROR, STATUS_OK,
};

verus! {

/// Whether some header in `hs` is called `name`.
pub open spec fn has_header_named(hs: Seq<(Seq<char>, Seq<char>)>, name: Seq<char>) -> bool {
    exists|i: int| 0 <= i < hs.len() && (#[trigger] hs[i]).0 == name
}

/// Without the marker header, extraction gives `NotEnhanced` and no context at all.
pub proof fn lemma_no_marker_not_enhanced(h: HeaderSet)
    requires
        h.value_of(HX_REQUEST@).is_none(),
    ensures
        extraction_error(h) == Some(ExtractionError::NotEnhanced),
{
}

/// An htmx request whose other headers read as text, and whose current-URL header
/// is text that is not an absolute URL, fails with `InvalidUrl`.
pub proof fn lemma_malformed_url_rejected(h: HeaderSet)
    requires
        h.value_of(HX_REQUEST@).is_some(),
        text_or_absent(h.value_of(HX_TARGET@)),
        text_or_absent(h.value_of(HX_TRIGGER@)),
        text_or_absent(h.value_of(HX_TRIGGER_NAME@)),
        h.value_of(HX_CURRENT_URL@).is_some(),
        is_text(h.value_of(HX_CURRENT_URL@)->0),
        !url_accepts(chars_of(h.value_of(HX_CURRENT_URL@)->0)),
    ensures
        extraction_error(h) == Some(ExtractionError::InvalidUrl),
{
}

/// Shaping the same inputs twice gives the same status, headers and body.
pub proof fn lemma_shape_deterministic(
    r1: ShapedResponse,
    r2: ShapedResponse,
    status: u16,
    title: Seq<char>,
    inner: Seq<char>,
    ctx: Option<HtmxContext>,
)
    requires
        is_shaped(r1, status, title, inner, ctx),
        is_shaped(r2, status, title, inner, ctx),
    ensures
        r1.status == r2.status,
        header_view(r1.headers@) == header_view(r2.headers@),
        r1.body@ == r2.body@,
{
}

/// Whether a character means something in markup.
pub open spec fn is_markup_char(c: char) -> bool {
    c == '&' || c == '<' || c == '>' || c == '"'
}

/// Text without markup characters is its own escaped rendering.
pub proof fn lemma_escape_plain_text(s: Seq<char>)
    requires
        forall|i: int| 0 <= i < s.len() ==> !is_markup_char(#[trigger] s[i]),
    ensures
        html_escaped(s) == s,
    decreases s.len(),
{
    if s.len() > 0 {
        lemma_escape_plain_text(s.drop_last());
        assert(s.drop_last() + seq![s.last()] =~= s);
    }
}

/// Without a context the body is the full document: it opens with the doctype,
/// holds the escaped title in the head and `inner` as the whole default container.
pub proof fn lemma_plain_mode_full_document(
    r: ShapedResponse,
    status: u16,
    title: Seq<char>,
    inner: Seq<char>,
)
    requires
        is_shaped(r, status, title, inner, None),
    ensures
        r.status == status,
        r.body@ == DOC_OPEN@ + html_escaped(title) + DOC_HEAD_REST@ + inner + DOC_CLOSE@,
        r.body@.subrange(0, 15) == "<!DOCTYPE html>"@,
        (forall|i: int| 0 <= i < title.len() ==> !is_markup_char(#[trigger] title[i]))
            ==> r.body@ == DOC_OPEN@ + title + DOC_HEAD_REST@ + inner + DOC_CLOSE@,
{
    if forall|i: int| 0 <= i < title.len() ==> !is_markup_char(#[trigger] title[i]) {
        lemma_escape_plain_text(title);
    }
    reveal_strlit("<!DOCTYPE html>");
    reveal_strlit("<!DOCTYPE html><html><head><title>");
    let b = r.body@;
    assert(b.subrange(0, 15) =~= "<!DOCTYPE html>"@);
}

/// With a context the body is the fragment alone: the title update, then `inner`,
/// and no doctype to open a document shell.
pub proof fn lemma_enhanced_mode_fragment(
    r: ShapedResponse,
    status: u16,
    title: Seq<char>,
    inner: Seq<char>,
    ctx: HtmxContext,
)
    requires
        is_shaped(r, status, title, inner, Some(ctx)),
    ensures
        r.body@ == "<title>"@ + html_escaped(title) + "</title>"@ + inner,
        !(r.body@.len() >= 15 && r.body@.subrange(0, 15) == "<!DOCTYPE html>"@),
{
    reveal_strlit("<!DOCTYPE html>");
    reveal_strlit("<title>");
    let b = r.body@;
    if b.len() >= 15 && b.subrange(0, 15) == "<!DOCTYPE html>"@ {
        assert(b.subrange(0, 15)[1] == '!');
        assert(b[1] == 't');
    }
}

/// With a context the status is success, whatever status the caller gave.
pub proof fn lemma_enhanced_status_ok(
    r: ShapedResponse,
    status: u16,
    title: Seq<char>,
    inner: Seq<char>,
    ctx: HtmxContext,
)
    requires
        is_shaped(r, status, title, inner, Some(ctx)),
    ensures
        r.status == STATUS_OK,
{
}

/// With a context that names a target other than the default container, both
/// retarget headers are sent; with the default target or none, neither is.
pub proof fn lemma_retarget(
    r: ShapedResponse,
    status: u16,
    title: Seq<char>,
    inner: Seq<char>,
    ctx: HtmxContext,
)
    requires
        is_shaped(r, status, title, inner, Some(ctx)),
    ensures
        ctx.target is Some && ctx.target->0@ != DEFAULT_TARGET@ ==> header_view(
            r.headers@,
        ).contains(("HX-Retarget"@, DEFAULT_TARGET@)) && header_view(r.headers@).contains(
            ("HX-Reswap"@, "innerHTML"@),
        ),
        ctx.target is None || ctx.target->0@ == DEFAULT_TARGET@ ==> !has_header_named(
            header_view(r.headers@),
            "HX-Retarget"@,
        ) && !has_header_named(header_view(r.headers@), "HX-Reswap"@),
{
    reveal_strlit("Content-Type");
    reveal_strlit("Vary");
    reveal_strlit("HX-Retarget");
    reveal_strlit("HX-Reswap");
    let hs = header_view(r.headers@);
    if ctx.target is Some && ctx.target->0@ != DEFAULT_TARGET@ {
        assert(hs[2] == ("HX-Retarget"@, DEFAULT_TARGET@));
        assert(hs[3] == ("HX-Reswap"@, "innerHTML"@));
    } else {
        assert(hs.len() == 2);
        assert("Content-Type"@[0] != "HX-Retarget"@[0]);
        assert("Vary"@[0] != "HX-Retarget"@[0]);
        assert("Content-Type"@[0] != "HX-Reswap"@[0]);
        assert("Vary"@[0] != "HX-Reswap"@[0]);
    }
}

/// The markup of the error page before the description, for a given context.
pub open spec fn error_prefix(ctx: Option<HtmxContext>) -> Seq<char> {
    let head = PAGE_OPEN@ + NAV_LINKS@ + ERROR_MID@;
    if ctx is Some {
        "<title>"@ + html_escaped(ERROR_TITLE@) + "</title>"@ + head
    } else {
        DOC_OPEN@ + html_escaped(ERROR_TITLE@) + DOC_HEAD_REST@ + head
    }
}

/// The markup of the error page after the description, for a given context.
pub open spec fn error_suffix(ctx: Option<HtmxContext>) -> Seq<char> {
    if ctx is Some {
        ERROR_CLOSE@
    } else {
        ERROR_CLOSE@ + DOC_CLOSE@
    }
}

/// Two error responses for the same context have the same status and headers,
/// and their bodies differ only in the escaped description between one fixed
/// prefix and one fixed suffix.
pub proof fn lemma_error_uniformity(
    r1: ShapedResponse,
    r2: ShapedResponse,
    d1: Seq<char>,
    d2: Seq<char>,
    ctx: Option<HtmxContext>,
)
    requires
        is_shaped(r1, STATUS_INTERNAL_SERVER_ERROR, ERROR_TITLE@, error_page(d1), ctx),
        is_shaped(r2, STATUS_INTERNAL_SERVER_ERROR, ERROR_TITLE@, error_page(d2), ctx),
    ensures
        r1.status == r2.status,
        header_view(r1.headers@) == header_view(r2.headers@),
        r1.body@ == error_prefix(ctx) + html_escaped(d1) + error_suffix(ctx),
        r2.body@ == error_prefix(ctx) + html_escaped(d2) + error_suffix(ctx),
{
    reveal_strlit("<title>");
    reveal_strlit("</title>");
    assert(r1.body@ =~= error_prefix(ctx) + html_escaped(d1) + error_suffix(ctx));
    assert(r2.body@ =~= error_prefix(ctx) + html_escaped(d2) + error_suffix(ctx));
}

} // verus!
