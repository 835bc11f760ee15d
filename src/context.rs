//! The htmx request context, recovered from a request's headers.
use vstd::prelude::*;
use crate::headers::{chars_of, header_text, is_text, HeaderSet};

verus! {

/// Declares `url::Url` so that a context can carry the parsed current URL; its
/// contents stay opaque.
#[verifier::external_type_specification]
#[verifier::external_body]
pub struct ExUrl(url::Url);

/// Whether `url::Url::parse` accepts the text as an absolute URL.
pub uninterp spec fn url_accepts(s: Seq<char>) -> bool;

/// Relies on `url::Url::parse`: whether the text is accepted depends on the text alone.
#[verifier::external_body]
fn parse_url(s: &str) -> (r: Option<url::Url>)
    ensures
        r.is_some() == url_accepts(s@),
{
    url::Url::parse(s).ok()
}

/// Marks a request as issued by htmx.
pub const HX_REQUEST: &'static str = "hx-request";

/// Marks a request that htmx issued for a boosted link or form.
pub const HX_BOOSTED: &'static str = "hx-boosted";

/// The element that the client means to swap the response into.
pub const HX_TARGET: &'static str = "hx-target";

/// The element that triggered the request.
pub const HX_TRIGGER: &'static str = "hx-trigger";

/// The name of the element that triggered the request.
pub const HX_TRIGGER_NAME: &'static str = "hx-trigger-name";

/// The URL of the page the client was on.
pub const HX_CURRENT_URL: &'static str = "hx-current-url";

/// Why a request carries no usable htmx context.
#[derive(Debug, Clone, Copy, PartialEq, Eq, Structural)]
pub enum ExtractionError {
    /// The request is a plain navigation: the marker header is absent.
    NotEnhanced,
    /// A header that is read as text holds a byte that is not text.
    InvalidHeaderEncoding,
    /// The current-URL header is not an absolute URL.
    InvalidUrl,
}

/// What an htmx request says about itself.
#[derive(Debug, Default, Clone, PartialEq, Eq, PartialOrd, Ord)]
pub struct HtmxContext {
    pub is_boost: bool,
    pub target: Option<String>,
    pub trigger: Option<String>,
    pub trigger_name: Option<String>,
    pub current_url: Option<url::Url>,
}

/// The value that marks a boosted request.
pub open spec fn is_true_marker(v: Seq<u8>) -> bool {
    v == seq![116u8, 114u8, 117u8, 101u8]
}

/// An optional header value that is absent or text.
pub open spec fn text_or_absent(v: Option<Seq<u8>>) -> bool {
    v.is_none() || is_text(v->0)
}

/// The characters of an optional header value.
pub open spec fn opt_chars(v: Option<Seq<u8>>) -> Option<Seq<char>> {
    match v {
        Some(b) => Some(chars_of(b)),
        None => None,
    }
}

/// The characters of an optional string.
pub open spec fn opt_view(s: Option<String>) -> Option<Seq<char>> {
    match s {
        Some(t) => Some(t@),
        None => None,
    }
}

/// Why extraction from `h` fails, or `None` when it succeeds. The checks come in
/// the order of the headers: marker, target, trigger, trigger name, current URL.
pub open spec fn extraction_error(h: HeaderSet) -> Option<ExtractionError> {
    let url = h.value_of(HX_CURRENT_URL@);
    if h.value_of(HX_REQUEST@).is_none() {
        Some(ExtractionError::NotEnhanced)
    } else if !text_or_absent(h.value_of(HX_TARGET@)) || !text_or_absent(
        h.value_of(HX_TRIGGER@),
    ) || !text_or_absent(h.value_of(HX_TRIGGER_NAME@)) || !text_or_absent(url) {
        Some(ExtractionError::InvalidHeaderEncoding)
    } else if url.is_some() && !url_accepts(chars_of(url->0)) {
        Some(ExtractionError::InvalidUrl)
    } else {
        None
    }
}

/// The context that a successful extraction from `h` holds.
pub open spec fn describes(c: HtmxContext, h: HeaderSet) -> bool {
    &&& c.is_boost == (h.value_of(HX_BOOSTED@).is_some() && is_true_marker(
        h.value_of(HX_BOOSTED@)->0,
    ))
    &&& opt_view(c.target) == opt_chars(h.value_of(HX_TARGET@))
    &&& opt_view(c.trigger) == opt_chars(h.value_of(HX_TRIGGER@))
    &&& opt_view(c.trigger_name) == opt_chars(h.value_of(HX_TRIGGER_NAME@))
    &&& c.current_url.is_some() == h.value_of(HX_CURRENT_URL@).is_some()
}

/// The header `name` read as text, when present.
fn optional_text(h: &HeaderSet, name: &str) -> (r: Result<Option<String>, ExtractionError>)
    ensures
        r is Err <==> !text_or_absent(h.value_of(name@)),
        r is Err ==> r == Err::<Option<String>, ExtractionError>(
            ExtractionError::InvalidHeaderEncoding,
        ),
        r is Ok ==> opt_view(r->Ok_0) == opt_chars(h.value_of(name@)),
{
    match h.get(name) {
        Some(v) => match header_text(&v) {
            Some(s) => Ok(Some(s)),
            None => Err(ExtractionError::InvalidHeaderEncoding),
        },
        None => Ok(None),
    }
}

impl HtmxContext {
    /// Recovers the htmx context from a request's headers. All or nothing: any
    /// malformed header fails the whole extraction.
    pub fn try_from(h: &HeaderSet) -> (r: Result<HtmxContext, ExtractionError>)
        ensures
            r is Err <==> extraction_error(*h).is_some(),
            r is Err ==> extraction_error(*h) == Some(r->Err_0),
            r is Ok ==> describes(r->Ok_0, *h),
    {
        if h.get(HX_REQUEST).is_none() {
            return Err(ExtractionError::NotEnhanced);
        }
        let is_boost = match h.get(HX_BOOSTED) {
            Some(v) => v.len() == 4 && v[0] == 116u8 && v[1] == 114u8 && v[2] == 117u8 && v[3]
                == 101u8,
            None => false,
        };
        proof {
            let b = h.value_of(HX_BOOSTED@);
            if b.is_some() && is_boost {
                assert(b->0 =~= seq![116u8, 114u8, 117u8, 101u8]);
            }
        }
        let target = optional_text(h, HX_TARGET)?;
        let trigger = optional_text(h, HX_TRIGGER)?;
        let trigger_name = optional_text(h, HX_TRIGGER_NAME)?;
        let current_url = match optional_text(h, HX_CURRENT_URL)? {
            Some(s) => match parse_url(s.as_str()) {
                Some(u) => Some(u),
                None => return Err(ExtractionError::InvalidUrl),
            },
            None => None,
        };
        Ok(HtmxContext { is_boost, target, trigger, trigger_name, current_url })
    }
}

/// The htmx context of a request, or `None` for a plain navigation or a request
/// whose htmx headers are malformed: both are shaped as plain navigations.
pub fn request_context(h: &HeaderSet) -> (r: Option<HtmxContext>)
    ensures
        r.is_some() == extraction_error(*h).is_none(),
        r.is_some() ==> describes(r->0, *h),
{
    match HtmxContext::try_from(h) {
        Ok(c) => Some(c),
        Err(_) => None,
    }
}

} // verus!
