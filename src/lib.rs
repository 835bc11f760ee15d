//! Response shaping for pages served both to plain browser navigation and to
//! htmx-enhanced requests: the request context, the full-document or fragment
//! decision, the retarget guard and the uniform error page.
pub mod context;
pub mod headers;
pub mod laws;
pub mod markup;
pub mod pages;
pub mod response;
