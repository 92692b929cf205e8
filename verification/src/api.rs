//! Types and pure computations of the HTTP surface: the badge styles the
//! query parameter accepts, their defaults, the JSON badge body, the
//! user-visible error mapping, and the externally rendered badge variant.
//! The routes themselves — extraction, headers, status codes on the wire —
//! live in the transport layer and hand plain values in and out.

use vstd::prelude::*;

use crate::font_metrics::MAX_TEXT_LEN;
use crate::text::dec_str;

verus! {

/// The generic error body returned to callers. Store failures never leak
/// store-specific detail: they all map to this single message (the full
/// detail is for the server-side log only).
pub struct ApiError {
    pub message: String,
}

/// The HTTP status and user-visible body that any store failure degrades
/// to: one generic "unexpected database error" message under an internal
/// error status, whatever the underlying failure was.
pub fn store_error_response() -> (r: (u16, ApiError))
    ensures
        r.0 == 500,
        r.1.message@ == "An unexpected database error occurred."@,
{
    (500, ApiError { message: String::from_str("An unexpected database error occurred.") })
}

/// The JSON badge body: a non-image representation of a count, in the
/// schema badge services consume.
pub struct ShieldsIoBadge {
    pub schema_version: u8,
    pub label: String,
    pub message: String,
    pub color: String,
}

/// The JSON badge body for a key whose total is `total`: schema version 1,
/// the fixed "hits" label and "blue" color, and the count rendered as the
/// decimal message text.
pub fn shields_badge_for(total: u64) -> (b: ShieldsIoBadge)
    ensures
        b.schema_version == 1,
        b.label@ == "hits"@,
        b.message@ == dec_str(total as nat),
        b.color@ == "blue"@,
{
    ShieldsIoBadge {
        schema_version: 1,
        label: String::from_str("hits"),
        message: crate::text::u64_to_string(total),
        color: String::from_str("blue"),
    }
}

/// The badge styles the style query parameter accepts.
#[derive(Debug, Clone, Copy, PartialEq, Eq)]
pub enum BadgeStyle {
    Flat,
    FlatSquare,
    Plastic,
    Social,
    ForTheBadge,
}

impl Default for BadgeStyle {
    fn default() -> (s: Self)
        ensures
            s == BadgeStyle::Flat,
    {
        BadgeStyle::Flat
    }
}

/// Default badge label.
pub fn default_label() -> (s: String)
    ensures
        s@ == "Hits"@,
{
    String::from_str("Hits")
}

/// Default badge style.
pub fn default_badge_style() -> (s: BadgeStyle)
    ensures
        s == BadgeStyle::Flat,
{
    BadgeStyle::Flat
}

/// Default label background color.
pub fn default_label_color() -> (s: String)
    ensures
        s@ == "#555"@,
{
    String::from_str("#555")
}

/// Default message background color.
pub fn default_message_color() -> (s: String)
    ensures
        s@ == "#007ec6"@,
{
    String::from_str("#007ec6")
}

/// The query parameters of one badge request. The message text itself is
/// not among them: it is the current count, formatted by the coordinator.
pub struct HitBadgeParams {
    pub style: BadgeStyle,
    pub label: String,
    pub label_color: String,
    pub message_color: String,
    pub link: Option<String>,
    pub extra_link: Option<String>,
    pub logo: Option<String>,
    pub logo_color: Option<String>,
}

/// Information about the running service.
pub struct AppInfo {
    pub project_name: String,
    pub version: String,
    pub docs_path: String,
}

impl AppInfo {
    /// The service self-description served at the root route, for the
    /// given build version.
    pub fn new(version: String) -> (info: AppInfo)
        ensures
            info.project_name@ == "Hits"@,
            info.version == version,
            info.docs_path@ == "/scalar"@,
    {
        AppInfo {
            project_name: String::from_str("Hits"),
            version,
            docs_path: String::from_str("/scalar"),
        }
    }
}

/// The view of an optional borrowed string.
pub open spec fn opt_view(s: Option<&str>) -> Option<Seq<char>> {
    match s {
        Some(v) => Some(v@),
        None => None,
    }
}

/// The view of an optional owned string.
pub open spec fn opt_owned_view(s: Option<String>) -> Option<Seq<char>> {
    match s {
        Some(v) => Some(v@),
        None => None,
    }
}

/// What the externally rendered badge looks like: the shields crate's SVG
/// for these inputs. Its text depends on the inputs alone (the crate lays
/// badges out from width tables embedded at compile time, with no I/O and
/// no randomness), so the result carries a name rather than a page of
/// geometry.
pub uninterp spec fn shields_svg_of(
    style: BadgeStyle,
    label: Seq<char>,
    message: Seq<char>,
    label_color: Seq<char>,
    message_color: Seq<char>,
    link: Option<Seq<char>>,
    extra_link: Option<Seq<char>>,
    logo: Option<Seq<char>>,
    logo_color: Option<Seq<char>>,
) -> Seq<char>;

/// Relies on `shields::render_badge_svg`: renders a complete badge SVG from
/// the given style, texts, colors, links and logo; deterministic in its
/// inputs. The crate computes its scaled text widths in `u32`, which
/// overflows (and panics under overflow checks) once a text measures past
/// `u32::MAX / 10` pixels, so the label and message lengths are bounded
/// here just as the in-house engines bound theirs.
#[verifier::external_body]
fn shields_render(
    style: BadgeStyle,
    label: &str,
    message: &str,
    label_color: &str,
    message_color: &str,
    link: Option<&str>,
    extra_link: Option<&str>,
    logo: Option<&str>,
    logo_color: Option<&str>,
) -> (svg: String)
    requires
        label@.len() <= MAX_TEXT_LEN,
        message@.len() <= MAX_TEXT_LEN,
    ensures
        svg@ == shields_svg_of(
            style,
            label@,
            message@,
            label_color@,
            message_color@,
            opt_view(link),
            opt_view(extra_link),
            opt_view(logo),
            opt_view(logo_color),
        ),
{
    let s = match style {
        BadgeStyle::Flat => shields::BadgeStyle::Flat,
        BadgeStyle::FlatSquare => shields::BadgeStyle::FlatSquare,
        BadgeStyle::Plastic => shields::BadgeStyle::Plastic,
        BadgeStyle::Social => shields::BadgeStyle::Social,
        BadgeStyle::ForTheBadge => shields::BadgeStyle::ForTheBadge,
    };
    shields::render_badge_svg(&shields::BadgeParams {
        style: s, label: Some(label), message: Some(message),
        label_color: Some(label_color), message_color: Some(message_color),
        link, extra_link, logo, logo_color,
    })
}

/// Renders the count of a key as an SVG badge through the shields crate,
/// in any of the five styles the query parameter accepts (this is the
/// renderer behind the direct SVG route; the four in-house engines are the
/// library's own). The length bound keeps the renderer's `u32` width
/// arithmetic in range, exactly as for the in-house engines.
pub fn shields_badge_svg(params: &HitBadgeParams, message: &str) -> (svg: String)
    requires
        params.label@.len() <= MAX_TEXT_LEN,
        message@.len() <= MAX_TEXT_LEN,
    ensures
        svg@ == shields_svg_of(
            params.style,
            params.label@,
            message@,
            params.label_color@,
            params.message_color@,
            opt_owned_view(params.link),
            opt_owned_view(params.extra_link),
            opt_owned_view(params.logo),
            opt_owned_view(params.logo_color),
        ),
{
    let link = match &params.link {
        Some(v) => Some(v.as_str()),
        None => None,
    };
    let extra_link = match &params.extra_link {
        Some(v) => Some(v.as_str()),
        None => None,
    };
    let logo = match &params.logo {
        Some(v) => Some(v.as_str()),
        None => None,
    };
    let logo_color = match &params.logo_color {
        Some(v) => Some(v.as_str()),
        None => None,
    };
    shields_render(
        params.style,
        params.label.as_str(),
        message,
        params.label_color.as_str(),
        params.message_color.as_str(),
        link,
        extra_link,
        logo,
        logo_color,
    )
}

} // verus!
