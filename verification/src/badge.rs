//! The badge rendering engine: four layout styles that turn a
//! `(label, message, colors)` tuple into a complete SVG image string.
//!
//! All styles share the same conventions: a fixed 20 px image height, 6 px
//! of horizontal padding on each side of the label and of the message, and
//! text coordinates premultiplied by 10 because the text layer carries a
//! `scale(.1)` transform (so sub-pixel font hinting stays crisp). The total
//! image width is always the sum of the two segment widths, plus the
//! inter-segment gap and a final half-pixel round-up for the Social style.
//!
//! Caller-supplied label, message and color strings are untrusted input
//! reflected into markup, so every one of them is XML-escaped on embedding.

use vstd::prelude::*;

use crate::font_metrics::{TypefaceRegistry, px_width_of, MAX_TEXT_LEN};
use crate::text::{dec_str, escape_seq, push_dec, xml_escape};

verus! {

/// Fixed badge height in pixels, shared by every style.
pub const BADGE_HEIGHT: u64 = 20;

/// Horizontal padding applied on each side of the label text and of the
/// message text when computing each segment's rectangle width.
pub const HORIZONTAL_PADDING: u64 = 6;

/// Gap between the two segments of a Social badge, bridged by the arrow.
pub const SOCIAL_GAP: u64 = 6;

/// Font family used by the Flat, FlatSquare and Plastic styles.
pub const FONT_FAMILY: &'static str = "Verdana,Geneva,DejaVu Sans,sans-serif";

/// Font family used by the Social style.
pub const SOCIAL_FONT_FAMILY: &'static str = "Helvetica Neue,Helvetica,Arial,sans-serif";

/// The visual style of a badge.
#[derive(Debug, Clone, Copy, PartialEq, Eq)]
pub enum BadgeStyle {
    Flat,
    Social,
    FlatSquare,
    Plastic,
}

impl Default for BadgeStyle {
    fn default() -> (s: Self)
        ensures
            s == BadgeStyle::Flat,
    {
        BadgeStyle::Flat
    }
}

/// Default label background color.
pub fn default_label_color() -> (c: &'static str)
    ensures
        c@ == "#555"@,
{
    "#555"
}

/// Default message background color.
pub fn default_message_color() -> (c: &'static str)
    ensures
        c@ == "#007ec6"@,
{
    "#007ec6"
}

/// The inputs of one badge rendering request.
pub struct RenderBadgeParams<'a> {
    pub style: BadgeStyle,
    pub label: &'a str,
    pub message: &'a str,
    pub label_color: &'a str,
    pub message_color: &'a str,
}

impl<'a> Default for RenderBadgeParams<'a> {
    fn default() -> (p: Self)
        ensures
            p.style == BadgeStyle::Flat,
            p.label@ == Seq::<char>::empty(),
            p.message@ == Seq::<char>::empty(),
            p.label_color@ == "#555"@,
            p.message_color@ == "#007ec6"@,
    {
        proof {
            reveal_strlit("");
            assert(""@ =~= Seq::<char>::empty());
        }
        RenderBadgeParams {
            style: BadgeStyle::Flat,
            label: "",
            message: "",
            label_color: default_label_color(),
            message_color: default_message_color(),
        }
    }
}

// ---------- shared layout arithmetic ----------

/// The width of one badge segment: the measured text width plus padding on
/// both sides.
pub open spec fn seg_width(w: int) -> int {
    w + 2 * HORIZONTAL_PADDING
}

/// Where the message rectangle of a Social badge starts: after the label
/// segment and the inter-segment gap.
pub open spec fn social_msg_start(lw: int) -> int {
    seg_width(lw) + SOCIAL_GAP
}

/// Total width of a Social badge: both segments, the gap, and the final
/// half-pixel stroke offset rounded up to the next integer.
pub open spec fn social_total_width(lw: int, mw: int) -> int {
    social_msg_start(lw) + seg_width(mw) + 1
}

/// The declared total image width of a badge whose label text measures `lw`
/// pixels and whose message text measures `mw` pixels.
pub open spec fn badge_total_width(style: BadgeStyle, lw: int, mw: int) -> int {
    match style {
        BadgeStyle::Social => social_total_width(lw, mw),
        _ => seg_width(lw) + seg_width(mw),
    }
}

// ---------- template chunks shared between styles ----------

pub const ARIA_MID: &'static str = "\" height=\"20\" role=\"img\" aria-label=\"";

pub const LABEL_SEP: &'static str = ": ";

pub const TITLE_OPEN: &'static str = "\">\n<title>";

pub const FILL_OPEN: &'static str = "\" height=\"20\" fill=\"";

pub const RECT_X_OPEN: &'static str = "\"/>\n<rect x=\"";

pub const RECT_WIDTH_OPEN: &'static str = "\" width=\"";

pub const OVERLAY_RECT_OPEN: &'static str = "\"/>\n<rect width=\"";

pub const TEXT_BODY_OPEN: &'static str = "\">";

pub const TEXT_NEXT_X: &'static str = "</text>\n<text x=\"";

pub const TEXT_NEXT_SHADOW_X: &'static str = "</text>\n<text aria-hidden=\"true\" x=\"";

pub const SVG_CLOSE: &'static str = "</text>\n</g>\n</svg>";

pub const PLAIN_OPEN: &'static str = "<svg xmlns=\"http://www.w3.org/2000/svg\" width=\"";

// ---------- Flat and FlatSquare ----------

pub const FLAT_OPEN: &'static str =
    "<svg xmlns=\"http://www.w3.org/2000/svg\" xmlns:xlink=\"http://www.w3.org/1999/xlink\" width=\"";

pub const FLAT_GRADIENT: &'static str =
    "</title>\n<linearGradient id=\"s\" x2=\"0\" y2=\"100%\">\n<stop offset=\"0\" stop-color=\"#bbb\" stop-opacity=\".1\"/>\n<stop offset=\"1\" stop-opacity=\".1\"/>\n</linearGradient>\n<clipPath id=\"r\">\n<rect width=\"";

pub const CLIP_ROUND: &'static str =
    "\" height=\"20\" rx=\"3\" fill=\"#fff\"/>\n</clipPath>\n<g clip-path=\"url(#r)\">\n<rect width=\"";

pub const CLIP_SQUARE: &'static str =
    "\" height=\"20\" rx=\"0\" fill=\"#fff\"/>\n</clipPath>\n<g clip-path=\"url(#r)\">\n<rect width=\"";

pub const FLAT_TEXT_GROUP: &'static str =
    "\" height=\"20\" fill=\"url(#s)\"/>\n</g>\n<g fill=\"#fff\" text-anchor=\"middle\" font-family=\"Verdana,Geneva,DejaVu Sans,sans-serif\" text-rendering=\"geometricPrecision\" font-size=\"110\">\n<text aria-hidden=\"true\" x=\"";

pub const FLAT_SHADOW_ATTRS: &'static str =
    "\" y=\"150\" fill=\"#010101\" fill-opacity=\".3\" transform=\"scale(.1)\" textLength=\"";

pub const FLAT_MAIN_ATTRS: &'static str =
    "\" y=\"140\" transform=\"scale(.1)\" fill=\"#fff\" textLength=\"";

/// The complete SVG text of a Flat (`square == false`) or FlatSquare
/// (`square == true`) badge, for measured text widths `lw` and `mw` and
/// already-escaped label, message and color strings.
pub open spec fn flat_like_svg(
    square: bool,
    lw: int,
    mw: int,
    el: Seq<char>,
    em: Seq<char>,
    elc: Seq<char>,
    emc: Seq<char>,
) -> Seq<char> {
    let lr = seg_width(lw);
    let mr = seg_width(mw);
    let tw = badge_total_width(if square { BadgeStyle::FlatSquare } else { BadgeStyle::Flat }, lw, mw);
    let lx = (lr / 2) * 10;
    let mx = (lr + mr / 2) * 10;
    let ltl = lw * 10;
    let mtl = mw * 10;
    FLAT_OPEN@ + dec_str(tw as nat) + ARIA_MID@ + el + LABEL_SEP@ + em + TITLE_OPEN@ + el
        + LABEL_SEP@ + em + FLAT_GRADIENT@ + dec_str(tw as nat) + (if square {
        CLIP_SQUARE@
    } else {
        CLIP_ROUND@
    }) + dec_str(lr as nat) + FILL_OPEN@ + elc + RECT_X_OPEN@ + dec_str(lr as nat)
        + RECT_WIDTH_OPEN@ + dec_str(mr as nat) + FILL_OPEN@ + emc + OVERLAY_RECT_OPEN@
        + dec_str(tw as nat) + FLAT_TEXT_GROUP@ + dec_str(lx as nat) + FLAT_SHADOW_ATTRS@
        + dec_str(ltl as nat) + TEXT_BODY_OPEN@ + el + TEXT_NEXT_X@ + dec_str(lx as nat)
        + FLAT_MAIN_ATTRS@ + dec_str(ltl as nat) + TEXT_BODY_OPEN@ + el + TEXT_NEXT_SHADOW_X@
        + dec_str(mx as nat) + FLAT_SHADOW_ATTRS@ + dec_str(mtl as nat) + TEXT_BODY_OPEN@ + em
        + TEXT_NEXT_X@ + dec_str(mx as nat) + FLAT_MAIN_ATTRS@ + dec_str(mtl as nat)
        + TEXT_BODY_OPEN@ + em + SVG_CLOSE@
}

fn render_flat_like(
    square: bool,
    label: &str,
    message: &str,
    label_color: &str,
    message_color: &str,
    registry: &TypefaceRegistry,
) -> (r: String)
    requires
        registry.wf(),
        label@.len() <= MAX_TEXT_LEN,
        message@.len() <= MAX_TEXT_LEN,
    ensures
        r@ == flat_like_svg(
            square,
            px_width_of(registry.faces@, FONT_FAMILY@, label@),
            px_width_of(registry.faces@, FONT_FAMILY@, message@),
            escape_seq(label@),
            escape_seq(message@),
            escape_seq(label_color@),
            escape_seq(message_color@),
        ),
{
    let lw = crate::font_metrics::get_text_width_px(label, FONT_FAMILY, registry) as u64;
    let mw = crate::font_metrics::get_text_width_px(message, FONT_FAMILY, registry) as u64;
    let el = xml_escape(label);
    let em = xml_escape(message);
    let elc = xml_escape(label_color);
    let emc = xml_escape(message_color);

    let lr = lw + 2 * HORIZONTAL_PADDING;
    let mr = mw + 2 * HORIZONTAL_PADDING;
    let tw = lr + mr;
    let lx = (lr / 2) * 10;
    let mx = (lr + mr / 2) * 10;
    let ltl = lw * 10;
    let mtl = mw * 10;

    let mut out = String::from_str(FLAT_OPEN);
    push_dec(&mut out, tw);
    out.append(ARIA_MID);
    out.append(el.as_str());
    out.append(LABEL_SEP);
    out.append(em.as_str());
    out.append(TITLE_OPEN);
    out.append(el.as_str());
    out.append(LABEL_SEP);
    out.append(em.as_str());
    out.append(FLAT_GRADIENT);
    push_dec(&mut out, tw);
    if square {
        out.append(CLIP_SQUARE);
    } else {
        out.append(CLIP_ROUND);
    }
    push_dec(&mut out, lr);
    out.append(FILL_OPEN);
    out.append(elc.as_str());
    out.append(RECT_X_OPEN);
    push_dec(&mut out, lr);
    out.append(RECT_WIDTH_OPEN);
    push_dec(&mut out, mr);
    out.append(FILL_OPEN);
    out.append(emc.as_str());
    out.append(OVERLAY_RECT_OPEN);
    push_dec(&mut out, tw);
    out.append(FLAT_TEXT_GROUP);
    push_dec(&mut out, lx);
    out.append(FLAT_SHADOW_ATTRS);
    push_dec(&mut out, ltl);
    out.append(TEXT_BODY_OPEN);
    out.append(el.as_str());
    out.append(TEXT_NEXT_X);
    push_dec(&mut out, lx);
    out.append(FLAT_MAIN_ATTRS);
    push_dec(&mut out, ltl);
    out.append(TEXT_BODY_OPEN);
    out.append(el.as_str());
    out.append(TEXT_NEXT_SHADOW_X);
    push_dec(&mut out, mx);
    out.append(FLAT_SHADOW_ATTRS);
    push_dec(&mut out, mtl);
    out.append(TEXT_BODY_OPEN);
    out.append(em.as_str());
    out.append(TEXT_NEXT_X);
    push_dec(&mut out, mx);
    out.append(FLAT_MAIN_ATTRS);
    push_dec(&mut out, mtl);
    out.append(TEXT_BODY_OPEN);
    out.append(em.as_str());
    out.append(SVG_CLOSE);
    out
}

/// Renders a Flat style badge: 3 px rounded corners with a semi-transparent
/// highlight gradient overlay, in the caller-supplied colors.
fn render_flat_badge_svg(
    label: &str,
    message: &str,
    label_color: &str,
    message_color: &str,
    registry: &TypefaceRegistry,
) -> (r: String)
    requires
        registry.wf(),
        label@.len() <= MAX_TEXT_LEN,
        message@.len() <= MAX_TEXT_LEN,
    ensures
        r@ == flat_like_svg(
            false,
            px_width_of(registry.faces@, FONT_FAMILY@, label@),
            px_width_of(registry.faces@, FONT_FAMILY@, message@),
            escape_seq(label@),
            escape_seq(message@),
            escape_seq(label_color@),
            escape_seq(message_color@),
        ),
{
    render_flat_like(false, label, message, label_color, message_color, registry)
}

/// Renders a FlatSquare style badge: the Flat geometry with square corners.
fn generate_flat_square_style_svg(
    label: &str,
    message: &str,
    label_color: &str,
    message_color: &str,
    registry: &TypefaceRegistry,
) -> (r: String)
    requires
        registry.wf(),
        label@.len() <= MAX_TEXT_LEN,
        message@.len() <= MAX_TEXT_LEN,
    ensures
        r@ == flat_like_svg(
            true,
            px_width_of(registry.faces@, FONT_FAMILY@, label@),
            px_width_of(registry.faces@, FONT_FAMILY@, message@),
            escape_seq(label@),
            escape_seq(message@),
            escape_seq(label_color@),
            escape_seq(message_color@),
        ),
{
    render_flat_like(true, label, message, label_color, message_color, registry)
}

// ---------- Plastic ----------

pub const PLASTIC_GRADIENT: &'static str =
    "</title>\n<linearGradient id=\"a\" x2=\"0\" y2=\"100%\">\n<stop offset=\"0\" stop-color=\"#fff\" stop-opacity=\".7\"/>\n<stop offset=\".1\" stop-color=\"#aaa\" stop-opacity=\".1\"/>\n<stop offset=\".9\" stop-color=\"#000\" stop-opacity=\".3\"/>\n<stop offset=\"1\" stop-color=\"#000\" stop-opacity=\".5\"/>\n</linearGradient>\n<clipPath id=\"r\">\n<rect width=\"";

pub const PLASTIC_TEXT_GROUP: &'static str =
    "\" height=\"20\" fill=\"url(#a)\"/>\n</g>\n<g fill=\"#fff\" text-anchor=\"middle\" font-family=\"Verdana,Geneva,DejaVu Sans,sans-serif\" text-rendering=\"geometricPrecision\" font-size=\"110\">\n<text aria-hidden=\"true\" x=\"";

pub const PLASTIC_SHADOW_ATTRS: &'static str =
    "\" y=\"145\" fill=\"#111\" fill-opacity=\".3\" transform=\"scale(.1)\" textLength=\"";

pub const PLASTIC_MAIN_ATTRS: &'static str =
    "\" y=\"135\" transform=\"scale(.1)\" fill=\"#fff\" textLength=\"";

/// The complete SVG text of a Plastic badge: 3 px rounded corners under a
/// stronger multi-stop bevel gradient, with the text baseline one pixel
/// higher than the Flat styles.
pub open spec fn plastic_svg(
    lw: int,
    mw: int,
    el: Seq<char>,
    em: Seq<char>,
    elc: Seq<char>,
    emc: Seq<char>,
) -> Seq<char> {
    let lr = seg_width(lw);
    let mr = seg_width(mw);
    let tw = badge_total_width(BadgeStyle::Plastic, lw, mw);
    let lx = (lr / 2) * 10;
    let mx = (lr + mr / 2) * 10;
    let ltl = lw * 10;
    let mtl = mw * 10;
    PLAIN_OPEN@ + dec_str(tw as nat) + ARIA_MID@ + el + LABEL_SEP@ + em + TITLE_OPEN@ + el
        + LABEL_SEP@ + em + PLASTIC_GRADIENT@ + dec_str(tw as nat) + CLIP_ROUND@
        + dec_str(lr as nat) + FILL_OPEN@ + elc + RECT_X_OPEN@ + dec_str(lr as nat)
        + RECT_WIDTH_OPEN@ + dec_str(mr as nat) + FILL_OPEN@ + emc + OVERLAY_RECT_OPEN@
        + dec_str(tw as nat) + PLASTIC_TEXT_GROUP@ + dec_str(lx as nat) + PLASTIC_SHADOW_ATTRS@
        + dec_str(ltl as nat) + TEXT_BODY_OPEN@ + el + TEXT_NEXT_X@ + dec_str(lx as nat)
        + PLASTIC_MAIN_ATTRS@ + dec_str(ltl as nat) + TEXT_BODY_OPEN@ + el + TEXT_NEXT_SHADOW_X@
        + dec_str(mx as nat) + PLASTIC_SHADOW_ATTRS@ + dec_str(mtl as nat) + TEXT_BODY_OPEN@ + em
        + TEXT_NEXT_X@ + dec_str(mx as nat) + PLASTIC_MAIN_ATTRS@ + dec_str(mtl as nat)
        + TEXT_BODY_OPEN@ + em + SVG_CLOSE@
}

/// Renders a Plastic style badge.
fn render_plastic_style_svg(
    label: &str,
    message: &str,
    label_color: &str,
    message_color: &str,
    registry: &TypefaceRegistry,
) -> (r: String)
    requires
        registry.wf(),
        label@.len() <= MAX_TEXT_LEN,
        message@.len() <= MAX_TEXT_LEN,
    ensures
        r@ == plastic_svg(
            px_width_of(registry.faces@, FONT_FAMILY@, label@),
            px_width_of(registry.faces@, FONT_FAMILY@, message@),
            escape_seq(label@),
            escape_seq(message@),
            escape_seq(label_color@),
            escape_seq(message_color@),
        ),
{
    let lw = crate::font_metrics::get_text_width_px(label, FONT_FAMILY, registry) as u64;
    let mw = crate::font_metrics::get_text_width_px(message, FONT_FAMILY, registry) as u64;
    let el = xml_escape(label);
    let em = xml_escape(message);
    let elc = xml_escape(label_color);
    let emc = xml_escape(message_color);

    let lr = lw + 2 * HORIZONTAL_PADDING;
    let mr = mw + 2 * HORIZONTAL_PADDING;
    let tw = lr + mr;
    let lx = (lr / 2) * 10;
    let mx = (lr + mr / 2) * 10;
    let ltl = lw * 10;
    let mtl = mw * 10;

    let mut out = String::from_str(PLAIN_OPEN);
    push_dec(&mut out, tw);
    out.append(ARIA_MID);
    out.append(el.as_str());
    out.append(LABEL_SEP);
    out.append(em.as_str());
    out.append(TITLE_OPEN);
    out.append(el.as_str());
    out.append(LABEL_SEP);
    out.append(em.as_str());
    out.append(PLASTIC_GRADIENT);
    push_dec(&mut out, tw);
    out.append(CLIP_ROUND);
    push_dec(&mut out, lr);
    out.append(FILL_OPEN);
    out.append(elc.as_str());
    out.append(RECT_X_OPEN);
    push_dec(&mut out, lr);
    out.append(RECT_WIDTH_OPEN);
    push_dec(&mut out, mr);
    out.append(FILL_OPEN);
    out.append(emc.as_str());
    out.append(OVERLAY_RECT_OPEN);
    push_dec(&mut out, tw);
    out.append(PLASTIC_TEXT_GROUP);
    push_dec(&mut out, lx);
    out.append(PLASTIC_SHADOW_ATTRS);
    push_dec(&mut out, ltl);
    out.append(TEXT_BODY_OPEN);
    out.append(el.as_str());
    out.append(TEXT_NEXT_X);
    push_dec(&mut out, lx);
    out.append(PLASTIC_MAIN_ATTRS);
    push_dec(&mut out, ltl);
    out.append(TEXT_BODY_OPEN);
    out.append(el.as_str());
    out.append(TEXT_NEXT_SHADOW_X);
    push_dec(&mut out, mx);
    out.append(PLASTIC_SHADOW_ATTRS);
    push_dec(&mut out, mtl);
    out.append(TEXT_BODY_OPEN);
    out.append(em.as_str());
    out.append(TEXT_NEXT_X);
    push_dec(&mut out, mx);
    out.append(PLASTIC_MAIN_ATTRS);
    push_dec(&mut out, mtl);
    out.append(TEXT_BODY_OPEN);
    out.append(em.as_str());
    out.append(SVG_CLOSE);
    out
}

// ---------- Social ----------

pub const SOCIAL_HEAD: &'static str =
    "</title>\n<style>a:hover #llink{fill:url(#b);stroke:#ccc}a:hover #rlink{fill:#4183c4}</style>\n<linearGradient id=\"a\" x2=\"0\" y2=\"100%\">\n<stop offset=\"0\" stop-color=\"#fcfcfc\" stop-opacity=\"0\"/>\n<stop offset=\"1\" stop-opacity=\".1\"/>\n</linearGradient>\n<linearGradient id=\"b\" x2=\"0\" y2=\"100%\">\n<stop offset=\"0\" stop-color=\"#ccc\" stop-opacity=\".1\"/>\n<stop offset=\"1\" stop-opacity=\".1\"/>\n</linearGradient>\n<g stroke=\"#d5d5d5\">\n<rect stroke=\"none\" fill=\"#fcfcfc\" x=\"0.5\" y=\"0.5\" width=\"";

pub const SOCIAL_RECT1_CLOSE: &'static str = "\" height=\"19\" rx=\"2\"/>\n<rect x=\"";

pub const SOCIAL_RECT2_MID: &'static str = ".8\" y=\"0.5\" width=\"";

pub const SOCIAL_RECT2_CLOSE: &'static str =
    "\" height=\"19\" rx=\"2\" fill=\"#fafafa\"/>\n<rect x=\"";

pub const SOCIAL_DIVIDER: &'static str =
    "\" y=\"7.5\" width=\"0.5\" height=\"5\" stroke=\"#fafafa\"/>\n<path d=\"M";

pub const SOCIAL_ARROW: &'static str =
    " 6.5 l-3 3v1 l3 3\" stroke=\"#d5d5d5\" fill=\"#fafafa\"/>\n</g>\n<g aria-hidden=\"true\" fill=\"#333\" text-anchor=\"middle\" font-family=\"Helvetica Neue,Helvetica,Arial,sans-serif\" text-rendering=\"geometricPrecision\" font-weight=\"700\" font-size=\"110px\" line-height=\"14px\">\n<rect id=\"llink\" stroke=\"#d5d5d5\" fill=\"url(#a)\" x=\".5\" y=\".5\" width=\"";

pub const SOCIAL_LLINK_CLOSE: &'static str = "\" height=\"19\" rx=\"2\"/>\n<text aria-hidden=\"true\" x=\"";

pub const SOCIAL_SHADOW_ATTRS: &'static str =
    "\" y=\"150\" fill=\"#fff\" transform=\"scale(.1)\" textLength=\"";

pub const SOCIAL_MAIN_ATTRS: &'static str = "\" y=\"140\" transform=\"scale(.1)\" textLength=\"";

pub const SOCIAL_RLINK_X: &'static str = "</text>\n<text id=\"rlink\" x=\"";

/// The complete SVG text of a Social badge: two separate rounded rectangles
/// in a fixed light palette (caller colors are never consulted), joined by a
/// small arrow, with crisp 1 px borders from the half-pixel stroke offsets.
/// The message rectangle starts a fifth of a pixel left of the gap edge, so
/// its x attribute is the decimal rendering of `social_msg_start - 1`
/// followed by ".8".
pub open spec fn social_svg(lw: int, mw: int, el: Seq<char>, em: Seq<char>) -> Seq<char> {
    let lp = seg_width(lw);
    let mp = seg_width(mw);
    let ms = social_msg_start(lw);
    let twr = social_total_width(lw, mw);
    let ltx = lp * 5;
    let mtx = ms * 10 + mp * 5;
    let ltl = lw * 10;
    let mtl = mw * 10;
    PLAIN_OPEN@ + dec_str(twr as nat) + ARIA_MID@ + el + LABEL_SEP@ + em + TITLE_OPEN@ + el
        + LABEL_SEP@ + em + SOCIAL_HEAD@ + dec_str(lp as nat) + SOCIAL_RECT1_CLOSE@
        + dec_str((ms - 1) as nat) + SOCIAL_RECT2_MID@ + dec_str(mp as nat)
        + SOCIAL_RECT2_CLOSE@ + dec_str(ms as nat) + SOCIAL_DIVIDER@ + dec_str(ms as nat)
        + SOCIAL_ARROW@ + dec_str(lp as nat) + SOCIAL_LLINK_CLOSE@ + dec_str(ltx as nat)
        + SOCIAL_SHADOW_ATTRS@ + dec_str(ltl as nat) + TEXT_BODY_OPEN@ + el + TEXT_NEXT_X@
        + dec_str(ltx as nat) + SOCIAL_MAIN_ATTRS@ + dec_str(ltl as nat) + TEXT_BODY_OPEN@ + el
        + TEXT_NEXT_SHADOW_X@ + dec_str(mtx as nat) + SOCIAL_SHADOW_ATTRS@ + dec_str(mtl as nat)
        + TEXT_BODY_OPEN@ + em + SOCIAL_RLINK_X@ + dec_str(mtx as nat) + SOCIAL_MAIN_ATTRS@
        + dec_str(mtl as nat) + TEXT_BODY_OPEN@ + em + SVG_CLOSE@
}

/// Renders a Social style badge. The Social palette is fixed, so no color
/// arguments are taken.
fn render_social_badge_svg(label: &str, message: &str, registry: &TypefaceRegistry) -> (r: String)
    requires
        registry.wf(),
        label@.len() <= MAX_TEXT_LEN,
        message@.len() <= MAX_TEXT_LEN,
    ensures
        r@ == social_svg(
            px_width_of(registry.faces@, SOCIAL_FONT_FAMILY@, label@),
            px_width_of(registry.faces@, SOCIAL_FONT_FAMILY@, message@),
            escape_seq(label@),
            escape_seq(message@),
        ),
{
    let lw = crate::font_metrics::get_text_width_px(label, SOCIAL_FONT_FAMILY, registry) as u64;
    let mw = crate::font_metrics::get_text_width_px(message, SOCIAL_FONT_FAMILY, registry) as u64;
    let el = xml_escape(label);
    let em = xml_escape(message);

    let lp = lw + 2 * HORIZONTAL_PADDING;
    let mp = mw + 2 * HORIZONTAL_PADDING;
    let ms = lp + SOCIAL_GAP;
    let twr = ms + mp + 1;
    let ltx = lp * 5;
    let mtx = ms * 10 + mp * 5;
    let ltl = lw * 10;
    let mtl = mw * 10;

    let mut out = String::from_str(PLAIN_OPEN);
    push_dec(&mut out, twr);
    out.append(ARIA_MID);
    out.append(el.as_str());
    out.append(LABEL_SEP);
    out.append(em.as_str());
    out.append(TITLE_OPEN);
    out.append(el.as_str());
    out.append(LABEL_SEP);
    out.append(em.as_str());
    out.append(SOCIAL_HEAD);
    push_dec(&mut out, lp);
    out.append(SOCIAL_RECT1_CLOSE);
    push_dec(&mut out, ms - 1);
    out.append(SOCIAL_RECT2_MID);
    push_dec(&mut out, mp);
    out.append(SOCIAL_RECT2_CLOSE);
    push_dec(&mut out, ms);
    out.append(SOCIAL_DIVIDER);
    push_dec(&mut out, ms);
    out.append(SOCIAL_ARROW);
    push_dec(&mut out, lp);
    out.append(SOCIAL_LLINK_CLOSE);
    push_dec(&mut out, ltx);
    out.append(SOCIAL_SHADOW_ATTRS);
    push_dec(&mut out, ltl);
    out.append(TEXT_BODY_OPEN);
    out.append(el.as_str());
    out.append(TEXT_NEXT_X);
    push_dec(&mut out, ltx);
    out.append(SOCIAL_MAIN_ATTRS);
    push_dec(&mut out, ltl);
    out.append(TEXT_BODY_OPEN);
    out.append(el.as_str());
    out.append(TEXT_NEXT_SHADOW_X);
    push_dec(&mut out, mtx);
    out.append(SOCIAL_SHADOW_ATTRS);
    push_dec(&mut out, mtl);
    out.append(TEXT_BODY_OPEN);
    out.append(em.as_str());
    out.append(SOCIAL_RLINK_X);
    push_dec(&mut out, mtx);
    out.append(SOCIAL_MAIN_ATTRS);
    push_dec(&mut out, mtl);
    out.append(TEXT_BODY_OPEN);
    out.append(em.as_str());
    out.append(SVG_CLOSE);
    out
}

// ---------- facade ----------

/// The complete SVG text of a badge: the style picks the engine, the engine
/// measures the label and the message in its font family and lays the badge
/// out. Everything the image holds is a function of these inputs alone, so
/// rendering is deterministic.
pub open spec fn badge_svg(
    style: BadgeStyle,
    faces: Seq<crate::font_metrics::Typeface>,
    label: Seq<char>,
    message: Seq<char>,
    label_color: Seq<char>,
    message_color: Seq<char>,
) -> Seq<char> {
    match style {
        BadgeStyle::Flat => flat_like_svg(
            false,
            px_width_of(faces, FONT_FAMILY@, label),
            px_width_of(faces, FONT_FAMILY@, message),
            escape_seq(label),
            escape_seq(message),
            escape_seq(label_color),
            escape_seq(message_color),
        ),
        BadgeStyle::FlatSquare => flat_like_svg(
            true,
            px_width_of(faces, FONT_FAMILY@, label),
            px_width_of(faces, FONT_FAMILY@, message),
            escape_seq(label),
            escape_seq(message),
            escape_seq(label_color),
            escape_seq(message_color),
        ),
        BadgeStyle::Plastic => plastic_svg(
            px_width_of(faces, FONT_FAMILY@, label),
            px_width_of(faces, FONT_FAMILY@, message),
            escape_seq(label),
            escape_seq(message),
            escape_seq(label_color),
            escape_seq(message_color),
        ),
        BadgeStyle::Social => social_svg(
            px_width_of(faces, SOCIAL_FONT_FAMILY@, label),
            px_width_of(faces, SOCIAL_FONT_FAMILY@, message),
            escape_seq(label),
            escape_seq(message),
        ),
    }
}

/// Renders a badge in the requested style: pure dispatch to exactly one of
/// the four layout engines, forwarding the label, message and colors
/// unchanged. The dispatch is exhaustive over the closed style enumeration,
/// so no style can fail to match.
pub fn render_badge_svg(params: RenderBadgeParams<'_>, registry: &TypefaceRegistry) -> (r: String)
    requires
        registry.wf(),
        params.label@.len() <= MAX_TEXT_LEN,
        params.message@.len() <= MAX_TEXT_LEN,
    ensures
        r@ == badge_svg(
            params.style,
            registry.faces@,
            params.label@,
            params.message@,
            params.label_color@,
            params.message_color@,
        ),
{
    match params.style {
        BadgeStyle::Flat => render_flat_badge_svg(
            params.label,
            params.message,
            params.label_color,
            params.message_color,
            registry,
        ),
        BadgeStyle::Social => render_social_badge_svg(params.label, params.message, registry),
        BadgeStyle::FlatSquare => generate_flat_square_style_svg(
            params.label,
            params.message,
            params.label_color,
            params.message_color,
            registry,
        ),
        BadgeStyle::Plastic => render_plastic_style_svg(
            params.label,
            params.message,
            params.label_color,
            params.message_color,
            registry,
        ),
    }
}

// ---------- laws of the layout engines ----------

/// Law: the layout arithmetic is internally consistent — for every style,
/// the declared total image width is the sum of the two computed segment
/// widths, plus the inter-segment gap and the half-pixel round-up for the
/// Social style.
pub proof fn lemma_total_width_consistent(style: BadgeStyle, lw: int, mw: int)
    ensures
        style is Social ==> badge_total_width(style, lw, mw) == seg_width(lw) + seg_width(mw)
            + SOCIAL_GAP + 1,
        !(style is Social) ==> badge_total_width(style, lw, mw) == seg_width(lw) + seg_width(mw),
{
}

/// The font family a style measures its texts in.
pub open spec fn style_family(style: BadgeStyle) -> Seq<char> {
    if style is Social {
        SOCIAL_FONT_FAMILY@
    } else {
        FONT_FAMILY@
    }
}

/// The opening chunk a style's image text starts with, up to its width
/// attribute.
pub open spec fn style_open_chunk(style: BadgeStyle) -> Seq<char> {
    if style is Flat || style is FlatSquare {
        FLAT_OPEN@
    } else {
        PLAIN_OPEN@
    }
}

/// Law: a Flat or FlatSquare image declares the consistent total width —
/// its text begins with `<svg … width="` followed immediately by the
/// decimal rendering of the two segment widths' sum (each segment is its
/// measured text width plus 12 px of padding).
#[verifier::rlimit(80)]
pub proof fn lemma_flat_like_prefix(
    square: bool,
    lw: int,
    mw: int,
    el: Seq<char>,
    em: Seq<char>,
    elc: Seq<char>,
    emc: Seq<char>,
)
    ensures
        ({
            let head = FLAT_OPEN@ + dec_str((seg_width(lw) + seg_width(mw)) as nat);
            flat_like_svg(square, lw, mw, el, em, elc, emc).take(head.len() as int) == head
        }),
{
    let head = FLAT_OPEN@ + dec_str((seg_width(lw) + seg_width(mw)) as nat);
    assert(flat_like_svg(square, lw, mw, el, em, elc, emc).take(head.len() as int) =~= head);
}

/// Law: a Plastic image declares the consistent total width — its text
/// begins with `<svg … width="` followed immediately by the decimal
/// rendering of the two segment widths' sum.
#[verifier::rlimit(80)]
pub proof fn lemma_plastic_prefix(
    lw: int,
    mw: int,
    el: Seq<char>,
    em: Seq<char>,
    elc: Seq<char>,
    emc: Seq<char>,
)
    ensures
        ({
            let head = PLAIN_OPEN@ + dec_str((seg_width(lw) + seg_width(mw)) as nat);
            plastic_svg(lw, mw, el, em, elc, emc).take(head.len() as int) == head
        }),
{
    let head = PLAIN_OPEN@ + dec_str((seg_width(lw) + seg_width(mw)) as nat);
    assert(plastic_svg(lw, mw, el, em, elc, emc).take(head.len() as int) =~= head);
}

/// Law: a Social image declares the consistent total width — its text
/// begins with `<svg … width="` followed immediately by the decimal
/// rendering of [`social_total_width`]: both segments, the 6 px gap, and
/// the half-pixel right-edge offset rounded up to the next integer (the
/// message rectangle itself starts at `social_msg_start`, embedded later
/// in the same pinned template).
#[verifier::rlimit(80)]
pub proof fn lemma_social_prefix(lw: int, mw: int, el: Seq<char>, em: Seq<char>)
    ensures
        ({
            let head = PLAIN_OPEN@ + dec_str(social_total_width(lw, mw) as nat);
            social_svg(lw, mw, el, em).take(head.len() as int) == head
        }),
{
    let head = PLAIN_OPEN@ + dec_str(social_total_width(lw, mw) as nat);
    assert(social_svg(lw, mw, el, em).take(head.len() as int) =~= head);
}

/// Law: every rendered badge declares the consistent total width — the
/// image text begins with the style's opening chunk (ending in `width="`)
/// followed immediately by the decimal rendering of
/// [`badge_total_width`], the sum of the two computed segment widths plus
/// the Social gap and round-up.
pub proof fn lemma_svg_declares_total_width(
    style: BadgeStyle,
    faces: Seq<crate::font_metrics::Typeface>,
    label: Seq<char>,
    message: Seq<char>,
    label_color: Seq<char>,
    message_color: Seq<char>,
)
    ensures
        ({
            let lw = px_width_of(faces, style_family(style), label);
            let mw = px_width_of(faces, style_family(style), message);
            let head = style_open_chunk(style) + dec_str(badge_total_width(style, lw, mw) as nat);
            badge_svg(style, faces, label, message, label_color, message_color).take(
                head.len() as int,
            ) == head
        }),
{
    let lw = px_width_of(faces, style_family(style), label);
    let mw = px_width_of(faces, style_family(style), message);
    match style {
        BadgeStyle::Flat => {
            lemma_flat_like_prefix(
                false,
                lw,
                mw,
                escape_seq(label),
                escape_seq(message),
                escape_seq(label_color),
                escape_seq(message_color),
            );
        },
        BadgeStyle::FlatSquare => {
            lemma_flat_like_prefix(
                true,
                lw,
                mw,
                escape_seq(label),
                escape_seq(message),
                escape_seq(label_color),
                escape_seq(message_color),
            );
        },
        BadgeStyle::Plastic => {
            lemma_plastic_prefix(
                lw,
                mw,
                escape_seq(label),
                escape_seq(message),
                escape_seq(label_color),
                escape_seq(message_color),
            );
        },
        BadgeStyle::Social => {
            lemma_social_prefix(lw, mw, escape_seq(label), escape_seq(message));
        },
    }
}

/// Law: rendering is deterministic — two badges rendered from identical
/// inputs are byte-identical strings, since the facade's contract pins the
/// output to a function of the inputs alone.
pub proof fn lemma_render_deterministic(
    r1: Seq<char>,
    r2: Seq<char>,
    style: BadgeStyle,
    faces: Seq<crate::font_metrics::Typeface>,
    label: Seq<char>,
    message: Seq<char>,
    label_color: Seq<char>,
    message_color: Seq<char>,
)
    requires
        r1 == badge_svg(style, faces, label, message, label_color, message_color),
        r2 == badge_svg(style, faces, label, message, label_color, message_color),
    ensures
        r1 == r2,
{
}

/// Law: the Social style ignores the supplied colors entirely — renders
/// that differ only in their color arguments are byte-identical.
pub proof fn lemma_social_ignores_colors(
    faces: Seq<crate::font_metrics::Typeface>,
    label: Seq<char>,
    message: Seq<char>,
    c1: Seq<char>,
    c2: Seq<char>,
    c3: Seq<char>,
    c4: Seq<char>,
)
    ensures
        badge_svg(BadgeStyle::Social, faces, label, message, c1, c2) == badge_svg(
            BadgeStyle::Social,
            faces,
            label,
            message,
            c3,
            c4,
        ),
{
}

} // verus!
