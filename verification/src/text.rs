//! Placeholder resolution and the layout of a text layer around its anchor.

use vstd::prelude::*;
use vstd::string::StringExecFns;
use crate::config::{Config, PositionedText};

verus! {

/// One composition request: the runtime values a template is instantiated
/// with. Constructed by the caller, consumed once.
#[derive(Debug)]
pub struct Request {
    pub tournament_name: String,
    pub round_name: String,
    pub date: String,
    pub player_1: String,
    pub fighter_1: String,
    pub player_2: String,
    pub fighter_2: String,
}

/// The closed substitution table: five reserved names map to the request's
/// fields; any other value is rendered verbatim. Matching is exact and
/// case-sensitive, so a literal label that equals a reserved name is
/// replaced.
pub open spec fn resolve_spec(text: Seq<char>, req: Request) -> Seq<char> {
    if text == "TOURNAMENT_NAME"@ {
        req.tournament_name@
    } else if text == "PLAYER_1"@ {
        req.player_1@
    } else if text == "PLAYER_2"@ {
        req.player_2@
    } else if text == "ROUND_NAME"@ {
        req.round_name@
    } else if text == "DATE"@ {
        req.date@
    } else {
        text
    }
}

/// Resolves one placeholder-or-literal value against the request.
pub fn resolve_text(text: &String, req: &Request) -> (r: String)
    ensures
        r@ == resolve_spec(text@, *req),
{
    if *text == String::from_str("TOURNAMENT_NAME") {
        req.tournament_name.clone()
    } else if *text == String::from_str("PLAYER_1") {
        req.player_1.clone()
    } else if *text == String::from_str("PLAYER_2") {
        req.player_2.clone()
    } else if *text == String::from_str("ROUND_NAME") {
        req.round_name.clone()
    } else if *text == String::from_str("DATE") {
        req.date.clone()
    } else {
        text.clone()
    }
}

/// Resolves every text element of the template, in declared order, keeping
/// each element's anchor, scale and rotation.
pub fn resolve_texts(config: &Config, req: &Request) -> (r: Vec<PositionedText>)
    ensures
        r@.len() == config.positioned_texts@.len(),
        forall|i: int|
            0 <= i < r@.len() ==> {
                let src = config.positioned_texts@[i];
                &&& (#[trigger] r@[i]).text@ == resolve_spec(src.text@, *req)
                &&& r@[i].x == src.x
                &&& r@[i].y == src.y
                &&& r@[i].scale_milli == src.scale_milli
                &&& r@[i].theta_milli == src.theta_milli
            },
{
    let mut r: Vec<PositionedText> = Vec::new();
    let mut i: usize = 0;
    while i < config.positioned_texts.len()
        invariant
            i <= config.positioned_texts.len(),
            r@.len() == i,
            forall|j: int|
                0 <= j < i ==> {
                    let src = config.positioned_texts@[j];
                    &&& (#[trigger] r@[j]).text@ == resolve_spec(src.text@, *req)
                    &&& r@[j].x == src.x
                    &&& r@[j].y == src.y
                    &&& r@[j].scale_milli == src.scale_milli
                    &&& r@[j].theta_milli == src.theta_milli
                },
        decreases config.positioned_texts.len() - i,
    {
        let src = &config.positioned_texts[i];
        r.push(
            PositionedText {
                text: resolve_text(&src.text, req),
                x: src.x,
                y: src.y,
                scale_milli: src.scale_milli,
                theta_milli: src.theta_milli,
            },
        );
        i = i + 1;
    }
    r
}

/// The top-left corner at which a text extent must be painted so that the
/// unrotated text is centered on the anchor, as the renderer places it
/// before rotating about that same anchor.
pub fn centered_top_left(anchor_x: i32, anchor_y: i32, text_w: u32, text_h: u32) -> (r: (
    i32,
    i32,
))
    requires
        text_w <= i32::MAX as u32,
        text_h <= i32::MAX as u32,
        anchor_x as int - text_w as int / 2 >= i32::MIN,
        anchor_y as int - text_h as int / 2 >= i32::MIN,
    ensures
        r.0 == anchor_x as int - text_w as int / 2,
        r.1 == anchor_y as int - text_h as int / 2,
{
    (anchor_x - (text_w as i32) / 2, anchor_y - (text_h as i32) / 2)
}

/// Rotation about the anchor keeps the anchor fixed, and with no rotation the
/// placed box is centered there: the midpoint of an even extent painted at
/// the computed top-left corner is exactly the anchor.
pub proof fn lemma_anchor_is_center(anchor: int, extent: int)
    requires
        0 <= extent,
        extent % 2 == 0,
    ensures
        (anchor - extent / 2) + extent / 2 == anchor,
        (anchor - extent / 2) + (anchor - extent / 2) + extent == 2 * anchor,
{
}

} // verus!
