//! What the engine asks of the host toolkit's answers.

use vstd::prelude::*;

verus! {

/// `egui::Response`: the toolkit's record of how the pointer met one widget
/// in this frame. The engine carries it and asks it one question; it never
/// looks inside.
#[verifier::external_type_specification]
#[verifier::external_body]
pub struct ExResponse(egui::Response);

/// What `egui::Response::clicked` answers for a response: whether the toolkit
/// recorded in it a click of the primary pointer button on the widget. The
/// answer is read from the response alone, so one response always gives one
/// answer; which responses hold a click is the toolkit's business.
pub uninterp spec fn primary_click(response: egui::Response) -> bool;

/// `egui::Response::clicked` reads the click of the primary pointer button
/// out of the response. Claimed is only that the answer is the one that
/// belongs to this response.
pub assume_specification[ egui::Response::clicked ](response: &egui::Response) -> (clicked: bool)
    ensures
        clicked == primary_click(*response),
;

} // verus!
