//! What the circle drawer does on each message of its window and on each
//! pointer event of its canvas.
use vstd::prelude::*;
use vstd::string::*;
use crate::geometry::{Coord, Radius};
use crate::history::{
    History, Model, history_wf, redo_possible, redone, saved, shown, undo_possible, undone, with_circle,
};
use crate::text::{int_text, push_int};

verus! {

/// The radius of a circle drawn by a click.
pub const NEW_CIRCLE_RADIUS: Radius = 20;

/// The messages of the circle drawer's window.
#[derive(Clone, Copy, Debug, PartialEq, Eq)]
pub enum CircleMessage {
    /// The undo button was pressed.
    Undo,
    /// The redo button was pressed.
    Redo,
    /// The canvas was clicked outside every circle, at this point.
    Add(Coord),
    /// The diameter dialog was asked for on the selected circle.
    AdjustOpened,
    /// The diameter slider moved.
    RadiusChanged,
    /// The drawing or its history changed.
    ModelChanged,
}

/// What the window does after a message.
#[derive(Debug)]
pub enum CircleEffect {
    /// Send `ModelChanged`.
    NotifyChanged,
    /// Open the diameter dialog with this label, its slider at this radius.
    ShowAdjust { label: String, radius: Radius },
    /// Enable or disable the two buttons, and show the current drawing.
    Refresh { undo_enabled: bool, redo_enabled: bool },
}

/// The label of the diameter dialog for a circle centred at `c`.
pub open spec fn adjust_label(c: Coord) -> Seq<char> {
    "Adjust diameter of circle at ("@ + int_text(c.0 as int) + ", "@ + int_text(c.1 as int) + ")."@
}

/// A message can be handled: undo and redo only where possible, and the
/// dialog and its slider only with a circle selected.
pub open spec fn message_allowed(h: History, msg: CircleMessage, selected: Option<(Coord, Radius)>) -> bool {
    match msg {
        CircleMessage::Undo => undo_possible(h),
        CircleMessage::Redo => redo_possible(h),
        CircleMessage::AdjustOpened => selected is Some,
        CircleMessage::RadiusChanged => selected is Some,
        _ => true,
    }
}

/// The history after a message: undo and redo move through it; a click
/// saves and draws a circle of the default radius; opening the dialog saves;
/// moving the slider sets the selected circle's radius.
pub open spec fn history_after(
    h: History,
    msg: CircleMessage,
    selected: Option<(Coord, Radius)>,
    slider_radius: Radius,
) -> History {
    match msg {
        CircleMessage::Undo => undone(h),
        CircleMessage::Redo => redone(h),
        CircleMessage::Add(p) => with_circle(saved(h), p, NEW_CIRCLE_RADIUS),
        CircleMessage::AdjustOpened => saved(h),
        CircleMessage::RadiusChanged => with_circle(h, (selected->0).0, slider_radius),
        CircleMessage::ModelChanged => h,
    }
}

/// Handles one message of the window. `selected` is the circle selected on
/// the canvas, and `slider_radius` the radius that the slider shows.
pub fn handle_message(
    model: &mut Model,
    msg: CircleMessage,
    selected: Option<(Coord, Radius)>,
    slider_radius: Radius,
) -> (effect: CircleEffect)
    requires
        old(model).wf(),
        message_allowed(old(model)@, msg, selected),
    ensures
        final(model).wf(),
        final(model)@ == history_after(old(model)@, msg, selected, slider_radius),
        msg is RadiusChanged ==> shown(final(model)@) == shown(old(model)@).insert((selected->0).0, slider_radius)
            && final(model)@.1 == old(model)@.1 && final(model)@.0.len() == old(model)@.0.len(),
        msg matches CircleMessage::Add(p) ==> shown(final(model)@) == shown(old(model)@).insert(p, NEW_CIRCLE_RADIUS)
            && undo_possible(final(model)@) && !redo_possible(final(model)@)
            && shown(undone(final(model)@)) == shown(old(model)@),
        msg is AdjustOpened ==> shown(final(model)@) == shown(old(model)@) && undo_possible(final(model)@)
            && !redo_possible(final(model)@) && shown(undone(final(model)@)) == shown(old(model)@),
        msg is Undo ==> final(model)@.0 == old(model)@.0 && final(model)@.1 == old(model)@.1 - 1,
        msg is Redo ==> final(model)@.0 == old(model)@.0 && final(model)@.1 == old(model)@.1 + 1,
        msg is ModelChanged ==> final(model)@ == old(model)@,
        match msg {
            CircleMessage::AdjustOpened => effect matches CircleEffect::ShowAdjust { label, radius }
                && label@ == adjust_label((selected->0).0) && radius == (selected->0).1,
            CircleMessage::ModelChanged => effect matches CircleEffect::Refresh { undo_enabled, redo_enabled }
                && undo_enabled == undo_possible(old(model)@) && redo_enabled == redo_possible(old(model)@),
            _ => effect is NotifyChanged,
        },
{
    match msg {
        CircleMessage::Undo => {
            model.undo();
            CircleEffect::NotifyChanged
        },
        CircleMessage::Redo => {
            model.redo();
            CircleEffect::NotifyChanged
        },
        CircleMessage::Add(p) => {
            model.save();
            model.set(p, NEW_CIRCLE_RADIUS);
            CircleEffect::NotifyChanged
        },
        CircleMessage::AdjustOpened => {
            model.save();
            let (c, r) = match selected {
                Some(s) => s,
                None => ((0, 0), 0),
            };
            let mut label = String::new();
            label.append("Adjust diameter of circle at (");
            push_int(&mut label, c.0 as i64);
            label.append(", ");
            push_int(&mut label, c.1 as i64);
            label.append(").");
            CircleEffect::ShowAdjust { label, radius: r }
        },
        CircleMessage::RadiusChanged => {
            let c = match selected {
                Some(s) => s.0,
                None => (0, 0),
            };
            model.set(c, slider_radius);
            CircleEffect::NotifyChanged
        },
        CircleMessage::ModelChanged => {
            CircleEffect::Refresh { undo_enabled: model.can_undo(), redo_enabled: model.can_redo() }
        },
    }
}

/// The history after the slider moved to each radius of `radii` in turn,
/// with the circle at `c` selected.
pub open spec fn after_slides(h: History, c: Coord, radii: Seq<Radius>) -> History
    decreases radii.len(),
{
    if radii.len() == 0 {
        h
    } else {
        history_after(after_slides(h, c, radii.drop_last()), CircleMessage::RadiusChanged, Some((c, 0)), radii.last())
    }
}

proof fn lemma_slides_keep_earlier(h: History, c: Coord, radii: Seq<Radius>)
    requires
        history_wf(h),
    ensures
        after_slides(h, c, radii).1 == h.1,
        after_slides(h, c, radii).0.len() == h.0.len(),
        forall|i: int| 0 <= i < h.1 ==> #[trigger] after_slides(h, c, radii).0[i] == h.0[i],
    decreases radii.len(),
{
    if radii.len() > 0 {
        lemma_slides_keep_earlier(h, c, radii.drop_last());
    }
}

/// A click that draws a circle is taken back by one undo.
pub proof fn lemma_click_then_undo(h: History, p: Coord, selected: Option<(Coord, Radius)>, slider_radius: Radius)
    requires
        history_wf(h),
    ensures
        ({
            let clicked = history_after(h, CircleMessage::Add(p), selected, slider_radius);
            &&& history_wf(clicked)
            &&& shown(clicked) == shown(h).insert(p, NEW_CIRCLE_RADIUS)
            &&& message_allowed(clicked, CircleMessage::Undo, selected)
            &&& shown(history_after(clicked, CircleMessage::Undo, selected, slider_radius)) == shown(h)
        }),
{
}

/// Opening the diameter dialog and moving its slider any number of times is
/// taken back by one undo: the dialog saves once, and the slider edits only
/// the saved copy.
pub proof fn lemma_adjust_then_undo(h: History, c: Coord, r: Radius, radii: Seq<Radius>)
    requires
        history_wf(h),
    ensures
        ({
            let opened = history_after(h, CircleMessage::AdjustOpened, Some((c, r)), 0);
            let slid = after_slides(opened, c, radii);
            &&& history_wf(slid)
            &&& message_allowed(slid, CircleMessage::Undo, Some((c, r)))
            &&& shown(history_after(slid, CircleMessage::Undo, Some((c, r)), 0)) == shown(h)
        }),
{
    let opened = saved(h);
    lemma_slides_keep_earlier(opened, c, radii);
}

/// What each message does to the drawing on screen: a click adds a circle
/// of the default radius at the point clicked; the slider sets the selected
/// circle's radius to exactly the slider's radius, smaller or larger; opening
/// the dialog keeps the drawing; undo and redo move one step back or forward
/// through the same saved drawings.
pub proof fn lemma_message_effects(h: History, msg: CircleMessage, c: Coord, r: Radius, slider_radius: Radius)
    requires
        history_wf(h),
        message_allowed(h, msg, Some((c, r))),
    ensures
        ({
            let after = history_after(h, msg, Some((c, r)), slider_radius);
            &&& history_wf(after)
            &&& (msg is RadiusChanged ==> shown(after) == shown(h).insert(c, slider_radius)
                && after.1 == h.1 && after.0.len() == h.0.len())
            &&& (msg is RadiusChanged ==> shown(after)[c] == slider_radius)
            &&& (msg matches CircleMessage::Add(p) ==> shown(after) == shown(h).insert(p, NEW_CIRCLE_RADIUS)
                && shown(undone(after)) == shown(h))
            &&& (msg is AdjustOpened ==> shown(after) == shown(h) && shown(undone(after)) == shown(h))
            &&& (msg is Undo ==> after.0 == h.0 && after.1 == h.1 - 1)
            &&& (msg is Redo ==> after.0 == h.0 && after.1 == h.1 + 1)
            &&& (msg is ModelChanged ==> after == h)
        }),
{
}

} // verus!
