//! The circle drawer's canvas: which circle the pointer selects, what a
//! click asks for, and where each circle is painted.
use vstd::prelude::*;
use crate::circle_map::{Circles, all_fit, any_holds, is_nearest_holding};
use crate::geometry::{Coord, Radius};

verus! {

/// The pointer events that the canvas tells apart.
#[derive(Clone, Copy, Debug, PartialEq, Eq)]
pub enum PointerEvent {
    /// The pointer entered the canvas.
    Enter,
    /// The pointer moved over the canvas.
    Move,
    /// A mouse button, given by its number, was released over the canvas.
    Released(i32),
    /// Any other event.
    Other,
}

/// What the canvas does with a pointer event.
#[derive(Clone, Copy, Debug, PartialEq, Eq)]
pub struct CanvasReply {
    /// The event was used.
    pub handled: bool,
    /// The circle selected after the event.
    pub selection: Option<(Coord, Radius)>,
    /// The canvas must be painted again.
    pub redraw: bool,
    /// Ask for a circle at this point.
    pub add_at: Option<Coord>,
    /// Offer the menu that opens the diameter dialog.
    pub offer_menu: bool,
}

/// The reply to a pointer event at `pos`, with `selected` selected before.
/// A move selects the circle that `nearest` names (the nearest circle that
/// holds `pos`, if any) and repaints when the selection changes; a left
/// release away from every circle asks for a new circle there; a right
/// release on a selected circle offers the menu; entering is used and
/// changes nothing; other events are not used.
pub open spec fn canvas_reply(
    event: PointerEvent,
    selected: Option<(Coord, Radius)>,
    nearest: Option<(Coord, Radius)>,
    pos: Coord,
) -> CanvasReply {
    match event {
        PointerEvent::Enter => CanvasReply { handled: true, selection: selected, redraw: false, add_at: None, offer_menu: false },
        PointerEvent::Move => CanvasReply { handled: true, selection: nearest, redraw: nearest != selected, add_at: None, offer_menu: false },
        PointerEvent::Released(b) => if b == MOUSE_LEFT_BUTTON {
            CanvasReply { handled: true, selection: selected, redraw: false, add_at: if selected is None { Some(pos) } else { None }, offer_menu: false }
        } else if b == MOUSE_RIGHT_BUTTON {
            CanvasReply { handled: true, selection: selected, redraw: false, add_at: None, offer_menu: selected is Some }
        } else {
            CanvasReply { handled: false, selection: selected, redraw: false, add_at: None, offer_menu: false }
        },
        PointerEvent::Other => CanvasReply { handled: false, selection: selected, redraw: false, add_at: None, offer_menu: false },
    }
}

/// The left mouse button.
pub const MOUSE_LEFT_BUTTON: i32 = 1;

/// The right mouse button.
pub const MOUSE_RIGHT_BUTTON: i32 = 3;

fn same_selection(a: Option<(Coord, Radius)>, b: Option<(Coord, Radius)>) -> (r: bool)
    ensures
        r == (a == b),
{
    match (a, b) {
        (Some((ca, ra)), Some((cb, rb))) => ca.0 == cb.0 && ca.1 == cb.1 && ra == rb,
        (None, None) => true,
        _ => false,
    }
}

/// Handles a pointer event at `pos` on a canvas that shows `circles`, with
/// `selected` selected before.
pub fn canvas_event(
    circles: &Circles,
    selected: Option<(Coord, Radius)>,
    event: PointerEvent,
    pos: Coord,
) -> (reply: CanvasReply)
    requires
        event is Move ==> all_fit(circles@, pos),
    ensures
        event is Move ==> {
            &&& reply.selection is None <==> !any_holds(circles@, pos)
            &&& (reply.selection matches Some((c, r)) ==> is_nearest_holding(circles@, pos, c, r))
        },
        reply == canvas_reply(event, selected, if event is Move { reply.selection } else { None }, pos),
        reply.add_at is Some <==> event == PointerEvent::Released(MOUSE_LEFT_BUTTON) && selected is None,
        reply.add_at is Some ==> reply.add_at == Some(pos),
        reply.offer_menu <==> event == PointerEvent::Released(MOUSE_RIGHT_BUTTON) && selected is Some,
        reply.handled <==> (event is Enter || event is Move || event == PointerEvent::Released(MOUSE_LEFT_BUTTON)
            || event == PointerEvent::Released(MOUSE_RIGHT_BUTTON)),
        !(event is Move) ==> reply.selection == selected && !reply.redraw,
        event is Move ==> (reply.redraw <==> reply.selection != selected),
{
    match event {
        PointerEvent::Enter => CanvasReply { handled: true, selection: selected, redraw: false, add_at: None, offer_menu: false },
        PointerEvent::Move => {
            let nearest = circles.circle_at(pos);
            let redraw = !same_selection(nearest, selected);
            CanvasReply { handled: true, selection: nearest, redraw, add_at: None, offer_menu: false }
        },
        PointerEvent::Released(b) => {
            if b == MOUSE_LEFT_BUTTON {
                let add_at = if selected.is_none() { Some(pos) } else { None };
                CanvasReply { handled: true, selection: selected, redraw: false, add_at, offer_menu: false }
            } else if b == MOUSE_RIGHT_BUTTON {
                CanvasReply { handled: true, selection: selected, redraw: false, add_at: None, offer_menu: selected.is_some() }
            } else {
                CanvasReply { handled: false, selection: selected, redraw: false, add_at: None, offer_menu: false }
            }
        },
        PointerEvent::Other => CanvasReply { handled: false, selection: selected, redraw: false, add_at: None, offer_menu: false },
    }
}

/// How one circle is painted: the square that bounds it, and whether it is
/// filled as the selected one.
#[derive(Clone, Copy, Debug, PartialEq, Eq)]
pub struct CircleShape {
    /// The circle's centre, in canvas coordinates.
    pub center: Coord,
    /// The left side of the bounding square, in window coordinates.
    pub x: i32,
    /// The top side of the bounding square, in window coordinates.
    pub y: i32,
    /// The side of the bounding square.
    pub diameter: i32,
    /// The circle is the selected one.
    pub highlighted: bool,
}

/// The painted bounds of a circle stay within 32-bit integers for a canvas
/// whose corner lies at `origin` in the window.
pub open spec fn shape_fits(origin: Coord, c: Coord, r: Radius) -> bool {
    &&& i32::MIN <= origin.0 + c.0 <= i32::MAX
    &&& i32::MIN <= origin.0 + c.0 - r <= i32::MAX
    &&& i32::MIN <= origin.1 + c.1 <= i32::MAX
    &&& i32::MIN <= origin.1 + c.1 - r <= i32::MAX
    &&& i32::MIN <= r * 2 <= i32::MAX
}

/// How the circle at `c` of radius `r` is painted.
pub open spec fn shape_of(origin: Coord, c: Coord, r: Radius, selected: Option<(Coord, Radius)>) -> CircleShape {
    CircleShape {
        center: c,
        x: (origin.0 + c.0 - r) as i32,
        y: (origin.1 + c.1 - r) as i32,
        diameter: (r * 2) as i32,
        highlighted: selected matches Some((sc, _)) && sc == c,
    }
}

fn shape(origin: Coord, c: Coord, r: Radius, selected: Option<(Coord, Radius)>) -> (s: CircleShape)
    requires
        shape_fits(origin, c, r),
    ensures
        s == shape_of(origin, c, r, selected),
{
    let highlighted = match selected {
        Some((sc, _)) => sc.0 == c.0 && sc.1 == c.1,
        None => false,
    };
    CircleShape { center: c, x: origin.0 + c.0 - r, y: origin.1 + c.1 - r, diameter: r * 2, highlighted }
}

/// Whether every circle's painted bounds stay within 32-bit integers for a
/// canvas whose corner lies at `origin`.
pub fn shapes_fit(circles: &Circles, origin: Coord) -> (b: bool)
    ensures
        b == forall|c: Coord| #[trigger] circles@.contains_key(c) ==> shape_fits(origin, c, circles@[c]),
{
    let entries = circles.entries();
    let mut i: usize = 0;
    while i < entries.len()
        invariant
            i <= entries@.len(),
            forall|j: int| 0 <= j < entries@.len() ==> #[trigger] circles@.contains_key(entries@[j].0) && circles@[entries@[j].0] == entries@[j].1,
            forall|c: Coord| #[trigger] circles@.contains_key(c) ==> exists|j: int| 0 <= j < entries@.len() && entries@[j] == (c, circles@[c]),
            forall|j: int| 0 <= j < i ==> shape_fits(origin, #[trigger] entries@[j].0, entries@[j].1),
        decreases entries@.len() - i,
    {
        let (c, r) = entries[i];
        let x: i64 = origin.0 as i64 + c.0 as i64;
        let y: i64 = origin.1 as i64 + c.1 as i64;
        let lo: i64 = -0x8000_0000;
        let hi: i64 = 0x7fff_ffff;
        if x < lo || x > hi || x - (r as i64) < lo || x - (r as i64) > hi || y < lo || y > hi || y - (r as i64) < lo
            || y - (r as i64) > hi || (r as i64) * 2 < lo || (r as i64) * 2 > hi {
            proof {
                assert(circles@.contains_key(entries@[i as int].0));
            }
            return false;
        }
        i = i + 1;
    }
    proof {
        assert forall|c: Coord| #[trigger] circles@.contains_key(c) implies shape_fits(origin, c, circles@[c]) by {
            let j = choose|j: int| 0 <= j < entries@.len() && entries@[j] == (c, circles@[c]);
            assert(shape_fits(origin, entries@[j].0, entries@[j].1));
        }
    }
    true
}

/// The shapes to paint, one for each circle, in no set order, for a canvas
/// whose corner lies at `origin` in the window.
pub fn draw_plan(circles: &Circles, selected: Option<(Coord, Radius)>, origin: Coord) -> (plan: Vec<CircleShape>)
    requires
        forall|c: Coord| #[trigger] circles@.contains_key(c) ==> shape_fits(origin, c, circles@[c]),
    ensures
        forall|i: int| 0 <= i < plan@.len() ==> #[trigger] circles@.contains_key(plan@[i].center)
            && plan@[i] == shape_of(origin, plan@[i].center, circles@[plan@[i].center], selected),
        forall|c: Coord| #[trigger] circles@.contains_key(c) ==> exists|i: int| 0 <= i < plan@.len() && plan@[i].center == c,
        forall|i: int, j: int| 0 <= i < j < plan@.len() ==> plan@[i].center != plan@[j].center,
{
    let entries = circles.entries();
    let mut plan: Vec<CircleShape> = Vec::new();
    let mut i: usize = 0;
    while i < entries.len()
        invariant
            i <= entries@.len(),
            plan@.len() == i,
            forall|c: Coord| #[trigger] circles@.contains_key(c) ==> shape_fits(origin, c, circles@[c]),
            forall|j: int| 0 <= j < entries@.len() ==> #[trigger] circles@.contains_key(entries@[j].0) && circles@[entries@[j].0] == entries@[j].1,
            forall|j: int| 0 <= j < i ==> #[trigger] plan@[j] == shape_of(origin, entries@[j].0, entries@[j].1, selected),
        decreases entries@.len() - i,
    {
        let (c, r) = entries[i];
        assert(circles@.contains_key(entries@[i as int].0));
        plan.push(shape(origin, c, r, selected));
        i = i + 1;
    }
    proof {
        assert forall|i: int| 0 <= i < plan@.len() implies #[trigger] circles@.contains_key(plan@[i].center)
            && plan@[i] == shape_of(origin, plan@[i].center, circles@[plan@[i].center], selected) by {
            assert(circles@.contains_key(entries@[i].0));
        }
        assert forall|c: Coord| #[trigger] circles@.contains_key(c) implies exists|i: int| 0 <= i < plan@.len() && plan@[i].center == c by {
            let j = choose|j: int| 0 <= j < entries@.len() && entries@[j] == (c, circles@[c]);
            assert(plan@[j].center == c);
        }
        assert forall|i: int, j: int| 0 <= i < j < plan@.len() implies plan@[i].center != plan@[j].center by {
            assert(plan@[i].center == entries@[i].0);
            assert(plan@[j].center == entries@[j].0);
        }
    }
    plan
}

/// Only a left release away from every circle asks for a circle, at the
/// point of release; only a right release on a selected circle offers the
/// menu; only a move changes the selection or repaints.
pub proof fn lemma_canvas_reply_roles(
    event: PointerEvent,
    selected: Option<(Coord, Radius)>,
    nearest: Option<(Coord, Radius)>,
    pos: Coord,
)
    ensures
        canvas_reply(event, selected, nearest, pos).add_at is Some
            <==> event == PointerEvent::Released(MOUSE_LEFT_BUTTON) && selected is None,
        canvas_reply(event, selected, nearest, pos).add_at is Some
            ==> canvas_reply(event, selected, nearest, pos).add_at == Some(pos),
        canvas_reply(event, selected, nearest, pos).offer_menu
            <==> event == PointerEvent::Released(MOUSE_RIGHT_BUTTON) && selected is Some,
        !(event is Move) ==> canvas_reply(event, selected, nearest, pos).selection == selected
            && !canvas_reply(event, selected, nearest, pos).redraw,
        event is Move ==> canvas_reply(event, selected, nearest, pos).selection == nearest
            && (canvas_reply(event, selected, nearest, pos).redraw <==> nearest != selected),
{
}

/// A circle is painted in the square of side twice its radius centred on
/// it, moved by the canvas's corner; it is filled exactly when it is the
/// selected circle.
pub proof fn lemma_shape_geometry(origin: Coord, c: Coord, r: Radius, selected: Option<(Coord, Radius)>)
    requires
        shape_fits(origin, c, r),
    ensures
        shape_of(origin, c, r, selected).center == c,
        shape_of(origin, c, r, selected).diameter == 2 * r,
        shape_of(origin, c, r, selected).x + r == origin.0 + c.0,
        shape_of(origin, c, r, selected).y + r == origin.1 + c.1,
        shape_of(origin, c, r, selected).highlighted <==> (selected is Some && (selected->0).0 == c),
{
}

} // verus!
