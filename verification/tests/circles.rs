use seven_guis::canvas::{canvas_event, draw_plan, shapes_fit, CircleShape, PointerEvent};
use seven_guis::circle_drawer::{handle_message, CircleEffect, CircleMessage};
use seven_guis::circle_map::Circles;
use seven_guis::history::Model;

fn sorted(mut v: Vec<((i32, i32), i32)>) -> Vec<((i32, i32), i32)> {
    v.sort();
    v
}

#[test]
fn circles_keep_one_radius_per_centre() {
    let mut c = Circles::new();
    assert!(c.entries().is_empty());
    c.insert((10, 20), 5);
    c.insert((-3, 7), 9);
    c.insert((10, 20), 8);
    assert_eq!(c.get((10, 20)), Some(8));
    assert_eq!(c.get((-3, 7)), Some(9));
    assert_eq!(c.get((20, 10)), None);
    assert_eq!(sorted(c.entries()), vec![((-3, 7), 9), ((10, 20), 8)]);
    let d = c.duplicate();
    assert_eq!(sorted(d.entries()), sorted(c.entries()));
}

#[test]
fn extreme_centres_are_kept_apart() {
    let mut c = Circles::new();
    let corners = [(i32::MIN, i32::MIN), (i32::MIN, i32::MAX), (i32::MAX, i32::MIN), (i32::MAX, i32::MAX), (0, 0), (-1, -1)];
    for (i, p) in corners.iter().enumerate() {
        c.insert(*p, i as i32);
    }
    for (i, p) in corners.iter().enumerate() {
        assert_eq!(c.get(*p), Some(i as i32));
    }
    assert_eq!(c.entries().len(), corners.len());
}

#[test]
fn the_nearest_circle_that_holds_the_pointer_is_picked() {
    let mut c = Circles::new();
    c.insert((0, 0), 20);
    c.insert((30, 0), 20);
    c.insert((100, 100), 5);
    assert!(c.fits_at((10, 0)));
    assert_eq!(c.circle_at((10, 0)), Some(((0, 0), 20)));
    assert_eq!(c.circle_at((22, 0)), Some(((30, 0), 20)));
    assert_eq!(c.circle_at((60, 60)), None);
    assert_eq!(c.circle_at((104, 103)), Some(((100, 100), 5)));
    assert_eq!(c.circle_at((104, 104)), Some(((100, 100), 5)));
    assert_eq!(c.circle_at((104, 105)), None);
}

#[test]
fn distances_that_overflow_are_detected() {
    let mut c = Circles::new();
    c.insert((40000, 40000), 5);
    assert!(!c.fits_at((0, 0)));
    assert!(c.fits_at((39000, 39000)));
    let mut far = Circles::new();
    far.insert((i32::MAX, 0), 5);
    assert!(!far.fits_at((-1, 0)));
}

#[test]
fn undo_takes_back_an_edit_and_redo_restores_it() {
    let mut m = Model::new();
    assert!(!m.can_undo());
    assert!(!m.can_redo());
    m.save();
    m.set((5, 5), 20);
    assert!(m.can_undo());
    assert_eq!(m.circles().get((5, 5)), Some(20));
    m.undo();
    assert_eq!(m.circles().get((5, 5)), None);
    assert!(m.can_redo());
    m.redo();
    assert_eq!(m.circles().get((5, 5)), Some(20));
    assert!(!m.can_redo());
}

#[test]
fn saving_forgets_what_could_be_redone() {
    let mut m = Model::new();
    m.save();
    m.set((1, 1), 20);
    m.save();
    m.set((2, 2), 20);
    m.undo();
    m.undo();
    assert!(m.can_redo());
    m.save();
    m.set((3, 3), 20);
    assert!(!m.can_redo());
    assert_eq!(m.circles().get((3, 3)), Some(20));
    assert_eq!(m.circles().get((1, 1)), None);
    m.undo();
    assert!(!m.can_undo());
    assert!(m.circles().entries().is_empty());
}

#[test]
fn window_messages_drive_the_history() {
    let mut m = Model::new();
    let e = handle_message(&mut m, CircleMessage::Add((40, 50)), None, 0);
    assert!(matches!(e, CircleEffect::NotifyChanged));
    assert_eq!(m.circles().get((40, 50)), Some(20));
    match handle_message(&mut m, CircleMessage::ModelChanged, None, 0) {
        CircleEffect::Refresh { undo_enabled, redo_enabled } => {
            assert!(undo_enabled);
            assert!(!redo_enabled);
        }
        other => panic!("unexpected {:?}", other),
    }
    match handle_message(&mut m, CircleMessage::AdjustOpened, Some(((40, 50), 20)), 0) {
        CircleEffect::ShowAdjust { label, radius } => {
            assert_eq!(label, "Adjust diameter of circle at (40, 50).");
            assert_eq!(radius, 20);
        }
        other => panic!("unexpected {:?}", other),
    }
    let e = handle_message(&mut m, CircleMessage::RadiusChanged, Some(((40, 50), 20)), 33);
    assert!(matches!(e, CircleEffect::NotifyChanged));
    assert_eq!(m.circles().get((40, 50)), Some(33));
    handle_message(&mut m, CircleMessage::Undo, None, 0);
    assert_eq!(m.circles().get((40, 50)), Some(20));
    handle_message(&mut m, CircleMessage::Undo, None, 0);
    assert_eq!(m.circles().get((40, 50)), None);
    handle_message(&mut m, CircleMessage::Redo, None, 0);
    assert_eq!(m.circles().get((40, 50)), Some(20));
}

#[test]
fn the_dialog_label_shows_negative_coordinates() {
    let mut m = Model::new();
    match handle_message(&mut m, CircleMessage::AdjustOpened, Some(((-5, 7), 3)), 0) {
        CircleEffect::ShowAdjust { label, radius } => {
            assert_eq!(label, format!("Adjust diameter of circle at {:?}.", (-5, 7)));
            assert_eq!(radius, 3);
        }
        other => panic!("unexpected {:?}", other),
    }
}

#[test]
fn pointer_events_select_add_and_offer_the_menu() {
    let mut c = Circles::new();
    c.insert((50, 50), 20);
    let r = canvas_event(&c, None, PointerEvent::Move, (55, 55));
    assert!(r.handled);
    assert_eq!(r.selection, Some(((50, 50), 20)));
    assert!(r.redraw);
    let r2 = canvas_event(&c, r.selection, PointerEvent::Move, (56, 55));
    assert!(!r2.redraw);
    let r3 = canvas_event(&c, r.selection, PointerEvent::Released(1), (56, 55));
    assert_eq!(r3.add_at, None);
    let r4 = canvas_event(&c, None, PointerEvent::Released(1), (150, 150));
    assert_eq!(r4.add_at, Some((150, 150)));
    let r5 = canvas_event(&c, r.selection, PointerEvent::Released(3), (56, 55));
    assert!(r5.offer_menu);
    let r6 = canvas_event(&c, None, PointerEvent::Released(3), (150, 150));
    assert!(!r6.offer_menu && r6.handled);
    let r7 = canvas_event(&c, r.selection, PointerEvent::Released(2), (56, 55));
    assert!(!r7.handled);
    let r8 = canvas_event(&c, r.selection, PointerEvent::Enter, (0, 0));
    assert!(r8.handled && r8.selection == r.selection);
    let r9 = canvas_event(&c, r.selection, PointerEvent::Move, (0, 0));
    assert_eq!(r9.selection, None);
    assert!(r9.redraw);
    assert!(!canvas_event(&c, None, PointerEvent::Other, (0, 0)).handled);
}

#[test]
fn each_circle_is_painted_in_its_square() {
    let mut c = Circles::new();
    c.insert((50, 60), 20);
    c.insert((100, 10), 5);
    assert!(shapes_fit(&c, (10, 45)));
    let mut plan = draw_plan(&c, Some(((50, 60), 20)), (10, 45));
    plan.sort_by_key(|s| s.center);
    assert_eq!(
        plan,
        vec![
            CircleShape { center: (50, 60), x: 40, y: 85, diameter: 40, highlighted: true },
            CircleShape { center: (100, 10), x: 105, y: 50, diameter: 10, highlighted: false },
        ]
    );
    let mut huge = Circles::new();
    huge.insert((0, 0), i32::MAX);
    assert!(!shapes_fit(&huge, (0, 0)));
}

#[test]
fn one_undo_takes_back_a_whole_diameter_adjustment() {
    let mut m = Model::new();
    handle_message(&mut m, CircleMessage::Add((10, 10)), None, 0);
    let sel = Some(((10, 10), 20));
    handle_message(&mut m, CircleMessage::AdjustOpened, sel, 0);
    for r in [25, 30, 12, 40] {
        handle_message(&mut m, CircleMessage::RadiusChanged, sel, r);
    }
    assert_eq!(m.circles().get((10, 10)), Some(40));
    handle_message(&mut m, CircleMessage::Undo, None, 0);
    assert_eq!(m.circles().get((10, 10)), Some(20));
    handle_message(&mut m, CircleMessage::Redo, None, 0);
    assert_eq!(m.circles().get((10, 10)), Some(40));
}
