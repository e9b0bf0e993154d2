use seven_guis::crud::{format_name, handle_crud, Crud, CrudInputs, CrudMessage};
use seven_guis::flight::{
    booking_message, decide, initial_form, kind_of_choice, update, Date, FlightForm, FlightKind,
};
use seven_guis::timer::Timer;

fn form(kind: FlightKind, start: &str, ret: &str) -> FlightForm {
    FlightForm { kind, start_text: start.to_string(), return_text: ret.to_string() }
}

#[test]
fn only_existing_days_are_dates() {
    assert!(Date { year: 2024, month: 2, day: 29 }.is_valid());
    assert!(!Date { year: 2023, month: 2, day: 29 }.is_valid());
    assert!(!Date { year: 1900, month: 2, day: 29 }.is_valid());
    assert!(Date { year: 2000, month: 2, day: 29 }.is_valid());
    assert!(Date { year: -4, month: 2, day: 29 }.is_valid());
    assert!(!Date { year: 2024, month: 4, day: 31 }.is_valid());
    assert!(!Date { year: 2024, month: 13, day: 1 }.is_valid());
    assert!(!Date { year: 2024, month: 0, day: 1 }.is_valid());
    assert!(!Date { year: 400000, month: 1, day: 1 }.is_valid());
    assert!(Date { year: 262142, month: 12, day: 31 }.is_valid());
    assert!(!Date { year: 262143, month: 1, day: 1 }.is_valid());
}

#[test]
fn dates_compare_by_day() {
    let a = Date { year: 2024, month: 3, day: 5 };
    let b = Date { year: 2024, month: 3, day: 6 };
    let c = Date { year: 2023, month: 12, day: 31 };
    assert!(a.not_after(&b));
    assert!(!b.not_after(&a));
    assert!(a.not_after(&a));
    assert!(c.not_after(&a));
    assert!(!a.not_after(&c));
}

#[test]
fn the_choice_names_the_kind() {
    assert_eq!(kind_of_choice(0), FlightKind::OneWay);
    assert_eq!(kind_of_choice(1), FlightKind::Return);
}

#[test]
fn the_form_opens_on_today() {
    let f = initial_form(&Date { year: 2024, month: 3, day: 5 });
    assert_eq!(f.kind, FlightKind::OneWay);
    assert_eq!(f.start_text, "2024-03-05");
    assert_eq!(f.return_text, "2024-03-05");
    let u = update(&f);
    assert!(u.book_enabled && u.start_valid && !u.return_enabled && u.return_valid.is_none());
}

#[test]
fn years_are_written_with_four_digits_and_a_sign_outside_them() {
    assert_eq!(initial_form(&Date { year: 5, month: 1, day: 9 }).start_text, "0005-01-09");
    assert_eq!(initial_form(&Date { year: -5, month: 12, day: 31 }).start_text, "-0005-12-31");
    assert_eq!(initial_form(&Date { year: 12345, month: 10, day: 1 }).start_text, "+12345-10-01");
    assert_eq!(initial_form(&Date { year: -262143, month: 1, day: 1 }).return_text, "-262143-01-01");
    assert_eq!(initial_form(&Date { year: 0, month: 6, day: 15 }).start_text, "0000-06-15");
}

#[test]
fn what_is_written_reads_back() {
    for (y, m, d) in [(2024, 2, 29), (5, 1, 9), (9999, 12, 31), (1, 1, 1)] {
        let f = initial_form(&Date { year: y, month: m, day: d });
        let g = FlightForm { kind: FlightKind::Return, start_text: f.start_text.clone(), return_text: f.return_text };
        let u = update(&g);
        assert!(u.book_enabled, "{:?}", g);
    }
}

#[test]
fn a_one_way_flight_needs_a_start_date() {
    let u = update(&form(FlightKind::OneWay, "2024-03-05", "garbage"));
    assert!(u.book_enabled);
    assert!(!u.return_enabled);
    assert_eq!(u.return_valid, None);
    let u = update(&form(FlightKind::OneWay, "2024-02-30", "2024-03-05"));
    assert!(!u.book_enabled);
    assert!(!u.start_valid);
    let u = update(&form(FlightKind::OneWay, "5 March", "2024-03-05"));
    assert!(!u.book_enabled);
}

#[test]
fn a_return_flight_needs_ordered_dates() {
    let u = update(&form(FlightKind::Return, "2024-03-05", "2024-03-07"));
    assert!(u.book_enabled && u.return_enabled);
    assert_eq!(u.return_valid, Some(true));
    let u = update(&form(FlightKind::Return, "2024-03-05", "2024-03-05"));
    assert!(u.book_enabled);
    let u = update(&form(FlightKind::Return, "2024-03-07", "2024-03-05"));
    assert!(!u.book_enabled);
    assert!(u.start_valid);
    assert_eq!(u.return_valid, Some(true));
    let u = update(&form(FlightKind::Return, "2024-03-07", "2015-9-31"));
    assert!(!u.book_enabled);
    assert_eq!(u.return_valid, Some(false));
}

#[test]
fn decisions_follow_the_dates_given() {
    let a = Some(Date { year: 2024, month: 1, day: 1 });
    let b = Some(Date { year: 2025, month: 1, day: 1 });
    assert!(decide(FlightKind::Return, a, b).book_enabled);
    assert!(!decide(FlightKind::Return, b, a).book_enabled);
    assert!(!decide(FlightKind::Return, a, None).book_enabled);
    assert!(decide(FlightKind::OneWay, a, None).book_enabled);
    assert!(!decide(FlightKind::OneWay, None, b).book_enabled);
}

#[test]
fn bookings_are_confirmed_in_words() {
    assert_eq!(
        booking_message(&form(FlightKind::OneWay, "2024-03-05", "x")),
        "You have booked a one-way flight for 2024-03-05."
    );
    assert_eq!(
        booking_message(&form(FlightKind::Return, "2024-03-05", "2024-03-09")),
        "You have booked a return flight from 2024-03-05 to 2024-03-09"
    );
}

#[test]
fn the_timer_stops_at_its_duration() {
    let mut t = Timer::new();
    assert_eq!(t.label(), "0.0s");
    t.change_duration(300_000);
    assert_eq!(t.tick(), Some("0.1s".to_string()));
    assert_eq!(t.tick(), Some("0.2s".to_string()));
    assert_eq!(t.tick(), Some("0.3s".to_string()));
    assert_eq!(t.tick(), None);
    assert_eq!(t.elapsed_tenths(), 3);
    t.change_duration(305_000);
    assert_eq!(t.tick(), None);
    t.change_duration(310_000);
    assert_eq!(t.tick(), Some("0.4s".to_string()));
    t.reset();
    assert_eq!(t.elapsed_tenths(), 0);
    assert_eq!(t.duration_micros(), 310_000);
}

#[test]
fn the_timer_runs_fifteen_seconds_by_default() {
    let mut t = Timer::new();
    let mut ticks = 0;
    while t.tick().is_some() {
        ticks += 1;
    }
    assert_eq!(ticks, 150);
    assert_eq!(t.label(), "15.0s");
}

fn names(c: &Crud) -> Vec<String> {
    c.shown("")
}

fn sample() -> Crud {
    Crud::new(vec!["Babbage, Charles".to_string(), "Lovelace, Ada".to_string(), "Turing, Alan".to_string()])
}

#[test]
fn names_are_written_surname_first() {
    assert_eq!(format_name("Ada", "Lovelace"), "Lovelace, Ada");
}

#[test]
fn entries_are_created_updated_and_deleted() {
    let mut c = sample();
    c.create("Grace", "Hopper");
    assert_eq!(names(&c).last().unwrap(), "Hopper, Grace");
    c.update("Lovelace, Ada", "Augusta Ada", "King");
    assert_eq!(names(&c)[1], "King, Augusta Ada");
    c.delete("Turing, Alan");
    assert_eq!(names(&c), vec!["Babbage, Charles", "King, Augusta Ada", "Hopper, Grace"]);
    assert_eq!(c.len(), 3);
    assert_eq!(c.position("Hopper, Grace"), Some(2));
    assert_eq!(c.position("Turing, Alan"), None);
}

#[test]
fn only_the_first_of_equal_entries_changes() {
    let mut c = Crud::new(vec!["A, B".to_string(), "A, B".to_string()]);
    c.update("A, B", "D", "C");
    assert_eq!(names(&c), vec!["C, D", "A, B"]);
    c.delete("A, B");
    assert_eq!(names(&c), vec!["C, D"]);
}

#[test]
fn the_filter_ignores_case() {
    let c = sample();
    assert_eq!(c.shown("t"), vec!["Turing, Alan"]);
    assert_eq!(c.shown("TUR"), vec!["Turing, Alan"]);
    assert_eq!(c.shown("l"), vec!["Lovelace, Ada"]);
    assert!(c.shown("x").is_empty());
    assert_eq!(c.shown("").len(), 3);
}

fn inputs(name: &str, surname: &str, prefix: &str, line: i32, text: Option<&str>) -> CrudInputs {
    CrudInputs {
        name: name.to_string(),
        surname: surname.to_string(),
        prefix: prefix.to_string(),
        selected_line: line,
        selected_text: text.map(|t| t.to_string()),
    }
}

#[test]
fn window_messages_drive_the_list() {
    let mut c = sample();
    let r = handle_crud(&mut c, CrudMessage::Filter, &inputs("", "", "b", 0, None));
    assert_eq!(r.lines, Some(vec!["Babbage, Charles".to_string()]));
    assert_eq!(r.follow_up, vec![CrudMessage::Select]);
    let r = handle_crud(&mut c, CrudMessage::Select, &inputs("", "", "b", 0, None));
    assert_eq!(r.edit_enabled, Some(false));
    let r = handle_crud(&mut c, CrudMessage::Select, &inputs("", "", "b", 1, Some("Babbage, Charles")));
    assert_eq!(r.edit_enabled, Some(true));
    let r = handle_crud(&mut c, CrudMessage::Create, &inputs("Grace", "Hopper", "", 0, None));
    assert_eq!(r.follow_up, vec![CrudMessage::Filter]);
    let r = handle_crud(&mut c, CrudMessage::Update, &inputs("C.", "Babbage", "", 1, Some("Babbage, Charles")));
    assert_eq!(r.follow_up, vec![CrudMessage::Filter]);
    let r = handle_crud(&mut c, CrudMessage::Delete, &inputs("", "", "", 2, Some("Lovelace, Ada")));
    assert_eq!(r.follow_up, vec![CrudMessage::Filter, CrudMessage::Select]);
    assert_eq!(names(&c), vec!["Babbage, C.", "Turing, Alan", "Hopper, Grace"]);
}
