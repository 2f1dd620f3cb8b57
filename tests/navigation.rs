use xlidst::navigation::{step, Command, Navigator};

#[test]
fn previous_never_goes_below_first() {
    let mut nav = Navigator::new(4).unwrap();
    for _ in 0..10 {
        nav.handle(Command::Previous);
        assert_eq!(nav.current(), 0);
    }
}

#[test]
fn next_never_passes_last() {
    let mut nav = Navigator::new(3).unwrap();
    let mut seen = Vec::new();
    for _ in 0..6 {
        nav.handle(Command::Next);
        seen.push(nav.current());
    }
    assert_eq!(seen, vec![1, 2, 2, 2, 2, 2]);
}

#[test]
fn single_slide_show_stays_put() {
    assert_eq!(step(0, 1, Command::Next), 0);
    assert_eq!(step(0, 1, Command::Previous), 0);
}

#[test]
fn steps_move_by_one() {
    assert_eq!(step(2, 5, Command::Next), 3);
    assert_eq!(step(2, 5, Command::Previous), 1);
}

#[test]
fn show_without_slides_has_no_navigator() {
    assert!(Navigator::new(0).is_none());
    assert_eq!(Navigator::new(2).unwrap().slide_count(), 2);
}
