use xlidst::animation::Animation;
use xlidst::render::{view_slide, ViewElement};
use xlidst::scene::{Element, TypstElement};
use xlidst::slides::Slideshow;

#[test]
fn position_interpolates_linearly() {
    let a = Animation::new(1, (0, 0), (100, -50), 10);
    assert_eq!(a.position_at(0), (0, 0));
    assert_eq!(a.position_at(5), (50, -25));
    assert_eq!(a.position_at(3), (30, -15));
    assert_eq!(a.position_at(10), (100, -50));
    assert_eq!(a.position_at(99), (100, -50));
}

#[test]
fn partial_steps_round_toward_start() {
    let a = Animation::new(1, (0, 10), (10, 0), 3);
    // 10 * 1 / 3 = 3.33: three points covered in each direction.
    assert_eq!(a.position_at(1), (3, 7));
}

#[test]
fn zero_duration_jumps_to_end() {
    let a = Animation::new(1, (5, 5), (-7, 9), 0);
    assert_eq!(a.position_at(0), (-7, 9));
}

#[test]
fn extreme_coordinates_do_not_overflow() {
    let a = Animation::new(1, (i32::MIN, i32::MAX), (i32::MAX, i32::MIN), u32::MAX);
    assert_eq!(a.position_at(u32::MAX - 1).0 > 0, true);
    assert_eq!(a.position_at(u32::MAX), (i32::MAX, i32::MIN));
}

#[test]
fn tick_moves_targets_in_attachment_order() {
    let mut show = Slideshow::new();
    show.slide();
    show.add(TypstElement::from("a")).unwrap();
    show.add(TypstElement::from("b")).unwrap();
    show.animate(Animation::new(1, (0, 0), (10, 10), 10)).unwrap();
    // A second animation of the same element wins: it runs later.
    show.animate(Animation::new(1, (0, 0), (0, 100), 10)).unwrap();
    // Targets out of range or on the root are ignored.
    show.animate(Animation::new(0, (0, 0), (9, 9), 1)).unwrap();
    show.animate(Animation::new(7, (0, 0), (9, 9), 1)).unwrap();
    let mut slides = show.get_slides();
    slides[0].tick(5);
    let view = view_slide(&slides[0]);
    assert_eq!(
        view.elements,
        vec![
            ViewElement::Texture { texture: None, x: 0, y: 50, scale: 100 },
            ViewElement::Texture { texture: None, x: 0, y: 0, scale: 100 },
        ]
    );
    assert!(matches!(slides[0].get_elements()[0], Element::Root(_)));
}
