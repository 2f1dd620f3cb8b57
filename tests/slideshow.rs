use xlidst::animation::Animation;
use xlidst::render::ViewElement;
use xlidst::scene::{Element, ImageHandle, Text, TypstElement, PAGE_DIRECTIVE};
use xlidst::slides::{ShowError, Slide, Slideshow};

fn texture_count(slide: &Slide) -> usize {
    slide.get_elements().iter().filter(|e| matches!(e, Element::Texture(_))).count()
}

#[test]
fn add_before_slide_fails() {
    let mut show = Slideshow::new();
    assert_eq!(show.add(TypstElement::from("$x$")), Err(ShowError::UnopenedSlide));
    assert_eq!(show.slides().len(), 0);
    assert_eq!(show.animate(Animation::new(1, (0, 0), (1, 1), 1)), Err(ShowError::UnopenedSlide));
}

#[test]
fn elements_land_in_last_slide_in_order() {
    let mut show = Slideshow::new();
    show.slide();
    assert_eq!(show.add(TypstElement::from("a")), Ok(()));
    show.slide();
    assert_eq!(show.add(TypstElement::from("b")), Ok(()));
    assert_eq!(show.add(TypstElement::from("c")), Ok(()));
    let slides = show.slides();
    assert_eq!(slides.len(), 2);
    assert_eq!(slides[0].get_elements().len(), 2);
    let second = slides[1].get_elements();
    assert_eq!(second.len(), 3);
    let sources: Vec<String> = second
        .iter()
        .filter_map(|e| match e {
            Element::Texture(t) => Some(t.get_source().clone()),
            Element::Root(_) => None,
        })
        .collect();
    assert_eq!(sources, vec![format!("{}b", PAGE_DIRECTIVE), format!("{}c", PAGE_DIRECTIVE)]);
}

#[test]
fn every_slide_starts_with_root() {
    let slide = Slide::new();
    assert_eq!(slide.get_elements().len(), 1);
    assert!(matches!(slide.get_elements()[0], Element::Root(_)));
    let mut show = Slideshow::new();
    show.slide();
    for i in 0..5 {
        show.add(TypstElement::from(&format!("{}", i))).unwrap();
        assert!(matches!(show.slides()[0].get_elements()[0], Element::Root(_)));
    }
    match &show.slides()[0].get_elements()[0] {
        Element::Root(r) => assert!(r.get_children().is_none()),
        Element::Texture(_) => panic!("root expected"),
    }
}

#[test]
fn element_starts_at_origin_unrendered() {
    let e = TypstElement::from("$f(x)$");
    assert_eq!(e.get_source(), "#set page(width: auto, height: auto, fill: none)\n$f(x)$");
    assert_eq!((e.get_x(), e.get_y(), e.get_scale()), (0, 0, 100));
    assert_eq!(e.get_texture(), None);
    assert!(e.needs_render());
}

#[test]
fn moving_keeps_cached_image() {
    let mut e = TypstElement::from("$f(x)$");
    e.store_texture(Some(ImageHandle { id: 7 }));
    e.set_x(-20);
    e.set_y(100);
    e.set_scale(150);
    assert_eq!(e.get_texture(), Some(ImageHandle { id: 7 }));
    assert!(!e.needs_render());
    assert_eq!((e.get_x(), e.get_y(), e.get_scale()), (-20, 100, 150));
}

#[test]
fn new_source_marks_image_stale() {
    let mut e = TypstElement::from("a");
    e.store_texture(None);
    assert!(!e.needs_render());
    e.set_source("b");
    assert!(e.needs_render());
    assert_eq!(e.get_source(), &format!("{}b", PAGE_DIRECTIVE));
}

#[test]
fn text_is_wrapped_in_markup() {
    let mut show = Slideshow::new();
    show.slide();
    show.add(Text::from("hello")).unwrap();
    match &show.slides()[0].get_elements()[1] {
        Element::Texture(t) => assert_eq!(t.get_source(), &format!("{}#text([hello])", PAGE_DIRECTIVE)),
        Element::Root(_) => panic!("texture expected"),
    }
}

#[test]
fn projection_counts_textures_per_slide() {
    let mut show = Slideshow::new();
    show.slide();
    show.slide();
    show.add(TypstElement::from("a")).unwrap();
    show.slide();
    show.add(TypstElement::from("b")).unwrap();
    show.add(TypstElement::from("c")).unwrap();
    let views = show.to_view_slides();
    assert_eq!(views.len(), 3);
    let counts: Vec<usize> = views.iter().map(|v| v.elements.len()).collect();
    assert_eq!(counts, vec![0, 1, 2]);
    let originals: Vec<usize> = show.slides().iter().map(texture_count).collect();
    assert_eq!(originals, counts);
    for v in &views {
        assert_eq!((v.background_color.red, v.background_color.green, v.background_color.blue), (255, 255, 255));
    }
}

#[test]
fn projection_keeps_positions_whatever_render_order() {
    let mut show = Slideshow::new();
    show.slide();
    let first = TypstElement::from("$f(x) = x$");
    let mut second = TypstElement::from("$f'(x) = 1$");
    second.set_y(100);
    show.add(first).unwrap();
    show.add(second).unwrap();
    let mut slides = show.get_slides();
    // Rasterize the later element first, and let the earlier one fail.
    slides[0].store_texture(2, Some(ImageHandle { id: 1 }));
    slides[0].store_texture(1, None);
    let view = xlidst::render::view_slide(&slides[0]);
    assert_eq!(
        view.elements,
        vec![
            ViewElement::Texture { texture: None, x: 0, y: 0, scale: 100 },
            ViewElement::Texture { texture: Some(ImageHandle { id: 1 }), x: 0, y: 100, scale: 100 },
        ]
    );
}

#[test]
fn storing_on_root_changes_nothing() {
    let mut slide = Slide::new();
    slide.store_texture(0, Some(ImageHandle { id: 3 }));
    assert_eq!(xlidst::render::view_slide(&slide).elements.len(), 0);
}

#[test]
fn render_requests_list_stale_textures_in_order() {
    let mut show = Slideshow::new();
    show.slide();
    show.add(TypstElement::from("a")).unwrap();
    show.slide();
    show.slide();
    show.add(TypstElement::from("b")).unwrap();
    show.add(TypstElement::from("c")).unwrap();
    assert_eq!(show.render_requests(), vec![(0, 1), (2, 1), (2, 2)]);
    show.store_texture(2, 1, Some(ImageHandle { id: 4 }));
    show.store_texture(0, 1, None);
    assert_eq!(show.render_requests(), vec![(2, 2)]);
    show.store_texture(2, 2, Some(ImageHandle { id: 5 }));
    assert!(show.render_requests().is_empty());
    let views = show.to_view_slides();
    assert_eq!(
        views[2].elements,
        vec![
            ViewElement::Texture { texture: Some(ImageHandle { id: 4 }), x: 0, y: 0, scale: 100 },
            ViewElement::Texture { texture: Some(ImageHandle { id: 5 }), x: 0, y: 0, scale: 100 },
        ]
    );
    assert_eq!(views[0].elements, vec![ViewElement::Texture { texture: None, x: 0, y: 0, scale: 100 }]);
}

#[test]
fn show_tick_moves_only_that_slide() {
    let mut show = Slideshow::new();
    show.slide();
    show.add(TypstElement::from("a")).unwrap();
    show.animate(Animation::new(1, (0, 0), (40, 0), 4)).unwrap();
    show.slide();
    show.add(TypstElement::from("b")).unwrap();
    show.animate(Animation::new(1, (0, 0), (0, 40), 4)).unwrap();
    show.tick(1, 2);
    let views = show.to_view_slides();
    assert_eq!(views[0].elements, vec![ViewElement::Texture { texture: None, x: 0, y: 0, scale: 100 }]);
    assert_eq!(views[1].elements, vec![ViewElement::Texture { texture: None, x: 0, y: 20, scale: 100 }]);
}

#[test]
fn many_adds_land_in_order_after_root() {
    let mut show = Slideshow::new();
    show.slide();
    show.add(TypstElement::from("first slide")).unwrap();
    show.slide();
    for i in 0..7 {
        show.add(TypstElement::from(&format!("{}", i))).unwrap();
    }
    let slides = show.slides();
    assert_eq!(slides.len(), 2);
    assert_eq!(slides[0].get_elements().len(), 2);
    let elements = slides[1].get_elements();
    assert_eq!(elements.len(), 8);
    match &elements[0] {
        Element::Root(r) => assert!(r.get_children().is_none()),
        Element::Texture(_) => panic!("root expected"),
    }
    for i in 0..7 {
        match &elements[i + 1] {
            Element::Texture(t) => assert_eq!(t.get_source(), &format!("{}{}", PAGE_DIRECTIVE, i)),
            Element::Root(_) => panic!("texture expected"),
        }
    }
}
