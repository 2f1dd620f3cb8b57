//! The renderer-facing projection of a slideshow.
use vstd::prelude::*;
use crate::scene::{Element, ElementView, ImageHandle};
use crate::slides::{Slide, Slideshow, element_views};

verus! {

/// An 8-bit RGB color.
#[derive(Debug, Clone, Copy, PartialEq, Eq, Structural)]
pub struct Rgb8 {
    pub red: u8,
    pub green: u8,
    pub blue: u8,
}

/// Background of every projected slide: white.
pub open spec fn background() -> Rgb8 {
    Rgb8 { red: 255, green: 255, blue: 255 }
}

fn background_color() -> (r: Rgb8)
    ensures
        r == background(),
{
    Rgb8 { red: 255, green: 255, blue: 255 }
}

/// A positioned image, ready to paint. `texture` is `None` where
/// rasterization failed: nothing is painted for it.
#[derive(Debug, Clone, Copy, PartialEq, Eq, Structural)]
pub enum ViewElement {
    Texture { texture: Option<ImageHandle>, x: i32, y: i32, scale: u32 },
}

/// A slide as the renderer sees it: a background and what to paint over it.
pub struct ViewSlide {
    pub background_color: Rgb8,
    pub elements: Vec<ViewElement>,
}

/// What an element projects to: nothing for the root, the texture element's
/// cached image and placement otherwise.
pub open spec fn project_elements(elements: Seq<ElementView>) -> Seq<ViewElement>
    decreases elements.len(),
{
    if elements.len() == 0 {
        Seq::empty()
    } else {
        let rest = project_elements(elements.drop_last());
        match elements.last() {
            ElementView::Root { .. } => rest,
            ElementView::Texture(t) => rest.push(
                ViewElement::Texture { texture: t.texture, x: t.x, y: t.y, scale: t.scale },
            ),
        }
    }
}

/// How many texture elements there are.
pub open spec fn texture_count(elements: Seq<ElementView>) -> nat
    decreases elements.len(),
{
    if elements.len() == 0 {
        0
    } else {
        texture_count(elements.drop_last()) + if elements.last() is Texture { 1nat } else { 0nat }
    }
}

/// A slide projects to one view element per texture element, in paint order.
pub proof fn lemma_projection_length(elements: Seq<ElementView>)
    ensures
        project_elements(elements).len() == texture_count(elements),
    decreases elements.len(),
{
    if elements.len() > 0 {
        lemma_projection_length(elements.drop_last());
    }
}

/// Projects one slide.
pub fn view_slide(slide: &Slide) -> (r: ViewSlide)
    ensures
        r.background_color == background(),
        r.elements@ == project_elements(slide@.elements),
{
    let elements = slide.get_elements();
    let mut out: Vec<ViewElement> = Vec::new();
    let mut i: usize = 0;
    while i < elements.len()
        invariant
            0 <= i <= elements@.len(),
            element_views(elements@) == slide@.elements,
            out@ == project_elements(slide@.elements.subrange(0, i as int)),
        decreases elements@.len() - i,
    {
        proof {
            let s = slide@.elements;
            assert(s.subrange(0, i + 1).drop_last() =~= s.subrange(0, i as int));
            assert(s.subrange(0, i + 1).last() == elements@[i as int]@);
        }
        match &elements[i] {
            Element::Root(_) => {},
            Element::Texture(t) => {
                out.push(
                    ViewElement::Texture {
                        texture: t.get_texture(),
                        x: t.get_x(),
                        y: t.get_y(),
                        scale: t.get_scale(),
                    },
                );
            },
        }
        i = i + 1;
    }
    proof {
        assert(slide@.elements.subrange(0, i as int) =~= slide@.elements);
    }
    ViewSlide { background_color: background_color(), elements: out }
}

impl Slideshow {
    /// Projects every slide, in order: roots are left out, each texture
    /// element becomes a view element with its cached image and placement.
    pub fn to_view_slides(&self) -> (r: Vec<ViewSlide>)
        ensures
            r@.len() == self@.len(),
            forall|i: int| 0 <= i < r@.len() ==> (#[trigger] r@[i]).background_color == background()
                && r@[i].elements@ == project_elements(self@[i].elements),
    {
        let slides = self.slides();
        let mut out: Vec<ViewSlide> = Vec::new();
        let mut i: usize = 0;
        while i < slides.len()
            invariant
                0 <= i <= slides@.len(),
                slides@.map_values(|s: Slide| s@) == self@,
                out@.len() == i,
                forall|j: int| 0 <= j < i ==> (#[trigger] out@[j]).background_color == background()
                    && out@[j].elements@ == project_elements(self@[j].elements),
            decreases slides@.len() - i,
        {
            let v = view_slide(&slides[i]);
            out.push(v);
            i = i + 1;
        }
        out
    }
}

} // verus!
