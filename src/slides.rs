//! Slides and the slideshow that owns them.
use vstd::prelude::*;
use crate::animation::Animation;
use crate::scene::{Element, ElementView, ImageHandle, RootElement, TextureView, ToElement, empty_root};

verus! {

/// What a slide is: its elements in paint order, and its animations in the
/// order they were attached.
pub struct SlideView {
    pub elements: Seq<ElementView>,
    pub animations: Seq<Animation>,
}

/// The views of a sequence of elements.
pub open spec fn element_views(elements: Seq<Element>) -> Seq<ElementView> {
    elements.map_values(|e: Element| e@)
}

/// An element after a rasterization outcome has been cached on it; a root
/// is left as it is.
pub open spec fn stored_view(e: ElementView, texture: Option<ImageHandle>) -> ElementView {
    match e {
        ElementView::Root { .. } => e,
        ElementView::Texture(t) => ElementView::Texture(
            TextureView { texture: texture, stale: false, ..t },
        ),
    }
}

/// The elements after `a` has moved its target to where it is at `tick`.
/// A target that is out of range or a root is left alone.
pub open spec fn apply_animation(elements: Seq<ElementView>, a: Animation, tick: int) -> Seq<ElementView> {
    if a.target < elements.len() {
        match elements[a.target as int] {
            ElementView::Root { .. } => elements,
            ElementView::Texture(t) => {
                let (x, y) = a.spec_position_at(tick);
                elements.update(a.target as int, ElementView::Texture(TextureView { x: x, y: y, ..t }))
            },
        }
    } else {
        elements
    }
}

/// The elements after each animation has been applied once, in order.
pub open spec fn apply_animations(elements: Seq<ElementView>, animations: Seq<Animation>, tick: int) -> Seq<ElementView>
    decreases animations.len(),
{
    if animations.len() == 0 {
        elements
    } else {
        apply_animation(
            apply_animations(elements, animations.drop_last(), tick),
            animations.last(),
            tick,
        )
    }
}

/// Animations move texture elements only: the number of elements and every
/// root stay as they were.
pub proof fn lemma_animations_keep_roots(elements: Seq<ElementView>, animations: Seq<Animation>, tick: int)
    ensures
        apply_animations(elements, animations, tick).len() == elements.len(),
        forall|i: int|
            0 <= i < elements.len() && elements[i] is Root ==> #[trigger] apply_animations(
                elements,
                animations,
                tick,
            )[i] == elements[i],
    decreases animations.len(),
{
    if animations.len() > 0 {
        lemma_animations_keep_roots(elements, animations.drop_last(), tick);
    }
}

/// Positions `(slide, element)` of the stale texture elements of one slide,
/// in paint order.
pub open spec fn stale_in_slide(elements: Seq<ElementView>, slide: int) -> Seq<(usize, usize)>
    decreases elements.len(),
{
    if elements.len() == 0 {
        Seq::empty()
    } else {
        let rest = stale_in_slide(elements.drop_last(), slide);
        match elements.last() {
            ElementView::Texture(t) => if t.stale {
                rest.push((slide as usize, (elements.len() - 1) as usize))
            } else {
                rest
            },
            ElementView::Root { .. } => rest,
        }
    }
}

/// Positions `(slide, element)` of the stale texture elements of a show,
/// slide by slide.
pub open spec fn stale_in_show(slides: Seq<SlideView>) -> Seq<(usize, usize)>
    decreases slides.len(),
{
    if slides.len() == 0 {
        Seq::empty()
    } else {
        stale_in_show(slides.drop_last()) + stale_in_slide(slides.last().elements, slides.len() - 1)
    }
}

/// A slide: a root element followed by the elements added to it.
pub struct Slide {
    elements: Vec<Element>,
    animations: Vec<Animation>,
}

impl View for Slide {
    type V = SlideView;

    closed spec fn view(&self) -> SlideView {
        SlideView { elements: element_views(self.elements@), animations: self.animations@ }
    }
}

impl Slide {
    /// The root element, holding no nested elements, stands first.
    pub open spec fn wf(&self) -> bool {
        self@.elements.len() > 0 && self@.elements[0] == empty_root()
    }

    /// A slide that holds its root element only.
    pub fn new() -> (r: Slide)
        ensures
            r@.elements == seq![empty_root()],
            r@.animations == Seq::<Animation>::empty(),
            r.wf(),
    {
        let r = Slide { elements: vec![Element::Root(RootElement::new())], animations: Vec::new() };
        assert(r@.elements =~= seq![empty_root()]);
        r
    }

    /// The elements, in paint order.
    pub fn get_elements(&self) -> (r: &Vec<Element>)
        ensures
            element_views(r@) == self@.elements,
    {
        &self.elements
    }

    /// Attaches an animation; it runs after those attached before it.
    pub fn animate(&mut self, animation: Animation)
        ensures
            final(self)@ == (SlideView {
                elements: old(self)@.elements,
                animations: old(self)@.animations.push(animation),
            }),
    {
        self.animations.push(animation);
    }

    /// Appends an element, to be painted over those before it.
    pub fn push(&mut self, element: Element)
        ensures
            final(self)@ == (SlideView {
                elements: old(self)@.elements.push(element@),
                animations: old(self)@.animations,
            }),
    {
        self.elements.push(element);
        assert(self@.elements =~= old(self)@.elements.push(element@));
    }

    /// Caches a rasterization outcome on the texture element at `index`.
    pub fn store_texture(&mut self, index: usize, texture: Option<ImageHandle>)
        requires
            index < old(self)@.elements.len(),
        ensures
            final(self)@ == (SlideView {
                elements: old(self)@.elements.update(
                    index as int,
                    stored_view(old(self)@.elements[index as int], texture),
                ),
                animations: old(self)@.animations,
            }),
    {
        match &mut self.elements[index] {
            Element::Root(_) => {},
            Element::Texture(t) => {
                t.store_texture(texture);
            },
        }
        assert(self@.elements =~= old(self)@.elements.update(
            index as int,
            stored_view(old(self)@.elements[index as int], texture),
        ));
    }

    fn apply(&mut self, animation: Animation, tick: u32)
        ensures
            final(self)@ == (SlideView {
                elements: apply_animation(old(self)@.elements, animation, tick as int),
                animations: old(self)@.animations,
            }),
    {
        if animation.target < self.elements.len() {
            let (x, y) = animation.position_at(tick);
            match &mut self.elements[animation.target] {
                Element::Root(_) => {},
                Element::Texture(t) => {
                    t.set_x(x);
                    t.set_y(y);
                },
            }
            assert(self@.elements =~= apply_animation(old(self)@.elements, animation, tick as int));
        }
    }

    /// Applies every animation once for `tick`, in the order they were attached.
    pub fn tick(&mut self, tick: u32)
        ensures
            final(self)@ == (SlideView {
                elements: apply_animations(old(self)@.elements, old(self)@.animations, tick as int),
                animations: old(self)@.animations,
            }),
            old(self).wf() ==> final(self).wf(),
    {
        proof {
            lemma_animations_keep_roots(old(self)@.elements, old(self)@.animations, tick as int);
        }
        let n = self.animations.len();
        let mut i: usize = 0;
        while i < n
            invariant
                0 <= i <= n,
                n == self@.animations.len(),
                self@.animations == old(self)@.animations,
                self@.elements == apply_animations(
                    old(self)@.elements,
                    old(self)@.animations.subrange(0, i as int),
                    tick as int,
                ),
            decreases n - i,
        {
            let a = self.animations[i];
            self.apply(a, tick);
            proof {
                let s = old(self)@.animations;
                assert(s.subrange(0, i + 1).drop_last() =~= s.subrange(0, i as int));
            }
            i = i + 1;
        }
        proof {
            assert(old(self)@.animations.subrange(0, n as int) =~= old(self)@.animations);
        }
    }
}

/// The slides after `e` has been appended to the last one.
pub open spec fn add_spec(slides: Seq<SlideView>, e: ElementView) -> Seq<SlideView> {
    slides.update(
        slides.len() - 1,
        SlideView { elements: slides.last().elements.push(e), animations: slides.last().animations },
    )
}

/// The slides after each of `es` has been appended to the last one, in order.
pub open spec fn adds_spec(slides: Seq<SlideView>, es: Seq<ElementView>) -> Seq<SlideView>
    decreases es.len(),
{
    if es.len() == 0 {
        slides
    } else {
        add_spec(adds_spec(slides, es.drop_last()), es.last())
    }
}

/// After a slide is opened, any number of elements added land in that
/// slide, after its root and in the order they were added; the slides
/// before it are untouched.
pub proof fn lemma_adds_land_in_last_slide(slides: Seq<SlideView>, es: Seq<ElementView>)
    ensures
        ({
            let opened = slides.push(SlideView { elements: seq![empty_root()], animations: Seq::empty() });
            let after = adds_spec(opened, es);
            &&& after.len() == slides.len() + 1
            &&& after.subrange(0, slides.len() as int) == slides
            &&& after.last().elements == seq![empty_root()] + es
            &&& after.last().animations == Seq::<Animation>::empty()
        }),
    decreases es.len(),
{
    let opened = slides.push(SlideView { elements: seq![empty_root()], animations: Seq::empty() });
    if es.len() == 0 {
        assert(opened.subrange(0, slides.len() as int) =~= slides);
        assert(seq![empty_root()] + es =~= seq![empty_root()]);
    } else {
        lemma_adds_land_in_last_slide(slides, es.drop_last());
        let before = adds_spec(opened, es.drop_last());
        let after = adds_spec(opened, es);
        assert(after.subrange(0, slides.len() as int) =~= before.subrange(0, slides.len() as int));
        assert(after.last().elements =~= seq![empty_root()] + es);
    }
}

/// Why a slideshow refused a request.
#[derive(Debug, Clone, Copy, PartialEq, Eq, Structural)]
pub enum ShowError {
    /// Content was added before any slide was opened.
    UnopenedSlide,
}

/// An ordered list of slides; content goes to the slide opened last.
pub struct Slideshow {
    slides: Vec<Slide>,
}

impl View for Slideshow {
    type V = Seq<SlideView>;

    closed spec fn view(&self) -> Seq<SlideView> {
        self.slides@.map_values(|s: Slide| s@)
    }
}

impl Slideshow {
    /// Every slide has its root, holding no nested elements, first.
    pub open spec fn wf(&self) -> bool {
        forall|i: int| 0 <= i < self@.len() ==> self@[i].elements.len() > 0 && #[trigger] self@[i].elements[0] == empty_root()
    }

    pub fn new() -> (r: Slideshow)
        ensures
            r@ == Seq::<SlideView>::empty(),
            r.wf(),
    {
        let r = Slideshow { slides: Vec::new() };
        assert(r@ =~= Seq::<SlideView>::empty());
        r
    }

    /// Opens a new slide, which holds only its root; content goes there from now on.
    pub fn slide(&mut self)
        requires
            old(self).wf(),
        ensures
            final(self)@ == old(self)@.push(SlideView {
                elements: seq![empty_root()],
                animations: Seq::<Animation>::empty(),
            }),
            final(self).wf(),
    {
        let slide = Slide::new();
        self.slides.push(slide);
        assert(self@ =~= old(self)@.push(slide@));
    }

    /// Appends an element to the slide opened last, or fails where no slide
    /// has been opened.
    pub fn add<T: ToElement>(&mut self, element: T) -> (r: Result<(), ShowError>)
        requires
            old(self).wf(),
        ensures
            old(self)@.len() == 0 <==> r == Err::<(), ShowError>(ShowError::UnopenedSlide),
            r is Err ==> final(self)@ == old(self)@,
            r is Ok ==> final(self)@ == add_spec(old(self)@, element.element_view()),
            final(self).wf(),
    {
        match self.slides.pop() {
            None => Err(ShowError::UnopenedSlide),
            Some(mut last) => {
                last.push(element.to());
                self.slides.push(last);
                assert(self@ =~= old(self)@.update(
                    old(self)@.len() - 1,
                    SlideView {
                        elements: old(self)@.last().elements.push(element.element_view()),
                        animations: old(self)@.last().animations,
                    },
                ));
                Ok(())
            },
        }
    }

    /// Attaches an animation to the slide opened last, or fails where no
    /// slide has been opened.
    pub fn animate(&mut self, animation: Animation) -> (r: Result<(), ShowError>)
        requires
            old(self).wf(),
        ensures
            old(self)@.len() == 0 <==> r == Err::<(), ShowError>(ShowError::UnopenedSlide),
            r is Err ==> final(self)@ == old(self)@,
            r is Ok ==> final(self)@ == old(self)@.update(
                old(self)@.len() - 1,
                SlideView {
                    elements: old(self)@.last().elements,
                    animations: old(self)@.last().animations.push(animation),
                },
            ),
            final(self).wf(),
    {
        match self.slides.pop() {
            None => Err(ShowError::UnopenedSlide),
            Some(mut last) => {
                last.animate(animation);
                self.slides.push(last);
                assert(self@ =~= old(self)@.update(
                    old(self)@.len() - 1,
                    SlideView {
                        elements: old(self)@.last().elements,
                        animations: old(self)@.last().animations.push(animation),
                    },
                ));
                Ok(())
            },
        }
    }

    /// Caches a rasterization outcome on element `element` of slide `slide`.
    pub fn store_texture(&mut self, slide: usize, element: usize, texture: Option<ImageHandle>)
        requires
            old(self).wf(),
            slide < old(self)@.len(),
            element < old(self)@[slide as int].elements.len(),
        ensures
            final(self)@ == old(self)@.update(
                slide as int,
                SlideView {
                    elements: old(self)@[slide as int].elements.update(
                        element as int,
                        stored_view(old(self)@[slide as int].elements[element as int], texture),
                    ),
                    animations: old(self)@[slide as int].animations,
                },
            ),
            final(self).wf(),
    {
        self.slides[slide].store_texture(element, texture);
        assert(self@ =~= old(self)@.update(
            slide as int,
            SlideView {
                elements: old(self)@[slide as int].elements.update(
                    element as int,
                    stored_view(old(self)@[slide as int].elements[element as int], texture),
                ),
                animations: old(self)@[slide as int].animations,
            },
        ));
    }

    /// Applies the animations of slide `slide` once for `tick`.
    pub fn tick(&mut self, slide: usize, tick: u32)
        requires
            old(self).wf(),
            slide < old(self)@.len(),
        ensures
            final(self)@ == old(self)@.update(
                slide as int,
                SlideView {
                    elements: apply_animations(
                        old(self)@[slide as int].elements,
                        old(self)@[slide as int].animations,
                        tick as int,
                    ),
                    animations: old(self)@[slide as int].animations,
                },
            ),
            final(self).wf(),
    {
        self.slides[slide].tick(tick);
        assert(self@ =~= old(self)@.update(
            slide as int,
            SlideView {
                elements: apply_animations(
                    old(self)@[slide as int].elements,
                    old(self)@[slide as int].animations,
                    tick as int,
                ),
                animations: old(self)@[slide as int].animations,
            },
        ));
    }

    /// Where the texture elements are that must be rasterized before the
    /// show is projected: `(slide, element)`, in show order.
    pub fn render_requests(&self) -> (r: Vec<(usize, usize)>)
        ensures
            r@ == stale_in_show(self@),
    {
        let mut out: Vec<(usize, usize)> = Vec::new();
        let mut i: usize = 0;
        while i < self.slides.len()
            invariant
                0 <= i <= self@.len(),
                out@ == stale_in_show(self@.subrange(0, i as int)),
            decreases self@.len() - i,
        {
            let elements = self.slides[i].get_elements();
            let ghost slide_view = self@[i as int];
            let mut j: usize = 0;
            while j < elements.len()
                invariant
                    0 <= i < self@.len(),
                    slide_view == self@[i as int],
                    element_views(elements@) == slide_view.elements,
                    0 <= j <= elements@.len(),
                    out@ == stale_in_show(self@.subrange(0, i as int)) + stale_in_slide(
                        slide_view.elements.subrange(0, j as int),
                        i as int,
                    ),
                decreases elements@.len() - j,
            {
                proof {
                    let es = slide_view.elements;
                    assert(es.subrange(0, j + 1).drop_last() =~= es.subrange(0, j as int));
                    assert(es.subrange(0, j + 1).last() == elements@[j as int]@);
                }
                match &elements[j] {
                    Element::Texture(t) => {
                        if t.needs_render() {
                            out.push((i, j));
                        }
                    },
                    Element::Root(_) => {},
                }
                proof {
                    let es = slide_view.elements;
                    assert(out@ == stale_in_show(self@.subrange(0, i as int)) + stale_in_slide(
                        es.subrange(0, j + 1),
                        i as int,
                    ));
                }
                j = j + 1;
            }
            proof {
                assert(slide_view.elements.subrange(0, j as int) =~= slide_view.elements);
                assert(self@.subrange(0, i + 1).drop_last() =~= self@.subrange(0, i as int));
            }
            i = i + 1;
        }
        proof {
            assert(self@.subrange(0, i as int) =~= self@);
        }
        out
    }

    /// The slides, in order.
    pub fn slides(&self) -> (r: &Vec<Slide>)
        ensures
            r@.map_values(|s: Slide| s@) == self@,
    {
        &self.slides
    }

    /// Gives up the show for its slides.
    pub fn get_slides(self) -> (r: Vec<Slide>)
        ensures
            r@.map_values(|s: Slide| s@) == self@,
    {
        self.slides
    }
}

} // verus!
