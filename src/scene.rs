//! The elements a slide is made of.
use vstd::prelude::*;
use vstd::string::StringExecFns;

verus! {

/// Directive put in front of every markup source so that the page shrinks to
/// the content's own bounding box and has no background.
pub const PAGE_DIRECTIVE: &'static str = "#set page(width: auto, height: auto, fill: none)\n";

/// Scale of an element as first created, in percent.
pub const DEFAULT_SCALE: u32 = 100;

/// A displayable image, as handed out by whatever uploaded the pixels.
#[derive(Debug, Clone, Copy, PartialEq, Eq, Structural)]
pub struct ImageHandle {
    pub id: u64,
}

/// The structural anchor at the head of every slide. Only this library makes one.
pub struct RootElement {
    children: Option<Vec<Element>>,
}

impl RootElement {
    /// Nested elements; a root made by this library has none.
    pub closed spec fn spec_children(&self) -> Option<Seq<Element>> {
        match self.children {
            Some(v) => Some(v@),
            None => None,
        }
    }

    pub(crate) fn new() -> (r: RootElement)
        ensures
            r.spec_children() is None,
    {
        RootElement { children: None }
    }

    pub fn get_children(&self) -> (r: &Option<Vec<Element>>)
        ensures
            r is None <==> self.spec_children() is None,
            r is Some ==> self.spec_children() == Some(r->Some_0@),
    {
        &self.children
    }
}

/// A markup fragment placed on a slide, with the image it was rasterized to.
///
/// The image is cached: moving the element keeps it, changing the source
/// marks it stale.
pub struct TypstElement {
    source: String,
    x: i32,
    y: i32,
    scale: u32,
    texture: Option<ImageHandle>,
    stale: bool,
}

/// What a texture element is: its markup, placement and cached image.
pub struct TextureView {
    /// The full markup source, page directive included.
    pub source: Seq<char>,
    pub x: i32,
    pub y: i32,
    /// Display scale in percent.
    pub scale: u32,
    /// The cached image; `None` before rasterization or where it failed.
    pub texture: Option<ImageHandle>,
    /// Whether the cached image no longer matches the source.
    pub stale: bool,
}

impl View for TypstElement {
    type V = TextureView;

    closed spec fn view(&self) -> TextureView {
        TextureView {
            source: self.source@,
            x: self.x,
            y: self.y,
            scale: self.scale,
            texture: self.texture,
            stale: self.stale,
        }
    }
}

/// The element that `TypstElement::from(source)` makes.
pub open spec fn new_texture_view(source: Seq<char>) -> TextureView {
    TextureView {
        source: PAGE_DIRECTIVE@ + source,
        x: 0,
        y: 0,
        scale: DEFAULT_SCALE,
        texture: None,
        stale: true,
    }
}

impl TypstElement {
    /// An element for `source`, placed at the origin, not yet rasterized.
    pub fn from(source: &str) -> (r: TypstElement)
        ensures
            r@ == new_texture_view(source@),
    {
        let full = String::from_str(PAGE_DIRECTIVE).concat(source);
        TypstElement { source: full, x: 0, y: 0, scale: DEFAULT_SCALE, texture: None, stale: true }
    }

    pub fn get_source(&self) -> (r: &String)
        ensures
            r@ == self@.source,
    {
        &self.source
    }

    pub fn get_x(&self) -> (r: i32)
        ensures
            r == self@.x,
    {
        self.x
    }

    pub fn get_y(&self) -> (r: i32)
        ensures
            r == self@.y,
    {
        self.y
    }

    pub fn get_scale(&self) -> (r: u32)
        ensures
            r == self@.scale,
    {
        self.scale
    }

    pub fn get_texture(&self) -> (r: Option<ImageHandle>)
        ensures
            r == self@.texture,
    {
        self.texture
    }

    /// Whether the element has to be rasterized before it is shown.
    pub fn needs_render(&self) -> (r: bool)
        ensures
            r == self@.stale,
    {
        self.stale
    }

    /// Moves the element horizontally; the cached image is kept.
    pub fn set_x(&mut self, x: i32)
        ensures
            final(self)@ == (TextureView { x: x, ..old(self)@ }),
    {
        self.x = x;
    }

    /// Moves the element vertically; the cached image is kept.
    pub fn set_y(&mut self, y: i32)
        ensures
            final(self)@ == (TextureView { y: y, ..old(self)@ }),
    {
        self.y = y;
    }

    /// Sets the display scale, in percent; the cached image is kept.
    pub fn set_scale(&mut self, scale: u32)
        ensures
            final(self)@ == (TextureView { scale: scale, ..old(self)@ }),
    {
        self.scale = scale;
    }

    /// Replaces the markup (the page directive is put in front again); the
    /// cached image becomes stale.
    pub fn set_source(&mut self, source: &str)
        ensures
            final(self)@ == (TextureView { source: PAGE_DIRECTIVE@ + source@, stale: true, ..old(self)@ }),
    {
        self.source = String::from_str(PAGE_DIRECTIVE).concat(source);
        self.stale = true;
    }

    /// Caches the outcome of rasterizing the current source (`None` where it
    /// failed); the element is no longer stale.
    pub fn store_texture(&mut self, texture: Option<ImageHandle>)
        ensures
            final(self)@ == (TextureView { texture: texture, stale: false, ..old(self)@ }),
    {
        self.texture = texture;
        self.stale = false;
    }
}

/// What an element is: the structural root, with whether it holds nested
/// elements, or a texture element's view.
pub enum ElementView {
    Root { has_children: bool },
    Texture(TextureView),
}

/// The root that every slide starts with: it holds no nested elements.
pub open spec fn empty_root() -> ElementView {
    ElementView::Root { has_children: false }
}

/// One item of a slide.
pub enum Element {
    Root(RootElement),
    Texture(TypstElement),
}

impl View for Element {
    type V = ElementView;

    open spec fn view(&self) -> ElementView {
        match self {
            Element::Root(r) => ElementView::Root { has_children: r.spec_children() is Some },
            Element::Texture(t) => ElementView::Texture(t@),
        }
    }
}

/// Something that can be placed on a slide.
pub trait ToElement: Sized {
    /// What the element that `to` makes of this value is.
    spec fn element_view(&self) -> ElementView;

    fn to(self) -> (r: Element)
        ensures
            r@ == self.element_view(),
    ;
}

impl ToElement for TypstElement {
    open spec fn element_view(&self) -> ElementView {
        ElementView::Texture(self@)
    }

    fn to(self) -> (r: Element) {
        Element::Texture(self)
    }
}

/// Plain text, typeset as a markup fragment.
pub struct Text {
    text: String,
}

impl View for Text {
    type V = Seq<char>;

    closed spec fn view(&self) -> Seq<char> {
        self.text@
    }
}

impl Text {
    pub fn from(source: &str) -> (r: Text)
        ensures
            r@ == source@,
    {
        Text { text: String::from_str(source) }
    }
}

impl ToElement for Text {
    /// The markup `#text([..])` around the text, at the origin.
    open spec fn element_view(&self) -> ElementView {
        ElementView::Texture(new_texture_view("#text(["@ + self@ + "])"@))
    }

    fn to(self) -> (r: Element) {
        let markup = String::from_str("#text([").concat(self.text.as_str()).concat("])");
        Element::Texture(TypstElement::from(markup.as_str()))
    }
}

} // verus!
