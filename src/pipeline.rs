//! Decisions of the compile-and-rasterize pipeline: which density a compiled
//! document is rasterized at, and whether a pixel buffer can be uploaded.
use vstd::prelude::*;
use crate::density::{TooBig, density_outcome, pixel_density};

verus! {

/// Size of a page in points, each side rounded up to a whole point.
#[derive(Debug, Clone, Copy, PartialEq, Eq, Structural)]
pub struct PageSize {
    pub width: u32,
    pub height: u32,
}

/// Why an element could not be turned into an image.
#[derive(Debug, Clone, Copy, PartialEq, Eq, Structural)]
pub enum RenderError {
    /// The markup did not compile.
    Compile,
    /// The document has no page.
    NoPages,
    /// The first page is over the size ceiling.
    TooBig(TooBig),
}

/// The density at which to rasterize a compiled document with these pages:
/// only the first page is rasterized.
pub fn first_page_density(pages: &Vec<PageSize>) -> (r: Result<u32, RenderError>)
    ensures
        pages@.len() == 0 <==> r == Err::<u32, RenderError>(RenderError::NoPages),
        pages@.len() > 0 ==> ({
            let p = pages@[0];
            match r {
                Ok(d) => density_outcome(p.width as nat, p.height as nat, Ok(d)),
                Err(RenderError::TooBig(t)) => density_outcome(p.width as nat, p.height as nat, Err(t)),
                Err(_) => false,
            }
        }),
{
    if pages.len() == 0 {
        return Err(RenderError::NoPages);
    }
    let page = pages[0];
    match pixel_density(page.width, page.height) {
        Ok(d) => Ok(d),
        Err(t) => Err(RenderError::TooBig(t)),
    }
}

/// Rows of RGBA pixels, four bytes each, top row first.
pub struct PixelBuffer {
    width: u32,
    height: u32,
    data: Vec<u8>,
}

impl PixelBuffer {
    pub closed spec fn spec_width(&self) -> nat {
        self.width as nat
    }

    pub closed spec fn spec_height(&self) -> nat {
        self.height as nat
    }

    pub closed spec fn spec_data(&self) -> Seq<u8> {
        self.data@
    }

    /// Four bytes for each pixel, no more, no fewer.
    pub open spec fn wf(&self) -> bool {
        self.spec_data().len() == 4 * self.spec_width() * self.spec_height()
    }

    /// A buffer of `width` x `height` pixels over `data`; `None` where the
    /// length of `data` is not four bytes a pixel.
    pub fn new(width: u32, height: u32, data: Vec<u8>) -> (r: Option<PixelBuffer>)
        ensures
            r is Some <==> data@.len() == 4 * width * height,
            r is Some ==> ({
                let b = r->Some_0;
                b.spec_width() == width && b.spec_height() == height && b.spec_data() == data@ && b.wf()
            }),
    {
        assert(width as nat * height as nat <= 0xffff_ffff * 0xffff_ffff) by (nonlinear_arith)
            requires
                width <= 0xffff_ffff,
                height <= 0xffff_ffff,
        ;
        let pixels: u128 = width as u128 * height as u128;
        assert(pixels * 4 == 4 * width * height) by (nonlinear_arith)
            requires
                pixels == width * height,
        ;
        if data.len() as u128 != pixels * 4 {
            return None;
        }
        Some(PixelBuffer { width, height, data })
    }

    pub fn width(&self) -> (r: u32)
        ensures
            r == self.spec_width(),
    {
        self.width
    }

    pub fn height(&self) -> (r: u32)
        ensures
            r == self.spec_height(),
    {
        self.height
    }

    pub fn data(&self) -> (r: &Vec<u8>)
        ensures
            r@ == self.spec_data(),
    {
        &self.data
    }

    /// Gives up the buffer for its bytes.
    pub fn into_data(self) -> (r: Vec<u8>)
        ensures
            r@ == self.spec_data(),
    {
        self.data
    }
}

} // verus!
