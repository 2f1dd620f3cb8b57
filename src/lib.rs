//! A declarative slideshow engine: slides built from typeset markup elements,
//! compiled to raster images and shown as a navigable presentation.
pub mod animation;
pub mod density;
pub mod navigation;
pub mod pipeline;
pub mod render;
pub mod scene;
pub mod slides;
