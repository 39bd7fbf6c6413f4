//! graphics subsystem: the plain configuration values the engine keeps about
//! windows and textures (the bindings that realize them on a display belong
//! to the surrounding application, not to this library)

use vstd::prelude::*;

verus! {

/// an image that is supposed to be mapped onto the surface of a mesh
pub struct Texture {}

/// a two-dimensional extent in pixels
pub struct Size {
    /// the vertical extent
    pub height: u16,
    /// the horizontal extent
    pub width: u16,
}

/// the requested configuration of a window
pub struct Window {
    title: Option<String>,
    size: Option<Size>,
    min_size: Option<Size>,
    max_size: Option<Size>,
}

impl Window {
    /// whether no configuration has been requested yet
    pub closed spec fn is_unconfigured(&self) -> bool {
        &&& self.title is None
        &&& self.size is None
        &&& self.min_size is None
        &&& self.max_size is None
    }

    /// create a new window configuration with nothing requested
    pub fn new() -> (w: Self)
        ensures
            w.is_unconfigured(),
    {
        Window { title: None, size: None, min_size: None, max_size: None }
    }
}

} // verus!
