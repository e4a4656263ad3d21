//! Metal-side helpers: a pool of reusable IOSurfaces and the properties an
//! IOSurface is created with.

use vstd::prelude::*;
use crate::utils::pixel_format::BGRA;

verus! {

/// Bytes per pixel of the surfaces Syphon shares (8-bit BGRA).
pub const BYTES_PER_ELEMENT: i64 = 4;

/// A pool of reusable IOSurfaces for efficient frame publishing.
///
/// Surfaces are handed out last-in first-out: `acquire` gives back the
/// surface most recently returned with `release`.
pub struct IOSurfacePool<S> {
    width: u32,
    height: u32,
    pixel_format: u32,
    capacity: usize,
    surfaces: Vec<S>,
}

impl<S> IOSurfacePool<S> {
    /// The surfaces available in the pool, the next one to be acquired last.
    pub closed spec fn spec_surfaces(&self) -> Seq<S> {
        self.surfaces@
    }

    /// The number of surfaces the pool was created for.
    pub closed spec fn spec_capacity(&self) -> nat {
        self.capacity as nat
    }

    /// The dimensions and pixel format of the pool's surfaces.
    pub closed spec fn spec_format(&self) -> (u32, u32, u32) {
        (self.width, self.height, self.pixel_format)
    }

    /// Create a pool for `capacity` surfaces of `width` x `height` BGRA
    /// pixels, holding the surfaces that could be created for it.
    pub fn new(width: u32, height: u32, capacity: usize, surfaces: Vec<S>) -> (pool: Self)
        ensures
            pool.spec_surfaces() == surfaces@,
            pool.spec_capacity() == capacity,
            pool.spec_format() == (width, height, BGRA),
    {
        IOSurfacePool { width, height, pixel_format: BGRA, capacity, surfaces }
    }

    /// Acquire an IOSurface from the pool: the one released last.
    /// Returns None if all surfaces are in use.
    pub fn acquire(&mut self) -> (r: Option<S>)
        ensures
            old(self).spec_surfaces().len() == 0 ==> r is None && final(self).spec_surfaces() == old(self).spec_surfaces(),
            old(self).spec_surfaces().len() > 0 ==> r == Some(old(self).spec_surfaces().last())
                && final(self).spec_surfaces() == old(self).spec_surfaces().drop_last(),
            final(self).spec_capacity() == old(self).spec_capacity(),
            final(self).spec_format() == old(self).spec_format(),
    {
        self.surfaces.pop()
    }

    /// Return an IOSurface to the pool.
    pub fn release(&mut self, surface: S)
        ensures
            final(self).spec_surfaces() == old(self).spec_surfaces().push(surface),
            final(self).spec_capacity() == old(self).spec_capacity(),
            final(self).spec_format() == old(self).spec_format(),
    {
        self.surfaces.push(surface);
    }

    /// Get pool capacity.
    pub fn capacity(&self) -> (n: usize)
        ensures
            n == self.spec_capacity(),
    {
        self.capacity
    }

    /// Get available surface count.
    pub fn available(&self) -> (n: usize)
        ensures
            n == self.spec_surfaces().len(),
    {
        self.surfaces.len()
    }
}

/// Releasing a surface and acquiring one gives back that surface and leaves
/// the pool's available surfaces as they were; acquiring from a non-empty
/// pool and releasing what was acquired does the same.
pub proof fn lemma_release_acquire_round_trip<S>(available: Seq<S>, surface: S)
    ensures
        available.push(surface).len() > 0,
        available.push(surface).last() == surface,
        available.push(surface).drop_last() == available,
        available.len() > 0 ==> available.drop_last().push(available.last()) == available,
{
    assert(available.push(surface).drop_last() =~= available);
    if available.len() > 0 {
        assert(available.drop_last().push(available.last()) =~= available);
    }
}

/// The properties an IOSurface for a `width` x `height` BGRA frame is
/// created with, as (key, value) pairs.
pub open spec fn surface_property_list(width: u32, height: u32) -> Seq<(Seq<char>, i64)> {
    seq![
        ("IOSurfaceWidth"@, width as i64),
        ("IOSurfaceHeight"@, height as i64),
        ("IOSurfaceBytesPerElement"@, BYTES_PER_ELEMENT),
        ("IOSurfacePixelFormat"@, BGRA as i64),
    ]
}

/// The properties an IOSurface for a `width` x `height` BGRA frame is
/// created with (see [`surface_property_list`]).
pub fn surface_properties(width: u32, height: u32) -> (props: Vec<(String, i64)>)
    ensures
        props@.len() == 4,
        forall|i: int| 0 <= i < 4 ==> (#[trigger] props@[i]).0@ == surface_property_list(width, height)[i].0
            && props@[i].1 == surface_property_list(width, height)[i].1,
        props@[0].1 == width as i64,
        props@[1].1 == height as i64,
{
    let mut props: Vec<(String, i64)> = Vec::new();
    props.push(("IOSurfaceWidth".to_owned(), width as i64));
    props.push(("IOSurfaceHeight".to_owned(), height as i64));
    props.push(("IOSurfaceBytesPerElement".to_owned(), BYTES_PER_ELEMENT));
    props.push(("IOSurfacePixelFormat".to_owned(), BGRA as i64));
    props
}

/// A surface is created as wide and as high as the frame it is for: the
/// width property holds the frame's width and the height property its
/// height, in whichever orientation; the other properties do not depend on
/// the frame's size: four bytes per element, in the 'BGRA' pixel format.
pub proof fn lemma_surface_has_frame_dimensions(width: u32, height: u32, other_width: u32, other_height: u32)
    ensures
        surface_property_list(width, height).len() == 4,
        surface_property_list(width, height)[0] == ("IOSurfaceWidth"@, width as i64),
        surface_property_list(width, height)[1] == ("IOSurfaceHeight"@, height as i64),
        surface_property_list(width, height)[0].1 == surface_property_list(height, width)[1].1,
        surface_property_list(width, height)[2] == surface_property_list(other_width, other_height)[2],
        surface_property_list(width, height)[3] == surface_property_list(other_width, other_height)[3],
        surface_property_list(width, height)[2] == ("IOSurfaceBytesPerElement"@, 4i64),
        surface_property_list(width, height)[3] == ("IOSurfacePixelFormat"@, 0x4247_5241i64),
{
}

/// Metal interop utilities.
pub struct MetalInterop;

/// Blit utility for copying between textures and IOSurfaces.
pub struct BlitHelper;

} // verus!
