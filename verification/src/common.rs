//! Sizes in pixels and the values that carry the size of the window.

use vstd::prelude::*;

verus! {

/// A width and a height.
#[derive(Clone, Copy, Debug, Hash, PartialEq)]
pub struct Size<T> {
    pub width: T,
    pub height: T,
}

impl<T> Size<T> {
    /// The size with the given width and height.
    #[inline]
    pub fn new(width: T, height: T) -> (r: Self)
        ensures
            r.width == width,
            r.height == height,
    {
        Self { width, height }
    }

    /// The width and the height as a pair.
    #[inline]
    pub fn into_pair(self) -> (r: (T, T))
        ensures
            r.0 == self.width,
            r.1 == self.height,
    {
        (self.width, self.height)
    }
}

impl Size<u32> {
    /// Whether a window can take the size: neither side is zero.
    pub open spec fn is_usable(&self) -> bool {
        self.width != 0 && self.height != 0
    }

    /// Tells whether a window can take the size.
    pub fn usable(&self) -> (r: bool)
        ensures
            r == self.is_usable(),
    {
        self.width != 0 && self.height != 0
    }
}

impl<T> From<(T, T)> for Size<T> {
    #[inline]
    fn from(value: (T, T)) -> (r: Self) {
        Self { width: value.0, height: value.1 }
    }
}

impl<T> vstd::std_specs::convert::FromSpecImpl<(T, T)> for Size<T> {
    open spec fn obeys_from_spec() -> bool {
        true
    }

    open spec fn from_spec(value: (T, T)) -> Self {
        Size { width: value.0, height: value.1 }
    }
}

/// The current size of the window.
pub struct WindowSize(Size<u32>);

impl WindowSize {
    /// The size that the value holds.
    pub closed spec fn view(&self) -> Size<u32> {
        self.0
    }

    /// The window size `size`.
    #[inline]
    pub fn new(size: Size<u32>) -> (r: Self)
        ensures
            r@ == size,
    {
        Self(size)
    }

    /// The size of the window.
    #[inline]
    pub fn size(&self) -> (r: Size<u32>)
        ensures
            r == self@,
    {
        self.0
    }

    /// The width of the window.
    #[inline]
    pub fn width(&self) -> (r: u32)
        ensures
            r == self@.width,
    {
        self.0.width
    }

    /// The height of the window.
    #[inline]
    pub fn height(&self) -> (r: u32)
        ensures
            r == self@.height,
    {
        self.0.height
    }

    /// Takes over `new_size` if a window can take it, and says whether it
    /// did. A size with a side of zero is ignored.
    pub fn resize(&mut self, new_size: Size<u32>) -> (r: bool)
        ensures
            r == new_size.is_usable(),
            final(self)@ == if new_size.is_usable() {
                new_size
            } else {
                old(self)@
            },
    {
        if new_size.usable() {
            self.0 = new_size;
            true
        } else {
            false
        }
    }
}

/// The event that tells of a new window size.
#[derive(Debug)]
pub struct WindowResizeEvent(Size<u32>);

impl WindowResizeEvent {
    /// The size that the event announces.
    pub closed spec fn view(&self) -> Size<u32> {
        self.0
    }

    /// The event that announces `new_size`.
    #[inline]
    pub fn new(new_size: Size<u32>) -> (r: Self)
        ensures
            r@ == new_size,
    {
        Self(new_size)
    }

    /// The size that the event announces.
    #[inline]
    pub fn size(&self) -> (r: Size<u32>)
        ensures
            r == self@,
    {
        self.0
    }
}

impl crate::events::Event for WindowResizeEvent {

}

} // verus!
