use vstd::prelude::*;

verus! {

/// A width and a height in one unit.
#[derive(Debug)]
pub struct Size2D<T> {
    pub width: T,
    pub height: T,
}

impl<T: Copy> Copy for Size2D<T> {

}

impl<T: Copy> Clone for Size2D<T> {
    fn clone(&self) -> (copy: Size2D<T>)
        ensures
            copy == *self,
    {
        *self
    }
}

impl<T> Size2D<T> {
    pub fn new(width: T, height: T) -> (size: Size2D<T>)
        ensures
            size.width == width,
            size.height == height,
    {
        Size2D { width, height }
    }
}

} // verus!
