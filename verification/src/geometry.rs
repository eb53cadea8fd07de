//! Shared geometry types.

use vstd::prelude::*;

verus! {

/// 2D object position.
#[derive(PartialEq, Eq, Structural, Copy, Clone, Debug)]
pub struct Position<T = i32> {
    pub x: T,
    pub y: T,
}

impl<T> Position<T> {
    pub fn new(x: T, y: T) -> (position: Self)
        ensures
            position.x == x,
            position.y == y,
    {
        Self { x, y }
    }
}

/// 2D object size.
#[derive(PartialEq, Eq, Structural, Copy, Clone, Debug)]
pub struct Size<T = u32> {
    pub width: T,
    pub height: T,
}

impl<T> Size<T> {
    pub fn new(width: T, height: T) -> (size: Self)
        ensures
            size.width == width,
            size.height == height,
    {
        Self { width, height }
    }
}

impl<T> From<(T, T)> for Position<T> {
    fn from(pair: (T, T)) -> (position: Self) {
        Self { x: pair.0, y: pair.1 }
    }
}

impl<T> vstd::std_specs::convert::FromSpecImpl<(T, T)> for Position<T> {
    open spec fn obeys_from_spec() -> bool {
        true
    }

    open spec fn from_spec(pair: (T, T)) -> Self {
        Position { x: pair.0, y: pair.1 }
    }
}

impl<T> From<(T, T)> for Size<T> {
    fn from(pair: (T, T)) -> (size: Self) {
        Self { width: pair.0, height: pair.1 }
    }
}

impl<T> vstd::std_specs::convert::FromSpecImpl<(T, T)> for Size<T> {
    open spec fn obeys_from_spec() -> bool {
        true
    }

    open spec fn from_spec(pair: (T, T)) -> Self {
        Size { width: pair.0, height: pair.1 }
    }
}

impl std::ops::Sub for Position<i32> {
    type Output = Self;

    fn sub(self, other: Self) -> (difference: Self) {
        Self { x: self.x - other.x, y: self.y - other.y }
    }
}

impl vstd::std_specs::ops::SubSpecImpl for Position<i32> {
    open spec fn obeys_sub_spec() -> bool {
        true
    }

    open spec fn sub_req(self, other: Self) -> bool {
        &&& i32::MIN <= self.x - other.x <= i32::MAX
        &&& i32::MIN <= self.y - other.y <= i32::MAX
    }

    open spec fn sub_spec(self, other: Self) -> Self {
        Position { x: (self.x - other.x) as i32, y: (self.y - other.y) as i32 }
    }
}

impl std::ops::Sub for Size<u32> {
    type Output = Self;

    fn sub(self, other: Self) -> (difference: Self) {
        Self { width: self.width - other.width, height: self.height - other.height }
    }
}

impl vstd::std_specs::ops::SubSpecImpl for Size<u32> {
    open spec fn obeys_sub_spec() -> bool {
        true
    }

    open spec fn sub_req(self, other: Self) -> bool {
        other.width <= self.width && other.height <= self.height
    }

    open spec fn sub_spec(self, other: Self) -> Self {
        Size {
            width: (self.width - other.width) as u32,
            height: (self.height - other.height) as u32,
        }
    }
}

} // verus!
