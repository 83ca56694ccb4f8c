//! Pairs of coordinates.

use std::ops::{Add, Div, Mul, Rem, Sub};
use vstd::prelude::*;
use vstd::std_specs::ops::{
    AddSpec, AddSpecImpl, DivSpec, DivSpecImpl, MulSpec, MulSpecImpl, RemSpec, SubSpec,
    SubSpecImpl,
};

use crate::direction::Direction;
use crate::error::Error;

verus! {

/// A pair of coordinates; `x` counts columns and `y` counts rows.
#[derive(Copy, Clone, Default, PartialEq, Eq, PartialOrd, Ord, Debug)]
pub struct Point<T> {
    pub x: T,
    pub y: T,
}

impl<T> Point<T> {
    /// The point with the given coordinates.
    #[must_use]
    pub fn new(x: T, y: T) -> (point: Self)
        ensures
            point == (Point { x, y }),
    {
        Point { x, y }
    }

    /// Applies `f` to each coordinate, `x` first.
    #[must_use]
    pub fn map<U, F: Fn(T) -> U>(self, f: F) -> (mapped: Point<U>)
        requires
            f.requires((self.x,)),
            f.requires((self.y,)),
        ensures
            f.ensures((self.x,), mapped.x),
            f.ensures((self.y,), mapped.y),
    {
        let x = f(self.x);
        let y = f(self.y);
        Point { x, y }
    }

    /// Combines this point with `rhs` coordinate by coordinate, `x` first.
    #[must_use]
    pub fn map2<U, F: Fn(T, T) -> U>(self, rhs: Self, f: F) -> (mapped: Point<U>)
        requires
            f.requires((self.x, rhs.x)),
            f.requires((self.y, rhs.y)),
        ensures
            f.ensures((self.x, rhs.x), mapped.x),
            f.ensures((self.y, rhs.y), mapped.y),
    {
        let x = f(self.x, rhs.x);
        let y = f(self.y, rhs.y);
        Point { x, y }
    }
}

impl<T: Rem<Output = T>> Point<T> {
    /// Folds the point into a field of `width` columns and `height` rows:
    /// each coordinate becomes its remainder.
    #[must_use]
    pub fn wrap(self, width: T, height: T) -> (wrapped: Self)
        requires
            self.x.rem_req(width),
            self.y.rem_req(height),
        ensures
            T::obeys_rem_spec() ==> wrapped == (Point {
                x: self.x.rem_spec(width),
                y: self.y.rem_spec(height),
            }),
    {
        let x = self.x % width;
        let y = self.y % height;
        Point { x, y }
    }
}

impl Point<u16> {
    /// Where one move in `direction` leads, or the first coordinate (`x`
    /// before `y`) that would leave the range of `u16`.
    pub open spec fn moved(self, direction: Direction) -> Result<Point<u16>, Error> {
        let x = self.x + direction.step().x;
        let y = self.y + direction.step().y;
        if x < 0 || x > u16::MAX {
            Err(Error::Cast(x as i32))
        } else if y < 0 || y > u16::MAX {
            Err(Error::Cast(y as i32))
        } else {
            Ok(Point { x: x as u16, y: y as u16 })
        }
    }

    /// Moves the point by one step in `direction`.
    pub fn move_in_direction(self, direction: Direction) -> (moved: Result<Self, Error>)
        ensures
            moved == self.moved(direction),
    {
        let offset = Point::<i8>::from(direction);
        let ix: i32 = self.x as i32 + offset.x as i32;
        let iy: i32 = self.y as i32 + offset.y as i32;
        if ix < 0 || ix > 65535 {
            return Err(Error::Cast(ix));
        }
        if iy < 0 || iy > 65535 {
            return Err(Error::Cast(iy));
        }
        Ok(Point { x: ix as u16, y: iy as u16 })
    }
}

// The four operations of arithmetic work on points coordinate by coordinate.
impl<T: Add<Output = T>> Add for Point<T> {
    type Output = Point<T>;

    fn add(self, rhs: Self) -> (sum: Self::Output) {
        Point { x: self.x + rhs.x, y: self.y + rhs.y }
    }
}

impl<T: Add<Output = T>> AddSpecImpl for Point<T> {
    open spec fn obeys_add_spec() -> bool {
        T::obeys_add_spec()
    }

    open spec fn add_req(self, rhs: Self) -> bool {
        self.x.add_req(rhs.x) && self.y.add_req(rhs.y)
    }

    open spec fn add_spec(self, rhs: Self) -> Self::Output {
        Point { x: self.x.add_spec(rhs.x), y: self.y.add_spec(rhs.y) }
    }
}

impl<T: Sub<Output = T>> Sub for Point<T> {
    type Output = Point<T>;

    fn sub(self, rhs: Self) -> (difference: Self::Output) {
        Point { x: self.x - rhs.x, y: self.y - rhs.y }
    }
}

impl<T: Sub<Output = T>> SubSpecImpl for Point<T> {
    open spec fn obeys_sub_spec() -> bool {
        T::obeys_sub_spec()
    }

    open spec fn sub_req(self, rhs: Self) -> bool {
        self.x.sub_req(rhs.x) && self.y.sub_req(rhs.y)
    }

    open spec fn sub_spec(self, rhs: Self) -> Self::Output {
        Point { x: self.x.sub_spec(rhs.x), y: self.y.sub_spec(rhs.y) }
    }
}

impl<T: Mul<Output = T>> Mul for Point<T> {
    type Output = Point<T>;

    fn mul(self, rhs: Self) -> (product: Self::Output) {
        Point { x: self.x * rhs.x, y: self.y * rhs.y }
    }
}

impl<T: Mul<Output = T>> MulSpecImpl for Point<T> {
    open spec fn obeys_mul_spec() -> bool {
        T::obeys_mul_spec()
    }

    open spec fn mul_req(self, rhs: Self) -> bool {
        self.x.mul_req(rhs.x) && self.y.mul_req(rhs.y)
    }

    open spec fn mul_spec(self, rhs: Self) -> Self::Output {
        Point { x: self.x.mul_spec(rhs.x), y: self.y.mul_spec(rhs.y) }
    }
}

impl<T: Div<Output = T>> Div for Point<T> {
    type Output = Point<T>;

    fn div(self, rhs: Self) -> (quotient: Self::Output) {
        Point { x: self.x / rhs.x, y: self.y / rhs.y }
    }
}

impl<T: Div<Output = T>> DivSpecImpl for Point<T> {
    open spec fn obeys_div_spec() -> bool {
        T::obeys_div_spec()
    }

    open spec fn div_req(self, rhs: Self) -> bool {
        self.x.div_req(rhs.x) && self.y.div_req(rhs.y)
    }

    open spec fn div_spec(self, rhs: Self) -> Self::Output {
        Point { x: self.x.div_spec(rhs.x), y: self.y.div_spec(rhs.y) }
    }
}

} // verus!
