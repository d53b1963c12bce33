//! The `rect` parameter: a sub-region of the source image, given as two
//! axis positions and two dimensions.

use vstd::prelude::*;
use vstd::string::*;
use crate::text::{decimal, i32_decimal};

verus! {

/// A valid direction for the `x` option of `ImgixRect`.
#[derive(Clone, Copy, Debug)]
pub enum X {
    /// Equivalent to 0.
    Left,
    /// Equivalent to half of the difference of the image width minus the
    /// `rect` width.
    Center,
    /// Difference between the image width minus the `rect` width.
    Right,
}

/// The fixed lowercase token of each horizontal position.
pub open spec fn x_token(x: X) -> Seq<char> {
    match x {
        X::Left => "left"@,
        X::Center => "center"@,
        X::Right => "right"@,
    }
}

impl X {
    /// The exact lowercase token the service expects for this position.
    pub fn to_string(&self) -> (r: String)
        ensures
            r@ == x_token(*self),
    {
        match self {
            X::Left => String::from_str("left"),
            X::Center => String::from_str("center"),
            X::Right => String::from_str("right"),
        }
    }
}

/// A valid direction for the `y` option of `ImgixRect`.
#[derive(Clone, Copy, Debug)]
pub enum Y {
    /// Equivalent to 0.
    Top,
    /// Equivalent to half the difference of the image height minus the
    /// `rect` height.
    Middle,
    /// Equivalent to the difference of the image height minus the `rect`
    /// height.
    Bottom,
}

/// The fixed lowercase token of each vertical position.
pub open spec fn y_token(y: Y) -> Seq<char> {
    match y {
        Y::Top => "top"@,
        Y::Middle => "middle"@,
        Y::Bottom => "bottom"@,
    }
}

impl Y {
    /// The exact lowercase token the service expects for this position.
    pub fn to_string(&self) -> (r: String)
        ensures
            r@ == y_token(*self),
    {
        match self {
            Y::Top => String::from_str("top"),
            Y::Middle => String::from_str("middle"),
            Y::Bottom => String::from_str("bottom"),
        }
    }
}

/// A directional value for `ImgixRect`: an integer offset or a named `X`
/// or `Y` position.
#[derive(Clone, Copy, Debug)]
pub enum Direction {
    /// Integer value.
    Number(i32),
    /// Valid X-directional value.
    X(X),
    /// Valid Y-directional value.
    Y(Y),
}

/// The text of a directional value: the decimal string of the integer, or
/// the token of the named position.
pub open spec fn direction_text(d: Direction) -> Seq<char> {
    match d {
        Direction::Number(num) => decimal(num as int),
        Direction::X(x) => x_token(x),
        Direction::Y(y) => y_token(y),
    }
}

impl Direction {
    /// The exact text the service expects for this directional value.
    pub fn to_string(&self) -> (r: String)
        ensures
            r@ == direction_text(*self),
    {
        match self {
            Direction::Number(num) => i32_decimal(*num),
            Direction::X(x) => x.to_string(),
            Direction::Y(y) => y.to_string(),
        }
    }
}

/// The `rect` URL parameter: a sub-region given by two positions and a
/// width and height. Construct it plainly; there is no builder.
///
/// No range validation is applied: negative or zero dimensions are passed
/// through verbatim.
#[derive(Clone, Copy, Debug)]
pub struct ImgixRect {
    /// Can take an integer or the Left, Center and Right options.
    pub x: Direction,
    /// Can take an integer or the Top, Middle and Bottom options.
    pub y: Direction,
    /// The width of the bounding rect.
    pub w: i32,
    /// The height of the bounding rect.
    pub h: i32,
}

/// The text of a rectangle: its four components joined by commas.
pub open spec fn rect_text(r: ImgixRect) -> Seq<char> {
    direction_text(r.x) + seq![','] + direction_text(r.y) + seq![','] + decimal(r.w as int)
        + seq![','] + decimal(r.h as int)
}

impl ImgixRect {
    /// The exact comma-joined text the service expects for this rectangle.
    pub fn to_string(&self) -> (r: String)
        ensures
            r@ == rect_text(*self),
    {
        proof {
            reveal_strlit(",");
        }
        let mut out = self.x.to_string();
        out.append(",");
        let ys = self.y.to_string();
        out.append(ys.as_str());
        out.append(",");
        let ws = i32_decimal(self.w);
        out.append(ws.as_str());
        out.append(",");
        let hs = i32_decimal(self.h);
        out.append(hs.as_str());
        proof {
            assert(out@ =~= rect_text(*self));
        }
        out
    }
}

} // verus!
