use vstd::prelude::*;

use crate::errors::GeneralError;

verus! {

/// A point with strictly positive coordinates.
#[derive(Debug, Clone, Copy, PartialEq, Eq, Structural)]
pub struct Point2D {
    x: i32,
    y: i32,
}

impl Point2D {
    pub closed spec fn spec_x(&self) -> i32 {
        self.x
    }

    pub closed spec fn spec_y(&self) -> i32 {
        self.y
    }

    /// The point `(x, y)`; refused unless both coordinates are positive.
    pub fn new(x: i32, y: i32) -> (r: Result<Point2D, GeneralError>)
        ensures
            r is Ok <==> (x > 0 && y > 0),
            r matches Ok(p) ==> p.spec_x() == x && p.spec_y() == y,
            r matches Err(e) ==> e == GeneralError::StructInit,
    {
        if x > 0 && y > 0 {
            Ok(Point2D { x, y })
        } else {
            Err(GeneralError::StructInit)
        }
    }

    /// Drawing a point needs no driver work; it always succeeds.
    pub fn draw(&self) -> (r: Result<(), GeneralError>)
        ensures
            r is Ok,
    {
        Ok(())
    }
}

} // verus!
