//! Compass headings and the movement vectors they are read from.
use vstd::prelude::*;

verus! {

/// One of the four compass directions the character can face.
#[derive(Clone, Copy, Debug, PartialEq, Eq, Structural)]
pub enum Heading {
    North,
    East,
    South,
    West,
}

/// A movement vector on the screen plane, `y` pointing up.
#[derive(Clone, Copy, Debug, PartialEq, Eq, Structural)]
pub struct Direction {
    pub x: i32,
    pub y: i32,
}

/// The absolute value of `v`.
pub open spec fn abs(v: int) -> int {
    if v < 0 {
        -v
    } else {
        v
    }
}

/// The heading nearest to the vector `(x, y)`: north or south where the
/// vector is more than 45 degrees away from the horizontal axis, else east
/// for a vector pointing right and west otherwise (the zero vector included).
pub open spec fn heading_of(x: int, y: int) -> Heading {
    if abs(y) > abs(x) {
        if y > 0 {
            Heading::North
        } else {
            Heading::South
        }
    } else if x > 0 {
        Heading::East
    } else {
        Heading::West
    }
}

impl Direction {
    /// The heading this vector points to.
    pub open spec fn heading(self) -> Heading {
        heading_of(self.x as int, self.y as int)
    }
}

impl From<Direction> for Heading {
    /// Buckets the vector into the nearest compass direction: the half plane
    /// is chosen by the sign of `x`, and the vertical headings take over once
    /// the angle to the horizontal exceeds 45 degrees.
    fn from(value: Direction) -> (r: Heading)
        ensures
            r == value.heading(),
    {
        let x = value.x as i64;
        let y = value.y as i64;
        proof {
            let (xi, yi) = (x as int, y as int);
            assert(0 <= xi * xi <= 0x4000_0000_0000_0000) by (nonlinear_arith)
                requires
                    -0x8000_0000 <= xi <= 0x7fff_ffff,
            ;
            assert(0 <= yi * yi <= 0x4000_0000_0000_0000) by (nonlinear_arith)
                requires
                    -0x8000_0000 <= yi <= 0x7fff_ffff,
            ;
        }
        // More than 45 degrees from the horizontal exactly when y * y > x * x.
        let steep = y * y > x * x;
        proof {
            let (xi, yi) = (x as int, y as int);
            assert(steep == (abs(yi) > abs(xi))) by (nonlinear_arith)
                requires
                    steep == (yi * yi > xi * xi),
            ;
        }
        if x > 0 {
            if y > 0 && steep {
                Heading::North
            } else if y < 0 && steep {
                Heading::South
            } else {
                Heading::East
            }
        } else {
            if y > 0 && steep {
                Heading::North
            } else if y < 0 && steep {
                Heading::South
            } else {
                Heading::West
            }
        }
    }
}

impl vstd::std_specs::convert::FromSpecImpl<Direction> for Heading {
    open spec fn obeys_from_spec() -> bool {
        true
    }

    open spec fn from_spec(v: Direction) -> Heading {
        v.heading()
    }
}

impl From<&Direction> for Heading {
    /// The heading of the vector behind the reference.
    fn from(value: &Direction) -> (r: Heading)
        ensures
            r == value.heading(),
    {
        Heading::from(*value)
    }
}

impl vstd::std_specs::convert::FromSpecImpl<&Direction> for Heading {
    open spec fn obeys_from_spec() -> bool {
        true
    }

    open spec fn from_spec(v: &Direction) -> Heading {
        v.heading()
    }
}

} // verus!
