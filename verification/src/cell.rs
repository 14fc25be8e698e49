use vstd::prelude::*;

verus! {

/// The binary state of one grid position: Dead or Alive.
#[derive(Clone, Copy, Debug, PartialEq, Eq, Structural)]
pub enum GolCell {
    Dead,
    Alive,
}

/// The cell a numeric matrix entry stands for: zero is Dead, anything
/// else is Alive.
pub open spec fn cell_of_u8(x: u8) -> GolCell {
    if x == 0 {
        GolCell::Dead
    } else {
        GolCell::Alive
    }
}

impl GolCell {
    /// Mathematical reading of a cell: true exactly when it is Alive.
    pub open spec fn spec_alive(self) -> bool {
        self == GolCell::Alive
    }

    pub fn is_dead(&self) -> (r: bool)
        ensures
            r == !self.spec_alive(),
    {
        match *self {
            GolCell::Dead => true,
            GolCell::Alive => false,
        }
    }

    pub fn is_alive(&self) -> (r: bool)
        ensures
            r == self.spec_alive(),
    {
        match *self {
            GolCell::Dead => false,
            GolCell::Alive => true,
        }
    }

    /// Turns Dead into Alive and Alive into Dead.
    pub fn flip(&mut self)
        ensures
            final(self).spec_alive() == !old(self).spec_alive(),
    {
        *self = match *self {
            GolCell::Dead => GolCell::Alive,
            GolCell::Alive => GolCell::Dead,
        }
    }
}

impl From<bool> for GolCell {
    fn from(b: bool) -> (r: Self) {
        if b {
            GolCell::Alive
        } else {
            GolCell::Dead
        }
    }
}

impl vstd::std_specs::convert::FromSpecImpl<bool> for GolCell {
    open spec fn obeys_from_spec() -> bool {
        true
    }

    open spec fn from_spec(b: bool) -> GolCell {
        if b {
            GolCell::Alive
        } else {
            GolCell::Dead
        }
    }
}

impl From<u8> for GolCell {
    fn from(x: u8) -> (r: Self) {
        if x == 0 {
            GolCell::Dead
        } else {
            GolCell::Alive
        }
    }
}

impl vstd::std_specs::convert::FromSpecImpl<u8> for GolCell {
    open spec fn obeys_from_spec() -> bool {
        true
    }

    open spec fn from_spec(x: u8) -> GolCell {
        cell_of_u8(x)
    }
}

impl From<u16> for GolCell {
    fn from(x: u16) -> (r: Self) {
        if x == 0 {
            GolCell::Dead
        } else {
            GolCell::Alive
        }
    }
}

impl vstd::std_specs::convert::FromSpecImpl<u16> for GolCell {
    open spec fn obeys_from_spec() -> bool {
        true
    }

    open spec fn from_spec(x: u16) -> GolCell {
        if x == 0 {
            GolCell::Dead
        } else {
            GolCell::Alive
        }
    }
}

impl From<u32> for GolCell {
    fn from(x: u32) -> (r: Self) {
        if x == 0 {
            GolCell::Dead
        } else {
            GolCell::Alive
        }
    }
}

impl vstd::std_specs::convert::FromSpecImpl<u32> for GolCell {
    open spec fn obeys_from_spec() -> bool {
        true
    }

    open spec fn from_spec(x: u32) -> GolCell {
        if x == 0 {
            GolCell::Dead
        } else {
            GolCell::Alive
        }
    }
}

impl From<u64> for GolCell {
    fn from(x: u64) -> (r: Self) {
        if x == 0 {
            GolCell::Dead
        } else {
            GolCell::Alive
        }
    }
}

impl vstd::std_specs::convert::FromSpecImpl<u64> for GolCell {
    open spec fn obeys_from_spec() -> bool {
        true
    }

    open spec fn from_spec(x: u64) -> GolCell {
        if x == 0 {
            GolCell::Dead
        } else {
            GolCell::Alive
        }
    }
}

impl From<u128> for GolCell {
    fn from(x: u128) -> (r: Self) {
        if x == 0 {
            GolCell::Dead
        } else {
            GolCell::Alive
        }
    }
}

impl vstd::std_specs::convert::FromSpecImpl<u128> for GolCell {
    open spec fn obeys_from_spec() -> bool {
        true
    }

    open spec fn from_spec(x: u128) -> GolCell {
        if x == 0 {
            GolCell::Dead
        } else {
            GolCell::Alive
        }
    }
}

impl From<usize> for GolCell {
    fn from(x: usize) -> (r: Self) {
        if x == 0 {
            GolCell::Dead
        } else {
            GolCell::Alive
        }
    }
}

impl vstd::std_specs::convert::FromSpecImpl<usize> for GolCell {
    open spec fn obeys_from_spec() -> bool {
        true
    }

    open spec fn from_spec(x: usize) -> GolCell {
        if x == 0 {
            GolCell::Dead
        } else {
            GolCell::Alive
        }
    }
}

impl From<i8> for GolCell {
    fn from(x: i8) -> (r: Self) {
        if x == 0 {
            GolCell::Dead
        } else {
            GolCell::Alive
        }
    }
}

impl vstd::std_specs::convert::FromSpecImpl<i8> for GolCell {
    open spec fn obeys_from_spec() -> bool {
        true
    }

    open spec fn from_spec(x: i8) -> GolCell {
        if x == 0 {
            GolCell::Dead
        } else {
            GolCell::Alive
        }
    }
}

impl From<i16> for GolCell {
    fn from(x: i16) -> (r: Self) {
        if x == 0 {
            GolCell::Dead
        } else {
            GolCell::Alive
        }
    }
}

impl vstd::std_specs::convert::FromSpecImpl<i16> for GolCell {
    open spec fn obeys_from_spec() -> bool {
        true
    }

    open spec fn from_spec(x: i16) -> GolCell {
        if x == 0 {
            GolCell::Dead
        } else {
            GolCell::Alive
        }
    }
}

impl From<i32> for GolCell {
    fn from(x: i32) -> (r: Self) {
        if x == 0 {
            GolCell::Dead
        } else {
            GolCell::Alive
        }
    }
}

impl vstd::std_specs::convert::FromSpecImpl<i32> for GolCell {
    open spec fn obeys_from_spec() -> bool {
        true
    }

    open spec fn from_spec(x: i32) -> GolCell {
        if x == 0 {
            GolCell::Dead
        } else {
            GolCell::Alive
        }
    }
}

impl From<i64> for GolCell {
    fn from(x: i64) -> (r: Self) {
        if x == 0 {
            GolCell::Dead
        } else {
            GolCell::Alive
        }
    }
}

impl vstd::std_specs::convert::FromSpecImpl<i64> for GolCell {
    open spec fn obeys_from_spec() -> bool {
        true
    }

    open spec fn from_spec(x: i64) -> GolCell {
        if x == 0 {
            GolCell::Dead
        } else {
            GolCell::Alive
        }
    }
}

impl From<i128> for GolCell {
    fn from(x: i128) -> (r: Self) {
        if x == 0 {
            GolCell::Dead
        } else {
            GolCell::Alive
        }
    }
}

impl vstd::std_specs::convert::FromSpecImpl<i128> for GolCell {
    open spec fn obeys_from_spec() -> bool {
        true
    }

    open spec fn from_spec(x: i128) -> GolCell {
        if x == 0 {
            GolCell::Dead
        } else {
            GolCell::Alive
        }
    }
}

impl From<isize> for GolCell {
    fn from(x: isize) -> (r: Self) {
        if x == 0 {
            GolCell::Dead
        } else {
            GolCell::Alive
        }
    }
}

impl vstd::std_specs::convert::FromSpecImpl<isize> for GolCell {
    open spec fn obeys_from_spec() -> bool {
        true
    }

    open spec fn from_spec(x: isize) -> GolCell {
        if x == 0 {
            GolCell::Dead
        } else {
            GolCell::Alive
        }
    }
}

} // verus!
