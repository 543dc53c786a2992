//! Small numeric helpers shared by the simulation.

use vstd::prelude::*;
use vstd::std_specs::cmp::PartialOrdIs;
use vstd::std_specs::cmp::PartialOrdSpec;

verus! {

/// Absolute value.
///
/// `abs_spec` is the mathematical result and `abs_defined` tells for which
/// values the executable `abs` can represent it.
pub trait Abs: Sized {
    /// Whether the absolute value of `self` fits in the type.
    spec fn abs_defined(self) -> bool;

    /// The absolute value of `self`.
    spec fn abs_spec(self) -> Self;

    fn abs(self) -> (r: Self)
        requires
            self.abs_defined(),
        ensures
            r == self.abs_spec(),
    ;
}

impl Abs for i8 {
    open spec fn abs_defined(self) -> bool {
        self != i8::MIN
    }

    open spec fn abs_spec(self) -> i8 {
        if self < 0 {
            (-self) as i8
        } else {
            self
        }
    }

    fn abs(self) -> (r: i8) {
        if self < 0 {
            -self
        } else {
            self
        }
    }
}

impl Abs for i16 {
    open spec fn abs_defined(self) -> bool {
        self != i16::MIN
    }

    open spec fn abs_spec(self) -> i16 {
        if self < 0 {
            (-self) as i16
        } else {
            self
        }
    }

    fn abs(self) -> (r: i16) {
        if self < 0 {
            -self
        } else {
            self
        }
    }
}

impl Abs for i32 {
    open spec fn abs_defined(self) -> bool {
        self != i32::MIN
    }

    open spec fn abs_spec(self) -> i32 {
        if self < 0 {
            (-self) as i32
        } else {
            self
        }
    }

    fn abs(self) -> (r: i32) {
        if self < 0 {
            -self
        } else {
            self
        }
    }
}

impl Abs for i64 {
    open spec fn abs_defined(self) -> bool {
        self != i64::MIN
    }

    open spec fn abs_spec(self) -> i64 {
        if self < 0 {
            (-self) as i64
        } else {
            self
        }
    }

    fn abs(self) -> (r: i64) {
        if self < 0 {
            -self
        } else {
            self
        }
    }
}

impl Abs for i128 {
    open spec fn abs_defined(self) -> bool {
        self != i128::MIN
    }

    open spec fn abs_spec(self) -> i128 {
        if self < 0 {
            (-self) as i128
        } else {
            self
        }
    }

    fn abs(self) -> (r: i128) {
        if self < 0 {
            -self
        } else {
            self
        }
    }
}

impl Abs for u8 {
    open spec fn abs_defined(self) -> bool {
        true
    }

    open spec fn abs_spec(self) -> u8 {
        self
    }

    fn abs(self) -> (r: u8) {
        self
    }
}

impl Abs for u16 {
    open spec fn abs_defined(self) -> bool {
        true
    }

    open spec fn abs_spec(self) -> u16 {
        self
    }

    fn abs(self) -> (r: u16) {
        self
    }
}

impl Abs for u32 {
    open spec fn abs_defined(self) -> bool {
        true
    }

    open spec fn abs_spec(self) -> u32 {
        self
    }

    fn abs(self) -> (r: u32) {
        self
    }
}

impl Abs for u64 {
    open spec fn abs_defined(self) -> bool {
        true
    }

    open spec fn abs_spec(self) -> u64 {
        self
    }

    fn abs(self) -> (r: u64) {
        self
    }
}

impl Abs for u128 {
    open spec fn abs_defined(self) -> bool {
        true
    }

    open spec fn abs_spec(self) -> u128 {
        self
    }

    fn abs(self) -> (r: u128) {
        self
    }
}

/// The operand that `abs_max(a, b)` returns when the absolute values it
/// compares are those of `ca` and `cb`: `a` when `|ca| >= |cb|`, else `b`.
pub open spec fn abs_max_of<T: PartialOrd + Abs>(a: T, b: T, ca: T, cb: T) -> T {
    if ca.abs_spec().is_ge(&cb.abs_spec()) {
        a
    } else {
        b
    }
}

/// Return the operand whose absolute value is larger; `a` on a tie.
///
/// The comparison is made on clones of the operands, so the contract speaks
/// of them: for a type whose clone is a copy, `ca == a` and `cb == b`.
pub fn abs_max<T: PartialOrd + Abs + Clone>(a: T, b: T) -> (r: T)
    requires
        forall|c: T| cloned(a, c) ==> c.abs_defined(),
        forall|c: T| cloned(b, c) ==> c.abs_defined(),
    ensures
        T::obeys_partial_cmp_spec() ==> exists|ca: T, cb: T|
            #[trigger] cloned(a, ca) && #[trigger] cloned(b, cb) && r == abs_max_of(a, b, ca, cb),
{
    let ca = a.clone();
    let cb = b.clone();
    assert(cloned(a, ca) && cloned(b, cb));
    if ca.abs() >= cb.abs() {
        a
    } else {
        b
    }
}

} // verus!
