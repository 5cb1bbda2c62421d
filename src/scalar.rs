use vstd::prelude::*;

verus! {

/// The value of a scalar, held to the range `[-1024, 1024]`.
///
/// Every scalar operation on a byte channel gives the same result on a scalar
/// and on its bounded value, so the operations work on the bounded value.
pub open spec fn bounded_scalar(v: int) -> int {
    if v > 1024 {
        1024
    } else if v < -1024 {
        -1024
    } else {
        v
    }
}

/// An integer that a color can be combined with.
pub trait Scalar: Copy {
    /// The scalar as a mathematical integer.
    spec fn value(&self) -> int;

    /// The scalar held to `[-1024, 1024]`.
    fn bounded(&self) -> (r: i32)
        ensures
            r as int == bounded_scalar(self.value()),
    ;
}

impl<'a, T: Scalar> Scalar for &'a T {
    open spec fn value(&self) -> int {
        (**self).value()
    }

    fn bounded(&self) -> (r: i32) {
        (**self).bounded()
    }
}

impl Scalar for u8 {
    open spec fn value(&self) -> int {
        *self as int
    }

    fn bounded(&self) -> (r: i32) {
        *self as i32
    }
}

impl Scalar for u16 {
    open spec fn value(&self) -> int {
        *self as int
    }

    fn bounded(&self) -> (r: i32) {
        if *self > 1024 {
            1024
        } else {
            *self as i32
        }
    }
}

impl Scalar for u32 {
    open spec fn value(&self) -> int {
        *self as int
    }

    fn bounded(&self) -> (r: i32) {
        if *self > 1024 {
            1024
        } else {
            *self as i32
        }
    }
}

impl Scalar for u64 {
    open spec fn value(&self) -> int {
        *self as int
    }

    fn bounded(&self) -> (r: i32) {
        if *self > 1024 {
            1024
        } else {
            *self as i32
        }
    }
}

impl Scalar for u128 {
    open spec fn value(&self) -> int {
        *self as int
    }

    fn bounded(&self) -> (r: i32) {
        if *self > 1024 {
            1024
        } else {
            *self as i32
        }
    }
}

impl Scalar for usize {
    open spec fn value(&self) -> int {
        *self as int
    }

    fn bounded(&self) -> (r: i32) {
        if *self > 1024 {
            1024
        } else {
            *self as i32
        }
    }
}

impl Scalar for i8 {
    open spec fn value(&self) -> int {
        *self as int
    }

    fn bounded(&self) -> (r: i32) {
        *self as i32
    }
}

impl Scalar for i16 {
    open spec fn value(&self) -> int {
        *self as int
    }

    fn bounded(&self) -> (r: i32) {
        if *self > 1024 {
            1024
        } else if *self < -1024 {
            -1024
        } else {
            *self as i32
        }
    }
}

impl Scalar for i32 {
    open spec fn value(&self) -> int {
        *self as int
    }

    fn bounded(&self) -> (r: i32) {
        if *self > 1024 {
            1024
        } else if *self < -1024 {
            -1024
        } else {
            *self as i32
        }
    }
}

impl Scalar for i64 {
    open spec fn value(&self) -> int {
        *self as int
    }

    fn bounded(&self) -> (r: i32) {
        if *self > 1024 {
            1024
        } else if *self < -1024 {
            -1024
        } else {
            *self as i32
        }
    }
}

impl Scalar for i128 {
    open spec fn value(&self) -> int {
        *self as int
    }

    fn bounded(&self) -> (r: i32) {
        if *self > 1024 {
            1024
        } else if *self < -1024 {
            -1024
        } else {
            *self as i32
        }
    }
}

impl Scalar for isize {
    open spec fn value(&self) -> int {
        *self as int
    }

    fn bounded(&self) -> (r: i32) {
        if *self > 1024 {
            1024
        } else if *self < -1024 {
            -1024
        } else {
            *self as i32
        }
    }
}

} // verus!
