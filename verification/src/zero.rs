//! The `Zero` capability: all-zero bytes form a valid value of the type.
//!
//! The capability is a compile-time fact, resolved as a trait bound; there is
//! no runtime query for it. It is granted here to the primitive integer
//! types, to fixed-size arrays of capable element types, and to tuples of
//! capable element types. Granting it to a type whose all-zero bit pattern is
//! not a valid value is the grantor's obligation to avoid: nothing at runtime
//! can detect such a grant.

use vstd::prelude::*;

verus! {

/// Capability of types whose all-zero bit pattern is a valid value.
///
/// `is_zero` says which value the zero bytes denote: the implementor states
/// the type's documented zero value (integer `0`, an array of zero-valued
/// elements, a tuple of zero-valued components), and `zero_value` produces
/// exactly such a value.
pub trait Zero: Sized {
    /// Whether this value is the type's documented zero value.
    spec fn is_zero(&self) -> bool;

    /// Produce the type's zero value.
    fn zero_value() -> (r: Self)
        ensures
            r.is_zero(),
    ;
}

impl Zero for u8 {
    open spec fn is_zero(&self) -> bool {
        *self == 0
    }

    fn zero_value() -> Self {
        0
    }
}

impl Zero for u16 {
    open spec fn is_zero(&self) -> bool {
        *self == 0
    }

    fn zero_value() -> Self {
        0
    }
}

impl Zero for u32 {
    open spec fn is_zero(&self) -> bool {
        *self == 0
    }

    fn zero_value() -> Self {
        0
    }
}

impl Zero for u64 {
    open spec fn is_zero(&self) -> bool {
        *self == 0
    }

    fn zero_value() -> Self {
        0
    }
}

impl Zero for usize {
    open spec fn is_zero(&self) -> bool {
        *self == 0
    }

    fn zero_value() -> Self {
        0
    }
}

impl Zero for i8 {
    open spec fn is_zero(&self) -> bool {
        *self == 0
    }

    fn zero_value() -> Self {
        0
    }
}

impl Zero for i16 {
    open spec fn is_zero(&self) -> bool {
        *self == 0
    }

    fn zero_value() -> Self {
        0
    }
}

impl Zero for i32 {
    open spec fn is_zero(&self) -> bool {
        *self == 0
    }

    fn zero_value() -> Self {
        0
    }
}

impl Zero for i64 {
    open spec fn is_zero(&self) -> bool {
        *self == 0
    }

    fn zero_value() -> Self {
        0
    }
}

impl Zero for isize {
    open spec fn is_zero(&self) -> bool {
        *self == 0
    }

    fn zero_value() -> Self {
        0
    }
}

impl<T: Zero + Copy, const N: usize> Zero for [T; N] {
    /// An array is zero when every element is.
    open spec fn is_zero(&self) -> bool {
        forall|i: int| 0 <= i < N ==> self[i].is_zero()
    }

    fn zero_value() -> Self {
        let z = T::zero_value();
        [z; N]
    }
}

impl<A: Zero> Zero for (A,) {
    /// A tuple is zero when every component is.
    open spec fn is_zero(&self) -> bool {
        self.0.is_zero()
    }

    fn zero_value() -> Self {
        (A::zero_value(),)
    }
}

impl<A: Zero, B: Zero> Zero for (A, B) {
    open spec fn is_zero(&self) -> bool {
        self.0.is_zero() && self.1.is_zero()
    }

    fn zero_value() -> Self {
        (A::zero_value(), B::zero_value())
    }
}

impl<A: Zero, B: Zero, C: Zero> Zero for (A, B, C) {
    open spec fn is_zero(&self) -> bool {
        self.0.is_zero() && self.1.is_zero() && self.2.is_zero()
    }

    fn zero_value() -> Self {
        (A::zero_value(), B::zero_value(), C::zero_value())
    }
}

impl<A: Zero, B: Zero, C: Zero, D: Zero> Zero for (A, B, C, D) {
    open spec fn is_zero(&self) -> bool {
        self.0.is_zero() && self.1.is_zero() && self.2.is_zero() && self.3.is_zero()
    }

    fn zero_value() -> Self {
        (A::zero_value(), B::zero_value(), C::zero_value(), D::zero_value())
    }
}

impl<A: Zero, B: Zero, C: Zero, D: Zero, E: Zero> Zero for (A, B, C, D, E) {
    open spec fn is_zero(&self) -> bool {
        self.0.is_zero() && self.1.is_zero() && self.2.is_zero() && self.3.is_zero()
            && self.4.is_zero()
    }

    fn zero_value() -> Self {
        (A::zero_value(), B::zero_value(), C::zero_value(), D::zero_value(), E::zero_value())
    }
}

impl<A: Zero, B: Zero, C: Zero, D: Zero, E: Zero, F: Zero> Zero for (A, B, C, D, E, F) {
    open spec fn is_zero(&self) -> bool {
        self.0.is_zero() && self.1.is_zero() && self.2.is_zero() && self.3.is_zero()
            && self.4.is_zero() && self.5.is_zero()
    }

    fn zero_value() -> Self {
        (
            A::zero_value(),
            B::zero_value(),
            C::zero_value(),
            D::zero_value(),
            E::zero_value(),
            F::zero_value(),
        )
    }
}

impl<A: Zero, B: Zero, C: Zero, D: Zero, E: Zero, F: Zero, G: Zero> Zero for (
    A,
    B,
    C,
    D,
    E,
    F,
    G,
) {
    open spec fn is_zero(&self) -> bool {
        self.0.is_zero() && self.1.is_zero() && self.2.is_zero() && self.3.is_zero()
            && self.4.is_zero() && self.5.is_zero() && self.6.is_zero()
    }

    fn zero_value() -> Self {
        (
            A::zero_value(),
            B::zero_value(),
            C::zero_value(),
            D::zero_value(),
            E::zero_value(),
            F::zero_value(),
            G::zero_value(),
        )
    }
}

impl<A: Zero, B: Zero, C: Zero, D: Zero, E: Zero, F: Zero, G: Zero, H: Zero> Zero for (
    A,
    B,
    C,
    D,
    E,
    F,
    G,
    H,
) {
    open spec fn is_zero(&self) -> bool {
        self.0.is_zero() && self.1.is_zero() && self.2.is_zero() && self.3.is_zero()
            && self.4.is_zero() && self.5.is_zero() && self.6.is_zero() && self.7.is_zero()
    }

    fn zero_value() -> Self {
        (
            A::zero_value(),
            B::zero_value(),
            C::zero_value(),
            D::zero_value(),
            E::zero_value(),
            F::zero_value(),
            G::zero_value(),
            H::zero_value(),
        )
    }
}

impl<A: Zero, B: Zero, C: Zero, D: Zero, E: Zero, F: Zero, G: Zero, H: Zero, I: Zero> Zero for (
    A,
    B,
    C,
    D,
    E,
    F,
    G,
    H,
    I,
) {
    open spec fn is_zero(&self) -> bool {
        self.0.is_zero() && self.1.is_zero() && self.2.is_zero() && self.3.is_zero()
            && self.4.is_zero() && self.5.is_zero() && self.6.is_zero() && self.7.is_zero()
            && self.8.is_zero()
    }

    fn zero_value() -> Self {
        (
            A::zero_value(),
            B::zero_value(),
            C::zero_value(),
            D::zero_value(),
            E::zero_value(),
            F::zero_value(),
            G::zero_value(),
            H::zero_value(),
            I::zero_value(),
        )
    }
}

impl<
    A: Zero,
    B: Zero,
    C: Zero,
    D: Zero,
    E: Zero,
    F: Zero,
    G: Zero,
    H: Zero,
    I: Zero,
    J: Zero,
> Zero for (A, B, C, D, E, F, G, H, I, J) {
    open spec fn is_zero(&self) -> bool {
        self.0.is_zero() && self.1.is_zero() && self.2.is_zero() && self.3.is_zero()
            && self.4.is_zero() && self.5.is_zero() && self.6.is_zero() && self.7.is_zero()
            && self.8.is_zero() && self.9.is_zero()
    }

    fn zero_value() -> Self {
        (
            A::zero_value(),
            B::zero_value(),
            C::zero_value(),
            D::zero_value(),
            E::zero_value(),
            F::zero_value(),
            G::zero_value(),
            H::zero_value(),
            I::zero_value(),
            J::zero_value(),
        )
    }
}

impl<
    A: Zero,
    B: Zero,
    C: Zero,
    D: Zero,
    E: Zero,
    F: Zero,
    G: Zero,
    H: Zero,
    I: Zero,
    J: Zero,
    K: Zero,
> Zero for (A, B, C, D, E, F, G, H, I, J, K) {
    open spec fn is_zero(&self) -> bool {
        self.0.is_zero() && self.1.is_zero() && self.2.is_zero() && self.3.is_zero()
            && self.4.is_zero() && self.5.is_zero() && self.6.is_zero() && self.7.is_zero()
            && self.8.is_zero() && self.9.is_zero() && self.10.is_zero()
    }

    fn zero_value() -> Self {
        (
            A::zero_value(),
            B::zero_value(),
            C::zero_value(),
            D::zero_value(),
            E::zero_value(),
            F::zero_value(),
            G::zero_value(),
            H::zero_value(),
            I::zero_value(),
            J::zero_value(),
            K::zero_value(),
        )
    }
}

impl<
    A: Zero,
    B: Zero,
    C: Zero,
    D: Zero,
    E: Zero,
    F: Zero,
    G: Zero,
    H: Zero,
    I: Zero,
    J: Zero,
    K: Zero,
    L: Zero,
> Zero for (A, B, C, D, E, F, G, H, I, J, K, L) {
    open spec fn is_zero(&self) -> bool {
        self.0.is_zero() && self.1.is_zero() && self.2.is_zero() && self.3.is_zero()
            && self.4.is_zero() && self.5.is_zero() && self.6.is_zero() && self.7.is_zero()
            && self.8.is_zero() && self.9.is_zero() && self.10.is_zero() && self.11.is_zero()
    }

    fn zero_value() -> Self {
        (
            A::zero_value(),
            B::zero_value(),
            C::zero_value(),
            D::zero_value(),
            E::zero_value(),
            F::zero_value(),
            G::zero_value(),
            H::zero_value(),
            I::zero_value(),
            J::zero_value(),
            K::zero_value(),
            L::zero_value(),
        )
    }
}

} // verus!
