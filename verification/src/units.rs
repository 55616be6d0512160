//! Energy units and their fixed integer ratios to the BTU.
//!
//! Every energy in this crate is a whole number of some unit. Two physical
//! units, the joule and the calorie, stand beside the BTU, the common unit in
//! which energies are compared and mixed. Going to BTU divides by the unit's
//! ratio and drops the remainder; coming from BTU multiplies by it.

use vstd::prelude::*;

verus! {

/// The common unit in which energies are compared and mixed.
pub type BTU = u32;

/// Joules in one BTU.
pub const JOULES_PER_BTU: u32 = 1055;

/// Calories in one BTU.
pub const CALORIES_PER_BTU: u32 = 251;

/// An amount of energy in joules.
#[derive(Eq, PartialEq, Debug, Clone, Copy, Structural)]
pub struct Joule(pub u32);

/// An amount of energy in calories.
#[derive(Eq, PartialEq, Debug, Clone, Copy, Structural)]
pub struct Calorie(pub u32);

/// A unit of energy: a 32-bit magnitude and a fixed ratio to the BTU.
///
/// A value is known by its magnitude alone, and every 32-bit magnitude is a
/// value of the unit.
pub trait EnergyUnit: Sized {
    /// How many of this unit make one BTU.
    spec fn per_btu() -> int;

    /// The number of units that `self` holds.
    spec fn magnitude(self) -> int;

    /// The value that holds `m` units.
    spec fn with_magnitude(m: int) -> Self;

    /// The ratio is positive, and magnitudes and values correspond one to one.
    proof fn unit_laws()
        ensures
            Self::per_btu() >= 1,
            forall|m: int|
                0 <= m <= u32::MAX ==> #[trigger] Self::with_magnitude(m).magnitude() == m,
            forall|e: Self|
                0 <= #[trigger] e.magnitude() <= u32::MAX && Self::with_magnitude(e.magnitude())
                    == e,
    ;

    /// The whole BTUs in `self`; what is left over is dropped.
    fn into_btu(self) -> (b: BTU)
        ensures
            b == self.magnitude() / Self::per_btu(),
    ;

    /// `b` BTU in this unit. The product has to fit in 32 bits.
    fn from_btu(b: BTU) -> (e: Self)
        requires
            b * Self::per_btu() <= u32::MAX,
        ensures
            e == Self::with_magnitude(b * Self::per_btu()),
    ;
}

/// Whether `btu` BTU can be written in the unit `U`: it is not negative, and
/// its magnitude in `U` fits in 32 bits.
pub open spec fn expressible<U: EnergyUnit>(btu: int) -> bool {
    0 <= btu && btu * U::per_btu() <= u32::MAX
}

/// `btu` BTU written in the unit `U`.
pub open spec fn in_unit<U: EnergyUnit>(btu: int) -> U {
    U::with_magnitude(btu * U::per_btu())
}

/// The whole BTUs in `e`.
pub open spec fn btu_of<U: EnergyUnit>(e: U) -> int {
    e.magnitude() / U::per_btu()
}

impl EnergyUnit for Joule {
    open spec fn per_btu() -> int {
        JOULES_PER_BTU as int
    }

    open spec fn magnitude(self) -> int {
        self.0 as int
    }

    open spec fn with_magnitude(m: int) -> Self {
        Joule(m as u32)
    }

    proof fn unit_laws() {
    }

    fn into_btu(self) -> (b: BTU) {
        self.0 / JOULES_PER_BTU
    }

    fn from_btu(b: BTU) -> (e: Self) {
        Joule(b * JOULES_PER_BTU)
    }
}

impl EnergyUnit for Calorie {
    open spec fn per_btu() -> int {
        CALORIES_PER_BTU as int
    }

    open spec fn magnitude(self) -> int {
        self.0 as int
    }

    open spec fn with_magnitude(m: int) -> Self {
        Calorie(m as u32)
    }

    proof fn unit_laws() {
    }

    fn into_btu(self) -> (b: BTU) {
        self.0 / CALORIES_PER_BTU
    }

    fn from_btu(b: BTU) -> (e: Self) {
        Calorie(b * CALORIES_PER_BTU)
    }
}

impl EnergyUnit for BTU {
    open spec fn per_btu() -> int {
        1
    }

    open spec fn magnitude(self) -> int {
        self as int
    }

    open spec fn with_magnitude(m: int) -> Self {
        m as u32
    }

    proof fn unit_laws() {
    }

    fn into_btu(self) -> (b: BTU) {
        self
    }

    fn from_btu(b: BTU) -> (e: Self) {
        b
    }
}

impl From<Joule> for BTU {
    fn from(j: Joule) -> (b: BTU) {
        j.into_btu()
    }
}

impl vstd::std_specs::convert::FromSpecImpl<Joule> for BTU {
    open spec fn obeys_from_spec() -> bool {
        true
    }

    open spec fn from_spec(j: Joule) -> BTU {
        j.0 / JOULES_PER_BTU
    }
}

impl From<Calorie> for BTU {
    fn from(c: Calorie) -> (b: BTU) {
        c.into_btu()
    }
}

impl vstd::std_specs::convert::FromSpecImpl<Calorie> for BTU {
    open spec fn obeys_from_spec() -> bool {
        true
    }

    open spec fn from_spec(c: Calorie) -> BTU {
        c.0 / CALORIES_PER_BTU
    }
}

/// An energy that can be written in a unit fits in 32 bits as BTU too.
pub proof fn lemma_expressible_fits<U: EnergyUnit>(btu: int)
    requires
        expressible::<U>(btu),
    ensures
        0 <= btu <= u32::MAX,
{
    U::unit_laws();
    let r = U::per_btu();
    assert(btu <= btu * r) by (nonlinear_arith)
        requires
            0 <= btu,
            1 <= r,
    ;
}

/// An energy that is written in a unit and read back in BTU comes back
/// unchanged.
pub proof fn lemma_btu_round_trip<U: EnergyUnit>(btu: int)
    requires
        expressible::<U>(btu),
    ensures
        btu_of(in_unit::<U>(btu)) == btu,
{
    U::unit_laws();
    let r = U::per_btu();
    assert(0 <= btu * r) by (nonlinear_arith)
        requires
            0 <= btu,
            1 <= r,
    ;
    assert((btu * r) / r == btu) by (nonlinear_arith)
        requires
            1 <= r,
    ;
}

/// An energy that is read in BTU and written back in its unit loses what was
/// left over of a whole BTU, and nothing else.
pub proof fn lemma_unit_round_trip<U: EnergyUnit>(e: U)
    ensures
        expressible::<U>(btu_of(e)),
        in_unit::<U>(btu_of(e)).magnitude() == e.magnitude() - e.magnitude() % U::per_btu(),
{
    U::unit_laws();
    let r = U::per_btu();
    let m = e.magnitude();
    assert(0 <= m / r && (m / r) * r == m - m % r && 0 <= m % r) by (nonlinear_arith)
        requires
            0 <= m,
            1 <= r,
    ;
}

} // verus!
