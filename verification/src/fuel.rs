//! Fuels: kinds of stored energy, each with a fixed energy density.
//!
//! A fuel is a type, never a value. It names the unit in which its density is
//! given and the density itself. Two fuels can be blended into a third, evenly
//! or by a percentage fixed in the type.

use crate::units::{btu_of, in_unit, Calorie, EnergyUnit, Joule, BTU};
use core::marker::PhantomData;
use vstd::prelude::*;

verus! {

/// A technology that stores energy for later use.
pub trait Fuel {
    /// The unit in which the energy density is given.
    type Output: EnergyUnit;

    /// Whether the parameters of the fuel's type are within their ranges.
    /// A fuel whose type does not meet this has no density.
    spec fn well_formed() -> bool;

    /// The energy in one unit of fuel.
    spec fn density() -> Self::Output;

    /// The energy in one unit of fuel.
    fn energy_density() -> (d: Self::Output)
        requires
            Self::well_formed(),
        ensures
            d == Self::density(),
    ;
}

/// The whole BTUs in one unit of the fuel `F`.
pub open spec fn density_btu<F: Fuel>() -> int {
    btu_of(F::density())
}

/// Diesel: 100 BTU to the unit, given in joules.
pub struct Diesel;

impl Fuel for Diesel {
    type Output = Joule;

    open spec fn well_formed() -> bool {
        true
    }

    open spec fn density() -> Joule {
        in_unit::<Joule>(100)
    }

    fn energy_density() -> (d: Joule) {
        Joule::from_btu(100)
    }
}

/// A lithium battery: 200 BTU to the unit, given in calories.
pub struct LithiumBattery;

impl Fuel for LithiumBattery {
    type Output = Calorie;

    open spec fn well_formed() -> bool {
        true
    }

    open spec fn density() -> Calorie {
        in_unit::<Calorie>(200)
    }

    fn energy_density() -> (d: Calorie) {
        Calorie::from_btu(200)
    }
}

/// Uranium: 1000 BTU to the unit, given in joules.
pub struct Uranium;

impl Fuel for Uranium {
    type Output = Joule;

    open spec fn well_formed() -> bool {
        true
    }

    open spec fn density() -> Joule {
        in_unit::<Joule>(1000)
    }

    fn energy_density() -> (d: Joule) {
        Joule::from_btu(1000)
    }
}

/// The mean of two BTU densities, rounded down.
pub open spec fn mean_density(d1: int, d2: int) -> int {
    (d1 + d2) / 2
}

/// `c` percent of the first BTU density and the rest of the second. Each
/// share is rounded down on its own before the two are added.
pub open spec fn weighted_density(c: int, d1: int, d2: int) -> int {
    (d1 * c) / 100 + (d2 * (100 - c)) / 100
}

/// An even blend of two fuels. Its density is the mean of theirs, taken in
/// BTU and given in BTU.
pub struct Mixed<F1: Fuel, F2: Fuel>(PhantomData<(F1, F2)>);

impl<F1: Fuel, F2: Fuel> Fuel for Mixed<F1, F2> {
    type Output = BTU;

    open spec fn well_formed() -> bool {
        F1::well_formed() && F2::well_formed()
    }

    open spec fn density() -> BTU {
        mean_density(density_btu::<F1>(), density_btu::<F2>()) as BTU
    }

    fn energy_density() -> (d: BTU) {
        let fuel_1: u64 = F1::energy_density().into_btu() as u64;
        let fuel_2: u64 = F2::energy_density().into_btu() as u64;
        ((fuel_1 + fuel_2) / 2) as BTU
    }
}

/// A blend of `C` percent of `F1` and the rest of `F2`, with `C` at most 100.
/// Its density is taken in BTU and given in BTU.
pub struct CustomMixed<const C: u8, F1, F2>(PhantomData<(F1, F2)>);

impl<const C: u8, F1: Fuel, F2: Fuel> Fuel for CustomMixed<C, F1, F2> {
    type Output = BTU;

    open spec fn well_formed() -> bool {
        C <= 100 && F1::well_formed() && F2::well_formed()
    }

    open spec fn density() -> BTU {
        weighted_density(C as int, density_btu::<F1>(), density_btu::<F2>()) as BTU
    }

    fn energy_density() -> (d: BTU) {
        let fuel_1: u64 = F1::energy_density().into_btu() as u64;
        let fuel_2: u64 = F2::energy_density().into_btu() as u64;
        let c: u64 = C as u64;
        proof {
            lemma_weighted_density_bounds(c as int, fuel_1 as int, fuel_2 as int, u32::MAX as int);
            assert(fuel_1 * c <= 0xffff_ffff * 100) by (nonlinear_arith)
                requires
                    fuel_1 <= 0xffff_ffff,
                    c <= 100,
            ;
            assert(fuel_2 * (100 - c) <= 0xffff_ffff * 100) by (nonlinear_arith)
                requires
                    fuel_2 <= 0xffff_ffff,
                    c <= 100,
            ;
        }
        ((fuel_1 * c) / 100 + (fuel_2 * (100 - c)) / 100) as BTU
    }
}

/// A fuel that will not run out.
pub trait IsRenewable {
}

impl IsRenewable for LithiumBattery {
}

/// A blend lies between nothing and the denser of its two parts.
pub proof fn lemma_weighted_density_bounds(c: int, d1: int, d2: int, bound: int)
    requires
        0 <= c <= 100,
        0 <= d1 <= bound,
        0 <= d2 <= bound,
    ensures
        0 <= weighted_density(c, d1, d2) <= bound,
{
    assert(0 <= d1 * c && 0 <= d2 * (100 - c) && d1 * c + d2 * (100 - c) <= bound * 100)
        by (nonlinear_arith)
        requires
            0 <= c <= 100,
            0 <= d1 <= bound,
            0 <= d2 <= bound,
    ;
}

/// The three plain fuels hold 100, 200 and 1000 BTU to the unit.
pub proof fn lemma_plain_densities()
    ensures
        density_btu::<Diesel>() == 100,
        density_btu::<LithiumBattery>() == 200,
        density_btu::<Uranium>() == 1000,
{
}

/// A blend at 50 percent equals the even blend, except where both densities
/// are odd: there each half loses a half, and the blend is one less.
pub proof fn lemma_half_blend_is_even_blend<F1: Fuel, F2: Fuel>()
    ensures
        ({
            let both_odd = density_btu::<F1>() % 2 == 1 && density_btu::<F2>() % 2 == 1;
            CustomMixed::<50, F1, F2>::density() == Mixed::<F1, F2>::density() <==> !both_odd
        }),
{
    F1::Output::unit_laws();
    F2::Output::unit_laws();
    let d1 = density_btu::<F1>();
    let d2 = density_btu::<F2>();
    let m1 = F1::density().magnitude();
    let m2 = F2::density().magnitude();
    let r1 = F1::Output::per_btu();
    let r2 = F2::Output::per_btu();
    assert(0 <= m1 / r1 <= m1) by (nonlinear_arith)
        requires
            0 <= m1,
            1 <= r1,
    ;
    assert(0 <= m2 / r2 <= m2) by (nonlinear_arith)
        requires
            0 <= m2,
            1 <= r2,
    ;
    assert((d1 * 50) / 100 == d1 / 2);
    assert((d2 * 50) / 100 == d2 / 2);
}

} // verus!
