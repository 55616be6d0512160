//! Providers: what turns an amount of fuel into energy.
//!
//! A provider takes a container of fuel and gives the energy it draws from
//! it, in the unit of the fuel. How much it draws is the provider's own rule;
//! every rule here is integer arithmetic on whole BTUs, rounded down once at
//! the end.

use crate::fuel::{
    density_btu, lemma_plain_densities, Diesel, Fuel, IsRenewable, LithiumBattery, Mixed,
};
use crate::units::{expressible, in_unit, lemma_expressible_fits, EnergyUnit, BTU};
use core::marker::PhantomData;
use vstd::prelude::*;

verus! {

/// An amount of the fuel `F`. A provider uses it up.
pub struct FuelContainer<F: Fuel> {
    /// The amount of fuel.
    amount: u32,
    _marker: PhantomData<F>,
}

impl<F: Fuel> View for FuelContainer<F> {
    type V = u32;

    /// The amount of fuel held.
    closed spec fn view(&self) -> u32 {
        self.amount
    }
}

impl<F: Fuel> FuelContainer<F> {
    /// A container that holds `amount` units of fuel.
    pub fn new(amount: u32) -> (c: Self)
        ensures
            c@ == amount,
    {
        Self { amount, _marker: PhantomData }
    }
}

/// The part of an efficiency that counts when it is taken in whole hundreds
/// of percent: nothing below 100, one from 100 on.
pub open spec fn whole_efficiency(e: u8) -> int {
    (if e > 100 {
        100
    } else {
        e as int
    }) / 100
}

/// An efficiency under 100 counts for nothing, and one of 100 or more for one
/// whole.
pub proof fn lemma_whole_efficiency(e: u8)
    ensures
        whole_efficiency(e) == if e >= 100 {
            1int
        } else {
            0int
        },
{
}

/// Something that draws energy from the fuel `F`, like a power plant.
pub trait ProvideEnergy<F: Fuel>: Sized {
    /// Whether the provider can make another conversion.
    spec fn ready(&self) -> bool;

    /// The energy, in whole BTU, that the provider as it stands draws from
    /// `amount` units of fuel.
    spec fn energy_btu(&self, amount: u32) -> int;

    /// The provider as one conversion leaves it.
    spec fn after_providing(&self) -> Self;

    /// Uses up the fuel in `f` and gives the energy drawn from it, in the unit
    /// of the fuel. The provider is left as one conversion leaves it.
    fn provide_energy(&mut self, f: FuelContainer<F>) -> (out: F::Output)
        requires
            F::well_formed(),
            old(self).ready(),
            expressible::<F::Output>(old(self).energy_btu(f@)),
        ensures
            out == in_unit::<F::Output>(old(self).energy_btu(f@)),
            *final(self) == old(self).after_providing(),
    ;

    /// Uses up the fuel in `f` at the efficiency `e`, a percentage that counts
    /// as 100 when it is higher. The efficiency is taken in whole hundreds of
    /// percent, so any `e` under 100 gives no energy at all.
    fn provide_energy_with_efficiency(&self, f: FuelContainer<F>, e: u8) -> (out: F::Output)
        requires
            F::well_formed(),
            expressible::<F::Output>(density_btu::<F>() * f@ * whole_efficiency(e)),
        ensures
            out == in_unit::<F::Output>(density_btu::<F>() * f@ * whole_efficiency(e)),
    {
        let capped: u8 = if e > 100 {
            100
        } else {
            e
        };
        let density: BTU = F::energy_density().into_btu();
        if capped / 100 == 0 {
            assert(density_btu::<F>() * f@ * 0 == 0) by (nonlinear_arith);
            F::Output::from_btu(0)
        } else {
            assert(density_btu::<F>() * f@ * 1 == density_btu::<F>() * f@) by (nonlinear_arith);
            F::Output::from_btu(full_energy::<F::Output>(density, f.amount))
        }
    }

    /// Uses up the fuel in `f` and gives its amount as that many BTU, in the
    /// unit of the fuel.
    fn provide_energy_ideal(&self, f: FuelContainer<F>) -> (out: F::Output)
        requires
            expressible::<F::Output>(f@ as int),
        ensures
            out == in_unit::<F::Output>(f@ as int),
    {
        F::Output::from_btu(f.amount)
    }
}

/// The product of a density and an amount, where it can be written in `U`.
fn full_energy<U: EnergyUnit>(density: BTU, amount: u32) -> (btu: BTU)
    requires
        expressible::<U>(density * amount),
    ensures
        btu == density * amount,
{
    proof {
        lemma_expressible_fits::<U>(density * amount);
    }
    assert(density * amount <= 0xffff_ffff * 0xffff_ffff) by (nonlinear_arith)
        requires
            density <= 0xffff_ffff,
            amount <= 0xffff_ffff,
    ;
    ((density as u64) * (amount as u64)) as BTU
}

/// `percent` hundredths of the product of a density and an amount, rounded
/// down, where it can be written in `U`.
fn share_of_energy<U: EnergyUnit>(density: BTU, amount: u32, percent: u8) -> (btu: BTU)
    requires
        expressible::<U>(density * amount * percent / 100),
    ensures
        btu == density * amount * percent / 100,
{
    proof {
        lemma_expressible_fits::<U>(density * amount * percent / 100);
    }
    assert(density * amount * percent <= 0xffff_ffff * 0xffff_ffff * 0xff && 0 <= density
        * amount <= 0xffff_ffff * 0xffff_ffff) by (nonlinear_arith)
        requires
            density <= 0xffff_ffff,
            amount <= 0xffff_ffff,
            percent <= 0xff,
    ;
    ((density as u128) * (amount as u128) * (percent as u128) / 100) as BTU
}

/// A nuclear reactor, meant for `Uranium`. It gives 99 percent of what the
/// fuel holds and keeps no state.
pub struct NuclearReactor;

impl<F: Fuel> ProvideEnergy<F> for NuclearReactor {
    open spec fn ready(&self) -> bool {
        true
    }

    open spec fn energy_btu(&self, amount: u32) -> int {
        density_btu::<F>() * amount * 99 / 100
    }

    open spec fn after_providing(&self) -> Self {
        *self
    }

    fn provide_energy(&mut self, f: FuelContainer<F>) -> (out: F::Output) {
        let density: BTU = F::energy_density().into_btu();
        F::Output::from_btu(share_of_energy::<F::Output>(density, f.amount, 99))
    }
}

/// A reactor keeps no state: a conversion leaves it as it was, and what it
/// gives depends on the fuel and the amount alone.
pub proof fn lemma_reactor_keeps_no_state<F: Fuel>(
    reactor: NuclearReactor,
    other: NuclearReactor,
    amount: u32,
)
    ensures
        ProvideEnergy::<F>::after_providing(&reactor) == reactor,
        ProvideEnergy::<F>::energy_btu(&reactor, amount) == ProvideEnergy::<F>::energy_btu(
            &other,
            amount,
        ),
{
}

/// The energy, in whole BTU, that a combustion engine with the stored
/// efficiency `efficiency` draws from `amount` units of a fuel of the given
/// density: all of it while the stored value is above 100, that many percent
/// from 100 down.
pub open spec fn combustion_energy_btu(efficiency: u8, density: int, amount: int) -> int {
    if efficiency > 100 {
        density * amount
    } else {
        density * amount * efficiency / 100
    }
}

/// The stored efficiency after one conversion: 10 less while it is above 100,
/// one less from 100 down.
pub open spec fn decayed(efficiency: u8) -> int {
    if efficiency > 100 {
        efficiency - 10
    } else {
        efficiency - 1
    }
}

/// A combustion engine, meant for `Diesel`, whose efficiency wears off with
/// use. It stores one percentage, which may start above 100.
///
/// `DECAY` is meant as the number of conversions after which the efficiency
/// drops by one. The rule that is in force does not read it: each conversion
/// lowers the stored value, by 10 while it is above 100 and by one from 100
/// down.
pub struct InternalCombustion<const DECAY: u32>(u8);

impl<const DECAY: u32> View for InternalCombustion<DECAY> {
    type V = u8;

    /// The stored efficiency.
    closed spec fn view(&self) -> u8 {
        self.0
    }
}

impl<const DECAY: u32> InternalCombustion<DECAY> {
    /// An engine whose stored efficiency is `efficiency`.
    pub fn new(efficiency: u8) -> (ic: Self)
        ensures
            ic@ == efficiency,
    {
        Self(efficiency)
    }
}

impl<const DECAY: u32, F: Fuel> ProvideEnergy<F> for InternalCombustion<DECAY> {
    /// An engine whose stored efficiency has reached zero cannot be used:
    /// there is nothing left to take off.
    open spec fn ready(&self) -> bool {
        self@ >= 1
    }

    open spec fn energy_btu(&self, amount: u32) -> int {
        combustion_energy_btu(self@, density_btu::<F>(), amount as int)
    }

    closed spec fn after_providing(&self) -> Self {
        InternalCombustion(decayed(self.0) as u8)
    }

    fn provide_energy(&mut self, f: FuelContainer<F>) -> (out: F::Output)
        ensures
            final(self)@ == decayed(old(self)@),
    {
        let density: BTU = F::energy_density().into_btu();
        let efficiency: u8 = self.0;
        if efficiency > 100 {
            self.0 = efficiency - 10;
            F::Output::from_btu(full_energy::<F::Output>(density, f.amount))
        } else {
            self.0 = efficiency - 1;
            F::Output::from_btu(share_of_energy::<F::Output>(density, f.amount, efficiency))
        }
    }
}

/// A generator that takes any fuel and gives `EFFICIENCY` percent of what it
/// holds. It keeps no state.
pub struct OmniGenerator<const EFFICIENCY: u8>;

impl<const EFFICIENCY: u8, F: Fuel> ProvideEnergy<F> for OmniGenerator<EFFICIENCY> {
    open spec fn ready(&self) -> bool {
        true
    }

    open spec fn energy_btu(&self, amount: u32) -> int {
        density_btu::<F>() * amount * EFFICIENCY / 100
    }

    open spec fn after_providing(&self) -> Self {
        *self
    }

    fn provide_energy(&mut self, f: FuelContainer<F>) -> (out: F::Output) {
        let density: BTU = F::energy_density().into_btu();
        F::Output::from_btu(share_of_energy::<F::Output>(density, f.amount, EFFICIENCY))
    }
}

/// At 100 percent a generator gives all that the fuel holds: the density
/// times the amount, with nothing rounded away.
pub proof fn lemma_omni_at_full_efficiency<F: Fuel>(generator: OmniGenerator<100>, amount: u32)
    ensures
        ProvideEnergy::<F>::energy_btu(&generator, amount) == density_btu::<F>() * amount,
{
    let whole = density_btu::<F>() * amount;
    assert(whole * 100 / 100 == whole);
}

/// The energy that an `OmniGenerator` at 80 percent draws from `amount` units
/// of an even blend of `Diesel` and `LithiumBattery`.
pub fn omni_80_energy(amount: u32) -> (energy: BTU)
    requires
        120 * amount <= u32::MAX,
    ensures
        energy == 120 * amount,
{
    let fuel_container: FuelContainer<Mixed<Diesel, LithiumBattery>> = FuelContainer::new(amount);
    let mut omni_generator: OmniGenerator<80> = OmniGenerator::<80>;
    proof {
        lemma_plain_densities();
        assert(density_btu::<Mixed<Diesel, LithiumBattery>>() == 150);
        assert(150 * amount * 80 / 100 == 120 * amount);
    }
    omni_generator.provide_energy(fuel_container).into_btu()
}

/// An engine that takes renewable fuels only and gives all that they hold.
pub struct GreenEngine<F: Fuel>(pub PhantomData<F>);

impl<F: Fuel + IsRenewable> ProvideEnergy<F> for GreenEngine<F> {
    open spec fn ready(&self) -> bool {
        true
    }

    open spec fn energy_btu(&self, amount: u32) -> int {
        density_btu::<F>() * amount
    }

    open spec fn after_providing(&self) -> Self {
        *self
    }

    fn provide_energy(&mut self, f: FuelContainer<F>) -> (out: F::Output) {
        let density: BTU = F::energy_density().into_btu();
        F::Output::from_btu(full_energy::<F::Output>(density, f.amount))
    }
}

/// An engine that takes only fuels whose density is given in BTU, and gives
/// all that they hold.
pub struct BritishEngine<F: Fuel>(pub PhantomData<F>);

impl<F: Fuel<Output = BTU>> ProvideEnergy<F> for BritishEngine<F> {
    open spec fn ready(&self) -> bool {
        true
    }

    open spec fn energy_btu(&self, amount: u32) -> int {
        density_btu::<F>() * amount
    }

    open spec fn after_providing(&self) -> Self {
        *self
    }

    fn provide_energy(&mut self, f: FuelContainer<F>) -> (out: BTU) {
        let density: BTU = F::energy_density();
        full_energy::<BTU>(density, f.amount)
    }
}

} // verus!
