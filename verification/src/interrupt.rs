//! Interrupt-notification without an ownership cycle.
//!
//! The bus strongly owns its interrupt controller; interrupt sources strongly
//! own their callbacks; a callback references the bus only weakly, so that
//! sources never keep the bus alive. With no native weak references in
//! verified code, the non-owning reference is an explicit single-slot
//! registry: a [`BusOwner`] holds the one strong reference to a bus together
//! with a generation counter, and a [`PlicIrqCallback`] records the
//! generation of the bus it was created for. Raising or lowering first checks
//! that the owner still holds a bus of that generation; once the bus has been
//! released (or replaced), the callback is a safe no-op.

use vstd::prelude::*;
use crate::device::Device;
use crate::device::IrqController;
use crate::system_bus::Resource;
use crate::system_bus::SystemBus;

verus! {

/// The single strong owner of a [`SystemBus`]. Releasing the bus leaves the
/// slot empty; installing a new bus bumps the generation, so callbacks issued
/// for an earlier bus can never reach a later one.
pub struct BusOwner<A, R, C, P, U, D, W> {
    pub bus: Option<SystemBus<A, R, C, P, U, D, W>>,
    pub generation: u64,
}

impl<A, R, C, P, U, D, W> BusOwner<A, R, C, P, U, D, W> {
    /// Takes strong ownership of `bus`.
    pub fn new(bus: SystemBus<A, R, C, P, U, D, W>) -> (r: Self)
        ensures
            r.bus == Some(bus),
            r.generation == 0,
    {
        BusOwner { bus: Some(bus), generation: 0 }
    }

    /// Puts a new bus into the empty slot, under a fresh generation:
    /// callbacks issued for the previous bus become permanently inert.
    pub fn install(&mut self, bus: SystemBus<A, R, C, P, U, D, W>)
        requires
            old(self).bus is None,
            old(self).generation < u64::MAX,
        ensures
            final(self).bus == Some(bus),
            final(self).generation == old(self).generation + 1,
    {
        self.generation = self.generation + 1;
        self.bus = Some(bus);
    }

    /// Gives the bus up, ending its life as far as callbacks are concerned.
    /// The caller is responsible for tearing the returned bus down through
    /// its explicit release operation.
    pub fn release_bus(&mut self) -> (r: Option<SystemBus<A, R, C, P, U, D, W>>)
        ensures
            final(self).bus is None,
            final(self).generation == old(self).generation,
            r == old(self).bus,
    {
        self.bus.take()
    }
}

/// Converts raise/lower requests on one interrupt channel into calls against
/// the platform interrupt controller of the bus it was created for, through
/// the non-owning reference held by its [`BusOwner`]'s generation.
pub struct PlicIrqCallback {
    generation: u64,
    index: u8,
}

impl PlicIrqCallback {
    /// The channel index is fixed at construction to a valid channel.
    #[verifier::type_invariant]
    pub closed spec fn channel_valid(self) -> bool {
        1 <= self.index <= 52
    }

    /// The generation of the bus this callback was issued for.
    pub closed spec fn spec_generation(self) -> u64 {
        self.generation
    }

    /// The interrupt channel this callback signals.
    pub closed spec fn spec_index(self) -> u8 {
        self.index
    }

    /// Raises this callback's channel on the owner's interrupt controller.
    /// If the owner no longer holds the bus this callback was issued for,
    /// nothing happens and nothing is reported: that is the expected course
    /// during system teardown, not an error.
    pub fn raise<A, R, C, P, U, D, W>(
        &self,
        owner: &mut BusOwner<A, R, C, P, U, D, W>,
        allocator: &mut A,
    ) where
        R: Device<A>,
        C: Device<A>,
        P: IrqController<A>,
        U: Device<A>,
        D: Device<A>,
        W: Device<A>,

        ensures
            final(owner).generation == old(owner).generation,
            (old(owner).bus is None || self.spec_generation() != old(owner).generation) ==> {
                &&& *final(owner) == *old(owner)
                &&& *final(allocator) == *old(allocator)
            },
            old(owner).bus matches Some(pre_bus) ==> self.spec_generation() == old(
                owner,
            ).generation ==> {
                &&& final(owner).bus matches Some(post_bus)
                    && SystemBus::unchanged_except(pre_bus, post_bus, Resource::Plic)
                    && P::raise_ok(
                    pre_bus.plic,
                    *old(allocator),
                    self.spec_index(),
                    post_bus.plic,
                    *final(allocator),
                )
            },
    {
        proof {
            use_type_invariant(self);
        }
        if self.generation == owner.generation {
            match &mut owner.bus {
                Some(bus) => bus.plic.raise(allocator, self.index),
                None => {},
            }
        }
    }

    /// Lowers this callback's channel on the owner's interrupt controller;
    /// inert in exactly the situations `raise` is.
    pub fn lower<A, R, C, P, U, D, W>(
        &self,
        owner: &mut BusOwner<A, R, C, P, U, D, W>,
        allocator: &mut A,
    ) where
        R: Device<A>,
        C: Device<A>,
        P: IrqController<A>,
        U: Device<A>,
        D: Device<A>,
        W: Device<A>,

        ensures
            final(owner).generation == old(owner).generation,
            (old(owner).bus is None || self.spec_generation() != old(owner).generation) ==> {
                &&& *final(owner) == *old(owner)
                &&& *final(allocator) == *old(allocator)
            },
            old(owner).bus matches Some(pre_bus) ==> self.spec_generation() == old(
                owner,
            ).generation ==> {
                &&& final(owner).bus matches Some(post_bus)
                    && SystemBus::unchanged_except(pre_bus, post_bus, Resource::Plic)
                    && P::lower_ok(
                    pre_bus.plic,
                    *old(allocator),
                    self.spec_index(),
                    post_bus.plic,
                    *final(allocator),
                )
            },
    {
        proof {
            use_type_invariant(self);
        }
        if self.generation == owner.generation {
            match &mut owner.bus {
                Some(bus) => bus.plic.lower(allocator, self.index),
                None => {},
            }
        }
    }
}

impl<A, R, C, P, U, D, W> SystemBus<A, R, C, P, U, D, W> {
    /// Builds the raise/lower callback for channel `index` of this bus's
    /// platform interrupt controller. A channel outside 1..=52 is a
    /// configuration defect, not a runtime condition, and is ruled out by the
    /// precondition; `try_get_plic_irq_callback` is the checked form.
    pub fn get_plic_irq_callback(bus: &BusOwner<A, R, C, P, U, D, W>, index: u8) -> (r:
        PlicIrqCallback)
        requires
            1 <= index <= 52,
        ensures
            r.spec_generation() == bus.generation,
            r.spec_index() == index,
    {
        PlicIrqCallback { generation: bus.generation, index }
    }

    /// Builds the callback for channel `index`, accepting exactly the valid
    /// channels 1..=52.
    pub fn try_get_plic_irq_callback(bus: &BusOwner<A, R, C, P, U, D, W>, index: u8) -> (r: Option<
        PlicIrqCallback,
    >)
        ensures
            match r {
                Some(cb) => {
                    &&& 1 <= index <= 52
                    &&& cb.spec_generation() == bus.generation
                    &&& cb.spec_index() == index
                },
                None => !(1 <= index <= 52),
            },
    {
        if 1 <= index && index <= 52 {
            Some(Self::get_plic_irq_callback(bus, index))
        } else {
            None
        }
    }
}

} // verus!
