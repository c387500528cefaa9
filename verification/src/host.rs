//! The part of Bevy that the scheduler talks to: the `World` as a registry of
//! one-shot systems.
//!
//! The declarations of Bevy's types and the three functions at the end that
//! call the world are believed, not proved; each says which item of Bevy it
//! stands for, and none claims anything of what the world does. Between them
//! stand the records that keep what the world answered together with what it
//! was asked: a [`Slot`] for a registration, a [`Removed`] for a removal.
//! Their fields are private and they are made here only.

use bevy::ecs::system::{BoxedSystem, RegisteredSystemError, SystemId};
use bevy::ecs::world::World;
use vstd::prelude::*;

use crate::result::CoResult;

verus! {

/// `bevy::ecs::world::World`, carried through as an opaque value.
#[verifier::external_type_specification]
#[verifier::external_body]
pub struct ExWorld(World);

/// `bevy::ecs::system::SystemId`, the handle of a registered system,
/// carried through as an opaque value.
#[verifier::external_type_specification]
#[verifier::external_body]
#[verifier::reject_recursive_types(I)]
#[verifier::reject_recursive_types(O)]
pub struct ExSystemId<I, O>(SystemId<I, O>);

/// `bevy::ecs::system::RegisteredSystemError`, carried through as an opaque
/// value.
#[verifier::external_type_specification]
#[verifier::external_body]
#[verifier::reject_recursive_types(I)]
#[verifier::reject_recursive_types(O)]
pub struct ExRegisteredSystemError<I, O>(RegisteredSystemError<I, O>);

/// A system that can be used as a step of a coroutine: it takes no input and
/// returns a [`CoResult`]. The field is Bevy's `BoxedSystem<(), CoResult>`, a
/// boxed trait object, which the verifier cannot look into; so the whole
/// struct is opaque to it.
#[verifier::external_body]
pub struct BoxedCoroutine(pub BoxedSystem<(), CoResult>);

/// The handle under which the world runs a registered step.
pub type StepId = SystemId<(), CoResult>;

/// The error with which the world refuses to run or to remove a step.
pub type HostError = RegisteredSystemError<(), CoResult>;

/// One place on a coroutine's stack: the handle of a registered step and,
/// for the proofs alone, the step that the handle was issued for. A slot is
/// made in this file only, so the two cannot come apart.
pub struct Slot {
    id: StepId,
    step: Ghost<BoxedCoroutine>,
}

impl Slot {
    /// The handle under which the world runs the step.
    pub closed spec fn id(self) -> StepId {
        self.id
    }

    /// The step that the handle was issued for.
    pub closed spec fn step(self) -> BoxedCoroutine {
        self.step@
    }

    /// The handle under which the world runs the step.
    pub fn handle(&self) -> (id: StepId)
        ensures
            id == self.id(),
    {
        self.id
    }

    /// A slot for a handle that was issued elsewhere. Nothing is known of
    /// the step behind it.
    pub fn adopt(id: StepId) -> (slot: Slot)
        ensures
            slot.id() == id,
    {
        Slot { id, step: Ghost(arbitrary()) }
    }
}

/// Registers `step` with the world and returns its slot: the handle that
/// the world gave, together with the step that it gave it for.
pub fn register(world: &mut World, step: BoxedCoroutine) -> (slot: Slot)
    ensures
        slot.step() == step,
{
    let ghost issued = step;
    let id = register_step(world, step);
    Slot { id, step: Ghost(issued) }
}

/// The world's word that it removed a step. One is made in this file only,
/// from an `Ok` of the world, so whoever holds one has asked the world and
/// was not refused.
pub struct Removed {
    step: Ghost<StepId>,
}

impl Removed {
    /// The handle of the step that the world removed.
    pub closed spec fn id(self) -> StepId {
        self.step@
    }
}

/// Asks the world to remove `step` and returns its word for it, or its
/// refusal.
pub fn remove(world: &mut World, step: StepId) -> (r: Result<Removed, HostError>)
    ensures
        r is Ok ==> r->Ok_0.id() == step,
{
    match remove_step(world, step) {
        Ok(()) => Ok(Removed { step: Ghost(step) }),
        Err(error) => Err(error),
    }
}

/// The handles that a coroutine has given back to the world, in the order
/// in which the world removed them. It exists for the proofs alone, and
/// grows only by the world's word.
pub struct Released {
    steps: Ghost<Seq<StepId>>,
}

impl View for Released {
    type V = Seq<StepId>;

    closed spec fn view(&self) -> Seq<StepId> {
        self.steps@
    }
}

impl Released {
    /// Nothing given back yet.
    pub fn new() -> (r: Self)
        ensures
            r@ == Seq::<StepId>::empty(),
    {
        Released { steps: Ghost(Seq::empty()) }
    }

    /// Writes down that the world removed a step.
    pub fn record(&mut self, removed: Removed)
        ensures
            final(self)@ == old(self)@.push(removed.id()),
    {
        let ghost steps = self.steps@.push(removed.id());
        self.steps = Ghost(steps);
    }
}

/// `World::register_boxed_system` on the system inside `step`. The handle is
/// the world's choice, so nothing is claimed of it or of the world
/// afterwards.
#[verifier::external_body]
pub(crate) fn register_step(world: &mut World, step: BoxedCoroutine) -> (id: StepId) {
    world.register_boxed_system(step.0)
}

/// `World::run_system` on `step`. The system is user code with the whole
/// world in its hands: nothing is claimed of the result or of the world
/// afterwards, and a system that panics unwinds through this call.
#[verifier::external_body]
pub(crate) fn run_step(world: &mut World, step: StepId) -> (r: Result<CoResult, HostError>) {
    world.run_system(step)
}

/// `World::remove_system` on `step`; the removed system is dropped. Whether
/// the world still knows `step` cannot be told from here, so nothing is
/// claimed of the result or of the world afterwards.
#[verifier::external_body]
pub(crate) fn remove_step(world: &mut World, step: StepId) -> (r: Result<(), HostError>) {
    match world.remove_system(step) {
        Ok(_) => Ok(()),
        Err(error) => Err(error),
    }
}

} // verus!
