//! The state that a light source asks for, and how it reaches the
//! animation underneath.

use bevy::ecs::entity::Entity;
use vstd::prelude::*;

use super::light_alloc::{free_step, LightAllocer, LightClaim};

verus! {

/// Records what kind of state update needs to happen internally
#[derive(Debug, PartialEq, Eq)]
pub enum LightStateUpdate<Anim> {
    /// Move to the state; an animation already in it runs on.
    SetTo(Anim),
    /// Move to the state and start its animation from the beginning.
    ResetTo(Anim),
}

impl<Anim> LightStateUpdate<Anim> {
    /// The state that the update asks for.
    pub open spec fn state(&self) -> Anim {
        match *self {
            Self::SetTo(state) => state,
            Self::ResetTo(state) => state,
        }
    }

    /// The state that the update asks for.
    pub fn get_state(&self) -> (state: &Anim)
        ensures
            *state == self.state(),
    {
        match self {
            Self::SetTo(state) => state,
            Self::ResetTo(state) => state,
        }
    }
}

/// What to do with a light and its animation this frame.
#[derive(Debug, PartialEq, Eq)]
pub enum LightDrive<Anim> {
    /// Set the animation's state.
    SetState(Anim),
    /// Reset the animation to the state.
    ResetState(Anim),
    /// Leave the animation alone.
    Idle,
    /// The animation is gone: remove the light as well.
    RemoveLight,
}

/// A light source manager, implemented as a thin wrapper around the
/// animation that shows the light
#[derive(Debug, PartialEq, Eq)]
pub struct LightMan<Anim> {
    /// The update that has not reached the animation yet.
    pub state_update: Option<LightStateUpdate<Anim>>,
    /// What the light holds while it lives.
    pub claim: LightClaim,
}

/// What driving does with a pending update: with the animation there, the
/// update is handed on; without it, the light is to be removed.
pub open spec fn drive_spec<Anim>(
    state_update: Option<LightStateUpdate<Anim>>,
    has_anim: bool,
) -> LightDrive<Anim> {
    if !has_anim {
        LightDrive::RemoveLight
    } else {
        match state_update {
            Some(LightStateUpdate::SetTo(state)) => LightDrive::SetState(state),
            Some(LightStateUpdate::ResetTo(state)) => LightDrive::ResetState(state),
            None => LightDrive::Idle,
        }
    }
}

impl<Anim: Copy> LightMan<Anim> {
    /// A light that starts in the given state, with no claim yet.
    pub fn new(state: Anim) -> (light: Self)
        ensures
            light.state_update == Some(LightStateUpdate::ResetTo(state)),
            light.claim == (LightClaim { rl_usize: 0, camera_eid: None, agg_mesh_eid: None }),
    {
        Self { state_update: Some(LightStateUpdate::ResetTo(state)), claim: LightClaim::default() }
    }

    /// The same light, asked to move to the given state.
    pub fn with_state(self, state: Anim) -> (light: Self)
        ensures
            light.state_update == Some(LightStateUpdate::SetTo(state)),
            light.claim == self.claim,
    {
        let mut light = self;
        light.state_update = Some(LightStateUpdate::SetTo(state));
        light
    }

    /// Asks the light to move to the given state. Whatever was asked before
    /// and has not reached the animation is forgotten.
    pub fn set_state(&mut self, state: Anim)
        ensures
            final(self).state_update == Some(LightStateUpdate::SetTo(state)),
            final(self).claim == old(self).claim,
    {
        self.state_update = Some(LightStateUpdate::SetTo(state));
    }

    /// Asks the light to start the given state from its beginning. Whatever
    /// was asked before and has not reached the animation is forgotten.
    pub fn reset_state(&mut self, state: Anim)
        ensures
            final(self).state_update == Some(LightStateUpdate::ResetTo(state)),
            final(self).claim == old(self).claim,
    {
        self.state_update = Some(LightStateUpdate::ResetTo(state));
    }

    /// Takes the claim made for the light when it is added, and tells in
    /// which state its animation starts: the one asked for, or none, which
    /// stands for the animation's own first state.
    pub fn on_add_light_man(&mut self, claim: LightClaim) -> (start_state: Option<Anim>)
        ensures
            final(self).claim == claim,
            final(self).state_update == old(self).state_update,
            start_state == match old(self).state_update {
                Some(update) => Some(update.state()),
                None => None,
            },
    {
        self.claim = claim;
        match &self.state_update {
            Some(inner) => Some(*inner.get_state()),
            None => None,
        }
    }

    /// Releases what the light holds when it is removed: the channel goes
    /// back to the pool, and the camera and the mesh of the claim are named
    /// for despawning, in that order, as far as they exist.
    pub fn on_remove_light_man(&self, allocer: &mut LightAllocer) -> (despawn: (
        Option<Entity>,
        Option<Entity>,
    ))
        ensures
            final(allocer)@ == free_step(old(allocer)@, self.claim.rl_usize),
            despawn == (self.claim.camera_eid, self.claim.agg_mesh_eid),
    {
        self.claim.free(allocer)
    }

    /// Decides what this frame does with the light. While the animation is
    /// there, a pending update is handed on and is then no longer pending.
    /// Once the animation is gone the light goes too, and keeps what it
    /// held until then.
    pub fn drive_light_anims(&mut self, has_anim: bool) -> (action: LightDrive<Anim>)
        ensures
            action == drive_spec(old(self).state_update, has_anim),
            final(self).claim == old(self).claim,
            final(self).state_update == if has_anim {
                None
            } else {
                old(self).state_update
            },
    {
        if has_anim {
            match self.state_update.take() {
                Some(LightStateUpdate::SetTo(state)) => LightDrive::SetState(state),
                Some(LightStateUpdate::ResetTo(state)) => LightDrive::ResetState(state),
                None => LightDrive::Idle,
            }
        } else {
            // If the underlying anim is removed, we take that to mean the light goes as well
            LightDrive::RemoveLight
        }
    }
}

} // verus!
