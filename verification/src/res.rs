//! The backends that an element of the scene graph can live in, and the
//! providers among them that hold no GPU or physics state.
//!
//! An element is created, updated and deleted in exactly one backend. Which
//! one is said by a value of `Backend`, not by a name that is parsed.
use vstd::prelude::*;

verus! {

/// The backends of the engine.
#[derive(Clone, Copy, Debug, PartialEq, Eq, Structural)]
pub enum Backend {
    Audio,
    Physics,
    Vision,
    Input,
}

/// The handle of a rigid body in the physics backend: a slot and the
/// generation of its occupant.
#[derive(Clone, Copy, Debug, PartialEq, Eq, Structural)]
pub struct BodyHandle {
    pub index: u32,
    pub generation: u32,
}

/// An element as its backend knows it.
#[derive(Clone, Copy, Debug, PartialEq, Eq, Structural)]
pub enum AtomElement {
    Audio,
    Physics(BodyHandle),
    Vision(u64),
    Input(u64),
}

impl AtomElement {
    /// The backend that the element lives in.
    pub open spec fn spec_backend(self) -> Backend {
        match self {
            AtomElement::Audio => Backend::Audio,
            AtomElement::Physics(_) => Backend::Physics,
            AtomElement::Vision(_) => Backend::Vision,
            AtomElement::Input(_) => Backend::Input,
        }
    }

    /// The backend that the element lives in: the one that is asked to update
    /// or delete it.
    pub fn backend(&self) -> (backend: Backend)
        ensures
            backend == self.spec_backend(),
    {
        match self {
            AtomElement::Audio => Backend::Audio,
            AtomElement::Physics(_) => Backend::Physics,
            AtomElement::Vision(_) => Backend::Vision,
            AtomElement::Input(_) => Backend::Input,
        }
    }
}

/// The input backend. Its elements have no state: an element is known by
/// the id of its node.
#[derive(Clone, Copy, Debug, PartialEq, Eq, Structural)]
pub struct InputProvider {}

impl InputProvider {
    pub fn new() -> (provider: InputProvider)
        ensures
            provider == (InputProvider {  }),
    {
        InputProvider {  }
    }

    /// Creates the element of node `vnode_id`: its handle is the node's id.
    pub fn create_element(&mut self, vnode_id: u64) -> (handle: u64)
        ensures
            handle == vnode_id,
            *final(self) == *old(self),
    {
        vnode_id
    }

    /// Updates an element: there is nothing to update.
    pub fn update_element(&mut self, id: u64)
        ensures
            *final(self) == *old(self),
    {
    }

    /// Deletes an element: there is nothing to release.
    pub fn delete_element(&mut self, id: u64)
        ensures
            *final(self) == *old(self),
    {
    }
}

/// The audio backend. It holds no state between sounds.
#[derive(Clone, Copy, Debug, PartialEq, Eq, Structural)]
pub struct AudioManager {}

impl AudioManager {
    pub fn new() -> (manager: AudioManager)
        ensures
            manager == (AudioManager {  }),
    {
        AudioManager {  }
    }
}

} // verus!
