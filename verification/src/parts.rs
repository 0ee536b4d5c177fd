//! The entities that make up one controller.

use vstd::prelude::*;
use bevy::ecs::entity::Entity;

verus! {

/// List of entities that are a part of this controller.
#[derive(Clone, Debug)]
pub struct Parts {
    pub parts: Vec<Entity>,
}

impl Default for Parts {
    fn default() -> (parts: Self)
        ensures
            parts.parts@ == Seq::<Entity>::empty(),
    {
        Parts { parts: Vec::new() }
    }
}

impl Parts {
    /// Every entity of the controller: its parts in their order, then the
    /// controller itself.
    pub fn parts(&self, controller: Entity) -> (all: Vec<Entity>)
        ensures
            all@ == self.parts@.push(controller),
    {
        let mut all: Vec<Entity> = Vec::new();
        let mut i: usize = 0;
        while i < self.parts.len()
            invariant
                i <= self.parts.len(),
                all@ == self.parts@.subrange(0, i as int),
            decreases self.parts.len() - i,
        {
            all.push(self.parts[i]);
            i += 1;
        }
        assert(self.parts@.subrange(0, i as int) == self.parts@);
        all.push(controller);
        all
    }
}

} // verus!
