//! The inputs that a render graph hands to a node when it runs it.

use crate::entity::Entity;
use crate::render_resource::{BufferId, SamplerId, TextureViewId};
use vstd::prelude::*;

verus! {

/// The kind of value that a slot carries.
#[derive(Clone, Copy, Debug, PartialEq, Eq, Structural)]
pub enum SlotType {
    Buffer,
    TextureView,
    Sampler,
    Entity,
}

/// A value passed between nodes.
#[derive(Clone, Copy, Debug, PartialEq, Eq, Structural)]
pub enum SlotValue {
    Buffer(BufferId),
    TextureView(TextureViewId),
    Sampler(SamplerId),
    Entity(Entity),
}

/// The declaration of a slot: its name and the kind of value it carries.
#[derive(Clone, Debug, PartialEq, Eq)]
pub struct SlotInfo {
    pub name: String,
    pub slot_type: SlotType,
}

/// An input slot that the graph has connected, with the value it received.
#[derive(Clone, Debug, PartialEq, Eq)]
pub struct SlotInput {
    pub name: String,
    pub value: SlotValue,
}

/// Why a node could not run.
#[derive(Clone, Copy, Debug, PartialEq, Eq, Structural)]
pub enum NodeRunError {
    /// An input that the node needs was not connected, or carries a value of
    /// another kind: the graph is wired wrongly.
    MissingGraphInput,
}

/// The entity that the first slot of the given name carries, if there is such
/// a slot and it carries an entity.
pub open spec fn input_entity(inputs: Seq<SlotInput>, name: Seq<char>) -> Option<Entity>
    decreases inputs.len(),
{
    if inputs.len() == 0 {
        None
    } else if inputs[0].name@ == name {
        match inputs[0].value {
            SlotValue::Entity(entity) => Some(entity),
            _ => None,
        }
    } else {
        input_entity(inputs.subrange(1, inputs.len() as int), name)
    }
}

/// What a node sees of the graph while it runs: the input slots that were
/// connected.
#[derive(Clone, Debug, PartialEq, Eq)]
pub struct RenderGraphContext {
    pub inputs: Vec<SlotInput>,
}

impl RenderGraphContext {
    /// The entity that the named input carries, as a specification.
    pub open spec fn spec_input_entity(&self, name: Seq<char>) -> Option<Entity> {
        input_entity(self.inputs@, name)
    }

    /// The entity that the named input carries.
    ///
    /// Fails exactly when no input of that name was connected or the first
    /// input of that name carries something other than an entity.
    pub fn get_input_entity(&self, name: &str) -> (result: Result<Entity, NodeRunError>)
        ensures
            match self.spec_input_entity(name@) {
                Some(entity) => result == Ok::<Entity, NodeRunError>(entity),
                None => result == Err::<Entity, NodeRunError>(NodeRunError::MissingGraphInput),
            },
    {
        let wanted = name.to_string();
        let n = self.inputs.len();
        let mut i: usize = 0;
        proof {
            assert(self.inputs@.subrange(0, n as int) =~= self.inputs@);
        }
        while i < n
            invariant
                n == self.inputs@.len(),
                i <= n,
                wanted@ == name@,
                input_entity(self.inputs@, name@) == input_entity(
                    self.inputs@.subrange(i as int, n as int),
                    name@,
                ),
            decreases n - i,
        {
            let ghost rest = self.inputs@.subrange(i as int, n as int);
            proof {
                assert(rest[0] == self.inputs@[i as int]);
                assert(rest.subrange(1, rest.len() as int) =~= self.inputs@.subrange(
                    i + 1,
                    n as int,
                ));
            }
            if self.inputs[i].name == wanted {
                return match self.inputs[i].value {
                    SlotValue::Entity(entity) => Ok(entity),
                    _ => Err(NodeRunError::MissingGraphInput),
                };
            }
            i = i + 1;
        }
        Err(NodeRunError::MissingGraphInput)
    }
}

} // verus!
