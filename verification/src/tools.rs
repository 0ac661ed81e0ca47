//! Tools, their policies, and the toolset of an agent.

use vstd::prelude::*;

use crate::ids::{ToolCallId, ToolId};
use crate::text::str_eq;

verus! {

/// How a tool call is gated.
#[derive(Clone, Copy, Debug, PartialEq, Eq, Structural)]
pub enum PermissionMode {
    /// Run without asking.
    Allow,
    /// Ask the user first.
    Ask,
    /// Never run.
    Deny,
}

/// What a model sees of a tool. The input schema is the text of a JSON value.
#[derive(Debug)]
pub struct ToolDescriptor {
    pub id: ToolId,
    pub name: String,
    pub description: String,
    pub input_schema: String,
}

impl Clone for ToolDescriptor {
    fn clone(&self) -> (r: Self)
        ensures
            r == *self,
    {
        ToolDescriptor {
            id: self.id,
            name: self.name.clone(),
            description: self.description.clone(),
            input_schema: self.input_schema.clone(),
        }
    }
}

/// Whether and how a tool may be called.
#[derive(Clone, Copy, Debug, PartialEq, Eq, Structural)]
pub struct ToolPolicy {
    pub permission: PermissionMode,
    pub enabled: bool,
}

/// A tool as granted to an agent.
#[derive(Debug)]
pub struct ToolCapability {
    pub descriptor: ToolDescriptor,
    pub policy: ToolPolicy,
    /// Whether the agent may pass the tool on to a child.
    pub delegatable: bool,
}

impl Clone for ToolCapability {
    fn clone(&self) -> (r: Self)
        ensures
            r == *self,
    {
        ToolCapability {
            descriptor: self.descriptor.clone(),
            policy: self.policy,
            delegatable: self.delegatable,
        }
    }
}

/// One entry of a toolset.
#[derive(Debug)]
pub struct ToolEntry {
    pub id: ToolId,
    pub capability: ToolCapability,
}

impl Clone for ToolEntry {
    fn clone(&self) -> (r: Self)
        ensures
            r == *self,
    {
        ToolEntry { id: self.id, capability: self.capability.clone() }
    }
}

impl ToolEntry {
    /// Whether the entry is the tool called `name`.
    pub open spec fn named(self, name: Seq<char>) -> bool {
        self.capability.descriptor.name@ == name
    }

    /// Whether the entry is the tool called `name`, and a child may get it.
    pub open spec fn grantable(self, name: Seq<char>) -> bool {
        &&& self.named(name)
        &&& self.capability.delegatable
        &&& self.capability.policy.enabled
    }
}

/// The tools of an agent, each under its own identifier: see
/// [`AgentToolset::wf`].
#[derive(Debug)]
pub struct AgentToolset {
    pub tools: Vec<ToolEntry>,
}

impl Clone for AgentToolset {
    fn clone(&self) -> (r: Self)
        ensures
            r.tools@ == self.tools@,
    {
        let tools = self.tools.clone();
        assert(tools@ =~= self.tools@);
        AgentToolset { tools }
    }
}

impl AgentToolset {
    /// No two tools have the same identifier.
    pub open spec fn wf(self) -> bool {
        forall|i: int, j: int|
            0 <= i < j < self.tools@.len() ==> (#[trigger] self.tools@[i]).id != (
            #[trigger] self.tools@[j]).id
    }

    /// Whether there is a tool under `id`.
    pub open spec fn has_id(self, id: ToolId) -> bool {
        exists|i: int| 0 <= i < self.tools@.len() && (#[trigger] self.tools@[i]).id == id
    }

    /// A toolset without tools.
    pub fn empty() -> (r: Self)
        ensures
            r.tools@ == Seq::<ToolEntry>::empty(),
            r.wf(),
    {
        AgentToolset { tools: Vec::new() }
    }

    /// Puts a tool under its identifier, in place of the one that was there, if
    /// there was one.
    pub fn insert(&mut self, entry: ToolEntry)
        requires
            old(self).wf(),
        ensures
            final(self).wf(),
            forall|i: int|
                0 <= i < old(self).tools@.len() && (#[trigger] old(self).tools@[i]).id == entry.id
                    ==> final(self).tools@ == old(self).tools@.update(i, entry),
            !old(self).has_id(entry.id) ==> final(self).tools@ == old(self).tools@.push(entry),
    {
        let mut i: usize = 0;
        while i < self.tools.len()
            invariant
                self.tools@ == old(self).tools@,
                self.wf(),
                i <= self.tools@.len(),
                forall|j: int| 0 <= j < i ==> (#[trigger] self.tools@[j]).id != entry.id,
            decreases self.tools@.len() - i,
        {
            if self.tools[i].id == entry.id {
                assert(old(self).tools@[i as int].id == entry.id);
                self.tools.set(i, entry);
                return;
            }
            i = i + 1;
        }
        self.tools.push(entry);
    }

    /// Whether `self.tools[i]` is the first tool called `name`.
    pub open spec fn first_named(self, name: Seq<char>, i: int) -> bool {
        &&& 0 <= i < self.tools@.len()
        &&& self.tools@[i].named(name)
        &&& forall|j: int| 0 <= j < i ==> !(#[trigger] self.tools@[j]).named(name)
    }

    /// Whether no tool is called `name`.
    pub open spec fn lacks(self, name: Seq<char>) -> bool {
        forall|i: int| 0 <= i < self.tools@.len() ==> !(#[trigger] self.tools@[i]).named(name)
    }

    /// Whether `self.tools[i]` is the first tool called `name` that a child
    /// may get.
    pub open spec fn first_grantable(self, name: Seq<char>, i: int) -> bool {
        &&& 0 <= i < self.tools@.len()
        &&& self.tools@[i].grantable(name)
        &&& forall|j: int| 0 <= j < i ==> !(#[trigger] self.tools@[j]).grantable(name)
    }

    /// Whether a child may get no tool called `name`.
    pub open spec fn grants_none(self, name: Seq<char>) -> bool {
        forall|i: int| 0 <= i < self.tools@.len() ==> !(#[trigger] self.tools@[i]).grantable(name)
    }

    /// Whether an enabled tool is called `name`.
    pub open spec fn enables(self, name: Seq<char>) -> bool {
        exists|i: int|
            0 <= i < self.tools@.len() && (#[trigger] self.tools@[i]).named(name)
                && self.tools@[i].capability.policy.enabled
    }

    /// Finds the first tool called `name`.
    pub fn find_named(&self, name: &str) -> (r: Option<usize>)
        ensures
            match r {
                Some(i) => self.first_named(name@, i as int),
                None => self.lacks(name@),
            },
    {
        let mut i: usize = 0;
        while i < self.tools.len()
            invariant
                i <= self.tools@.len(),
                forall|j: int| 0 <= j < i ==> !(#[trigger] self.tools@[j]).named(name@),
            decreases self.tools@.len() - i,
        {
            if str_eq(self.tools[i].capability.descriptor.name.as_str(), name) {
                return Some(i);
            }
            i = i + 1;
        }
        None
    }

    /// Finds the first tool called `name` that a child may get.
    pub fn find_grantable(&self, name: &str) -> (r: Option<usize>)
        ensures
            match r {
                Some(i) => self.first_grantable(name@, i as int),
                None => self.grants_none(name@),
            },
    {
        let mut i: usize = 0;
        while i < self.tools.len()
            invariant
                i <= self.tools@.len(),
                forall|j: int| 0 <= j < i ==> !(#[trigger] self.tools@[j]).grantable(name@),
            decreases self.tools@.len() - i,
        {
            let capability = &self.tools[i].capability;
            if str_eq(capability.descriptor.name.as_str(), name) && capability.delegatable
                && capability.policy.enabled {
                return Some(i);
            }
            i = i + 1;
        }
        None
    }

    /// Tells whether an enabled tool is called `name`.
    pub fn has_enabled(&self, name: &str) -> (r: bool)
        ensures
            r == self.enables(name@),
    {
        let mut i: usize = 0;
        while i < self.tools.len()
            invariant
                i <= self.tools@.len(),
                forall|j: int|
                    0 <= j < i ==> !((#[trigger] self.tools@[j]).named(name@)
                        && self.tools@[j].capability.policy.enabled),
            decreases self.tools@.len() - i,
        {
            if str_eq(self.tools[i].capability.descriptor.name.as_str(), name)
                && self.tools[i].capability.policy.enabled {
                assert(self.tools@[i as int].named(name@));
                return true;
            }
            i = i + 1;
        }
        false
    }
}

/// A tool call as requested by a model. The arguments are the text of a JSON
/// value.
#[derive(Debug)]
pub struct ToolCall {
    pub id: ToolCallId,
    pub name: String,
    pub arguments: String,
}

impl Clone for ToolCall {
    fn clone(&self) -> (r: Self)
        ensures
            r == *self,
    {
        ToolCall { id: self.id, name: self.name.clone(), arguments: self.arguments.clone() }
    }
}

/// A tool call that the agent wants to run.
#[derive(Debug)]
pub struct ToolRequest {
    pub call: ToolCall,
    pub permission: PermissionMode,
}

/// Why a tool call failed.
#[derive(Clone, Copy, Debug, PartialEq, Eq, Structural)]
pub enum ToolError {
    ExecutionFailed,
    PermissionDenied,
    Timeout,
    Internal,
}

} // verus!
