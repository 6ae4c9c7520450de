//! The module contract: the definition a module kind publishes (display
//! name, port arity, descriptive metadata), and the builder through which it
//! is assembled.

use vstd::prelude::*;

use crate::port::{PortInputDefinition, PortInputs, PortOutputDefinition, PortOutputs};

verus! {

/// Stable identifier of a module kind.
pub type ModuleKindId = u128;

/// Identifier of one live module instance, independent of its kind.
pub type ModuleInstanceId = u128;

/// Immutable description of a module kind: display name, optional
/// descriptive metadata, and the ordered port descriptors that fix the
/// instance's port arity.
pub struct ModuleDefinition {
    pub inputs: Vec<PortInputDefinition>,
    pub outputs: Vec<PortOutputDefinition>,
    pub name: String,
    pub description: Option<String>,
    pub usage: Option<String>,
}

impl ModuleDefinition {
    /// Starts building a definition.
    pub fn builder() -> (r: ModuleDefinitionBuilder)
        ensures
            r.inputs@.len() == 0,
            r.outputs@.len() == 0,
            r.name is None,
            r.description is None,
            r.usage is None,
    {
        ModuleDefinitionBuilder {
            inputs: Vec::new(),
            outputs: Vec::new(),
            name: None,
            description: None,
            usage: None,
        }
    }
}

/// Accumulates a module definition: port descriptors in declaration order,
/// and the metadata fields.
pub struct ModuleDefinitionBuilder {
    pub inputs: Vec<PortInputDefinition>,
    pub outputs: Vec<PortOutputDefinition>,
    pub name: Option<String>,
    pub description: Option<String>,
    pub usage: Option<String>,
}

impl ModuleDefinitionBuilder {
    /// Sets the display name.
    pub fn name(self, name: String) -> (r: Self)
        ensures
            r.name == Some(name),
            r.inputs@ == self.inputs@,
            r.outputs@ == self.outputs@,
            r.description == self.description,
            r.usage == self.usage,
    {
        ModuleDefinitionBuilder {
            inputs: self.inputs,
            outputs: self.outputs,
            name: Some(name),
            description: self.description,
            usage: self.usage,
        }
    }

    /// Sets the description.
    pub fn description(self, description: String) -> (r: Self)
        ensures
            r.description == Some(description),
            r.inputs@ == self.inputs@,
            r.outputs@ == self.outputs@,
            r.name == self.name,
            r.usage == self.usage,
    {
        ModuleDefinitionBuilder {
            inputs: self.inputs,
            outputs: self.outputs,
            name: self.name,
            description: Some(description),
            usage: self.usage,
        }
    }

    /// Sets the usage note.
    pub fn usage(self, usage: String) -> (r: Self)
        ensures
            r.usage == Some(usage),
            r.inputs@ == self.inputs@,
            r.outputs@ == self.outputs@,
            r.name == self.name,
            r.description == self.description,
    {
        ModuleDefinitionBuilder {
            inputs: self.inputs,
            outputs: self.outputs,
            name: self.name,
            description: self.description,
            usage: Some(usage),
        }
    }

    /// Appends one input port descriptor; ports are positional, in the order
    /// they are added.
    pub fn with_input(self, input: PortInputDefinition) -> (r: Self)
        ensures
            r.inputs@ == self.inputs@.push(input),
            r.outputs@ == self.outputs@,
            r.name == self.name,
            r.description == self.description,
            r.usage == self.usage,
    {
        let mut inputs = self.inputs;
        inputs.push(input);
        ModuleDefinitionBuilder {
            inputs,
            outputs: self.outputs,
            name: self.name,
            description: self.description,
            usage: self.usage,
        }
    }

    /// Appends one output port descriptor; ports are positional, in the
    /// order they are added.
    pub fn with_output(self, output: PortOutputDefinition) -> (r: Self)
        ensures
            r.outputs@ == self.outputs@.push(output),
            r.inputs@ == self.inputs@,
            r.name == self.name,
            r.description == self.description,
            r.usage == self.usage,
    {
        let mut outputs = self.outputs;
        outputs.push(output);
        ModuleDefinitionBuilder {
            inputs: self.inputs,
            outputs,
            name: self.name,
            description: self.description,
            usage: self.usage,
        }
    }

    /// Finishes the definition. A definition always carries a display name,
    /// so one must have been set.
    pub fn build(self) -> (r: ModuleDefinition)
        requires
            self.name is Some,
        ensures
            r.inputs@ == self.inputs@,
            r.outputs@ == self.outputs@,
            r.name == self.name->0,
            r.description == self.description,
            r.usage == self.usage,
    {
        ModuleDefinition {
            inputs: self.inputs,
            outputs: self.outputs,
            name: self.name.unwrap(),
            description: self.description,
            usage: self.usage,
        }
    }
}

/// Implemented by every module kind: returns the kind's definition, built on
/// the supplied builder.
pub trait ModuleDefine {
    /// The kind's definition.
    fn define(module: ModuleDefinitionBuilder) -> ModuleDefinition;
}

/// Implemented by a module catalog: instantiates the module kind carrying a
/// stable identifier, together with the port collections its definition
/// prescribes, both freshly disconnected.
pub trait ModuleSource: Sized {
    /// Whatever the catalog's kinds need to come to life.
    type Context;

    /// Whether the catalog knows the kind carrying `id`.
    spec fn known_kind(id: ModuleKindId) -> bool;

    /// Instantiates the kind carrying `id`, or nothing for an identifier
    /// the catalog does not know.
    fn get(id: ModuleKindId, context: &Self::Context) -> (r: Option<
        (Self, PortInputs, PortOutputs),
    >)
        ensures
            r is Some <==> Self::known_kind(id),
            r matches Some(t) ==> {
                &&& t.2.wf()
                &&& forall|p: int| 0 <= p < t.1@.len() ==> (#[trigger] t.1@[p]) is Disconnected
                &&& forall|p: int| 0 <= p < t.2@.len() ==> (#[trigger] t.2@[p]) is Disconnected
            },
    ;
}

} // verus!
