//! The port and connection fabric: the data plane through which one module's
//! output block reaches another module's input.
//!
//! An output port owns a pair of sample blocks, written and read in a striped
//! pattern: during iteration `k` the writer fills the half selected by the
//! parity token `k % 2`, while every reader takes the opposite half, which
//! holds the block published one iteration earlier. An input port owns no
//! data: when connected it holds a reference to its source output port.

use vstd::prelude::*;

use crate::block::{Block, Sample};
use crate::module::ModuleDefinition;

verus! {

/// State of anything that may be connected or disconnected, holding data only
/// while connected. The default state of a port is disconnected.
pub enum Port<T> {
    Connected(T),
    Disconnected,
}

impl<T> Port<T> {
    /// Whether this port is in the connected state.
    pub open spec fn is_connected(&self) -> bool {
        self is Connected
    }
}

impl<T> Default for Port<T> {
    fn default() -> (r: Self)
        ensures
            r is Disconnected,
    {
        Port::Disconnected
    }
}

// -------------------------------------------------------------------------
// References

/// Names one output port: the instance that owns it, and the port position.
#[derive(Clone, Copy, Debug, PartialEq, Eq, Structural)]
pub struct PortOutputReference {
    pub instance: u128,
    pub port: usize,
}

/// Names one input port: the instance that owns it, and the port position.
#[derive(Clone, Copy, Debug, PartialEq, Eq, Structural)]
pub struct PortInputReference {
    pub instance: u128,
    pub port: usize,
}

// -------------------------------------------------------------------------
// Cells

/// An output cell: disconnected, or connected and owning its two-block
/// striped buffer.
pub type PortOutput = Port<Vec<Block>>;

/// An input cell: disconnected, or connected and holding a reference to the
/// output cell it reads from.
pub type PortInput = Port<PortOutputReference>;

/// A connected output cell owns exactly two well-formed blocks.
pub open spec fn output_cell_wf(cell: PortOutput) -> bool {
    cell matches Port::Connected(bufs) ==> {
        &&& bufs@.len() == 2
        &&& bufs@[0].wf()
        &&& bufs@[1].wf()
    }
}

/// The contents of one half of a connected output cell's buffer pair.
pub open spec fn output_cell_half(cell: PortOutput, half: int) -> Seq<Sample>
    recommends
        cell is Connected,
        0 <= half < 2,
{
    cell->Connected_0@[half]@
}

// -------------------------------------------------------------------------
// Input collection

/// The ordered list of input cells owned by one module instance.
pub struct PortInputs {
    cells: Vec<PortInput>,
}

impl View for PortInputs {
    type V = Seq<PortInput>;

    closed spec fn view(&self) -> Seq<PortInput> {
        self.cells@
    }
}

impl PortInputs {
    /// A collection of disconnected input cells, one per input descriptor of
    /// the definition.
    pub fn from_definition(definition: &ModuleDefinition) -> (r: Self)
        ensures
            r@.len() == definition.inputs@.len(),
            forall|p: int| 0 <= p < r@.len() ==> r@[p] is Disconnected,
    {
        Self::with_len(definition.inputs.len())
    }

    /// A collection of `len` disconnected input cells.
    pub fn with_len(len: usize) -> (r: Self)
        ensures
            r@.len() == len,
            forall|p: int| 0 <= p < r@.len() ==> r@[p] is Disconnected,
    {
        let mut cells: Vec<PortInput> = Vec::new();
        while cells.len() < len
            invariant
                cells@.len() <= len,
                forall|p: int| 0 <= p < cells@.len() ==> cells@[p] is Disconnected,
            decreases len - cells@.len(),
        {
            cells.push(Port::Disconnected);
        }
        PortInputs { cells }
    }

    /// How many input ports the collection holds.
    pub fn len(&self) -> (r: usize)
        ensures
            r == self@.len(),
    {
        self.cells.len()
    }

    /// The input cell at the given position, if the position is in range.
    pub fn port(&self, port: usize) -> (r: Option<&PortInput>)
        ensures
            match r {
                Some(cell) => port < self@.len() && *cell == self@[port as int],
                None => port >= self@.len(),
            },
    {
        self.cells.get(port)
    }

    /// Replaces the input cell at the given position.
    pub(crate) fn set(&mut self, port: usize, cell: PortInput)
        requires
            port < old(self)@.len(),
        ensures
            final(self)@ == old(self)@.update(port as int, cell),
    {
        self.cells.set(port, cell);
    }
}

// -------------------------------------------------------------------------
// Output collection

/// The ordered list of output cells owned by one module instance.
pub struct PortOutputs {
    cells: Vec<PortOutput>,
}

impl View for PortOutputs {
    type V = Seq<PortOutput>;

    closed spec fn view(&self) -> Seq<PortOutput> {
        self.cells@
    }
}

impl PortOutputs {
    /// Every connected cell owns a well-formed buffer pair.
    pub open spec fn wf(&self) -> bool {
        forall|p: int| 0 <= p < self@.len() ==> output_cell_wf(#[trigger] self@[p])
    }

    /// A collection of disconnected output cells, one per output descriptor
    /// of the definition.
    pub fn from_definition(definition: &ModuleDefinition) -> (r: Self)
        ensures
            r@.len() == definition.outputs@.len(),
            forall|p: int| 0 <= p < r@.len() ==> r@[p] is Disconnected,
            r.wf(),
    {
        Self::with_len(definition.outputs.len())
    }

    /// A collection of `len` disconnected output cells.
    pub fn with_len(len: usize) -> (r: Self)
        ensures
            r@.len() == len,
            forall|p: int| 0 <= p < r@.len() ==> r@[p] is Disconnected,
            r.wf(),
    {
        let mut cells: Vec<PortOutput> = Vec::new();
        while cells.len() < len
            invariant
                cells@.len() <= len,
                forall|p: int| 0 <= p < cells@.len() ==> cells@[p] is Disconnected,
            decreases len - cells@.len(),
        {
            cells.push(Port::Disconnected);
        }
        PortOutputs { cells }
    }

    /// How many output ports the collection holds.
    pub fn len(&self) -> (r: usize)
        ensures
            r == self@.len(),
    {
        self.cells.len()
    }

    /// The output cell at the given position, if the position is in range.
    pub fn port(&self, port: usize) -> (r: Option<&PortOutput>)
        ensures
            match r {
                Some(cell) => port < self@.len() && *cell == self@[port as int],
                None => port >= self@.len(),
            },
    {
        self.cells.get(port)
    }

    /// Replaces the output cell at the given position.
    pub(crate) fn set(&mut self, port: usize, cell: PortOutput)
        requires
            port < old(self)@.len(),
        ensures
            final(self)@ == old(self)@.update(port as int, cell),
    {
        self.cells.set(port, cell);
    }

    /// Writes one block into the selected half of the port's buffer pair:
    /// the write path of the striped protocol, taking the half at the parity
    /// token.
    ///
    /// Returns `None` for a position out of range, `Some(Port::Disconnected)`
    /// for a disconnected port (nothing written), and `Some(Port::Connected)`
    /// after writing. The opposite half, and every other port, are untouched.
    pub fn write_block(&mut self, port: usize, half: usize, value: &Block) -> (r: Option<
        Port<()>,
    >)
        requires
            old(self).wf(),
            half < 2,
            value.wf(),
        ensures
            final(self).wf(),
            final(self)@.len() == old(self)@.len(),
            r is None <==> port >= old(self)@.len(),
            forall|q: int| 0 <= q < old(self)@.len() && q != port ==> final(self)@[q] == old(
                self,
            )@[q],
            port < old(self)@.len() ==> match old(self)@[port as int] {
                Port::Disconnected => r == Some(Port::<()>::Disconnected) && final(self)@[
                    port as int
                ] == old(self)@[port as int],
                Port::Connected(_) => {
                    &&& r == Some(Port::<()>::Connected(()))
                    &&& final(self)@[port as int] is Connected
                    &&& output_cell_half(final(self)@[port as int], half as int) == value@
                    &&& output_cell_half(final(self)@[port as int], 1 - half) == output_cell_half(
                        old(self)@[port as int],
                        1 - half,
                    )
                },
            },
    {
        if port >= self.cells.len() {
            return None;
        }
        let cell = &mut self.cells[port];
        match cell {
            Port::Connected(bufs) => {
                bufs.set(half, value.clone());
                Some(Port::Connected(()))
            },
            Port::Disconnected => Some(Port::Disconnected),
        }
    }

    /// Reads a copy of one half of the port's buffer pair. With the half at
    /// `1 - token` this is the read path of the striped protocol: the block
    /// published in the previous iteration.
    pub fn read_block(&self, port: usize, half: usize) -> (r: Option<Port<Block>>)
        requires
            self.wf(),
            half < 2,
        ensures
            r is None <==> port >= self@.len(),
            port < self@.len() ==> match r {
                Some(inner) => match inner {
                    Port::Disconnected => self@[port as int] is Disconnected,
                    Port::Connected(b) => {
                        &&& self@[port as int] is Connected
                        &&& b@ == output_cell_half(self@[port as int], half as int)
                        &&& b.wf()
                    },
                },
                None => false,
            },
    {
        match self.cells.get(port) {
            None => None,
            Some(cell) => match cell {
                Port::Connected(bufs) => Some(Port::Connected(bufs[half].clone())),
                Port::Disconnected => Some(Port::Disconnected),
            },
        }
    }
}

// -------------------------------------------------------------------------
// Definitions

/// Describes a single input port of a module definition.
pub struct PortInputDefinition {
    pub name: Option<String>,
    pub description: Option<String>,
}

impl PortInputDefinition {
    /// Starts building an input port description.
    pub fn builder() -> (r: PortInputDefinitionBuilder)
        ensures
            r.name is None,
            r.description is None,
    {
        PortInputDefinitionBuilder { name: None, description: None }
    }
}

/// Accumulates the optional properties of one input port description.
pub struct PortInputDefinitionBuilder {
    pub name: Option<String>,
    pub description: Option<String>,
}

impl PortInputDefinitionBuilder {
    /// Sets the port name.
    pub fn name(self, name: String) -> (r: Self)
        ensures
            r.name == Some(name),
            r.description == self.description,
    {
        PortInputDefinitionBuilder { name: Some(name), description: self.description }
    }

    /// Sets the port description.
    pub fn description(self, description: String) -> (r: Self)
        ensures
            r.name == self.name,
            r.description == Some(description),
    {
        PortInputDefinitionBuilder { name: self.name, description: Some(description) }
    }

    /// Finishes the description.
    pub fn build(self) -> (r: PortInputDefinition)
        ensures
            r.name == self.name,
            r.description == self.description,
    {
        PortInputDefinition { name: self.name, description: self.description }
    }
}

/// Describes a single output port of a module definition.
pub struct PortOutputDefinition {
    pub name: Option<String>,
    pub description: Option<String>,
}

impl PortOutputDefinition {
    /// Starts building an output port description.
    pub fn builder() -> (r: PortOutputDefinitionBuilder)
        ensures
            r.name is None,
            r.description is None,
    {
        PortOutputDefinitionBuilder { name: None, description: None }
    }
}

/// Accumulates the optional properties of one output port description.
pub struct PortOutputDefinitionBuilder {
    pub name: Option<String>,
    pub description: Option<String>,
}

impl PortOutputDefinitionBuilder {
    /// Sets the port name.
    pub fn name(self, name: String) -> (r: Self)
        ensures
            r.name == Some(name),
            r.description == self.description,
    {
        PortOutputDefinitionBuilder { name: Some(name), description: self.description }
    }

    /// Sets the port description.
    pub fn description(self, description: String) -> (r: Self)
        ensures
            r.name == self.name,
            r.description == Some(description),
    {
        PortOutputDefinitionBuilder { name: self.name, description: Some(description) }
    }

    /// Finishes the description.
    pub fn build(self) -> (r: PortOutputDefinition)
        ensures
            r.name == self.name,
            r.description == self.description,
    {
        PortOutputDefinition { name: self.name, description: self.description }
    }
}

} // verus!
