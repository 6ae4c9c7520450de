//! The processor: owner of the module instances, manager of the connection
//! topology, and driver of per-block iteration.
//!
//! Instances are held in insertion order, and insertion order is execution
//! order: that is the only ordering guarantee the engine makes. A consumer
//! inserted before its producer simply reads the producer's previous block,
//! so every hop costs at most one block of latency, independent of insertion
//! order.

use vstd::prelude::*;

use crate::BUFFER_FRAMES;
use crate::block::{Block, Sample, zero_block};
use crate::module::ModuleInstanceId;
use crate::port::{
    Port, PortInput, PortInputReference, PortInputs, PortOutput, PortOutputReference, PortOutputs,
    output_cell_half,
};

verus! {

// -------------------------------------------------------------------------
// Process arguments

/// The parity token: `iteration % 2`. It selects the half of every output
/// buffer pair that is written this block; readers take the opposite half.
#[derive(Clone, Copy, Debug, PartialEq, Eq, Structural)]
pub struct ProcessToken(pub usize);

/// Arguments handed to every module's `process` call. Sample rate and block
/// size are compile-time constants, so the parity token is all a block needs.
#[derive(Clone, Copy, Debug, PartialEq, Eq, Structural)]
pub struct ProcessArgs {
    pub token: ProcessToken,
}

impl Default for ProcessArgs {
    fn default() -> (r: Self)
        ensures
            r.token.0 == 0,
    {
        ProcessArgs { token: ProcessToken(0) }
    }
}

// -------------------------------------------------------------------------
// Input frames

/// The blocks a module reads this iteration, one slot per input port:
/// the previous-half block of the connected upstream output, or
/// disconnected. Resolved by the processor before the module runs.
pub struct InputBlocks {
    blocks: Vec<Port<Block>>,
}

impl View for InputBlocks {
    type V = Seq<Port<Block>>;

    closed spec fn view(&self) -> Seq<Port<Block>> {
        self.blocks@
    }
}

/// The mathematical content of an input frame: per port, the samples read,
/// or nothing where the port is disconnected.
pub open spec fn frame_view(inputs: InputBlocks) -> Seq<Option<Seq<Sample>>> {
    Seq::new(
        inputs@.len(),
        |p: int|
            match inputs@[p] {
                Port::Connected(b) => Some(b@),
                Port::Disconnected => None,
            },
    )
}

impl InputBlocks {
    /// Every connected slot holds a well-formed block.
    pub open spec fn wf(&self) -> bool {
        forall|p: int|
            0 <= p < self@.len() ==> ((#[trigger] self@[p]) matches Port::Connected(b) ==> b.wf())
    }

    /// How many input ports the frame covers.
    pub fn len(&self) -> (r: usize)
        ensures
            r == self@.len(),
    {
        self.blocks.len()
    }

    /// The block available at the given input port: `None` for a position
    /// out of range, otherwise the resolved port state.
    pub fn input_block(&self, port: usize) -> (r: Option<&Port<Block>>)
        ensures
            match r {
                Some(b) => port < self@.len() && *b == self@[port as int],
                None => port >= self@.len(),
            },
    {
        self.blocks.get(port)
    }
}

// -------------------------------------------------------------------------
// The module behavior contract

/// What one connected output cell may look like after a module ran: the
/// reader half (at `1 - token`) is untouched, the writer half (at `token`)
/// holds the module's write, or its old contents where the module wrote
/// nothing. A disconnected cell is untouched entirely.
pub open spec fn cell_step_ok(
    pre_cell: PortOutput,
    post_cell: PortOutput,
    write: Option<Seq<Sample>>,
    token: int,
) -> bool {
    match pre_cell {
        Port::Disconnected => post_cell == pre_cell,
        Port::Connected(_) => {
            &&& post_cell is Connected
            &&& output_cell_half(post_cell, 1 - token) == output_cell_half(pre_cell, 1 - token)
            &&& output_cell_half(post_cell, token) == (match write {
                Some(b) => b,
                None => output_cell_half(pre_cell, token),
            })
        },
    }
}

/// The contract every module honors: one `process` call per block, whose
/// effect on the module's state and on its output ports is the mathematical
/// step function the implementing kind declares over its state model.
pub trait Process: Sized {
    /// The mathematical model of the module's mutable state.
    type StateModel;

    /// The model of this module's current state.
    spec fn model(self) -> Self::StateModel;

    /// The state model after one block, as a function of the prior model
    /// and the input frame alone.
    spec fn step_model(m: Self::StateModel, inputs: Seq<Option<Seq<Sample>>>) -> Self::StateModel;

    /// The block the module writes to output `port` this iteration, or
    /// `None` where it leaves the port's current half as it stands.
    spec fn step_write(
        m: Self::StateModel,
        inputs: Seq<Option<Seq<Sample>>>,
        port: int,
    ) -> Option<Seq<Sample>>;

    /// Consumes the input frame and produces this block's outputs. Writers
    /// touch only the half of each buffer pair selected by the token.
    fn process(&mut self, inputs: &InputBlocks, outputs: &mut PortOutputs, args: &ProcessArgs)
        requires
            args.token.0 < 2,
            old(outputs).wf(),
            inputs.wf(),
        ensures
            final(outputs).wf(),
            final(outputs)@.len() == old(outputs)@.len(),
            final(self).model() == Self::step_model(old(self).model(), frame_view(*inputs)),
            forall|p: int|
                0 <= p < old(outputs)@.len() ==> #[trigger] cell_step_ok(
                    old(outputs)@[p],
                    final(outputs)@[p],
                    Self::step_write(old(self).model(), frame_view(*inputs), p),
                    args.token.0 as int,
                ),
    ;
}

// -------------------------------------------------------------------------
// Entries

/// One live instance as the processor holds it: its identifier, its port
/// collections, and its module state.
pub struct ProcEntry<M> {
    pub id: ModuleInstanceId,
    pub inputs: PortInputs,
    pub outputs: PortOutputs,
    pub module: M,
}

/// Whether any port of the thing is connected.
pub trait GetConnected {
    /// Whether any of the thing's ports is connected.
    fn connected(&self) -> bool;
}

impl<M> GetConnected for ProcEntry<M> {
    fn connected(&self) -> (r: bool)
        ensures
            r <==> ((exists|p: int|
                0 <= p < self.inputs@.len() && (#[trigger] self.inputs@[p]) is Connected)
                || (exists|p: int|
                0 <= p < self.outputs@.len() && (#[trigger] self.outputs@[p]) is Connected)),
    {
        let mut p: usize = 0;
        while p < self.inputs.len()
            invariant
                p <= self.inputs@.len(),
                forall|q: int| 0 <= q < p ==> (#[trigger] self.inputs@[q]) is Disconnected,
            decreases self.inputs@.len() - p,
        {
            match self.inputs.port(p) {
                Some(cell) => match cell {
                    Port::Connected(_) => {
                        return true;
                    },
                    Port::Disconnected => {},
                },
                None => {},
            }
            p = p + 1;
        }
        let mut p: usize = 0;
        while p < self.outputs.len()
            invariant
                p <= self.outputs@.len(),
                forall|q: int| 0 <= q < p ==> (#[trigger] self.outputs@[q]) is Disconnected,
            decreases self.outputs@.len() - p,
        {
            match self.outputs.port(p) {
                Some(cell) => match cell {
                    Port::Connected(_) => {
                        return true;
                    },
                    Port::Disconnected => {},
                },
                None => {},
            }
            p = p + 1;
        }
        false
    }
}

/// Positional access to a thing's input cells.
pub trait GetInput {
    /// The input cell at the given position, if the position is in range.
    fn input(&self, input: usize) -> Option<&PortInput>;
}

impl<M> GetInput for ProcEntry<M> {
    fn input(&self, input: usize) -> (r: Option<&PortInput>)
        ensures
            match r {
                Some(cell) => input < self.inputs@.len() && *cell == self.inputs@[input as int],
                None => input >= self.inputs@.len(),
            },
    {
        self.inputs.port(input)
    }
}

/// No two entries share an instance identifier.
pub open spec fn ids_unique<M>(entries: Seq<ProcEntry<M>>) -> bool {
    forall|i: int, j: int|
        0 <= i < j < entries.len() ==> (#[trigger] entries[i]).id != (#[trigger] entries[j]).id
}

/// Index of the first entry carrying `id`, from `start` on; `-1` if absent.
pub open spec fn find_entry_from<M>(
    entries: Seq<ProcEntry<M>>,
    id: ModuleInstanceId,
    start: int,
) -> int
    decreases entries.len() - start,
    when 0 <= start <= entries.len()
{
    if start >= entries.len() {
        -1
    } else if entries[start].id == id {
        start
    } else {
        find_entry_from(entries, id, start + 1)
    }
}

/// Index of the entry carrying `id`, or `-1` if no entry does.
pub open spec fn find_entry<M>(entries: Seq<ProcEntry<M>>, id: ModuleInstanceId) -> int {
    find_entry_from(entries, id, 0)
}

/// What `find_entry_from` finds: an index in range carrying `id`, before
/// which no index from `start` on carries it, or `-1` when none does.
pub proof fn lemma_find_entry_from<M>(entries: Seq<ProcEntry<M>>, id: ModuleInstanceId, start: int)
    requires
        0 <= start <= entries.len(),
    ensures
        ({
            let r = find_entry_from(entries, id, start);
            &&& (r == -1 ==> forall|i: int|
                start <= i < entries.len() ==> (#[trigger] entries[i]).id != id)
            &&& (r != -1 ==> start <= r < entries.len() && entries[r].id == id && forall|i: int|
                start <= i < r ==> (#[trigger] entries[i]).id != id)
        }),
    decreases entries.len() - start,
{
    if start >= entries.len() {
    } else if entries[start].id == id {
    } else {
        lemma_find_entry_from(entries, id, start + 1);
    }
}

/// `find_entry` looks only at the identifiers, so two entry sequences with
/// the same identifiers agree on it.
pub proof fn lemma_find_entry_same_ids<M>(
    a: Seq<ProcEntry<M>>,
    b: Seq<ProcEntry<M>>,
    id: ModuleInstanceId,
    start: int,
)
    requires
        a.len() == b.len(),
        forall|k: int| 0 <= k < a.len() ==> (#[trigger] b[k]).id == a[k].id,
        0 <= start <= a.len(),
    ensures
        find_entry_from(a, id, start) == find_entry_from(b, id, start),
    decreases a.len() - start,
{
    if start >= a.len() {
    } else if a[start].id == id {
    } else {
        lemma_find_entry_same_ids(a, b, id, start + 1);
    }
}

// -------------------------------------------------------------------------
// Errors

/// Faults of a topology edit. Both are programmer errors: a reference to an
/// instance or port that does not exist, or a connect or disconnect against
/// a port in the wrong state.
#[derive(Clone, Copy, Debug, PartialEq, Eq, Structural)]
pub enum Error {
    NotFound,
    InvalidState,
}

// -------------------------------------------------------------------------
// Edit contracts

/// Both references of a connect resolve: the instances exist and the port
/// positions are within their arities.
pub open spec fn connect_refs_found<M>(
    entries: Seq<ProcEntry<M>>,
    oref: PortOutputReference,
    iref: PortInputReference,
) -> bool {
    let oj = find_entry(entries, oref.instance);
    let ij = find_entry(entries, iref.instance);
    &&& oj >= 0
    &&& ij >= 0
    &&& (oref.port as int) < entries[oj].outputs@.len()
    &&& (iref.port as int) < entries[ij].inputs@.len()
}

/// A connect succeeds exactly when both references resolve and both ports
/// are disconnected.
pub open spec fn connect_ok<M>(
    entries: Seq<ProcEntry<M>>,
    oref: PortOutputReference,
    iref: PortInputReference,
) -> bool {
    let oj = find_entry(entries, oref.instance);
    let ij = find_entry(entries, iref.instance);
    &&& connect_refs_found(entries, oref, iref)
    &&& entries[oj].outputs@[oref.port as int] is Disconnected
    &&& entries[ij].inputs@[iref.port as int] is Disconnected
}

/// The state after a successful connect: the output port owns a freshly
/// zero-initialized buffer pair, the input port holds the reference to it,
/// and every other cell of every entry stands as it stood.
pub open spec fn connect_post<M>(
    pre: Seq<ProcEntry<M>>,
    post: Seq<ProcEntry<M>>,
    oref: PortOutputReference,
    iref: PortInputReference,
) -> bool {
    let oj = find_entry(pre, oref.instance);
    let ij = find_entry(pre, iref.instance);
    &&& post.len() == pre.len()
    &&& (forall|k: int|
        0 <= k < pre.len() ==> {
            &&& (#[trigger] post[k]).id == pre[k].id
            &&& post[k].module == pre[k].module
            &&& post[k].inputs@.len() == pre[k].inputs@.len()
            &&& post[k].outputs@.len() == pre[k].outputs@.len()
            &&& (forall|p: int|
                0 <= p < pre[k].inputs@.len() && !(k == ij && p == iref.port as int)
                    ==> #[trigger] post[k].inputs@[p] == pre[k].inputs@[p])
            &&& (forall|p: int|
                0 <= p < pre[k].outputs@.len() && !(k == oj && p == oref.port as int)
                    ==> #[trigger] post[k].outputs@[p] == pre[k].outputs@[p])
        })
    &&& post[ij].inputs@[iref.port as int] == Port::<PortOutputReference>::Connected(oref)
    &&& post[oj].outputs@[oref.port as int] is Connected
    &&& output_cell_half(post[oj].outputs@[oref.port as int], 0) == zero_block()
    &&& output_cell_half(post[oj].outputs@[oref.port as int], 1) == zero_block()
}

/// An input reference resolves to a held port: the instance exists and
/// the port position is within its arity.
pub open spec fn input_ref_found<M>(
    entries: Seq<ProcEntry<M>>,
    iref: PortInputReference,
) -> bool {
    let ij = find_entry(entries, iref.instance);
    &&& ij >= 0
    &&& (iref.port as int) < entries[ij].inputs@.len()
}

/// A disconnect succeeds exactly when the input reference resolves, the
/// input port is connected, and the output port it references is a live
/// connected port.
pub open spec fn disconnect_ok<M>(entries: Seq<ProcEntry<M>>, iref: PortInputReference) -> bool {
    let ij = find_entry(entries, iref.instance);
    &&& input_ref_found(entries, iref)
    &&& entries[ij].inputs@[iref.port as int] matches Port::Connected(src) && {
        let oj = find_entry(entries, src.instance);
        &&& oj >= 0
        &&& (src.port as int) < entries[oj].outputs@.len()
        &&& entries[oj].outputs@[src.port as int] is Connected
    }
}

/// The state after a successful disconnect: the input port and the output
/// port it referenced are both disconnected, the output's buffer pair is
/// gone with it, and every other cell of every entry stands as it stood.
pub open spec fn disconnect_post<M>(
    pre: Seq<ProcEntry<M>>,
    post: Seq<ProcEntry<M>>,
    iref: PortInputReference,
) -> bool {
    let ij = find_entry(pre, iref.instance);
    let src = pre[ij].inputs@[iref.port as int]->Connected_0;
    let oj = find_entry(pre, src.instance);
    &&& post.len() == pre.len()
    &&& (forall|k: int|
        0 <= k < pre.len() ==> {
            &&& (#[trigger] post[k]).id == pre[k].id
            &&& post[k].module == pre[k].module
            &&& post[k].inputs@.len() == pre[k].inputs@.len()
            &&& post[k].outputs@.len() == pre[k].outputs@.len()
            &&& (forall|p: int|
                0 <= p < pre[k].inputs@.len() && !(k == ij && p == iref.port as int)
                    ==> #[trigger] post[k].inputs@[p] == pre[k].inputs@[p])
            &&& (forall|p: int|
                0 <= p < pre[k].outputs@.len() && !(k == oj && p == src.port as int)
                    ==> #[trigger] post[k].outputs@[p] == pre[k].outputs@[p])
        })
    &&& post[ij].inputs@[iref.port as int] is Disconnected
    &&& post[oj].outputs@[src.port as int] is Disconnected
}

// -------------------------------------------------------------------------
// Processor

/// The processor: the ordered collection of live instances, and the
/// iteration state handed to them.
pub struct Processor<M> {
    entries: Vec<ProcEntry<M>>,
    args: ProcessArgs,
}

impl<M> View for Processor<M> {
    type V = Seq<ProcEntry<M>>;

    closed spec fn view(&self) -> Seq<ProcEntry<M>> {
        self.entries@
    }
}

impl<M> Processor<M> {
    /// Identifiers are unique and every entry's output cells own well-formed
    /// buffer pairs.
    pub open spec fn wf(&self) -> bool {
        &&& ids_unique(self@)
        &&& forall|k: int| 0 <= k < self@.len() ==> (#[trigger] self@[k]).outputs.wf()
    }

    /// The parity token most recently driven through the instances.
    pub closed spec fn token_spec(&self) -> int {
        self.args.token.0 as int
    }

    /// An empty processor.
    pub fn new() -> (r: Self)
        ensures
            r@.len() == 0,
            r.wf(),
            r.token_spec() == 0,
    {
        Processor { entries: Vec::new(), args: ProcessArgs { token: ProcessToken(0) } }
    }

    /// How many instances the processor holds.
    pub fn len(&self) -> (r: usize)
        ensures
            r == self@.len(),
    {
        self.entries.len()
    }

    /// The position of the instance carrying `id`, if it is held.
    fn find_index(&self, id: ModuleInstanceId) -> (r: Option<usize>)
        ensures
            match r {
                Some(j) => find_entry(self@, id) == j as int,
                None => find_entry(self@, id) == -1,
            },
    {
        let ghost entries = self@;
        let mut j: usize = 0;
        while j < self.entries.len()
            invariant
                entries == self@,
                j <= self@.len(),
                forall|i: int| 0 <= i < j ==> (#[trigger] self@[i]).id != id,
            decreases self@.len() - j,
        {
            if self.entries[j].id == id {
                proof {
                    lemma_find_entry_from(entries, id, 0);
                    if find_entry(entries, id) == -1 {
                        assert(false);
                    }
                    if find_entry(entries, id) < j as int {
                        assert(false);
                    }
                    if find_entry(entries, id) > j as int {
                        assert(entries[j as int].id != id);
                        assert(false);
                    }
                }
                return Some(j);
            }
            j = j + 1;
        }
        proof {
            lemma_find_entry_from(entries, id, 0);
            if find_entry(entries, id) != -1 {
                assert(entries[find_entry(entries, id)].id == id);
                assert(false);
            }
        }
        None
    }

    /// Read access to the module of the instance carrying `id`.
    pub fn module(&self, id: ModuleInstanceId) -> (r: Option<&M>)
        ensures
            match r {
                Some(m) => find_entry(self@, id) >= 0 && *m == self@[find_entry(self@, id)].module,
                None => find_entry(self@, id) == -1,
            },
    {
        match self.find_index(id) {
            Some(j) => {
                proof {
                    lemma_find_entry_from(self@, id, 0);
                }
                Some(&self.entries[j].module)
            },
            None => None,
        }
    }

    /// Write access to the module of the instance carrying `id`, which
    /// must be held. Only the module state itself can change through the
    /// borrow: identifier, port collections, and the order all stand.
    pub fn module_mut(&mut self, id: ModuleInstanceId) -> (r: &mut M)
        requires
            old(self).wf(),
            find_entry(old(self)@, id) >= 0,
        ensures
            *r == old(self)@[find_entry(old(self)@, id)].module,
            final(self)@ == old(self)@.update(
                find_entry(old(self)@, id),
                (ProcEntry {
                    id: old(self)@[find_entry(old(self)@, id)].id,
                    inputs: old(self)@[find_entry(old(self)@, id)].inputs,
                    outputs: old(self)@[find_entry(old(self)@, id)].outputs,
                    module: *final(r),
                }),
            ),
            final(self).wf(),
            final(self).token_spec() == old(self).token_spec(),
    {
        let j = self.find_index(id).unwrap();
        proof {
            lemma_find_entry_from(self@, id, 0);
        }
        let entry = &mut self.entries[j];
        &mut entry.module
    }

    /// Inserts an instance at the end of the order. Adding under an
    /// identifier already held replaces that instance in place: the edit is
    /// idempotent on the identifier, and the order of the rest is kept.
    pub fn add(&mut self, instance: ModuleInstanceId, module: M, inputs: PortInputs,
        outputs: PortOutputs)
        requires
            old(self).wf(),
            outputs.wf(),
        ensures
            final(self).wf(),
            final(self).token_spec() == old(self).token_spec(),
            ({
                let j = find_entry(old(self)@, instance);
                if j == -1 {
                    final(self)@ == old(self)@.push(
                        (ProcEntry { id: instance, inputs, outputs, module }),
                    )
                } else {
                    final(self)@ == old(self)@.update(
                        j,
                        (ProcEntry { id: instance, inputs, outputs, module }),
                    )
                }
            }),
    {
        let ghost pre = self@;
        let entry = ProcEntry { id: instance, inputs, outputs, module };
        match self.find_index(instance) {
            Some(j) => {
                proof {
                    lemma_find_entry_from(pre, instance, 0);
                }
                self.entries.set(j, entry);
            },
            None => {
                proof {
                    lemma_find_entry_from(pre, instance, 0);
                }
                self.entries.push(entry);
            },
        }
    }

    /// Removes the instance carrying `id`, keeping the order of the rest.
    /// Removing an identifier that is not held changes nothing.
    pub fn remove(&mut self, instance: ModuleInstanceId)
        requires
            old(self).wf(),
        ensures
            final(self).wf(),
            final(self).token_spec() == old(self).token_spec(),
            ({
                let j = find_entry(old(self)@, instance);
                if j == -1 {
                    final(self)@ == old(self)@
                } else {
                    final(self)@ == old(self)@.remove(j)
                }
            }),
    {
        let ghost pre = self@;
        match self.find_index(instance) {
            Some(j) => {
                proof {
                    lemma_find_entry_from(pre, instance, 0);
                }
                self.entries.remove(j);
            },
            None => {},
        }
    }

    /// Reads what the given input port observes at the given parity token:
    /// the previous-half block of the live connected output it references,
    /// or the disconnected state. `None` names an input reference that does
    /// not resolve to a held port.
    pub fn read_input(&self, input_ref: &PortInputReference, token: usize) -> (r: Option<
        Port<Block>,
    >)
        requires
            self.wf(),
            token < 2,
        ensures
            r is None <==> !input_ref_found(self@, *input_ref),
            r matches Some(inner) ==> {
                let cell = self@[find_entry(self@, input_ref.instance)].inputs@[
                    input_ref.port as int
                ];
                match inner {
                    Port::Connected(b) => resolve_input(self@, cell, token as int) == Some(b@)
                        && b.wf(),
                    Port::Disconnected => resolve_input(self@, cell, token as int) is None,
                }
            },
    {
        let ij = match self.find_index(input_ref.instance) {
            Some(ij) => ij,
            None => {
                return None;
            },
        };
        proof {
            lemma_find_entry_from(self@, input_ref.instance, 0);
        }
        let cell = match self.entries[ij].inputs.port(input_ref.port) {
            Some(cell) => cell,
            None => {
                return None;
            },
        };
        match cell {
            Port::Disconnected => Some(Port::Disconnected),
            Port::Connected(src) => {
                let src = *src;
                match self.find_index(src.instance) {
                    None => Some(Port::Disconnected),
                    Some(oj) => {
                        proof {
                            lemma_find_entry_from(self@, src.instance, 0);
                        }
                        match self.entries[oj].outputs.read_block(src.port, 1 - token) {
                            None => Some(Port::Disconnected),
                            Some(inner) => match inner {
                                Port::Disconnected => Some(Port::Disconnected),
                                Port::Connected(b) => Some(Port::Connected(b)),
                            },
                        }
                    },
                }
            },
        }
    }

    /// Reads a copy of one half of the given output port's buffer pair, as
    /// the io side does when it mixes published blocks. `None` names an
    /// output reference that does not resolve to a held port.
    pub fn read_output(&self, output_ref: &PortOutputReference, half: usize) -> (r: Option<
        Port<Block>,
    >)
        requires
            self.wf(),
            half < 2,
        ensures
            ({
                let oj = find_entry(self@, output_ref.instance);
                &&& r is None <==> (oj == -1 || output_ref.port as int >= self@[oj].outputs@.len())
                &&& r matches Some(inner) ==> match inner {
                    Port::Connected(b) => self@[oj].outputs@[output_ref.port as int] is Connected
                        && b@ == output_cell_half(
                        self@[oj].outputs@[output_ref.port as int],
                        half as int,
                    ) && b.wf(),
                    Port::Disconnected => self@[oj].outputs@[
                        output_ref.port as int
                    ] is Disconnected,
                }
            }),
    {
        let oj = match self.find_index(output_ref.instance) {
            Some(oj) => oj,
            None => {
                return None;
            },
        };
        proof {
            lemma_find_entry_from(self@, output_ref.instance, 0);
        }
        self.entries[oj].outputs.read_block(output_ref.port, half)
    }

    /// Connects a disconnected output port to a disconnected input port.
    /// On success the output owns a zero-initialized buffer pair and the
    /// input references it; `NotFound` names a reference that does not
    /// resolve, `InvalidState` a port already connected.
    pub fn connect(&mut self, output_ref: &PortOutputReference, input_ref: &PortInputReference)
        -> (r: Result<(), Error>)
        requires
            old(self).wf(),
        ensures
            final(self).wf(),
            final(self).token_spec() == old(self).token_spec(),
            r is Ok <==> connect_ok(old(self)@, *output_ref, *input_ref),
            r == Err::<(), Error>(Error::NotFound) <==> !connect_refs_found(
                old(self)@,
                *output_ref,
                *input_ref,
            ),
            r is Ok ==> connect_post(old(self)@, final(self)@, *output_ref, *input_ref),
            r is Err ==> final(self)@ == old(self)@,
    {
        let ghost pre = self@;
        let oj_opt = self.find_index(output_ref.instance);
        let ij_opt = self.find_index(input_ref.instance);
        let (oj, ij) = match (oj_opt, ij_opt) {
            (Some(oj), Some(ij)) => (oj, ij),
            _ => {
                return Err(Error::NotFound);
            },
        };
        proof {
            lemma_find_entry_from(pre, output_ref.instance, 0);
            lemma_find_entry_from(pre, input_ref.instance, 0);
        }
        if output_ref.port >= self.entries[oj].outputs.len() {
            return Err(Error::NotFound);
        }
        if input_ref.port >= self.entries[ij].inputs.len() {
            return Err(Error::NotFound);
        }
        let out_connected = match self.entries[oj].outputs.port(output_ref.port) {
            Some(cell) => match cell {
                Port::Connected(_) => true,
                Port::Disconnected => false,
            },
            None => false,
        };
        let in_connected = match self.entries[ij].inputs.port(input_ref.port) {
            Some(cell) => match cell {
                Port::Connected(_) => true,
                Port::Disconnected => false,
            },
            None => false,
        };
        if out_connected || in_connected {
            return Err(Error::InvalidState);
        }
        // Allocate the striped buffer pair, zeroed: the value every reader
        // sees until the producer publishes its first block.
        let mut bufs: Vec<Block> = Vec::new();
        bufs.push(Block::zero());
        bufs.push(Block::zero());
        let entry_o = &mut self.entries[oj];
        entry_o.outputs.set(output_ref.port, Port::Connected(bufs));
        let entry_i = &mut self.entries[ij];
        entry_i.inputs.set(
            input_ref.port,
            Port::Connected(
                PortOutputReference { instance: output_ref.instance, port: output_ref.port },
            ),
        );
        Ok(())
    }

    /// Disconnects a connected input port, and with it the output port it
    /// references: both return to the disconnected state and the buffer
    /// pair is released. Disconnection is input-initiated; `NotFound` names
    /// an input reference that does not resolve, `InvalidState` an input
    /// port that is not connected to a live connected output.
    pub fn disconnect(&mut self, input_ref: &PortInputReference) -> (r: Result<(), Error>)
        requires
            old(self).wf(),
        ensures
            final(self).wf(),
            final(self).token_spec() == old(self).token_spec(),
            r is Ok <==> disconnect_ok(old(self)@, *input_ref),
            r == Err::<(), Error>(Error::NotFound) <==> !input_ref_found(
                old(self)@,
                *input_ref,
            ),
            r is Ok ==> disconnect_post(old(self)@, final(self)@, *input_ref),
            r is Err ==> final(self)@ == old(self)@,
    {
        let ghost pre = self@;
        let ij = match self.find_index(input_ref.instance) {
            Some(ij) => ij,
            None => {
                return Err(Error::NotFound);
            },
        };
        proof {
            lemma_find_entry_from(pre, input_ref.instance, 0);
        }
        if input_ref.port >= self.entries[ij].inputs.len() {
            return Err(Error::NotFound);
        }
        let src = match self.entries[ij].inputs.port(input_ref.port) {
            Some(cell) => match cell {
                Port::Connected(src) => *src,
                Port::Disconnected => {
                    return Err(Error::InvalidState);
                },
            },
            None => {
                return Err(Error::InvalidState);
            },
        };
        let oj = match self.find_index(src.instance) {
            Some(oj) => oj,
            None => {
                return Err(Error::InvalidState);
            },
        };
        proof {
            lemma_find_entry_from(pre, src.instance, 0);
        }
        if src.port >= self.entries[oj].outputs.len() {
            return Err(Error::InvalidState);
        }
        let out_connected = match self.entries[oj].outputs.port(src.port) {
            Some(cell) => match cell {
                Port::Connected(_) => true,
                Port::Disconnected => false,
            },
            None => false,
        };
        if !out_connected {
            return Err(Error::InvalidState);
        }
        let entry_o = &mut self.entries[oj];
        entry_o.outputs.set(src.port, Port::Disconnected);
        let entry_i = &mut self.entries[ij];
        entry_i.inputs.set(input_ref.port, Port::Disconnected);
        Ok(())
    }
}

// -------------------------------------------------------------------------
// The per-block pass

/// What an input cell reads during one iteration: nothing while the cell is
/// disconnected or its reference does not resolve to a live connected
/// output; otherwise the half of the referenced buffer pair at `1 - token`,
/// the block published in the previous iteration.
pub open spec fn resolve_input<M>(
    entries: Seq<ProcEntry<M>>,
    cell: PortInput,
    token: int,
) -> Option<Seq<Sample>> {
    match cell {
        Port::Disconnected => None,
        Port::Connected(src) => {
            let j = find_entry(entries, src.instance);
            if j >= 0 && (src.port as int) < entries[j].outputs@.len() && entries[j].outputs@[
                src.port as int
            ] is Connected {
                Some(output_cell_half(entries[j].outputs@[src.port as int], 1 - token))
            } else {
                None
            }
        },
    }
}

/// The whole input frame entry `i` reads during one iteration.
pub open spec fn frame_of<M>(entries: Seq<ProcEntry<M>>, i: int, token: int) -> Seq<
    Option<Seq<Sample>>,
>
    recommends
        0 <= i < entries.len(),
{
    Seq::new(
        entries[i].inputs@.len(),
        |p: int| resolve_input(entries, entries[i].inputs@[p], token),
    )
}

/// Two entry sequences that agree on everything a reader can observe during
/// an iteration: identifiers, input cells, output arity and connectivity,
/// and the reader half of every connected output.
pub open spec fn same_read_state<M>(
    a: Seq<ProcEntry<M>>,
    b: Seq<ProcEntry<M>>,
    token: int,
) -> bool {
    &&& a.len() == b.len()
    &&& forall|k: int|
        0 <= k < a.len() ==> {
            &&& (#[trigger] b[k]).id == a[k].id
            &&& b[k].inputs@ == a[k].inputs@
            &&& b[k].outputs@.len() == a[k].outputs@.len()
            &&& (forall|p: int|
                0 <= p < a[k].outputs@.len() ==> (((#[trigger] b[k].outputs@[p]) is Connected
                    <==> a[k].outputs@[p] is Connected) && (a[k].outputs@[p] is Connected
                    ==> output_cell_half(b[k].outputs@[p], 1 - token) == output_cell_half(
                    a[k].outputs@[p],
                    1 - token,
                ))))
        }
}

/// Reads resolve identically against two sequences in the same read state.
pub proof fn lemma_resolve_same<M>(
    a: Seq<ProcEntry<M>>,
    b: Seq<ProcEntry<M>>,
    cell: PortInput,
    token: int,
)
    requires
        same_read_state(a, b, token),
    ensures
        resolve_input(a, cell, token) == resolve_input(b, cell, token),
{
    match cell {
        Port::Disconnected => {},
        Port::Connected(src) => {
            lemma_find_entry_same_ids(a, b, src.instance, 0);
            lemma_find_entry_from(a, src.instance, 0);
        },
    }
}

/// Whole frames resolve identically against two sequences in the same read
/// state.
pub proof fn lemma_frame_same<M>(a: Seq<ProcEntry<M>>, b: Seq<ProcEntry<M>>, i: int, token: int)
    requires
        same_read_state(a, b, token),
        0 <= i < a.len(),
    ensures
        frame_of(a, i, token) == frame_of(b, i, token),
{
    assert forall|p: int| 0 <= p < a[i].inputs@.len() implies frame_of(a, i, token)[p] == frame_of(
        b,
        i,
        token,
    )[p] by {
        lemma_resolve_same(a, b, a[i].inputs@[p], token);
    }
    assert(frame_of(a, i, token) =~= frame_of(b, i, token));
}

/// How one entry stands after its module ran against `frame`: identifier
/// and input cells untouched, module state stepped, and every output cell
/// stepped under the striped write discipline.
pub open spec fn pass_entry_ok<M: Process>(
    pre: ProcEntry<M>,
    post: ProcEntry<M>,
    frame: Seq<Option<Seq<Sample>>>,
    token: int,
) -> bool {
    &&& post.id == pre.id
    &&& post.inputs@ == pre.inputs@
    &&& post.module.model() == M::step_model(pre.module.model(), frame)
    &&& post.outputs@.len() == pre.outputs@.len()
    &&& forall|p: int|
        0 <= p < pre.outputs@.len() ==> #[trigger] cell_step_ok(
            pre.outputs@[p],
            post.outputs@[p],
            M::step_write(pre.module.model(), frame, p),
            token,
        )
}

/// How one whole pass at parity `token` carries the entries from `pre` to
/// `post`: nothing a reader observes mid-pass changes, and each entry is
/// exactly one step of its module against the frame the topology gave it,
/// resolved as of the block's start.
pub open spec fn pass_post<M: Process>(
    pre: Seq<ProcEntry<M>>,
    post: Seq<ProcEntry<M>>,
    token: int,
) -> bool {
    &&& post.len() == pre.len()
    &&& same_read_state(pre, post, token)
    &&& forall|i: int|
        0 <= i < pre.len() ==> #[trigger] pass_entry_ok(
            pre[i],
            post[i],
            frame_of(pre, i, token),
            token,
        )
}

impl<M: Process> Processor<M> {
    /// Resolves the input frame entry `i` will read this iteration, copying
    /// the previous-half block of each live connected upstream output.
    fn resolve_frame(&self, i: usize, token: usize) -> (r: InputBlocks)
        requires
            self.wf(),
            i < self@.len(),
            token < 2,
        ensures
            r.wf(),
            frame_view(r) == frame_of(self@, i as int, token as int),
    {
        let n = self.entries[i].inputs.len();
        let mut blocks: Vec<Port<Block>> = Vec::new();
        let mut p: usize = 0;
        while p < n
            invariant
                self.wf(),
                i < self@.len(),
                token < 2,
                n == self@[i as int].inputs@.len(),
                p <= n,
                blocks@.len() == p,
                forall|q: int|
                    0 <= q < p ==> match #[trigger] blocks@[q] {
                        Port::Connected(b) => b.wf() && Some(b@) == resolve_input(
                            self@,
                            self@[i as int].inputs@[q],
                            token as int,
                        ),
                        Port::Disconnected => resolve_input(
                            self@,
                            self@[i as int].inputs@[q],
                            token as int,
                        ) is None,
                    },
            decreases n - p,
        {
            let cell = match self.entries[i].inputs.port(p) {
                Some(cell) => cell,
                None => {
                    proof {
                        assert(false);
                    }
                    return InputBlocks { blocks };
                },
            };
            match cell {
                Port::Disconnected => {
                    blocks.push(Port::Disconnected);
                },
                Port::Connected(src) => {
                    let src = *src;
                    match self.find_index(src.instance) {
                        None => {
                            blocks.push(Port::Disconnected);
                        },
                        Some(j) => {
                            proof {
                                lemma_find_entry_from(self@, src.instance, 0);
                            }
                            match self.entries[j].outputs.read_block(src.port, 1 - token) {
                                None => {
                                    blocks.push(Port::Disconnected);
                                },
                                Some(inner) => match inner {
                                    Port::Disconnected => {
                                        blocks.push(Port::Disconnected);
                                    },
                                    Port::Connected(b) => {
                                        blocks.push(Port::Connected(b));
                                    },
                                },
                            }
                        },
                    }
                },
            }
            p = p + 1;
        }
        let r = InputBlocks { blocks };
        proof {
            assert forall|q: int| 0 <= q < n implies frame_view(r)[q] == frame_of(
                self@,
                i as int,
                token as int,
            )[q] by {
                assert(0 <= q < r@.len());
            }
            assert(frame_view(r) =~= frame_of(self@, i as int, token as int));
        }
        r
    }

    /// Runs one block: sets the parity token to `iteration % 2` and calls
    /// `process` on every instance, in insertion order. Every module reads
    /// input frames resolved against the reader halves as they stood when
    /// the block began, and writes only the writer halves, so the pass of
    /// each entry is exactly one step of its module against the frame the
    /// topology gave it.
    pub fn process(&mut self, iteration: u64)
        requires
            old(self).wf(),
        ensures
            final(self).wf(),
            final(self).token_spec() == iteration as int % 2,
            pass_post(old(self)@, final(self)@, iteration as int % 2),
    {
        let token: usize = (iteration % 2) as usize;
        self.args = ProcessArgs { token: ProcessToken(token) };
        let ghost pre = self@;
        let ghost tok = token as int;
        let mut i: usize = 0;
        while i < self.entries.len()
            invariant
                self.wf(),
                self@.len() == pre.len(),
                self.args.token.0 == token,
                token < 2,
                tok == token as int,
                i <= pre.len(),
                same_read_state(pre, self@, tok),
                forall|k: int|
                    0 <= k < i ==> #[trigger] pass_entry_ok(
                        pre[k],
                        self@[k],
                        frame_of(pre, k, tok),
                        tok,
                    ),
                forall|k: int| i <= k < pre.len() ==> self@[k] == pre[k],
            decreases pre.len() - i,
        {
            let ghost before = self@;
            let frame = self.resolve_frame(i, token);
            proof {
                lemma_frame_same(pre, before, i as int, tok);
            }
            let args = ProcessArgs { token: ProcessToken(token) };
            let entry = &mut self.entries[i];
            let m = &mut entry.module;
            let o = &mut entry.outputs;
            m.process(&frame, o, &args);
            proof {
                assert(self@ =~= before.update(i as int, self@[i as int]));
                assert(pass_entry_ok(pre[i as int], self@[i as int], frame_of(pre, i as int, tok), tok));
                assert forall|k: int| 0 <= k < pre.len() implies {
                    &&& (#[trigger] self@[k]).id == pre[k].id
                    &&& self@[k].inputs@ == pre[k].inputs@
                    &&& self@[k].outputs@.len() == pre[k].outputs@.len()
                } by {
                    if k != i as int {
                        assert(self@[k] == before[k]);
                    }
                }
                assert forall|k: int, p: int|
                    0 <= k < pre.len() && 0 <= p < pre[k].outputs@.len() implies (((
                #[trigger] self@[k].outputs@[p]) is Connected <==> pre[k].outputs@[
                    p
                ] is Connected) && (pre[k].outputs@[p] is Connected ==> output_cell_half(
                    self@[k].outputs@[p],
                    1 - tok,
                ) == output_cell_half(pre[k].outputs@[p], 1 - tok))) by {
                    if k == i as int {
                        assert(cell_step_ok(
                            before[k].outputs@[p],
                            self@[k].outputs@[p],
                            M::step_write(before[k].module.model(), frame_view(frame), p),
                            tok,
                        ));
                    } else {
                        assert(self@[k] == before[k]);
                    }
                }
                assert(ids_unique(self@)) by {
                    assert(forall|k: int|
                        0 <= k < self@.len() ==> (#[trigger] self@[k]).id == pre[k].id);
                }
            }
            i = i + 1;
        }
    }
}

// -------------------------------------------------------------------------
// Laws of the striped protocol

/// The buffer half written during an iteration: selected by the parity
/// token.
pub open spec fn writer_half(iteration: int) -> int {
    iteration % 2
}

/// The buffer half read during an iteration: the opposite one.
pub open spec fn reader_half(iteration: int) -> int {
    1 - iteration % 2
}

/// Parity law: in every iteration the token is `iteration % 2`, a valid
/// half index; writer and reader never take the same half in the same
/// iteration; and the half written in one iteration is exactly the half
/// read in the next.
pub proof fn lemma_token_parity(iteration: int)
    requires
        iteration >= 0,
    ensures
        writer_half(iteration) == iteration % 2,
        0 <= writer_half(iteration) < 2,
        reader_half(iteration) == 1 - writer_half(iteration),
        writer_half(iteration) != reader_half(iteration),
        reader_half(iteration + 1) == writer_half(iteration),
{
    assert(iteration % 2 == (iteration + 1 - 1) % 2);
    assert((iteration + 1) % 2 == 1 - iteration % 2) by (nonlinear_arith)
        requires
            iteration >= 0,
    ;
}

/// One-block latency law: take one pass of iteration `k - 1`, carrying the
/// state `pre` to the state `post`. A connection whose output cell was live
/// in `pre` is then read, in iteration `k`, as exactly the block its module
/// wrote during iteration `k - 1` — or the block already standing in the
/// writer half, where the module left the port alone.
pub proof fn lemma_connection_latency<M: Process>(
    pre: Seq<ProcEntry<M>>,
    post: Seq<ProcEntry<M>>,
    src: PortOutputReference,
    k: int,
)
    requires
        k >= 1,
        pass_post(pre, post, (k - 1) % 2),
        find_entry(pre, src.instance) >= 0,
        (src.port as int) < pre[find_entry(pre, src.instance)].outputs@.len(),
        pre[find_entry(pre, src.instance)].outputs@[src.port as int] is Connected,
    ensures
        ({
            let oj = find_entry(pre, src.instance);
            let written = M::step_write(
                pre[oj].module.model(),
                frame_of(pre, oj, (k - 1) % 2),
                src.port as int,
            );
            resolve_input(post, Port::Connected(src), k % 2) == Some(
                match written {
                    Some(b) => b,
                    None => output_cell_half(pre[oj].outputs@[src.port as int], (k - 1) % 2),
                },
            )
        }),
{
    let oj = find_entry(pre, src.instance);
    lemma_find_entry_same_ids(pre, post, src.instance, 0);
    lemma_find_entry_from(pre, src.instance, 0);
    assert(pass_entry_ok(pre[oj], post[oj], frame_of(pre, oj, (k - 1) % 2), (k - 1) % 2));
    assert(cell_step_ok(
        pre[oj].outputs@[src.port as int],
        post[oj].outputs@[src.port as int],
        M::step_write(pre[oj].module.model(), frame_of(pre, oj, (k - 1) % 2), src.port as int),
        (k - 1) % 2,
    ));
    assert((k - 1) % 2 == 1 - k % 2) by (nonlinear_arith)
        requires
            k >= 1,
    ;
}

/// Insertion order buys no early read: with module `a` and module `b` both
/// held by the processor, `b`'s input `p` wired to an output of `a`, the
/// frame `b` consumes in iteration `k` holds what `a` published in
/// iteration `k - 1` — never `a`'s write of iteration `k` — whether `a`
/// stands before or after `b` in the order.
pub proof fn lemma_order_independent_latency<M: Process>(
    pre: Seq<ProcEntry<M>>,
    post: Seq<ProcEntry<M>>,
    a: int,
    b: int,
    p: int,
    src: PortOutputReference,
    k: int,
)
    requires
        k >= 1,
        ids_unique(pre),
        pass_post(pre, post, (k - 1) % 2),
        0 <= a < pre.len(),
        0 <= b < pre.len(),
        0 <= p < pre[b].inputs@.len(),
        pre[b].inputs@[p] == Port::<PortOutputReference>::Connected(src),
        src.instance == pre[a].id,
        (src.port as int) < pre[a].outputs@.len(),
        pre[a].outputs@[src.port as int] is Connected,
    ensures
        ({
            let written = M::step_write(
                pre[a].module.model(),
                frame_of(pre, a, (k - 1) % 2),
                src.port as int,
            );
            frame_of(post, b, k % 2)[p] == Some(
                match written {
                    Some(blk) => blk,
                    None => output_cell_half(pre[a].outputs@[src.port as int], (k - 1) % 2),
                },
            )
        }),
{
    lemma_find_entry_from(pre, src.instance, 0);
    let oj = find_entry(pre, src.instance);
    if oj != a {
        assert(pre[oj].id == pre[a].id);
        assert(false);
    }
    lemma_connection_latency(pre, post, src, k);
    assert(post[b].inputs@ == pre[b].inputs@);
    assert(frame_of(post, b, k % 2)[p] == resolve_input(post, pre[b].inputs@[p], k % 2));
}

/// First-read law: immediately after a connect, and before the producer has
/// run, a read through the new connection yields the all-zeros block — in
/// either half, so in particular in iteration `0`.
pub proof fn lemma_first_read_zero<M>(
    pre: Seq<ProcEntry<M>>,
    post: Seq<ProcEntry<M>>,
    oref: PortOutputReference,
    iref: PortInputReference,
    token: int,
)
    requires
        connect_ok(pre, oref, iref),
        connect_post(pre, post, oref, iref),
        0 <= token < 2,
    ensures
        resolve_input(post, Port::Connected(oref), token) == Some(zero_block()),
{
    lemma_find_entry_same_ids(pre, post, oref.instance, 0);
    lemma_find_entry_from(pre, oref.instance, 0);
}

/// Round-trip law: a connect followed by the matching disconnect returns
/// both ports to the disconnected state and leaves the whole topology equal
/// to what it was before the connect: same instances in the same order,
/// same module states, and every cell of every port collection as it stood.
pub proof fn lemma_connect_disconnect_round_trip<M>(
    s0: Seq<ProcEntry<M>>,
    s1: Seq<ProcEntry<M>>,
    s2: Seq<ProcEntry<M>>,
    oref: PortOutputReference,
    iref: PortInputReference,
)
    requires
        ids_unique(s0),
        connect_ok(s0, oref, iref),
        connect_post(s0, s1, oref, iref),
        disconnect_post(s1, s2, iref),
    ensures
        disconnect_ok(s1, iref),
        s2.len() == s0.len(),
        forall|k: int|
            0 <= k < s0.len() ==> {
                &&& (#[trigger] s2[k]).id == s0[k].id
                &&& s2[k].module == s0[k].module
                &&& s2[k].inputs@ == s0[k].inputs@
                &&& s2[k].outputs@ == s0[k].outputs@
            },
{
    let oj = find_entry(s0, oref.instance);
    let ij = find_entry(s0, iref.instance);
    lemma_find_entry_from(s0, oref.instance, 0);
    lemma_find_entry_from(s0, iref.instance, 0);
    lemma_find_entry_same_ids(s0, s1, oref.instance, 0);
    lemma_find_entry_same_ids(s0, s1, iref.instance, 0);
    assert(s1[ij].inputs@[iref.port as int] == Port::<PortOutputReference>::Connected(oref));
    assert(disconnect_ok(s1, iref));
    assert forall|k: int| 0 <= k < s0.len() implies {
        &&& (#[trigger] s2[k]).id == s0[k].id
        &&& s2[k].module == s0[k].module
        &&& s2[k].inputs@ == s0[k].inputs@
        &&& s2[k].outputs@ == s0[k].outputs@
    } by {
        assert(s2[k].inputs@ =~= s0[k].inputs@) by {
            assert forall|p: int| 0 <= p < s0[k].inputs@.len() implies s2[k].inputs@[p] == s0[
                k
            ].inputs@[p] by {
                if k == ij && p == iref.port as int {
                    assert(s0[k].inputs@[p] is Disconnected);
                    assert(s2[k].inputs@[p] is Disconnected);
                } else {
                    assert(s1[k].inputs@[p] == s0[k].inputs@[p]);
                    assert(s2[k].inputs@[p] == s1[k].inputs@[p]);
                }
            }
        }
        assert(s2[k].outputs@ =~= s0[k].outputs@) by {
            assert forall|p: int| 0 <= p < s0[k].outputs@.len() implies s2[k].outputs@[p] == s0[
                k
            ].outputs@[p] by {
                if k == oj && p == oref.port as int {
                    assert(s0[k].outputs@[p] is Disconnected);
                    assert(s2[k].outputs@[p] is Disconnected);
                } else {
                    assert(s1[k].outputs@[p] == s0[k].outputs@[p]);
                    assert(s2[k].outputs@[p] == s1[k].outputs@[p]);
                }
            }
        }
    }
}

} // verus!
