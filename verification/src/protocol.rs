//! The graph wire protocol: the edit commands a control worker sends to the
//! compute worker, and their application to the processor.
//!
//! Commands are applied between blocks, never during one, so the topology a
//! block observes is a snapshot as of that block's start.

use vstd::prelude::*;

use crate::bus::Bus;
use crate::module::{ModuleInstanceId, ModuleKindId, ModuleSource};
use crate::port::{PortInputReference, PortOutputReference};
use crate::processor::{
    Error, ProcEntry, Process, Processor, connect_ok, connect_post, connect_refs_found,
    disconnect_ok, disconnect_post, find_entry, input_ref_found, pass_post,
};

verus! {

/// Requests a new instance of the kind carrying `module`, held under the
/// instance identifier `instance`.
#[derive(Clone, Copy, Debug, PartialEq, Eq, Structural)]
pub struct ProtocolAdd {
    pub instance: ModuleInstanceId,
    pub module: ModuleKindId,
}

/// Requests removal of the instance carrying `instance`.
#[derive(Clone, Copy, Debug, PartialEq, Eq, Structural)]
pub struct ProtocolRemove {
    pub instance: ModuleInstanceId,
}

/// Requests a connection from an output port to an input port.
#[derive(Clone, Copy, Debug, PartialEq, Eq, Structural)]
pub struct ProtocolConnect {
    pub input_instance: ModuleInstanceId,
    pub input_port: usize,
    pub output_instance: ModuleInstanceId,
    pub output_port: usize,
}

/// Requests disconnection of an input port, and of the output it references.
#[derive(Clone, Copy, Debug, PartialEq, Eq, Structural)]
pub struct ProtocolDisconnect {
    pub input_instance: ModuleInstanceId,
    pub input_port: usize,
}

/// One edit command of the control-to-compute wire protocol.
#[derive(Clone, Copy, Debug, PartialEq, Eq, Structural)]
pub enum Protocol {
    Add(ProtocolAdd),
    Remove(ProtocolRemove),
    Connect(ProtocolConnect),
    Disconnect(ProtocolDisconnect),
}

/// The state after an applied add: the instance carrying `instance` stands
/// at the end of the order (or replaced in place, where the identifier was
/// already held) with freshly disconnected port collections, and every
/// other entry stands as it stood.
pub open spec fn add_post<M>(
    pre: Seq<ProcEntry<M>>,
    post: Seq<ProcEntry<M>>,
    instance: ModuleInstanceId,
) -> bool {
    let j = find_entry(pre, instance);
    &&& (forall|p: int|
        0 <= p < post[find_entry(post, instance)].inputs@.len() ==> (#[trigger] post[find_entry(
            post,
            instance,
        )].inputs@[p]) is Disconnected)
    &&& (forall|p: int|
        0 <= p < post[find_entry(post, instance)].outputs@.len() ==> (#[trigger] post[find_entry(
            post,
            instance,
        )].outputs@[p]) is Disconnected)
    &&& if j == -1 {
        &&& post.len() == pre.len() + 1
        &&& (forall|k: int| 0 <= k < pre.len() ==> post[k] == pre[k])
        &&& post[pre.len() as int].id == instance
    } else {
        &&& post.len() == pre.len()
        &&& (forall|k: int| 0 <= k < pre.len() && k != j ==> post[k] == pre[k])
        &&& post[j].id == instance
    }
}

/// What applying one command does to the entries: the matching edit's
/// effect where its conditions hold, nothing otherwise. An add of an
/// unknown kind, a connect against ports that do not resolve or are not
/// free, and a disconnect of a port that is not live all leave the graph
/// as it stood.
pub open spec fn apply_post<M: Process + ModuleSource>(
    pre: Seq<ProcEntry<M>>,
    post: Seq<ProcEntry<M>>,
    command: Protocol,
) -> bool {
    match command {
        Protocol::Add(add) => if M::known_kind(add.module) {
            add_post(pre, post, add.instance)
        } else {
            post == pre
        },
        Protocol::Remove(rm) => {
            let j = find_entry(pre, rm.instance);
            if j == -1 {
                post == pre
            } else {
                post == pre.remove(j)
            }
        },
        Protocol::Connect(c) => {
            let oref = (PortOutputReference { instance: c.output_instance, port: c.output_port });
            let iref = (PortInputReference { instance: c.input_instance, port: c.input_port });
            if connect_ok(pre, oref, iref) {
                connect_post(pre, post, oref, iref)
            } else {
                post == pre
            }
        },
        Protocol::Disconnect(d) => {
            let iref = (PortInputReference { instance: d.input_instance, port: d.input_port });
            if disconnect_ok(pre, iref) {
                disconnect_post(pre, post, iref)
            } else {
                post == pre
            }
        },
    }
}

/// Whether applying the command takes effect: an add of a known kind, any
/// remove (an absent identifier fails silently), and a connect or
/// disconnect whose conditions hold.
pub open spec fn apply_ok<M: Process + ModuleSource>(
    pre: Seq<ProcEntry<M>>,
    command: Protocol,
) -> bool {
    match command {
        Protocol::Add(add) => M::known_kind(add.module),
        Protocol::Remove(_) => true,
        Protocol::Connect(c) => connect_ok(
            pre,
            (PortOutputReference { instance: c.output_instance, port: c.output_port }),
            (PortInputReference { instance: c.input_instance, port: c.input_port }),
        ),
        Protocol::Disconnect(d) => disconnect_ok(
            pre,
            (PortInputReference { instance: d.input_instance, port: d.input_port }),
        ),
    }
}

impl Protocol {
    /// Applies one edit command to the processor. An add of an unknown
    /// kind, a connect against ports that do not resolve or are not free,
    /// and a disconnect of a port that is not connected leave the graph as
    /// it stood, and the rejection is surfaced to the caller: these are
    /// programmer errors, never swallowed.
    pub fn apply<M, C>(self, context: &C, processor: &mut Processor<M>) -> (r: Result<
        (),
        Error,
    >) where M: Process + ModuleSource<Context = C>
        requires
            old(processor).wf(),
        ensures
            final(processor).wf(),
            final(processor).token_spec() == old(processor).token_spec(),
            apply_post(old(processor)@, final(processor)@, self),
            r is Ok <==> apply_ok(old(processor)@, self),
            match self {
                Protocol::Add(add) => !M::known_kind(add.module) ==> r == Err::<(), Error>(
                    Error::NotFound,
                ),
                Protocol::Remove(_) => true,
                Protocol::Connect(c) => r == Err::<(), Error>(Error::NotFound)
                    <==> !connect_refs_found(
                    old(processor)@,
                    (PortOutputReference { instance: c.output_instance, port: c.output_port }),
                    (PortInputReference { instance: c.input_instance, port: c.input_port }),
                ),
                Protocol::Disconnect(d) => r == Err::<(), Error>(Error::NotFound)
                    <==> !input_ref_found(
                    old(processor)@,
                    (PortInputReference { instance: d.input_instance, port: d.input_port }),
                ),
            },
    {
        match self {
            Protocol::Add(add) => {
                match M::get(add.module, context) {
                    Some((module, inputs, outputs)) => {
                        let ghost pre = processor@;
                        processor.add(add.instance, module, inputs, outputs);
                        proof {
                            crate::processor::lemma_find_entry_from(pre, add.instance, 0);
                            crate::processor::lemma_find_entry_from(
                                processor@,
                                add.instance,
                                0,
                            );
                            let j = find_entry(pre, add.instance);
                            let j2 = find_entry(processor@, add.instance);
                            if j == -1 {
                                assert(processor@[pre.len() as int].id == add.instance);
                                if j2 < pre.len() as int {
                                    assert(pre[j2].id == add.instance);
                                    assert(false);
                                }
                            } else {
                                assert(processor@[j].id == add.instance);
                                if j2 != j {
                                    if j2 < j {
                                        assert(pre[j2].id == add.instance);
                                        assert(false);
                                    }
                                }
                            }
                        }
                        Ok(())
                    },
                    None => Err(Error::NotFound),
                }
            },
            Protocol::Remove(rm) => {
                processor.remove(rm.instance);
                Ok(())
            },
            Protocol::Connect(c) => {
                let oref = PortOutputReference { instance: c.output_instance, port: c.output_port };
                let iref = PortInputReference { instance: c.input_instance, port: c.input_port };
                processor.connect(&oref, &iref)
            },
            Protocol::Disconnect(d) => {
                let iref = PortInputReference { instance: d.input_instance, port: d.input_port };
                processor.disconnect(&iref)
            },
        }
    }
}

/// One compute-phase block, as the compute worker runs it: at most one
/// pending edit command leaves the ring and is applied — so the topology a
/// block observes is a snapshot as of that block's start — and then the
/// whole pass runs at the iteration's parity.
pub fn compute_block<M, C>(
    processor: &mut Processor<M>,
    bus: &mut Bus,
    context: &C,
    iteration: u64,
) -> (r: Result<(), Error>) where M: Process + ModuleSource<Context = C>
    requires
        old(processor).wf(),
    ensures
        final(processor).wf(),
        final(bus)@ == if old(bus)@.len() > 0 {
            old(bus)@.drop_first()
        } else {
            old(bus)@
        },
        old(bus)@.len() == 0 ==> r is Ok && pass_post(
            old(processor)@,
            final(processor)@,
            iteration as int % 2,
        ),
        old(bus)@.len() > 0 ==> (r is Ok <==> apply_ok(old(processor)@, old(bus)@[0])),
        old(bus)@.len() > 0 ==> exists|mid: Seq<ProcEntry<M>>|
            #[trigger] apply_post(old(processor)@, mid, old(bus)@[0]) && pass_post(
                mid,
                final(processor)@,
                iteration as int % 2,
            ),
{
    match bus.receive() {
        Some(command) => {
            let applied = command.apply(context, processor);
            let ghost mid = processor@;
            processor.process(iteration);
            proof {
                assert(apply_post(old(processor)@, mid, old(bus)@[0]) && pass_post(
                    mid,
                    final(processor)@,
                    iteration as int % 2,
                ));
            }
            applied
        },
        None => {
            processor.process(iteration);
            Ok(())
        },
    }
}

} // verus!
