//! The module catalog: the closed set of module kinds an engine run can
//! instantiate, as one tagged union so that every `process` call site stays
//! monomorphic.
//!
//! Three kinds live here: a constant source, a four-way multiple, and the
//! multi-channel audio output sink. Kinds whose signal math needs the
//! machine's floating-point unit are the application's business and join a
//! catalog of its own.

use vstd::prelude::*;

use crate::MAX_CHANNELS;
use crate::block::{Block, Sample};
use crate::module::{
    ModuleDefine, ModuleDefinition, ModuleDefinitionBuilder, ModuleKindId, ModuleSource,
};
use crate::port::{Port, PortInputDefinition, PortInputs, PortOutputDefinition, PortOutputs};
use crate::processor::{InputBlocks, Process, ProcessArgs, frame_view};

verus! {

/// Stable kind identifier of the constant source.
pub const CONSTANT_MODULE_ID: ModuleKindId = 0x7c1e0e62_a714_4c59_9b22_d0c04f25a9d3;

/// Stable kind identifier of the four-way multiple.
pub const MULTIPLE_MODULE_ID: ModuleKindId = 0x54d93000_7dd2_45ce_a3f1_ad53b0a04fac;

/// Stable kind identifier of the audio output sink.
pub const AUDIO_OUTPUT_MODULE_ID: ModuleKindId = 0x47d0fca2_cb58_4011_8a55_31ecd4b184c1;

/// What the catalog's kinds need to come to life: the block the constant
/// source publishes.
pub struct ModuleContext {
    pub constant_value: Sample,
}

// -------------------------------------------------------------------------
// Constant source

/// A source that publishes the same block every iteration.
pub struct Constant {
    value: Block,
}

impl Constant {
    #[verifier::type_invariant]
    spec fn type_inv(self) -> bool {
        self.value.wf()
    }

    /// A source publishing the block with every sample equal to
    /// `context.constant_value`.
    pub fn instantiate(context: &ModuleContext) -> (r: Self)
        ensures
            r.model() == Seq::new(crate::BUFFER_FRAMES as nat, |i: int| context.constant_value),
    {
        Constant { value: Block::splat(context.constant_value) }
    }

    /// Replaces the block the source publishes, as a control-phase edit
    /// between blocks: from the next iteration on, this is what every
    /// consumer reads one iteration later.
    pub fn set_value(&mut self, value: &Block)
        requires
            value.wf(),
        ensures
            final(self).model() == value@,
    {
        self.value = value.clone();
    }
}

impl ModuleDefine for Constant {
    fn define(module: ModuleDefinitionBuilder) -> (r: ModuleDefinition)
        ensures
            r.name@ == "source/constant"@,
            r.inputs@.len() == module.inputs@.len(),
            r.outputs@.len() == module.outputs@.len() + 1,
    {
        module.name("source/constant".to_string()).description(
            "Constant Source".to_string(),
        ).with_output(PortOutputDefinition::builder().name("Output".to_string()).build()).build()
    }
}

impl Process for Constant {
    type StateModel = Seq<Sample>;

    closed spec fn model(self) -> Seq<Sample> {
        self.value@
    }

    open spec fn step_model(m: Seq<Sample>, inputs: Seq<Option<Seq<Sample>>>) -> Seq<Sample> {
        m
    }

    open spec fn step_write(
        m: Seq<Sample>,
        inputs: Seq<Option<Seq<Sample>>>,
        port: int,
    ) -> Option<Seq<Sample>> {
        if port == 0 {
            Some(m)
        } else {
            None
        }
    }

    fn process(&mut self, inputs: &InputBlocks, outputs: &mut PortOutputs, args: &ProcessArgs) {
        proof {
            use_type_invariant(&*self);
        }
        let _ = outputs.write_block(0, args.token.0, &self.value);
    }
}

// -------------------------------------------------------------------------
// Four-way multiple

/// A utility router: one input, copied to four outputs.
pub struct Multiple {}

impl Multiple {
    /// A fresh multiple; it carries no state.
    pub fn instantiate() -> (r: Self) {
        Multiple {}
    }
}

impl ModuleDefine for Multiple {
    fn define(module: ModuleDefinitionBuilder) -> (r: ModuleDefinition)
        ensures
            r.name@ == "util/mult"@,
            r.inputs@.len() == module.inputs@.len() + 1,
            r.outputs@.len() == module.outputs@.len() + 4,
    {
        module.name("util/mult".to_string()).description("Multiple (4-Way)".to_string()).with_input(
            PortInputDefinition::builder().name("Input".to_string()).build(),
        ).with_output(PortOutputDefinition::builder().name("Output 0".to_string()).build())
            .with_output(PortOutputDefinition::builder().name("Output 1".to_string()).build())
            .with_output(PortOutputDefinition::builder().name("Output 2".to_string()).build())
            .with_output(PortOutputDefinition::builder().name("Output 3".to_string()).build())
            .build()
    }
}

impl Process for Multiple {
    type StateModel = ();

    closed spec fn model(self) -> () {
        ()
    }

    open spec fn step_model(m: (), inputs: Seq<Option<Seq<Sample>>>) -> () {
        ()
    }

    open spec fn step_write(
        m: (),
        inputs: Seq<Option<Seq<Sample>>>,
        port: int,
    ) -> Option<Seq<Sample>> {
        if 0 <= port < 4 && 0 < inputs.len() {
            inputs[0]
        } else {
            None
        }
    }

    fn process(&mut self, inputs: &InputBlocks, outputs: &mut PortOutputs, args: &ProcessArgs) {
        match inputs.input_block(0) {
            Some(cell) => match cell {
                Port::Connected(b) => {
                    let blk = b.clone();
                    let _ = outputs.write_block(0, args.token.0, &blk);
                    let _ = outputs.write_block(1, args.token.0, &blk);
                    let _ = outputs.write_block(2, args.token.0, &blk);
                    let _ = outputs.write_block(3, args.token.0, &blk);
                },
                Port::Disconnected => {},
            },
            None => {},
        }
    }
}

// -------------------------------------------------------------------------
// Audio output sink

/// Where the audio output stands in acquiring its device buffer: first the
/// list of outputs is awaited, then the buffer itself, and from then on the
/// sink is live.
#[derive(Clone, Copy, Debug, PartialEq, Eq, Structural)]
pub enum OutputState {
    AwaitingOutputs,
    AwaitingOutputBuffer,
    Active,
}

/// The multi-channel audio output sink: while active, it copies each
/// connected input's block into its channel buffer, where the io side picks
/// the mix up at the block boundary.
pub struct Output {
    state: OutputState,
    channels: Vec<Block>,
}

impl Output {
    /// A fresh sink: awaiting the list of outputs, channels all zero.
    pub fn instantiate() -> (r: Self)
        ensures
            r.model().0 == OutputState::AwaitingOutputs,
            r.model().1.len() == MAX_CHANNELS,
            forall|c: int|
                0 <= c < MAX_CHANNELS ==> #[trigger] r.model().1[c] == crate::block::zero_block(),
    {
        let mut channels: Vec<Block> = Vec::new();
        while channels.len() < MAX_CHANNELS
            invariant
                channels@.len() <= MAX_CHANNELS,
                forall|c: int|
                    0 <= c < channels@.len() ==> (#[trigger] channels@[c]).wf() && channels@[c]@
                        == crate::block::zero_block(),
            decreases MAX_CHANNELS - channels@.len(),
        {
            channels.push(Block::zero());
        }
        Output { state: OutputState::AwaitingOutputs, channels }
    }

    /// The acquisition state the sink stands in.
    pub fn state(&self) -> (r: OutputState)
        ensures
            r == self.model().0,
    {
        self.state
    }

    /// The sink learned which outputs the platform offers, and has asked
    /// for its device buffer.
    pub fn notify_outputs(&mut self)
        ensures
            final(self).model().1 == old(self).model().1,
            final(self).model().0 == (if old(self).model().0 == OutputState::AwaitingOutputs {
                OutputState::AwaitingOutputBuffer
            } else {
                old(self).model().0
            }),
    {
        match self.state {
            OutputState::AwaitingOutputs => {
                self.state = OutputState::AwaitingOutputBuffer;
            },
            _ => {},
        }
    }

    /// The sink's device buffer arrived: the sink is live.
    pub fn notify_output_buffer(&mut self)
        ensures
            final(self).model().1 == old(self).model().1,
            final(self).model().0 == (if old(self).model().0
                == OutputState::AwaitingOutputBuffer {
                OutputState::Active
            } else {
                old(self).model().0
            }),
    {
        match self.state {
            OutputState::AwaitingOutputBuffer => {
                self.state = OutputState::Active;
            },
            _ => {},
        }
    }

    /// The block standing in the given channel of the sink's buffer.
    pub fn channel(&self, channel: usize) -> (r: Option<&Block>)
        ensures
            match r {
                Some(b) => channel < self.model().1.len() && b@ == self.model().1[channel as int],
                None => channel >= self.model().1.len(),
            },
    {
        self.channels.get(channel)
    }
}

impl ModuleDefine for Output {
    fn define(module: ModuleDefinitionBuilder) -> (r: ModuleDefinition)
        ensures
            r.name@ == "audio/out"@,
            r.inputs@.len() == module.inputs@.len() + MAX_CHANNELS,
            r.outputs@.len() == module.outputs@.len(),
    {
        let ghost pre = module.inputs@.len();
        let ghost pre_out = module.outputs@.len();
        let mut builder = module.name("audio/out".to_string()).description(
            "Multi-Channel Audio Output".to_string(),
        );
        let mut i: usize = 0;
        while i < MAX_CHANNELS
            invariant
                i <= MAX_CHANNELS,
                builder.name matches Some(n) && n@ == "audio/out"@,
                builder.inputs@.len() == pre + i,
                builder.outputs@.len() == pre_out,
            decreases MAX_CHANNELS - i,
        {
            builder = builder.with_input(PortInputDefinition::builder().build());
            i = i + 1;
        }
        builder.build()
    }
}

impl Process for Output {
    type StateModel = (OutputState, Seq<Seq<Sample>>);

    closed spec fn model(self) -> (OutputState, Seq<Seq<Sample>>) {
        (self.state, Seq::new(self.channels@.len(), |c: int| self.channels@[c]@))
    }

    open spec fn step_model(
        m: (OutputState, Seq<Seq<Sample>>),
        inputs: Seq<Option<Seq<Sample>>>,
    ) -> (OutputState, Seq<Seq<Sample>>) {
        if m.0 == OutputState::Active {
            (
                m.0,
                Seq::new(
                    m.1.len(),
                    |c: int|
                        if c < inputs.len() && inputs[c] is Some {
                            inputs[c]->0
                        } else {
                            m.1[c]
                        },
                ),
            )
        } else {
            m
        }
    }

    open spec fn step_write(
        m: (OutputState, Seq<Seq<Sample>>),
        inputs: Seq<Option<Seq<Sample>>>,
        port: int,
    ) -> Option<Seq<Sample>> {
        None
    }

    fn process(&mut self, inputs: &InputBlocks, outputs: &mut PortOutputs, args: &ProcessArgs) {
        let ghost m0 = old(self).model();
        match self.state {
            OutputState::Active => {
                let n = self.channels.len();
                let mut i: usize = 0;
                while i < n
                    invariant
                        i <= n,
                        self.state == OutputState::Active,
                        self.channels@.len() == n,
                        m0.0 == OutputState::Active,
                        m0.1.len() == n,
                        inputs.wf(),
                        forall|c: int|
                            0 <= c < i ==> self.channels@[c]@ == (if c < frame_view(*inputs).len()
                                && frame_view(*inputs)[c] is Some {
                                frame_view(*inputs)[c]->0
                            } else {
                                m0.1[c]
                            }),
                        forall|c: int| i <= c < n ==> #[trigger] self.channels@[c]@ == m0.1[c],
                    decreases n - i,
                {
                    match inputs.input_block(i) {
                        Some(cell) => match cell {
                            Port::Connected(b) => {
                                let blk = b.clone();
                                self.channels.set(i, blk);
                            },
                            Port::Disconnected => {},
                        },
                        None => {},
                    }
                    i = i + 1;
                }
                proof {
                    assert(final(self).model().1 =~= Self::step_model(
                        m0,
                        frame_view(*inputs),
                    ).1);
                }
            },
            _ => {
                proof {
                    assert(final(self).model().1 =~= Self::step_model(
                        m0,
                        frame_view(*inputs),
                    ).1);
                }
            },
        }
    }
}

// -------------------------------------------------------------------------
// The catalog

/// The state models of the catalog's kinds, one per variant.
pub enum ModuleModel {
    Constant(Seq<Sample>),
    Multiple,
    AudioOutput(OutputState, Seq<Seq<Sample>>),
}

/// The module catalog: every kind this engine run can host, dispatched
/// without dynamic call sites.
pub enum Module {
    Constant(Constant),
    Multiple(Multiple),
    AudioOutput(Output),
}

impl Module {
    /// Read access to the audio output sink, where this instance is one.
    pub fn as_audio_output(&self) -> (r: Option<&Output>)
        ensures
            match r {
                Some(o) => self matches Module::AudioOutput(inner) && o.model() == inner.model(),
                None => !(self is AudioOutput),
            },
    {
        match self {
            Module::AudioOutput(output) => Some(output),
            _ => None,
        }
    }
}

impl Process for Module {
    type StateModel = ModuleModel;

    open spec fn model(self) -> ModuleModel {
        match self {
            Module::Constant(m) => ModuleModel::Constant(m.model()),
            Module::Multiple(m) => ModuleModel::Multiple,
            Module::AudioOutput(m) => ModuleModel::AudioOutput(m.model().0, m.model().1),
        }
    }

    open spec fn step_model(m: ModuleModel, inputs: Seq<Option<Seq<Sample>>>) -> ModuleModel {
        match m {
            ModuleModel::Constant(cm) => ModuleModel::Constant(
                <Constant as Process>::step_model(cm, inputs),
            ),
            ModuleModel::Multiple => ModuleModel::Multiple,
            ModuleModel::AudioOutput(st, chans) => {
                let stepped = <Output as Process>::step_model((st, chans), inputs);
                ModuleModel::AudioOutput(stepped.0, stepped.1)
            },
        }
    }

    open spec fn step_write(
        m: ModuleModel,
        inputs: Seq<Option<Seq<Sample>>>,
        port: int,
    ) -> Option<Seq<Sample>> {
        match m {
            ModuleModel::Constant(cm) => <Constant as Process>::step_write(cm, inputs, port),
            ModuleModel::Multiple => <Multiple as Process>::step_write((), inputs, port),
            ModuleModel::AudioOutput(st, chans) => <Output as Process>::step_write(
                (st, chans),
                inputs,
                port,
            ),
        }
    }

    fn process(&mut self, inputs: &InputBlocks, outputs: &mut PortOutputs, args: &ProcessArgs) {
        match self {
            Module::Constant(m) => m.process(inputs, outputs, args),
            Module::Multiple(m) => m.process(inputs, outputs, args),
            Module::AudioOutput(m) => m.process(inputs, outputs, args),
        }
    }
}

impl ModuleSource for Module {
    type Context = ModuleContext;

    open spec fn known_kind(id: ModuleKindId) -> bool {
        id == CONSTANT_MODULE_ID || id == MULTIPLE_MODULE_ID || id == AUDIO_OUTPUT_MODULE_ID
    }

    fn get(id: ModuleKindId, context: &ModuleContext) -> (r: Option<
        (Self, PortInputs, PortOutputs),
    >)
        ensures
            id == CONSTANT_MODULE_ID ==> (r matches Some(t) && {
                &&& t.1@.len() == 0
                &&& t.2@.len() == 1
                &&& t.0.model() == ModuleModel::Constant(
                    Seq::new(crate::BUFFER_FRAMES as nat, |i: int| context.constant_value),
                )
            }),
            id == MULTIPLE_MODULE_ID ==> (r matches Some(t) && {
                &&& t.1@.len() == 1
                &&& t.2@.len() == 4
                &&& t.0.model() == ModuleModel::Multiple
            }),
            id == AUDIO_OUTPUT_MODULE_ID ==> (r matches Some(t) && {
                &&& t.1@.len() == MAX_CHANNELS
                &&& t.2@.len() == 0
                &&& (t.0.model() matches ModuleModel::AudioOutput(st, chans) && st
                    == OutputState::AwaitingOutputs && chans.len() == MAX_CHANNELS)
            }),
    {
        if id == CONSTANT_MODULE_ID {
            let definition = <Constant as ModuleDefine>::define(ModuleDefinition::builder());
            let inputs = PortInputs::from_definition(&definition);
            let outputs = PortOutputs::from_definition(&definition);
            Some((Module::Constant(Constant::instantiate(context)), inputs, outputs))
        } else if id == MULTIPLE_MODULE_ID {
            let definition = <Multiple as ModuleDefine>::define(ModuleDefinition::builder());
            let inputs = PortInputs::from_definition(&definition);
            let outputs = PortOutputs::from_definition(&definition);
            Some((Module::Multiple(Multiple::instantiate()), inputs, outputs))
        } else if id == AUDIO_OUTPUT_MODULE_ID {
            let definition = <Output as ModuleDefine>::define(ModuleDefinition::builder());
            let inputs = PortInputs::from_definition(&definition);
            let outputs = PortOutputs::from_definition(&definition);
            Some((Module::AudioOutput(Output::instantiate()), inputs, outputs))
        } else {
            None
        }
    }
}

/// The definitions of every kind the catalog knows, keyed by kind
/// identifier: display name and port arity of each.
pub fn definitions() -> (r: Vec<(ModuleKindId, ModuleDefinition)>)
    ensures
        r@.len() == 3,
        r@[0].0 == CONSTANT_MODULE_ID,
        r@[0].1.name@ == "source/constant"@,
        r@[0].1.inputs@.len() == 0,
        r@[0].1.outputs@.len() == 1,
        r@[1].0 == MULTIPLE_MODULE_ID,
        r@[1].1.name@ == "util/mult"@,
        r@[1].1.inputs@.len() == 1,
        r@[1].1.outputs@.len() == 4,
        r@[2].0 == AUDIO_OUTPUT_MODULE_ID,
        r@[2].1.name@ == "audio/out"@,
        r@[2].1.inputs@.len() == MAX_CHANNELS,
        r@[2].1.outputs@.len() == 0,
{
    let mut r: Vec<(ModuleKindId, ModuleDefinition)> = Vec::new();
    r.push((CONSTANT_MODULE_ID, <Constant as ModuleDefine>::define(ModuleDefinition::builder())));
    r.push((MULTIPLE_MODULE_ID, <Multiple as ModuleDefine>::define(ModuleDefinition::builder())));
    r.push((AUDIO_OUTPUT_MODULE_ID, <Output as ModuleDefine>::define(ModuleDefinition::builder())));
    r
}

/// The state models of the perf catalog's kinds.
pub enum ModulePerfModel {
    Constant(Seq<Sample>),
    Multiple,
}

/// The catalog for engine runs measured without a device: only the kinds
/// that touch no audio boundary.
pub enum ModulePerf {
    Constant(Constant),
    Multiple(Multiple),
}

impl Process for ModulePerf {
    type StateModel = ModulePerfModel;

    open spec fn model(self) -> ModulePerfModel {
        match self {
            ModulePerf::Constant(m) => ModulePerfModel::Constant(m.model()),
            ModulePerf::Multiple(m) => ModulePerfModel::Multiple,
        }
    }

    open spec fn step_model(m: ModulePerfModel, inputs: Seq<Option<Seq<Sample>>>) -> ModulePerfModel {
        match m {
            ModulePerfModel::Constant(cm) => ModulePerfModel::Constant(
                <Constant as Process>::step_model(cm, inputs),
            ),
            ModulePerfModel::Multiple => ModulePerfModel::Multiple,
        }
    }

    open spec fn step_write(
        m: ModulePerfModel,
        inputs: Seq<Option<Seq<Sample>>>,
        port: int,
    ) -> Option<Seq<Sample>> {
        match m {
            ModulePerfModel::Constant(cm) => <Constant as Process>::step_write(cm, inputs, port),
            ModulePerfModel::Multiple => <Multiple as Process>::step_write((), inputs, port),
        }
    }

    fn process(&mut self, inputs: &InputBlocks, outputs: &mut PortOutputs, args: &ProcessArgs) {
        match self {
            ModulePerf::Constant(m) => m.process(inputs, outputs, args),
            ModulePerf::Multiple(m) => m.process(inputs, outputs, args),
        }
    }
}

impl ModuleSource for ModulePerf {
    type Context = ModuleContext;

    open spec fn known_kind(id: ModuleKindId) -> bool {
        id == CONSTANT_MODULE_ID || id == MULTIPLE_MODULE_ID
    }

    fn get(id: ModuleKindId, context: &ModuleContext) -> (r: Option<
        (Self, PortInputs, PortOutputs),
    >)
        ensures
            id == CONSTANT_MODULE_ID ==> (r matches Some(t) && {
                &&& t.1@.len() == 0
                &&& t.2@.len() == 1
                &&& t.0.model() == ModulePerfModel::Constant(
                    Seq::new(crate::BUFFER_FRAMES as nat, |i: int| context.constant_value),
                )
            }),
            id == MULTIPLE_MODULE_ID ==> (r matches Some(t) && {
                &&& t.1@.len() == 1
                &&& t.2@.len() == 4
                &&& t.0.model() == ModulePerfModel::Multiple
            }),
    {
        if id == CONSTANT_MODULE_ID {
            let definition = <Constant as ModuleDefine>::define(ModuleDefinition::builder());
            let inputs = PortInputs::from_definition(&definition);
            let outputs = PortOutputs::from_definition(&definition);
            Some((ModulePerf::Constant(Constant::instantiate(context)), inputs, outputs))
        } else if id == MULTIPLE_MODULE_ID {
            let definition = <Multiple as ModuleDefine>::define(ModuleDefinition::builder());
            let inputs = PortInputs::from_definition(&definition);
            let outputs = PortOutputs::from_definition(&definition);
            Some((ModulePerf::Multiple(Multiple::instantiate()), inputs, outputs))
        } else {
            None
        }
    }
}

} // verus!
