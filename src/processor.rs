use vstd::prelude::*;
use crate::error::{ZBarErrorType, ZBarResult};
use crate::format::Format;
use crate::symbol::{ZBarConfig, ZBarSymbolType};

verus! {

/// One configuration call on a freshly created processor.
#[derive(Clone, Copy, Debug, PartialEq, Eq, Structural)]
pub enum ConfigStep {
    /// Ask the video device for a frame size.
    RequestSize(u32, u32),
    /// Ask for a version of the video interface.
    RequestInterface(i32),
    /// Ask for an I/O mode of the video device.
    RequestIomode(i32),
    /// Force the input and the output format.
    ForceFormat(Format, Format),
    /// Set one setting of one symbology.
    SetConfig(ZBarSymbolType, ZBarConfig, i32),
}

/// The call that every processor starts with: all symbologies off.
pub open spec fn disable_all() -> ConfigStep {
    ConfigStep::SetConfig(ZBarSymbolType::ZBAR_NONE, ZBarConfig::ZBAR_CFG_ENABLE, 0)
}

/// The settings calls, in the order they were added.
pub open spec fn config_steps(c: Seq<(ZBarSymbolType, ZBarConfig, i32)>) -> Seq<ConfigStep> {
    c.map_values(|t: (ZBarSymbolType, ZBarConfig, i32)| ConfigStep::SetConfig(t.0, t.1, t.2))
}

/// What a processor builder holds.
pub struct BuilderView {
    pub threaded: bool,
    pub size: Option<(u32, u32)>,
    pub interface_version: Option<i32>,
    pub iomode: Option<i32>,
    pub format: Option<(Format, Format)>,
    pub config: Seq<(ZBarSymbolType, ZBarConfig, i32)>,
}

/// The calls that build a processor, in their fixed order: all symbologies off, then size,
/// interface version, I/O mode and formats where they were asked for, then each setting.
pub open spec fn plan(b: BuilderView) -> Seq<ConfigStep> {
    seq![disable_all()] + match b.size {
        Some(s) => seq![ConfigStep::RequestSize(s.0, s.1)],
        None => Seq::empty(),
    } + match b.interface_version {
        Some(v) => seq![ConfigStep::RequestInterface(v)],
        None => Seq::empty(),
    } + match b.iomode {
        Some(m) => seq![ConfigStep::RequestIomode(m)],
        None => Seq::empty(),
    } + match b.format {
        Some(f) => seq![ConfigStep::ForceFormat(f.0, f.1)],
        None => Seq::empty(),
    } + config_steps(b.config)
}

/// Where a processor stands.
#[derive(Clone, Copy, Debug, PartialEq, Eq, Structural)]
pub enum ProcessorState {
    /// Configuration calls are still to be made.
    Configuring,
    /// A configuration call was refused, with this code; the processor is to be destroyed.
    Failed(i32),
    /// Every configuration call succeeded.
    Ready,
    /// A video device was opened.
    Initialized,
}

/// What the library knows of a processor.
pub struct ProcessorView {
    pub threaded: bool,
    pub steps: Seq<ConfigStep>,
    pub applied: nat,
    pub state: ProcessorState,
}

/// The steps that are done and the state agree.
pub open spec fn processor_wf(p: ProcessorView) -> bool {
    &&& p.applied <= p.steps.len()
    &&& match p.state {
        ProcessorState::Configuring | ProcessorState::Failed(_) => p.applied < p.steps.len(),
        ProcessorState::Ready | ProcessorState::Initialized => p.applied == p.steps.len(),
    }
}

/// A processor just created, with its configuration calls still to be made.
pub open spec fn fresh(threaded: bool, steps: Seq<ConfigStep>) -> ProcessorView {
    ProcessorView {
        threaded,
        steps,
        applied: 0,
        state: if steps.len() == 0 {
            ProcessorState::Ready
        } else {
            ProcessorState::Configuring
        },
    }
}

/// The configuration call to be made next, if any.
pub open spec fn pending_step(p: ProcessorView) -> Option<ConfigStep> {
    if p.state is Configuring {
        Some(p.steps[p.applied as int])
    } else {
        None
    }
}

/// The processor after the engine answered its pending call with `status`.
pub open spec fn after_status(p: ProcessorView, status: i32) -> ProcessorView {
    if status == 0 {
        ProcessorView {
            threaded: p.threaded,
            steps: p.steps,
            applied: p.applied + 1,
            state: if p.applied + 1 == p.steps.len() {
                ProcessorState::Ready
            } else {
                ProcessorState::Configuring
            },
        }
    } else {
        ProcessorView {
            threaded: p.threaded,
            steps: p.steps,
            applied: p.applied,
            state: ProcessorState::Failed(status),
        }
    }
}

/// The processor after the engine answered its calls, one by one, with `statuses`.
pub open spec fn feed(p: ProcessorView, statuses: Seq<i32>) -> ProcessorView
    decreases statuses.len(),
{
    if statuses.len() == 0 {
        p
    } else {
        after_status(feed(p, statuses.drop_last()), statuses.last())
    }
}

/// Collects the configuration of a processor; `build` turns it into the calls to make.
pub struct ZBarProcessorBuilder {
    threaded: bool,
    size: Option<(u32, u32)>,
    interface_version: Option<i32>,
    iomode: Option<i32>,
    format: Option<(Format, Format)>,
    config: Vec<(ZBarSymbolType, ZBarConfig, i32)>,
}

impl View for ZBarProcessorBuilder {
    type V = BuilderView;

    closed spec fn view(&self) -> BuilderView {
        BuilderView {
            threaded: self.threaded,
            size: self.size,
            interface_version: self.interface_version,
            iomode: self.iomode,
            format: self.format,
            config: self.config@,
        }
    }
}

impl ZBarProcessorBuilder {
    /// A builder with nothing asked for: not threaded, no settings.
    pub fn new() -> (r: Self)
        ensures
            r@ == (BuilderView {
                threaded: false,
                size: None,
                interface_version: None,
                iomode: None,
                format: None,
                config: Seq::empty(),
            }),
    {
        Self {
            threaded: false,
            size: None,
            interface_version: None,
            iomode: None,
            format: None,
            config: Vec::new(),
        }
    }

    /// Whether the processor runs its own capture and display thread.
    pub fn threaded(&mut self, threaded: bool) -> (r: &mut Self)
        ensures
            (*r)@ == (BuilderView { threaded, ..old(self)@ }),
            *final(self) == *final(r),
    {
        self.threaded = threaded;
        self
    }

    /// The frame size to ask the video device for.
    pub fn with_size(&mut self, size: Option<(u32, u32)>) -> (r: &mut Self)
        ensures
            (*r)@ == (BuilderView { size, ..old(self)@ }),
            *final(self) == *final(r),
    {
        self.size = size;
        self
    }

    /// The video interface version to ask for.
    pub fn with_interface_version(&mut self, interface_version: Option<i32>) -> (r: &mut Self)
        ensures
            (*r)@ == (BuilderView { interface_version, ..old(self)@ }),
            *final(self) == *final(r),
    {
        self.interface_version = interface_version;
        self
    }

    /// The I/O mode to ask the video device for.
    pub fn with_iomode(&mut self, iomode: Option<i32>) -> (r: &mut Self)
        ensures
            (*r)@ == (BuilderView { iomode, ..old(self)@ }),
            *final(self) == *final(r),
    {
        self.iomode = iomode;
        self
    }

    /// The input and output format to force.
    pub fn with_format(&mut self, format: Option<(Format, Format)>) -> (r: &mut Self)
        ensures
            (*r)@ == (BuilderView { format, ..old(self)@ }),
            *final(self) == *final(r),
    {
        self.format = format;
        self
    }

    /// Adds one setting of one symbology, applied after those added before it.
    pub fn with_config(
        &mut self,
        symbol_type: ZBarSymbolType,
        config: ZBarConfig,
        value: i32,
    ) -> (r: &mut Self)
        ensures
            (*r)@ == (BuilderView {
                config: old(self)@.config.push((symbol_type, config, value)),
                ..old(self)@
            }),
            *final(self) == *final(r),
    {
        self.config.push((symbol_type, config, value));
        self
    }

    /// A processor that still has every configuration call of this builder to make, in the
    /// fixed order of `plan`.
    pub fn build(&self) -> (r: ZBarProcessor)
        ensures
            r@ == fresh(self@.threaded, plan(self@)),
            processor_wf(r@),
    {
        let mut steps: Vec<ConfigStep> = Vec::new();
        steps.push(ConfigStep::SetConfig(ZBarSymbolType::ZBAR_NONE, ZBarConfig::ZBAR_CFG_ENABLE, 0));
        if let Some(s) = self.size {
            steps.push(ConfigStep::RequestSize(s.0, s.1));
        }
        if let Some(v) = self.interface_version {
            steps.push(ConfigStep::RequestInterface(v));
        }
        if let Some(m) = self.iomode {
            steps.push(ConfigStep::RequestIomode(m));
        }
        if let Some(f) = self.format {
            steps.push(ConfigStep::ForceFormat(f.0, f.1));
        }
        let ghost head = steps@;
        let mut i: usize = 0;
        while i < self.config.len()
            invariant
                i <= self.config@.len(),
                steps@ == head + config_steps(self.config@.take(i as int)),
            decreases self.config@.len() - i,
        {
            let c = self.config[i];
            steps.push(ConfigStep::SetConfig(c.0, c.1, c.2));
            proof {
                assert(self.config@.take(i + 1) =~= self.config@.take(i as int).push(c));
                assert(config_steps(self.config@.take(i + 1)) =~= config_steps(
                    self.config@.take(i as int),
                ).push(ConfigStep::SetConfig(c.0, c.1, c.2)));
            }
            i = i + 1;
        }
        proof {
            assert(self.config@.take(i as int) =~= self.config@);
            assert(steps@ =~= plan(self@));
        }
        ZBarProcessor {
            threaded: self.threaded,
            steps,
            applied: 0,
            state: ProcessorState::Configuring,
        }
    }
}

impl Default for ZBarProcessorBuilder {
    /// The same as `new`.
    fn default() -> (r: Self)
        ensures
            r@ == (BuilderView {
                threaded: false,
                size: None,
                interface_version: None,
                iomode: None,
                format: None,
                config: Seq::empty(),
            }),
    {
        ZBarProcessorBuilder::new()
    }
}

/// A processor as the library sees it: whether it is threaded, the configuration calls that
/// it is made with, how many of them succeeded, and where it stands.
pub struct ZBarProcessor {
    threaded: bool,
    steps: Vec<ConfigStep>,
    applied: usize,
    state: ProcessorState,
}

impl View for ZBarProcessor {
    type V = ProcessorView;

    closed spec fn view(&self) -> ProcessorView {
        ProcessorView {
            threaded: self.threaded,
            steps: self.steps@,
            applied: self.applied as nat,
            state: self.state,
        }
    }
}

impl ZBarProcessor {
    /// A processor with no more configuration than all symbologies off.
    pub fn new(threaded: bool) -> (r: Self)
        ensures
            r@ == fresh(threaded, seq![disable_all()]),
            processor_wf(r@),
    {
        let mut steps: Vec<ConfigStep> = Vec::new();
        steps.push(ConfigStep::SetConfig(ZBarSymbolType::ZBAR_NONE, ZBarConfig::ZBAR_CFG_ENABLE, 0));
        proof {
            assert(steps@ =~= seq![disable_all()]);
        }
        ZBarProcessor { threaded, steps, applied: 0, state: ProcessorState::Configuring }
    }

    /// A builder with nothing asked for.
    pub fn builder() -> (r: ZBarProcessorBuilder)
        ensures
            r@ == (BuilderView {
                threaded: false,
                size: None,
                interface_version: None,
                iomode: None,
                format: None,
                config: Seq::empty(),
            }),
    {
        ZBarProcessorBuilder::new()
    }

    /// Whether the processor runs its own capture and display thread.
    pub fn is_threaded(&self) -> (r: bool)
        ensures
            r == self@.threaded,
    {
        self.threaded
    }

    /// The configuration call to make next; `None` once all succeeded or one was refused.
    pub fn next_step(&self) -> (r: Option<ConfigStep>)
        requires
            processor_wf(self@),
        ensures
            r == pending_step(self@),
    {
        match self.state {
            ProcessorState::Configuring => Some(self.steps[self.applied]),
            _ => None,
        }
    }

    /// Takes the engine's answer to the pending configuration call. Zero moves on to the next
    /// call; anything else is the refusal, and no call is made after it.
    pub fn step_done(&mut self, status: i32) -> (r: ZBarResult<()>)
        requires
            processor_wf(old(self)@),
            old(self)@.state is Configuring,
        ensures
            final(self)@ == after_status(old(self)@, status),
            processor_wf(final(self)@),
            status == 0 ==> r == Ok::<(), ZBarErrorType>(()),
            status != 0 ==> r == Err::<(), ZBarErrorType>(ZBarErrorType::ConfigurationFailed(status)),
    {
        if status == 0 {
            let n = self.steps.len();
            self.applied = self.applied + 1;
            if self.applied == n {
                self.state = ProcessorState::Ready;
            }
            Ok(())
        } else {
            self.state = ProcessorState::Failed(status);
            Err(ZBarErrorType::ConfigurationFailed(status))
        }
    }

    /// Whether every configuration call succeeded.
    pub fn is_ready(&self) -> (r: bool)
        ensures
            r == (self@.state is Ready || self@.state is Initialized),
    {
        match self.state {
            ProcessorState::Ready | ProcessorState::Initialized => true,
            _ => false,
        }
    }

    /// The refusal that ended the configuration, if one did.
    pub fn failure(&self) -> (r: Option<ZBarErrorType>)
        ensures
            r == match self@.state {
                ProcessorState::Failed(c) => Some(ZBarErrorType::ConfigurationFailed(c)),
                _ => None,
            },
    {
        match self.state {
            ProcessorState::Failed(c) => Some(ZBarErrorType::ConfigurationFailed(c)),
            _ => None,
        }
    }

    /// Takes the engine's answer to opening a video device. Zero means it is open; anything
    /// else is the failure, and the processor stays as it was.
    pub fn init(&mut self, status: i32) -> (r: ZBarResult<()>)
        requires
            processor_wf(old(self)@),
            old(self)@.state is Ready || old(self)@.state is Initialized,
        ensures
            processor_wf(final(self)@),
            status == 0 ==> r == Ok::<(), ZBarErrorType>(()) && final(self)@ == (ProcessorView {
                state: ProcessorState::Initialized,
                ..old(self)@
            }),
            status != 0 ==> r == Err::<(), ZBarErrorType>(ZBarErrorType::VideoInitFailed(status))
                && final(self)@ == old(self)@,
    {
        if status == 0 {
            self.state = ProcessorState::Initialized;
            Ok(())
        } else {
            Err(ZBarErrorType::VideoInitFailed(status))
        }
    }

    /// Whether a video device was opened.
    pub fn is_initialized(&self) -> (r: bool)
        ensures
            r == self@.state is Initialized,
    {
        match self.state {
            ProcessorState::Initialized => true,
            _ => false,
        }
    }
}

/// While the engine accepts every call, each accepted call moves setup one step on.
proof fn lemma_feed_accepted(p: ProcessorView, statuses: Seq<i32>, j: int)
    requires
        p.state is Configuring,
        processor_wf(p),
        0 <= j <= statuses.len(),
        p.applied + j < p.steps.len(),
        forall|i: int| 0 <= i < j ==> statuses[i] == 0,
    ensures
        feed(p, statuses.take(j)) == (ProcessorView { applied: p.applied + j as nat, ..p }),
    decreases j,
{
    if j > 0 {
        lemma_feed_accepted(p, statuses, j - 1);
        assert(statuses.take(j).drop_last() =~= statuses.take(j - 1));
    } else {
        assert(statuses.take(0) =~= Seq::<i32>::empty());
    }
}

/// Building stops at the first refused call: every call before it is made in the order of
/// the plan, the refused one is the last call made, and the processor ends up failed with the
/// refusal's code and no call left to make.
pub proof fn lemma_build_stops_at_first_refusal(b: BuilderView, statuses: Seq<i32>, k: int)
    requires
        0 <= k < statuses.len(),
        k < plan(b).len(),
        forall|i: int| 0 <= i < k ==> statuses[i] == 0,
        statuses[k] != 0,
    ensures
        forall|j: int|
            0 <= j <= k ==> pending_step(feed(fresh(b.threaded, plan(b)), statuses.take(j)))
                == Some(plan(b)[j]),
        feed(fresh(b.threaded, plan(b)), statuses.take(k + 1)).state == ProcessorState::Failed(
            statuses[k],
        ),
        pending_step(feed(fresh(b.threaded, plan(b)), statuses.take(k + 1))) is None,
{
    let p = fresh(b.threaded, plan(b));
    assert forall|j: int| 0 <= j <= k implies pending_step(feed(p, statuses.take(j))) == Some(
        plan(b)[j],
    ) by {
        lemma_feed_accepted(p, statuses, j);
    }
    lemma_feed_accepted(p, statuses, k);
    assert(statuses.take(k + 1).drop_last() =~= statuses.take(k));
}

/// Building succeeds when the engine accepts every call: after one accepted answer per call of
/// the plan, the processor is ready and has no call left to make.
pub proof fn lemma_build_completes(b: BuilderView, statuses: Seq<i32>)
    requires
        statuses.len() == plan(b).len(),
        forall|i: int| 0 <= i < statuses.len() ==> statuses[i] == 0,
    ensures
        feed(fresh(b.threaded, plan(b)), statuses).state == ProcessorState::Ready,
        feed(fresh(b.threaded, plan(b)), statuses).applied == plan(b).len(),
        pending_step(feed(fresh(b.threaded, plan(b)), statuses)) is None,
{
    let p = fresh(b.threaded, plan(b));
    let n = statuses.len() as int;
    lemma_feed_accepted(p, statuses, n - 1);
    assert(statuses.take(n).drop_last() =~= statuses.take(n - 1));
    assert(statuses.take(n) =~= statuses);
}

} // verus!
