use vstd::prelude::*;
use crate::error::{ZBarErrorType, ZBarResult};
use crate::processor::{
    after_status, config_steps, fresh, pending_step, processor_wf, ConfigStep, ProcessorState,
    ProcessorView,
};
use crate::symbol::{ZBarConfig, ZBarSymbolType};

verus! {

/// Collects the settings of an image scanner, applied in the order they were added.
pub struct ZBarImageScannerBuilder {
    config: Vec<(ZBarSymbolType, ZBarConfig, i32)>,
}

impl View for ZBarImageScannerBuilder {
    type V = Seq<(ZBarSymbolType, ZBarConfig, i32)>;

    closed spec fn view(&self) -> Seq<(ZBarSymbolType, ZBarConfig, i32)> {
        self.config@
    }
}

impl ZBarImageScannerBuilder {
    /// A builder with no settings.
    pub fn new() -> (r: Self)
        ensures
            r@ == Seq::<(ZBarSymbolType, ZBarConfig, i32)>::empty(),
    {
        ZBarImageScannerBuilder { config: Vec::new() }
    }

    /// Adds one setting of one symbology, applied after those added before it.
    pub fn with_config(
        &mut self,
        symbol_type: ZBarSymbolType,
        config: ZBarConfig,
        value: i32,
    ) -> (r: &mut Self)
        ensures
            (*r)@ == old(self)@.push((symbol_type, config, value)),
            *final(self) == *final(r),
    {
        self.config.push((symbol_type, config, value));
        self
    }

    /// A scanner that still has each setting of this builder to apply, in order.
    pub fn build(&self) -> (r: ZBarImageScanner)
        ensures
            r@ == fresh(false, config_steps(self@)),
            processor_wf(r@),
    {
        let mut steps: Vec<ConfigStep> = Vec::new();
        let mut i: usize = 0;
        while i < self.config.len()
            invariant
                i <= self.config@.len(),
                steps@ == config_steps(self.config@.take(i as int)),
            decreases self.config@.len() - i,
        {
            let c = self.config[i];
            steps.push(ConfigStep::SetConfig(c.0, c.1, c.2));
            proof {
                assert(self.config@.take(i + 1) =~= self.config@.take(i as int).push(c));
                assert(config_steps(self.config@.take(i + 1)) =~= config_steps(
                    self.config@.take(i as int),
                ).push(ConfigStep::SetConfig(c.0, c.1, c.2)));
            }
            i = i + 1;
        }
        proof {
            assert(self.config@.take(i as int) =~= self.config@);
        }
        let state = if steps.len() == 0 {
            ProcessorState::Ready
        } else {
            ProcessorState::Configuring
        };
        ZBarImageScanner { steps, applied: 0, state }
    }
}

/// An image scanner as the library sees it: its settings calls, how many succeeded, and
/// where it stands. It runs no thread of its own.
pub struct ZBarImageScanner {
    steps: Vec<ConfigStep>,
    applied: usize,
    state: ProcessorState,
}

impl View for ZBarImageScanner {
    type V = ProcessorView;

    closed spec fn view(&self) -> ProcessorView {
        ProcessorView {
            threaded: false,
            steps: self.steps@,
            applied: self.applied as nat,
            state: self.state,
        }
    }
}

impl ZBarImageScanner {
    /// A builder with no settings.
    pub fn builder() -> (r: ZBarImageScannerBuilder)
        ensures
            r@ == Seq::<(ZBarSymbolType, ZBarConfig, i32)>::empty(),
    {
        ZBarImageScannerBuilder::new()
    }

    /// The settings call to make next; `None` once all succeeded or one was refused.
    pub fn next_step(&self) -> (r: Option<ConfigStep>)
        requires
            processor_wf(self@),
        ensures
            r == pending_step(self@),
    {
        match self.state {
            ProcessorState::Configuring => Some(self.steps[self.applied]),
            _ => None,
        }
    }

    /// Takes the engine's answer to the pending settings call. Zero moves on to the next
    /// call; anything else is the refusal, and no call is made after it.
    pub fn step_done(&mut self, status: i32) -> (r: ZBarResult<()>)
        requires
            processor_wf(old(self)@),
            old(self)@.state is Configuring,
        ensures
            final(self)@ == after_status(old(self)@, status),
            processor_wf(final(self)@),
            status == 0 ==> r == Ok::<(), ZBarErrorType>(()),
            status != 0 ==> r == Err::<(), ZBarErrorType>(ZBarErrorType::ConfigurationFailed(status)),
    {
        if status == 0 {
            let n = self.steps.len();
            self.applied = self.applied + 1;
            if self.applied == n {
                self.state = ProcessorState::Ready;
            }
            Ok(())
        } else {
            self.state = ProcessorState::Failed(status);
            Err(ZBarErrorType::ConfigurationFailed(status))
        }
    }

    /// Whether every settings call succeeded.
    pub fn is_ready(&self) -> (r: bool)
        ensures
            r == (self@.state is Ready),
    {
        match self.state {
            ProcessorState::Ready => true,
            _ => false,
        }
    }
}

} // verus!
