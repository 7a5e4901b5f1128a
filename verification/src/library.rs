//! The engine's process-wide setup: made once, before the first session,
//! and undone once, at the end.

use crate::error::{Error, ErrorView, SshResult, SSH_OK};
use vstd::prelude::*;

verus! {

/// The engine, set up for this process.
#[derive(Debug)]
pub struct LibraryState {}

impl LibraryState {
    /// Takes the status of the engine's global setup: there is an engine to
    /// use exactly if the setup reported success.
    pub fn new(res: i32) -> (lib: Option<LibraryState>)
        ensures
            lib is Some <==> res == SSH_OK,
    {
        if res != SSH_OK {
            None
        } else {
            Some(LibraryState {})
        }
    }
}

/// How far the engine's setup has come.
#[derive(Debug, Clone, Copy, PartialEq, Eq)]
pub enum SetupStage {
    /// The setup was not attempted yet.
    Pending,
    /// The setup succeeded: sessions can be created.
    Ready,
    /// The setup failed, for good.
    Failed,
    /// The engine was set up and has been torn down since.
    TornDown,
}

/// The guard of the engine's global setup. The one who drives the engine
/// keeps one guard for the process, attempts the setup while the guard asks
/// for it, and tells the guard how it went.
#[derive(Debug)]
pub struct EngineGuard {
    stage: SetupStage,
}

/// The reason given for every session that is asked for while the engine
/// is not set up.
pub open spec fn setup_failed_reason() -> Seq<char> {
    "engine initialization failed"@
}

/// The stage after the setup was reported to have ended with `res`: the
/// first report decides, every later one changes nothing.
pub open spec fn stage_after_setup(stage: SetupStage, res: i32) -> SetupStage {
    match stage {
        SetupStage::Pending => if res == SSH_OK {
            SetupStage::Ready
        } else {
            SetupStage::Failed
        },
        _ => stage,
    }
}

/// The stage after the reports in `results`, one after the other.
pub open spec fn stage_after_setups(stage: SetupStage, results: Seq<i32>) -> SetupStage
    decreases results.len(),
{
    if results.len() == 0 {
        stage
    } else {
        stage_after_setups(stage_after_setup(stage, results[0]), results.drop_first())
    }
}

impl EngineGuard {
    /// The guard of a process that has not attempted the setup.
    pub fn new() -> (guard: EngineGuard)
        ensures
            guard.stage() == SetupStage::Pending,
    {
        EngineGuard { stage: SetupStage::Pending }
    }

    /// How far the setup has come.
    pub closed spec fn stage(&self) -> SetupStage {
        self.stage
    }

    /// How far the setup has come.
    pub fn current_stage(&self) -> (stage: SetupStage)
        ensures
            stage == self.stage(),
    {
        self.stage
    }

    /// Whether the setup is still to be attempted. That is so until the
    /// first attempt is reported, and never after.
    pub fn needs_setup(&self) -> (needed: bool)
        ensures
            needed == (self.stage() == SetupStage::Pending),
    {
        matches!(self.stage, SetupStage::Pending)
    }

    /// Reports how the engine's global setup ended. Only the first report
    /// counts: a failure is permanent, and so is a success.
    pub fn setup(&mut self, res: i32)
        ensures
            final(self).stage() == stage_after_setup(old(self).stage(), res),
    {
        if let SetupStage::Pending = self.stage {
            self.stage = match LibraryState::new(res) {
                Some(_) => SetupStage::Ready,
                None => SetupStage::Failed,
            };
        }
    }

    /// Whether a session may be created now: only while the engine is set
    /// up. Else the permanent failure is reported, each time the same.
    pub fn initialize(&self) -> (r: SshResult<()>)
        ensures
            crate::error::status_view(r) == if self.stage() == SetupStage::Ready {
                Ok::<(), ErrorView>(())
            } else {
                Err::<(), ErrorView>(ErrorView::Fatal(setup_failed_reason()))
            },
    {
        if let SetupStage::Ready = self.stage {
            Ok(())
        } else {
            Err(Error::fatal("engine initialization failed"))
        }
    }

    /// Ends the guard's watch at the end of the process. The result says whether
    /// the engine is to be torn down now: it is if it was set up, and then
    /// never again. No session can be created afterwards.
    pub fn teardown(&mut self) -> (finalize: bool)
        ensures
            finalize == (old(self).stage() == SetupStage::Ready),
            final(self).stage() == if old(self).stage() == SetupStage::Ready {
                SetupStage::TornDown
            } else {
                old(self).stage()
            },
    {
        if let SetupStage::Ready = self.stage {
            self.stage = SetupStage::TornDown;
            true
        } else {
            false
        }
    }
}

/// The engine is set up at most once: whatever is reported and however
/// often, the first report decides the stage, and the guard asks for no
/// further attempt.
pub proof fn lemma_first_setup_decides(results: Seq<i32>)
    requires
        results.len() > 0,
    ensures
        stage_after_setups(SetupStage::Pending, results) == stage_after_setup(
            SetupStage::Pending,
            results[0],
        ),
        stage_after_setups(SetupStage::Pending, results) != SetupStage::Pending,
{
    lemma_settled_stage_stays(stage_after_setup(SetupStage::Pending, results[0]), results.drop_first());
}

/// A stage other than `Pending` is not changed by any report.
pub proof fn lemma_settled_stage_stays(stage: SetupStage, results: Seq<i32>)
    requires
        stage != SetupStage::Pending,
    ensures
        stage_after_setups(stage, results) == stage,
    decreases results.len(),
{
    if results.len() > 0 {
        lemma_settled_stage_stays(stage, results.drop_first());
    }
}

} // verus!
