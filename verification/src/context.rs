//! Rendering-context acquisition as a finite state machine.
//!
//! Obtaining a usable GPU surface is platform work this library cannot
//! do; what it can do is decide, and that decision is verified here: the
//! ordered list of strategies to try, how a failure advances to the next
//! strategy, and when the cascade ends in success or in `ContextError`.
//! The caller runs the loop: it asks for the current strategy, attempts
//! it, and reports the outcome.

use crate::error::Error;
use vstd::prelude::*;

verus! {

/// One way of obtaining a rendering context, fastest first.
#[derive(Clone, Copy, Debug, PartialEq, Eq, Structural)]
pub enum ContextStrategy {
    /// A visible window, used only when one was requested.
    Windowed,
    /// A GPU context with neither window nor pixel surface bound.
    Surfaceless,
    /// An off-screen GPU context with an explicit pixel buffer.
    OffscreenBuffer,
    /// A software-rasterizer context, needing no display server.
    SoftwareRasterizer,
    /// A normal windowed context with visibility forced off.
    HiddenWindow,
}

/// The ordered strategies for one invocation.  A requested visible window
/// is a single attempt with no fallback.  Headless operation tries the
/// surfaceless context, the off-screen buffer, the software rasterizer and
/// at last a hidden window; where no display server is reachable, the
/// strategies that need one are skipped.
pub open spec fn plan_spec(visible: bool, display_reachable: bool) -> Seq<ContextStrategy> {
    if visible {
        seq![ContextStrategy::Windowed]
    } else if display_reachable {
        seq![
            ContextStrategy::Surfaceless,
            ContextStrategy::OffscreenBuffer,
            ContextStrategy::SoftwareRasterizer,
            ContextStrategy::HiddenWindow,
        ]
    } else {
        seq![ContextStrategy::SoftwareRasterizer, ContextStrategy::HiddenWindow]
    }
}

/// The mathematical state of a [`ContextCascade`].
pub ghost struct CascadeView {
    pub plan: Seq<ContextStrategy>,
    pub next: int,
    pub chosen: Option<ContextStrategy>,
}

impl CascadeView {
    /// The position never runs past the plan, and a choice is only ever
    /// the strategy that was current when success was reported.
    pub open spec fn wf(self) -> bool {
        0 <= self.next <= self.plan.len()
    }
}

/// The cascade before any attempt.
pub open spec fn cascade_init(visible: bool, display_reachable: bool) -> CascadeView {
    CascadeView { plan: plan_spec(visible, display_reachable), next: 0, chosen: None }
}

/// The strategy to attempt now: none once one has succeeded or all have
/// failed.
pub open spec fn cascade_current(s: CascadeView) -> Option<ContextStrategy> {
    if s.chosen is Some {
        None
    } else if s.next < s.plan.len() {
        Some(s.plan[s.next])
    } else {
        None
    }
}

/// A failed attempt advances to the next strategy.
pub open spec fn cascade_fail(s: CascadeView) -> CascadeView {
    CascadeView { plan: s.plan, next: s.next + 1, chosen: s.chosen }
}

/// A successful attempt fixes the current strategy; nothing further is
/// attempted.
pub open spec fn cascade_succeed(s: CascadeView) -> CascadeView {
    CascadeView { plan: s.plan, next: s.next, chosen: Some(s.plan[s.next]) }
}

/// What the finished cascade yields: the chosen strategy, or
/// `ContextError` when every strategy failed.
pub open spec fn cascade_outcome_spec(s: CascadeView) -> Result<ContextStrategy, Error> {
    match s.chosen {
        Some(c) => Ok(c),
        None => Err(Error::ContextError),
    }
}

/// The ordered fallback over context-acquisition strategies.
pub struct ContextCascade {
    pub strategies: Vec<ContextStrategy>,
    pub next: usize,
    pub chosen: Option<ContextStrategy>,
}

impl View for ContextCascade {
    type V = CascadeView;

    open spec fn view(&self) -> CascadeView {
        CascadeView { plan: self.strategies@, next: self.next as int, chosen: self.chosen }
    }
}

impl ContextCascade {
    /// Start the cascade for one invocation.
    pub fn new(visible: bool, display_reachable: bool) -> (c: Self)
        ensures
            c@ == cascade_init(visible, display_reachable),
            c@.wf(),
    {
        let mut strategies: Vec<ContextStrategy> = Vec::new();
        if visible {
            strategies.push(ContextStrategy::Windowed);
            proof {
                assert(strategies@ =~= plan_spec(visible, display_reachable));
            }
        } else if display_reachable {
            strategies.push(ContextStrategy::Surfaceless);
            strategies.push(ContextStrategy::OffscreenBuffer);
            strategies.push(ContextStrategy::SoftwareRasterizer);
            strategies.push(ContextStrategy::HiddenWindow);
            proof {
                assert(strategies@ =~= plan_spec(visible, display_reachable));
            }
        } else {
            strategies.push(ContextStrategy::SoftwareRasterizer);
            strategies.push(ContextStrategy::HiddenWindow);
            proof {
                assert(strategies@ =~= plan_spec(visible, display_reachable));
            }
        }
        ContextCascade { strategies, next: 0, chosen: None }
    }

    /// The strategy to attempt now, or `None` when the cascade is over.
    pub fn current(&self) -> (r: Option<ContextStrategy>)
        requires
            self@.wf(),
        ensures
            r == cascade_current(self@),
    {
        if self.chosen.is_some() {
            None
        } else if self.next < self.strategies.len() {
            Some(self.strategies[self.next])
        } else {
            None
        }
    }

    /// Report that the current strategy failed; the cascade advances.
    pub fn report_failure(&mut self)
        requires
            old(self)@.wf(),
            cascade_current(old(self)@) is Some,
        ensures
            final(self)@ == cascade_fail(old(self)@),
            final(self)@.wf(),
    {
        let n = self.strategies.len();
        proof {
            assert(self.next < n);
        }
        self.next = self.next + 1;
    }

    /// Report that the current strategy succeeded; no further strategy
    /// will be attempted.
    pub fn report_success(&mut self)
        requires
            old(self)@.wf(),
            cascade_current(old(self)@) is Some,
        ensures
            final(self)@ == cascade_succeed(old(self)@),
            final(self)@.wf(),
    {
        self.chosen = Some(self.strategies[self.next]);
    }

    /// The result once the cascade is over: the strategy that succeeded,
    /// or `ContextError` after total exhaustion.
    pub fn outcome(&self) -> (r: Result<ContextStrategy, Error>)
        requires
            self@.wf(),
            cascade_current(self@) is None,
        ensures
            r == cascade_outcome_spec(self@),
            r is Err <==> self@.chosen is None,
    {
        match self.chosen {
            Some(c) => Ok(c),
            None => Err(Error::ContextError),
        }
    }
}

/// After the surfaceless and the off-screen-buffer strategies fail, the
/// software rasterizer is the strategy attempted next; once it succeeds,
/// no further strategy is attempted and it is the cascade's outcome.
pub proof fn lemma_third_strategy_after_two_failures()
    ensures
        ({
            let s2 = cascade_fail(cascade_fail(cascade_init(false, true)));
            cascade_current(s2) == Some(ContextStrategy::SoftwareRasterizer)
                && cascade_current(cascade_succeed(s2)) is None && cascade_outcome_spec(
                cascade_succeed(s2),
            ) == Ok::<ContextStrategy, Error>(ContextStrategy::SoftwareRasterizer)
        }),
{
}

/// Exhausting every headless strategy surfaces `ContextError`.
pub proof fn lemma_exhaustion_is_context_error()
    ensures
        ({
            let s = cascade_fail(
                cascade_fail(cascade_fail(cascade_fail(cascade_init(false, true)))),
            );
            cascade_current(s) is None && cascade_outcome_spec(s) == Err::<
                ContextStrategy,
                Error,
            >(Error::ContextError)
        }),
{
}

} // verus!
