//! Negotiation of the output's buffer modifiers for a copy that runs on the output's own GPU.
//!
//! Native outputs keep their ordinary formats. Nothing here waits: the capabilities of the copy
//! engine are polled, and a decision stands until the engine, the format or the extent changes.

use std::time::Duration;

use vstd::prelude::*;

use crate::text::first_of;

verus! {

/// The code of the format with four channels of eight bits, alpha first.
pub const ABGR8888: u32 = 0x34324241;

/// The code of the format with three channels of ten bits and two bits of alpha, alpha first.
pub const ABGR2101010: u32 = 0x30334241;

/// A pixel format, by its DRM code.
#[derive(Debug, Clone, Copy, PartialEq, Eq, Structural)]
pub struct Fourcc {
    pub code: u32,
}

/// The extent of a buffer, in pixels.
#[derive(Debug, Clone, Copy, PartialEq, Eq, Structural)]
pub struct Size {
    pub w: i32,
    pub h: i32,
}

/// A format with one of its layouts, by the DRM codes of both.
#[derive(Debug, Clone, Copy, PartialEq, Eq, Structural)]
pub struct FormatModifier {
    pub format: Fourcc,
    pub modifier: u64,
}

/// What a negotiation was about.
#[derive(Debug, Clone, Copy, PartialEq, Eq, Structural)]
pub struct Decision {
    /// The generation of the copy engine. Each generation has a number of its own.
    pub generation: u64,
    pub format: Fourcc,
    pub size: Size,
}

/// What is remembered of an output's negotiation. No buffer is owned here.
pub struct TransferFormats {
    /// The last negotiation that came to a result, good or bad.
    pub decision: Option<Decision>,
    /// The format and the modifiers from before a negotiated change.
    pub fallback: Option<(Fourcc, Vec<u64>)>,
    /// Whether the fallback is to be restored as soon as the surface allows it.
    pub restore_pending: bool,
    /// Whether a late redraw was asked for since the last negotiated change.
    pub retry_scheduled: bool,
}

/// The content of `TransferFormats`.
pub struct TransferFormatsView {
    pub decision: Option<Decision>,
    pub fallback: Option<(Fourcc, Seq<u64>)>,
    pub restore_pending: bool,
    pub retry_scheduled: bool,
}

impl View for TransferFormats {
    type V = TransferFormatsView;

    open spec fn view(&self) -> TransferFormatsView {
        TransferFormatsView {
            decision: self.decision,
            fallback: match self.fallback {
                Some((format, modifiers)) => Some((format, modifiers@)),
                None => None,
            },
            restore_pending: self.restore_pending,
            retry_scheduled: self.retry_scheduled,
        }
    }
}

/// What a surface is like at the moment.
#[derive(Debug, Clone, Copy, PartialEq, Eq, Structural)]
pub struct SurfaceFacts {
    pub format: Fourcc,
    /// Whether it is driven without atomic requests.
    pub legacy: bool,
    /// Whether a change of mode, connector or refresh policy is under way.
    pub commit_pending: bool,
}

/// What a restoration needs.
#[derive(Debug)]
pub enum RestoreStep {
    /// Nothing: it is done, or nothing was pending.
    Settled,
    /// A stable atomic surface, later.
    Unstable,
    /// A change of the swapchain.
    SetFormat(Fourcc, Vec<u64>),
}

/// The content of `RestoreStep`.
pub enum RestoreStepView {
    Settled,
    Unstable,
    SetFormat(Fourcc, Seq<u64>),
}

impl View for RestoreStep {
    type V = RestoreStepView;

    open spec fn view(&self) -> RestoreStepView {
        match self {
            RestoreStep::Settled => RestoreStepView::Settled,
            RestoreStep::Unstable => RestoreStepView::Unstable,
            RestoreStep::SetFormat(format, modifiers) => RestoreStepView::SetFormat(
                *format,
                modifiers@,
            ),
        }
    }
}

/// What a rollback needs.
#[derive(Debug)]
pub enum RollbackStep {
    /// Nothing more; a redraw after the delay, if there is one.
    Done(Option<Duration>),
    /// A change of the swapchain, whose outcome is reported back.
    SetFormat(Fourcc, Vec<u64>),
}

/// The content of `RollbackStep`, with the delay in nanoseconds.
pub enum RollbackStepView {
    Done(Option<nat>),
    SetFormat(Fourcc, Seq<u64>),
}

impl View for RollbackStep {
    type V = RollbackStepView;

    open spec fn view(&self) -> RollbackStepView {
        match self {
            RollbackStep::Done(delay) => RollbackStepView::Done(delay_nanos(*delay)),
            RollbackStep::SetFormat(format, modifiers) => RollbackStepView::SetFormat(
                *format,
                modifiers@,
            ),
        }
    }
}

/// A delay in nanoseconds.
pub open spec fn delay_nanos(delay: Option<Duration>) -> Option<nat> {
    match delay {
        Some(delay) => Some(crate::time::duration_nanos(delay)),
        None => None,
    }
}

/// The delay of the redraw after a rollback that is done: a millisecond.
pub open spec fn restored_delay() -> Option<nat> {
    Some(1_000_000)
}

/// The delay of the one retry after a rollback that could not be done: a tenth of a second.
pub open spec fn retry_delay() -> Option<nat> {
    Some(100_000_000)
}

impl TransferFormatsView {
    /// An output on which nothing was negotiated.
    pub open spec fn untouched() -> Self {
        TransferFormatsView {
            decision: None,
            fallback: None,
            restore_pending: false,
            retry_scheduled: false,
        }
    }

    /// What a restoration needs, and what is remembered from then on. A format that changed in
    /// the meantime supersedes the restoration, and opens the negotiation again.
    pub open spec fn restoring(self, surface: SurfaceFacts) -> (Self, RestoreStepView) {
        if !self.restore_pending {
            (self, RestoreStepView::Settled)
        } else {
            match self.fallback {
                None => (
                    TransferFormatsView { restore_pending: false, ..self },
                    RestoreStepView::Settled,
                ),
                Some((format, modifiers)) => if surface.format != format {
                    (
                        TransferFormatsView {
                            decision: None,
                            fallback: None,
                            restore_pending: false,
                            ..self
                        },
                        RestoreStepView::Settled,
                    )
                } else if surface.legacy || surface.commit_pending {
                    (self, RestoreStepView::Unstable)
                } else {
                    (self, RestoreStepView::SetFormat(format, modifiers))
                },
            }
        }
    }

    /// What is remembered once the swapchain took the saved modifiers, or refused them. A refusal
    /// keeps the fallback for a later attempt.
    pub open spec fn restored(self, accepted: bool) -> Self {
        if accepted {
            TransferFormatsView { fallback: None, restore_pending: false, ..self }
        } else {
            self
        }
    }

    /// What follows a rollback that could not be done: one late retry, and no second one before
    /// the next negotiated change.
    pub open spec fn retrying(self) -> (Self, Option<nat>) {
        if self.retry_scheduled {
            (self, None)
        } else {
            (TransferFormatsView { retry_scheduled: true, ..self }, retry_delay())
        }
    }

    /// What a rollback needs, and what is remembered from then on. The decision is kept, so that
    /// a refused change is not tried again, unless another format superseded it.
    pub open spec fn rolling_back(self, surface: SurfaceFacts) -> (Self, RollbackStepView) {
        if self.fallback is None {
            (self, RollbackStepView::Done(None))
        } else {
            let (next, step) = (TransferFormatsView { restore_pending: true, ..self }).restoring(
                surface,
            );
            match step {
                RestoreStepView::Settled => (next, RollbackStepView::Done(restored_delay())),
                RestoreStepView::Unstable => (
                    next.retrying().0,
                    RollbackStepView::Done(next.retrying().1),
                ),
                RestoreStepView::SetFormat(format, modifiers) => (
                    next,
                    RollbackStepView::SetFormat(format, modifiers),
                ),
            }
        }
    }

    /// What follows a rollback once the swapchain answered.
    pub open spec fn rolled_back(self, accepted: bool) -> (Self, Option<nat>) {
        if accepted {
            (self.restored(true), restored_delay())
        } else {
            self.retrying()
        }
    }

    /// What is remembered once the swapchain took negotiated modifiers. The modifiers from
    /// before the first change of a format stay the fallback.
    pub open spec fn negotiated(self, format: Fourcc, previous: Seq<u64>) -> Self {
        TransferFormatsView {
            fallback: match self.fallback {
                Some((saved, modifiers)) if saved == format => Some((saved, modifiers)),
                _ => Some((format, previous)),
            },
            restore_pending: false,
            retry_scheduled: false,
            ..self
        }
    }
}

fn copy_modifiers(modifiers: &Vec<u64>) -> (copy: Vec<u64>)
    ensures
        copy@ == modifiers@,
{
    let copy = modifiers.clone();
    assert(copy@ =~= modifiers@);
    copy
}

impl Default for TransferFormats {
    /// An output on which nothing was negotiated.
    fn default() -> (formats: Self)
        ensures
            formats@ == TransferFormatsView::untouched(),
    {
        TransferFormats {
            decision: None,
            fallback: None,
            restore_pending: false,
            retry_scheduled: false,
        }
    }
}

impl TransferFormats {
    /// Whether the last negotiation was about this generation of the engine, this format and
    /// this extent.
    pub fn matches(&self, generation: u64, format: Fourcc, size: Size) -> (same: bool)
        ensures
            same == (self@.decision == Some(Decision { generation, format, size })),
    {
        match &self.decision {
            Some(decision) => decision.generation == generation && decision.format == format
                && decision.size == size,
            None => false,
        }
    }

    /// Starts to restore the saved modifiers, where that is pending.
    pub fn try_restore(&mut self, surface: &SurfaceFacts) -> (step: RestoreStep)
        ensures
            (final(self)@, step@) == old(self)@.restoring(*surface),
    {
        if !self.restore_pending {
            return RestoreStep::Settled;
        }
        let (format, modifiers) = match &self.fallback {
            Some((format, modifiers)) => (*format, copy_modifiers(modifiers)),
            None => {
                self.restore_pending = false;
                return RestoreStep::Settled;
            },
        };
        if surface.format != format {
            self.fallback = None;
            self.restore_pending = false;
            self.decision = None;
            return RestoreStep::Settled;
        }
        if surface.legacy || surface.commit_pending {
            return RestoreStep::Unstable;
        }
        RestoreStep::SetFormat(format, modifiers)
    }

    /// Reports whether the swapchain took the saved modifiers.
    pub fn finish_restore(&mut self, accepted: bool)
        ensures
            final(self)@ == old(self)@.restored(accepted),
    {
        if accepted {
            self.fallback = None;
            self.restore_pending = false;
        }
    }

    fn retry_once(&mut self) -> (delay: Option<Duration>)
        ensures
            (final(self)@, delay_nanos(delay)) == old(self)@.retrying(),
    {
        if self.retry_scheduled {
            None
        } else {
            self.retry_scheduled = true;
            Some(Duration::from_millis(100))
        }
    }

    /// Starts to go back to the saved modifiers after a frame could not be rendered or queued.
    pub fn rollback(&mut self, surface: &SurfaceFacts) -> (step: RollbackStep)
        ensures
            (final(self)@, step@) == old(self)@.rolling_back(*surface),
    {
        if self.fallback.is_none() {
            return RollbackStep::Done(None);
        }
        self.restore_pending = true;
        match self.try_restore(surface) {
            RestoreStep::Settled => RollbackStep::Done(Some(Duration::from_millis(1))),
            RestoreStep::Unstable => RollbackStep::Done(self.retry_once()),
            RestoreStep::SetFormat(format, modifiers) => RollbackStep::SetFormat(format, modifiers),
        }
    }

    /// Reports whether the swapchain took the saved modifiers, and returns the delay of the
    /// redraw that follows.
    pub fn finish_rollback(&mut self, accepted: bool) -> (delay: Option<Duration>)
        ensures
            (final(self)@, delay_nanos(delay)) == old(self)@.rolled_back(accepted),
    {
        if accepted {
            self.finish_restore(true);
            Some(Duration::from_millis(1))
        } else {
            self.retry_once()
        }
    }
}

/// Whether the redraw that a rollback asked for is still due once its delay is over: the output
/// may have been unplugged in the meantime.
pub fn recovery_redraw(outputs: &Vec<String>, output: &str) -> (redraw: bool)
    ensures
        redraw == crate::text::is_listed(outputs@, output@),
{
    first_of(outputs, output).is_some()
}

impl TransferFormatsView {
    /// What holds at all times: a restoration is pending only for saved modifiers.
    pub open spec fn is_consistent(self) -> bool {
        self.restore_pending ==> self.fallback is Some
    }
}

/// Every operation keeps a pending restoration tied to saved modifiers.
pub proof fn law_pending_restoration_has_a_fallback(
    formats: TransferFormatsView,
    surface: SurfaceFacts,
    accepted: bool,
    format: Fourcc,
    previous: Seq<u64>,
)
    requires
        formats.is_consistent(),
    ensures
        TransferFormatsView::untouched().is_consistent(),
        formats.restoring(surface).0.is_consistent(),
        formats.restored(accepted).is_consistent(),
        formats.rolling_back(surface).0.is_consistent(),
        formats.rolled_back(accepted).0.is_consistent(),
        formats.negotiated(format, previous).is_consistent(),
{
}

/// A rollback happens once. Whether the swapchain took the saved modifiers or another format
/// superseded them, it asks for the early redraw and uses the fallback up: after it, another
/// rollback neither asks for anything nor changes anything.
pub proof fn law_rollback_is_one_shot(
    formats: TransferFormatsView,
    surface: SurfaceFacts,
    later: SurfaceFacts,
)
    ensures
        formats.rolled_back(true).1 == restored_delay(),
        formats.rolled_back(true).0.rolling_back(later) == (
            formats.rolled_back(true).0,
            RollbackStepView::Done(None),
        ),
        (formats.fallback matches Some((format, _)) && format != surface.format) ==> {
            let superseded = formats.rolling_back(surface);
            &&& superseded.1 == RollbackStepView::Done(restored_delay())
            &&& superseded.0.rolling_back(later) == (superseded.0, RollbackStepView::Done(None))
        },
{
}

/// A rollback that could not be done keeps its fallback and its decision, and stays pending
/// where it was.
pub proof fn law_failed_rollback_keeps_its_fallback(formats: TransferFormatsView)
    ensures
        formats.rolled_back(false).0.fallback == formats.fallback,
        formats.rolled_back(false).0.decision == formats.decision,
        formats.rolled_back(false).0.restore_pending == formats.restore_pending,
{
}

impl TransferFormatsView {
    /// Whether a rollback has to wait for a surface.
    pub open spec fn must_wait(self, surface: SurfaceFacts) -> bool {
        &&& self.fallback matches Some((format, _)) && format == surface.format
        &&& surface.legacy || surface.commit_pending
    }
}

/// Failed rollbacks ask for one late redraw. A rollback fails where the swapchain refuses, or
/// where it has to wait for the surface. The first failure of either kind asks for the redraw;
/// once it was asked for, no failure of either kind asks again, and nothing but a negotiated
/// change makes way for another.
pub proof fn law_one_late_retry(
    formats: TransferFormatsView,
    surface: SurfaceFacts,
    accepted: bool,
    format: Fourcc,
    previous: Seq<u64>,
)
    ensures
        !formats.retry_scheduled ==> formats.rolled_back(false).1 == retry_delay(),
        !formats.retry_scheduled && formats.must_wait(surface) ==> formats.rolling_back(surface).1
            == RollbackStepView::Done(retry_delay()),
        formats.rolled_back(false).0.retry_scheduled,
        formats.must_wait(surface) ==> formats.rolling_back(surface).0.retry_scheduled,
        formats.retry_scheduled ==> {
            &&& formats.rolled_back(false) == (formats, None::<nat>)
            &&& formats.must_wait(surface) ==> formats.rolling_back(surface).1
                == RollbackStepView::Done(None)
            &&& formats.restoring(surface).0.retry_scheduled
            &&& formats.restored(accepted).retry_scheduled
            &&& formats.rolling_back(surface).0.retry_scheduled
            &&& formats.rolled_back(accepted).0.retry_scheduled
        },
        !formats.negotiated(format, previous).retry_scheduled,
{
}

/// A format that changed on its own supersedes the recovery: the fallback goes, and so does the
/// decision, so that the next redraw negotiates again.
pub proof fn law_changed_format_supersedes_recovery(
    formats: TransferFormatsView,
    surface: SurfaceFacts,
)
    requires
        formats.fallback matches Some((format, _)) && format != surface.format,
    ensures
        formats.rolling_back(surface).0 == (TransferFormatsView {
            decision: None,
            fallback: None,
            restore_pending: false,
            ..formats
        }),
{
}

impl TransferFormatsView {
    /// What is remembered after changes of one format, each with the modifiers from before it.
    pub open spec fn negotiated_all(self, format: Fourcc, previous: Seq<Seq<u64>>) -> Self
        decreases previous.len(),
    {
        if previous.len() == 0 {
            self
        } else {
            self.negotiated_all(format, previous.drop_last()).negotiated(format, previous.last())
        }
    }
}

/// The modifiers from before the first change of a format are the ones that a rollback returns
/// to, however often the format is negotiated again.
pub proof fn law_first_modifiers_are_restored(
    formats: TransferFormatsView,
    format: Fourcc,
    previous: Seq<Seq<u64>>,
    surface: SurfaceFacts,
)
    requires
        formats.fallback is None,
        previous.len() > 0,
        surface.format == format,
        !surface.legacy,
        !surface.commit_pending,
    ensures
        formats.negotiated_all(format, previous).fallback == Some((format, previous.first())),
        formats.negotiated_all(format, previous).rolling_back(surface).1 == RollbackStepView::SetFormat(
            format,
            previous.first(),
        ),
    decreases previous.len(),
{
    if previous.len() > 1 {
        law_first_modifiers_are_restored(formats, format, previous.drop_last(), surface);
    } else {
        reveal_with_fuel(TransferFormatsView::negotiated_all, 2);
    }
}

/// A restoration asks for exactly the saved format and modifiers, where it is pending, the format
/// is still the saved one, and the surface is atomic and stable. It waits on any other surface of
/// that format, with nothing forgotten; where nothing is pending it does nothing; and where another
/// format took over, it forgets the saved modifiers and the decision.
pub proof fn law_restorations(
    formats: TransferFormatsView,
    surface: SurfaceFacts,
    format: Fourcc,
    modifiers: Seq<u64>,
)
    ensures
        ({
            let (next, step) = formats.restoring(surface);
            let due = formats.restore_pending && formats.fallback == Some((format, modifiers));
            let stable = !surface.legacy && !surface.commit_pending;
            &&& !formats.restore_pending ==> next == formats && step == RestoreStepView::Settled
            &&& step == RestoreStepView::SetFormat(format, modifiers) <==> due && surface.format
                == format && stable
            &&& due && surface.format == format ==> next == formats
            &&& due && surface.format == format && !stable ==> step == RestoreStepView::Unstable
            &&& due && surface.format != format ==> {
                &&& step == RestoreStepView::Settled
                &&& next.decision is None
                &&& next.fallback is None
                &&& !next.restore_pending
                &&& next.retry_scheduled == formats.retry_scheduled
            }
            &&& formats.restore_pending && formats.fallback is None ==> {
                &&& step == RestoreStepView::Settled
                &&& !next.restore_pending
                &&& next.decision == formats.decision
                &&& next.retry_scheduled == formats.retry_scheduled
            }
        }),
{
}

/// A swapchain that took the saved modifiers uses them up, and keeps the decision, so that the
/// change is not tried again; one that refused them leaves everything as it was.
pub proof fn law_restored_swapchains(formats: TransferFormatsView)
    ensures
        ({
            let taken = formats.restored(true);
            &&& taken.fallback is None
            &&& !taken.restore_pending
            &&& taken.decision == formats.decision
            &&& taken.retry_scheduled == formats.retry_scheduled
        }),
        formats.restored(false) == formats,
        formats.rolled_back(true).0 == formats.restored(true),
{
}

/// A rollback without saved modifiers does nothing. With them it is pending from then on, keeps
/// the decision and the saved modifiers, and asks for these at once on a stable atomic surface of
/// their format.
pub proof fn law_rollbacks(
    formats: TransferFormatsView,
    surface: SurfaceFacts,
    format: Fourcc,
    modifiers: Seq<u64>,
)
    ensures
        formats.fallback is None ==> formats.rolling_back(surface) == (
            formats,
            RollbackStepView::Done(None),
        ),
        formats.fallback == Some((format, modifiers)) && surface.format == format ==> {
            let (next, step) = formats.rolling_back(surface);
            &&& next.restore_pending
            &&& next.fallback == formats.fallback
            &&& next.decision == formats.decision
            &&& !surface.legacy && !surface.commit_pending ==> step == RollbackStepView::SetFormat(
                format,
                modifiers,
            ) && next.retry_scheduled == formats.retry_scheduled
        },
{
}

/// A negotiated change saves the modifiers from before it, unless some of its own format are saved
/// already; it settles what was pending, makes way for another retry, and keeps the decision.
pub proof fn law_negotiated_changes(
    formats: TransferFormatsView,
    format: Fourcc,
    previous: Seq<u64>,
)
    ensures
        ({
            let next = formats.negotiated(format, previous);
            &&& (formats.fallback matches Some(saved) && saved.0 == format) ==> next.fallback
                == formats.fallback
            &&& !(formats.fallback matches Some(saved) && saved.0 == format) ==> next.fallback == Some(
                (format, previous),
            )
            &&& !next.restore_pending
            &&& !next.retry_scheduled
            &&& next.decision == formats.decision
        }),
{
}

} // verus!
