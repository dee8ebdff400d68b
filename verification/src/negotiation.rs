//! One round of negotiation for an output, question by question.
//!
//! The compositor asks what to do next, does it, and reports the answer. Each round starts
//! afresh on a redraw; only `TransferFormats` lives on.

use vstd::prelude::*;

use crate::bridge_config::VulkanCopyDevice;
use crate::transfer_formats::{
    Decision, FormatModifier, Fourcc, RestoreStep, Size, SurfaceFacts, TransferFormats,
};

verus! {

/// The policy under which a round runs.
#[derive(Debug, Clone, Copy, PartialEq, Eq, Structural)]
pub struct TransferPolicy {
    pub direct_target: bool,
    pub copy_device: VulkanCopyDevice,
    /// The device number of the node that renders the scene.
    pub primary_render_node: u64,
}

/// What the device of an output is like at the moment.
#[derive(Debug, Clone, Copy, PartialEq, Eq, Structural)]
pub struct DeviceFacts {
    /// The device number of its render node, if it has one.
    pub render_node: Option<u64>,
    pub active: bool,
    pub atomic: bool,
    /// The surface of the output, if it has one.
    pub surface: Option<SurfaceFacts>,
}

/// Why a round ended without an answer to its question.
#[derive(Debug, Clone, Copy, PartialEq, Eq, Structural)]
pub enum UpdateError {
    /// The surface was not stable enough to restore the saved modifiers.
    RestoreUnstable,
    /// The swapchain refused the saved modifiers.
    RestoreRefused,
    /// The copy engine could not be asked for its modifiers.
    QueryFailed,
    /// The renderer of the output could not be acquired.
    RendererFailed,
}

/// What the compositor is asked to do.
#[derive(Debug)]
pub enum UpdateAction {
    /// Read the generation of the engine, the format and the mode of the surface.
    ReadMode,
    /// Ask the engine for the modifiers that it can write.
    QueryModifiers(Fourcc, Size),
    /// Acquire the renderer of the output, and read its formats and the current modifiers.
    AcquireRenderer,
    /// Replace the swapchain.
    SetFormat(Fourcc, Vec<u64>),
    /// Nothing more. A round without an error leaves a working swapchain, changed or not.
    Finish(Result<(), UpdateError>),
}

/// What the compositor reports.
#[derive(Debug)]
pub enum UpdateAnswer {
    /// The policy, and the device of the output if it is still there.
    Facts(TransferPolicy, Option<DeviceFacts>),
    /// The generation of the engine, the format, and the mode of the surface.
    Mode(u64, Fourcc, u16, u16),
    /// The engine could not be asked.
    QueryFailed,
    /// The engine is still being set up.
    QueryPending,
    /// The generation of the engine, and the modifiers that it can write.
    Modifiers(u64, Vec<u64>),
    /// The renderer could not be acquired.
    RendererFailed,
    /// What the renderer can draw to.
    Renderer(RendererFacts),
    /// Whether the swapchain took the modifiers.
    FormatSet(bool),
}

/// What the renderer of an output can draw to.
#[derive(Debug)]
pub struct RendererFacts {
    /// The generation of the engine, read again after the renderer was acquired.
    pub generation: u64,
    pub formats: Vec<FormatModifier>,
    /// The modifiers that compress colour. They are not used.
    pub compressed: Vec<u64>,
    /// The modifiers of the current swapchain.
    pub current: Vec<u64>,
}

/// Where a round stands.
#[derive(Debug)]
pub enum UpdatePhase {
    Starting,
    Restoring,
    Measuring,
    Querying(Fourcc, Size),
    Acquiring(Decision, Vec<u64>),
    Applying(Fourcc, Vec<u64>),
    Ended,
}

/// One round.
#[derive(Debug)]
pub struct Update {
    pub phase: UpdatePhase,
}

/// The content of `UpdateAction`.
pub enum UpdateActionView {
    ReadMode,
    QueryModifiers(Fourcc, Size),
    AcquireRenderer,
    SetFormat(Fourcc, Seq<u64>),
    Finish(Result<(), UpdateError>),
}

/// The content of `RendererFacts`.
pub struct RendererFactsView {
    pub generation: u64,
    pub formats: Seq<FormatModifier>,
    pub compressed: Seq<u64>,
    pub current: Seq<u64>,
}

/// The content of `UpdateAnswer`.
pub enum UpdateAnswerView {
    Facts(TransferPolicy, Option<DeviceFacts>),
    Mode(u64, Fourcc, u16, u16),
    QueryFailed,
    QueryPending,
    Modifiers(u64, Seq<u64>),
    RendererFailed,
    Renderer(RendererFactsView),
    FormatSet(bool),
}

/// The content of `UpdatePhase`.
pub enum UpdatePhaseView {
    Starting,
    Restoring,
    Measuring,
    Querying(Fourcc, Size),
    Acquiring(Decision, Seq<u64>),
    Applying(Fourcc, Seq<u64>),
    Ended,
}

impl View for UpdateAction {
    type V = UpdateActionView;

    open spec fn view(&self) -> UpdateActionView {
        match self {
            UpdateAction::ReadMode => UpdateActionView::ReadMode,
            UpdateAction::QueryModifiers(format, size) => UpdateActionView::QueryModifiers(
                *format,
                *size,
            ),
            UpdateAction::AcquireRenderer => UpdateActionView::AcquireRenderer,
            UpdateAction::SetFormat(format, modifiers) => UpdateActionView::SetFormat(
                *format,
                modifiers@,
            ),
            UpdateAction::Finish(result) => UpdateActionView::Finish(*result),
        }
    }
}

impl View for RendererFacts {
    type V = RendererFactsView;

    open spec fn view(&self) -> RendererFactsView {
        RendererFactsView {
            generation: self.generation,
            formats: self.formats@,
            compressed: self.compressed@,
            current: self.current@,
        }
    }
}

impl View for UpdateAnswer {
    type V = UpdateAnswerView;

    open spec fn view(&self) -> UpdateAnswerView {
        match self {
            UpdateAnswer::Facts(policy, device) => UpdateAnswerView::Facts(*policy, *device),
            UpdateAnswer::Mode(generation, format, width, height) => UpdateAnswerView::Mode(
                *generation,
                *format,
                *width,
                *height,
            ),
            UpdateAnswer::QueryFailed => UpdateAnswerView::QueryFailed,
            UpdateAnswer::QueryPending => UpdateAnswerView::QueryPending,
            UpdateAnswer::Modifiers(generation, modifiers) => UpdateAnswerView::Modifiers(
                *generation,
                modifiers@,
            ),
            UpdateAnswer::RendererFailed => UpdateAnswerView::RendererFailed,
            UpdateAnswer::Renderer(facts) => UpdateAnswerView::Renderer(facts@),
            UpdateAnswer::FormatSet(accepted) => UpdateAnswerView::FormatSet(*accepted),
        }
    }
}

impl View for UpdatePhase {
    type V = UpdatePhaseView;

    open spec fn view(&self) -> UpdatePhaseView {
        match self {
            UpdatePhase::Starting => UpdatePhaseView::Starting,
            UpdatePhase::Restoring => UpdatePhaseView::Restoring,
            UpdatePhase::Measuring => UpdatePhaseView::Measuring,
            UpdatePhase::Querying(format, size) => UpdatePhaseView::Querying(*format, *size),
            UpdatePhase::Acquiring(decision, offered) => UpdatePhaseView::Acquiring(
                *decision,
                offered@,
            ),
            UpdatePhase::Applying(format, previous) => UpdatePhaseView::Applying(*format, previous@),
            UpdatePhase::Ended => UpdatePhaseView::Ended,
        }
    }
}

/// Whether an output takes part: the policy wants the copy on the output's GPU, the output has
/// a GPU of its own, and its surface is atomic and stable.
pub open spec fn takes_part(policy: TransferPolicy, device: Option<DeviceFacts>) -> bool {
    &&& policy.direct_target
    &&& policy.copy_device == VulkanCopyDevice::Target
    &&& device matches Some(device) && {
        &&& device.render_node matches Some(target) && target != policy.primary_render_node
        &&& device.active
        &&& device.atomic
        &&& device.surface matches Some(surface) && !surface.legacy && !surface.commit_pending
    }
}

/// Whether a modifier can be used: the renderer can draw to it, and it does not compress.
pub open spec fn is_usable(facts: RendererFactsView, format: Fourcc, modifier: u64) -> bool {
    &&& !facts.compressed.contains(modifier)
    &&& facts.formats.contains(FormatModifier { format, modifier })
}

/// The offered modifiers that can be used, in the order in which they were offered.
pub open spec fn usable(facts: RendererFactsView, format: Fourcc, offered: Seq<u64>) -> Seq<u64> {
    offered.filter(|modifier: u64| is_usable(facts, format, modifier))
}

/// Whether a swapchain already uses nothing but candidates.
pub open spec fn is_native(current: Seq<u64>, candidates: Seq<u64>) -> bool {
    &&& current.len() > 0
    &&& forall|i: int| 0 <= i < current.len() ==> candidates.contains(#[trigger] current[i])
}

/// Where a round stands after an answer, what is remembered, and what is asked next.
pub struct Outcome {
    pub phase: UpdatePhaseView,
    pub formats: crate::transfer_formats::TransferFormatsView,
    pub action: UpdateActionView,
}

/// The end of a round.
pub open spec fn ended(
    formats: crate::transfer_formats::TransferFormatsView,
    result: Result<(), UpdateError>,
) -> Outcome {
    Outcome {
        phase: UpdatePhaseView::Ended,
        formats,
        action: UpdateActionView::Finish(result),
    }
}

/// The start of a round.
pub open spec fn started(
    formats: crate::transfer_formats::TransferFormatsView,
    policy: TransferPolicy,
    device: Option<DeviceFacts>,
) -> Outcome {
    if !takes_part(policy, device) {
        ended(formats, Ok(()))
    } else {
        let (next, step) = formats.restoring(device->0.surface->0);
        match step {
            crate::transfer_formats::RestoreStepView::Settled => Outcome {
                phase: UpdatePhaseView::Measuring,
                formats: next,
                action: UpdateActionView::ReadMode,
            },
            crate::transfer_formats::RestoreStepView::Unstable => ended(
                next,
                Err(UpdateError::RestoreUnstable),
            ),
            crate::transfer_formats::RestoreStepView::SetFormat(format, modifiers) => Outcome {
                phase: UpdatePhaseView::Restoring,
                formats: next,
                action: UpdateActionView::SetFormat(format, modifiers),
            },
        }
    }
}

/// The choice among the offered modifiers. It counts only for the engine that offered them.
pub open spec fn chosen(
    formats: crate::transfer_formats::TransferFormatsView,
    decision: Decision,
    offered: Seq<u64>,
    facts: RendererFactsView,
) -> Outcome {
    if facts.generation != decision.generation {
        ended(formats, Ok(()))
    } else {
        let decided = crate::transfer_formats::TransferFormatsView {
            decision: Some(decision),
            ..formats
        };
        let candidates = usable(facts, decision.format, offered);
        if candidates.len() == 0 || is_native(facts.current, candidates) {
            ended(decided, Ok(()))
        } else {
            Outcome {
                phase: UpdatePhaseView::Applying(decision.format, facts.current),
                formats: decided,
                action: UpdateActionView::SetFormat(decision.format, candidates),
            }
        }
    }
}

/// What follows an answer. One that was not asked for ends the round, with nothing changed.
pub open spec fn follows(
    phase: UpdatePhaseView,
    formats: crate::transfer_formats::TransferFormatsView,
    answer: UpdateAnswerView,
) -> Outcome {
    match (phase, answer) {
        (UpdatePhaseView::Starting, UpdateAnswerView::Facts(policy, device)) => started(
            formats,
            policy,
            device,
        ),
        (UpdatePhaseView::Restoring, UpdateAnswerView::FormatSet(accepted)) => if accepted {
            Outcome {
                phase: UpdatePhaseView::Measuring,
                formats: formats.restored(true),
                action: UpdateActionView::ReadMode,
            }
        } else {
            ended(formats.restored(false), Err(UpdateError::RestoreRefused))
        },
        (UpdatePhaseView::Measuring, UpdateAnswerView::Mode(generation, format, width, height)) => {
            let size = Size { w: width as i32, h: height as i32 };
            if formats.decision == Some(Decision { generation, format, size }) {
                ended(formats, Ok(()))
            } else {
                Outcome {
                    phase: UpdatePhaseView::Querying(format, size),
                    formats,
                    action: UpdateActionView::QueryModifiers(format, size),
                }
            }
        },
        (UpdatePhaseView::Querying(_, _), UpdateAnswerView::QueryFailed) => ended(
            formats,
            Err(UpdateError::QueryFailed),
        ),
        (UpdatePhaseView::Querying(_, _), UpdateAnswerView::QueryPending) => ended(formats, Ok(())),
        (
            UpdatePhaseView::Querying(format, size),
            UpdateAnswerView::Modifiers(generation, offered),
        ) => {
            let decision = Decision { generation, format, size };
            if offered.len() == 0 {
                ended(
                    crate::transfer_formats::TransferFormatsView {
                        decision: Some(decision),
                        ..formats
                    },
                    Ok(()),
                )
            } else {
                Outcome {
                    phase: UpdatePhaseView::Acquiring(decision, offered),
                    formats,
                    action: UpdateActionView::AcquireRenderer,
                }
            }
        },
        (UpdatePhaseView::Acquiring(_, _), UpdateAnswerView::RendererFailed) => ended(
            formats,
            Err(UpdateError::RendererFailed),
        ),
        (UpdatePhaseView::Acquiring(decision, offered), UpdateAnswerView::Renderer(facts)) => chosen(
            formats,
            decision,
            offered,
            facts,
        ),
        (UpdatePhaseView::Applying(format, previous), UpdateAnswerView::FormatSet(accepted)) => ended(
            if accepted {
                formats.negotiated(format, previous)
            } else {
                formats
            },
            Ok(()),
        ),
        _ => ended(formats, Ok(())),
    }
}

fn contains_modifier(modifiers: &Vec<u64>, modifier: u64) -> (found: bool)
    ensures
        found == modifiers@.contains(modifier),
{
    let mut i: usize = 0;
    while i < modifiers.len()
        invariant
            i <= modifiers@.len(),
            forall|j: int| 0 <= j < i ==> modifiers@[j] != modifier,
        decreases modifiers@.len() - i,
    {
        if modifiers[i] == modifier {
            return true;
        }
        i = i + 1;
    }
    false
}

/// Whether a format and a modifier are in a list.
pub fn contains_format(formats: &Vec<FormatModifier>, wanted: FormatModifier) -> (found: bool)
    ensures
        found == formats@.contains(wanted),
{
    let mut i: usize = 0;
    while i < formats.len()
        invariant
            i <= formats@.len(),
            forall|j: int| 0 <= j < i ==> formats@[j] != wanted,
        decreases formats@.len() - i,
    {
        if formats[i] == wanted {
            return true;
        }
        i = i + 1;
    }
    false
}

/// The offered modifiers that can be used, in the order in which they were offered.
pub fn usable_modifiers(facts: &RendererFacts, format: Fourcc, offered: &Vec<u64>) -> (modifiers: Vec<u64>)
    ensures
        modifiers@ == usable(facts@, format, offered@),
{
    let mut modifiers: Vec<u64> = Vec::new();
    let ghost test = |modifier: u64| is_usable(facts@, format, modifier);
    let mut i: usize = 0;
    reveal(Seq::filter);
    assert(offered@.take(0).filter(test) =~= Seq::<u64>::empty());
    while i < offered.len()
        invariant
            i <= offered@.len(),
            test == (|modifier: u64| is_usable(facts@, format, modifier)),
            modifiers@ == offered@.take(i as int).filter(test),
        decreases offered@.len() - i,
    {
        let modifier: u64 = offered[i];
        reveal(Seq::filter);
        assert(offered@.take(i + 1).drop_last() =~= offered@.take(i as int));
        if !contains_modifier(&facts.compressed, modifier) && contains_format(
            &facts.formats,
            FormatModifier { format, modifier },
        ) {
            modifiers.push(modifier);
        }
        i = i + 1;
    }
    assert(offered@.take(i as int) =~= offered@);
    modifiers
}

fn native(current: &Vec<u64>, candidates: &Vec<u64>) -> (is: bool)
    ensures
        is == is_native(current@, candidates@),
{
    let mut i: usize = 0;
    while i < current.len()
        invariant
            i <= current@.len(),
            forall|j: int| 0 <= j < i ==> candidates@.contains(#[trigger] current@[j]),
        decreases current@.len() - i,
    {
        if !contains_modifier(candidates, current[i]) {
            return false;
        }
        i = i + 1;
    }
    current.len() > 0
}

/// The surface of an output that takes part.
fn participant(policy: &TransferPolicy, device: &Option<DeviceFacts>) -> (surface: Option<SurfaceFacts>)
    ensures
        surface is Some <==> takes_part(*policy, *device),
        surface matches Some(surface) ==> device matches Some(device) && device.surface == Some(surface),
{
    if !policy.direct_target || policy.copy_device != VulkanCopyDevice::Target {
        return None;
    }
    let device = match device {
        Some(device) => device,
        None => {
            return None;
        },
    };
    let target: u64 = match device.render_node {
        Some(target) => target,
        None => {
            return None;
        },
    };
    if target == policy.primary_render_node || !device.active || !device.atomic {
        return None;
    }
    match device.surface {
        Some(surface) => if surface.legacy || surface.commit_pending {
            None
        } else {
            Some(surface)
        },
        None => None,
    }
}

impl Update {
    /// A new round, which waits for the facts.
    pub fn new() -> (update: Update)
        ensures
            update.phase@ == UpdatePhaseView::Starting,
    {
        Update { phase: UpdatePhase::Starting }
    }

    /// Takes an answer, and says what to do next.
    pub fn step(&mut self, formats: &mut TransferFormats, answer: UpdateAnswer) -> (action: UpdateAction)
        ensures
            (Outcome { phase: final(self).phase@, formats: final(formats)@, action: action@ }) == follows(
                old(self).phase@,
                old(formats)@,
                answer@,
            ),
    {
        let mut phase = UpdatePhase::Ended;
        std::mem::swap(&mut phase, &mut self.phase);
        match (phase, answer) {
            (UpdatePhase::Starting, UpdateAnswer::Facts(policy, device)) => {
                let surface = match participant(&policy, &device) {
                    Some(surface) => surface,
                    None => {
                        return UpdateAction::Finish(Ok(()));
                    },
                };
                match formats.try_restore(&surface) {
                    RestoreStep::Settled => {
                        self.phase = UpdatePhase::Measuring;
                        UpdateAction::ReadMode
                    },
                    RestoreStep::Unstable => UpdateAction::Finish(Err(UpdateError::RestoreUnstable)),
                    RestoreStep::SetFormat(format, modifiers) => {
                        self.phase = UpdatePhase::Restoring;
                        UpdateAction::SetFormat(format, modifiers)
                    },
                }
            },
            (UpdatePhase::Restoring, UpdateAnswer::FormatSet(accepted)) => {
                formats.finish_restore(accepted);
                if accepted {
                    self.phase = UpdatePhase::Measuring;
                    UpdateAction::ReadMode
                } else {
                    UpdateAction::Finish(Err(UpdateError::RestoreRefused))
                }
            },
            (UpdatePhase::Measuring, UpdateAnswer::Mode(generation, format, width, height)) => {
                let size = Size { w: width as i32, h: height as i32 };
                if formats.matches(generation, format, size) {
                    UpdateAction::Finish(Ok(()))
                } else {
                    self.phase = UpdatePhase::Querying(format, size);
                    UpdateAction::QueryModifiers(format, size)
                }
            },
            (UpdatePhase::Querying(_, _), UpdateAnswer::QueryFailed) => {
                UpdateAction::Finish(Err(UpdateError::QueryFailed))
            },
            (UpdatePhase::Querying(_, _), UpdateAnswer::QueryPending) => {
                UpdateAction::Finish(Ok(()))
            },
            (UpdatePhase::Querying(format, size), UpdateAnswer::Modifiers(generation, offered)) => {
                let decision = Decision { generation, format, size };
                if offered.len() == 0 {
                    formats.decision = Some(decision);
                    UpdateAction::Finish(Ok(()))
                } else {
                    self.phase = UpdatePhase::Acquiring(decision, offered);
                    UpdateAction::AcquireRenderer
                }
            },
            (UpdatePhase::Acquiring(_, _), UpdateAnswer::RendererFailed) => {
                UpdateAction::Finish(Err(UpdateError::RendererFailed))
            },
            (UpdatePhase::Acquiring(decision, offered), UpdateAnswer::Renderer(facts)) => {
                if facts.generation != decision.generation {
                    return UpdateAction::Finish(Ok(()));
                }
                formats.decision = Some(decision);
                let candidates = usable_modifiers(&facts, decision.format, &offered);
                if candidates.len() == 0 || native(&facts.current, &candidates) {
                    return UpdateAction::Finish(Ok(()));
                }
                self.phase = UpdatePhase::Applying(decision.format, facts.current);
                UpdateAction::SetFormat(decision.format, candidates)
            },
            (UpdatePhase::Applying(format, previous), UpdateAnswer::FormatSet(accepted)) => {
                if accepted {
                    let keep = match &formats.fallback {
                        Some((saved, _)) => *saved == format,
                        None => false,
                    };
                    if !keep {
                        formats.fallback = Some((format, previous));
                    }
                    formats.restore_pending = false;
                    formats.retry_scheduled = false;
                }
                UpdateAction::Finish(Ok(()))
            },
            _ => UpdateAction::Finish(Ok(())),
        }
    }
}

/// How many answers a round can still take.
pub open spec fn answers_left(phase: UpdatePhaseView) -> nat {
    match phase {
        UpdatePhaseView::Starting => 6,
        UpdatePhaseView::Restoring => 5,
        UpdatePhaseView::Measuring => 4,
        UpdatePhaseView::Querying(_, _) => 3,
        UpdatePhaseView::Acquiring(_, _) => 2,
        UpdatePhaseView::Applying(_, _) => 1,
        UpdatePhaseView::Ended => 0,
    }
}

/// A round ends: each answer leaves fewer to come, and the round is over exactly when it says so.
pub proof fn law_round_ends(
    phase: UpdatePhaseView,
    formats: crate::transfer_formats::TransferFormatsView,
    answer: UpdateAnswerView,
)
    ensures
        ({
            let next = follows(phase, formats, answer);
            &&& phase is Ended || answers_left(next.phase) < answers_left(phase)
            &&& next.phase is Ended <==> next.action is Finish
        }),
{
}

/// Outputs that do not take part are left alone: one whose own GPU renders the scene among them,
/// and every output while the policy does not want the copy on the output's GPU.
pub proof fn law_native_outputs_are_left_alone(
    formats: crate::transfer_formats::TransferFormatsView,
    policy: TransferPolicy,
    device: Option<DeviceFacts>,
)
    requires
        ({
            ||| !policy.direct_target
            ||| policy.copy_device == VulkanCopyDevice::Render
            ||| device matches Some(device) && device.render_node == Some(policy.primary_render_node)
        }),
    ensures
        follows(UpdatePhaseView::Starting, formats, UpdateAnswerView::Facts(policy, device)) == ended(
            formats,
            Ok(()),
        ),
{
}

/// An output that takes part is stable, so that its restoration never waits.
pub proof fn law_participants_are_stable(
    formats: crate::transfer_formats::TransferFormatsView,
    policy: TransferPolicy,
    device: Option<DeviceFacts>,
)
    ensures
        started(formats, policy, device).action != UpdateActionView::Finish(
            Err(UpdateError::RestoreUnstable),
        ),
{
}

/// A decision is scoped to its engine, format and extent: with all three unchanged nothing is
/// asked, and with any of them changed the engine is asked again.
pub proof fn law_decision_is_scoped(
    formats: crate::transfer_formats::TransferFormatsView,
    generation: u64,
    format: Fourcc,
    width: u16,
    height: u16,
)
    ensures
        ({
            let next = follows(
                UpdatePhaseView::Measuring,
                formats,
                UpdateAnswerView::Mode(generation, format, width, height),
            );
            let size = Size { w: width as i32, h: height as i32 };
            &&& next.formats == formats
            &&& next.action is Finish <==> (formats.decision matches Some(decision)
                && decision.generation == generation && decision.format == format && decision.size == size)
            &&& !(next.action is Finish) ==> next.action == UpdateActionView::QueryModifiers(
                format,
                size,
            )
        }),
{
}

/// An engine that is not ready, or that was replaced while its renderer was acquired, decides
/// nothing: the next redraw asks again.
pub proof fn law_unready_engine_decides_nothing(
    formats: crate::transfer_formats::TransferFormatsView,
    decision: Decision,
    offered: Seq<u64>,
    facts: RendererFactsView,
)
    requires
        facts.generation != decision.generation,
    ensures
        follows(
            UpdatePhaseView::Querying(decision.format, decision.size),
            formats,
            UpdateAnswerView::QueryPending,
        ) == ended(formats, Ok(())),
        follows(
            UpdatePhaseView::Acquiring(decision, offered),
            formats,
            UpdateAnswerView::Renderer(facts),
        ) == ended(formats, Ok(())),
{
}

/// A usable modifier was offered.
proof fn lemma_usable(facts: RendererFactsView, format: Fourcc, offered: Seq<u64>)
    ensures
        forall|i: int|
            0 <= i < usable(facts, format, offered).len() ==> offered.contains(
                #[trigger] usable(facts, format, offered)[i],
            ) && is_usable(facts, format, usable(facts, format, offered)[i]),
    decreases offered.len(),
{
    reveal(Seq::filter);
    if offered.len() > 0 {
        let before = usable(facts, format, offered.drop_last());
        lemma_usable(facts, format, offered.drop_last());
        assert forall|i: int| 0 <= i < usable(facts, format, offered).len() implies offered.contains(
            #[trigger] usable(facts, format, offered)[i],
        ) && is_usable(facts, format, usable(facts, format, offered)[i]) by {
            if i < before.len() {
                assert(usable(facts, format, offered)[i] == before[i]);
                let k = choose|k: int|
                    0 <= k < offered.drop_last().len() && offered.drop_last()[k] == before[i];
                assert(offered[k] == before[i]);
            } else {
                assert(offered[offered.len() - 1] == usable(facts, format, offered)[i]);
            }
        }
    }
}

/// Only what everyone agrees on is set: each modifier of a negotiated swapchain was offered by
/// the engine, can be drawn to, and does not compress; and there is at least one.
pub proof fn law_only_agreed_modifiers_are_set(
    formats: crate::transfer_formats::TransferFormatsView,
    decision: Decision,
    offered: Seq<u64>,
    facts: RendererFactsView,
)
    ensures
        chosen(formats, decision, offered, facts).action matches UpdateActionView::SetFormat(
            format,
            modifiers,
        ) ==> {
            &&& format == decision.format
            &&& modifiers.len() > 0
            &&& forall|i: int|
                0 <= i < modifiers.len() ==> offered.contains(#[trigger] modifiers[i]) && is_usable(
                    facts,
                    format,
                    modifiers[i],
                )
        },
{
    lemma_usable(facts, decision.format, offered);
}

/// A refused change costs nothing: the normal swapchain and what is remembered of it stay, and
/// the round ends without an error.
pub proof fn law_refused_change_costs_nothing(
    formats: crate::transfer_formats::TransferFormatsView,
    format: Fourcc,
    previous: Seq<u64>,
)
    ensures
        follows(
            UpdatePhaseView::Applying(format, previous),
            formats,
            UpdateAnswerView::FormatSet(false),
        ) == ended(formats, Ok(())),
{
}

/// A round keeps a pending restoration tied to saved modifiers.
pub proof fn law_round_keeps_restorations_consistent(
    phase: UpdatePhaseView,
    formats: crate::transfer_formats::TransferFormatsView,
    answer: UpdateAnswerView,
)
    requires
        formats.is_consistent(),
    ensures
        follows(phase, formats, answer).formats.is_consistent(),
{
}

/// A restoration that could not be done is made up for: as long as it is pending, the next round
/// on a stable surface of the same format starts with it, and negotiates only afterwards.
pub proof fn law_pending_restoration_comes_first(
    formats: crate::transfer_formats::TransferFormatsView,
    policy: TransferPolicy,
    device: DeviceFacts,
    format: Fourcc,
    modifiers: Seq<u64>,
)
    requires
        formats.restore_pending,
        formats.fallback == Some((format, modifiers)),
        takes_part(policy, Some(device)),
        device.surface->0.format == format,
    ensures
        ({
            let first = follows(
                UpdatePhaseView::Starting,
                formats,
                UpdateAnswerView::Facts(policy, Some(device)),
            );
            let second = follows(first.phase, first.formats, UpdateAnswerView::FormatSet(true));
            &&& first.action == UpdateActionView::SetFormat(format, modifiers)
            &&& second.action == UpdateActionView::ReadMode
            &&& second.formats.fallback is None
            &&& !second.formats.restore_pending
        }),
{
}

/// A round goes on exactly where the policy wants direct writes by the output's GPU, the output has
/// a GPU of its own that does not render the scene, and its device and surface are active, atomic
/// and stable. Otherwise it is over at once, without an error, and nothing is touched.
pub proof fn law_rounds_start_for_participants(
    formats: crate::transfer_formats::TransferFormatsView,
    policy: TransferPolicy,
    device: Option<DeviceFacts>,
)
    ensures
        ({
            let next = follows(
                UpdatePhaseView::Starting,
                formats,
                UpdateAnswerView::Facts(policy, device),
            );
            let wanted = policy.direct_target && policy.copy_device == VulkanCopyDevice::Target;
            let foreign = device matches Some(device) && (device.render_node matches Some(node) && node
                != policy.primary_render_node) && device.active && device.atomic;
            let stable = device matches Some(device) && (device.surface matches Some(surface)
                && !surface.legacy && !surface.commit_pending);
            &&& next.action is Finish <==> !(wanted && foreign && stable)
            &&& next.action is Finish ==> next.action == UpdateActionView::Finish(Ok(()))
                && next.formats == formats
            &&& !(next.action is Finish) && !formats.restore_pending ==> next.action
                == UpdateActionView::ReadMode && next.formats == formats
        }),
{
}

/// What follows an answer of the engine: where it cannot be asked the round fails, where it is not
/// ready the round is over, both with nothing decided; an empty offer is a decision of its own for
/// the engine that made it; and an offer is held against the renderer before anything is decided.
pub proof fn law_answers_of_the_engine(
    formats: crate::transfer_formats::TransferFormatsView,
    format: Fourcc,
    size: Size,
    generation: u64,
    offered: Seq<u64>,
)
    ensures
        ({
            let phase = UpdatePhaseView::Querying(format, size);
            let failed = follows(phase, formats, UpdateAnswerView::QueryFailed);
            let pending = follows(phase, formats, UpdateAnswerView::QueryPending);
            let answered = follows(phase, formats, UpdateAnswerView::Modifiers(generation, offered));
            let decision = Decision { generation, format, size };
            &&& failed.action == UpdateActionView::Finish(Err(UpdateError::QueryFailed))
            &&& failed.formats == formats
            &&& pending.action == UpdateActionView::Finish(Ok(()))
            &&& pending.formats == formats
            &&& offered.len() == 0 ==> {
                &&& answered.action == UpdateActionView::Finish(Ok(()))
                &&& answered.formats.decision == Some(decision)
                &&& answered.formats.fallback == formats.fallback
                &&& answered.formats.restore_pending == formats.restore_pending
                &&& answered.formats.retry_scheduled == formats.retry_scheduled
            }
            &&& offered.len() > 0 ==> {
                &&& answered.action == UpdateActionView::AcquireRenderer
                &&& answered.formats == formats
                &&& answered.phase == UpdatePhaseView::Acquiring(decision, offered)
            }
        }),
{
}

/// Usable modifiers keep their order and their number: those of two offers in a row are those of
/// the first and then those of the second, and a single offer is usable exactly where the renderer
/// can draw to it in this format and it does not compress.
pub proof fn law_usable_modifiers_keep_their_order(
    facts: RendererFactsView,
    format: Fourcc,
    first: Seq<u64>,
    second: Seq<u64>,
    modifier: u64,
)
    ensures
        usable(facts, format, first + second) == usable(facts, format, first) + usable(
            facts,
            format,
            second,
        ),
        usable(facts, format, seq![modifier]) == (if facts.formats.contains(
            FormatModifier { format, modifier },
        ) && !facts.compressed.contains(modifier) {
            seq![modifier]
        } else {
            Seq::<u64>::empty()
        }),
    decreases second.len(),
{
    reveal(Seq::filter);
    assert(seq![modifier].drop_last() =~= Seq::<u64>::empty());
    assert(usable(facts, format, Seq::<u64>::empty()) =~= Seq::<u64>::empty());
    if is_usable(facts, format, modifier) {
        assert(usable(facts, format, seq![modifier]) =~= seq![modifier]);
    } else {
        assert(usable(facts, format, seq![modifier]) =~= Seq::<u64>::empty());
    }
    if second.len() == 0 {
        assert(first + second =~= first);
        assert(usable(facts, format, first) + usable(facts, format, second) =~= usable(
            facts,
            format,
            first,
        ));
    } else {
        law_usable_modifiers_keep_their_order(facts, format, first, second.drop_last(), modifier);
        assert((first + second).drop_last() =~= first + second.drop_last());
        assert(usable(facts, format, first + second) =~= usable(facts, format, first) + usable(
            facts,
            format,
            second,
        ));
    }
}

proof fn lemma_usable_contains(facts: RendererFactsView, format: Fourcc, offered: Seq<u64>, i: int)
    requires
        0 <= i < offered.len(),
        is_usable(facts, format, offered[i]),
    ensures
        usable(facts, format, offered).contains(offered[i]),
    decreases offered.len(),
{
    reveal(Seq::filter);
    let before = usable(facts, format, offered.drop_last());
    let all = usable(facts, format, offered);
    if i < offered.len() - 1 {
        assert(offered.drop_last()[i] == offered[i]);
        lemma_usable_contains(facts, format, offered.drop_last(), i);
        let k = choose|k: int| 0 <= k < before.len() && before[k] == offered[i];
        assert(all[k] == offered[i]);
    } else {
        assert(all[all.len() - 1] == offered[i]);
    }
}

/// Whether a modifier was offered by the engine, can be drawn to in a format, and does not
/// compress.
pub open spec fn is_agreed(
    facts: RendererFactsView,
    format: Fourcc,
    offered: Seq<u64>,
    modifier: u64,
) -> bool {
    &&& offered.contains(modifier)
    &&& facts.formats.contains(FormatModifier { format, modifier })
    &&& !facts.compressed.contains(modifier)
}

/// The choice of an engine that is still the one that made the offer. It is decided either way.
/// Where nothing is agreed on, the swapchain stays. Where something is, the swapchain stays exactly
/// where it has modifiers and every single one of them is agreed on; otherwise it is replaced by
/// one with all agreed modifiers and no other, and the modifiers that it had are kept for a
/// fallback.
pub proof fn law_swapchains_are_replaced_unless_native(
    formats: crate::transfer_formats::TransferFormatsView,
    decision: Decision,
    offered: Seq<u64>,
    facts: RendererFactsView,
    modifier: u64,
)
    requires
        facts.generation == decision.generation,
    ensures
        ({
            let next = follows(
                UpdatePhaseView::Acquiring(decision, offered),
                formats,
                UpdateAnswerView::Renderer(facts),
            );
            let none = forall|m: u64| !#[trigger] is_agreed(facts, decision.format, offered, m);
            let native = facts.current.len() > 0 && (forall|i: int|
                0 <= i < facts.current.len() ==> is_agreed(
                    facts,
                    decision.format,
                    offered,
                    #[trigger] facts.current[i],
                ));
            &&& next.formats.decision == Some(decision)
            &&& next.formats.fallback == formats.fallback
            &&& next.formats.restore_pending == formats.restore_pending
            &&& next.formats.retry_scheduled == formats.retry_scheduled
            &&& none || native ==> next.action == UpdateActionView::Finish(Ok(()))
            &&& !none && !native ==> {
                &&& next.action matches UpdateActionView::SetFormat(format, modifiers)
                &&& format == decision.format
                &&& modifiers.contains(modifier) <==> is_agreed(facts, decision.format, offered, modifier)
                &&& next.phase == UpdatePhaseView::Applying(decision.format, facts.current)
            }
        }),
{
    let candidates = usable(facts, decision.format, offered);
    lemma_usable(facts, decision.format, offered);
    assert forall|m: u64| candidates.contains(m) <==> #[trigger] is_agreed(
        facts,
        decision.format,
        offered,
        m,
    ) by {
        if is_agreed(facts, decision.format, offered, m) {
            let i = choose|i: int| 0 <= i < offered.len() && offered[i] == m;
            lemma_usable_contains(facts, decision.format, offered, i);
        }
        if candidates.contains(m) {
            let i = choose|i: int| 0 <= i < candidates.len() && candidates[i] == m;
            assert(offered.contains(candidates[i]));
        }
    }
    if candidates.len() > 0 {
        assert(candidates.contains(candidates[0]));
        assert(is_agreed(facts, decision.format, offered, candidates[0]));
    } else {
        assert forall|m: u64| !#[trigger] is_agreed(facts, decision.format, offered, m) by {
            assert(!candidates.contains(m));
        }
    }
}

/// What a renderer or a swapchain answers settles the round: a renderer that cannot be had fails
/// it, with nothing decided; saved modifiers that are refused fail it, with nothing forgotten; and
/// negotiated modifiers that are taken leave the ones from before them as the fallback, unless the
/// format has one already.
pub proof fn law_answers_settle_the_round(
    formats: crate::transfer_formats::TransferFormatsView,
    decision: Decision,
    offered: Seq<u64>,
    format: Fourcc,
    previous: Seq<u64>,
)
    ensures
        ({
            let failed = follows(
                UpdatePhaseView::Acquiring(decision, offered),
                formats,
                UpdateAnswerView::RendererFailed,
            );
            let refused = follows(
                UpdatePhaseView::Restoring,
                formats,
                UpdateAnswerView::FormatSet(false),
            );
            let taken = follows(
                UpdatePhaseView::Applying(format, previous),
                formats,
                UpdateAnswerView::FormatSet(true),
            );
            &&& failed.action == UpdateActionView::Finish(Err(UpdateError::RendererFailed))
            &&& failed.formats == formats
            &&& refused.action == UpdateActionView::Finish(Err(UpdateError::RestoreRefused))
            &&& refused.formats == formats
            &&& taken.action == UpdateActionView::Finish(Ok(()))
            &&& taken.formats.decision == formats.decision
            &&& !taken.formats.restore_pending
            &&& !taken.formats.retry_scheduled
            &&& (formats.fallback matches Some(saved) && saved.0 == format) ==> taken.formats.fallback
                == formats.fallback
            &&& !(formats.fallback matches Some(saved) && saved.0 == format)
                ==> taken.formats.fallback == Some((format, previous))
        }),
{
}

/// A pending restoration that another format superseded does not hold the round up: what was saved
/// and what was decided is forgotten, and the negotiation starts afresh.
pub proof fn law_superseded_restorations_are_dropped(
    formats: crate::transfer_formats::TransferFormatsView,
    policy: TransferPolicy,
    device: DeviceFacts,
)
    requires
        formats.restore_pending,
        formats.fallback is Some,
        takes_part(policy, Some(device)),
        device.surface->0.format != (formats.fallback->0).0,
    ensures
        ({
            let next = follows(
                UpdatePhaseView::Starting,
                formats,
                UpdateAnswerView::Facts(policy, Some(device)),
            );
            &&& next.action == UpdateActionView::ReadMode
            &&& next.phase == UpdatePhaseView::Measuring
            &&& next.formats.decision is None
            &&& next.formats.fallback is None
            &&& !next.formats.restore_pending
        }),
{
}

} // verus!
