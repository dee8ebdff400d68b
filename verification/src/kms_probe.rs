//! An opt-in diagnostic: copy into a private buffer that could be scanned out, and ask the
//! kernel, by an atomic request that only tests, whether it would take it.
//!
//! The probe never asks for a presentation or a mode change. An accepted request shows that the
//! request is acceptable, not that pixels were displayed or that the display waits for a fence.
//! GPU work that was submitted is retired before the probe ends, however it ends.

use std::time::Duration;

use vstd::prelude::*;
use vstd::string::*;

use crate::negotiation::contains_format;
use crate::text::first_of;
use crate::transfer_formats::{FormatModifier, Fourcc, Size, ABGR2101010, ABGR8888};

verus! {

/// The modifier of a linear layout.
pub const LINEAR: u64 = 0;

/// The connector of an output.
#[derive(Debug, Clone, Copy, PartialEq, Eq, Structural)]
pub enum ConnectorFacts {
    /// It could not be read.
    Unreadable,
    Disconnected,
    Connected,
}

/// What the selected output is like before anything is allocated. A fact that cannot be read
/// because an earlier one fails may hold anything.
#[derive(Debug, Clone, Copy, PartialEq, Eq, Structural)]
pub struct PreflightFacts {
    pub session_active: bool,
    /// Whether the output belongs to this backend.
    pub known_output: bool,
    pub device_present: bool,
    pub atomic: bool,
    pub surface_present: bool,
    pub legacy: bool,
    pub commit_pending: bool,
    /// Whether the connector is among those of the surface.
    pub connector_active: bool,
    pub connector: ConnectorFacts,
    /// Whether buffers are allocated on the very descriptor on which they would be displayed.
    pub same_descriptor: bool,
    pub width: u16,
    pub height: u16,
}

/// What an allocation turned out to be.
#[derive(Debug, Clone, Copy, PartialEq, Eq, Structural)]
pub struct BufferFacts {
    pub format: Fourcc,
    pub modifier: u64,
    pub planes: usize,
    pub size: Size,
}

/// What the source side offers.
#[derive(Debug)]
pub struct SourceFacts {
    /// The modifiers that the copy engine can read; `None` where it could not be asked.
    pub modifiers: Option<Vec<u64>>,
    /// Whether the GPUs could be listed.
    pub devices_listed: bool,
    /// Whether the GPU that renders the scene is among them.
    pub primary_present: bool,
    /// What its renderer can draw to; `None` where it does not say.
    pub formats: Option<Vec<FormatModifier>>,
}

/// Why a probe failed.
#[derive(Debug, Clone, Copy, PartialEq, Eq, Structural)]
pub enum ProbeError {
    SessionInactive,
    UnknownOutput,
    DeviceGone,
    NotAtomic,
    SurfaceGone,
    LegacySurface,
    ChangesPending,
    ConnectorInactive,
    ConnectorUnreadable,
    ConnectorDisconnected,
    DescriptorsDiffer,
    EmptyMode,
    SourceQueryFailed,
    DevicesUnavailable,
    PrimaryUnavailable,
    NoRenderFormats,
    NoSharedModifiers,
    SourceAllocationFailed,
    SourceMismatch,
    ScanoutAllocationFailed,
    ScanoutExportFailed,
    ScanoutMismatch,
    SizeMismatch,
    FramebufferFailed,
    RenderFailed,
    CopyFailed,
    NoNativeFence,
    TestRefused,
}

/// The part of a probe that a report names.
#[derive(Debug, Clone, Copy, PartialEq, Eq, Structural)]
pub enum ProbeStage {
    Preflight,
    SourceAllocation,
    ScanoutAllocation,
    FramebufferCreation,
    FirstSourceRender,
    FirstCopy,
    CompletedCopyNoFence,
    SecondSourceRender,
    SecondCopy,
    NativeCopyFenceExport,
    NativeCopyFenceTest,
}

impl ProbeStage {
    /// How a report names the part.
    pub open spec fn title(self) -> Seq<char> {
        match self {
            ProbeStage::Preflight => "preflight"@,
            ProbeStage::SourceAllocation => "source_allocation"@,
            ProbeStage::ScanoutAllocation => "scanout_allocation"@,
            ProbeStage::FramebufferCreation => "framebuffer_creation"@,
            ProbeStage::FirstSourceRender => "first_source_render"@,
            ProbeStage::FirstCopy => "first_copy"@,
            ProbeStage::CompletedCopyNoFence => "completed_copy_no_fence"@,
            ProbeStage::SecondSourceRender => "second_source_render"@,
            ProbeStage::SecondCopy => "second_copy"@,
            ProbeStage::NativeCopyFenceExport => "native_copy_fence_export"@,
            ProbeStage::NativeCopyFenceTest => "native_copy_fence_test"@,
        }
    }

    /// How a report names the part.
    pub fn name(&self) -> (name: &'static str)
        ensures
            name@ == self.title(),
    {
        match self {
            ProbeStage::Preflight => "preflight",
            ProbeStage::SourceAllocation => "source_allocation",
            ProbeStage::ScanoutAllocation => "scanout_allocation",
            ProbeStage::FramebufferCreation => "framebuffer_creation",
            ProbeStage::FirstSourceRender => "first_source_render",
            ProbeStage::FirstCopy => "first_copy",
            ProbeStage::CompletedCopyNoFence => "completed_copy_no_fence",
            ProbeStage::SecondSourceRender => "second_source_render",
            ProbeStage::SecondCopy => "second_copy",
            ProbeStage::NativeCopyFenceExport => "native_copy_fence_export",
            ProbeStage::NativeCopyFenceTest => "native_copy_fence_test",
        }
    }
}

/// The two rounds of a probe: a copy that is complete before the test, and one whose fence is
/// handed to the test.
#[derive(Debug, Clone, Copy, PartialEq, Eq, Structural)]
pub enum Round {
    First,
    Second,
}

/// GPU work that was submitted.
#[derive(Debug, Clone, Copy, PartialEq, Eq, Structural)]
pub enum Submission {
    Render(Round),
    Copy(Round),
}

/// Where a probe failed, and why.
#[derive(Debug, Clone, Copy, PartialEq, Eq, Structural)]
pub struct ProbeFailure {
    pub stage: ProbeStage,
    pub error: ProbeError,
}

/// Where a probe stands.
#[derive(Debug, Clone, Copy, PartialEq, Eq, Structural)]
pub enum ProbePhase {
    Preflight,
    SourceQuery,
    SourceAllocation,
    ScanoutAllocation,
    ScanoutExport,
    Framebuffer,
    Render(Round),
    Copy(Round),
    /// The copy of the first round is waited for.
    Complete,
    Inspect(Round),
    Test(Round),
    FenceExport,
    Completion,
    /// The copy of the second round is waited for, after the test was accepted or refused.
    Settle(bool),
    /// What is still submitted is waited for.
    Retire(Option<ProbeFailure>),
    Done(Option<ProbeFailure>),
}

/// A probe of one format on one output.
#[derive(Debug)]
pub struct Probe {
    pub format: Fourcc,
    pub phase: ProbePhase,
    /// The extent of the current mode, once it was read.
    pub width: u32,
    pub height: u32,
    /// The modifiers that the copy engine can read and the renderer can draw to.
    pub shared: Vec<u64>,
    pub source_size: Size,
    /// The modifier of the private buffer, once it was allocated.
    pub actual_modifier: Option<u64>,
    /// Whether the request without a fence was accepted.
    pub accepted_without_fence: bool,
    /// Whether the second copy handed out a native fence.
    pub native_fence: bool,
    /// Whether the second copy was complete when its fence was tested.
    pub complete_at_test: Option<bool>,
    /// Submitted GPU work that was not waited for yet, oldest first.
    pub outstanding: Vec<Submission>,
}

/// What the compositor is asked to do.
#[derive(Debug)]
pub enum ProbeAction {
    ReadPreflight,
    QuerySource(Fourcc, u32, u32),
    AllocateSource(Fourcc, u32, u32, Vec<u64>),
    /// Allocate a private buffer with an explicit linear layout.
    AllocateScanout(Fourcc, u32, u32),
    ExportScanout,
    CreateFramebuffer,
    /// Draw the pattern of a round into the source.
    RenderSource(Round),
    /// Copy the whole source.
    Copy,
    /// Wait until submitted work is complete.
    Retire(Submission),
    InspectSurface,
    /// Test an atomic request, with or without the copy's fence.
    Test(bool),
    ExportFence,
    /// Read whether the second copy is complete, without waiting.
    ReadCompletion,
    Finish(Option<ProbeFailure>),
}

/// What the compositor reports.
#[derive(Debug)]
pub enum ProbeAnswer {
    Preflight(PreflightFacts),
    Source(SourceFacts),
    SourceAllocated(Option<BufferFacts>),
    /// The modifier of the private buffer.
    ScanoutAllocated(Option<u64>),
    ScanoutExported(Option<BufferFacts>),
    FramebufferCreated(bool),
    Rendered(bool),
    Copied(bool),
    Retired,
    /// The wait was interrupted before the work was complete.
    Interrupted,
    /// Whether the surface is driven without atomic requests, and whether changes are pending.
    Surface(bool, bool),
    Tested(bool),
    FenceExported(bool),
    Completion(bool),
}

/// The content of `Probe`.
pub struct ProbeView {
    pub format: Fourcc,
    pub phase: ProbePhase,
    pub width: u32,
    pub height: u32,
    pub shared: Seq<u64>,
    pub source_size: Size,
    pub actual_modifier: Option<u64>,
    pub accepted_without_fence: bool,
    pub native_fence: bool,
    pub complete_at_test: Option<bool>,
    pub outstanding: Seq<Submission>,
}

/// The content of `SourceFacts`.
pub struct SourceFactsView {
    pub modifiers: Option<Seq<u64>>,
    pub devices_listed: bool,
    pub primary_present: bool,
    pub formats: Option<Seq<FormatModifier>>,
}

/// The content of `ProbeAction`.
pub enum ProbeActionView {
    ReadPreflight,
    QuerySource(Fourcc, u32, u32),
    AllocateSource(Fourcc, u32, u32, Seq<u64>),
    AllocateScanout(Fourcc, u32, u32),
    ExportScanout,
    CreateFramebuffer,
    RenderSource(Round),
    Copy,
    Retire(Submission),
    InspectSurface,
    Test(bool),
    ExportFence,
    ReadCompletion,
    Finish(Option<ProbeFailure>),
}

/// The content of `ProbeAnswer`.
pub enum ProbeAnswerView {
    Preflight(PreflightFacts),
    Source(SourceFactsView),
    SourceAllocated(Option<BufferFacts>),
    ScanoutAllocated(Option<u64>),
    ScanoutExported(Option<BufferFacts>),
    FramebufferCreated(bool),
    Rendered(bool),
    Copied(bool),
    Retired,
    Interrupted,
    Surface(bool, bool),
    Tested(bool),
    FenceExported(bool),
    Completion(bool),
}

impl View for Probe {
    type V = ProbeView;

    open spec fn view(&self) -> ProbeView {
        ProbeView {
            format: self.format,
            phase: self.phase,
            width: self.width,
            height: self.height,
            shared: self.shared@,
            source_size: self.source_size,
            actual_modifier: self.actual_modifier,
            accepted_without_fence: self.accepted_without_fence,
            native_fence: self.native_fence,
            complete_at_test: self.complete_at_test,
            outstanding: self.outstanding@,
        }
    }
}

impl View for SourceFacts {
    type V = SourceFactsView;

    open spec fn view(&self) -> SourceFactsView {
        SourceFactsView {
            modifiers: match self.modifiers {
                Some(modifiers) => Some(modifiers@),
                None => None,
            },
            devices_listed: self.devices_listed,
            primary_present: self.primary_present,
            formats: match self.formats {
                Some(formats) => Some(formats@),
                None => None,
            },
        }
    }
}

impl View for ProbeAction {
    type V = ProbeActionView;

    open spec fn view(&self) -> ProbeActionView {
        match self {
            ProbeAction::ReadPreflight => ProbeActionView::ReadPreflight,
            ProbeAction::QuerySource(format, width, height) => ProbeActionView::QuerySource(
                *format,
                *width,
                *height,
            ),
            ProbeAction::AllocateSource(format, width, height, modifiers) => {
                ProbeActionView::AllocateSource(*format, *width, *height, modifiers@)
            },
            ProbeAction::AllocateScanout(format, width, height) => ProbeActionView::AllocateScanout(
                *format,
                *width,
                *height,
            ),
            ProbeAction::ExportScanout => ProbeActionView::ExportScanout,
            ProbeAction::CreateFramebuffer => ProbeActionView::CreateFramebuffer,
            ProbeAction::RenderSource(round) => ProbeActionView::RenderSource(*round),
            ProbeAction::Copy => ProbeActionView::Copy,
            ProbeAction::Retire(submission) => ProbeActionView::Retire(*submission),
            ProbeAction::InspectSurface => ProbeActionView::InspectSurface,
            ProbeAction::Test(fence) => ProbeActionView::Test(*fence),
            ProbeAction::ExportFence => ProbeActionView::ExportFence,
            ProbeAction::ReadCompletion => ProbeActionView::ReadCompletion,
            ProbeAction::Finish(failure) => ProbeActionView::Finish(*failure),
        }
    }
}

impl View for ProbeAnswer {
    type V = ProbeAnswerView;

    open spec fn view(&self) -> ProbeAnswerView {
        match self {
            ProbeAnswer::Preflight(facts) => ProbeAnswerView::Preflight(*facts),
            ProbeAnswer::Source(facts) => ProbeAnswerView::Source(facts@),
            ProbeAnswer::SourceAllocated(buffer) => ProbeAnswerView::SourceAllocated(*buffer),
            ProbeAnswer::ScanoutAllocated(modifier) => ProbeAnswerView::ScanoutAllocated(*modifier),
            ProbeAnswer::ScanoutExported(buffer) => ProbeAnswerView::ScanoutExported(*buffer),
            ProbeAnswer::FramebufferCreated(done) => ProbeAnswerView::FramebufferCreated(*done),
            ProbeAnswer::Rendered(done) => ProbeAnswerView::Rendered(*done),
            ProbeAnswer::Copied(done) => ProbeAnswerView::Copied(*done),
            ProbeAnswer::Retired => ProbeAnswerView::Retired,
            ProbeAnswer::Interrupted => ProbeAnswerView::Interrupted,
            ProbeAnswer::Surface(legacy, pending) => ProbeAnswerView::Surface(*legacy, *pending),
            ProbeAnswer::Tested(accepted) => ProbeAnswerView::Tested(*accepted),
            ProbeAnswer::FenceExported(done) => ProbeAnswerView::FenceExported(*done),
            ProbeAnswer::Completion(complete) => ProbeAnswerView::Completion(*complete),
        }
    }
}

/// The part of a probe that a phase belongs to. What is left to retire belongs to the last one.
pub open spec fn stage_of(phase: ProbePhase) -> ProbeStage {
    match phase {
        ProbePhase::Preflight => ProbeStage::Preflight,
        ProbePhase::SourceQuery | ProbePhase::SourceAllocation => ProbeStage::SourceAllocation,
        ProbePhase::ScanoutAllocation | ProbePhase::ScanoutExport => ProbeStage::ScanoutAllocation,
        ProbePhase::Framebuffer => ProbeStage::FramebufferCreation,
        ProbePhase::Render(Round::First) => ProbeStage::FirstSourceRender,
        ProbePhase::Copy(Round::First) | ProbePhase::Complete => ProbeStage::FirstCopy,
        ProbePhase::Inspect(Round::First) | ProbePhase::Test(Round::First) => {
            ProbeStage::CompletedCopyNoFence
        },
        ProbePhase::Render(Round::Second) => ProbeStage::SecondSourceRender,
        ProbePhase::Copy(Round::Second) => ProbeStage::SecondCopy,
        ProbePhase::FenceExport => ProbeStage::NativeCopyFenceExport,
        _ => ProbeStage::NativeCopyFenceTest,
    }
}

/// The first thing that stands against a probe, if anything does.
pub open spec fn preflight_error(facts: PreflightFacts) -> Option<ProbeError> {
    if !facts.session_active {
        Some(ProbeError::SessionInactive)
    } else if !facts.known_output {
        Some(ProbeError::UnknownOutput)
    } else if !facts.device_present {
        Some(ProbeError::DeviceGone)
    } else if !facts.atomic {
        Some(ProbeError::NotAtomic)
    } else if !facts.surface_present {
        Some(ProbeError::SurfaceGone)
    } else if facts.legacy {
        Some(ProbeError::LegacySurface)
    } else if facts.commit_pending {
        Some(ProbeError::ChangesPending)
    } else if !facts.connector_active {
        Some(ProbeError::ConnectorInactive)
    } else if facts.connector == ConnectorFacts::Unreadable {
        Some(ProbeError::ConnectorUnreadable)
    } else if facts.connector == ConnectorFacts::Disconnected {
        Some(ProbeError::ConnectorDisconnected)
    } else if !facts.same_descriptor {
        Some(ProbeError::DescriptorsDiffer)
    } else if facts.width == 0 || facts.height == 0 {
        Some(ProbeError::EmptyMode)
    } else {
        None
    }
}

/// The modifiers that the copy engine can read and the renderer can draw to, in the engine's
/// order.
pub open spec fn shared_modifiers(
    format: Fourcc,
    modifiers: Seq<u64>,
    formats: Seq<FormatModifier>,
) -> Seq<u64> {
    modifiers.filter(|modifier: u64| formats.contains(FormatModifier { format, modifier }))
}

/// The modifiers that a source can have, or why there are none.
pub open spec fn source_modifiers(
    format: Fourcc,
    facts: SourceFactsView,
) -> Result<Seq<u64>, ProbeError> {
    match facts.modifiers {
        None => Err(ProbeError::SourceQueryFailed),
        Some(modifiers) => if !facts.devices_listed {
            Err(ProbeError::DevicesUnavailable)
        } else if !facts.primary_present {
            Err(ProbeError::PrimaryUnavailable)
        } else {
            match facts.formats {
                None => Err(ProbeError::NoRenderFormats),
                Some(formats) => if shared_modifiers(format, modifiers, formats).len() == 0 {
                    Err(ProbeError::NoSharedModifiers)
                } else {
                    Ok(shared_modifiers(format, modifiers, formats))
                },
            }
        },
    }
}

impl ProbeView {
    /// A probe at its start.
    pub open spec fn starting(format: Fourcc) -> Self {
        ProbeView {
            format,
            phase: ProbePhase::Preflight,
            width: 0,
            height: 0,
            shared: seq![],
            source_size: Size { w: 0, h: 0 },
            actual_modifier: None,
            accepted_without_fence: false,
            native_fence: false,
            complete_at_test: None,
            outstanding: seq![],
        }
    }

    /// The probe in its next phase.
    pub open spec fn at(self, phase: ProbePhase) -> Self {
        ProbeView { phase, ..self }
    }

    /// The end of the probe, once all that was submitted is retired.
    pub open spec fn ending(self, failure: Option<ProbeFailure>) -> Self {
        if self.outstanding.len() == 0 {
            self.at(ProbePhase::Done(failure))
        } else {
            self.at(ProbePhase::Retire(failure))
        }
    }

    /// The end of the probe by a failure in its current phase.
    pub open spec fn failing(self, error: ProbeError) -> Self {
        self.ending(Some(ProbeFailure { stage: stage_of(self.phase), error }))
    }

    /// The probe with one more piece of work submitted.
    pub open spec fn submitted(self, submission: Submission) -> Self {
        ProbeView { outstanding: self.outstanding.push(submission), ..self }
    }

    /// The probe with its latest piece of work retired.
    pub open spec fn retired(self) -> Self {
        ProbeView { outstanding: self.outstanding.drop_last(), ..self }
    }

    /// Whether a source buffer is what was asked for.
    pub open spec fn takes_source(self, buffer: BufferFacts) -> bool {
        buffer.format == self.format && self.shared.contains(buffer.modifier) && buffer.planes == 1
    }

    /// Whether a private buffer is what was asked for: one linear plane.
    pub open spec fn takes_scanout(self, buffer: BufferFacts) -> bool {
        buffer.modifier == LINEAR && buffer.format == self.format && buffer.planes == 1
    }

    /// Whether both buffers have the extent of the mode.
    pub open spec fn sizes_agree(self, buffer: BufferFacts) -> bool {
        self.source_size == buffer.size && buffer.size.w == self.width && buffer.size.h
            == self.height
    }

    /// What follows an answer. One that was not asked for is ignored.
    pub open spec fn follows(self, answer: ProbeAnswerView) -> Self {
        match (self.phase, answer) {
            (ProbePhase::Preflight, ProbeAnswerView::Preflight(facts)) => match preflight_error(
                facts,
            ) {
                Some(error) => self.failing(error),
                None => ProbeView {
                    width: facts.width as u32,
                    height: facts.height as u32,
                    ..self
                }.at(ProbePhase::SourceQuery),
            },
            (ProbePhase::SourceQuery, ProbeAnswerView::Source(facts)) => match source_modifiers(
                self.format,
                facts,
            ) {
                Err(error) => self.failing(error),
                Ok(shared) => ProbeView { shared, ..self }.at(ProbePhase::SourceAllocation),
            },
            (ProbePhase::SourceAllocation, ProbeAnswerView::SourceAllocated(buffer)) => match buffer {
                None => self.failing(ProbeError::SourceAllocationFailed),
                Some(buffer) => if self.takes_source(buffer) {
                    ProbeView { source_size: buffer.size, ..self }.at(ProbePhase::ScanoutAllocation)
                } else {
                    self.failing(ProbeError::SourceMismatch)
                },
            },
            (ProbePhase::ScanoutAllocation, ProbeAnswerView::ScanoutAllocated(modifier)) => {
                match modifier {
                    None => self.failing(ProbeError::ScanoutAllocationFailed),
                    Some(_) => ProbeView { actual_modifier: modifier, ..self }.at(
                        ProbePhase::ScanoutExport,
                    ),
                }
            },
            (ProbePhase::ScanoutExport, ProbeAnswerView::ScanoutExported(buffer)) => match buffer {
                None => self.failing(ProbeError::ScanoutExportFailed),
                Some(buffer) => if !self.takes_scanout(buffer) {
                    self.failing(ProbeError::ScanoutMismatch)
                } else if !self.sizes_agree(buffer) {
                    self.failing(ProbeError::SizeMismatch)
                } else {
                    self.at(ProbePhase::Framebuffer)
                },
            },
            (ProbePhase::Framebuffer, ProbeAnswerView::FramebufferCreated(done)) => if done {
                self.at(ProbePhase::Render(Round::First))
            } else {
                self.failing(ProbeError::FramebufferFailed)
            },
            (ProbePhase::Render(round), ProbeAnswerView::Rendered(done)) => if done {
                self.submitted(Submission::Render(round)).at(ProbePhase::Copy(round))
            } else {
                self.failing(ProbeError::RenderFailed)
            },
            (ProbePhase::Copy(round), ProbeAnswerView::Copied(done)) => if done {
                self.submitted(Submission::Copy(round)).at(
                    match round {
                        Round::First => ProbePhase::Complete,
                        Round::Second => ProbePhase::FenceExport,
                    },
                )
            } else {
                self.failing(ProbeError::CopyFailed)
            },
            (ProbePhase::Complete, ProbeAnswerView::Retired) => self.retired().at(
                ProbePhase::Inspect(Round::First),
            ),
            (ProbePhase::Inspect(round), ProbeAnswerView::Surface(legacy, pending)) => if legacy {
                self.failing(ProbeError::LegacySurface)
            } else if pending {
                self.failing(ProbeError::ChangesPending)
            } else {
                self.at(ProbePhase::Test(round))
            },
            (ProbePhase::Test(Round::First), ProbeAnswerView::Tested(accepted)) => if accepted {
                ProbeView { accepted_without_fence: true, ..self }.at(
                    ProbePhase::Render(Round::Second),
                )
            } else {
                self.failing(ProbeError::TestRefused)
            },
            (ProbePhase::FenceExport, ProbeAnswerView::FenceExported(done)) => if done {
                ProbeView { native_fence: true, ..self }.at(ProbePhase::Completion)
            } else {
                self.failing(ProbeError::NoNativeFence)
            },
            (ProbePhase::Completion, ProbeAnswerView::Completion(complete)) => ProbeView {
                complete_at_test: Some(complete),
                ..self
            }.at(ProbePhase::Inspect(Round::Second)),
            (ProbePhase::Test(Round::Second), ProbeAnswerView::Tested(accepted)) => self.at(
                ProbePhase::Settle(accepted),
            ),
            (ProbePhase::Settle(accepted), ProbeAnswerView::Retired) => if accepted {
                self.retired().ending(None)
            } else {
                self.retired().failing(ProbeError::TestRefused)
            },
            (ProbePhase::Retire(failure), ProbeAnswerView::Retired) => self.retired().ending(failure),
            _ => self,
        }
    }

    /// What the compositor is asked to do.
    pub open spec fn asks(self) -> ProbeActionView {
        match self.phase {
            ProbePhase::Preflight => ProbeActionView::ReadPreflight,
            ProbePhase::SourceQuery => ProbeActionView::QuerySource(
                self.format,
                self.width,
                self.height,
            ),
            ProbePhase::SourceAllocation => ProbeActionView::AllocateSource(
                self.format,
                self.width,
                self.height,
                self.shared,
            ),
            ProbePhase::ScanoutAllocation => ProbeActionView::AllocateScanout(
                self.format,
                self.width,
                self.height,
            ),
            ProbePhase::ScanoutExport => ProbeActionView::ExportScanout,
            ProbePhase::Framebuffer => ProbeActionView::CreateFramebuffer,
            ProbePhase::Render(round) => ProbeActionView::RenderSource(round),
            ProbePhase::Copy(_) => ProbeActionView::Copy,
            ProbePhase::Complete | ProbePhase::Settle(_) | ProbePhase::Retire(_) => {
                ProbeActionView::Retire(self.outstanding.last())
            },
            ProbePhase::Inspect(_) => ProbeActionView::InspectSurface,
            ProbePhase::Test(round) => ProbeActionView::Test(round == Round::Second),
            ProbePhase::FenceExport => ProbeActionView::ExportFence,
            ProbePhase::Completion => ProbeActionView::ReadCompletion,
            ProbePhase::Done(failure) => ProbeActionView::Finish(failure),
        }
    }

    /// The work that is outstanding in each phase, whether the request without a fence was
    /// accepted, and when there is a fence.
    pub open spec fn is_consistent(self) -> bool {
        let first_render = Submission::Render(Round::First);
        let second_render = Submission::Render(Round::Second);
        match self.phase {
            ProbePhase::Copy(Round::First) | ProbePhase::Inspect(Round::First)
            | ProbePhase::Test(Round::First) => self.outstanding == seq![first_render],
            ProbePhase::Complete => self.outstanding == seq![
                first_render,
                Submission::Copy(Round::First),
            ],
            ProbePhase::Render(Round::Second) => self.accepted_without_fence && self.outstanding
                == seq![first_render],
            ProbePhase::Copy(Round::Second) => self.accepted_without_fence && self.outstanding
                == seq![first_render, second_render],
            ProbePhase::FenceExport => self.accepted_without_fence && self.outstanding == seq![
                first_render,
                second_render,
                Submission::Copy(Round::Second),
            ],
            ProbePhase::Completion | ProbePhase::Inspect(Round::Second)
            | ProbePhase::Test(Round::Second) | ProbePhase::Settle(_) => {
                &&& self.accepted_without_fence
                &&& self.native_fence
                &&& self.outstanding == seq![
                    first_render,
                    second_render,
                    Submission::Copy(Round::Second),
                ]
            },
            ProbePhase::Retire(failure) => {
                &&& 0 < self.outstanding.len() <= 3
                &&& failure is None ==> self.accepted_without_fence && self.native_fence
            },
            ProbePhase::Done(failure) => {
                &&& self.outstanding == Seq::<Submission>::empty()
                &&& failure is None ==> self.accepted_without_fence && self.native_fence
            },
            _ => self.outstanding == Seq::<Submission>::empty(),
        }
    }
}

/// Checks the selected output before anything is allocated.
pub fn check_preflight(facts: &PreflightFacts) -> (result: Result<(), ProbeError>)
    ensures
        match result {
            Ok(()) => preflight_error(*facts) is None,
            Err(error) => preflight_error(*facts) == Some(error),
        },
{
    if !facts.session_active {
        Err(ProbeError::SessionInactive)
    } else if !facts.known_output {
        Err(ProbeError::UnknownOutput)
    } else if !facts.device_present {
        Err(ProbeError::DeviceGone)
    } else if !facts.atomic {
        Err(ProbeError::NotAtomic)
    } else if !facts.surface_present {
        Err(ProbeError::SurfaceGone)
    } else if facts.legacy {
        Err(ProbeError::LegacySurface)
    } else if facts.commit_pending {
        Err(ProbeError::ChangesPending)
    } else if !facts.connector_active {
        Err(ProbeError::ConnectorInactive)
    } else if facts.connector == ConnectorFacts::Unreadable {
        Err(ProbeError::ConnectorUnreadable)
    } else if facts.connector == ConnectorFacts::Disconnected {
        Err(ProbeError::ConnectorDisconnected)
    } else if !facts.same_descriptor {
        Err(ProbeError::DescriptorsDiffer)
    } else if facts.width == 0 || facts.height == 0 {
        Err(ProbeError::EmptyMode)
    } else {
        Ok(())
    }
}

fn shared_with(format: Fourcc, modifiers: &Vec<u64>, formats: &Vec<FormatModifier>) -> (shared: Vec<u64>)
    ensures
        shared@ == shared_modifiers(format, modifiers@, formats@),
{
    let mut shared: Vec<u64> = Vec::new();
    let ghost test = |modifier: u64| formats@.contains(FormatModifier { format, modifier });
    let mut i: usize = 0;
    reveal(Seq::filter);
    assert(modifiers@.take(0).filter(test) =~= Seq::<u64>::empty());
    while i < modifiers.len()
        invariant
            i <= modifiers@.len(),
            test == (|modifier: u64| formats@.contains(FormatModifier { format, modifier })),
            shared@ == modifiers@.take(i as int).filter(test),
        decreases modifiers@.len() - i,
    {
        let modifier: u64 = modifiers[i];
        reveal(Seq::filter);
        assert(modifiers@.take(i + 1).drop_last() =~= modifiers@.take(i as int));
        if contains_format(formats, FormatModifier { format, modifier }) {
            shared.push(modifier);
        }
        i = i + 1;
    }
    assert(modifiers@.take(i as int) =~= modifiers@);
    shared
}

/// The modifiers that a source can have, or why there are none.
pub fn negotiate_source(format: Fourcc, facts: &SourceFacts) -> (shared: Result<Vec<u64>, ProbeError>)
    ensures
        match shared {
            Ok(shared) => source_modifiers(format, facts@) == Ok::<Seq<u64>, ProbeError>(shared@),
            Err(error) => source_modifiers(format, facts@) == Err::<Seq<u64>, ProbeError>(error),
        },
{
    let modifiers = match &facts.modifiers {
        Some(modifiers) => modifiers,
        None => {
            return Err(ProbeError::SourceQueryFailed);
        },
    };
    if !facts.devices_listed {
        return Err(ProbeError::DevicesUnavailable);
    }
    if !facts.primary_present {
        return Err(ProbeError::PrimaryUnavailable);
    }
    let formats = match &facts.formats {
        Some(formats) => formats,
        None => {
            return Err(ProbeError::NoRenderFormats);
        },
    };
    let shared = shared_with(format, modifiers, formats);
    if shared.len() == 0 {
        return Err(ProbeError::NoSharedModifiers);
    }
    Ok(shared)
}

fn is_shared(shared: &Vec<u64>, modifier: u64) -> (found: bool)
    ensures
        found == shared@.contains(modifier),
{
    let mut i: usize = 0;
    while i < shared.len()
        invariant
            i <= shared@.len(),
            forall|j: int| 0 <= j < i ==> shared@[j] != modifier,
        decreases shared@.len() - i,
    {
        if shared[i] == modifier {
            return true;
        }
        i = i + 1;
    }
    false
}

impl Probe {
    /// A probe of a format, which starts with the preflight.
    pub fn new(format: Fourcc) -> (probe: Probe)
        ensures
            probe@ == ProbeView::starting(format),
            probe@.is_consistent(),
    {
        Probe {
            format,
            phase: ProbePhase::Preflight,
            width: 0,
            height: 0,
            shared: Vec::new(),
            source_size: Size { w: 0, h: 0 },
            actual_modifier: None,
            accepted_without_fence: false,
            native_fence: false,
            complete_at_test: None,
            outstanding: Vec::new(),
        }
    }

    /// The part of the probe that a report names.
    pub fn stage(&self) -> (stage: ProbeStage)
        ensures
            stage == stage_of(self@.phase),
    {
        match self.phase {
            ProbePhase::Preflight => ProbeStage::Preflight,
            ProbePhase::SourceQuery | ProbePhase::SourceAllocation => ProbeStage::SourceAllocation,
            ProbePhase::ScanoutAllocation | ProbePhase::ScanoutExport => ProbeStage::ScanoutAllocation,
            ProbePhase::Framebuffer => ProbeStage::FramebufferCreation,
            ProbePhase::Render(Round::First) => ProbeStage::FirstSourceRender,
            ProbePhase::Copy(Round::First) | ProbePhase::Complete => ProbeStage::FirstCopy,
            ProbePhase::Inspect(Round::First) | ProbePhase::Test(Round::First) => {
                ProbeStage::CompletedCopyNoFence
            },
            ProbePhase::Render(Round::Second) => ProbeStage::SecondSourceRender,
            ProbePhase::Copy(Round::Second) => ProbeStage::SecondCopy,
            ProbePhase::FenceExport => ProbeStage::NativeCopyFenceExport,
            _ => ProbeStage::NativeCopyFenceTest,
        }
    }

    fn end(&mut self, failure: Option<ProbeFailure>)
        ensures
            final(self)@ == old(self)@.ending(failure),
    {
        if self.outstanding.len() == 0 {
            self.phase = ProbePhase::Done(failure);
        } else {
            self.phase = ProbePhase::Retire(failure);
        }
    }

    fn fail(&mut self, error: ProbeError)
        ensures
            final(self)@ == old(self)@.failing(error),
    {
        let stage = self.stage();
        self.end(Some(ProbeFailure { stage, error }));
    }

    /// What the compositor is asked to do. It is asked until it is answered.
    pub fn action(&self) -> (action: ProbeAction)
        requires
            self@.is_consistent(),
        ensures
            action@ == self@.asks(),
    {
        match self.phase {
            ProbePhase::Preflight => ProbeAction::ReadPreflight,
            ProbePhase::SourceQuery => ProbeAction::QuerySource(self.format, self.width, self.height),
            ProbePhase::SourceAllocation => {
                let shared = self.shared.clone();
                assert(shared@ =~= self.shared@);
                ProbeAction::AllocateSource(self.format, self.width, self.height, shared)
            },
            ProbePhase::ScanoutAllocation => ProbeAction::AllocateScanout(
                self.format,
                self.width,
                self.height,
            ),
            ProbePhase::ScanoutExport => ProbeAction::ExportScanout,
            ProbePhase::Framebuffer => ProbeAction::CreateFramebuffer,
            ProbePhase::Render(round) => ProbeAction::RenderSource(round),
            ProbePhase::Copy(_) => ProbeAction::Copy,
            ProbePhase::Complete | ProbePhase::Settle(_) | ProbePhase::Retire(_) => {
                ProbeAction::Retire(self.outstanding[self.outstanding.len() - 1])
            },
            ProbePhase::Inspect(_) => ProbeAction::InspectSurface,
            ProbePhase::Test(round) => ProbeAction::Test(round == Round::Second),
            ProbePhase::FenceExport => ProbeAction::ExportFence,
            ProbePhase::Completion => ProbeAction::ReadCompletion,
            ProbePhase::Done(failure) => ProbeAction::Finish(failure),
        }
    }

    /// Takes an answer to what was asked.
    pub fn step(&mut self, answer: ProbeAnswer)
        requires
            old(self)@.is_consistent(),
        ensures
            final(self)@ == old(self)@.follows(answer@),
            final(self)@.is_consistent(),
    {
        proof {
            law_probe_stays_consistent(self@, answer@);
        }
        self.take(answer);
    }

    #[verifier::rlimit(60)]
    #[verifier::spinoff_prover]
    fn take(&mut self, answer: ProbeAnswer)
        requires
            old(self)@.phase is Complete || old(self)@.phase is Settle || old(self)@.phase is Retire
                ==> old(self)@.outstanding.len() > 0,
        ensures
            final(self)@ == old(self)@.follows(answer@),
    {
        match (self.phase, answer) {
            (ProbePhase::Preflight, ProbeAnswer::Preflight(facts)) => match check_preflight(&facts) {
                Ok(()) => {
                    self.width = facts.width as u32;
                    self.height = facts.height as u32;
                    self.phase = ProbePhase::SourceQuery;
                },
                Err(error) => self.fail(error),
            },
            (ProbePhase::SourceQuery, ProbeAnswer::Source(facts)) => match negotiate_source(
                self.format,
                &facts,
            ) {
                Ok(shared) => {
                    self.shared = shared;
                    self.phase = ProbePhase::SourceAllocation;
                },
                Err(error) => self.fail(error),
            },
            (ProbePhase::SourceAllocation, ProbeAnswer::SourceAllocated(buffer)) => match buffer {
                None => self.fail(ProbeError::SourceAllocationFailed),
                Some(buffer) => {
                    if buffer.format == self.format && is_shared(&self.shared, buffer.modifier)
                        && buffer.planes == 1 {
                        self.source_size = buffer.size;
                        self.phase = ProbePhase::ScanoutAllocation;
                    } else {
                        self.fail(ProbeError::SourceMismatch);
                    }
                },
            },
            (ProbePhase::ScanoutAllocation, ProbeAnswer::ScanoutAllocated(modifier)) => {
                if modifier.is_none() {
                    self.fail(ProbeError::ScanoutAllocationFailed);
                } else {
                    self.actual_modifier = modifier;
                    self.phase = ProbePhase::ScanoutExport;
                }
            },
            (ProbePhase::ScanoutExport, ProbeAnswer::ScanoutExported(buffer)) => match buffer {
                None => self.fail(ProbeError::ScanoutExportFailed),
                Some(buffer) => {
                    if buffer.modifier != LINEAR || buffer.format != self.format || buffer.planes != 1 {
                        self.fail(ProbeError::ScanoutMismatch);
                    } else if !(self.source_size == buffer.size && buffer.size.w as i64
                        == self.width as i64 && buffer.size.h as i64 == self.height as i64) {
                        self.fail(ProbeError::SizeMismatch);
                    } else {
                        self.phase = ProbePhase::Framebuffer;
                    }
                },
            },
            (ProbePhase::Framebuffer, ProbeAnswer::FramebufferCreated(done)) => {
                if done {
                    self.phase = ProbePhase::Render(Round::First);
                } else {
                    self.fail(ProbeError::FramebufferFailed);
                }
            },
            (ProbePhase::Render(round), ProbeAnswer::Rendered(done)) => {
                if done {
                    self.outstanding.push(Submission::Render(round));
                    self.phase = ProbePhase::Copy(round);
                } else {
                    self.fail(ProbeError::RenderFailed);
                }
            },
            (ProbePhase::Copy(round), ProbeAnswer::Copied(done)) => {
                if done {
                    self.outstanding.push(Submission::Copy(round));
                    self.phase = match round {
                        Round::First => ProbePhase::Complete,
                        Round::Second => ProbePhase::FenceExport,
                    };
                } else {
                    self.fail(ProbeError::CopyFailed);
                }
            },
            (ProbePhase::Complete, ProbeAnswer::Retired) => {
                let _ = self.outstanding.pop();
                self.phase = ProbePhase::Inspect(Round::First);
            },
            (ProbePhase::Inspect(round), ProbeAnswer::Surface(legacy, pending)) => {
                if legacy {
                    self.fail(ProbeError::LegacySurface);
                } else if pending {
                    self.fail(ProbeError::ChangesPending);
                } else {
                    self.phase = ProbePhase::Test(round);
                }
            },
            (ProbePhase::Test(Round::First), ProbeAnswer::Tested(accepted)) => {
                if accepted {
                    self.accepted_without_fence = true;
                    self.phase = ProbePhase::Render(Round::Second);
                } else {
                    self.fail(ProbeError::TestRefused);
                }
            },
            (ProbePhase::FenceExport, ProbeAnswer::FenceExported(done)) => {
                if done {
                    self.native_fence = true;
                    self.phase = ProbePhase::Completion;
                } else {
                    self.fail(ProbeError::NoNativeFence);
                }
            },
            (ProbePhase::Completion, ProbeAnswer::Completion(complete)) => {
                self.complete_at_test = Some(complete);
                self.phase = ProbePhase::Inspect(Round::Second);
            },
            (ProbePhase::Test(Round::Second), ProbeAnswer::Tested(accepted)) => {
                self.phase = ProbePhase::Settle(accepted);
            },
            (ProbePhase::Settle(accepted), ProbeAnswer::Retired) => {
                let _ = self.outstanding.pop();
                if accepted {
                    self.end(None);
                } else {
                    self.fail(ProbeError::TestRefused);
                }
            },
            (ProbePhase::Retire(failure), ProbeAnswer::Retired) => {
                let _ = self.outstanding.pop();
                self.end(failure);
            },
            _ => {},
        }
    }
}

/// Every answer keeps the probe consistent: what is outstanding, and whether there is a fence,
/// follows from where the probe stands.
pub proof fn law_probe_stays_consistent(probe: ProbeView, answer: ProbeAnswerView)
    requires
        probe.is_consistent(),
    ensures
        probe.follows(answer).is_consistent(),
{
    let next = probe.follows(answer);
    let first_render = Submission::Render(Round::First);
    let second_render = Submission::Render(Round::Second);
    match (probe.phase, answer) {
        (ProbePhase::Render(Round::First), ProbeAnswerView::Rendered(true)) => {
            assert(next.outstanding =~= seq![first_render]);
        },
        (ProbePhase::Copy(Round::First), ProbeAnswerView::Copied(true)) => {
            assert(next.outstanding =~= seq![first_render, Submission::Copy(Round::First)]);
        },
        (ProbePhase::Complete, ProbeAnswerView::Retired) => {
            assert(next.outstanding =~= seq![first_render]);
        },
        (ProbePhase::Render(Round::Second), ProbeAnswerView::Rendered(true)) => {
            assert(next.outstanding =~= seq![first_render, second_render]);
        },
        (ProbePhase::Copy(Round::Second), ProbeAnswerView::Copied(true)) => {
            assert(next.outstanding =~= seq![
                first_render,
                second_render,
                Submission::Copy(Round::Second),
            ]);
        },
        (ProbePhase::Settle(_), ProbeAnswerView::Retired) => {
            assert(next.outstanding =~= seq![first_render, second_render]);
        },
        (ProbePhase::Retire(_), ProbeAnswerView::Retired) => {
            if next.outstanding.len() == 0 {
                assert(next.outstanding =~= Seq::<Submission>::empty());
            }
        },
        _ => {
            if next.outstanding.len() == 0 {
                assert(next.outstanding =~= Seq::<Submission>::empty());
            }
        },
    }
}

/// Nothing is dropped while the GPU still uses it: a probe that is done has retired all that it
/// submitted, whether it passed or failed.
pub proof fn law_all_work_is_retired(probe: ProbeView)
    requires
        probe.is_consistent(),
        probe.asks() is Finish,
    ensures
        probe.outstanding.len() == 0,
{
}

/// An interrupted wait is no completion: while work is to be waited for, any answer but that it
/// is complete leaves the probe as it was, so that the same work is waited for again.
pub proof fn law_only_completion_retires_work(probe: ProbeView, answer: ProbeAnswerView)
    requires
        probe.asks() is Retire,
        answer != ProbeAnswerView::Retired,
    ensures
        probe.follows(answer) == probe,
        probe.follows(answer).asks() == probe.asks(),
{
}

/// A request is tested only on a surface that was just seen to be atomic and without pending
/// changes. A surface without atomic requests would accept anything.
pub proof fn law_tests_need_a_stable_atomic_surface(probe: ProbeView, answer: ProbeAnswerView)
    requires
        !(probe.asks() is Test),
        probe.follows(answer).asks() is Test,
    ensures
        probe.asks() is InspectSurface,
        answer == ProbeAnswerView::Surface(false, false),
{
}

/// The request without a fence is tested only after its copy is complete; the request with a
/// fence only after its copy handed one out, and without waiting for that copy.
pub proof fn law_each_test_has_its_copy(probe: ProbeView)
    requires
        probe.is_consistent(),
    ensures
        probe.asks() == ProbeActionView::Test(false) ==> !probe.outstanding.contains(
            Submission::Copy(Round::First),
        ),
        probe.asks() == ProbeActionView::Test(true) ==> probe.native_fence
            && probe.outstanding.contains(Submission::Copy(Round::Second)),
{
    if probe.asks() == ProbeActionView::Test(true) {
        assert(probe.outstanding[2] == Submission::Copy(Round::Second));
    }
}

/// The copy whose fence was tested is retired even where the request was refused.
pub proof fn law_refused_request_still_retires_its_copy(probe: ProbeView, accepted: bool)
    requires
        probe.is_consistent(),
        probe.asks() == ProbeActionView::Test(true),
    ensures
        probe.follows(ProbeAnswerView::Tested(accepted)).asks() == ProbeActionView::Retire(
            Submission::Copy(Round::Second),
        ),
{
}

/// A probe passes only if both requests were accepted: the step that ends it without a failure,
/// or starts to, comes after an accepted test with a fence, before which the one without a fence
/// was accepted.
pub proof fn law_a_pass_needs_both_tests(probe: ProbeView, answer: ProbeAnswerView)
    requires
        probe.is_consistent(),
        !(probe.phase matches ProbePhase::Retire(None)),
        !(probe.phase matches ProbePhase::Done(None)),
        probe.follows(answer).phase matches ProbePhase::Retire(None)
            || probe.follows(answer).phase matches ProbePhase::Done(None),
    ensures
        probe.phase == ProbePhase::Settle(true),
        probe.accepted_without_fence,
        probe.native_fence,
{
}

/// Only an accepted request counts as one: with a fence or without, it takes a test of that very
/// kind that the kernel accepted.
pub proof fn law_only_accepted_requests_count(probe: ProbeView, answer: ProbeAnswerView)
    ensures
        !probe.accepted_without_fence && probe.follows(answer).accepted_without_fence
            ==> probe.asks() == ProbeActionView::Test(false) && answer == ProbeAnswerView::Tested(true),
        probe.phase != ProbePhase::Settle(true) && probe.follows(answer).phase
            == ProbePhase::Settle(true) ==> probe.asks() == ProbeActionView::Test(true) && answer
            == ProbeAnswerView::Tested(true),
{
}

/// How far a probe is from its end.
pub open spec fn distance(probe: ProbeView) -> nat {
    match probe.phase {
        ProbePhase::Preflight => 30,
        ProbePhase::SourceQuery => 29,
        ProbePhase::SourceAllocation => 28,
        ProbePhase::ScanoutAllocation => 27,
        ProbePhase::ScanoutExport => 26,
        ProbePhase::Framebuffer => 25,
        ProbePhase::Render(Round::First) => 24,
        ProbePhase::Copy(Round::First) => 23,
        ProbePhase::Complete => 22,
        ProbePhase::Inspect(Round::First) => 21,
        ProbePhase::Test(Round::First) => 20,
        ProbePhase::Render(Round::Second) => 19,
        ProbePhase::Copy(Round::Second) => 18,
        ProbePhase::FenceExport => 17,
        ProbePhase::Completion => 16,
        ProbePhase::Inspect(Round::Second) => 15,
        ProbePhase::Test(Round::Second) => 14,
        ProbePhase::Settle(_) => 13,
        ProbePhase::Retire(_) => probe.outstanding.len(),
        ProbePhase::Done(_) => 0,
    }
}

/// A probe ends: an answer is ignored, or brings the end closer.
pub proof fn law_probe_ends(probe: ProbeView, answer: ProbeAnswerView)
    requires
        probe.is_consistent(),
    ensures
        probe.follows(answer) == probe || distance(probe.follows(answer)) < distance(probe),
{
}

/// The formats that are probed, one after the other. A failure of one does not touch the other.
pub fn probe_formats() -> (formats: Vec<Fourcc>)
    ensures
        formats@ == seq![Fourcc { code: ABGR8888 }, Fourcc { code: ABGR2101010 }],
{
    let mut formats: Vec<Fourcc> = Vec::new();
    formats.push(Fourcc { code: ABGR8888 });
    formats.push(Fourcc { code: ABGR2101010 });
    assert(formats@ =~= seq![Fourcc { code: ABGR8888 }, Fourcc { code: ABGR2101010 }]);
    formats
}

/// What is drawn into a source: one of two colours everywhere, the other in a corner.
#[derive(Debug, Clone, Copy, PartialEq, Eq, Structural)]
pub struct SourcePattern {
    /// The index of the colour of the whole buffer.
    pub background: usize,
    /// The index of the colour of the corner.
    pub foreground: usize,
    /// The extent of the corner, from the origin.
    pub corner: Size,
}

/// The index of the colour of the whole buffer in a round.
pub open spec fn background_of(round: Round) -> int {
    match round {
        Round::First => 0,
        Round::Second => 1,
    }
}

/// The index of the colour of the corner in a round.
pub open spec fn foreground_of(round: Round) -> int {
    1 - background_of(round)
}

/// The extent of the corner: a third of the width and two fifths of the height.
pub open spec fn corner_of(size: Size) -> Size {
    Size { w: (size.w as int / 3) as i32, h: (size.h * 2 / 5) as i32 }
}

/// The pattern of a round. The rounds swap the two colours.
pub fn source_pattern(size: Size, round: Round) -> (pattern: SourcePattern)
    requires
        0 <= size.w,
        0 <= size.h <= i32::MAX / 2,
    ensures
        pattern.background == if round == Round::First { 0int } else { 1int },
        pattern.foreground == 1 - pattern.background,
        pattern.corner.w == size.w as int / 3,
        pattern.corner.h == size.h * 2 / 5,
        pattern.background == background_of(round),
        pattern.foreground == foreground_of(round),
        pattern.corner == corner_of(size),
{
    let background: usize = match round {
        Round::First => 0,
        Round::Second => 1,
    };
    SourcePattern {
        background,
        foreground: 1 - background,
        corner: Size { w: size.w / 3, h: size.h * 2 / 5 },
    }
}

/// What the opt-in variable asks for.
#[derive(Debug, PartialEq, Eq)]
pub enum OptIn {
    /// Nothing: no event source and no thread is created.
    Off,
    /// An output whose name is no text.
    NotText,
    /// An output without a name.
    Empty,
    /// A probe of the output of that name.
    Armed(String),
}

/// Reads the opt-in variable.
pub fn opt_in(value: Option<Vec<u8>>) -> (wanted: OptIn)
    ensures
        match wanted {
            OptIn::Off => value is None,
            OptIn::NotText => value matches Some(bytes) && !vstd::utf8::valid_utf8(bytes@),
            OptIn::Empty => value matches Some(bytes) && bytes@.len() == 0,
            OptIn::Armed(name) => value matches Some(bytes) && bytes@.len() > 0
                && vstd::utf8::encode_utf8(name@) == bytes@,
        },
{
    let bytes = match value {
        Some(bytes) => bytes,
        None => {
            return OptIn::Off;
        },
    };
    match std::str::from_utf8(bytes.as_slice()) {
        Ok(name) => {
            if bytes.len() == 0 {
                OptIn::Empty
            } else {
                OptIn::Armed(name.to_owned())
            }
        },
        Err(_) => OptIn::NotText,
    }
}

/// How long after the start of the event loop the copy engine is set up.
pub fn setup_delay() -> (delay: Duration)
    ensures
        crate::time::duration_nanos(delay) == 2_000_000_000,
{
    Duration::from_millis(2_000)
}

/// How the setup of the copy engine came out.
#[derive(Debug, Clone, Copy, PartialEq, Eq, Structural)]
pub enum SetupEvent {
    Ready,
    Failed,
    /// The setup ended without a result.
    Closed,
}

/// What to do with the setup.
#[derive(Debug, Clone, Copy, PartialEq, Eq, Structural)]
pub enum TriggerAction {
    /// Nothing: the probe was triggered before.
    Ignore,
    ReportClosed,
    ReportFailed,
    /// The selected output is not connected.
    ReportMissing,
    /// Probe the output at this place of the list.
    Probe(usize),
}

impl TriggerAction {
    /// How a report names the part of the setup that failed; `None` where nothing did.
    pub open spec fn failed_title(self) -> Option<Seq<char>> {
        match self {
            TriggerAction::ReportClosed => Some("init_channel_closed"@),
            TriggerAction::ReportFailed => Some("vulkan_init"@),
            TriggerAction::ReportMissing => Some("output_lookup"@),
            _ => None,
        }
    }

    /// How a report names the part of the setup that failed; `None` where nothing did.
    pub fn failed_stage(&self) -> (name: Option<&'static str>)
        ensures
            match name {
                Some(name) => self.failed_title() == Some(name@),
                None => self.failed_title() is None,
            },
    {
        match self {
            TriggerAction::ReportClosed => Some("init_channel_closed"),
            TriggerAction::ReportFailed => Some("vulkan_init"),
            TriggerAction::ReportMissing => Some("output_lookup"),
            _ => None,
        }
    }
}

/// A probe that waits for its copy engine. It is triggered once.
#[derive(Debug)]
pub struct ProbeTrigger {
    /// The name of the selected output.
    pub output: String,
    pub handled: bool,
}

impl ProbeTrigger {
    /// A trigger for the output of a name.
    pub fn new(output: String) -> (trigger: ProbeTrigger)
        ensures
            trigger.output == output,
            !trigger.handled,
    {
        ProbeTrigger { output, handled: false }
    }

    /// Takes an event of the setup, with the names of the connected outputs. The first event
    /// decides; later ones are ignored.
    pub fn receive(&mut self, event: SetupEvent, outputs: &Vec<String>) -> (action: TriggerAction)
        ensures
            final(self).handled,
            final(self).output == old(self).output,
            old(self).handled ==> action == TriggerAction::Ignore,
            !old(self).handled ==> match event {
                SetupEvent::Closed => action == TriggerAction::ReportClosed,
                SetupEvent::Failed => action == TriggerAction::ReportFailed,
                SetupEvent::Ready => match action {
                    TriggerAction::Probe(place) => crate::text::is_first(
                        outputs@,
                        old(self).output@,
                        place as int,
                    ),
                    action => action == TriggerAction::ReportMissing && !crate::text::is_listed(
                        outputs@,
                        old(self).output@,
                    ),
                },
            },
    {
        if self.handled {
            return TriggerAction::Ignore;
        }
        self.handled = true;
        match event {
            SetupEvent::Closed => TriggerAction::ReportClosed,
            SetupEvent::Failed => TriggerAction::ReportFailed,
            SetupEvent::Ready => {
                match first_of(outputs, self.output.as_str()) {
                    Some(place) => TriggerAction::Probe(place),
                    None => TriggerAction::ReportMissing,
                }
            },
        }
    }
}

/// Whether a probe ended by a failure: it is done, or retires what is outstanding first, and is
/// otherwise as it was.
pub open spec fn ended_by(
    before: ProbeView,
    after: ProbeView,
    stage: ProbeStage,
    error: ProbeError,
) -> bool {
    let failure = Some(ProbeFailure { stage, error });
    &&& before.outstanding.len() == 0 ==> after.phase == ProbePhase::Done(failure) && after.asks()
        == ProbeActionView::Finish(failure)
    &&& before.outstanding.len() > 0 ==> after.phase == ProbePhase::Retire(failure) && after.asks()
        == ProbeActionView::Retire(before.outstanding.last())
    &&& after == ProbeView { phase: after.phase, ..before }
}

/// What can stand against a probe, in the order in which it is looked at.
pub open spec fn obstacles(facts: PreflightFacts) -> Seq<(bool, ProbeError)> {
    seq![
        (!facts.session_active, ProbeError::SessionInactive),
        (!facts.known_output, ProbeError::UnknownOutput),
        (!facts.device_present, ProbeError::DeviceGone),
        (!facts.atomic, ProbeError::NotAtomic),
        (!facts.surface_present, ProbeError::SurfaceGone),
        (facts.legacy, ProbeError::LegacySurface),
        (facts.commit_pending, ProbeError::ChangesPending),
        (!facts.connector_active, ProbeError::ConnectorInactive),
        (facts.connector == ConnectorFacts::Unreadable, ProbeError::ConnectorUnreadable),
        (facts.connector == ConnectorFacts::Disconnected, ProbeError::ConnectorDisconnected),
        (!facts.same_descriptor, ProbeError::DescriptorsDiffer),
        (facts.width == 0 || facts.height == 0, ProbeError::EmptyMode),
    ]
}

/// A probe starts by reading what stands against it, with nothing found and nothing submitted. The
/// first obstacle ends it; without one it goes on in the extent of the mode.
pub proof fn law_preflight_finds_the_first_obstacle(
    format: Fourcc,
    probe: ProbeView,
    facts: PreflightFacts,
    i: int,
)
    requires
        probe.phase == ProbePhase::Preflight,
    ensures
        ProbeView::starting(format).phase == ProbePhase::Preflight,
        ProbeView::starting(format).asks() == ProbeActionView::ReadPreflight,
        ProbeView::starting(format).format == format,
        ProbeView::starting(format).outstanding.len() == 0,
        ProbeView::starting(format).actual_modifier is None,
        ProbeView::starting(format).complete_at_test is None,
        !ProbeView::starting(format).accepted_without_fence,
        !ProbeView::starting(format).native_fence,
        ({
            let next = probe.follows(ProbeAnswerView::Preflight(facts));
            &&& 0 <= i < obstacles(facts).len() && obstacles(facts)[i].0 && (forall|j: int|
                0 <= j < i ==> !(#[trigger] obstacles(facts)[j]).0) ==> ended_by(
                probe,
                next,
                ProbeStage::Preflight,
                obstacles(facts)[i].1,
            )
            &&& (forall|j: int|
                0 <= j < obstacles(facts).len() ==> !(#[trigger] obstacles(facts)[j]).0) ==> {
                &&& next.asks() == ProbeActionView::QuerySource(
                    probe.format,
                    facts.width as u32,
                    facts.height as u32,
                )
                &&& next.phase == ProbePhase::SourceQuery
            }
        }),
{
    let all = obstacles(facts);
    assert(all[0] == (!facts.session_active, ProbeError::SessionInactive));
    assert(all[1] == (!facts.known_output, ProbeError::UnknownOutput));
    assert(all[2] == (!facts.device_present, ProbeError::DeviceGone));
    assert(all[3] == (!facts.atomic, ProbeError::NotAtomic));
    assert(all[4] == (!facts.surface_present, ProbeError::SurfaceGone));
    assert(all[5] == (facts.legacy, ProbeError::LegacySurface));
    assert(all[6] == (facts.commit_pending, ProbeError::ChangesPending));
    assert(all[7] == (!facts.connector_active, ProbeError::ConnectorInactive));
    assert(all[8] == (
        facts.connector == ConnectorFacts::Unreadable,
        ProbeError::ConnectorUnreadable,
    ));
    assert(all[9] == (
        facts.connector == ConnectorFacts::Disconnected,
        ProbeError::ConnectorDisconnected,
    ));
    assert(all[10] == (!facts.same_descriptor, ProbeError::DescriptorsDiffer));
    assert(all[11] == (facts.width == 0 || facts.height == 0, ProbeError::EmptyMode));
}

/// Shared modifiers keep the engine's order and their number: those of two lists in a row are
/// those of the first and then those of the second, and a single one is shared exactly where the
/// renderer can draw to it in this format.
pub proof fn law_shared_modifiers_keep_their_order(
    format: Fourcc,
    first: Seq<u64>,
    second: Seq<u64>,
    formats: Seq<FormatModifier>,
    modifier: u64,
)
    ensures
        shared_modifiers(format, first + second, formats) == shared_modifiers(format, first, formats)
            + shared_modifiers(format, second, formats),
        shared_modifiers(format, seq![modifier], formats) == (if formats.contains(
            FormatModifier { format, modifier },
        ) {
            seq![modifier]
        } else {
            Seq::<u64>::empty()
        }),
        shared_modifiers(format, Seq::empty(), formats) == Seq::<u64>::empty(),
{
    let test = |m: u64| formats.contains(FormatModifier { format, modifier: m });
    Seq::filter_distributes_over_add(first, second, test);
    reveal(Seq::filter);
    assert(seq![modifier].drop_last() =~= Seq::<u64>::empty());
    assert(shared_modifiers(format, Seq::<u64>::empty(), formats) =~= Seq::<u64>::empty());
    if formats.contains(FormatModifier { format, modifier }) {
        assert(shared_modifiers(format, seq![modifier], formats) =~= seq![modifier]);
    } else {
        assert(shared_modifiers(format, seq![modifier], formats) =~= Seq::<u64>::empty());
    }
}

/// The source side goes on with the modifiers that are shared, as long as everything could be
/// asked and something is shared; otherwise the first thing that is missing ends the probe.
pub proof fn law_sources_need_shared_modifiers(probe: ProbeView, facts: SourceFactsView)
    requires
        probe.phase == ProbePhase::SourceQuery,
    ensures
        ({
            let next = probe.follows(ProbeAnswerView::Source(facts));
            let stage = ProbeStage::SourceAllocation;
            let asked = facts.modifiers is Some;
            let found = asked && facts.devices_listed && facts.primary_present;
            let both = found && facts.formats is Some;
            let shared = shared_modifiers(probe.format, facts.modifiers->0, facts.formats->0);
            &&& !asked ==> ended_by(probe, next, stage, ProbeError::SourceQueryFailed)
            &&& asked && !facts.devices_listed ==> ended_by(
                probe,
                next,
                stage,
                ProbeError::DevicesUnavailable,
            )
            &&& asked && facts.devices_listed && !facts.primary_present ==> ended_by(
                probe,
                next,
                stage,
                ProbeError::PrimaryUnavailable,
            )
            &&& found && facts.formats is None ==> ended_by(
                probe,
                next,
                stage,
                ProbeError::NoRenderFormats,
            )
            &&& both && shared.len() == 0 ==> ended_by(
                probe,
                next,
                stage,
                ProbeError::NoSharedModifiers,
            )
            &&& both && shared.len() > 0 ==> {
                &&& next.phase == ProbePhase::SourceAllocation
                &&& next.shared == shared
                &&& next.asks() == ProbeActionView::AllocateSource(
                    probe.format,
                    probe.width,
                    probe.height,
                    shared,
                )
            }
        }),
{
}

/// The source is taken exactly where it has the format, one of the shared modifiers and a single
/// plane; the private buffer is asked for next, in the extent of the mode.
pub proof fn law_sources_are_checked(probe: ProbeView, buffer: Option<BufferFacts>)
    requires
        probe.phase == ProbePhase::SourceAllocation,
    ensures
        ({
            let next = probe.follows(ProbeAnswerView::SourceAllocated(buffer));
            let stage = ProbeStage::SourceAllocation;
            match buffer {
                None => ended_by(probe, next, stage, ProbeError::SourceAllocationFailed),
                Some(buffer) => if buffer.planes == 1 && buffer.format == probe.format
                    && probe.shared.contains(buffer.modifier) {
                    &&& next.phase == ProbePhase::ScanoutAllocation
                    &&& next.source_size == buffer.size
                    &&& next.asks() == ProbeActionView::AllocateScanout(
                        probe.format,
                        probe.width,
                        probe.height,
                    )
                } else {
                    ended_by(probe, next, stage, ProbeError::SourceMismatch)
                },
            }
        }),
{
}

/// The private buffer is taken exactly where it is a single linear plane of the format and both
/// buffers have the extent of the mode. What its modifier turned out to be is kept in any case.
pub proof fn law_private_buffers_are_checked(
    probe: ProbeView,
    modifier: Option<u64>,
    buffer: Option<BufferFacts>,
    created: bool,
)
    ensures
        probe.phase == ProbePhase::ScanoutAllocation ==> {
            let next = probe.follows(ProbeAnswerView::ScanoutAllocated(modifier));
            &&& modifier is None ==> ended_by(
                probe,
                next,
                ProbeStage::ScanoutAllocation,
                ProbeError::ScanoutAllocationFailed,
            )
            &&& modifier is Some ==> {
                &&& next.phase == ProbePhase::ScanoutExport
                &&& next.actual_modifier == modifier
                &&& next.asks() == ProbeActionView::ExportScanout
            }
        },
        probe.phase == ProbePhase::ScanoutExport ==> {
            let next = probe.follows(ProbeAnswerView::ScanoutExported(buffer));
            let stage = ProbeStage::ScanoutAllocation;
            match buffer {
                None => ended_by(probe, next, stage, ProbeError::ScanoutExportFailed),
                Some(buffer) => if buffer.modifier != 0 || buffer.format != probe.format
                    || buffer.planes != 1 {
                    ended_by(probe, next, stage, ProbeError::ScanoutMismatch)
                } else if probe.source_size.w == buffer.size.w && probe.source_size.h == buffer.size.h
                    && buffer.size.w == probe.width && buffer.size.h == probe.height {
                    &&& next.phase == ProbePhase::Framebuffer
                    &&& next.asks() == ProbeActionView::CreateFramebuffer
                } else {
                    ended_by(probe, next, stage, ProbeError::SizeMismatch)
                },
            }
        },
        probe.phase == ProbePhase::Framebuffer ==> {
            let next = probe.follows(ProbeAnswerView::FramebufferCreated(created));
            &&& created ==> next.phase == ProbePhase::Render(Round::First) && next.asks()
                == ProbeActionView::RenderSource(Round::First)
            &&& !created ==> ended_by(
                probe,
                next,
                ProbeStage::FramebufferCreation,
                ProbeError::FramebufferFailed,
            )
        },
{
}

/// Each round draws its own pattern and copies it, and either piece of work is outstanding from the
/// moment it is submitted. The copy of the first round is waited for; that of the second is asked
/// for its fence instead.
pub proof fn law_rounds_draw_and_copy(probe: ProbeView, round: Round, done: bool)
    ensures
        probe.phase == ProbePhase::Render(round) ==> {
            let next = probe.follows(ProbeAnswerView::Rendered(done));
            let stage = if round == Round::First {
                ProbeStage::FirstSourceRender
            } else {
                ProbeStage::SecondSourceRender
            };
            &&& done ==> {
                &&& next.phase == ProbePhase::Copy(round)
                &&& next.outstanding == probe.outstanding.push(Submission::Render(round))
                &&& next.asks() == ProbeActionView::Copy
            }
            &&& !done ==> ended_by(probe, next, stage, ProbeError::RenderFailed)
        },
        probe.phase == ProbePhase::Copy(round) ==> {
            let next = probe.follows(ProbeAnswerView::Copied(done));
            let stage = if round == Round::First {
                ProbeStage::FirstCopy
            } else {
                ProbeStage::SecondCopy
            };
            &&& done ==> {
                &&& next.outstanding == probe.outstanding.push(Submission::Copy(round))
                &&& round == Round::First ==> next.asks() == ProbeActionView::Retire(
                    Submission::Copy(Round::First),
                )
                &&& round == Round::Second ==> next.asks() == ProbeActionView::ExportFence
                    && next.phase == ProbePhase::FenceExport
            }
            &&& !done ==> ended_by(probe, next, stage, ProbeError::CopyFailed)
        },
{
}

/// The surface is looked at before each test: one without atomic requests or with pending changes
/// ends the probe, and any other is tested, in the second round with the fence.
pub proof fn law_surfaces_are_inspected(probe: ProbeView, round: Round, legacy: bool, pending: bool)
    requires
        probe.phase == ProbePhase::Inspect(round),
    ensures
        ({
            let next = probe.follows(ProbeAnswerView::Surface(legacy, pending));
            let stage = if round == Round::First {
                ProbeStage::CompletedCopyNoFence
            } else {
                ProbeStage::NativeCopyFenceTest
            };
            &&& legacy ==> ended_by(probe, next, stage, ProbeError::LegacySurface)
            &&& !legacy && pending ==> ended_by(probe, next, stage, ProbeError::ChangesPending)
            &&& !legacy && !pending ==> {
                &&& next.phase == ProbePhase::Test(round)
                &&& next.asks() == ProbeActionView::Test(round == Round::Second)
            }
        }),
{
}

/// The request without a fence starts the second round where it is accepted, and ends the probe
/// where it is not. The second copy has to hand out its fence; whether it was complete is read
/// before the surface is looked at again. The request with the fence is answered for once its copy
/// is retired.
pub proof fn law_requests_are_tested_in_turn(probe: ProbeView, yes: bool)
    ensures
        probe.phase == ProbePhase::Complete ==> {
            let next = probe.follows(ProbeAnswerView::Retired);
            &&& next.phase == ProbePhase::Inspect(Round::First)
            &&& next.asks() == ProbeActionView::InspectSurface
            &&& next.outstanding == probe.outstanding.drop_last()
        },
        probe.phase == ProbePhase::Test(Round::First) ==> {
            let next = probe.follows(ProbeAnswerView::Tested(yes));
            &&& yes ==> next.accepted_without_fence && next.asks() == ProbeActionView::RenderSource(
                Round::Second,
            )
            &&& !yes ==> ended_by(
                probe,
                next,
                ProbeStage::CompletedCopyNoFence,
                ProbeError::TestRefused,
            )
        },
        probe.phase == ProbePhase::FenceExport ==> {
            let next = probe.follows(ProbeAnswerView::FenceExported(yes));
            &&& yes ==> next.native_fence && next.asks() == ProbeActionView::ReadCompletion
            &&& !yes ==> ended_by(
                probe,
                next,
                ProbeStage::NativeCopyFenceExport,
                ProbeError::NoNativeFence,
            )
        },
        probe.phase == ProbePhase::Completion ==> {
            let next = probe.follows(ProbeAnswerView::Completion(yes));
            &&& next.phase == ProbePhase::Inspect(Round::Second)
            &&& next.asks() == ProbeActionView::InspectSurface
        },
        probe.phase == ProbePhase::Test(Round::Second) ==> {
            let next = probe.follows(ProbeAnswerView::Tested(yes));
            &&& next.phase == ProbePhase::Settle(yes)
            &&& next.outstanding == probe.outstanding
        },
        probe.phase == ProbePhase::Settle(yes) && probe.outstanding.len() > 0 ==> {
            let next = probe.follows(ProbeAnswerView::Retired);
            let verdict = if yes {
                None
            } else {
                Some(
                    ProbeFailure {
                        stage: ProbeStage::NativeCopyFenceTest,
                        error: ProbeError::TestRefused,
                    },
                )
            };
            &&& next.outstanding == probe.outstanding.drop_last()
            &&& next.phase == (if probe.outstanding.len() == 1 {
                ProbePhase::Done(verdict)
            } else {
                ProbePhase::Retire(verdict)
            })
        },
{
}

/// Outstanding work is retired from the latest to the oldest, and only then the verdict is given,
/// which stays what it was.
pub proof fn law_work_is_retired_in_reverse(probe: ProbeView, verdict: Option<ProbeFailure>)
    requires
        probe.phase == ProbePhase::Retire(verdict),
        probe.outstanding.len() > 0,
    ensures
        ({
            let next = probe.follows(ProbeAnswerView::Retired);
            &&& probe.asks() == ProbeActionView::Retire(probe.outstanding.last())
            &&& next.outstanding == probe.outstanding.drop_last()
            &&& next.outstanding.len() > 0 ==> next.phase == ProbePhase::Retire(verdict)
            &&& next.outstanding.len() == 0 ==> next.asks() == ProbeActionView::Finish(verdict)
        }),
{
}

impl ProbeView {
    /// The probe after several answers.
    pub open spec fn after_all(self, answers: Seq<ProbeAnswerView>) -> Self
        decreases answers.len(),
    {
        if answers.len() == 0 {
            self
        } else {
            self.after_all(answers.drop_last()).follows(answers.last())
        }
    }

    /// Whether the second copy was asked whether it is complete.
    pub open spec fn is_past_completion(self) -> bool {
        match self.phase {
            ProbePhase::Inspect(Round::Second)
            | ProbePhase::Test(Round::Second)
            | ProbePhase::Settle(_)
            | ProbePhase::Retire(_)
            | ProbePhase::Done(_) => true,
            _ => false,
        }
    }
}

/// What the second copy answered, complete or not, is what the probe reports: it holds that very
/// answer from then on to its end, whatever else is answered.
pub proof fn law_completion_is_reported(
    probe: ProbeView,
    complete: bool,
    answers: Seq<ProbeAnswerView>,
)
    requires
        probe.asks() is ReadCompletion,
    ensures
        ({
            let asked = probe.follows(ProbeAnswerView::Completion(complete));
            &&& asked.complete_at_test == Some(complete)
            &&& asked.after_all(answers).complete_at_test == Some(complete)
            &&& asked.after_all(answers).is_past_completion()
        }),
    decreases answers.len(),
{
    if answers.len() > 0 {
        law_completion_is_reported(probe, complete, answers.drop_last());
    }
}

/// What a probe found it keeps: each finding is set by the answer that brings it, and no other
/// answer touches it. The format never changes.
pub proof fn law_findings_are_kept(probe: ProbeView, answer: ProbeAnswerView)
    ensures
        ({
            let next = probe.follows(answer);
            &&& next.format == probe.format
            &&& next.complete_at_test != probe.complete_at_test ==> probe.asks() is ReadCompletion
                && answer is Completion
            &&& next.actual_modifier != probe.actual_modifier ==> probe.asks() is AllocateScanout
                && answer == ProbeAnswerView::ScanoutAllocated(next.actual_modifier)
            &&& next.native_fence != probe.native_fence ==> probe.asks() is ExportFence && answer
                == ProbeAnswerView::FenceExported(true) && next.native_fence
            &&& next.accepted_without_fence != probe.accepted_without_fence ==> probe.asks()
                == ProbeActionView::Test(false) && answer == ProbeAnswerView::Tested(true)
                && next.accepted_without_fence
            &&& next.shared != probe.shared ==> probe.asks() is QuerySource && answer is Source
            &&& next.source_size != probe.source_size ==> probe.asks() is AllocateSource && answer is SourceAllocated
            &&& next.width != probe.width || next.height != probe.height ==> (
            answer matches ProbeAnswerView::Preflight(facts) && probe.asks() is ReadPreflight
                && next.width == facts.width && next.height == facts.height)
        }),
{
}

/// Whether an answer is of the kind that an action asks for.
pub open spec fn is_reply(action: ProbeActionView, answer: ProbeAnswerView) -> bool {
    match action {
        ProbeActionView::ReadPreflight => answer is Preflight,
        ProbeActionView::QuerySource(_, _, _) => answer is Source,
        ProbeActionView::AllocateSource(_, _, _, _) => answer is SourceAllocated,
        ProbeActionView::AllocateScanout(_, _, _) => answer is ScanoutAllocated,
        ProbeActionView::ExportScanout => answer is ScanoutExported,
        ProbeActionView::CreateFramebuffer => answer is FramebufferCreated,
        ProbeActionView::RenderSource(_) => answer is Rendered,
        ProbeActionView::Copy => answer is Copied,
        ProbeActionView::Retire(_) => answer is Retired,
        ProbeActionView::InspectSurface => answer is Surface,
        ProbeActionView::Test(_) => answer is Tested,
        ProbeActionView::ExportFence => answer is FenceExported,
        ProbeActionView::ReadCompletion => answer is Completion,
        ProbeActionView::Finish(_) => false,
    }
}

/// An answer that was not asked for changes nothing, and neither does any answer after the end.
pub proof fn law_unasked_answers_are_ignored(probe: ProbeView, answer: ProbeAnswerView)
    requires
        !is_reply(probe.asks(), answer),
    ensures
        probe.follows(answer) == probe,
{
}

/// The two rounds are told apart by their pattern: they swap two different colours. The corner takes
/// a third of the width and two fifths of the height, rounded down.
pub proof fn law_rounds_swap_their_colours(size: Size)
    requires
        0 <= size.w,
        0 <= size.h <= i32::MAX / 2,
    ensures
        background_of(Round::First) == foreground_of(Round::Second),
        background_of(Round::Second) == foreground_of(Round::First),
        background_of(Round::First) == 0,
        background_of(Round::Second) == 1,
        ({
            let corner = corner_of(size);
            &&& 3 * corner.w <= size.w < 3 * (corner.w + 1)
            &&& 5 * corner.h <= 2 * size.h < 5 * (corner.h + 1)
        }),
{
}

} // verus!
