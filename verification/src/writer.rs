//! The writer of a report: in which order its file is opened, headed and filled, and when it
//! counts as ready.
//!
//! The thread around it asks what to do next, does it, and reports what came of it. The first
//! failure ends it.

use vstd::prelude::*;

use crate::control::{status_line, ControlStatus};
use crate::report::{session_line, window_lines, SessionHeader, Window};

verus! {

/// How many reports may wait for the writer. Further ones are lost rather than waited for.
pub const BACKLOG: usize = 2;

/// What the writer is handed.
pub enum Report {
    /// The measurements of a window.
    Window(Window),
    /// An accepted command that changed something.
    Control(ControlStatus),
}

impl Report {
    /// Whether the numbers of a report can be written.
    pub open spec fn fits(self) -> bool {
        match self {
            Report::Window(window) => window.timestamp_ms <= u64::MAX && window.elapsed_ns
                <= u64::MAX,
            Report::Control(status) => status.timestamp_ms <= u64::MAX,
        }
    }

    /// The lines of a report, in the session of a process.
    pub open spec fn text(self, pid: u32) -> Seq<u8> {
        match self {
            Report::Window(window) => crate::report::window_text(pid, window, window.streams@.len()),
            Report::Control(status) => crate::json::object_line(status.members()),
        }
    }
}

/// The lines of several reports, in their order.
pub open spec fn report_texts(pid: u32, reports: Seq<Report>) -> Seq<u8>
    decreases reports.len(),
{
    if reports.len() == 0 {
        Seq::empty()
    } else {
        report_texts(pid, reports.drop_last()) + reports.last().text(pid)
    }
}

/// How a file is opened.
#[derive(Clone, Copy, Debug, PartialEq, Eq, Structural)]
pub struct OpenMode {
    /// Whether it is created where there is none.
    pub create: bool,
    /// Whether bytes go behind what is there.
    pub append: bool,
    /// The permissions of a file that is created.
    pub permissions: u32,
}

/// What came of the last action.
pub enum WriterEvent {
    /// Whether the file could be opened.
    Opened(bool),
    /// Whether all bytes were written and handed to the system.
    Written(bool),
    /// The next report.
    Received(Report),
    /// There will be no further report.
    Closed,
}

/// What to do next.
#[derive(Debug)]
pub enum WriterAction {
    /// Open the file.
    Open(OpenMode),
    /// Write these bytes, and hand them to the system.
    Write(Vec<u8>),
    /// Wait for a report.
    Receive,
    /// Nothing more; whether something failed.
    Stop(bool),
}

/// The content of a `WriterAction`.
pub enum WriterActionView {
    Open(OpenMode),
    Write(Seq<u8>),
    Receive,
    Stop(bool),
}

impl View for WriterAction {
    type V = WriterActionView;

    open spec fn view(&self) -> WriterActionView {
        match self {
            WriterAction::Open(mode) => WriterActionView::Open(*mode),
            WriterAction::Write(bytes) => WriterActionView::Write(bytes@),
            WriterAction::Receive => WriterActionView::Receive,
            WriterAction::Stop(failed) => WriterActionView::Stop(*failed),
        }
    }
}

/// Where a writer stands.
#[derive(Clone, Copy, Debug, PartialEq, Eq, Structural)]
pub enum WriterPhase {
    Opening,
    Heading,
    Waiting,
    Writing,
    Stopped,
}

/// A writer of one session.
pub struct Writer {
    pub header: SessionHeader,
    pub phase: WriterPhase,
}

/// The way in which the file is opened: what is there stays, and a new file is its owner's alone.
pub open spec fn private_append() -> OpenMode {
    OpenMode { create: true, append: true, permissions: 0o600 }
}

/// What follows an event: where the writer stands, and what it does. An event that was not waited
/// for ends it as a failure.
pub open spec fn follows(header: SessionHeader, phase: WriterPhase, event: WriterEvent) -> (
    WriterPhase,
    WriterActionView,
) {
    match (phase, event) {
        (WriterPhase::Opening, WriterEvent::Opened(true)) => (
            WriterPhase::Heading,
            WriterActionView::Write(
                crate::json::object_line(crate::report::session_members(header)),
            ),
        ),
        (WriterPhase::Heading, WriterEvent::Written(true)) => (
            WriterPhase::Waiting,
            WriterActionView::Receive,
        ),
        (WriterPhase::Waiting, WriterEvent::Received(report)) => (
            WriterPhase::Writing,
            WriterActionView::Write(report.text(header.pid)),
        ),
        (WriterPhase::Waiting, WriterEvent::Closed) => (
            WriterPhase::Stopped,
            WriterActionView::Stop(false),
        ),
        (WriterPhase::Writing, WriterEvent::Written(true)) => (
            WriterPhase::Waiting,
            WriterActionView::Receive,
        ),
        _ => (WriterPhase::Stopped, WriterActionView::Stop(true)),
    }
}

/// Whether a writer counts as ready: its file is open and headed, and nothing failed.
pub open spec fn is_ready(phase: WriterPhase) -> bool {
    phase == WriterPhase::Waiting || phase == WriterPhase::Writing
}

impl Writer {
    /// A writer that has done nothing yet, and what it does first.
    pub fn new(header: SessionHeader) -> (start: (Writer, WriterAction))
        ensures
            start.0.header == header,
            start.0.phase == WriterPhase::Opening,
            start.1@ == WriterActionView::Open(private_append()),
    {
        let mode = OpenMode { create: true, append: true, permissions: 0o600 };
        (Writer { header, phase: WriterPhase::Opening }, WriterAction::Open(mode))
    }

    /// Whether the writer counts as ready.
    pub fn ready(&self) -> (ready: bool)
        ensures
            ready == is_ready(self.phase),
    {
        match self.phase {
            WriterPhase::Waiting | WriterPhase::Writing => true,
            _ => false,
        }
    }

    /// Takes what came of the last action, and says what to do next.
    pub fn step(&mut self, event: WriterEvent) -> (action: WriterAction)
        requires
            old(self).header.started_ms <= u64::MAX,
            event matches WriterEvent::Received(report) ==> report.fits(),
        ensures
            final(self).header == old(self).header,
            (final(self).phase, action@) == follows(old(self).header, old(self).phase, event),
    {
        match (self.phase, event) {
            (WriterPhase::Opening, WriterEvent::Opened(true)) => {
                self.phase = WriterPhase::Heading;
                WriterAction::Write(session_line(&self.header))
            },
            (WriterPhase::Heading, WriterEvent::Written(true)) => {
                self.phase = WriterPhase::Waiting;
                WriterAction::Receive
            },
            (WriterPhase::Waiting, WriterEvent::Received(report)) => {
                self.phase = WriterPhase::Writing;
                match report {
                    Report::Window(window) => WriterAction::Write(
                        window_lines(self.header.pid, &window),
                    ),
                    Report::Control(status) => WriterAction::Write(status_line(&status)),
                }
            },
            (WriterPhase::Waiting, WriterEvent::Closed) => {
                self.phase = WriterPhase::Stopped;
                WriterAction::Stop(false)
            },
            (WriterPhase::Writing, WriterEvent::Written(true)) => {
                self.phase = WriterPhase::Waiting;
                WriterAction::Receive
            },
            _ => {
                self.phase = WriterPhase::Stopped;
                WriterAction::Stop(true)
            },
        }
    }
}

/// What became of a session so far.
pub struct Session {
    pub phase: WriterPhase,
    /// What the writer is doing.
    pub action: WriterActionView,
    /// The bytes that were written and handed to the system.
    pub written: Seq<u8>,
    /// The reports that were taken, the one that is being written included.
    pub taken: Seq<Report>,
}

/// What became of a session after these events.
pub open spec fn session(header: SessionHeader, events: Seq<WriterEvent>) -> Session
    decreases events.len(),
{
    if events.len() == 0 {
        Session {
            phase: WriterPhase::Opening,
            action: WriterActionView::Open(private_append()),
            written: Seq::empty(),
            taken: Seq::empty(),
        }
    } else {
        let before = session(header, events.drop_last());
        let (phase, action) = follows(header, before.phase, events.last());
        Session {
            phase,
            action,
            written: match (before.action, events.last()) {
                (WriterActionView::Write(bytes), WriterEvent::Written(true)) => before.written + bytes,
                _ => before.written,
            },
            taken: match (before.phase, events.last()) {
                (WriterPhase::Waiting, WriterEvent::Received(report)) => before.taken.push(report),
                _ => before.taken,
            },
        }
    }
}

/// The file holds the header of the session and then the reports that were taken, each whole and
/// in their order; what is being written comes last. A writer is ready only once the header is
/// there, and one that stopped does nothing more.
pub proof fn law_reports_follow_the_header(header: SessionHeader, events: Seq<WriterEvent>)
    ensures
        ({
            let now = session(header, events);
            let head = crate::json::object_line(crate::report::session_members(header));
            match now.phase {
                WriterPhase::Opening | WriterPhase::Heading => now.written == Seq::<u8>::empty()
                    && now.taken == Seq::<Report>::empty(),
                WriterPhase::Waiting => now.written == head + report_texts(header.pid, now.taken),
                WriterPhase::Writing => now.taken.len() > 0 && now.written == head + report_texts(
                    header.pid,
                    now.taken.drop_last(),
                ) && now.action == WriterActionView::Write(now.taken.last().text(header.pid)),
                WriterPhase::Stopped => {
                    ||| now.written == Seq::<u8>::empty()
                    ||| now.written == head + report_texts(header.pid, now.taken)
                    ||| now.taken.len() > 0 && now.written == head + report_texts(
                        header.pid,
                        now.taken.drop_last(),
                    )
                },
            }
        }),
        session(header, events).phase == WriterPhase::Heading ==> session(header, events).action
            == WriterActionView::Write(
            crate::json::object_line(crate::report::session_members(header)),
        ),
        session(header, events).action is Stop <==> session(header, events).phase
            == WriterPhase::Stopped,
        session(header, events).action is Write <==> (session(header, events).phase
            == WriterPhase::Heading || session(header, events).phase == WriterPhase::Writing),
    decreases events.len(),
{
    if events.len() > 0 {
        let before = session(header, events.drop_last());
        let now = session(header, events);
        law_reports_follow_the_header(header, events.drop_last());
        if before.phase == WriterPhase::Waiting && events.last() is Received {
            assert(now.taken.drop_last() =~= before.taken);
        }
        let head = crate::json::object_line(crate::report::session_members(header));
        if before.phase == WriterPhase::Heading && events.last() == WriterEvent::Written(true) {
            assert(now.written =~= head + report_texts(header.pid, now.taken));
        }
        if before.phase == WriterPhase::Writing && events.last() == WriterEvent::Written(true) {
            assert(now.written =~= head + report_texts(header.pid, now.taken));
        }
    }
}

/// The first failure ends a writer, and it is no longer ready.
pub proof fn law_a_failure_ends_the_writer(header: SessionHeader, phase: WriterPhase)
    ensures
        !is_ready(follows(header, phase, WriterEvent::Opened(false)).0),
        !is_ready(follows(header, phase, WriterEvent::Written(false)).0),
        follows(header, phase, WriterEvent::Opened(false)).1 == WriterActionView::Stop(true),
        follows(header, phase, WriterEvent::Written(false)).1 == WriterActionView::Stop(true),
        forall|event: WriterEvent|
            (#[trigger] follows(header, WriterPhase::Stopped, event)).0 == WriterPhase::Stopped,
{
}

/// A window is written as the lines of all its streams, and a control record as the line of its
/// answer.
pub proof fn law_reports_have_their_lines(pid: u32, window: Window, status: ControlStatus)
    ensures
        Report::Window(window).text(pid) == crate::report::window_text(
            pid,
            window,
            window.streams@.len(),
        ),
        Report::Control(status).text(pid) == crate::json::object_line(status.members()),
        Report::Window(window).fits() <==> window.timestamp_ms <= u64::MAX && window.elapsed_ns
            <= u64::MAX,
        Report::Control(status).fits() <==> status.timestamp_ms <= u64::MAX,
{
}

/// A writer goes on as long as nothing fails: it heads the file that it opened, waits for a report,
/// writes every one that it receives, waits for the next, and stops without a failure once there
/// will be none. The file is created where there is none, for its owner alone, and is only ever
/// added to.
pub proof fn law_writers_go_on(header: SessionHeader, report: Report)
    ensures
        private_append().create && private_append().append && private_append().permissions == 0o600,
        follows(header, WriterPhase::Opening, WriterEvent::Opened(true)) == (
            WriterPhase::Heading,
            WriterActionView::Write(
                crate::json::object_line(crate::report::session_members(header)),
            ),
        ),
        follows(header, WriterPhase::Heading, WriterEvent::Written(true)) == (
            WriterPhase::Waiting,
            WriterActionView::Receive,
        ),
        follows(header, WriterPhase::Waiting, WriterEvent::Received(report)) == (
            WriterPhase::Writing,
            WriterActionView::Write(report.text(header.pid)),
        ),
        follows(header, WriterPhase::Writing, WriterEvent::Written(true)) == (
            WriterPhase::Waiting,
            WriterActionView::Receive,
        ),
        follows(header, WriterPhase::Waiting, WriterEvent::Closed) == (
            WriterPhase::Stopped,
            WriterActionView::Stop(false),
        ),
        is_ready(WriterPhase::Waiting) && is_ready(WriterPhase::Writing),
        !is_ready(WriterPhase::Opening) && !is_ready(WriterPhase::Heading),
        !is_ready(WriterPhase::Stopped),
{
}

/// Reports are written one behind the other: the lines of two runs of reports are those of the
/// first and then those of the second.
pub proof fn law_reports_are_written_in_order(pid: u32, first: Seq<Report>, second: Seq<Report>)
    ensures
        report_texts(pid, first + second) == report_texts(pid, first) + report_texts(pid, second),
        report_texts(pid, Seq::empty()) == Seq::<u8>::empty(),
        forall|report: Report| #[trigger] report_texts(pid, seq![report]) == report.text(pid),
    decreases second.len(),
{
    assert forall|report: Report| #[trigger] report_texts(pid, seq![report]) == report.text(pid) by {
        assert(seq![report].drop_last() =~= Seq::<Report>::empty());
        assert(report_texts(pid, Seq::<Report>::empty()) =~= Seq::<u8>::empty());
        assert(report_texts(pid, seq![report]) =~= report.text(pid));
    }
    if second.len() == 0 {
        assert(first + second =~= first);
        assert(report_texts(pid, first) + report_texts(pid, second) =~= report_texts(pid, first));
    } else {
        law_reports_are_written_in_order(pid, first, second.drop_last());
        assert((first + second).drop_last() =~= first + second.drop_last());
        assert(report_texts(pid, first + second) =~= report_texts(pid, first) + report_texts(
            pid,
            second,
        ));
    }
}

} // verus!
