//! The control socket of a running report: which commands it takes, what they change, and what
//! is answered.
//!
//! A command that changes something begins a new trial. What was measured before it is
//! discarded, and frames that were queued before it no longer count.

use std::time::Duration;

use vstd::prelude::*;
use vstd::string::*;

use crate::json::{line, new_object, object_bytes, put, Json, JsonModel, JsonObject};
use crate::report::{ReportState, ReportStateView};
use crate::text::{decimal_text, same_text, strip_prefix, trim};
use crate::time::epoch_ms;

verus! {

/// A datagram of this many bytes or more may have been cut off, and is refused.
pub const DATAGRAM_LIMIT: usize = 128;

/// How many datagrams are handled before the event loop goes on, so that a flood of them cannot
/// hold it up.
pub const BATCH_LIMIT: u32 = 8;

/// The longest label of a phase.
pub const LABEL_LIMIT: usize = 80;

/// What is known of the directory for the socket, without following a link.
#[derive(Clone, Copy, Debug, PartialEq, Eq, Structural)]
pub struct DirectoryFacts {
    pub is_directory: bool,
    pub owner: u32,
    pub mode: u32,
}

/// Whether a directory is a user's alone.
pub open spec fn belongs_to(directory: DirectoryFacts, user: u32) -> bool {
    directory.is_directory && directory.owner == user && directory.mode & 0o077 == 0
}

/// Whether the socket may stand in a directory: the user owns it, and neither group nor others
/// have any access to it.
pub fn is_private(directory: &DirectoryFacts, user: u32) -> (private: bool)
    ensures
        private == (directory.is_directory && directory.owner == user && directory.mode & 0o077 == 0),
        private == belongs_to(*directory, user),
{
    directory.is_directory && directory.owner == user && directory.mode & 0o077 == 0
}

/// The name of the socket of a process.
pub fn socket_name(pid: u32) -> (name: String)
    ensures
        name@ == "niri-pacing-"@ + crate::text::decimal(pid as nat) + ".sock"@,
{
    let mut name = "niri-pacing-".to_owned();
    name.append(decimal_text(pid).as_str());
    name.append(".sock");
    name
}

/// What reading the socket gave.
#[derive(Clone, Copy, Debug, PartialEq, Eq, Structural)]
pub enum Received {
    /// A datagram, which was then handled.
    Datagram,
    /// Nothing for now.
    Nothing,
    /// A failure.
    Failed,
}

/// What follows a read.
#[derive(Clone, Copy, Debug, PartialEq, Eq, Structural)]
pub enum BatchStep {
    /// Read again.
    Read,
    /// Go back to the event loop until the socket can be read.
    Wait,
    /// Give the socket up.
    Remove,
}

/// The reads of one wake-up of the event loop: how many datagrams it handled.
#[derive(Clone, Copy, Debug, PartialEq, Eq, Structural)]
pub struct Batch {
    pub handled: u32,
}

impl Batch {
    /// A wake-up in which nothing was read yet.
    pub open spec fn fresh() -> Batch {
        Batch { handled: 0 }
    }

    /// The wake-up after one more read.
    pub open spec fn after(self, received: Received) -> Batch {
        if received == Received::Datagram && self.handled < 8 {
            Batch { handled: (self.handled + 1) as u32 }
        } else {
            self
        }
    }

    /// What follows one more read.
    pub open spec fn next(self, received: Received) -> BatchStep {
        match received {
            Received::Datagram => if self.after(received).handled < 8 {
                BatchStep::Read
            } else {
                BatchStep::Wait
            },
            Received::Nothing => BatchStep::Wait,
            Received::Failed => BatchStep::Remove,
        }
    }

    /// The wake-up after these reads.
    pub open spec fn after_all(self, reads: Seq<Received>) -> Batch
        decreases reads.len(),
    {
        if reads.len() == 0 {
            self
        } else {
            self.after_all(reads.drop_last()).after(reads.last())
        }
    }

    /// Whether each of these reads is followed by another.
    pub open spec fn reads_on(self, reads: Seq<Received>) -> bool
        decreases reads.len(),
    {
        reads.len() == 0 || (self.reads_on(reads.drop_last()) && self.after_all(
            reads.drop_last(),
        ).next(reads.last()) == BatchStep::Read)
    }

    /// A wake-up in which nothing was read yet.
    pub fn new() -> (batch: Batch)
        ensures
            batch == Batch::fresh(),
    {
        Batch { handled: 0 }
    }

    /// Takes what a read gave, and says what follows it.
    pub fn step(&mut self, received: Received) -> (next: BatchStep)
        ensures
            next == old(self).next(received),
            *final(self) == old(self).after(received),
    {
        match received {
            Received::Datagram => {
                if self.handled < BATCH_LIMIT {
                    self.handled = self.handled + 1;
                }
                if self.handled < BATCH_LIMIT {
                    BatchStep::Read
                } else {
                    BatchStep::Wait
                }
            },
            Received::Nothing => BatchStep::Wait,
            Received::Failed => BatchStep::Remove,
        }
    }
}

/// A flood of datagrams cannot hold up the event loop: of the reads of one wake-up that are
/// followed by another there are fewer than eight, and each gave a datagram.
pub proof fn law_wake_up_is_bounded(reads: Seq<Received>)
    requires
        Batch::fresh().reads_on(reads),
    ensures
        reads.len() < 8,
        forall|i: int| 0 <= i < reads.len() ==> reads[i] == Received::Datagram,
        Batch::fresh().after_all(reads).handled == reads.len(),
    decreases reads.len(),
{
    if reads.len() > 0 {
        law_wake_up_is_bounded(reads.drop_last());
        assert forall|i: int| 0 <= i < reads.len() implies reads[i] == Received::Datagram by {
            if i < reads.len() - 1 {
                assert(reads[i] == reads.drop_last()[i]);
            }
        }
    }
}

/// Why a command was refused.
#[derive(Clone, Copy, Debug, PartialEq, Eq, Structural)]
pub enum ControlError {
    /// The datagram may have been cut off, or is no text.
    Invalid,
    /// The label of a phase is empty, too long, or holds other characters than letters and
    /// digits of ASCII, underscores, hyphens, spaces and full stops.
    Label,
    /// Direct writes can be switched only where the session started with them.
    DirectUnavailable,
    /// No such command.
    Unrecognized,
}

impl ControlError {
    /// How the refusal is worded.
    pub open spec fn wording(self) -> Seq<char> {
        match self {
            ControlError::Invalid => "invalid or oversized command"@,
            ControlError::Label => "invalid phase label"@,
            ControlError::DirectUnavailable =>
                "restart with NIRI_VK_DIRECT_TARGET=1 to enable transfer-policy comparisons"@,
            ControlError::Unrecognized => "unrecognized command"@,
        }
    }

    /// How the refusal is worded.
    pub fn message(&self) -> (text: String)
        ensures
            text@ == self.wording(),
    {
        let text = match self {
            ControlError::Invalid => "invalid or oversized command",
            ControlError::Label => "invalid phase label",
            ControlError::DirectUnavailable => {
                "restart with NIRI_VK_DIRECT_TARGET=1 to enable transfer-policy comparisons"
            },
            ControlError::Unrecognized => "unrecognized command",
        };
        text.to_owned()
    }
}

/// A command.
#[derive(Debug)]
pub enum Command {
    /// Say how things stand.
    Status,
    /// Begin a phase of that name.
    Mark(String),
    /// Switch recording on or off.
    Record(bool),
    /// Switch direct writes on or off.
    Direct(bool),
}

/// The content of a `Command`.
pub enum CommandView {
    Status,
    Mark(Seq<char>),
    Record(bool),
    Direct(bool),
}

impl View for Command {
    type V = CommandView;

    open spec fn view(&self) -> CommandView {
        match self {
            Command::Status => CommandView::Status,
            Command::Mark(label) => CommandView::Mark(label@),
            Command::Record(on) => CommandView::Record(*on),
            Command::Direct(on) => CommandView::Direct(*on),
        }
    }
}

/// Whether a character may stand in the label of a phase.
pub open spec fn is_label_character(c: char) -> bool {
    ||| 'a' <= c <= 'z'
    ||| 'A' <= c <= 'Z'
    ||| '0' <= c <= '9'
    ||| c == '_'
    ||| c == '-'
    ||| c == ' '
    ||| c == '.'
}

/// Whether a text may be the label of a phase.
pub open spec fn is_label(text: Seq<char>) -> bool {
    &&& 0 < text.len() <= 80
    &&& forall|i: int| 0 <= i < text.len() ==> is_label_character(#[trigger] text[i])
}

/// The command that a text spells, or why it spells none.
pub open spec fn command_of(text: Seq<char>) -> Result<CommandView, ControlError> {
    if text == "status"@ {
        Ok(CommandView::Status)
    } else if crate::text::begins(text, "mark "@) {
        let label = text.subrange(5, text.len() as int);
        if is_label(label) {
            Ok(CommandView::Mark(label))
        } else {
            Err(ControlError::Label)
        }
    } else if text == "record on"@ {
        Ok(CommandView::Record(true))
    } else if text == "record off"@ {
        Ok(CommandView::Record(false))
    } else if text == "direct on"@ {
        Ok(CommandView::Direct(true))
    } else if text == "direct off"@ {
        Ok(CommandView::Direct(false))
    } else {
        Err(ControlError::Unrecognized)
    }
}

fn label_character(c: char) -> (allowed: bool)
    ensures
        allowed == is_label_character(c),
{
    ('a' <= c && c <= 'z') || ('A' <= c && c <= 'Z') || ('0' <= c && c <= '9') || c == '_' || c
        == '-' || c == ' ' || c == '.'
}

fn valid_label(text: &str) -> (valid: bool)
    ensures
        valid == is_label(text@),
{
    let length: usize = text.unicode_len();
    if length == 0 || length > LABEL_LIMIT {
        return false;
    }
    let mut i: usize = 0;
    while i < length
        invariant
            i <= length,
            length == text@.len(),
            forall|j: int| 0 <= j < i ==> is_label_character(#[trigger] text@[j]),
        decreases length - i,
    {
        if !label_character(text.get_char(i)) {
            return false;
        }
        i = i + 1;
    }
    true
}

/// The command that a text spells, or why it spells none.
pub fn parse_command(text: &str) -> (command: Result<Command, ControlError>)
    ensures
        match command {
            Ok(command) => command_of(text@) == Ok::<CommandView, ControlError>(command@),
            Err(error) => command_of(text@) == Err::<CommandView, ControlError>(error),
        },
{
    proof {
        reveal_strlit("mark ");
        assert("mark "@.len() == 5);
    }
    if same_text(text, "status") {
        return Ok(Command::Status);
    }
    match strip_prefix(text, "mark ") {
        Some(label) => {
            if valid_label(label) {
                return Ok(Command::Mark(label.to_owned()));
            }
            return Err(ControlError::Label);
        },
        None => {},
    }
    if same_text(text, "record on") {
        Ok(Command::Record(true))
    } else if same_text(text, "record off") {
        Ok(Command::Record(false))
    } else if same_text(text, "direct on") {
        Ok(Command::Direct(true))
    } else if same_text(text, "direct off") {
        Ok(Command::Direct(false))
    } else {
        Err(ControlError::Unrecognized)
    }
}

/// What a datagram asks for, spelled without the white space around it; `None` where it may have
/// been cut off or is no text.
pub open spec fn spelled(datagram: Seq<u8>) -> Option<Seq<char>> {
    if datagram.len() < 128 && vstd::utf8::valid_utf8(datagram) {
        Some(crate::text::trimmed(vstd::utf8::decode_utf8(datagram)))
    } else {
        None
    }
}

/// What a datagram asks of the compositor. Everything but `Nothing` begins a new trial: what was
/// measured so far is discarded, and every surface forgets its clocks.
#[derive(Clone, Copy, Debug, PartialEq, Eq, Structural)]
pub enum Effect {
    /// Leave everything as it is.
    Nothing,
    /// Begin a new trial.
    Restart,
    /// Switch recording, and begin a new trial.
    Record(bool),
    /// Switch direct writes, redraw all outputs, and begin a new trial.
    Direct(bool),
}

/// What came of a datagram.
#[derive(Debug)]
pub struct Outcome {
    /// The command as it was spelled, or a stand-in where it could not be read.
    pub command: String,
    /// Why it was refused.
    pub error: Option<ControlError>,
    /// What it asks of the compositor.
    pub effect: Effect,
}

/// The content of an `Outcome`.
#[verifier::ext_equal]
pub struct OutcomeView {
    pub command: Seq<char>,
    pub error: Option<ControlError>,
    pub effect: Effect,
}

impl View for Outcome {
    type V = OutcomeView;

    open spec fn view(&self) -> OutcomeView {
        OutcomeView { command: self.command@, error: self.error, effect: self.effect }
    }
}

impl ReportStateView {
    /// What a command asks of the compositor, or why it is refused here.
    pub open spec fn judged(self, command: CommandView) -> Result<Effect, ControlError> {
        match command {
            CommandView::Status => Ok(Effect::Nothing),
            CommandView::Mark(_) => Ok(Effect::Restart),
            CommandView::Record(on) => Ok(Effect::Record(on)),
            CommandView::Direct(on) => if self.startup_direct {
                Ok(Effect::Direct(on))
            } else {
                Err(ControlError::DirectUnavailable)
            },
        }
    }

    /// What comes of a datagram.
    pub open spec fn outcome(self, datagram: Seq<u8>) -> OutcomeView {
        match spelled(datagram) {
            None => OutcomeView {
                command: "invalid"@,
                error: Some(ControlError::Invalid),
                effect: Effect::Nothing,
            },
            Some(text) => {
                let judged = match command_of(text) {
                    Ok(command) => self.judged(command),
                    Err(error) => Err(error),
                };
                match judged {
                    Ok(effect) => OutcomeView { command: text, error: None, effect },
                    Err(error) => OutcomeView {
                        command: text,
                        error: Some(error),
                        effect: Effect::Nothing,
                    },
                }
            },
        }
    }

    /// The report in a new trial that begins now.
    pub open spec fn restarted(self, now: Duration) -> ReportStateView {
        ReportStateView {
            epoch: if self.epoch < u64::MAX {
                (self.epoch + 1) as u64
            } else {
                0
            },
            previous: now,
            ..self
        }
    }

    /// The command that a datagram spells, where it is accepted.
    pub open spec fn accepted(self, datagram: Seq<u8>) -> Option<CommandView> {
        match spelled(datagram) {
            Some(text) => match command_of(text) {
                Ok(command) => if self.judged(command) is Ok {
                    Some(command)
                } else {
                    None
                },
                Err(_) => None,
            },
            None => None,
        }
    }

    /// The report after an accepted command that arrived now.
    pub open spec fn obeyed(self, command: CommandView, now: Duration) -> ReportStateView {
        match command {
            CommandView::Status => self,
            CommandView::Mark(label) => (ReportStateView { phase: label, ..self }).restarted(now),
            CommandView::Record(on) => (ReportStateView { recording: on, ..self }).restarted(now),
            CommandView::Direct(on) => (ReportStateView { direct_target: on, ..self }).restarted(now),
        }
    }

    /// The report after a datagram that arrived now.
    pub open spec fn after_datagram(self, datagram: Seq<u8>, now: Duration) -> ReportStateView {
        match self.accepted(datagram) {
            Some(command) => self.obeyed(command, now),
            None => self,
        }
    }

    /// The report after datagrams that arrived at these times.
    pub open spec fn after_datagrams(self, datagrams: Seq<(Seq<u8>, Duration)>) -> ReportStateView
        decreases datagrams.len(),
    {
        if datagrams.len() == 0 {
            self
        } else {
            self.after_datagrams(datagrams.drop_last()).after_datagram(
                datagrams.last().0,
                datagrams.last().1,
            )
        }
    }

    /// How many of these datagrams began a new trial.
    pub open spec fn trials(self, datagrams: Seq<(Seq<u8>, Duration)>) -> nat
        decreases datagrams.len(),
    {
        if datagrams.len() == 0 {
            0
        } else {
            let before = datagrams.drop_last();
            let changes = self.after_datagrams(before).outcome(datagrams.last().0).effect
                != Effect::Nothing;
            self.trials(before) + (if changes {
                1nat
            } else {
                0
            })
        }
    }
}

/// The text of a datagram, without the white space around it.
fn spell(datagram: &[u8]) -> (text: Option<String>)
    ensures
        match text {
            Some(text) => spelled(datagram@) == Some(text@),
            None => spelled(datagram@) is None,
        },
{
    if datagram.len() >= DATAGRAM_LIMIT {
        return None;
    }
    match std::str::from_utf8(datagram) {
        Ok(text) => {
            proof {
                vstd::utf8::encode_utf8_decode_utf8(text@);
            }
            Some(trim(text).to_owned())
        },
        Err(_) => None,
    }
}

impl ReportState {
    fn restart(&mut self, now: Duration)
        ensures
            final(self)@ == old(self)@.restarted(now),
    {
        self.epoch = if self.epoch < u64::MAX {
            self.epoch + 1
        } else {
            0
        };
        self.previous = now;
    }

    fn obey(&mut self, command: Command, now: Duration) -> (effect: Result<Effect, ControlError>)
        ensures
            effect == old(self)@.judged(command@),
            final(self)@ == (if effect is Ok {
                old(self)@.obeyed(command@, now)
            } else {
                old(self)@
            }),
    {
        match command {
            Command::Status => Ok(Effect::Nothing),
            Command::Mark(label) => {
                self.phase = label;
                self.restart(now);
                Ok(Effect::Restart)
            },
            Command::Record(on) => {
                self.recording = on;
                self.restart(now);
                Ok(Effect::Record(on))
            },
            Command::Direct(on) => {
                if self.startup_direct {
                    self.direct_target = on;
                    self.restart(now);
                    Ok(Effect::Direct(on))
                } else {
                    Err(ControlError::DirectUnavailable)
                }
            },
        }
    }

    /// Handles a datagram that arrived now.
    pub fn control(&mut self, datagram: &[u8], now: Duration) -> (outcome: Outcome)
        ensures
            outcome@ == old(self)@.outcome(datagram@),
            final(self)@ == old(self)@.after_datagram(datagram@, now),
    {
        match spell(datagram) {
            None => Outcome {
                command: "invalid".to_owned(),
                error: Some(ControlError::Invalid),
                effect: Effect::Nothing,
            },
            Some(text) => {
                let effect = match parse_command(text.as_str()) {
                    Ok(command) => self.obey(command, now),
                    Err(error) => Err(error),
                };
                match effect {
                    Ok(effect) => Outcome { command: text, error: None, effect },
                    Err(error) => Outcome {
                        command: text,
                        error: Some(error),
                        effect: Effect::Nothing,
                    },
                }
            },
        }
    }
}

/// What is answered to a datagram: how things stand once it was handled.
#[derive(Debug)]
pub struct ControlStatus {
    pub pid: u32,
    pub epoch: u64,
    pub timestamp_ms: u128,
    pub command: String,
    pub error: Option<ControlError>,
    pub phase: String,
    pub recording: bool,
    pub direct_target: bool,
    pub writer_ready: bool,
}

impl ControlStatus {
    /// Whether this is what a report answers after an outcome.
    pub open spec fn answers(
        self,
        report: ReportStateView,
        outcome: OutcomeView,
        pid: u32,
        writer_ready: bool,
    ) -> bool {
        &&& self.pid == pid
        &&& self.epoch == report.epoch
        &&& self.command@ == outcome.command
        &&& self.error == outcome.error
        &&& self.phase@ == report.phase
        &&& self.recording == report.recording
        &&& self.direct_target == report.direct_target
        &&& self.writer_ready == writer_ready
    }

    /// The members of the object that is sent.
    pub open spec fn members(self) -> Map<Seq<char>, JsonModel> {
        map![
            "type"@ => JsonModel::Text("control"@),
            "pid"@ => JsonModel::Number(self.pid as nat),
            "epoch"@ => JsonModel::Number(self.epoch as nat),
            "timestamp_ms"@ => JsonModel::Number(self.timestamp_ms as nat),
            "command"@ => JsonModel::Text(self.command@),
            "accepted"@ => JsonModel::Bool(self.error is None),
            "error"@ => crate::report::optional_text(match self.error {
                Some(error) => Some(error.wording()),
                None => None,
            }),
            "phase"@ => JsonModel::Text(self.phase@),
            "recording"@ => JsonModel::Bool(self.recording),
            "direct_target"@ => JsonModel::Bool(self.direct_target),
            "writer_ready"@ => JsonModel::Bool(self.writer_ready),
            "allocation_policy"@ => JsonModel::Text("preserved; capabilities may renegotiate buffers"@),
        ]
    }
}

/// What a report answers after an outcome, with the wall clock at `timestamp_ms`.
pub fn control_status_at(
    report: &ReportState,
    outcome: &Outcome,
    pid: u32,
    writer_ready: bool,
    timestamp_ms: u128,
) -> (status: ControlStatus)
    ensures
        status.answers(report@, outcome@, pid, writer_ready),
        status.timestamp_ms == timestamp_ms,
{
    ControlStatus {
        pid,
        epoch: report.epoch,
        timestamp_ms,
        command: outcome.command.as_str().to_owned(),
        error: outcome.error,
        phase: report.phase.as_str().to_owned(),
        recording: report.recording,
        direct_target: report.direct_target,
        writer_ready,
    }
}

/// What a report answers after an outcome, stamped with the wall clock.
pub fn control_status(report: &ReportState, outcome: &Outcome, pid: u32, writer_ready: bool) -> (status:
    ControlStatus)
    ensures
        status.answers(report@, outcome@, pid, writer_ready),
        exists|at: std::time::SystemTime|
            status.timestamp_ms == #[trigger] crate::time::millis_at(at),
{
    let timestamp_ms: u128 = epoch_ms();
    control_status_at(report, outcome, pid, writer_ready, timestamp_ms)
}

/// The object that is sent.
pub fn status_object(status: &ControlStatus) -> (object: JsonObject)
    requires
        status.timestamp_ms <= u64::MAX,
    ensures
        crate::json::object_members(object) == status.members(),
{
    let mut object = new_object();
    put(&mut object, "type", Json::Text("control".to_owned()));
    put(&mut object, "pid", Json::Number(status.pid as u64));
    put(&mut object, "epoch", Json::Number(status.epoch));
    put(&mut object, "timestamp_ms", Json::Number(status.timestamp_ms as u64));
    put(&mut object, "command", Json::Text(status.command.as_str().to_owned()));
    put(&mut object, "accepted", Json::Bool(status.error.is_none()));
    let error = match &status.error {
        Some(error) => Json::Text(error.message()),
        None => Json::Null,
    };
    put(&mut object, "error", error);
    put(&mut object, "phase", Json::Text(status.phase.as_str().to_owned()));
    put(&mut object, "recording", Json::Bool(status.recording));
    put(&mut object, "direct_target", Json::Bool(status.direct_target));
    put(&mut object, "writer_ready", Json::Bool(status.writer_ready));
    put(
        &mut object,
        "allocation_policy",
        Json::Text("preserved; capabilities may renegotiate buffers".to_owned()),
    );
    object
}

/// The datagram to send back: every sender that has an address is answered.
pub fn reply(peer_has_path: bool, status: &ControlStatus) -> (datagram: Option<Vec<u8>>)
    requires
        status.timestamp_ms <= u64::MAX,
    ensures
        datagram is Some <==> peer_has_path,
        datagram matches Some(datagram) ==> datagram@ == crate::json::object_text(status.members()),
{
    if peer_has_path {
        Some(object_bytes(&status_object(status)))
    } else {
        None
    }
}

/// The line that the report gets.
pub fn status_line(status: &ControlStatus) -> (bytes: Vec<u8>)
    requires
        status.timestamp_ms <= u64::MAX,
    ensures
        bytes@ == crate::json::object_line(status.members()),
        crate::json::is_line(bytes@),
{
    line(&status_object(status))
}

/// Whether an outcome is worth a line of the report.
pub open spec fn gets_a_line(outcome: OutcomeView) -> bool {
    outcome.error is None && outcome.effect != Effect::Nothing
}

/// Whether an outcome gets a line in the report: only an accepted command that changed something.
pub fn is_recorded(outcome: &Outcome) -> (recorded: bool)
    ensures
        recorded == (outcome@.error is None && outcome@.effect != Effect::Nothing),
        recorded == gets_a_line(outcome@),
{
    let changed = match outcome.effect {
        Effect::Nothing => false,
        _ => true,
    };
    changed && outcome.error.is_none()
}

/// The text `status` changes nothing, whatever white space surrounds it.
pub proof fn law_status_changes_nothing(state: ReportStateView, datagram: Seq<u8>, now: Duration)
    requires
        spelled(datagram) == Some("status"@),
    ensures
        state.after_datagram(datagram, now) == state,
        state.outcome(datagram) == (OutcomeView {
            command: "status"@,
            error: None,
            effect: Effect::Nothing,
        }),
{
}

/// A refused datagram changes nothing, and asks nothing of the compositor.
pub proof fn law_refusals_change_nothing(state: ReportStateView, datagram: Seq<u8>, now: Duration)
    requires
        state.outcome(datagram).error is Some,
    ensures
        state.after_datagram(datagram, now) == state,
        state.outcome(datagram).effect == Effect::Nothing,
{
}

/// A datagram that asks something of the compositor begins a new trial: the number of the trial
/// advances by one, and the running window begins anew.
pub proof fn law_changes_begin_a_trial(state: ReportStateView, datagram: Seq<u8>, now: Duration)
    ensures
        state.outcome(datagram).effect != Effect::Nothing ==> {
            let after = state.after_datagram(datagram, now);
            &&& after.epoch == (state.epoch + 1) % 0x1_0000_0000_0000_0000
            &&& after.previous == now
            &&& after.dropped == state.dropped
            &&& after.startup_direct == state.startup_direct
        },
        state.outcome(datagram).effect == Effect::Nothing ==> state.after_datagram(datagram, now)
            == state,
{
}

/// Direct writes stay off in a session that did not start with them: the command is refused, and
/// no datagram whatever switches them on.
pub proof fn law_direct_writes_need_their_start(
    state: ReportStateView,
    datagrams: Seq<(Seq<u8>, Duration)>,
)
    requires
        state.consistent(),
    ensures
        state.after_datagrams(datagrams).consistent(),
        state.after_datagrams(datagrams).startup_direct == state.startup_direct,
    decreases datagrams.len(),
{
    if datagrams.len() > 0 {
        law_direct_writes_need_their_start(state, datagrams.drop_last());
    }
}

/// The number of the trial counts the datagrams that changed something, around the size of its
/// type.
pub proof fn law_epoch_counts_trials(state: ReportStateView, datagrams: Seq<(Seq<u8>, Duration)>)
    ensures
        state.after_datagrams(datagrams).epoch == (state.epoch + state.trials(datagrams))
            % 0x1_0000_0000_0000_0000,
    decreases datagrams.len(),
{
    if datagrams.len() > 0 {
        let before = datagrams.drop_last();
        law_epoch_counts_trials(state, before);
        law_changes_begin_a_trial(
            state.after_datagrams(before),
            datagrams.last().0,
            datagrams.last().1,
        );
    }
}

/// A frame that was queued before a new trial began is not counted in it, nor in any later one
/// unless the numbers of the trials came round to its own again: its presentation is only counted
/// as ignored.
pub proof fn law_old_frames_stay_out_of_new_trials(
    state: ReportStateView,
    datagrams: Seq<(Seq<u8>, Duration)>,
    surface: crate::pacing::SurfaceTiming,
    at: Duration,
    sequence: u32,
    target: Duration,
    refresh: Option<Duration>,
)
    requires
        state.trials(datagrams) % 0x1_0000_0000_0000_0000 != 0,
    ensures
        surface.presented_records(
            true,
            state.after_datagrams(datagrams).epoch,
            sequence,
            target,
            Some(crate::pacing::QueueStamp { at, epoch: state.epoch }),
            refresh,
        ) == seq![
            crate::pacing::Record::Count(
                crate::pacing::Counter::TransitionPresentationsIgnored,
                1,
            ),
        ],
{
    law_epoch_counts_trials(state, datagrams);
    crate::pacing::law_frames_do_not_cross_trials(
        surface,
        state.after_datagrams(datagrams).epoch,
        sequence,
        target,
        Some(crate::pacing::QueueStamp { at, epoch: state.epoch }),
        refresh,
    );
}

/// A datagram that may have been cut off is refused, whatever it holds.
pub proof fn law_oversized_datagrams_are_refused(state: ReportStateView, datagram: Seq<u8>)
    requires
        datagram.len() >= 128,
    ensures
        state.outcome(datagram).error == Some(ControlError::Invalid),
{
}

proof fn lemma_spells_itself(text: Seq<char>)
    requires
        0 < text.len() < 128,
        vstd::utf8::is_ascii_chars(text),
        !crate::text::is_white_space(text.first()),
        !crate::text::is_white_space(text.last()),
    ensures
        spelled(vstd::utf8::encode_utf8(text)) == Some(text),
{
    vstd::utf8::encode_utf8_valid_utf8(text);
    vstd::utf8::encode_utf8_decode_utf8(text);
    vstd::utf8::is_ascii_chars_encode_utf8(text);
}

/// Every label that does not end in a space can begin a phase.
pub proof fn law_labels_can_be_marked(state: ReportStateView, label: Seq<char>, now: Duration)
    requires
        is_label(label),
        label.last() != ' ',
    ensures
        ({
            let datagram = vstd::utf8::encode_utf8("mark "@ + label);
            &&& state.outcome(datagram).error is None
            &&& state.after_datagram(datagram, now) == (ReportStateView {
                phase: label,
                ..state
            }).restarted(now)
        }),
{
    reveal_strlit("mark ");
    reveal_strlit("status");
    let text = "mark "@ + label;
    assert(text[0] == 'm');
    assert("status"@[0] == 's');
    assert(text.last() == label.last());
    assert(is_label_character(label[label.len() - 1]));
    assert forall|i| 0 <= i < text.len() implies '\0' <= #[trigger] text[i] <= '\u{7f}' by {
        if i >= 5 {
            assert(text[i] == label[i - 5]);
        }
    }
    lemma_spells_itself(text);
    assert(text.subrange(0, 5) == "mark "@);
    assert(text.subrange(5, text.len() as int) == label);
}

/// The commands `record on` and `record off` are always accepted and set what they say.
pub proof fn law_recording_can_be_switched(state: ReportStateView, now: Duration)
    ensures
        state.outcome(vstd::utf8::encode_utf8("record on"@)).effect == Effect::Record(true),
        state.outcome(vstd::utf8::encode_utf8("record off"@)).effect == Effect::Record(false),
        state.after_datagram(vstd::utf8::encode_utf8("record on"@), now).recording,
        !state.after_datagram(vstd::utf8::encode_utf8("record off"@), now).recording,
{
    reveal_strlit("record on");
    reveal_strlit("record off");
    reveal_strlit("mark ");
    reveal_strlit("status");
    assert("record on"@.len() == 9 && "record on"@[0] == 'r');
    assert("record off"@.len() == 10 && "record off"@[0] == 'r');
    assert("status"@[0] == 's');
    assert("mark "@[0] == 'm');
    lemma_spells_itself("record on"@);
    lemma_spells_itself("record off"@);
    assert("record on"@.subrange(0, 5)[0] == 'r');
    assert("record off"@.subrange(0, 5)[0] == 'r');
}

/// The commands `direct on` and `direct off` set what they say in a session that started with
/// direct writes, and are refused in any other.
pub proof fn law_direct_writes_can_be_switched(state: ReportStateView, now: Duration)
    ensures
        state.startup_direct ==> {
            &&& state.outcome(vstd::utf8::encode_utf8("direct on"@)).effect == Effect::Direct(true)
            &&& state.outcome(vstd::utf8::encode_utf8("direct off"@)).effect == Effect::Direct(false)
            &&& state.after_datagram(vstd::utf8::encode_utf8("direct on"@), now).direct_target
            &&& !state.after_datagram(vstd::utf8::encode_utf8("direct off"@), now).direct_target
        },
        !state.startup_direct ==> {
            &&& state.outcome(vstd::utf8::encode_utf8("direct on"@)).error == Some(
                ControlError::DirectUnavailable,
            )
            &&& state.outcome(vstd::utf8::encode_utf8("direct off"@)).error == Some(
                ControlError::DirectUnavailable,
            )
        },
{
    reveal_strlit("direct on");
    reveal_strlit("direct off");
    reveal_strlit("record on");
    reveal_strlit("record off");
    reveal_strlit("mark ");
    reveal_strlit("status");
    assert("direct on"@.len() == 9 && "direct on"@[0] == 'd');
    assert("direct off"@.len() == 10 && "direct off"@[0] == 'd');
    assert("record on"@[0] == 'r' && "record off"@[0] == 'r');
    assert("status"@[0] == 's');
    assert("mark "@[0] == 'm');
    lemma_spells_itself("direct on"@);
    lemma_spells_itself("direct off"@);
    assert("direct on"@.subrange(0, 5)[0] == 'd');
    assert("direct off"@.subrange(0, 5)[0] == 'd');
}

/// The names of the members of an answer are all different.
proof fn lemma_status_names()
    ensures
        "type"@ != "pid"@,
        "type"@ != "epoch"@,
        "type"@ != "timestamp_ms"@,
        "type"@ != "command"@,
        "type"@ != "accepted"@,
        "type"@ != "error"@,
        "type"@ != "phase"@,
        "type"@ != "recording"@,
        "type"@ != "direct_target"@,
        "type"@ != "writer_ready"@,
        "type"@ != "allocation_policy"@,
        "pid"@ != "epoch"@,
        "pid"@ != "timestamp_ms"@,
        "pid"@ != "command"@,
        "pid"@ != "accepted"@,
        "pid"@ != "error"@,
        "pid"@ != "phase"@,
        "pid"@ != "recording"@,
        "pid"@ != "direct_target"@,
        "pid"@ != "writer_ready"@,
        "pid"@ != "allocation_policy"@,
        "epoch"@ != "timestamp_ms"@,
        "epoch"@ != "command"@,
        "epoch"@ != "accepted"@,
        "epoch"@ != "error"@,
        "epoch"@ != "phase"@,
        "epoch"@ != "recording"@,
        "epoch"@ != "direct_target"@,
        "epoch"@ != "writer_ready"@,
        "epoch"@ != "allocation_policy"@,
        "timestamp_ms"@ != "command"@,
        "timestamp_ms"@ != "accepted"@,
        "timestamp_ms"@ != "error"@,
        "timestamp_ms"@ != "phase"@,
        "timestamp_ms"@ != "recording"@,
        "timestamp_ms"@ != "direct_target"@,
        "timestamp_ms"@ != "writer_ready"@,
        "timestamp_ms"@ != "allocation_policy"@,
        "command"@ != "accepted"@,
        "command"@ != "error"@,
        "command"@ != "phase"@,
        "command"@ != "recording"@,
        "command"@ != "direct_target"@,
        "command"@ != "writer_ready"@,
        "command"@ != "allocation_policy"@,
        "accepted"@ != "error"@,
        "accepted"@ != "phase"@,
        "accepted"@ != "recording"@,
        "accepted"@ != "direct_target"@,
        "accepted"@ != "writer_ready"@,
        "accepted"@ != "allocation_policy"@,
        "error"@ != "phase"@,
        "error"@ != "recording"@,
        "error"@ != "direct_target"@,
        "error"@ != "writer_ready"@,
        "error"@ != "allocation_policy"@,
        "phase"@ != "recording"@,
        "phase"@ != "direct_target"@,
        "phase"@ != "writer_ready"@,
        "phase"@ != "allocation_policy"@,
        "recording"@ != "direct_target"@,
        "recording"@ != "writer_ready"@,
        "recording"@ != "allocation_policy"@,
        "direct_target"@ != "writer_ready"@,
        "direct_target"@ != "allocation_policy"@,
        "writer_ready"@ != "allocation_policy"@,
{
    reveal_strlit("type");
    reveal_strlit("pid");
    reveal_strlit("epoch");
    reveal_strlit("timestamp_ms");
    reveal_strlit("command");
    reveal_strlit("accepted");
    reveal_strlit("error");
    reveal_strlit("phase");
    reveal_strlit("recording");
    reveal_strlit("direct_target");
    reveal_strlit("writer_ready");
    reveal_strlit("allocation_policy");
    assert("type"@.len() == 4);
    assert("pid"@.len() == 3);
    assert("epoch"@.len() == 5);
    assert("timestamp_ms"@.len() == 12);
    assert("command"@.len() == 7);
    assert("accepted"@.len() == 8);
    assert("error"@.len() == 5);
    assert("phase"@.len() == 5);
    assert("recording"@.len() == 9);
    assert("direct_target"@.len() == 13);
    assert("writer_ready"@.len() == 12);
    assert("allocation_policy"@.len() == 17);
    assert("epoch"@[1] != "error"@[1]);
    assert("epoch"@[0] != "phase"@[0]);
    assert("timestamp_ms"@[0] != "writer_ready"@[0]);
    assert("error"@[0] != "phase"@[0]);
}

/// An answer says under each name how things stand, and nothing under any other: what was asked,
/// whether and why it was refused, and the state of the report.
pub proof fn law_answers_say_everything(status: ControlStatus, name: Seq<char>)
    ensures
        ({
            let members = status.members();
            &&& members.dom().contains(name) <==> {
                ||| name == "type"@
                ||| name == "pid"@
                ||| name == "epoch"@
                ||| name == "timestamp_ms"@
                ||| name == "command"@
                ||| name == "accepted"@
                ||| name == "error"@
                ||| name == "phase"@
                ||| name == "recording"@
                ||| name == "direct_target"@
                ||| name == "writer_ready"@
                ||| name == "allocation_policy"@
            }
            &&& members["type"@] == JsonModel::Text("control"@)
            &&& members["pid"@] == JsonModel::Number(status.pid as nat)
            &&& members["epoch"@] == JsonModel::Number(status.epoch as nat)
            &&& members["timestamp_ms"@] == JsonModel::Number(status.timestamp_ms as nat)
            &&& members["command"@] == JsonModel::Text(status.command@)
            &&& members["accepted"@] == JsonModel::Bool(status.error is None)
            &&& status.error is None ==> members["error"@] == JsonModel::Null
            &&& status.error matches Some(error) ==> members["error"@] == JsonModel::Text(
                error.wording(),
            )
            &&& members["phase"@] == JsonModel::Text(status.phase@)
            &&& members["recording"@] == JsonModel::Bool(status.recording)
            &&& members["direct_target"@] == JsonModel::Bool(status.direct_target)
            &&& members["writer_ready"@] == JsonModel::Bool(status.writer_ready)
        }),
{
    lemma_status_names();
}

/// An answer bears the state of the report after the command, what was asked and why it was
/// refused.
pub proof fn law_answers_bear_the_state(
    status: ControlStatus,
    report: ReportStateView,
    outcome: OutcomeView,
    pid: u32,
    writer_ready: bool,
)
    ensures
        status.answers(report, outcome, pid, writer_ready) <==> {
            &&& status.pid == pid
            &&& status.writer_ready == writer_ready
            &&& status.command@ == outcome.command
            &&& status.error == outcome.error
            &&& status.epoch == report.epoch
            &&& status.phase@ == report.phase
            &&& status.recording == report.recording
            &&& status.direct_target == report.direct_target
        },
{
}

/// Whether a character of ASCII is a digit, a letter, an underscore, a hyphen, a space or a full
/// stop, by its code.
pub open spec fn is_plain_code(code: u32) -> bool {
    ||| 0x30 <= code <= 0x39
    ||| 0x41 <= code <= 0x5a
    ||| 0x61 <= code <= 0x7a
    ||| code == 0x5f
    ||| code == 0x2d
    ||| code == 0x20
    ||| code == 0x2e
}

proof fn lemma_label_character(c: char)
    ensures
        is_label_character(c) <==> is_plain_code(c as u32),
{
}

/// A label is one to eighty characters of ASCII, each a digit, a letter, an underscore, a hyphen,
/// a space or a full stop.
pub proof fn law_labels(text: Seq<char>)
    ensures
        is_label(text) <==> 1 <= text.len() <= 80 && (forall|i: int|
            0 <= i < text.len() ==> is_plain_code((#[trigger] text[i]) as u32)),
{
    assert forall|i: int| 0 <= i < text.len() implies is_label_character(#[trigger] text[i])
        == is_plain_code(text[i] as u32) by {
        lemma_label_character(text[i]);
    }
}

proof fn lemma_command_texts()
    ensures
        "status"@ != "record on"@,
        "status"@ != "record off"@,
        "status"@ != "direct on"@,
        "status"@ != "direct off"@,
        "record on"@ != "record off"@,
        "record on"@ != "direct on"@,
        "record on"@ != "direct off"@,
        "record off"@ != "direct on"@,
        "record off"@ != "direct off"@,
        "direct on"@ != "direct off"@,
        "mark "@.len() == 5,
        !crate::text::begins("status"@, "mark "@),
        !crate::text::begins("record on"@, "mark "@),
        !crate::text::begins("record off"@, "mark "@),
        !crate::text::begins("direct on"@, "mark "@),
        !crate::text::begins("direct off"@, "mark "@),
{
    reveal_strlit("status");
    reveal_strlit("record on");
    reveal_strlit("record off");
    reveal_strlit("direct on");
    reveal_strlit("direct off");
    reveal_strlit("mark ");
    assert("status"@.len() == 6 && "status"@[0] == 's');
    assert("record on"@.len() == 9 && "record on"@[0] == 'r');
    assert("record off"@.len() == 10 && "record off"@[0] == 'r');
    assert("direct on"@.len() == 9 && "direct on"@[0] == 'd');
    assert("direct off"@.len() == 10 && "direct off"@[0] == 'd');
    assert("mark "@.len() == 5 && "mark "@[0] == 'm');
    assert("status"@.subrange(0, 5)[0] == 's');
    assert("record on"@.subrange(0, 5)[0] == 'r');
    assert("record off"@.subrange(0, 5)[0] == 'r');
    assert("direct on"@.subrange(0, 5)[0] == 'd');
    assert("direct off"@.subrange(0, 5)[0] == 'd');
}

/// Each command is spelled in one way alone, and a phase by the word before its label. A label
/// that is none is refused as such; every other text is unknown.
pub proof fn law_commands_are_spelled_in_one_way(text: Seq<char>, label: Seq<char>)
    ensures
        command_of(text) == Ok::<CommandView, ControlError>(CommandView::Status) <==> text == "status"@,
        command_of(text) == Ok::<CommandView, ControlError>(CommandView::Record(true)) <==> text
            == "record on"@,
        command_of(text) == Ok::<CommandView, ControlError>(CommandView::Record(false)) <==> text
            == "record off"@,
        command_of(text) == Ok::<CommandView, ControlError>(CommandView::Direct(true)) <==> text
            == "direct on"@,
        command_of(text) == Ok::<CommandView, ControlError>(CommandView::Direct(false)) <==> text
            == "direct off"@,
        command_of(text) == Ok::<CommandView, ControlError>(CommandView::Mark(label)) <==> text
            == "mark "@ + label && is_label(label),
        command_of("mark "@ + label) == Err::<CommandView, ControlError>(ControlError::Label)
            <==> !is_label(label),
        command_of(text) matches Err(error) ==> error == ControlError::Label || error
            == ControlError::Unrecognized,
        command_of(text) == Err::<CommandView, ControlError>(ControlError::Label)
            ==> crate::text::begins(text, "mark "@),
{
    lemma_command_texts();
    let marked = "mark "@ + label;
    crate::text::law_beginnings("mark "@, label, text);
    assert(marked.subrange(5, marked.len() as int) =~= label);
}

/// What a datagram spells is its text without the white space around it, where it is shorter than
/// the limit and a text at all; otherwise it spells nothing.
pub proof fn law_datagrams_spell_their_text(datagram: Seq<u8>)
    ensures
        spelled(datagram) is Some <==> datagram.len() < 128 && vstd::utf8::valid_utf8(datagram),
        spelled(datagram) matches Some(text) ==> text == crate::text::trimmed(
            vstd::utf8::decode_utf8(datagram),
        ),
{
}

/// A datagram is refused for one of four reasons, each in its own case, and is accepted in every
/// other. What was asked is answered as it was spelled.
pub proof fn law_refusals_have_their_reason(state: ReportStateView, datagram: Seq<u8>)
    ensures
        ({
            let outcome = state.outcome(datagram);
            match spelled(datagram) {
                None => outcome.error == Some(ControlError::Invalid) && outcome.command == "invalid"@,
                Some(text) => {
                    &&& outcome.command == text
                    &&& outcome.error == Some(ControlError::DirectUnavailable) <==> (text == "direct on"@
                        || text == "direct off"@) && !state.startup_direct
                    &&& outcome.error == Some(ControlError::Label) <==> command_of(text) == Err::<
                        CommandView,
                        ControlError,
                    >(ControlError::Label)
                    &&& outcome.error == Some(ControlError::Unrecognized) <==> command_of(text) == Err::<
                        CommandView,
                        ControlError,
                    >(ControlError::Unrecognized)
                    &&& outcome.error != Some(ControlError::Invalid)
                },
            }
        }),
{
    lemma_command_texts();
    if spelled(datagram) is Some {
        law_commands_are_spelled_in_one_way(spelled(datagram)->0, Seq::empty());
    }
}

/// An accepted command changes its own part of the report and nothing else but the trial and its
/// window: a mark the phase, which becomes its label, the switch of recording the recording, and
/// the switch of direct writes the direct writes. The compositor is asked for the same.
pub proof fn law_commands_change_their_own_part(
    state: ReportStateView,
    datagram: Seq<u8>,
    now: Duration,
    label: Seq<char>,
    on: bool,
)
    ensures
        ({
            let outcome = state.outcome(datagram);
            let after = state.after_datagram(datagram, now);
            let text = spelled(datagram);
            &&& text == Some("mark "@ + label) && is_label(label) ==> {
                &&& outcome.effect == Effect::Restart
                &&& after.phase == label
                &&& after.recording == state.recording
                &&& after.direct_target == state.direct_target
            }
            &&& text == Some(
                if on {
                    "record on"@
                } else {
                    "record off"@
                },
            ) ==> {
                &&& outcome.effect == Effect::Record(on)
                &&& after.recording == on
                &&& after.phase == state.phase
                &&& after.direct_target == state.direct_target
            }
            &&& text == Some(
                if on {
                    "direct on"@
                } else {
                    "direct off"@
                },
            ) && state.startup_direct ==> {
                &&& outcome.effect == Effect::Direct(on)
                &&& after.direct_target == on
                &&& after.phase == state.phase
                &&& after.recording == state.recording
            }
            &&& outcome.effect == Effect::Nothing ==> after == state
        }),
{
    lemma_command_texts();
    law_commands_are_spelled_in_one_way("mark "@ + label, label);
}

/// A wake-up goes on reading as long as it handled fewer than eight datagrams; it waits once there
/// is nothing to read, and gives the socket up where reading failed, whatever came before.
pub proof fn law_wake_up_reads_on(batch: Batch)
    ensures
        batch.handled < 7 ==> batch.next(Received::Datagram) == BatchStep::Read && batch.after(
            Received::Datagram,
        ).handled == batch.handled + 1,
        batch.handled >= 7 ==> batch.next(Received::Datagram) == BatchStep::Wait,
        batch.next(Received::Nothing) == BatchStep::Wait,
        batch.next(Received::Failed) == BatchStep::Remove,
        batch.after(Received::Nothing) == batch,
        batch.after(Received::Failed) == batch,
{
}

/// A private directory gives neither its group nor others any right, to read, to write or to
/// search; whatever its owner may do, and whatever else its mode holds, does not matter.
pub proof fn law_private_directories_are_closed(directory: DirectoryFacts, user: u32)
    ensures
        belongs_to(directory, user) <==> {
            &&& directory.is_directory
            &&& directory.owner == user
            &&& directory.mode & 0o040 == 0
            &&& directory.mode & 0o020 == 0
            &&& directory.mode & 0o010 == 0
            &&& directory.mode & 0o004 == 0
            &&& directory.mode & 0o002 == 0
            &&& directory.mode & 0o001 == 0
        },
{
    let mode = directory.mode;
    assert(mode & 0o077 == 0 <==> mode & 0o040 == 0 && mode & 0o020 == 0 && mode & 0o010 == 0 && mode
        & 0o004 == 0 && mode & 0o002 == 0 && mode & 0o001 == 0) by (bit_vector);
}

/// The report gets a line for every datagram that begins a new trial, and for no other.
pub proof fn law_lines_are_for_new_trials(state: ReportStateView, datagram: Seq<u8>, now: Duration)
    ensures
        gets_a_line(state.outcome(datagram)) <==> state.outcome(datagram).effect != Effect::Nothing,
        !gets_a_line(state.outcome(datagram)) ==> state.after_datagram(datagram, now) == state,
        gets_a_line(state.outcome(datagram)) ==> state.after_datagram(datagram, now).epoch
            != state.epoch,
{
}

} // verus!
