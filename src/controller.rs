use vstd::prelude::*;
use vstd::string::*;
use vstd::utf8::valid_utf8;

use crate::command::Stage;
use crate::level::{applied_percent, clamp_percent};
use crate::text::{
    mac_mute_answer, mac_volume, pactl_muted, pactl_volume, read_mac_mute_answer, read_mac_volume,
    read_pactl_muted, read_pactl_volume,
};

verus! {

/// The platform whose audio tools the controller drives.
#[derive(Clone, Copy, PartialEq, Eq, Structural, Debug)]
pub enum Platform {
    MacOs,
    Windows,
    Linux,
}

/// What an operation hands back on success.
#[derive(Clone, Copy, PartialEq, Eq, Structural, Debug)]
pub enum Reply {
    /// The output volume, as a percentage from 0 to 100.
    Volume(u8),
    /// The volume was set.
    Applied,
    /// The mute state after the toggle.
    Muted(bool),
}

/// The step of an operation that failed.
#[derive(Clone, Copy, PartialEq, Eq, Structural, Debug)]
pub enum ErrorKind {
    /// The tool could not be launched.
    Spawn,
    /// The tool ran and reported failure.
    Execution,
    /// The tool's output is not UTF-8 text.
    Decode,
    /// The tool's output does not have the expected shape.
    Parse,
}

/// Why an operation failed, at which stage; `detail` holds the system's
/// words for a launch that failed, and is empty otherwise.
#[derive(Debug)]
pub struct VolumeError {
    pub kind: ErrorKind,
    pub stage: Stage,
    pub detail: String,
}

/// The operation a stage belongs to, in the words of the error text.
pub open spec fn reads_volume(stage: Stage) -> bool {
    stage == Stage::MacReadVolume || stage == Stage::PactlReadVolume
}

pub open spec fn writes_volume(stage: Stage) -> bool {
    stage is MacWriteVolume || stage is PactlWriteVolume
}

pub open spec fn changes_mute(stage: Stage) -> bool {
    stage is MacWriteMute || stage == Stage::PactlToggleMute
}

pub open spec fn spawn_prefix(stage: Stage) -> Seq<char> {
    if reads_volume(stage) {
        "Failed to get volume: "@
    } else if writes_volume(stage) {
        "Failed to set volume: "@
    } else if changes_mute(stage) {
        "Failed to toggle mute: "@
    } else {
        "Failed to get mute status: "@
    }
}

pub open spec fn execution_text(stage: Stage) -> Seq<char> {
    if reads_volume(stage) {
        "Failed to get system volume"@
    } else if writes_volume(stage) {
        "Failed to set system volume"@
    } else if changes_mute(stage) {
        "Failed to toggle system mute"@
    } else if stage == Stage::PactlReadMute {
        "Failed to get new mute status"@
    } else {
        "Failed to get mute status"@
    }
}

/// The text of an error.
pub open spec fn message_spec(kind: ErrorKind, stage: Stage, detail: Seq<char>) -> Seq<char> {
    match kind {
        ErrorKind::Spawn => spawn_prefix(stage) + detail,
        ErrorKind::Execution => execution_text(stage),
        ErrorKind::Decode => if reads_volume(stage) {
            "Failed to read volume string"@
        } else {
            "Failed to read mute status"@
        },
        ErrorKind::Parse => if reads_volume(stage) {
            "Failed to parse volume output"@
        } else {
            "Failed to parse mute status"@
        },
    }
}

impl VolumeError {
    /// The error as text for the caller.
    pub fn message(&self) -> (r: String)
        ensures
            r@ == message_spec(self.kind, self.stage, self.detail@),
    {
        let stage = self.stage;
        let reads = stage == Stage::MacReadVolume || stage == Stage::PactlReadVolume;
        let writes = match stage {
            Stage::MacWriteVolume(_) | Stage::PactlWriteVolume(_) => true,
            _ => false,
        };
        let mutes = match stage {
            Stage::MacWriteMute(_) | Stage::PactlToggleMute => true,
            _ => false,
        };
        match self.kind {
            ErrorKind::Spawn => {
                let mut r = if reads {
                    String::from_str("Failed to get volume: ")
                } else if writes {
                    String::from_str("Failed to set volume: ")
                } else if mutes {
                    String::from_str("Failed to toggle mute: ")
                } else {
                    String::from_str("Failed to get mute status: ")
                };
                r.append(self.detail.as_str());
                r
            },
            ErrorKind::Execution => {
                if reads {
                    String::from_str("Failed to get system volume")
                } else if writes {
                    String::from_str("Failed to set system volume")
                } else if mutes {
                    String::from_str("Failed to toggle system mute")
                } else if stage == Stage::PactlReadMute {
                    String::from_str("Failed to get new mute status")
                } else {
                    String::from_str("Failed to get mute status")
                }
            },
            ErrorKind::Decode => {
                if reads {
                    String::from_str("Failed to read volume string")
                } else {
                    String::from_str("Failed to read mute status")
                }
            },
            ErrorKind::Parse => {
                if reads {
                    String::from_str("Failed to parse volume output")
                } else {
                    String::from_str("Failed to parse mute status")
                }
            },
        }
    }
}

/// What running a stage's command came to.
pub enum Outcome {
    /// The program could not be launched, with the system's description.
    SpawnFailed(String),
    /// The program ran: whether it exited with success, and what it wrote
    /// to standard output.
    Exited { success: bool, stdout: Vec<u8> },
}

pub enum OutcomeModel {
    SpawnFailed(Seq<char>),
    Exited(bool, Seq<u8>),
}

impl View for Outcome {
    type V = OutcomeModel;

    open spec fn view(&self) -> OutcomeModel {
        match self {
            Outcome::SpawnFailed(d) => OutcomeModel::SpawnFailed(d@),
            Outcome::Exited { success, stdout } => OutcomeModel::Exited(*success, stdout@),
        }
    }
}

/// What to do next in an operation: run a stage's command and report its
/// outcome, or stop with the operation's result.
pub enum Step {
    Run(Stage),
    Done(Result<Reply, VolumeError>),
}

pub enum StepModel {
    Run(Stage),
    Finished(Reply),
    Failed(ErrorKind, Stage, Seq<char>),
}

impl View for Step {
    type V = StepModel;

    open spec fn view(&self) -> StepModel {
        match self {
            Step::Run(s) => StepModel::Run(*s),
            Step::Done(Ok(r)) => StepModel::Finished(*r),
            Step::Done(Err(e)) => StepModel::Failed(e.kind, e.stage, e.detail@),
        }
    }
}

/// Relies on `std::str::from_utf8`: it succeeds exactly on well-formed UTF-8,
/// which vstd's `valid_utf8` states.
#[verifier::external_body]
fn is_utf8(b: &[u8]) -> (r: bool)
    ensures
        r == valid_utf8(b@),
{
    std::str::from_utf8(b).is_ok()
}

pub open spec fn failed(kind: ErrorKind, stage: Stage) -> StepModel {
    StepModel::Failed(kind, stage, Seq::empty())
}

pub open spec fn volume_step(stage: Stage, v: Option<nat>) -> StepModel {
    match v {
        Some(p) => StepModel::Finished(Reply::Volume(p as u8)),
        None => failed(ErrorKind::Parse, stage),
    }
}

/// What a stage that reads the tool's answer makes of that answer.
pub open spec fn read_spec(stage: Stage, out: Seq<u8>) -> StepModel {
    match stage {
        Stage::MacReadVolume => volume_step(stage, mac_volume(out)),
        Stage::PactlReadVolume => volume_step(stage, pactl_volume(out)),
        Stage::MacReadMute => match mac_mute_answer(out) {
            Some(muted) => StepModel::Run(Stage::MacWriteMute(!muted)),
            None => failed(ErrorKind::Parse, stage),
        },
        _ => StepModel::Finished(Reply::Muted(pactl_muted(out))),
    }
}

/// The stages that read the tool's answer; the others look at its exit
/// status alone.
pub open spec fn reads_answer(stage: Stage) -> bool {
    match stage {
        Stage::MacReadVolume | Stage::PactlReadVolume | Stage::MacReadMute
        | Stage::PactlReadMute => true,
        _ => false,
    }
}

/// The next step once a stage's command has run; `text_ok` says whether its
/// output is UTF-8 text.
pub open spec fn next_spec(stage: Stage, o: OutcomeModel, text_ok: bool) -> StepModel {
    match o {
        OutcomeModel::SpawnFailed(d) => StepModel::Failed(ErrorKind::Spawn, stage, d),
        OutcomeModel::Exited(success, out) => {
            if !success {
                failed(ErrorKind::Execution, stage)
            } else if reads_answer(stage) {
                if !text_ok {
                    failed(ErrorKind::Decode, stage)
                } else {
                    read_spec(stage, out)
                }
            } else {
                match stage {
                    Stage::MacWriteMute(m) => StepModel::Finished(Reply::Muted(m)),
                    Stage::PactlToggleMute => StepModel::Run(Stage::PactlReadMute),
                    _ => StepModel::Finished(Reply::Applied),
                }
            }
        },
    }
}

/// Whether the output of an outcome decodes as text; an outcome without
/// output has nothing to decode.
pub open spec fn outcome_text_ok(o: OutcomeModel) -> bool {
    match o {
        OutcomeModel::Exited(_, out) => valid_utf8(out),
        _ => true,
    }
}

fn failure(kind: ErrorKind, stage: Stage) -> (r: Step)
    ensures
        r@ == failed(kind, stage),
{
    Step::Done(Err(VolumeError { kind, stage, detail: String::new() }))
}

fn volume_result(stage: Stage, v: Option<u8>) -> (r: Step)
    ensures
        v is Some ==> r@ == StepModel::Finished(Reply::Volume(v->Some_0)),
        v is None ==> r@ == failed(ErrorKind::Parse, stage),
{
    match v {
        Some(p) => Step::Done(Ok(Reply::Volume(p))),
        None => failure(ErrorKind::Parse, stage),
    }
}

impl Stage {
    /// The next step once this stage's command has run, given whether its
    /// output is UTF-8 text. A launch that failed, or an exit status that
    /// reports failure, always ends the operation with an error.
    pub fn interpret(&self, outcome: &Outcome, text_ok: bool) -> (r: Step)
        ensures
            r@ == next_spec(*self, outcome@, text_ok),
            outcome@ is Exited && !outcome@->Exited_0 ==> r@ == failed(ErrorKind::Execution, *self),
    {
        match outcome {
            Outcome::SpawnFailed(d) => Step::Done(
                Err(VolumeError { kind: ErrorKind::Spawn, stage: *self, detail: d.clone() }),
            ),
            Outcome::Exited { success, stdout } => {
                if !*success {
                    return failure(ErrorKind::Execution, *self);
                }
                match *self {
                    Stage::MacWriteVolume(_) | Stage::PactlWriteVolume(_) => Step::Done(
                        Ok(Reply::Applied),
                    ),
                    Stage::MacWriteMute(m) => Step::Done(Ok(Reply::Muted(m))),
                    Stage::PactlToggleMute => Step::Run(Stage::PactlReadMute),
                    _ => {
                        if !text_ok {
                            return failure(ErrorKind::Decode, *self);
                        }
                        let out = stdout.as_slice();
                        match *self {
                            Stage::MacReadVolume => volume_result(*self, read_mac_volume(out)),
                            Stage::PactlReadVolume => volume_result(
                                *self,
                                read_pactl_volume(out),
                            ),
                            Stage::MacReadMute => match read_mac_mute_answer(out) {
                                Some(muted) => Step::Run(Stage::MacWriteMute(!muted)),
                                None => failure(ErrorKind::Parse, *self),
                            },
                            _ => Step::Done(Ok(Reply::Muted(read_pactl_muted(out)))),
                        }
                    },
                }
            },
        }
    }

    /// The next step once this stage's command has run.
    pub fn advance(&self, outcome: &Outcome) -> (r: Step)
        ensures
            r@ == next_spec(*self, outcome@, outcome_text_ok(outcome@)),
    {
        let text_ok = match outcome {
            Outcome::Exited { stdout, .. } => is_utf8(stdout.as_slice()),
            Outcome::SpawnFailed(_) => true,
        };
        self.interpret(outcome, text_ok)
    }
}

/// The volume that Windows reports: a fixed placeholder of one half, since
/// no mixer query is wired up there.
pub open spec fn windows_volume() -> u8 {
    50
}

pub open spec fn get_volume_spec(p: Platform) -> StepModel {
    match p {
        Platform::MacOs => StepModel::Run(Stage::MacReadVolume),
        Platform::Linux => StepModel::Run(Stage::PactlReadVolume),
        Platform::Windows => StepModel::Finished(Reply::Volume(windows_volume())),
    }
}

pub open spec fn set_volume_spec(p: Platform, scaled: int) -> StepModel {
    match p {
        Platform::MacOs => StepModel::Run(Stage::MacWriteVolume(clamp_percent(scaled) as u8)),
        Platform::Linux => StepModel::Run(Stage::PactlWriteVolume(clamp_percent(scaled) as u8)),
        Platform::Windows => StepModel::Finished(Reply::Applied),
    }
}

pub open spec fn toggle_mute_spec(p: Platform) -> StepModel {
    match p {
        Platform::MacOs => StepModel::Run(Stage::MacReadMute),
        Platform::Linux => StepModel::Run(Stage::PactlToggleMute),
        Platform::Windows => StepModel::Finished(Reply::Muted(false)),
    }
}

/// Reads, sets and toggles the output volume of one platform. Each operation
/// starts with one of `get_volume`, `set_volume` and `toggle_mute`; while the
/// step is `Run`, the caller runs that stage's command and hands its outcome
/// to the stage's `advance`.
#[derive(Clone, Copy, PartialEq, Eq, Structural, Debug)]
pub struct VolumeController {
    pub platform: Platform,
}

impl VolumeController {
    pub fn new(platform: Platform) -> (r: VolumeController)
        ensures
            r.platform == platform,
    {
        VolumeController { platform }
    }

    /// The first step of reading the output volume.
    pub fn get_volume(&self) -> (r: Step)
        ensures
            r@ == get_volume_spec(self.platform),
    {
        match self.platform {
            Platform::MacOs => Step::Run(Stage::MacReadVolume),
            Platform::Linux => Step::Run(Stage::PactlReadVolume),
            Platform::Windows => Step::Done(Ok(Reply::Volume(50))),
        }
    }

    /// The first step of setting the output volume to a requested level,
    /// given scaled by one hundred and truncated toward zero; the level is
    /// held to the range 0 to 100 before it is used.
    pub fn set_volume(&self, scaled: i64) -> (r: Step)
        ensures
            r@ == set_volume_spec(self.platform, scaled as int),
    {
        let percent = applied_percent(scaled);
        match self.platform {
            Platform::MacOs => Step::Run(Stage::MacWriteVolume(percent)),
            Platform::Linux => Step::Run(Stage::PactlWriteVolume(percent)),
            Platform::Windows => Step::Done(Ok(Reply::Applied)),
        }
    }

    /// The first step of toggling the mute state.
    pub fn toggle_mute(&self) -> (r: Step)
        ensures
            r@ == toggle_mute_spec(self.platform),
    {
        match self.platform {
            Platform::MacOs => Step::Run(Stage::MacReadMute),
            Platform::Linux => Step::Run(Stage::PactlToggleMute),
            Platform::Windows => Step::Done(Ok(Reply::Muted(false))),
        }
    }
}

} // verus!
