//! The steps of burning a disc: which check comes next, what to ask the user,
//! and with which options cdrdao simulates and burns. The caller performs each
//! action (prompts, file lookups, running cdrdao) and hands back what came of
//! it as the next event.
use vstd::prelude::*;

use crate::album::{album_nanos, album_validated, Album, AlbumValidationError};
use crate::cdrdao::{speed_from_choice, speed_of_choice, BurnOptions, CdTextDriver, CdrdaoError};
use crate::time::MAX_NANOS;
use crate::track::track_checkable;

verus! {

/// Where the burn wizard stands.
#[derive(Debug, Clone, Copy, PartialEq, Eq, Structural)]
pub enum BurnStage {
    /// Nothing has happened yet.
    Start,
    /// Waiting to hear whether cdrdao is installed.
    Tool,
    /// Waiting to hear whether an exported TOC file exists.
    Toc,
    /// Waiting for the answer to "Export master now?".
    Export,
    /// Waiting to hear whether the export left a TOC file.
    ExportToc,
    /// Waiting for the list of CD drives.
    Drives,
    /// Waiting for the user to pick one of several drives.
    Drive,
    /// Waiting for a device path typed by the user.
    Device,
    /// Waiting for the burn speed.
    Speed,
    /// Waiting for the answer to "Simulate burn first?".
    Simulate,
    /// Waiting for the dry run to finish.
    Simulation,
    /// Waiting for the answer to "Proceed with actual burn?".
    Proceed,
    /// Waiting for the answer to "Ready to burn?".
    Ready,
    /// Waiting for the burn to finish.
    Burn,
    /// Finished: every further event is ignored.
    Done,
}

/// The burn wizard's state: the stage and what has been established so far.
#[derive(Debug)]
pub struct BurnWizard {
    /// Where the wizard stands
    pub stage: BurnStage,
    /// cdrdao was found
    pub tool_found: bool,
    /// The album has tracks and passed validation
    pub album_ready: bool,
    /// The exported TOC file to burn
    pub toc: Option<String>,
    /// The device paths of the drives found
    pub drives: Vec<String>,
    /// The device to burn on
    pub device: Option<String>,
    /// The burn speed (0: the drive decides)
    pub speed: u32,
    /// The user asked for a dry run first
    pub simulate_first: bool,
    /// The dry run succeeded
    pub simulated: bool,
}

/// What the caller reports back to the wizard.
#[derive(Debug)]
pub enum BurnEvent {
    /// The user chose to burn a disc.
    Begin,
    /// Whether cdrdao is installed.
    ToolChecked(bool),
    /// The exported TOC file, if one was found.
    TocLooked(Option<String>),
    /// The answer to "Export master now?" (`false` also when the prompt was aborted).
    ExportAnswered(bool),
    /// The device paths of the drives found, or why scanning failed.
    DrivesListed(Result<Vec<String>, CdrdaoError>),
    /// The position of the drive picked in the list, or `None` when the prompt was aborted.
    DriveChosen(Option<usize>),
    /// The device path typed, or `None` when the prompt was aborted.
    DeviceEntered(Option<String>),
    /// The speed menu choice, or `None` when the prompt was aborted.
    SpeedChosen(Option<String>),
    /// The answer to "Simulate burn first?", or `None` when the prompt was aborted.
    SimulateAnswered(Option<bool>),
    /// How the dry run ended.
    SimulationDone(Result<(), CdrdaoError>),
    /// The answer to "Proceed with actual burn?", or `None` when the prompt was aborted.
    ProceedAnswered(Option<bool>),
    /// The answer to "Ready to burn?", or `None` when the prompt was aborted.
    ReadyAnswered(Option<bool>),
    /// How the burn ended.
    BurnDone(Result<(), CdrdaoError>),
}

/// What the wizard asks the caller to do next.
#[derive(Debug)]
pub enum BurnAction {
    /// Look for cdrdao (and show its version when found).
    CheckTool,
    /// Explain how to install cdrdao; the wizard is done.
    ExplainMissingTool,
    /// Report that the album has no tracks; the wizard is done.
    ReportNoTracks,
    /// Report the validation error; the wizard is done.
    ReportInvalid(AlbumValidationError),
    /// Report that the album is Red Book compliant and look for the exported TOC file.
    LookForToc,
    /// Report that no TOC file was found and offer to export now.
    OfferExport,
    /// Export the master, then look for the TOC file again.
    ExportThenLookForToc,
    /// Report that the export was cancelled or failed; the wizard is done.
    ReportExportFailed,
    /// Scan for CD drives.
    ListDrives,
    /// Report that no drive was found; the wizard is done.
    ReportNoDrives,
    /// Report why scanning failed and ask for a device path.
    AskDevice(CdrdaoError),
    /// Ask which of the drives to use.
    AskDrive,
    /// Announce the one drive in use, then ask for the burn speed.
    UseOnlyDrive,
    /// Ask for the burn speed.
    AskSpeed,
    /// Ask whether to simulate first.
    AskSimulate,
    /// Run cdrdao with these options (a dry run) on this TOC file.
    RunSimulation { options: BurnOptions, toc: String },
    /// Report that the dry run failed; the wizard is done.
    ReportSimulationFailed(CdrdaoError),
    /// Report that the dry run succeeded and ask whether to proceed.
    AskProceed,
    /// Remind the user to insert a blank disc and ask whether they are ready.
    AskReady,
    /// Run cdrdao with these options on this TOC file: the actual burn.
    StartBurn { options: BurnOptions, toc: String },
    /// Report how the burn ended; the wizard is done.
    ReportBurn(Result<(), CdrdaoError>),
    /// Report that the burn was cancelled; the wizard is done.
    Cancelled,
    /// Stop without a word (a prompt was aborted); the wizard is done.
    Stop,
    /// The event does not belong to this stage: nothing to do.
    Ignore,
}

/// The options the wizard burns with: the chosen device and speed, ejecting the
/// disc afterwards, with the raw generic-MMC driver for CD-TEXT.
pub open spec fn wizard_options(device: String, speed: u32, simulate: bool) -> BurnOptions {
    BurnOptions {
        device,
        speed,
        simulate,
        eject: true,
        cd_text_driver: CdTextDriver::GenericMmcRaw,
    }
}

/// Whether the wizard has an album that validation may be run on.
pub open spec fn album_checkable(album: &Album) -> bool {
    &&& album_nanos(album.tracks@) <= MAX_NANOS
    &&& forall|i: int| 0 <= i < album.tracks@.len() ==> track_checkable(#[trigger] &album.tracks@[i])
}

/// The stages after the album check, up to the burn itself.
pub open spec fn past_album_check(stage: BurnStage) -> bool {
    !(stage is Start || stage is Tool || stage is Done)
}

/// The stages after a TOC file was found.
pub open spec fn past_toc(stage: BurnStage) -> bool {
    past_album_check(stage) && !(stage is Toc || stage is Export || stage is ExportToc)
}

/// The stages after the device was settled.
pub open spec fn past_device(stage: BurnStage) -> bool {
    past_toc(stage) && !(stage is Drives || stage is Drive || stage is Device)
}

impl BurnWizard {
    /// What holds of the wizard's state for `album`: each stage has what the
    /// stages before it established.
    pub open spec fn wf(&self, album: &Album) -> bool {
        &&& self.album_ready ==> album.tracks@.len() > 0 && album_validated(album, Ok(()))
        &&& past_album_check(self.stage) ==> self.tool_found && self.album_ready
        &&& past_toc(self.stage) ==> self.toc is Some
        &&& past_device(self.stage) ==> self.device is Some
        &&& self.stage is Drive ==> self.drives@.len() > 0
        &&& (self.stage is Simulation || self.stage is Proceed) ==> self.simulate_first
        &&& self.stage is Proceed ==> self.simulated
        &&& (self.stage is Ready || self.stage is Burn) && self.simulate_first ==> self.simulated
    }

    /// A wizard that has not started.
    pub fn new() -> (w: BurnWizard)
        ensures
            w.stage == BurnStage::Start,
            !w.tool_found,
            !w.album_ready,
            w.toc is None,
            w.drives@.len() == 0,
            w.device is None,
            w.speed == 0,
            !w.simulate_first,
            !w.simulated,
    {
        BurnWizard {
            stage: BurnStage::Start,
            tool_found: false,
            album_ready: false,
            toc: None,
            drives: Vec::new(),
            device: None,
            speed: 0,
            simulate_first: false,
            simulated: false,
        }
    }
}

/// Whether the wizard in state `s` goes, on event `e` for `album`, to state `n`
/// with action `a`. In order: cdrdao must be installed, the album must have
/// tracks and pass validation, an exported TOC file must exist (the user may
/// export first), a drive must be found (the only one, one picked from several,
/// or a device typed when scanning fails), then come the speed, the optional
/// dry run (a failure ends the wizard) with its confirmation, and the final
/// confirmation before the burn. An aborted prompt ends the wizard; an event
/// that does not belong to the stage changes nothing.
pub open spec fn burn_transition(
    s: BurnWizard,
    album: &Album,
    e: BurnEvent,
    n: BurnWizard,
    a: BurnAction,
) -> bool {
    match (s.stage, e) {
        (BurnStage::Start, BurnEvent::Begin) => n == BurnWizard { stage: BurnStage::Tool, ..s }
            && a is CheckTool,
        (BurnStage::Tool, BurnEvent::ToolChecked(found)) => if !found {
            n == BurnWizard { stage: BurnStage::Done, ..s } && a is ExplainMissingTool
        } else if album.tracks@.len() == 0 {
            n == BurnWizard { stage: BurnStage::Done, tool_found: true, ..s } && a is ReportNoTracks
        } else if !album_validated(album, Ok(())) {
            n == BurnWizard { stage: BurnStage::Done, tool_found: true, ..s } && (a matches BurnAction::ReportInvalid(err) && album_validated(album, Err(err)))
        } else {
            n == BurnWizard { stage: BurnStage::Toc, tool_found: true, album_ready: true, ..s }
                && a is LookForToc
        },
        (BurnStage::Toc, BurnEvent::TocLooked(found)) => match found {
            Some(p) => n == BurnWizard { stage: BurnStage::Drives, toc: Some(p), ..s } && a is ListDrives,
            None => n == BurnWizard { stage: BurnStage::Export, ..s } && a is OfferExport,
        },
        (BurnStage::Export, BurnEvent::ExportAnswered(yes)) => if yes {
            n == BurnWizard { stage: BurnStage::ExportToc, ..s } && a is ExportThenLookForToc
        } else {
            n == BurnWizard { stage: BurnStage::Done, ..s } && a is Stop
        },
        (BurnStage::ExportToc, BurnEvent::TocLooked(found)) => match found {
            Some(p) => n == BurnWizard { stage: BurnStage::Drives, toc: Some(p), ..s } && a is ListDrives,
            None => n == BurnWizard { stage: BurnStage::Done, ..s } && a is ReportExportFailed,
        },
        (BurnStage::Drives, BurnEvent::DrivesListed(listed)) => match listed {
            Ok(list) => if list@.len() == 0 {
                n == BurnWizard { stage: BurnStage::Done, ..s } && a is ReportNoDrives
            } else if list@.len() == 1 {
                n == BurnWizard { stage: BurnStage::Speed, device: Some(list@[0]), drives: list, ..s }
                    && a is UseOnlyDrive
            } else {
                n == BurnWizard { stage: BurnStage::Drive, drives: list, ..s } && a is AskDrive
            },
            Err(err) => n == BurnWizard { stage: BurnStage::Device, ..s } && a == BurnAction::AskDevice(err),
        },
        (BurnStage::Drive, BurnEvent::DriveChosen(choice)) => match choice {
            Some(i) => n == BurnWizard {
                stage: BurnStage::Speed,
                device: Some(if i < s.drives@.len() { s.drives@[i as int] } else { s.drives@[0] }),
                ..s
            } && a is AskSpeed,
            None => n == BurnWizard { stage: BurnStage::Done, ..s } && a is Stop,
        },
        (BurnStage::Device, BurnEvent::DeviceEntered(entered)) => match entered {
            Some(d) => n == BurnWizard { stage: BurnStage::Speed, device: Some(d), ..s } && a is UseOnlyDrive,
            None => n == BurnWizard { stage: BurnStage::Done, ..s } && a is Stop,
        },
        (BurnStage::Speed, BurnEvent::SpeedChosen(choice)) => match choice {
            Some(c) => n == BurnWizard { stage: BurnStage::Simulate, speed: speed_of_choice(c@), ..s }
                && a is AskSimulate,
            None => n == BurnWizard { stage: BurnStage::Done, ..s } && a is Stop,
        },
        (BurnStage::Simulate, BurnEvent::SimulateAnswered(answer)) => match answer {
            Some(true) => n == BurnWizard { stage: BurnStage::Simulation, simulate_first: true, ..s }
                && a == BurnAction::RunSimulation {
                options: wizard_options(s.device->Some_0, s.speed, true),
                toc: s.toc->Some_0,
            },
            Some(false) => n == BurnWizard { stage: BurnStage::Ready, simulate_first: false, ..s }
                && a is AskReady,
            None => n == BurnWizard { stage: BurnStage::Done, ..s } && a is Stop,
        },
        (BurnStage::Simulation, BurnEvent::SimulationDone(outcome)) => match outcome {
            Ok(_) => n == BurnWizard { stage: BurnStage::Proceed, simulated: true, ..s } && a is AskProceed,
            Err(err) => n == BurnWizard { stage: BurnStage::Done, ..s } && a == BurnAction::ReportSimulationFailed(err),
        },
        (BurnStage::Proceed, BurnEvent::ProceedAnswered(answer)) => match answer {
            Some(true) => n == BurnWizard { stage: BurnStage::Ready, ..s } && a is AskReady,
            Some(false) => n == BurnWizard { stage: BurnStage::Done, ..s } && a is Cancelled,
            None => n == BurnWizard { stage: BurnStage::Done, ..s } && a is Stop,
        },
        (BurnStage::Ready, BurnEvent::ReadyAnswered(answer)) => match answer {
            Some(true) => n == BurnWizard { stage: BurnStage::Burn, ..s } && a == BurnAction::StartBurn {
                options: wizard_options(s.device->Some_0, s.speed, false),
                toc: s.toc->Some_0,
            },
            Some(false) => n == BurnWizard { stage: BurnStage::Done, ..s } && a is Cancelled,
            None => n == BurnWizard { stage: BurnStage::Done, ..s } && a is Stop,
        },
        (BurnStage::Burn, BurnEvent::BurnDone(outcome)) => n == BurnWizard { stage: BurnStage::Done, ..s }
            && a == BurnAction::ReportBurn(outcome),
        _ => n == s && a is Ignore,
    }
}

/// The wizard's options for a run of cdrdao on the chosen device.
fn options_for(device: &String, speed: u32, simulate: bool) -> (o: BurnOptions)
    ensures
        o == wizard_options(*device, speed, simulate),
{
    BurnOptions {
        device: device.clone(),
        speed,
        simulate,
        eject: true,
        cd_text_driver: CdTextDriver::GenericMmcRaw,
    }
}

/// The wizard's next state and action when `event` arrives in state `state`,
/// for `album` (see `burn_transition`). Validation is run on the album when
/// cdrdao is reported found.
pub fn burn_step(state: BurnWizard, album: &Album, event: BurnEvent) -> (r: (BurnWizard, BurnAction))
    requires
        state.wf(album),
        (state.stage is Tool && (event matches BurnEvent::ToolChecked(true))) ==> album_checkable(album),
    ensures
        burn_transition(state, album, event, r.0, r.1),
        r.0.wf(album),
{
    let ghost s0 = state;
    let ghost e0 = event;
    let mut s = state;
    let a = match s.stage {
        BurnStage::Start => match event {
            BurnEvent::Begin => {
                s.stage = BurnStage::Tool;
                BurnAction::CheckTool
            },
            _ => BurnAction::Ignore,
        },
        BurnStage::Tool => match event {
            BurnEvent::ToolChecked(found) => {
                if !found {
                    s.stage = BurnStage::Done;
                    BurnAction::ExplainMissingTool
                } else {
                    s.tool_found = true;
                    if album.tracks.len() == 0 {
                        s.stage = BurnStage::Done;
                        BurnAction::ReportNoTracks
                    } else {
                        match album.validate() {
                            Ok(()) => {
                                s.album_ready = true;
                                s.stage = BurnStage::Toc;
                                BurnAction::LookForToc
                            },
                            Err(err) => {
                                s.stage = BurnStage::Done;
                                BurnAction::ReportInvalid(err)
                            },
                        }
                    }
                }
            },
            _ => BurnAction::Ignore,
        },
        BurnStage::Toc => match event {
            BurnEvent::TocLooked(found) => match found {
                Some(p) => {
                    s.toc = Some(p);
                    s.stage = BurnStage::Drives;
                    BurnAction::ListDrives
                },
                None => {
                    s.stage = BurnStage::Export;
                    BurnAction::OfferExport
                },
            },
            _ => BurnAction::Ignore,
        },
        BurnStage::Export => match event {
            BurnEvent::ExportAnswered(yes) => {
                if yes {
                    s.stage = BurnStage::ExportToc;
                    BurnAction::ExportThenLookForToc
                } else {
                    s.stage = BurnStage::Done;
                    BurnAction::Stop
                }
            },
            _ => BurnAction::Ignore,
        },
        BurnStage::ExportToc => match event {
            BurnEvent::TocLooked(found) => match found {
                Some(p) => {
                    s.toc = Some(p);
                    s.stage = BurnStage::Drives;
                    BurnAction::ListDrives
                },
                None => {
                    s.stage = BurnStage::Done;
                    BurnAction::ReportExportFailed
                },
            },
            _ => BurnAction::Ignore,
        },
        BurnStage::Drives => match event {
            BurnEvent::DrivesListed(listed) => match listed {
                Ok(list) => {
                    let count = list.len();
                    if count == 0 {
                        s.stage = BurnStage::Done;
                        BurnAction::ReportNoDrives
                    } else if count == 1 {
                        s.device = Some(list[0].clone());
                        s.drives = list;
                        s.stage = BurnStage::Speed;
                        BurnAction::UseOnlyDrive
                    } else {
                        s.drives = list;
                        s.stage = BurnStage::Drive;
                        BurnAction::AskDrive
                    }
                },
                Err(err) => {
                    s.stage = BurnStage::Device;
                    BurnAction::AskDevice(err)
                },
            },
            _ => BurnAction::Ignore,
        },
        BurnStage::Drive => match event {
            BurnEvent::DriveChosen(choice) => match choice {
                Some(i) => {
                    let k = if i < s.drives.len() {
                        i
                    } else {
                        0
                    };
                    s.device = Some(s.drives[k].clone());
                    s.stage = BurnStage::Speed;
                    BurnAction::AskSpeed
                },
                None => {
                    s.stage = BurnStage::Done;
                    BurnAction::Stop
                },
            },
            _ => BurnAction::Ignore,
        },
        BurnStage::Device => match event {
            BurnEvent::DeviceEntered(entered) => match entered {
                Some(d) => {
                    s.device = Some(d);
                    s.stage = BurnStage::Speed;
                    BurnAction::UseOnlyDrive
                },
                None => {
                    s.stage = BurnStage::Done;
                    BurnAction::Stop
                },
            },
            _ => BurnAction::Ignore,
        },
        BurnStage::Speed => match event {
            BurnEvent::SpeedChosen(choice) => match choice {
                Some(c) => {
                    s.speed = speed_from_choice(c.as_str());
                    s.stage = BurnStage::Simulate;
                    BurnAction::AskSimulate
                },
                None => {
                    s.stage = BurnStage::Done;
                    BurnAction::Stop
                },
            },
            _ => BurnAction::Ignore,
        },
        BurnStage::Simulate => match event {
            BurnEvent::SimulateAnswered(answer) => match answer {
                Some(yes) => {
                    if yes {
                        let a = match (&s.device, &s.toc) {
                            (Some(d), Some(t)) => BurnAction::RunSimulation {
                                options: options_for(d, s.speed, true),
                                toc: t.clone(),
                            },
                            _ => BurnAction::Ignore,
                        };
                        s.simulate_first = true;
                        s.stage = BurnStage::Simulation;
                        a
                    } else {
                        s.simulate_first = false;
                        s.stage = BurnStage::Ready;
                        BurnAction::AskReady
                    }
                },
                None => {
                    s.stage = BurnStage::Done;
                    BurnAction::Stop
                },
            },
            _ => BurnAction::Ignore,
        },
        BurnStage::Simulation => match event {
            BurnEvent::SimulationDone(outcome) => match outcome {
                Ok(()) => {
                    s.simulated = true;
                    s.stage = BurnStage::Proceed;
                    BurnAction::AskProceed
                },
                Err(err) => {
                    s.stage = BurnStage::Done;
                    BurnAction::ReportSimulationFailed(err)
                },
            },
            _ => BurnAction::Ignore,
        },
        BurnStage::Proceed => match event {
            BurnEvent::ProceedAnswered(answer) => match answer {
                Some(yes) => {
                    if yes {
                        s.stage = BurnStage::Ready;
                        BurnAction::AskReady
                    } else {
                        s.stage = BurnStage::Done;
                        BurnAction::Cancelled
                    }
                },
                None => {
                    s.stage = BurnStage::Done;
                    BurnAction::Stop
                },
            },
            _ => BurnAction::Ignore,
        },
        BurnStage::Ready => match event {
            BurnEvent::ReadyAnswered(answer) => match answer {
                Some(yes) => {
                    if yes {
                        let a = match (&s.device, &s.toc) {
                            (Some(d), Some(t)) => BurnAction::StartBurn {
                                options: options_for(d, s.speed, false),
                                toc: t.clone(),
                            },
                            _ => BurnAction::Ignore,
                        };
                        s.stage = BurnStage::Burn;
                        a
                    } else {
                        s.stage = BurnStage::Done;
                        BurnAction::Cancelled
                    }
                },
                None => {
                    s.stage = BurnStage::Done;
                    BurnAction::Stop
                },
            },
            _ => BurnAction::Ignore,
        },
        BurnStage::Burn => match event {
            BurnEvent::BurnDone(outcome) => {
                s.stage = BurnStage::Done;
                BurnAction::ReportBurn(outcome)
            },
            _ => BurnAction::Ignore,
        },
        BurnStage::Done => BurnAction::Ignore,
    };
    (s, a)
}

/// Whether `states` and `actions` are what the wizard goes through for `album`
/// on `events`, one step per event.
pub open spec fn burn_run(
    album: &Album,
    states: Seq<BurnWizard>,
    events: Seq<BurnEvent>,
    actions: Seq<BurnAction>,
) -> bool {
    &&& states.len() == events.len() + 1
    &&& actions.len() == events.len()
    &&& forall|i: int| 0 <= i < events.len() ==> #[trigger] run_step(album, states, events, actions, i)
}

/// Whether step `i` of a run is a transition of the wizard.
pub open spec fn run_step(
    album: &Album,
    states: Seq<BurnWizard>,
    events: Seq<BurnEvent>,
    actions: Seq<BurnAction>,
    i: int,
) -> bool {
    burn_transition(states[i], album, events[i], states[i + 1], actions[i])
}

/// A step keeps what holds of the wizard's state.
proof fn lemma_step_keeps_wf(s: BurnWizard, album: &Album, e: BurnEvent, n: BurnWizard, a: BurnAction)
    requires
        s.wf(album),
        burn_transition(s, album, e, n, a),
    ensures
        n.wf(album),
{
}

/// Every state of a run that starts from a sound state is sound.
proof fn lemma_run_keeps_wf(
    album: &Album,
    states: Seq<BurnWizard>,
    events: Seq<BurnEvent>,
    actions: Seq<BurnAction>,
    k: int,
)
    requires
        burn_run(album, states, events, actions),
        states[0].wf(album),
        0 <= k < states.len(),
    ensures
        states[k].wf(album),
    decreases k,
{
    if k > 0 {
        lemma_run_keeps_wf(album, states, events, actions, k - 1);
        assert(run_step(album, states, events, actions, k - 1));
        lemma_step_keeps_wf(states[k - 1], album, events[k - 1], states[k], actions[k - 1]);
    }
}

/// A burn starts only after every check: in any run from a new wizard, a step
/// that starts a burn comes on a "yes" to "Ready to burn?", after cdrdao was
/// found, the album was found to have tracks and pass validation, a TOC file
/// was found, a device was settled and, when a dry run was asked for, the dry
/// run succeeded; it burns that TOC file on that device at the chosen speed,
/// not simulating, ejecting afterwards, with the raw generic-MMC driver.
pub proof fn law_burn_needs_every_check(
    album: &Album,
    states: Seq<BurnWizard>,
    events: Seq<BurnEvent>,
    actions: Seq<BurnAction>,
    k: int,
)
    requires
        burn_run(album, states, events, actions),
        states[0].stage == BurnStage::Start,
        !states[0].album_ready,
        0 <= k < events.len(),
        actions[k] is StartBurn,
    ensures
        events[k] matches BurnEvent::ReadyAnswered(Some(true)),
        states[k].stage == BurnStage::Ready,
        states[k].tool_found,
        album.tracks@.len() > 0,
        album_validated(album, Ok(())),
        states[k].toc is Some,
        states[k].device is Some,
        states[k].simulate_first ==> states[k].simulated,
        actions[k] == (BurnAction::StartBurn {
            options: wizard_options(states[k].device->Some_0, states[k].speed, false),
            toc: states[k].toc->Some_0,
        }),
{
    lemma_run_keeps_wf(album, states, events, actions, k);
    assert(run_step(album, states, events, actions, k));
}

/// Once the wizard is done it stays done: every later event is ignored.
proof fn lemma_done_stays(
    album: &Album,
    states: Seq<BurnWizard>,
    events: Seq<BurnEvent>,
    actions: Seq<BurnAction>,
    k: int,
    j: int,
)
    requires
        burn_run(album, states, events, actions),
        0 <= k <= j < states.len(),
        states[k].stage == BurnStage::Done,
    ensures
        states[j].stage == BurnStage::Done,
        j < events.len() ==> actions[j] is Ignore,
    decreases j - k,
{
    if j > k {
        lemma_done_stays(album, states, events, actions, k, j - 1);
        assert(run_step(album, states, events, actions, j - 1));
    }
    if j < events.len() {
        assert(run_step(album, states, events, actions, j));
    }
}

/// A failed dry run ends the wizard: it is reported, and no later event
/// starts a burn (each is ignored).
pub proof fn law_failed_simulation_never_burns(
    album: &Album,
    states: Seq<BurnWizard>,
    events: Seq<BurnEvent>,
    actions: Seq<BurnAction>,
    k: int,
)
    requires
        burn_run(album, states, events, actions),
        0 <= k < events.len(),
        states[k].stage == BurnStage::Simulation,
        events[k] matches BurnEvent::SimulationDone(Err(_)),
    ensures
        actions[k] is ReportSimulationFailed,
        forall|j: int| k < j < events.len() ==> #[trigger] actions[j] is Ignore,
        forall|j: int| k < j < events.len() ==> !(#[trigger] actions[j] is StartBurn),
{
    assert(run_step(album, states, events, actions, k));
    assert forall|j: int| k < j < events.len() implies #[trigger] actions[j] is Ignore by {
        lemma_done_stays(album, states, events, actions, k + 1, j);
    }
}

/// The stages after the speed was chosen, and the end.
pub open spec fn past_speed(stage: BurnStage) -> bool {
    stage is Simulate || stage is Simulation || stage is Proceed || stage is Ready || stage is Burn
        || stage is Done
}

/// What later steps keep: once a TOC file is found it stays, once the device is
/// settled it stays, and once the speed is chosen it stays.
proof fn lemma_step_keeps_choices(s: BurnWizard, album: &Album, e: BurnEvent, n: BurnWizard, a: BurnAction)
    requires
        burn_transition(s, album, e, n, a),
    ensures
        (past_toc(s.stage) || s.stage is Done) ==> (past_toc(n.stage) || n.stage is Done) && n.toc
            == s.toc,
        (past_device(s.stage) || s.stage is Done) ==> (past_device(n.stage) || n.stage is Done)
            && n.device == s.device,
        past_speed(s.stage) ==> past_speed(n.stage) && n.speed == s.speed,
{
}

/// Over a run, what step `m` leaves of the TOC file, device and speed stays
/// through step `j`, once their choice is behind.
proof fn lemma_run_keeps_choices(
    album: &Album,
    states: Seq<BurnWizard>,
    events: Seq<BurnEvent>,
    actions: Seq<BurnAction>,
    m: int,
    j: int,
)
    requires
        burn_run(album, states, events, actions),
        0 <= m <= j < states.len(),
    ensures
        (past_toc(states[m].stage) || states[m].stage is Done) ==> states[j].toc == states[m].toc
            && (past_toc(states[j].stage) || states[j].stage is Done),
        (past_device(states[m].stage) || states[m].stage is Done) ==> states[j].device
            == states[m].device && (past_device(states[j].stage) || states[j].stage is Done),
        past_speed(states[m].stage) ==> states[j].speed == states[m].speed && past_speed(
            states[j].stage,
        ),
    decreases j - m,
{
    if j > m {
        lemma_run_keeps_choices(album, states, events, actions, m, j - 1);
        assert(run_step(album, states, events, actions, j - 1));
        lemma_step_keeps_choices(states[j - 1], album, events[j - 1], states[j], actions[j - 1]);
    }
}

/// Whether action `a` runs cdrdao (a dry run or the burn) with `device`,
/// `speed` and `toc`.
pub open spec fn runs_with(a: BurnAction, device: String, speed: u32, toc: String) -> bool {
    match a {
        BurnAction::RunSimulation { options, toc: t } => options.device == device && options.speed
            == speed && t == toc,
        BurnAction::StartBurn { options, toc: t } => options.device == device && options.speed == speed
            && t == toc,
        _ => true,
    }
}

/// The dry run and the burn use what the user chose: the TOC file found (first
/// or after exporting), the device settled on (the only drive found, the drive
/// picked from several, or the device path typed after a failed scan) and the
/// speed of the speed menu choice. Over any run, every later dry run or burn
/// runs cdrdao with those.
pub proof fn law_burn_uses_choices(
    album: &Album,
    states: Seq<BurnWizard>,
    events: Seq<BurnEvent>,
    actions: Seq<BurnAction>,
    t: int,
    d: int,
    v: int,
    k: int,
)
    requires
        burn_run(album, states, events, actions),
        0 <= t < d < v < k < events.len(),
        states[t].stage is Toc || states[t].stage is ExportToc,
        events[t] matches BurnEvent::TocLooked(Some(_)),
        states[d].stage is Drives || states[d].stage is Drive || states[d].stage is Device,
        states[d + 1].stage is Speed,
        states[v].stage is Speed,
        events[v] matches BurnEvent::SpeedChosen(Some(_)),
    ensures
        ({
            let toc = events[t]->TocLooked_0->Some_0;
            let choice = events[v]->SpeedChosen_0->Some_0;
            let device = match events[d] {
                BurnEvent::DeviceEntered(Some(typed)) => typed,
                BurnEvent::DrivesListed(Ok(list)) => list@[0],
                BurnEvent::DriveChosen(Some(i)) => if i < states[d].drives@.len() {
                    states[d].drives@[i as int]
                } else {
                    states[d].drives@[0]
                },
                _ => states[d + 1].device->Some_0,
            };
            &&& states[d + 1].device == Some(device)
            &&& runs_with(actions[k], device, speed_of_choice(choice@), toc)
        }),
{
    assert(run_step(album, states, events, actions, t));
    assert(run_step(album, states, events, actions, d));
    assert(run_step(album, states, events, actions, v));
    assert(run_step(album, states, events, actions, k));
    lemma_run_keeps_choices(album, states, events, actions, t + 1, k);
    lemma_run_keeps_choices(album, states, events, actions, d + 1, k);
    lemma_run_keeps_choices(album, states, events, actions, v + 1, k);
}

} // verus!
