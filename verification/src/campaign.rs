//! The sequence of campaigns of one compression mode, as a state machine.
//!
//! The machine performs nothing itself. Each step takes the outcome of the last
//! action and answers with the next action: probe or create the log directory,
//! run a campaign, read an artifact, store it, pause. The program around it
//! performs the action and reports what came of it. Any failure ends the
//! sequence; nothing is tried twice.

use crate::paths::{compute_logs_path, logs_dir, ArtifactKind};
use crate::request::{
    campaign_config, config_of, CampaignConfig, CampaignConfigView, RunRequest, RunRequestView,
};
use crate::scenario::{build_scenario, scenario_of, ScenarioDefinition, ScenarioView};
use crate::upload::{
    has_bucket, next_upload, upload_after, upload_item, upload_item_of, upload_plan_of,
    uploads_enabled, UploadItemView,
};
use vstd::prelude::*;

verus! {

/// Seconds between two campaigns of one sequence.
pub const PAUSE_SECS: u64 = 10;

/// The two steps of preparing the log directory.
#[derive(Clone, Copy, Debug, PartialEq, Eq, Structural)]
pub enum PrepareStep {
    /// It is being asked whether the directory exists.
    Probing,
    /// The directory and its missing ancestors are being created.
    Creating,
}

/// The two steps of uploading one artifact.
#[derive(Clone, Copy, Debug, PartialEq, Eq, Structural)]
pub enum UploadStep {
    /// The local file is being read.
    Reading,
    /// The object is being stored.
    Storing,
}

/// Why a sequence ended early.
#[derive(Clone, Copy, Debug, PartialEq, Eq, Structural)]
pub enum CampaignError {
    /// The log directory could not be created, or an artifact could not be read.
    Io,
    /// The engine reported that a campaign failed.
    Engine,
    /// The storage service refused an object.
    Upload,
}

/// Where a sequence stands.
#[derive(Clone, Copy, Debug, PartialEq, Eq, Structural)]
pub enum Phase {
    /// Nothing has happened yet.
    Idle,
    /// The log directory is being prepared.
    Preparing(PrepareStep),
    /// The campaign of this iteration is running.
    Running(usize),
    /// An artifact of this iteration is being uploaded.
    Uploading(usize, ArtifactKind, UploadStep),
    /// The pause behind this iteration.
    Pausing(usize),
    /// Every campaign ran and every upload succeeded.
    Done,
    /// The sequence was given up.
    Failed(CampaignError),
}

/// What the program reports to the machine.
#[derive(Clone, Debug, PartialEq, Eq)]
pub enum Event {
    /// The sequence is to begin.
    Start,
    /// Whether the log directory exists.
    DirectoryProbed { exists: bool },
    /// The log directory was created.
    DirectoryCreated,
    /// The log directory could not be created.
    DirectoryFailed,
    /// The engine completed the campaign.
    CampaignFinished,
    /// The engine reported a failure.
    CampaignFailed,
    /// The artifact was read in full.
    ArtifactRead { bytes: Vec<u8> },
    /// The artifact is missing or cannot be read.
    ArtifactUnreadable,
    /// The storage service took the object.
    ObjectStored,
    /// The storage service refused the object.
    ObjectRejected,
    /// The pause is over.
    PauseElapsed,
}

/// What the machine asks the program to do next.
#[derive(Clone, Debug, PartialEq, Eq)]
pub enum Action {
    /// Find out whether the directory exists.
    ProbeDirectory { path: String },
    /// Create the directory and all its missing ancestors.
    CreateDirectory { path: String },
    /// Hand the configuration and the scenario to the engine and wait for it.
    RunCampaign { iteration: usize, config: CampaignConfig, scenario: ScenarioDefinition },
    /// Read the file in full.
    ReadArtifact { path: String },
    /// Store the bytes as an object of the bucket.
    PutObject { bucket: String, bytes: Vec<u8>, object_name: String, content_type: String },
    /// Wait.
    Sleep { seconds: u64 },
    /// Nothing is left to do.
    Finish,
    /// Give up with this error.
    Abort { error: CampaignError },
}

/// The mathematical value of an [`Event`].
pub enum EventView {
    Start,
    DirectoryProbed { exists: bool },
    DirectoryCreated,
    DirectoryFailed,
    CampaignFinished,
    CampaignFailed,
    ArtifactRead { bytes: Seq<u8> },
    ArtifactUnreadable,
    ObjectStored,
    ObjectRejected,
    PauseElapsed,
}

/// The mathematical value of an [`Action`].
pub enum ActionView {
    ProbeDirectory { path: Seq<char> },
    CreateDirectory { path: Seq<char> },
    RunCampaign { iteration: nat, config: CampaignConfigView, scenario: ScenarioView },
    ReadArtifact { path: Seq<char> },
    PutObject {
        bucket: Seq<char>,
        bytes: Seq<u8>,
        object_name: Seq<char>,
        content_type: Seq<char>,
    },
    Sleep { seconds: nat },
    Finish,
    Abort { error: CampaignError },
}

impl View for Event {
    type V = EventView;

    open spec fn view(&self) -> EventView {
        match *self {
            Event::Start => EventView::Start,
            Event::DirectoryProbed { exists } => EventView::DirectoryProbed { exists },
            Event::DirectoryCreated => EventView::DirectoryCreated,
            Event::DirectoryFailed => EventView::DirectoryFailed,
            Event::CampaignFinished => EventView::CampaignFinished,
            Event::CampaignFailed => EventView::CampaignFailed,
            Event::ArtifactRead { bytes } => EventView::ArtifactRead { bytes: bytes@ },
            Event::ArtifactUnreadable => EventView::ArtifactUnreadable,
            Event::ObjectStored => EventView::ObjectStored,
            Event::ObjectRejected => EventView::ObjectRejected,
            Event::PauseElapsed => EventView::PauseElapsed,
        }
    }
}

impl View for Action {
    type V = ActionView;

    open spec fn view(&self) -> ActionView {
        match *self {
            Action::ProbeDirectory { path } => ActionView::ProbeDirectory { path: path@ },
            Action::CreateDirectory { path } => ActionView::CreateDirectory { path: path@ },
            Action::RunCampaign { iteration, config, scenario } => ActionView::RunCampaign {
                iteration: iteration as nat,
                config: config@,
                scenario: scenario@,
            },
            Action::ReadArtifact { path } => ActionView::ReadArtifact { path: path@ },
            Action::PutObject { bucket, bytes, object_name, content_type } => ActionView::PutObject {
                bucket: bucket@,
                bytes: bytes@,
                object_name: object_name@,
                content_type: content_type@,
            },
            Action::Sleep { seconds } => ActionView::Sleep { seconds: seconds as nat },
            Action::Finish => ActionView::Finish,
            Action::Abort { error } => ActionView::Abort { error },
        }
    }
}

/// A sequence of campaigns of one compression mode.
#[derive(Clone, Debug, PartialEq, Eq)]
pub struct Campaign {
    /// What the run was asked to do.
    pub request: RunRequest,
    /// The compression mode of every campaign of this sequence.
    pub compressed: bool,
    /// Where the sequence stands.
    pub phase: Phase,
}

/// The mathematical value of a [`Campaign`].
pub struct CampaignView {
    pub request: RunRequestView,
    pub compressed: bool,
    pub phase: Phase,
}

impl View for Campaign {
    type V = CampaignView;

    open spec fn view(&self) -> CampaignView {
        CampaignView { request: self.request@, compressed: self.compressed, phase: self.phase }
    }
}

/// The phase with which the first campaign begins once the directory is there:
/// iteration one, or the end where no iteration was asked for.
pub open spec fn first_run(iterations: usize) -> Phase {
    if iterations >= 1 {
        Phase::Running(1)
    } else {
        Phase::Done
    }
}

/// The phase behind the last upload of an iteration: a pause where another
/// iteration follows, else the end.
pub open spec fn after_upload(iterations: usize, iteration: usize) -> Phase {
    if iteration < iterations {
        Phase::Pausing(iteration)
    } else {
        Phase::Done
    }
}

/// The phase behind the pause that followed an iteration.
pub open spec fn after_pause(iterations: usize, iteration: usize) -> Phase {
    if iteration < iterations {
        Phase::Running((iteration + 1) as usize)
    } else {
        Phase::Done
    }
}

/// The phase that follows when `event` is reported in the state `campaign`;
/// `None` where the state does not wait for that event.
pub open spec fn next_phase(campaign: CampaignView, event: EventView) -> Option<Phase> {
    let iterations = campaign.request.iterations;
    match campaign.phase {
        Phase::Idle => match event {
            EventView::Start => Some(Phase::Preparing(PrepareStep::Probing)),
            _ => None,
        },
        Phase::Preparing(PrepareStep::Probing) => match event {
            EventView::DirectoryProbed { exists } => Some(
                if exists {
                    first_run(iterations)
                } else {
                    Phase::Preparing(PrepareStep::Creating)
                },
            ),
            _ => None,
        },
        Phase::Preparing(PrepareStep::Creating) => match event {
            EventView::DirectoryCreated => Some(first_run(iterations)),
            EventView::DirectoryFailed => Some(Phase::Failed(CampaignError::Io)),
            _ => None,
        },
        Phase::Running(iteration) => match event {
            EventView::CampaignFinished => Some(
                if has_bucket(campaign.request.bucket) {
                    Phase::Uploading(iteration, ArtifactKind::Report, UploadStep::Reading)
                } else {
                    after_upload(iterations, iteration)
                },
            ),
            EventView::CampaignFailed => Some(Phase::Failed(CampaignError::Engine)),
            _ => None,
        },
        Phase::Uploading(iteration, kind, UploadStep::Reading) => match event {
            EventView::ArtifactRead { bytes } => Some(
                Phase::Uploading(iteration, kind, UploadStep::Storing),
            ),
            EventView::ArtifactUnreadable => Some(Phase::Failed(CampaignError::Io)),
            _ => None,
        },
        Phase::Uploading(iteration, kind, UploadStep::Storing) => match event {
            EventView::ObjectStored => Some(
                match upload_after(kind) {
                    Some(next) => Phase::Uploading(iteration, next, UploadStep::Reading),
                    None => after_upload(iterations, iteration),
                },
            ),
            EventView::ObjectRejected => Some(Phase::Failed(CampaignError::Upload)),
            _ => None,
        },
        Phase::Pausing(iteration) => match event {
            EventView::PauseElapsed => Some(after_pause(iterations, iteration)),
            _ => None,
        },
        Phase::Done => None,
        Phase::Failed(_) => None,
    }
}

/// The bytes that an event carries: what was read, or nothing.
pub open spec fn payload_of(event: EventView) -> Seq<u8> {
    match event {
        EventView::ArtifactRead { bytes } => bytes,
        _ => Seq::empty(),
    }
}

/// The name of the configured bucket; empty where there is none.
pub open spec fn bucket_name_of(bucket: Option<Seq<char>>) -> Seq<char> {
    match bucket {
        Some(name) => name,
        None => Seq::empty(),
    }
}

/// The upload of one artifact of one iteration of this sequence.
pub open spec fn upload_of(campaign: CampaignView, iteration: usize, kind: ArtifactKind) -> UploadItemView {
    upload_item_of(
        campaign.request.log_dir,
        campaign.request.report_name,
        iteration as nat,
        kind,
        campaign.compressed,
    )
}

/// The place of an artifact in the uploads of its iteration.
pub open spec fn place_of(kind: ArtifactKind) -> int {
    match kind {
        ArtifactKind::Report => 0,
        ArtifactKind::RequestLog => 1,
    }
}

/// The action with which the machine enters the phase of `campaign`. `payload`
/// holds the bytes that the last event carried. No event leads to the idle
/// phase, so nothing is said of it.
pub open spec fn action_of(campaign: CampaignView, payload: Seq<u8>) -> ActionView
    recommends
        campaign.phase != Phase::Idle,
{
    let request = campaign.request;
    match campaign.phase {
        Phase::Idle => arbitrary(),
        Phase::Preparing(PrepareStep::Probing) => ActionView::ProbeDirectory {
            path: logs_dir(request.log_dir, request.report_name),
        },
        Phase::Preparing(PrepareStep::Creating) => ActionView::CreateDirectory {
            path: logs_dir(request.log_dir, request.report_name),
        },
        Phase::Running(iteration) => ActionView::RunCampaign {
            iteration: iteration as nat,
            config: config_of(request, iteration as nat, campaign.compressed),
            scenario: scenario_of(campaign.compressed),
        },
        Phase::Uploading(iteration, kind, UploadStep::Reading) => ActionView::ReadArtifact {
            path: upload_of(campaign, iteration, kind).local_path,
        },
        Phase::Uploading(iteration, kind, UploadStep::Storing) => ActionView::PutObject {
            bucket: bucket_name_of(request.bucket),
            bytes: payload,
            object_name: upload_of(campaign, iteration, kind).object_name,
            content_type: upload_of(campaign, iteration, kind).content_type,
        },
        Phase::Pausing(_) => ActionView::Sleep { seconds: PAUSE_SECS as nat },
        Phase::Done => ActionView::Finish,
        Phase::Failed(error) => ActionView::Abort { error },
    }
}

/// Whether an event reports that an action failed.
pub open spec fn is_failure(event: EventView) -> bool {
    event is DirectoryFailed || event is CampaignFailed || event is ArtifactUnreadable
        || event is ObjectRejected
}

/// Whether the iteration of the present phase is one that was asked for, a pause
/// stands only between two iterations, and an upload only where a bucket is
/// configured. Every state that a sequence reaches is of this kind.
pub open spec fn phase_fits(campaign: CampaignView) -> bool {
    let iterations = campaign.request.iterations;
    match campaign.phase {
        Phase::Running(iteration) => 1 <= iteration <= iterations,
        Phase::Uploading(iteration, _, _) => 1 <= iteration <= iterations && has_bucket(
            campaign.request.bucket,
        ),
        Phase::Pausing(iteration) => 1 <= iteration < iterations,
        _ => true,
    }
}

/// The state of `campaign` after it has taken the events in order. An event that
/// the state of its moment does not wait for changes nothing.
pub open spec fn run(campaign: CampaignView, events: Seq<EventView>) -> CampaignView
    decreases events.len(),
{
    if events.len() == 0 {
        campaign
    } else {
        let before = run(campaign, events.drop_last());
        match next_phase(before, events.last()) {
            Some(phase) => CampaignView { phase, ..before },
            None => before,
        }
    }
}

/// A sequence that is done or was given up takes no further event: nothing
/// follows the end, and nothing is tried again after a failure.
pub proof fn lemma_end_is_final(campaign: CampaignView, event: EventView)
    requires
        campaign.phase is Done || campaign.phase is Failed,
    ensures
        next_phase(campaign, event) is None,
{
}

/// A sequence is given up exactly when a failure is reported to a state that
/// waits for that report, and the error names what failed.
pub proof fn lemma_failure_ends_sequence(campaign: CampaignView, event: EventView)
    requires
        next_phase(campaign, event) is Some,
    ensures
        next_phase(campaign, event).unwrap() is Failed <==> is_failure(event),
        event is DirectoryFailed || event is ArtifactUnreadable ==> next_phase(campaign, event)
            == Some(Phase::Failed(CampaignError::Io)),
        event is CampaignFailed ==> next_phase(campaign, event) == Some(
            Phase::Failed(CampaignError::Engine),
        ),
        event is ObjectRejected ==> next_phase(campaign, event) == Some(
            Phase::Failed(CampaignError::Upload),
        ),
{
}

/// Every step keeps the phase within what was asked for.
pub proof fn lemma_step_keeps_fit(campaign: CampaignView, event: EventView)
    requires
        phase_fits(campaign),
        next_phase(campaign, event) is Some,
    ensures
        phase_fits(CampaignView { phase: next_phase(campaign, event).unwrap(), ..campaign }),
{
}

/// Whatever is reported to a sequence that starts idle, and in whatever order,
/// its phase stays within what was asked for and its request and mode never
/// change.
pub proof fn lemma_run_keeps_fit(campaign: CampaignView, events: Seq<EventView>)
    requires
        phase_fits(campaign),
    ensures
        phase_fits(run(campaign, events)),
        run(campaign, events).request == campaign.request,
        run(campaign, events).compressed == campaign.compressed,
    decreases events.len(),
{
    if events.len() > 0 {
        lemma_run_keeps_fit(campaign, events.drop_last());
        let before = run(campaign, events.drop_last());
        if next_phase(before, events.last()) is Some {
            lemma_step_keeps_fit(before, events.last());
        }
    }
}

/// A log directory that is found to exist is left as it is: the sequence goes
/// straight on to its first campaign, or to its end where none was asked for;
/// nothing is created and nothing fails.
pub proof fn lemma_existing_directory_is_kept(campaign: CampaignView)
    requires
        campaign.phase == Phase::Preparing(PrepareStep::Probing),
    ensures
        ({
            let next = next_phase(campaign, EventView::DirectoryProbed { exists: true });
            let action = action_of(
                CampaignView { phase: next.unwrap(), ..campaign },
                Seq::empty(),
            );
            &&& next == Some(first_run(campaign.request.iterations))
            &&& action is RunCampaign || action is Finish
        }),
{
}

/// Without a bucket a finished campaign is followed at once by the pause or the
/// end: no artifact is read and no object is stored.
pub proof fn lemma_no_bucket_no_upload(campaign: CampaignView, event: EventView)
    requires
        !has_bucket(campaign.request.bucket),
        !(campaign.phase is Uploading),
        next_phase(campaign, event) is Some,
    ensures
        !(next_phase(campaign, event).unwrap() is Uploading),
        !(action_of(
            CampaignView { phase: next_phase(campaign, event).unwrap(), ..campaign },
            payload_of(event),
        ) is ReadArtifact),
        !(action_of(
            CampaignView { phase: next_phase(campaign, event).unwrap(), ..campaign },
            payload_of(event),
        ) is PutObject),
{
}

/// What the machine reads and stores for an iteration is the upload plan of
/// that iteration: two uploads, the report before the request log; each file is
/// read from the plan's path and stored in the configured bucket under the
/// plan's object name and content type, with the bytes that were read; and the
/// first of them follows the campaign at once.
pub proof fn lemma_uploads_are_the_plan(
    campaign: CampaignView,
    iteration: usize,
    kind: ArtifactKind,
    bytes: Seq<u8>,
)
    requires
        has_bucket(campaign.request.bucket),
    ensures
        ({
            let plan = upload_plan_of(
                campaign.request.bucket,
                campaign.request.log_dir,
                campaign.request.report_name,
                iteration as nat,
                campaign.compressed,
            );
            let planned = plan[place_of(kind)];
            let reading = CampaignView {
                phase: Phase::Uploading(iteration, kind, UploadStep::Reading),
                ..campaign
            };
            let storing = CampaignView {
                phase: Phase::Uploading(iteration, kind, UploadStep::Storing),
                ..campaign
            };
            &&& plan.len() == 2
            &&& action_of(reading, Seq::empty()) == ActionView::ReadArtifact {
                path: planned.local_path,
            }
            &&& next_phase(reading, EventView::ArtifactRead { bytes }) == Some(storing.phase)
            &&& action_of(storing, bytes) == (ActionView::PutObject {
                bucket: campaign.request.bucket.unwrap(),
                bytes,
                object_name: planned.object_name,
                content_type: planned.content_type,
            })
            &&& match upload_after(kind) {
                Some(following) => place_of(following) == place_of(kind) + 1,
                None => place_of(kind) + 1 == plan.len(),
            }
            &&& next_phase(
                CampaignView { phase: Phase::Running(iteration), ..campaign },
                EventView::CampaignFinished,
            ) == Some(Phase::Uploading(iteration, ArtifactKind::Report, UploadStep::Reading))
        }),
{
}

/// A campaign starts only as the first one, once the directory is there, or
/// behind the pause that followed its predecessor; a pause or the end follows
/// only a campaign whose uploads, if any, are complete.
pub proof fn lemma_order_of_phases(campaign: CampaignView, event: EventView)
    requires
        phase_fits(campaign),
        next_phase(campaign, event) is Some,
    ensures
        match next_phase(campaign, event).unwrap() {
            Phase::Running(iteration) => {
                ||| iteration == 1 && campaign.phase is Preparing
                ||| campaign.phase == Phase::Pausing((iteration - 1) as usize)
            },
            Phase::Uploading(iteration, kind, UploadStep::Reading) => {
                ||| kind == ArtifactKind::Report && campaign.phase == Phase::Running(iteration)
                ||| kind == ArtifactKind::RequestLog && campaign.phase == Phase::Uploading(
                    iteration,
                    ArtifactKind::Report,
                    UploadStep::Storing,
                )
            },
            Phase::Uploading(iteration, kind, UploadStep::Storing) => campaign.phase
                == Phase::Uploading(iteration, kind, UploadStep::Reading),
            Phase::Pausing(iteration) => {
                ||| campaign.phase == Phase::Running(iteration) && !has_bucket(
                    campaign.request.bucket,
                )
                ||| campaign.phase == Phase::Uploading(
                    iteration,
                    ArtifactKind::RequestLog,
                    UploadStep::Storing,
                )
            },
            Phase::Done => match campaign.phase {
                Phase::Preparing(_) => campaign.request.iterations == 0,
                Phase::Running(iteration) => iteration == campaign.request.iterations
                    && !has_bucket(campaign.request.bucket),
                Phase::Uploading(iteration, kind, step) => iteration
                    == campaign.request.iterations && kind == ArtifactKind::RequestLog && step
                    == UploadStep::Storing,
                _ => false,
            },
            _ => true,
        },
{
}

impl Campaign {
    /// A sequence that has not begun.
    pub fn new(request: RunRequest, compressed: bool) -> (campaign: Campaign)
        ensures
            campaign.request == request,
            campaign.compressed == compressed,
            campaign.phase == Phase::Idle,
    {
        Campaign { request, compressed, phase: Phase::Idle }
    }

    /// Whether every campaign ran and every upload succeeded.
    pub fn is_done(&self) -> (done: bool)
        ensures
            done == (self.phase == Phase::Done),
    {
        match self.phase {
            Phase::Done => true,
            _ => false,
        }
    }

    /// The error with which the sequence was given up, if it was.
    pub fn failure(&self) -> (error: Option<CampaignError>)
        ensures
            error == match self.phase {
                Phase::Failed(e) => Some(e),
                _ => None,
            },
    {
        match self.phase {
            Phase::Failed(e) => Some(e),
            _ => None,
        }
    }

    /// The phase that follows `event`, if the machine waits for it.
    pub fn next(&self, event: &Event) -> (next: Option<Phase>)
        ensures
            next == next_phase(self@, event@),
    {
        let iterations = self.request.iterations;
        match self.phase {
            Phase::Idle => match event {
                Event::Start => Some(Phase::Preparing(PrepareStep::Probing)),
                _ => None,
            },
            Phase::Preparing(PrepareStep::Probing) => match event {
                Event::DirectoryProbed { exists } => if *exists {
                    Some(first_phase(iterations))
                } else {
                    Some(Phase::Preparing(PrepareStep::Creating))
                },
                _ => None,
            },
            Phase::Preparing(PrepareStep::Creating) => match event {
                Event::DirectoryCreated => Some(first_phase(iterations)),
                Event::DirectoryFailed => Some(Phase::Failed(CampaignError::Io)),
                _ => None,
            },
            Phase::Running(iteration) => match event {
                Event::CampaignFinished => if uploads_enabled(&self.request.bucket) {
                    Some(Phase::Uploading(iteration, ArtifactKind::Report, UploadStep::Reading))
                } else {
                    Some(phase_after_upload(iterations, iteration))
                },
                Event::CampaignFailed => Some(Phase::Failed(CampaignError::Engine)),
                _ => None,
            },
            Phase::Uploading(iteration, kind, UploadStep::Reading) => match event {
                Event::ArtifactRead { bytes } => Some(
                    Phase::Uploading(iteration, kind, UploadStep::Storing),
                ),
                Event::ArtifactUnreadable => Some(Phase::Failed(CampaignError::Io)),
                _ => None,
            },
            Phase::Uploading(iteration, kind, UploadStep::Storing) => match event {
                Event::ObjectStored => match next_upload(kind) {
                    Some(following) => Some(
                        Phase::Uploading(iteration, following, UploadStep::Reading),
                    ),
                    None => Some(phase_after_upload(iterations, iteration)),
                },
                Event::ObjectRejected => Some(Phase::Failed(CampaignError::Upload)),
                _ => None,
            },
            Phase::Pausing(iteration) => match event {
                Event::PauseElapsed => if iteration < iterations {
                    Some(Phase::Running(iteration + 1))
                } else {
                    Some(Phase::Done)
                },
                _ => None,
            },
            Phase::Done => None,
            Phase::Failed(_) => None,
        }
    }

    /// The action with which the machine enters its present phase.
    fn announce(&self, payload: Vec<u8>) -> (action: Action)
        requires
            self.phase != Phase::Idle,
        ensures
            action@ == action_of(self@, payload@),
    {
        let request = &self.request;
        match self.phase {
            Phase::Idle => Action::Finish,
            Phase::Preparing(PrepareStep::Probing) => Action::ProbeDirectory {
                path: compute_logs_path(&request.log_dir, &request.report_name),
            },
            Phase::Preparing(PrepareStep::Creating) => Action::CreateDirectory {
                path: compute_logs_path(&request.log_dir, &request.report_name),
            },
            Phase::Running(iteration) => Action::RunCampaign {
                iteration,
                config: campaign_config(request, iteration, self.compressed),
                scenario: build_scenario(self.compressed),
            },
            Phase::Uploading(iteration, kind, UploadStep::Reading) => {
                let item = upload_item(
                    &request.log_dir,
                    &request.report_name,
                    iteration,
                    kind,
                    self.compressed,
                );
                Action::ReadArtifact { path: item.local_path }
            },
            Phase::Uploading(iteration, kind, UploadStep::Storing) => {
                let item = upload_item(
                    &request.log_dir,
                    &request.report_name,
                    iteration,
                    kind,
                    self.compressed,
                );
                let bucket = match &request.bucket {
                    Some(name) => name.clone(),
                    None => String::new(),
                };
                Action::PutObject {
                    bucket,
                    bytes: payload,
                    object_name: item.object_name,
                    content_type: item.content_type,
                }
            },
            Phase::Pausing(_) => Action::Sleep { seconds: PAUSE_SECS },
            Phase::Done => Action::Finish,
            Phase::Failed(error) => Action::Abort { error },
        }
    }

    /// Takes the outcome of the last action and answers with the next one. An
    /// event that the present phase does not wait for changes nothing and is
    /// answered with `None`.
    pub fn step(&mut self, event: Event) -> (action: Option<Action>)
        ensures
            match next_phase(old(self)@, event@) {
                Some(phase) => {
                    &&& final(self)@ == (CampaignView { phase, ..old(self)@ })
                    &&& final(self).request == old(self).request
                    &&& action is Some
                    &&& action.unwrap()@ == action_of(final(self)@, payload_of(event@))
                },
                None => *final(self) == *old(self) && action is None,
            },
    {
        match self.next(&event) {
            Some(phase) => {
                self.phase = phase;
                Some(self.announce(payload(event)))
            },
            None => None,
        }
    }
}

/// The phase with which the first campaign begins.
fn first_phase(iterations: usize) -> (phase: Phase)
    ensures
        phase == first_run(iterations),
{
    if iterations >= 1 {
        Phase::Running(1)
    } else {
        Phase::Done
    }
}

/// The phase behind the last upload of an iteration.
fn phase_after_upload(iterations: usize, iteration: usize) -> (phase: Phase)
    ensures
        phase == after_upload(iterations, iteration),
{
    if iteration < iterations {
        Phase::Pausing(iteration)
    } else {
        Phase::Done
    }
}

/// The bytes that an event carries.
fn payload(event: Event) -> (bytes: Vec<u8>)
    ensures
        bytes@ == payload_of(event@),
{
    match event {
        Event::ArtifactRead { bytes } => bytes,
        _ => Vec::new(),
    }
}

} // verus!
