//! Placing one image: the steps from the probe's answer to the file's new home.
//!
//! A [`Job`] follows one file. It never touches the file system itself: it
//! names the next step, the caller performs it and reports how it went, and
//! the job answers with the step after that, until it names the outcome.

use crate::origin::{classify, verdict_of, MarkerModel, MarkerSet, TargetType};
use crate::paths::{file_name, file_name_of, is_same, join, joined, parent, parent_of, same_path};
use vstd::prelude::*;
use vstd::string::StringExecFns;

verus! {

/// The names of the two destination folders, and whether files are copied
/// instead of moved.
#[derive(Debug)]
pub struct Options {
    pub comfy_dir_name: String,
    pub webui_dir_name: String,
    pub copy: bool,
}

/// [`Options`] as plain values.
pub struct OptionsModel {
    pub comfy_dir_name: Seq<char>,
    pub webui_dir_name: Seq<char>,
    pub copy: bool,
}

impl View for Options {
    type V = OptionsModel;

    open spec fn view(&self) -> OptionsModel {
        OptionsModel {
            comfy_dir_name: self.comfy_dir_name@,
            webui_dir_name: self.webui_dir_name@,
            copy: self.copy,
        }
    }
}

/// The folder name that a generator's files go to; none for a file that no
/// generator is known of.
pub open spec fn folder_of(options: OptionsModel, target: TargetType) -> Option<Seq<char>> {
    match target {
        TargetType::ComfyUI => Some(options.comfy_dir_name),
        TargetType::WebUI => Some(options.webui_dir_name),
        TargetType::Unclassified => None,
    }
}

impl Options {
    /// Moving files into `comfyui_img` and `webui_image`.
    pub fn standard() -> (options: Options)
        ensures
            options@ == (OptionsModel {
                comfy_dir_name: "comfyui_img"@,
                webui_dir_name: "webui_image"@,
                copy: false,
            }),
    {
        Options {
            comfy_dir_name: "comfyui_img".to_owned(),
            webui_dir_name: "webui_image".to_owned(),
            copy: false,
        }
    }

    /// The folder name for the files of `target`.
    pub fn folder_for(&self, target: TargetType) -> (folder: Option<&String>)
        ensures
            borrowed_text(folder) == folder_of(self@, target),
    {
        match target {
            TargetType::ComfyUI => Some(&self.comfy_dir_name),
            TargetType::WebUI => Some(&self.webui_dir_name),
            TargetType::Unclassified => None,
        }
    }
}

/// How the handling of one file ended.
#[derive(Debug, PartialEq, Eq)]
pub enum Outcome {
    RoutedComfyUI,
    RoutedWebUI,
    Skipped,
    Errored { message: String },
}

/// [`Outcome`] as plain values.
pub enum OutcomeModel {
    RoutedComfyUI,
    RoutedWebUI,
    Skipped,
    Errored { message: Seq<char> },
}

impl View for Outcome {
    type V = OutcomeModel;

    open spec fn view(&self) -> OutcomeModel {
        match self {
            Outcome::RoutedComfyUI => OutcomeModel::RoutedComfyUI,
            Outcome::RoutedWebUI => OutcomeModel::RoutedWebUI,
            Outcome::Skipped => OutcomeModel::Skipped,
            Outcome::Errored { message } => OutcomeModel::Errored { message: message@ },
        }
    }
}

/// The outcome of a file that was placed, or left alone, as `target` asks.
pub open spec fn settled(target: TargetType) -> OutcomeModel {
    match target {
        TargetType::ComfyUI => OutcomeModel::RoutedComfyUI,
        TargetType::WebUI => OutcomeModel::RoutedWebUI,
        TargetType::Unclassified => OutcomeModel::Skipped,
    }
}

/// What the caller is asked to do next.
#[derive(Debug, PartialEq, Eq)]
pub enum Step {
    /// Run the metadata probe on the file and report what it printed.
    RunProbe { file: String },
    /// Create the directory with its missing ancestors; one that exists is fine.
    CreateDir { dir: String },
    /// Copy the file, replacing what is at the destination.
    CopyFile { from: String, to: String },
    /// Rename the file, replacing what is at the destination.
    RenameFile { from: String, to: String },
    /// Remove the file.
    RemoveFile { file: String },
    /// Nothing more: the job has ended.
    Done(Outcome),
}

/// [`Step`] as plain values.
pub enum StepModel {
    RunProbe { file: Seq<char> },
    CreateDir { dir: Seq<char> },
    CopyFile { from: Seq<char>, to: Seq<char> },
    RenameFile { from: Seq<char>, to: Seq<char> },
    RemoveFile { file: Seq<char> },
    Done(OutcomeModel),
}

impl View for Step {
    type V = StepModel;

    open spec fn view(&self) -> StepModel {
        match self {
            Step::RunProbe { file } => StepModel::RunProbe { file: file@ },
            Step::CreateDir { dir } => StepModel::CreateDir { dir: dir@ },
            Step::CopyFile { from, to } => StepModel::CopyFile { from: from@, to: to@ },
            Step::RenameFile { from, to } => StepModel::RenameFile { from: from@, to: to@ },
            Step::RemoveFile { file } => StepModel::RemoveFile { file: file@ },
            Step::Done(outcome) => StepModel::Done(outcome@),
        }
    }
}

/// How the step that was asked for went.
#[derive(Debug, PartialEq, Eq)]
pub enum Event {
    /// The probe ran to its end: what it printed, and whether it exited with success.
    ProbeOutput { text: String, succeeded: bool },
    /// A file-system step was done.
    Succeeded,
    /// The step could not be done, or the probe could not be launched.
    Failed { cause: String },
}

/// [`Event`] as plain values.
pub enum EventModel {
    ProbeOutput { text: Seq<char>, succeeded: bool },
    Succeeded,
    Failed { cause: Seq<char> },
}

impl View for Event {
    type V = EventModel;

    open spec fn view(&self) -> EventModel {
        match self {
            Event::ProbeOutput { text, succeeded } => EventModel::ProbeOutput {
                text: text@,
                succeeded: *succeeded,
            },
            Event::Succeeded => EventModel::Succeeded,
            Event::Failed { cause } => EventModel::Failed { cause: cause@ },
        }
    }
}

/// Which answer a job is waiting for.
#[derive(Clone, Copy, Debug, PartialEq, Eq, Structural)]
pub enum Stage {
    Probing,
    MakingDir,
    Copying,
    Renaming,
    FallbackCopying,
    Removing,
    Finished,
}

/// A job as plain values: the file, the answer awaited, the generator found,
/// and the destination (the folder while it is made, then the file's new path).
pub struct JobModel {
    pub file: Seq<char>,
    pub stage: Stage,
    pub target: TargetType,
    pub dest: Seq<char>,
}

/// The job ends with `outcome`.
pub open spec fn finish(job: JobModel, outcome: OutcomeModel) -> Option<(JobModel, StepModel)> {
    Some((JobModel { stage: Stage::Finished, ..job }, StepModel::Done(outcome)))
}

/// The step after the probe, given the generator found and the folder for
/// the file (none where the file's path names no directory to put it in): a
/// file of no known generator is skipped, any other gets its folder made.
pub open spec fn folder_step(target: TargetType, dir: Option<Seq<char>>) -> StepModel {
    match target {
        TargetType::Unclassified => StepModel::Done(OutcomeModel::Skipped),
        _ => match dir {
            None => StepModel::Done(OutcomeModel::Errored { message: "Cannot get parent dir"@ }),
            Some(dir) => StepModel::CreateDir { dir },
        },
    }
}

/// The step after the folder is there, given the file's new path and
/// whether it is the path that the file has already (none where the file's
/// path ends in no name): a file that stands at its destination is left
/// alone, any other is copied or renamed to it.
pub open spec fn transfer_step(
    file: Seq<char>,
    target: TargetType,
    placement: Option<(Seq<char>, bool)>,
    copy: bool,
) -> StepModel {
    match placement {
        None => StepModel::Done(settled(target)),
        Some((dest, same)) => if same {
            StepModel::Done(settled(target))
        } else if copy {
            StepModel::CopyFile { from: file, to: dest }
        } else {
            StepModel::RenameFile { from: file, to: dest }
        },
    }
}

/// The folder for a file: the folder's name, joined to the directory that
/// holds the file.
pub open spec fn folder_path(file: Seq<char>, folder: Option<Seq<char>>) -> Option<Seq<char>> {
    match (parent_of(file), folder) {
        (Some(dir), Some(folder)) => Some(joined(dir, folder)),
        _ => None,
    }
}

/// The new path of a file in its folder, under the file's own name, and
/// whether that is the same path as the file's.
pub open spec fn placement_of(file: Seq<char>, dir: Seq<char>) -> Option<(Seq<char>, bool)> {
    match file_name_of(file) {
        Some(name) => Some((joined(dir, name), same_path(file, joined(dir, name)))),
        None => None,
    }
}

/// The job once it has asked for `step`: it waits for the step's result and
/// remembers the path that the step works towards.
pub open spec fn awaiting(job: JobModel, step: StepModel) -> JobModel {
    match step {
        StepModel::RunProbe { .. } => JobModel { stage: Stage::Probing, ..job },
        StepModel::CreateDir { dir } => JobModel { stage: Stage::MakingDir, dest: dir, ..job },
        StepModel::CopyFile { to, .. } => JobModel { stage: Stage::Copying, dest: to, ..job },
        StepModel::RenameFile { to, .. } => JobModel { stage: Stage::Renaming, dest: to, ..job },
        StepModel::RemoveFile { .. } => JobModel { stage: Stage::Removing, ..job },
        StepModel::Done(_) => JobModel { stage: Stage::Finished, ..job },
    }
}

/// After the probe: the folder for the generator found is made inside the
/// directory that holds the file.
pub open spec fn after_probe(job: JobModel, target: TargetType, options: OptionsModel) -> Option<
    (JobModel, StepModel),
> {
    let step = folder_step(target, folder_path(job.file, folder_of(options, target)));
    if step is CreateDir {
        Some((awaiting(JobModel { target, ..job }, step), step))
    } else {
        Some((awaiting(job, step), step))
    }
}

/// After the folder is there: the file goes to it under its own name.
pub open spec fn after_dir(job: JobModel, options: OptionsModel) -> Option<(JobModel, StepModel)> {
    let step = transfer_step(
        job.file,
        job.target,
        placement_of(job.file, job.dest),
        options.copy,
    );
    Some((awaiting(job, step), step))
}

/// The job ends in an error whose message is `prefix` followed by the cause.
pub open spec fn fail(job: JobModel, prefix: Seq<char>, cause: Seq<char>) -> Option<
    (JobModel, StepModel),
> {
    finish(job, OutcomeModel::Errored { message: prefix + cause })
}

/// The job after `event`, and the step it asks for; none where the job does
/// not wait for such an event.
pub open spec fn next(
    job: JobModel,
    event: EventModel,
    options: OptionsModel,
    markers: MarkerModel,
) -> Option<(JobModel, StepModel)> {
    match (job.stage, event) {
        (Stage::Probing, EventModel::ProbeOutput { text, succeeded }) => after_probe(
            job,
            verdict_of(text, succeeded, markers),
            options,
        ),
        (Stage::Probing, EventModel::Failed { cause }) => fail(job, "Exec failed: "@, cause),
        (Stage::MakingDir, EventModel::Succeeded) => after_dir(job, options),
        (Stage::MakingDir, EventModel::Failed { cause }) => fail(
            job,
            "Create dir failed: "@,
            cause,
        ),
        (Stage::Copying, EventModel::Succeeded) => finish(job, settled(job.target)),
        (Stage::Copying, EventModel::Failed { cause }) => fail(job, "Copy failed: "@, cause),
        (Stage::Renaming, EventModel::Succeeded) => finish(job, settled(job.target)),
        (Stage::Renaming, EventModel::Failed { .. }) => Some(
            (
                JobModel { stage: Stage::FallbackCopying, ..job },
                StepModel::CopyFile { from: job.file, to: job.dest },
            ),
        ),
        (Stage::FallbackCopying, EventModel::Succeeded) => Some(
            (JobModel { stage: Stage::Removing, ..job }, StepModel::RemoveFile { file: job.file }),
        ),
        (Stage::FallbackCopying, EventModel::Failed { cause }) => fail(
            job,
            "Fallback copy failed: "@,
            cause,
        ),
        (Stage::Removing, EventModel::Succeeded) => finish(job, settled(job.target)),
        (Stage::Removing, EventModel::Failed { .. }) => finish(job, settled(job.target)),
        _ => None,
    }
}

/// The handling of one file, between two steps.
#[derive(Debug)]
pub struct Job {
    file: String,
    stage: Stage,
    target: TargetType,
    dest: String,
}

impl View for Job {
    type V = JobModel;

    closed spec fn view(&self) -> JobModel {
        JobModel { file: self.file@, stage: self.stage, target: self.target, dest: self.dest@ }
    }
}

fn with_cause(prefix: &str, cause: &str) -> (message: String)
    ensures
        message@ == prefix@ + cause@,
{
    let mut message = prefix.to_owned();
    message.append(cause);
    message
}

fn outcome_for(target: TargetType) -> (outcome: Outcome)
    ensures
        outcome@ == settled(target),
{
    match target {
        TargetType::ComfyUI => Outcome::RoutedComfyUI,
        TargetType::WebUI => Outcome::RoutedWebUI,
        TargetType::Unclassified => Outcome::Skipped,
    }
}

/// The text of a borrowed string that may be missing.
pub open spec fn borrowed_text(value: Option<&String>) -> Option<Seq<char>> {
    match value {
        Some(text) => Some(text@),
        None => None,
    }
}

/// The text of a string that may be missing.
pub open spec fn text_of(value: Option<String>) -> Option<Seq<char>> {
    match value {
        Some(text) => Some(text@),
        None => None,
    }
}

/// The text and the flag of a placement that may be missing.
pub open spec fn placement_model(value: Option<(String, bool)>) -> Option<(Seq<char>, bool)> {
    match value {
        Some((dest, same)) => Some((dest@, same)),
        None => None,
    }
}

/// The step after the probe has answered: `target` is the generator found,
/// `dir` the folder for the file, or nothing where the file's path names no
/// directory that could hold the folder.
pub fn choose_folder_step(target: TargetType, dir: Option<String>) -> (step: Step)
    ensures
        step@ == folder_step(target, text_of(dir)),
{
    match target {
        TargetType::Unclassified => Step::Done(Outcome::Skipped),
        _ => match dir {
            None => Step::Done(Outcome::Errored { message: "Cannot get parent dir".to_owned() }),
            Some(dir) => Step::CreateDir { dir },
        },
    }
}

/// The step after the folder is there: `placement` is the file's new path
/// and whether it is the path that the file has already, or nothing where
/// the file's path ends in no name.
pub fn choose_transfer_step(
    file: &String,
    target: TargetType,
    placement: Option<(String, bool)>,
    copy: bool,
) -> (step: Step)
    ensures
        step@ == transfer_step(file@, target, placement_model(placement), copy),
{
    match placement {
        None => Step::Done(outcome_for(target)),
        Some((dest, same)) => {
            if same {
                Step::Done(outcome_for(target))
            } else if copy {
                Step::CopyFile { from: file.clone(), to: dest }
            } else {
                Step::RenameFile { from: file.clone(), to: dest }
            }
        },
    }
}

fn folder_for_file(file: &str, folder: Option<&String>) -> (dir: Option<String>)
    ensures
        text_of(dir) == folder_path(file@, borrowed_text(folder)),
{
    match folder {
        Some(name) => match parent(file) {
            Some(dir) => Some(join(dir.as_str(), name.as_str())),
            None => None,
        },
        None => None,
    }
}

fn placement_for_file(file: &str, dir: &str) -> (placement: Option<(String, bool)>)
    ensures
        placement_model(placement) == placement_of(file@, dir@),
{
    match file_name(file) {
        Some(name) => {
            let dest = join(dir, name.as_str());
            let same = is_same(file, dest.as_str());
            Some((dest, same))
        },
        None => None,
    }
}

impl Job {
    /// A job for `file`, and its first step: the probe.
    pub fn start(file: String) -> (started: (Job, Step))
        ensures
            started.0@ == (JobModel {
                file: file@,
                stage: Stage::Probing,
                target: TargetType::Unclassified,
                dest: Seq::<char>::empty(),
            }),
            started.1@ == (StepModel::RunProbe { file: file@ }),
    {
        let step = Step::RunProbe { file: file.clone() };
        let job = Job {
            file,
            stage: Stage::Probing,
            target: TargetType::Unclassified,
            dest: String::new(),
        };
        (job, step)
    }

    /// The answer that the job is waiting for.
    pub fn stage(&self) -> (stage: Stage)
        ensures
            stage == self@.stage,
    {
        self.stage
    }

    /// The file that the job follows.
    pub fn file(&self) -> (file: &String)
        ensures
            file@ == self@.file,
    {
        &self.file
    }

    /// The generator found for the file; `Unclassified` until the probe has answered.
    pub fn target(&self) -> (target: TargetType)
        ensures
            target == self@.target,
    {
        self.target
    }

    fn end(&mut self, outcome: Outcome) -> (step: Option<Step>)
        ensures
            Some((final(self)@, step.unwrap()@)) == finish(old(self)@, outcome@),
            step.is_some(),
    {
        self.stage = Stage::Finished;
        Some(Step::Done(outcome))
    }

    fn probed(&mut self, target: TargetType, options: &Options) -> (step: Option<Step>)
        ensures
            Some((final(self)@, step.unwrap()@)) == after_probe(old(self)@, target, options@),
            step.is_some(),
    {
        let dir = folder_for_file(self.file.as_str(), options.folder_for(target));
        let step = choose_folder_step(target, dir);
        match &step {
            Step::CreateDir { dir } => {
                self.stage = Stage::MakingDir;
                self.target = target;
                self.dest = dir.clone();
            },
            _ => {
                self.stage = Stage::Finished;
            },
        }
        Some(step)
    }

    fn dir_made(&mut self, options: &Options) -> (step: Option<Step>)
        ensures
            Some((final(self)@, step.unwrap()@)) == after_dir(old(self)@, options@),
            step.is_some(),
    {
        let placement = placement_for_file(self.file.as_str(), self.dest.as_str());
        let step = choose_transfer_step(&self.file, self.target, placement, options.copy);
        match &step {
            Step::CopyFile { from: _, to } => {
                self.stage = Stage::Copying;
                self.dest = to.clone();
            },
            Step::RenameFile { from: _, to } => {
                self.stage = Stage::Renaming;
                self.dest = to.clone();
            },
            _ => {
                self.stage = Stage::Finished;
            },
        }
        Some(step)
    }

    /// Takes the result of the step that the job asked for and names the next
    /// one. An event that the job does not wait for changes nothing and gets
    /// no step.
    pub fn advance(&mut self, event: Event, options: &Options, markers: &MarkerSet) -> (step:
        Option<Step>)
        ensures
            match next(old(self)@, event@, options@, markers@) {
                Some((job, wanted)) => final(self)@ == job && step.is_some() && step.unwrap()@
                    == wanted,
                None => final(self)@ == old(self)@ && step.is_none(),
            },
    {
        match (self.stage, event) {
            (Stage::Probing, Event::ProbeOutput { text, succeeded }) => {
                let target = classify(text.as_str(), succeeded, markers);
                self.probed(target, options)
            },
            (Stage::Probing, Event::Failed { cause }) => {
                let message = with_cause("Exec failed: ", cause.as_str());
                self.end(Outcome::Errored { message })
            },
            (Stage::MakingDir, Event::Succeeded) => self.dir_made(options),
            (Stage::MakingDir, Event::Failed { cause }) => {
                let message = with_cause("Create dir failed: ", cause.as_str());
                self.end(Outcome::Errored { message })
            },
            (Stage::Copying, Event::Succeeded) => self.end(outcome_for(self.target)),
            (Stage::Copying, Event::Failed { cause }) => {
                let message = with_cause("Copy failed: ", cause.as_str());
                self.end(Outcome::Errored { message })
            },
            (Stage::Renaming, Event::Succeeded) => self.end(outcome_for(self.target)),
            (Stage::Renaming, Event::Failed { .. }) => {
                self.stage = Stage::FallbackCopying;
                Some(Step::CopyFile { from: self.file.clone(), to: self.dest.clone() })
            },
            (Stage::FallbackCopying, Event::Succeeded) => {
                self.stage = Stage::Removing;
                Some(Step::RemoveFile { file: self.file.clone() })
            },
            (Stage::FallbackCopying, Event::Failed { cause }) => {
                let message = with_cause("Fallback copy failed: ", cause.as_str());
                self.end(Outcome::Errored { message })
            },
            (Stage::Removing, Event::Succeeded) => self.end(outcome_for(self.target)),
            (Stage::Removing, Event::Failed { .. }) => self.end(outcome_for(self.target)),
            _ => None,
        }
    }
}

/// How many answers a job may still need before it ends.
pub open spec fn steps_left(stage: Stage) -> nat {
    match stage {
        Stage::Probing => 5,
        Stage::MakingDir => 4,
        Stage::Renaming => 3,
        Stage::FallbackCopying => 2,
        Stage::Copying => 1,
        Stage::Removing => 1,
        Stage::Finished => 0,
    }
}

/// The stages that a job can be in while it copies and never moves.
pub open spec fn on_copy_track(stage: Stage) -> bool {
    stage == Stage::Probing || stage == Stage::MakingDir || stage == Stage::Copying || stage
        == Stage::Finished
}

/// Every answer brings a job nearer to its end, the job names an outcome
/// exactly when it ends, and an ended job takes no further answer: each file
/// gets one outcome, after at most five answers.
pub proof fn law_one_outcome(
    job: JobModel,
    event: EventModel,
    options: OptionsModel,
    markers: MarkerModel,
)
    ensures
        job.stage == Stage::Finished ==> next(job, event, options, markers).is_none(),
        match next(job, event, options, markers) {
            Some((after, step)) => {
                &&& steps_left(after.stage) < steps_left(job.stage)
                &&& after.file == job.file
                &&& (step is Done <==> after.stage == Stage::Finished)
            },
            None => true,
        },
{
}

/// A file whose probe exited with a failure is skipped, whatever the probe
/// printed, and nothing is asked of the file system.
pub proof fn law_failed_probe_skips(
    job: JobModel,
    text: Seq<char>,
    options: OptionsModel,
    markers: MarkerModel,
)
    requires
        job.stage == Stage::Probing,
    ensures
        next(job, EventModel::ProbeOutput { text, succeeded: false }, options, markers) == finish(
            job,
            OutcomeModel::Skipped,
        ),
{
}

/// A file that already stands at its destination is reported as placed, in
/// either mode, without a copy, a rename or a removal being asked for.
pub proof fn law_placed_file_is_left_alone(
    job: JobModel,
    dest: Seq<char>,
    options: OptionsModel,
    markers: MarkerModel,
)
    ensures
        transfer_step(job.file, job.target, Some((dest, true)), options.copy) == StepModel::Done(
            settled(job.target),
        ),
        job.stage == Stage::MakingDir && placement_of(job.file, job.dest) == Some((dest, true))
            ==> next(job, EventModel::Succeeded, options, markers) == finish(
            job,
            settled(job.target),
        ),
{
}

/// When files are copied, no step renames or removes anything, and a copy
/// reads from the job's own file: a job that starts at the probe stays on
/// the copying track to its end.
pub proof fn law_copy_never_moves(
    job: JobModel,
    event: EventModel,
    options: OptionsModel,
    markers: MarkerModel,
)
    requires
        options.copy,
        on_copy_track(job.stage),
    ensures
        match next(job, event, options, markers) {
            Some((after, step)) => {
                &&& on_copy_track(after.stage)
                &&& !(step is RenameFile)
                &&& !(step is RemoveFile)
                &&& (step is CopyFile ==> step->CopyFile_from == job.file)
            },
            None => true,
        },
{
}

/// The folder that is made for a file lies in the file's own directory and
/// bears the name configured for the file's generator.
pub proof fn law_folder_beside_file(
    job: JobModel,
    text: Seq<char>,
    options: OptionsModel,
    markers: MarkerModel,
)
    requires
        job.stage == Stage::Probing,
    ensures
        match next(job, EventModel::ProbeOutput { text, succeeded: true }, options, markers) {
            Some((after, StepModel::CreateDir { dir })) => {
                &&& parent_of(job.file).is_some()
                &&& folder_of(options, after.target).is_some()
                &&& after.target == verdict_of(text, true, markers)
                &&& dir == joined(
                    parent_of(job.file).unwrap(),
                    folder_of(options, after.target).unwrap(),
                )
            },
            Some((after, step)) => step is Done,
            None => false,
        },
{
}

/// A file is removed only after a copy of it has succeeded, and the file
/// removed is the job's own: a move that fails leaves the source in place.
pub proof fn law_removal_follows_a_copy(
    job: JobModel,
    event: EventModel,
    options: OptionsModel,
    markers: MarkerModel,
)
    ensures
        match next(job, event, options, markers) {
            Some((after, StepModel::RemoveFile { file })) => {
                &&& job.stage == Stage::FallbackCopying
                &&& event is Succeeded
                &&& file == job.file
            },
            _ => true,
        },
{
}

/// A job that is handed `events` one after the other: where it stands at the
/// end, and the steps it asked for. An event that is not awaited is passed over.
pub open spec fn run(
    job: JobModel,
    events: Seq<EventModel>,
    options: OptionsModel,
    markers: MarkerModel,
) -> (JobModel, Seq<StepModel>)
    decreases events.len(),
{
    if events.len() == 0 {
        (job, Seq::empty())
    } else {
        let (before, steps) = run(job, events.drop_last(), options, markers);
        match next(before, events.last(), options, markers) {
            Some((after, step)) => (after, steps.push(step)),
            None => (before, steps),
        }
    }
}

/// Whatever events a job is handed, it asks for at most as many steps as its
/// stage leaves room for, it names an outcome at most once, as its last
/// step, and it has done so exactly when it has ended.
pub proof fn law_run_names_one_outcome(
    job: JobModel,
    events: Seq<EventModel>,
    options: OptionsModel,
    markers: MarkerModel,
)
    ensures
        ({
            let (after, steps) = run(job, events, options, markers);
            &&& after.file == job.file
            &&& steps.len() + steps_left(after.stage) <= steps_left(job.stage)
            &&& forall|i: int|
                0 <= i < steps.len() && #[trigger] steps[i] is Done ==> i == steps.len() - 1
                    && after.stage == Stage::Finished
            &&& job.stage != Stage::Finished && after.stage == Stage::Finished ==> steps.len() > 0
                && steps.last() is Done
        }),
    decreases events.len(),
{
    if events.len() > 0 {
        law_run_names_one_outcome(job, events.drop_last(), options, markers);
        let before = run(job, events.drop_last(), options, markers).0;
        law_one_outcome(before, events.last(), options, markers);
    }
}

/// When files are copied, a job that starts at the probe asks for no rename
/// and no removal, whatever events it is handed: the source is only read.
pub proof fn law_copy_run_never_moves(
    job: JobModel,
    events: Seq<EventModel>,
    options: OptionsModel,
    markers: MarkerModel,
)
    requires
        options.copy,
        on_copy_track(job.stage),
    ensures
        ({
            let (after, steps) = run(job, events, options, markers);
            &&& on_copy_track(after.stage)
            &&& forall|i: int|
                0 <= i < steps.len() ==> !(#[trigger] steps[i] is RenameFile) && !(steps[i]
                    is RemoveFile)
        }),
    decreases events.len(),
{
    if events.len() > 0 {
        law_copy_run_never_moves(job, events.drop_last(), options, markers);
        let before = run(job, events.drop_last(), options, markers).0;
        law_copy_never_moves(before, events.last(), options, markers);
    }
}

} // verus!
