//! What the pipeline asks of its surroundings, and what it is told in return.
//!
//! The pipeline itself touches nothing. It hands out one `Action` at a time,
//! and whoever runs it carries the action out and answers with an `Event`.
//! A `Step` is an action together with what the pipeline does with the
//! answer.

use crate::text::{
    contains, copy_strings, join2, join3, lemma_contains_itself, lemma_contains_within, words,
};
use vstd::prelude::*;

verus! {

/// One thing to be done outside the pipeline.
#[derive(Debug, PartialEq, Eq)]
pub enum Action {
    /// Run a program to its end, attached to the terminal.
    Run { program: String, args: Vec<String> },
    /// Run a program to its end and gather its standard output as text, in
    /// the way that `decoding` names.
    Capture { program: String, args: Vec<String>, decoding: Decoding },
    /// Create a directory and its missing parents.
    MakeDir { path: String },
    /// Write a file, replacing what was there.
    WriteFile { path: String, contents: String },
    /// Create a symbolic link at `link` that points to `target`.
    Symlink { target: String, link: String },
    /// Find out whether a path exists.
    Probe { path: String },
    /// Read a file as text.
    ReadFile { path: String },
    /// Wait.
    Sleep { seconds: u64 },
    /// Print a line.
    Say { text: String },
    /// Print a prompt and read one line from the user.
    Ask { prompt: String },
    /// Stop: the pipeline has ended.
    Finish { outcome: Outcome },
}

/// How the output of a program is taken as text.
#[derive(Clone, Copy, Debug, PartialEq, Eq, Structural)]
pub enum Decoding {
    /// What is no UTF-8 in the output is replaced by the replacement
    /// character.
    Lossy,
    /// Output that is not UTF-8 throughout is refused: the action then
    /// counts as one that could not be carried out.
    Exact,
}

/// What became of an action.
#[derive(Debug, PartialEq, Eq)]
pub enum Event {
    /// The action was carried out. `success` is the exit status of a
    /// program, or whether a probed path exists; it is true of every other
    /// action. `output` is the standard output gathered, the text read from
    /// a file or the line read from the user; it is empty otherwise.
    Done { success: bool, output: String },
    /// The action could not be carried out: the program could not be
    /// started, its output could not be taken as text, or the system
    /// refused the operation.
    Error { reason: String },
}

/// Why the pipeline gave up.
#[derive(Debug, PartialEq, Eq)]
pub enum Failure {
    /// A program ran and reported failure.
    CommandFailed { program: String, args: Vec<String> },
    /// A program could not be started.
    CommandNotRun { program: String, args: Vec<String>, reason: String },
    /// A path that must exist does not.
    Missing { path: String },
    /// An operation on the file system or the terminal failed.
    Refused { path: String, reason: String },
    /// The size of the disk could not be read from this text.
    BadDiskSize { text: String },
    /// The disk is larger than 64 bits can count.
    DiskTooLarge,
    /// The requested partitions do not fit on the disk.
    NoRoom,
    /// No identifier is known for this device.
    NoUuid { device: String },
    /// This path has no last component.
    NoFileName { path: String },
}

/// How the pipeline ended.
#[derive(Debug, PartialEq, Eq)]
pub enum Outcome {
    /// Every stage was carried out.
    Completed,
    /// The user did not confirm; nothing was changed.
    Aborted,
    /// A stage failed; the stages before it stand as they are.
    Failed { failure: Failure },
}

/// How much of an action's failure the pipeline bears.
#[derive(Clone, Copy, Debug, PartialEq, Eq, Structural)]
pub enum Policy {
    /// The pipeline stops unless the action was carried out with success.
    Strict,
    /// The pipeline stops unless the action was carried out; whether with
    /// success does not matter.
    Started,
    /// The pipeline goes on whatever happens.
    Lenient,
}

/// Where the pipeline keeps what an action gathered.
#[derive(Clone, Copy, Debug, PartialEq, Eq, Structural)]
pub enum Slot {
    Nowhere,
    Chassis,
    Vendor,
    Product,
    Answer,
    Hostname,
    Serial,
    DiskUuid,
    Partitions,
    SizeBytes,
    SectorSize,
    Sectors,
    EfiPath,
    EfiListing,
    RootPath,
    RootListing,
    BootUuid,
    RootUuid,
    SwapUuid,
    FlakeText,
}

/// An action, how much of its failure is borne, and where its output goes.
#[derive(Debug, PartialEq, Eq)]
pub struct Step {
    pub action: Action,
    pub policy: Policy,
    pub slot: Slot,
}

/// The model of a `Failure`.
#[verifier::ext_equal]
pub enum FailureView {
    CommandFailed { program: Seq<char>, args: Seq<Seq<char>> },
    CommandNotRun { program: Seq<char>, args: Seq<Seq<char>>, reason: Seq<char> },
    Missing { path: Seq<char> },
    Refused { path: Seq<char>, reason: Seq<char> },
    BadDiskSize { text: Seq<char> },
    DiskTooLarge,
    NoRoom,
    NoUuid { device: Seq<char> },
    NoFileName { path: Seq<char> },
}

/// The model of an `Outcome`.
#[verifier::ext_equal]
pub enum OutcomeView {
    Completed,
    Aborted,
    Failed { failure: FailureView },
}

/// The model of an `Action`.
#[verifier::ext_equal]
pub enum ActionView {
    Run { program: Seq<char>, args: Seq<Seq<char>> },
    Capture { program: Seq<char>, args: Seq<Seq<char>>, decoding: Decoding },
    MakeDir { path: Seq<char> },
    WriteFile { path: Seq<char>, contents: Seq<char> },
    Symlink { target: Seq<char>, link: Seq<char> },
    Probe { path: Seq<char> },
    ReadFile { path: Seq<char> },
    Sleep { seconds: u64 },
    Say { text: Seq<char> },
    Ask { prompt: Seq<char> },
    Finish { outcome: OutcomeView },
}

/// The model of an `Event`.
#[verifier::ext_equal]
pub enum EventView {
    Done { success: bool, output: Seq<char> },
    Error { reason: Seq<char> },
}

/// The model of a `Step`.
#[verifier::ext_equal]
pub struct StepView {
    pub action: ActionView,
    pub policy: Policy,
    pub slot: Slot,
}

impl View for Failure {
    type V = FailureView;

    open spec fn view(&self) -> FailureView {
        match *self {
            Failure::CommandFailed { program, args } => FailureView::CommandFailed {
                program: program@,
                args: args.deep_view(),
            },
            Failure::CommandNotRun { program, args, reason } => FailureView::CommandNotRun {
                program: program@,
                args: args.deep_view(),
                reason: reason@,
            },
            Failure::Missing { path } => FailureView::Missing { path: path@ },
            Failure::Refused { path, reason } => FailureView::Refused {
                path: path@,
                reason: reason@,
            },
            Failure::BadDiskSize { text } => FailureView::BadDiskSize { text: text@ },
            Failure::DiskTooLarge => FailureView::DiskTooLarge,
            Failure::NoRoom => FailureView::NoRoom,
            Failure::NoUuid { device } => FailureView::NoUuid { device: device@ },
            Failure::NoFileName { path } => FailureView::NoFileName { path: path@ },
        }
    }
}

impl View for Outcome {
    type V = OutcomeView;

    open spec fn view(&self) -> OutcomeView {
        match *self {
            Outcome::Completed => OutcomeView::Completed,
            Outcome::Aborted => OutcomeView::Aborted,
            Outcome::Failed { failure } => OutcomeView::Failed { failure: failure@ },
        }
    }
}

impl View for Action {
    type V = ActionView;

    open spec fn view(&self) -> ActionView {
        match *self {
            Action::Run { program, args } => ActionView::Run {
                program: program@,
                args: args.deep_view(),
            },
            Action::Capture { program, args, decoding } => ActionView::Capture {
                program: program@,
                args: args.deep_view(),
                decoding,
            },
            Action::MakeDir { path } => ActionView::MakeDir { path: path@ },
            Action::WriteFile { path, contents } => ActionView::WriteFile {
                path: path@,
                contents: contents@,
            },
            Action::Symlink { target, link } => ActionView::Symlink {
                target: target@,
                link: link@,
            },
            Action::Probe { path } => ActionView::Probe { path: path@ },
            Action::ReadFile { path } => ActionView::ReadFile { path: path@ },
            Action::Sleep { seconds } => ActionView::Sleep { seconds },
            Action::Say { text } => ActionView::Say { text: text@ },
            Action::Ask { prompt } => ActionView::Ask { prompt: prompt@ },
            Action::Finish { outcome } => ActionView::Finish { outcome: outcome@ },
        }
    }
}

impl View for Event {
    type V = EventView;

    open spec fn view(&self) -> EventView {
        match *self {
            Event::Done { success, output } => EventView::Done { success, output: output@ },
            Event::Error { reason } => EventView::Error { reason: reason@ },
        }
    }
}

impl View for Step {
    type V = StepView;

    open spec fn view(&self) -> StepView {
        StepView { action: self.action@, policy: self.policy, slot: self.slot }
    }
}

impl DeepView for Step {
    type V = StepView;

    open spec fn deep_view(&self) -> StepView {
        self@
    }
}

impl Clone for Failure {
    fn clone(&self) -> (r: Failure)
        ensures
            r@ == self@,
    {
        match self {
            Failure::CommandFailed { program, args } => Failure::CommandFailed {
                program: program.clone(),
                args: copy_strings(args),
            },
            Failure::CommandNotRun { program, args, reason } => Failure::CommandNotRun {
                program: program.clone(),
                args: copy_strings(args),
                reason: reason.clone(),
            },
            Failure::Missing { path } => Failure::Missing { path: path.clone() },
            Failure::Refused { path, reason } => Failure::Refused {
                path: path.clone(),
                reason: reason.clone(),
            },
            Failure::BadDiskSize { text } => Failure::BadDiskSize { text: text.clone() },
            Failure::DiskTooLarge => Failure::DiskTooLarge,
            Failure::NoRoom => Failure::NoRoom,
            Failure::NoUuid { device } => Failure::NoUuid { device: device.clone() },
            Failure::NoFileName { path } => Failure::NoFileName { path: path.clone() },
        }
    }
}

impl Clone for Outcome {
    fn clone(&self) -> (r: Outcome)
        ensures
            r@ == self@,
    {
        match self {
            Outcome::Completed => Outcome::Completed,
            Outcome::Aborted => Outcome::Aborted,
            Outcome::Failed { failure } => Outcome::Failed { failure: failure.clone() },
        }
    }
}

impl Clone for Action {
    fn clone(&self) -> (r: Action)
        ensures
            r@ == self@,
    {
        match self {
            Action::Run { program, args } => Action::Run {
                program: program.clone(),
                args: copy_strings(args),
            },
            Action::Capture { program, args, decoding } => Action::Capture {
                program: program.clone(),
                args: copy_strings(args),
                decoding: *decoding,
            },
            Action::MakeDir { path } => Action::MakeDir { path: path.clone() },
            Action::WriteFile { path, contents } => Action::WriteFile {
                path: path.clone(),
                contents: contents.clone(),
            },
            Action::Symlink { target, link } => Action::Symlink {
                target: target.clone(),
                link: link.clone(),
            },
            Action::Probe { path } => Action::Probe { path: path.clone() },
            Action::ReadFile { path } => Action::ReadFile { path: path.clone() },
            Action::Sleep { seconds } => Action::Sleep { seconds: *seconds },
            Action::Say { text } => Action::Say { text: text.clone() },
            Action::Ask { prompt } => Action::Ask { prompt: prompt.clone() },
            Action::Finish { outcome } => Action::Finish { outcome: outcome.clone() },
        }
    }
}


/// A step that runs a program and stops the pipeline unless it succeeds.
pub open spec fn strict_run(program: Seq<char>, args: Seq<Seq<char>>) -> StepView {
    StepView { action: ActionView::Run { program, args }, policy: Policy::Strict, slot: Slot::Nowhere }
}

/// A step that runs a program and goes on whatever becomes of it.
pub open spec fn lenient_run(program: Seq<char>, args: Seq<Seq<char>>) -> StepView {
    StepView {
        action: ActionView::Run { program, args },
        policy: Policy::Lenient,
        slot: Slot::Nowhere,
    }
}

/// A step that runs a program and keeps its standard output in `slot`,
/// with what is no UTF-8 in it replaced.
pub open spec fn capture_run(
    program: Seq<char>,
    args: Seq<Seq<char>>,
    policy: Policy,
    slot: Slot,
) -> StepView {
    StepView {
        action: ActionView::Capture { program, args, decoding: Decoding::Lossy },
        policy,
        slot,
    }
}

/// A step that runs a program and keeps its standard output in `slot`,
/// unless the output is no UTF-8: then the step is answered as one whose
/// action could not be carried out.
pub open spec fn capture_exact_run(
    program: Seq<char>,
    args: Seq<Seq<char>>,
    policy: Policy,
    slot: Slot,
) -> StepView {
    StepView {
        action: ActionView::Capture { program, args, decoding: Decoding::Exact },
        policy,
        slot,
    }
}

/// A step that does `action` and stops the pipeline unless it succeeds.
pub open spec fn strict(action: ActionView) -> StepView {
    StepView { action, policy: Policy::Strict, slot: Slot::Nowhere }
}

/// A step that does `action` and goes on whatever becomes of it.
pub open spec fn lenient(action: ActionView) -> StepView {
    StepView { action, policy: Policy::Lenient, slot: Slot::Nowhere }
}

/// A step that prints a line. It fails on nothing.
pub open spec fn say_step(text: Seq<char>) -> StepView {
    lenient(ActionView::Say { text })
}

/// A step that waits. It fails on nothing.
pub open spec fn sleep_step(seconds: u64) -> StepView {
    lenient(ActionView::Sleep { seconds })
}

/// A step that creates a directory.
pub open spec fn make_dir_step(path: Seq<char>) -> StepView {
    strict(ActionView::MakeDir { path })
}

/// A step that stops the pipeline unless `path` exists.
pub open spec fn require_path_step(path: Seq<char>) -> StepView {
    strict(ActionView::Probe { path })
}

/// A step that writes a file and stops the pipeline unless that succeeds.
pub open spec fn write_file_step(path: Seq<char>, contents: Seq<char>) -> StepView {
    strict(ActionView::WriteFile { path, contents })
}

/// A step that creates a symbolic link and stops the pipeline unless that
/// succeeds.
pub open spec fn symlink_step(target: Seq<char>, link: Seq<char>) -> StepView {
    strict(ActionView::Symlink { target, link })
}

/// A step that reads a file into `slot` and goes on where it cannot.
pub open spec fn read_file_step(path: Seq<char>, slot: Slot) -> StepView {
    StepView { action: ActionView::ReadFile { path }, policy: Policy::Lenient, slot }
}

/// A step that asks the user for a line, keeps it in `slot`, and stops the
/// pipeline where none can be read.
pub open spec fn ask_step(prompt: Seq<char>, slot: Slot) -> StepView {
    StepView { action: ActionView::Ask { prompt }, policy: Policy::Strict, slot }
}

/// Runs a program that must succeed: the pipeline stops with a failure that
/// names the program and its arguments when it cannot be started or exits
/// with a failure status.
pub fn run_command(cmd: &str, args: &[&str]) -> (r: Step)
    ensures
        r@ == strict_run(cmd@, args.deep_view()),
{
    Step {
        action: Action::Run { program: cmd.to_owned(), args: words(args) },
        policy: Policy::Strict,
        slot: Slot::Nowhere,
    }
}

/// Runs a program whose failure is ignored.
pub fn try_command(cmd: &str, args: &[&str]) -> (r: Step)
    ensures
        r@ == lenient_run(cmd@, args.deep_view()),
{
    Step {
        action: Action::Run { program: cmd.to_owned(), args: words(args) },
        policy: Policy::Lenient,
        slot: Slot::Nowhere,
    }
}

/// Runs a program and keeps its standard output in `slot`, with what is no
/// UTF-8 in it replaced.
pub fn capture_command(cmd: &str, args: &[&str], policy: Policy, slot: Slot) -> (r: Step)
    ensures
        r@ == capture_run(cmd@, args.deep_view(), policy, slot),
{
    Step {
        action: Action::Capture {
            program: cmd.to_owned(),
            args: words(args),
            decoding: Decoding::Lossy,
        },
        policy,
        slot,
    }
}

/// Runs a program and keeps its standard output in `slot`; output that is
/// no UTF-8 is refused.
pub fn capture_exact(cmd: &str, args: &[&str], policy: Policy, slot: Slot) -> (r: Step)
    ensures
        r@ == capture_exact_run(cmd@, args.deep_view(), policy, slot),
{
    Step {
        action: Action::Capture {
            program: cmd.to_owned(),
            args: words(args),
            decoding: Decoding::Exact,
        },
        policy,
        slot,
    }
}

/// Prints a line.
pub fn say(text: &str) -> (r: Step)
    ensures
        r@ == say_step(text@),
{
    Step {
        action: Action::Say { text: text.to_owned() },
        policy: Policy::Lenient,
        slot: Slot::Nowhere,
    }
}

/// Waits for `seconds` seconds.
pub fn sleep(seconds: u64) -> (r: Step)
    ensures
        r@ == sleep_step(seconds),
{
    Step { action: Action::Sleep { seconds }, policy: Policy::Lenient, slot: Slot::Nowhere }
}

/// Creates a directory and its missing parents.
pub fn make_dir(path: &str) -> (r: Step)
    ensures
        r@ == make_dir_step(path@),
{
    Step {
        action: Action::MakeDir { path: path.to_owned() },
        policy: Policy::Strict,
        slot: Slot::Nowhere,
    }
}

/// Stops the pipeline unless `path` exists.
pub fn require_path(path: &str) -> (r: Step)
    ensures
        r@ == require_path_step(path@),
{
    Step {
        action: Action::Probe { path: path.to_owned() },
        policy: Policy::Strict,
        slot: Slot::Nowhere,
    }
}

/// Writes a file; the pipeline stops where that fails.
pub fn write_file(path: &str, contents: String) -> (r: Step)
    ensures
        r@ == write_file_step(path@, contents@),
{
    Step {
        action: Action::WriteFile { path: path.to_owned(), contents },
        policy: Policy::Strict,
        slot: Slot::Nowhere,
    }
}

/// Creates a symbolic link at `link` that points to `target`; the pipeline
/// stops where that fails.
pub fn symlink(target: &str, link: &str) -> (r: Step)
    ensures
        r@ == symlink_step(target@, link@),
{
    Step {
        action: Action::Symlink { target: target.to_owned(), link: link.to_owned() },
        policy: Policy::Strict,
        slot: Slot::Nowhere,
    }
}

/// Reads a file into `slot`; the pipeline goes on where that fails.
pub fn read_file(path: &str, slot: Slot) -> (r: Step)
    ensures
        r@ == read_file_step(path@, slot),
{
    Step { action: Action::ReadFile { path: path.to_owned() }, policy: Policy::Lenient, slot }
}

/// Asks the user for a line and keeps it in `slot`; the pipeline stops
/// where none can be read.
pub fn ask(prompt: &str, slot: Slot) -> (r: Step)
    ensures
        r@ == ask_step(prompt@, slot),
{
    Step { action: Action::Ask { prompt: prompt.to_owned() }, policy: Policy::Strict, slot }
}

/// The script of one step.
pub fn one(step: Step) -> (r: Vec<Step>)
    ensures
        r.deep_view() == seq![step@],
{
    let mut steps: Vec<Step> = Vec::new();
    steps.push(step);
    assert(steps.deep_view() =~= seq![step@]);
    steps
}

/// The script without steps.
pub fn no_steps() -> (r: Vec<Step>)
    ensures
        r.deep_view() == Seq::<StepView>::empty(),
{
    let steps: Vec<Step> = Vec::new();
    assert(steps.deep_view() =~= Seq::<StepView>::empty());
    steps
}

/// Appends the steps `more` to `steps`.
pub fn extend_steps(steps: &mut Vec<Step>, more: Vec<Step>)
    ensures
        final(steps).deep_view() == old(steps).deep_view() + more.deep_view(),
{
    let mut rest = more;
    steps.append(&mut rest);
    assert(steps.deep_view() =~= old(steps).deep_view() + more.deep_view());
}

/// What an action is about: the path it touches or the text it shows.
pub open spec fn subject(action: ActionView) -> Seq<char> {
    match action {
        ActionView::Run { program, .. } => program,
        ActionView::Capture { program, .. } => program,
        ActionView::MakeDir { path } => path,
        ActionView::WriteFile { path, .. } => path,
        ActionView::Symlink { link, .. } => link,
        ActionView::Probe { path } => path,
        ActionView::ReadFile { path } => path,
        ActionView::Sleep { .. } => Seq::empty(),
        ActionView::Say { text } => text,
        ActionView::Ask { prompt } => prompt,
        ActionView::Finish { .. } => Seq::empty(),
    }
}

/// The failure of an action that could not be carried out.
pub open spec fn failure_to_act(action: ActionView, reason: Seq<char>) -> FailureView {
    match action {
        ActionView::Run { program, args } => FailureView::CommandNotRun { program, args, reason },
        ActionView::Capture { program, args, .. } => FailureView::CommandNotRun {
            program,
            args,
            reason,
        },
        _ => FailureView::Refused { path: subject(action), reason },
    }
}

/// The failure of an action that was carried out without success.
pub open spec fn failure_to_succeed(action: ActionView) -> FailureView {
    match action {
        ActionView::Run { program, args } => FailureView::CommandFailed { program, args },
        ActionView::Capture { program, args, .. } => FailureView::CommandFailed {
            program,
            args,
        },
        ActionView::Probe { path } => FailureView::Missing { path },
        _ => FailureView::Refused { path: subject(action), reason: Seq::empty() },
    }
}

/// What a step makes of the answer to its action: the output to keep, if
/// any, or the failure that stops the pipeline.
///
/// A lenient step fails on nothing. A step that must start fails when its
/// action could not be carried out. A strict step fails on that too, and
/// when the action ended without success.
pub open spec fn settle(step: StepView, event: EventView) -> Result<Option<Seq<char>>, FailureView> {
    match event {
        EventView::Error { reason } => if step.policy == Policy::Lenient {
            Ok(None)
        } else {
            Err(failure_to_act(step.action, reason))
        },
        EventView::Done { success, output } => if step.policy == Policy::Strict && !success {
            Err(failure_to_succeed(step.action))
        } else {
            Ok(Some(output))
        },
    }
}

/// The model of what `Step::settle` returns.
pub open spec fn settled_view(r: Result<Option<String>, Failure>) -> Result<
    Option<Seq<char>>,
    FailureView,
> {
    match r {
        Ok(Some(output)) => Ok(Some(output@)),
        Ok(None) => Ok(None),
        Err(failure) => Err(failure@),
    }
}

impl Action {
    /// The path that the action touches or the text that it shows.
    fn subject(&self) -> (r: String)
        ensures
            r@ == subject(self@),
    {
        match self {
            Action::Run { program, .. } => program.clone(),
            Action::Capture { program, .. } => program.clone(),
            Action::MakeDir { path } => path.clone(),
            Action::WriteFile { path, .. } => path.clone(),
            Action::Symlink { link, .. } => link.clone(),
            Action::Probe { path } => path.clone(),
            Action::ReadFile { path } => path.clone(),
            Action::Sleep { .. } => String::new(),
            Action::Say { text } => text.clone(),
            Action::Ask { prompt } => prompt.clone(),
            Action::Finish { .. } => String::new(),
        }
    }
}

impl Step {
    /// Judges the answer to this step's action.
    pub fn settle(&self, event: &Event) -> (r: Result<Option<String>, Failure>)
        ensures
            settled_view(r) == settle(self@, event@),
    {
        match event {
            Event::Error { reason } => {
                if self.policy == Policy::Lenient {
                    Ok(None)
                } else {
                    match &self.action {
                        Action::Run { program, args } => Err(
                            Failure::CommandNotRun {
                                program: program.clone(),
                                args: copy_strings(args),
                                reason: reason.clone(),
                            },
                        ),
                        Action::Capture { program, args, .. } => Err(
                            Failure::CommandNotRun {
                                program: program.clone(),
                                args: copy_strings(args),
                                reason: reason.clone(),
                            },
                        ),
                        _ => Err(
                            Failure::Refused { path: self.action.subject(), reason: reason.clone() },
                        ),
                    }
                }
            },
            Event::Done { success, output } => {
                if self.policy == Policy::Strict && !*success {
                    match &self.action {
                        Action::Run { program, args } => Err(
                            Failure::CommandFailed {
                                program: program.clone(),
                                args: copy_strings(args),
                            },
                        ),
                        Action::Capture { program, args, .. } => Err(
                            Failure::CommandFailed {
                                program: program.clone(),
                                args: copy_strings(args),
                            },
                        ),
                        Action::Probe { path } => Err(Failure::Missing { path: path.clone() }),
                        _ => Err(
                            Failure::Refused { path: self.action.subject(), reason: String::new() },
                        ),
                    }
                } else {
                    Ok(Some(output.clone()))
                }
            },
        }
    }
}


impl Clone for Event {
    fn clone(&self) -> (r: Event)
        ensures
            r@ == self@,
    {
        match self {
            Event::Done { success, output } => Event::Done {
                success: *success,
                output: output.clone(),
            },
            Event::Error { reason } => Event::Error { reason: reason.clone() },
        }
    }
}

impl Clone for Step {
    fn clone(&self) -> (r: Step)
        ensures
            r@ == self@,
    {
        Step { action: self.action.clone(), policy: self.policy, slot: self.slot }
    }
}


/// A word between double quotes.
pub open spec fn quoted(word: Seq<char>) -> Seq<char> {
    "\""@ + word + "\""@
}

/// The words, each between double quotes, with a comma and a space
/// between one and the next.
pub open spec fn listed(words: Seq<Seq<char>>) -> Seq<char>
    decreases words.len(),
{
    if words.len() == 0 {
        Seq::empty()
    } else if words.len() == 1 {
        quoted(words[0])
    } else {
        listed(words.drop_last()) + ", "@ + quoted(words.last())
    }
}

/// The arguments of a command as a failure shows them: the quoted words
/// between square brackets.
pub open spec fn arguments_text(args: Seq<Seq<char>>) -> Seq<char> {
    "["@ + listed(args) + "]"@
}

/// What the user is told of a failure. The failure of a command names the
/// command and its arguments.
pub open spec fn description(failure: FailureView) -> Seq<char> {
    match failure {
        FailureView::CommandFailed { program, args } => "Command '"@ + program + "' with args "@
            + arguments_text(args) + " failed"@,
        FailureView::CommandNotRun { program, args, reason } => "Failed to execute '"@ + program
            + "' with args: "@ + arguments_text(args) + ": "@ + reason,
        FailureView::Missing { path } => path + " does not exist"@,
        FailureView::Refused { path, reason } => "Failed at "@ + path + ": "@ + reason,
        FailureView::BadDiskSize { text } => "Failed to parse disk size: '"@ + text + "'"@,
        FailureView::DiskTooLarge => "The disk is too large to be measured"@,
        FailureView::NoRoom => "The requested partitions do not fit on the disk"@,
        FailureView::NoUuid { device } => "Failed to get UUID for "@ + device,
        FailureView::NoFileName { path } => "Failed to get filename from "@ + path,
    }
}

/// Writes the arguments of a command as a failure shows them.
pub fn show_arguments(args: &Vec<String>) -> (r: String)
    ensures
        r@ == arguments_text(args.deep_view()),
{
    let mut out = "[".to_owned();
    let mut i: usize = 0;
    assert(args.deep_view().take(0) =~= Seq::<Seq<char>>::empty());
    assert("["@ + Seq::<char>::empty() =~= "["@);
    while i < args.len()
        invariant
            i <= args.len(),
            out@ == "["@ + listed(args.deep_view().take(i as int)),
        decreases args.len() - i,
    {
        let ghost before = args.deep_view().take(i as int);
        let ghost now = args.deep_view().take(i + 1);
        assert(now.drop_last() =~= before);
        assert(now.last() == args[i as int]@);
        if i > 0 {
            out.append(", ");
        }
        out.append("\"");
        out.append(args[i].as_str());
        out.append("\"");
        assert(out@ =~= "["@ + listed(now)) by {
            if i > 0 {
                assert(listed(now) == listed(before) + ", "@ + quoted(args[i as int]@));
            } else {
                assert(listed(now) == quoted(args[i as int]@));
                assert(listed(before) =~= Seq::<char>::empty());
            }
        }
        i += 1;
    }
    assert(args.deep_view().take(args.len() as int) =~= args.deep_view());
    out.append("]");
    out
}

impl Failure {
    /// What the user is told of this failure.
    pub fn describe(&self) -> (r: String)
        ensures
            r@ == description(self@),
    {
        match self {
            Failure::CommandFailed { program, args } => {
                let mut out = "Command '".to_owned();
                out.append(program.as_str());
                out.append("' with args ");
                out.append(show_arguments(args).as_str());
                out.append(" failed");
                out
            },
            Failure::CommandNotRun { program, args, reason } => {
                let mut out = "Failed to execute '".to_owned();
                out.append(program.as_str());
                out.append("' with args: ");
                out.append(show_arguments(args).as_str());
                out.append(": ");
                out.append(reason.as_str());
                out
            },
            Failure::Missing { path } => join2(path.as_str(), " does not exist"),
            Failure::Refused { path, reason } => {
                let mut out = "Failed at ".to_owned();
                out.append(path.as_str());
                out.append(": ");
                out.append(reason.as_str());
                out
            },
            Failure::BadDiskSize { text } => join3(
                "Failed to parse disk size: '",
                text.as_str(),
                "'",
            ),
            Failure::DiskTooLarge => "The disk is too large to be measured".to_owned(),
            Failure::NoRoom => "The requested partitions do not fit on the disk".to_owned(),
            Failure::NoUuid { device } => join2("Failed to get UUID for ", device.as_str()),
            Failure::NoFileName { path } => join2(
                "Failed to get filename from ",
                path.as_str(),
            ),
        }
    }
}

/// The list of words holds each of its words.
proof fn lemma_listed_holds(words: Seq<Seq<char>>, i: int)
    requires
        0 <= i < words.len(),
    ensures
        contains(listed(words), words[i]),
    decreases words.len(),
{
    let word = words[i];
    lemma_contains_itself(word);
    if words.len() == 1 {
        lemma_contains_within("\""@, word, "\""@, word);
    } else if i == words.len() - 1 {
        lemma_contains_within("\""@, word, "\""@, word);
        lemma_contains_within(
            listed(words.drop_last()) + ", "@,
            quoted(word),
            Seq::empty(),
            word,
        );
        assert(listed(words.drop_last()) + ", "@ + quoted(word) + Seq::<char>::empty() =~= listed(
            words,
        ));
    } else {
        assert(words.drop_last()[i] == word);
        lemma_listed_holds(words.drop_last(), i);
        lemma_contains_within(
            Seq::empty(),
            listed(words.drop_last()),
            ", "@ + quoted(words.last()),
            word,
        );
        assert(Seq::<char>::empty() + listed(words.drop_last()) + (", "@ + quoted(words.last()))
            =~= listed(words));
    }
}

/// A failure names what failed: where a strict command ends without
/// success or cannot be started, the failure that stops the pipeline is of
/// that command with its arguments, and what the user is told of it holds
/// the name of the command and each of its arguments.
pub proof fn failure_names_command(program: Seq<char>, args: Seq<Seq<char>>, event: EventView)
    requires
        settle(strict_run(program, args), event) is Err,
    ensures
        ({
            let failure = settle(strict_run(program, args), event)->Err_0;
            &&& failure is CommandFailed || failure is CommandNotRun
            &&& failure is CommandFailed ==> failure->CommandFailed_program == program
                && failure->CommandFailed_args == args
            &&& failure is CommandNotRun ==> failure->CommandNotRun_program == program
                && failure->CommandNotRun_args == args
            &&& contains(description(failure), program)
            &&& forall|i: int|
                0 <= i < args.len() ==> contains(description(failure), #[trigger] args[i])
        }),
{
    let failure = settle(strict_run(program, args), event)->Err_0;
    lemma_contains_itself(program);
    match failure {
        FailureView::CommandFailed { .. } => {
            let tail = "' with args "@ + arguments_text(args) + " failed"@;
            lemma_contains_within("Command '"@, program, tail, program);
            assert("Command '"@ + program + tail =~= description(failure));
        },
        FailureView::CommandNotRun { reason, .. } => {
            let tail = "' with args: "@ + arguments_text(args) + ": "@ + reason;
            lemma_contains_within("Failed to execute '"@, program, tail, program);
            assert("Failed to execute '"@ + program + tail =~= description(failure));
        },
        _ => {},
    }
    assert forall|i: int| 0 <= i < args.len() implies contains(
        description(failure),
        #[trigger] args[i],
    ) by {
        lemma_listed_holds(args, i);
        lemma_contains_within("["@, listed(args), "]"@, args[i]);
        match failure {
            FailureView::CommandFailed { .. } => {
                lemma_contains_within(
                    "Command '"@ + program + "' with args "@,
                    arguments_text(args),
                    " failed"@,
                    args[i],
                );
            },
            FailureView::CommandNotRun { reason, .. } => {
                lemma_contains_within(
                    "Failed to execute '"@ + program + "' with args: "@,
                    arguments_text(args),
                    ": "@ + reason,
                    args[i],
                );
                assert("Failed to execute '"@ + program + "' with args: "@ + arguments_text(args)
                    + (": "@ + reason) =~= description(failure));
            },
            _ => {},
        }
    }
}

} // verus!
