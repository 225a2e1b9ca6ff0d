//! The two-pass link: section sizes measured on the first artifact become
//! symbols of the second link.

use vstd::prelude::*;

pub mod output;
pub mod size;

pub use self::output::{
    lookup_output, output, output_from_files, response_files, LinkError, Lookup,
};
pub use self::size::{defsym, defsym_args, run_size, section, SectionSize, SectionSizeTable};

verus! {

/// The arguments of the link tool: the flavour, the linker script, the
/// arguments of the invocation, the symbol definitions.
pub open spec fn linker_args_of(script: Seq<char>, args: Seq<Seq<char>>, syms: Seq<Seq<char>>) -> Seq<
    Seq<char>,
> {
    seq!["-flavor"@, "gnu"@, "-T"@, script] + args + syms
}

/// The arguments of the size tool: all sections of the artifact, in the
/// tabular form.
pub open spec fn size_args_of(artifact: Seq<char>) -> Seq<Seq<char>> {
    seq!["-A"@, artifact]
}

/// Returns the invocation of the link tool with the linker script, the
/// arguments and the symbol definitions.
pub fn linker_command(tool: &str, script: &str, args: &Vec<String>, syms: &Vec<String>) -> (command:
    crate::process::CommandLine)
    ensures
        command.program@ == tool@,
        command.arguments() == linker_args_of(
            script@,
            crate::text::views(args@),
            crate::text::views(syms@),
        ),
{
    let mut command = crate::process::CommandLine::new(tool);
    command.arg("-flavor");
    command.arg("gnu");
    command.arg("-T");
    command.arg(script);
    assert(command.arguments() =~= seq!["-flavor"@, "gnu"@, "-T"@, script@]);
    command.args(args);
    command.args(syms);
    command
}

/// Returns the invocation of the size tool on the artifact.
pub fn size_command(tool: &str, artifact: &str) -> (command: crate::process::CommandLine)
    ensures
        command.program@ == tool@,
        command.arguments() == size_args_of(artifact@),
{
    let mut command = crate::process::CommandLine::new(tool);
    command.arg("-A");
    command.arg(artifact);
    assert(command.arguments() =~= size_args_of(artifact@));
    command
}

/// The second pass is invoked as the first, with the second linker script
/// in place of the first and the symbol definitions behind the arguments.
pub proof fn lemma_pass_two_arguments(
    script_one: Seq<char>,
    script_two: Seq<char>,
    args: Seq<Seq<char>>,
    syms: Seq<Seq<char>>,
)
    ensures
        linker_args_of(script_two, args, syms) == linker_args_of(
            script_one,
            args,
            Seq::empty(),
        ).update(3, script_two) + syms,
        linker_args_of(script_one, args, Seq::empty()).len() == 4 + args.len(),
        linker_args_of(script_one, args, Seq::empty())[3] == script_one,
        linker_args_of(script_two, args, syms).subrange(4, 4 + args.len() as int) == args,
        linker_args_of(script_two, args, syms).skip(4 + args.len() as int) == syms,
{
    let one = linker_args_of(script_one, args, Seq::empty());
    let two = linker_args_of(script_two, args, syms);
    assert(two =~= one.update(3, script_two) + syms);
    assert(two.subrange(4, 4 + args.len() as int) =~= args);
    assert(two.skip(4 + args.len() as int) =~= syms);
}

/// What one link needs: the tools, the two linker scripts, the arguments of
/// the invocation and the artifact that they name.
#[derive(Debug)]
pub struct LinkJob {
    /// The link tool.
    pub linker: String,
    /// The size tool.
    pub size_tool: String,
    /// The linker script that does without the section sizes.
    pub script_one: String,
    /// The linker script that refers to the section sizes.
    pub script_two: String,
    /// The arguments of the invocation.
    pub args: Vec<String>,
    /// The artifact that the arguments name.
    pub output: String,
}

/// How far a link has come.
#[derive(Clone, Copy, Debug, PartialEq, Eq, Structural)]
pub enum LinkStage {
    /// Nothing has been run.
    Ready,
    /// The first pass is running.
    PassOne,
    /// The size tool is running on the artifact of the first pass.
    Measuring,
    /// The second pass is running.
    PassTwo,
    /// The second pass has ended well.
    Done,
    /// A tool has failed or the operator stopped the link.
    Failed,
}

/// What the program reports to the driver.
#[derive(Debug)]
pub enum LinkEvent {
    /// The link was asked for.
    Start,
    /// The link tool has exited; this is how its run is judged.
    Linked(Result<(), crate::utils::Failure>),
    /// The size tool has exited; this is its report, where it ended well.
    Measured(Result<String, crate::utils::Failure>),
}

/// What the driver asks the program to do next.
#[derive(Debug)]
pub enum LinkAction {
    /// Run the link tool, wait for its end and report how it ended.
    Link(crate::process::CommandLine),
    /// Run the size tool, wait for its end and report what it printed.
    Measure(crate::process::CommandLine),
    /// Return from the link with this result.
    Finish(Result<(), crate::utils::Failure>),
    /// The event does not belong to the stage: do nothing.
    Nothing,
}

/// The driver of one two-pass link.
#[derive(Debug)]
pub struct LinkDriver {
    /// What the link needs.
    pub job: LinkJob,
    /// How far the link has come.
    pub stage: LinkStage,
}

/// The stage after an event.
pub open spec fn stage_after(stage: LinkStage, event: LinkEvent) -> LinkStage {
    match (stage, event) {
        (LinkStage::Ready, LinkEvent::Start) => LinkStage::PassOne,
        (LinkStage::PassOne, LinkEvent::Linked(Ok(_))) => LinkStage::Measuring,
        (LinkStage::PassOne, LinkEvent::Linked(Err(_))) => LinkStage::Failed,
        (LinkStage::Measuring, LinkEvent::Measured(Ok(_))) => LinkStage::PassTwo,
        (LinkStage::Measuring, LinkEvent::Measured(Err(_))) => LinkStage::Failed,
        (LinkStage::PassTwo, LinkEvent::Linked(Ok(_))) => LinkStage::Done,
        (LinkStage::PassTwo, LinkEvent::Linked(Err(_))) => LinkStage::Failed,
        _ => stage,
    }
}

/// Whether `action` is the driver's answer to `event` at `stage`.
pub open spec fn answers(job: LinkJob, stage: LinkStage, event: LinkEvent, action: LinkAction) -> bool {
    match (stage, event) {
        (LinkStage::Ready, LinkEvent::Start) => action matches LinkAction::Link(command)
            && command.program@ == job.linker@ && command.arguments() == linker_args_of(
            job.script_one@,
            crate::text::views(job.args@),
            Seq::empty(),
        ),
        (LinkStage::PassOne, LinkEvent::Linked(Ok(_))) => action matches LinkAction::Measure(
            command,
        ) && command.program@ == job.size_tool@ && command.arguments() == size_args_of(
            job.output@,
        ),
        (LinkStage::PassOne, LinkEvent::Linked(Err(failure))) => action == LinkAction::Finish(
            Err(failure),
        ),
        (LinkStage::Measuring, LinkEvent::Measured(Ok(report))) => action matches LinkAction::Link(
            command,
        ) && command.program@ == job.linker@ && command.arguments() == linker_args_of(
            job.script_two@,
            crate::text::views(job.args@),
            crate::linker::size::defsyms_of(crate::linker::size::table_of(crate::text::lines_of(report@))),
        ),
        (LinkStage::Measuring, LinkEvent::Measured(Err(failure))) => action == LinkAction::Finish(
            Err(failure),
        ),
        (LinkStage::PassTwo, LinkEvent::Linked(result)) => action == LinkAction::Finish(result),
        _ => action is Nothing,
    }
}

impl LinkJob {
    /// Sets a link up. The artifact is determined from the arguments and,
    /// where these have no output flag, from the texts of the response files
    /// that they name; a link whose artifact cannot be determined is refused
    /// before anything is run.
    pub fn new(
        linker: String,
        size_tool: String,
        script_one: String,
        script_two: String,
        args: Vec<String>,
        files: &Vec<String>,
    ) -> (job: Result<LinkJob, crate::linker::output::LinkError>)
        ensures
            match crate::linker::output::output_of(crate::text::views(args@), crate::text::views(files@)) {
                Some(artifact) => job matches Ok(job) && job.linker == linker && job.size_tool
                    == size_tool && job.script_one == script_one && job.script_two == script_two
                    && job.args == args && job.output@ == artifact,
                None => job matches Err(error) && error == crate::linker::output::LinkError::OutputNotDetermined,
            },
    {
        match crate::linker::output::output(&args, files) {
            Ok(artifact) => Ok(
                LinkJob { linker, size_tool, script_one, script_two, args, output: artifact },
            ),
            Err(error) => Err(error),
        }
    }

    /// Returns the invocation of the first pass.
    pub fn pass_one(&self) -> (command: crate::process::CommandLine)
        ensures
            command.program@ == self.linker@,
            command.arguments() == linker_args_of(
                self.script_one@,
                crate::text::views(self.args@),
                Seq::empty(),
            ),
    {
        let none: Vec<String> = Vec::new();
        assert(crate::text::views(none@) =~= Seq::<Seq<char>>::empty());
        linker_command(self.linker.as_str(), self.script_one.as_str(), &self.args, &none)
    }

    /// Returns the invocation of the size tool on the artifact.
    pub fn measure(&self) -> (command: crate::process::CommandLine)
        ensures
            command.program@ == self.size_tool@,
            command.arguments() == size_args_of(self.output@),
    {
        size_command(self.size_tool.as_str(), self.output.as_str())
    }

    /// Returns the invocation of the second pass, with the symbols that the
    /// report of the size tool gives.
    pub fn pass_two(&self, report: &str) -> (command: crate::process::CommandLine)
        ensures
            command.program@ == self.linker@,
            command.arguments() == linker_args_of(
                self.script_two@,
                crate::text::views(self.args@),
                crate::linker::size::defsyms_of(crate::linker::size::table_of(crate::text::lines_of(report@))),
            ),
    {
        let table = crate::linker::size::run_size(report);
        let syms = crate::linker::size::defsym_args(&table);
        linker_command(self.linker.as_str(), self.script_two.as_str(), &self.args, &syms)
    }
}

impl LinkDriver {
    /// Returns the driver of a link that has not begun.
    pub fn new(job: LinkJob) -> (driver: LinkDriver)
        ensures
            driver.job == job,
            driver.stage == LinkStage::Ready,
    {
        LinkDriver { job, stage: LinkStage::Ready }
    }

    /// Takes the event in and returns the driver after it with the action to
    /// perform.
    pub fn step(self, event: LinkEvent) -> (after: (LinkDriver, LinkAction))
        ensures
            after.0.job == self.job,
            after.0.stage == stage_after(self.stage, event),
            answers(self.job, self.stage, event, after.1),
    {
        let LinkDriver { job, stage } = self;
        match (stage, event) {
            (LinkStage::Ready, LinkEvent::Start) => {
                let command = job.pass_one();
                (LinkDriver { job, stage: LinkStage::PassOne }, LinkAction::Link(command))
            },
            (LinkStage::PassOne, LinkEvent::Linked(Ok(_))) => {
                let command = job.measure();
                (LinkDriver { job, stage: LinkStage::Measuring }, LinkAction::Measure(command))
            },
            (LinkStage::PassOne, LinkEvent::Linked(Err(failure))) => (
                LinkDriver { job, stage: LinkStage::Failed },
                LinkAction::Finish(Err(failure)),
            ),
            (LinkStage::Measuring, LinkEvent::Measured(Ok(report))) => {
                let command = job.pass_two(report.as_str());
                (LinkDriver { job, stage: LinkStage::PassTwo }, LinkAction::Link(command))
            },
            (LinkStage::Measuring, LinkEvent::Measured(Err(failure))) => (
                LinkDriver { job, stage: LinkStage::Failed },
                LinkAction::Finish(Err(failure)),
            ),
            (LinkStage::PassTwo, LinkEvent::Linked(Ok(done))) => (
                LinkDriver { job, stage: LinkStage::Done },
                LinkAction::Finish(Ok(done)),
            ),
            (LinkStage::PassTwo, LinkEvent::Linked(Err(failure))) => (
                LinkDriver { job, stage: LinkStage::Failed },
                LinkAction::Finish(Err(failure)),
            ),
            (stage, _) => (LinkDriver { job, stage }, LinkAction::Nothing),
        }
    }
}

/// The stage that a link has reached after the first `count` events.
pub open spec fn stage_at(events: Seq<LinkEvent>, count: int) -> LinkStage
    decreases count,
{
    if count <= 0 {
        LinkStage::Ready
    } else {
        stage_after(stage_at(events, count - 1), events[count - 1])
    }
}

/// Whether one of the first `count` events reported, while the first pass
/// was running, that the link tool had exited well.
pub open spec fn first_pass_over(events: Seq<LinkEvent>, count: int) -> bool {
    exists|at: int|
        0 <= at < count && stage_at(events, at) == LinkStage::PassOne && #[trigger] events[at]
            matches LinkEvent::Linked(Ok(_))
}

/// The driver runs one tool at a time. It leaves a stage in which a tool
/// runs only on the report that this tool has exited, so whatever it orders
/// next starts after that exit. The second pass in particular is ordered
/// only on the report of the size tool, and that tool only on the report
/// that the first pass had exited well.
pub proof fn lemma_passes_follow_each_other(events: Seq<LinkEvent>, count: int)
    requires
        0 <= count <= events.len(),
    ensures
        (stage_at(events, count) == LinkStage::Measuring || stage_at(events, count)
            == LinkStage::PassTwo || stage_at(events, count) == LinkStage::Done)
            ==> first_pass_over(events, count),
        count > 0 && stage_at(events, count) == LinkStage::PassTwo && stage_at(events, count - 1)
            != LinkStage::PassTwo ==> stage_at(events, count - 1) == LinkStage::Measuring
            && events[count - 1] matches LinkEvent::Measured(Ok(_)),
        count > 0 && stage_at(events, count - 1) == LinkStage::PassOne && stage_at(events, count)
            != LinkStage::PassOne ==> events[count - 1] is Linked,
        count > 0 && stage_at(events, count - 1) == LinkStage::PassTwo && stage_at(events, count)
            != LinkStage::PassTwo ==> events[count - 1] is Linked,
        count > 0 && stage_at(events, count - 1) == LinkStage::Measuring && stage_at(events, count)
            != LinkStage::Measuring ==> events[count - 1] is Measured,
    decreases count,
{
    if count > 0 {
        lemma_passes_follow_each_other(events, count - 1);
        let before = stage_at(events, count - 1);
        let now = stage_at(events, count);
        if now == LinkStage::Measuring || now == LinkStage::PassTwo || now == LinkStage::Done {
            if before == LinkStage::PassOne {
                assert(events[count - 1] matches LinkEvent::Linked(Ok(_)));
                assert(first_pass_over(events, count));
            } else {
                assert(first_pass_over(events, count - 1));
                let at = choose|at: int|
                    0 <= at < count - 1 && stage_at(events, at) == LinkStage::PassOne
                        && #[trigger] events[at] matches LinkEvent::Linked(Ok(_));
                assert(0 <= at < count && stage_at(events, at) == LinkStage::PassOne && events[at]
                    matches LinkEvent::Linked(Ok(_)));
            }
        }
    }
}

} // verus!
