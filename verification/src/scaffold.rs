//! The build scaffold: one project on disk whose source file every build
//! overwrites. It is made once, and builds take turns on it.

use std::collections::VecDeque;
use vstd::prelude::*;
use vstd::string::StringExecFns;
use crate::local::{invocation, shell_call, Invocation, InvocationModel, Shell};

verus! {

/// Where the scaffold lies: a directory, and the project inside it.
#[derive(Clone, Debug, PartialEq, Eq)]
pub struct Layout {
    pub root: String,
    pub project: String,
}

/// A [`Layout`] with its names as sequences of characters.
pub struct LayoutModel {
    pub root: Seq<char>,
    pub project: Seq<char>,
}

impl View for Layout {
    type V = LayoutModel;

    open spec fn view(&self) -> LayoutModel {
        LayoutModel { root: self.root@, project: self.project@ }
    }
}

/// The source file that every build overwrites.
pub open spec fn entry_path(layout: LayoutModel) -> Seq<char> {
    layout.root + "/"@ + layout.project + "/src/main.rs"@
}

/// The command that builds and runs the project, from inside it.
pub open spec fn build_text(layout: LayoutModel) -> Seq<char> {
    "cd "@ + layout.root + " && cd "@ + layout.project + " && cargo run"@
}

/// The command that generates the project.
pub open spec fn generate_text(layout: LayoutModel) -> Seq<char> {
    "cargo new "@ + layout.root + "/"@ + layout.project
}

impl Layout {
    /// The project `bot` under the directory `builds`.
    pub fn standard() -> (layout: Layout)
        ensures
            layout@ == (LayoutModel { root: "builds"@, project: "bot"@ }),
    {
        Layout { root: String::from_str("builds"), project: String::from_str("bot") }
    }

    /// The path of the source file that every build overwrites.
    pub fn entry(&self) -> (path: String)
        ensures
            path@ == entry_path(self@),
    {
        let mut path = String::from_str(self.root.as_str());
        path.append("/");
        path.append(self.project.as_str());
        path.append("/src/main.rs");
        path
    }

    /// The text of the command that builds and runs the project.
    pub fn build(&self) -> (command: String)
        ensures
            command@ == build_text(self@),
    {
        let mut command = String::from_str("cd ");
        command.append(self.root.as_str());
        command.append(" && cd ");
        command.append(self.project.as_str());
        command.append(" && cargo run");
        command
    }

    /// The text of the command that generates the project.
    pub fn generate(&self) -> (command: String)
        ensures
            command@ == generate_text(self@),
    {
        let mut command = String::from_str("cargo new ");
        command.append(self.root.as_str());
        command.append("/");
        command.append(self.project.as_str());
        command
    }
}

/// One build: the source to write, the file to write it to, the command to
/// run after that, and the chat that waits for what the command prints.
#[derive(Clone, Debug, PartialEq, Eq)]
pub struct BuildJob {
    pub chat: i64,
    pub file: String,
    pub source: String,
    pub command: Invocation,
}

/// A [`BuildJob`] with its texts as sequences of characters.
pub struct BuildJobModel {
    pub chat: i64,
    pub file: Seq<char>,
    pub source: Seq<char>,
    pub command: InvocationModel,
}

impl View for BuildJob {
    type V = BuildJobModel;

    open spec fn view(&self) -> BuildJobModel {
        BuildJobModel {
            chat: self.chat,
            file: self.file@,
            source: self.source@,
            command: self.command@,
        }
    }
}

/// The build of `source` on the scaffold at `layout`, for `chat`.
pub open spec fn build_of(layout: LayoutModel, shell: Shell, chat: i64, source: Seq<char>)
    -> BuildJobModel {
    BuildJobModel {
        chat,
        file: entry_path(layout),
        source,
        command: shell_call(shell, build_text(layout)),
    }
}

/// Plans the build of `source` on the scaffold at `layout`, for `chat`.
pub fn build_job(layout: &Layout, shell: Shell, chat: i64, source: &str) -> (job: BuildJob)
    ensures
        job@ == build_of(layout@, shell, chat, source@),
{
    let command = layout.build();
    BuildJob {
        chat,
        file: layout.entry(),
        source: String::from_str(source),
        command: invocation(shell, command.as_str()),
    }
}

/// What has to be done before the first build.
#[derive(Clone, Debug, PartialEq, Eq)]
pub enum Bootstrap {
    /// Nothing: the scaffold is there.
    Keep,
    /// Make `directory`, then run `generate`.
    Create { directory: String, generate: Invocation },
}

/// A [`Bootstrap`] with its texts as sequences of characters.
pub enum BootstrapModel {
    Keep,
    Create { directory: Seq<char>, generate: InvocationModel },
}

impl View for Bootstrap {
    type V = BootstrapModel;

    open spec fn view(&self) -> BootstrapModel {
        match self {
            Bootstrap::Keep => BootstrapModel::Keep,
            Bootstrap::Create { directory, generate } => BootstrapModel::Create {
                directory: directory@,
                generate: generate@,
            },
        }
    }
}

/// The state of a scaffold, as the contracts see it.
pub struct ScaffoldModel {
    /// Whether the bootstrap has been gone through.
    pub prepared: bool,
    /// Whether a build is running.
    pub busy: bool,
    /// The builds that wait for their turn, the next one first.
    pub waiting: Seq<BuildJobModel>,
}

/// A scaffold on which nothing has happened yet.
pub open spec fn fresh() -> ScaffoldModel {
    ScaffoldModel { prepared: false, busy: false, waiting: Seq::empty() }
}

/// What the bootstrap asks for: the scaffold is made only on the first
/// time through, and only where it is not yet on disk.
pub open spec fn bootstrap_plan(
    state: ScaffoldModel,
    layout: LayoutModel,
    shell: Shell,
    present: bool,
) -> BootstrapModel {
    if state.prepared || present {
        BootstrapModel::Keep
    } else {
        BootstrapModel::Create {
            directory: layout.root,
            generate: shell_call(shell, generate_text(layout)),
        }
    }
}

/// The scaffold after a bootstrap.
pub open spec fn bootstrapped(state: ScaffoldModel) -> ScaffoldModel {
    ScaffoldModel { prepared: true, ..state }
}

/// Whether a build that is asked for now may start at once.
pub open spec fn admits(state: ScaffoldModel) -> bool {
    !state.busy
}

/// The scaffold after a build has been asked for: it runs if none was
/// running, else it waits behind those that wait already.
pub open spec fn submitted(state: ScaffoldModel, job: BuildJobModel) -> ScaffoldModel {
    if state.busy {
        ScaffoldModel { waiting: state.waiting.push(job), ..state }
    } else {
        ScaffoldModel { busy: true, ..state }
    }
}

/// The build that starts when the running one ends.
pub open spec fn successor(state: ScaffoldModel) -> Option<BuildJobModel> {
    if state.waiting.len() > 0 {
        Some(state.waiting[0])
    } else {
        None
    }
}

/// The scaffold after the running build has ended.
pub open spec fn finished(state: ScaffoldModel) -> ScaffoldModel {
    if state.waiting.len() > 0 {
        ScaffoldModel { busy: true, waiting: state.waiting.skip(1), ..state }
    } else {
        ScaffoldModel { busy: false, ..state }
    }
}

/// The view of a build that may be missing.
pub open spec fn job_view(job: Option<BuildJob>) -> Option<BuildJobModel> {
    match job {
        Some(j) => Some(j@),
        None => None,
    }
}

/// The one scaffold that all builds share. It lets one build run at a time
/// and keeps the others in the order in which they were asked for.
pub struct Scaffold {
    prepared: bool,
    /// The builds that wait behind the running one; `None` while none runs.
    line: Option<VecDeque<BuildJob>>,
}

impl View for Scaffold {
    type V = ScaffoldModel;

    closed spec fn view(&self) -> ScaffoldModel {
        ScaffoldModel {
            prepared: self.prepared,
            busy: self.line is Some,
            waiting: match self.line {
                Some(line) => Seq::new(line@.len(), |i: int| line@[i]@),
                None => Seq::empty(),
            },
        }
    }
}

impl Scaffold {
    /// A scaffold on which nothing has happened yet.
    pub fn new() -> (scaffold: Scaffold)
        ensures
            scaffold@ == fresh(),
    {
        Scaffold { prepared: false, line: None }
    }

    /// Says what has to be done before the first build, given whether the
    /// scaffold's directory is on disk. Every later call keeps what is
    /// there.
    pub fn bootstrap(&mut self, layout: &Layout, shell: Shell, present: bool) -> (plan: Bootstrap)
        ensures
            plan@ == bootstrap_plan(old(self)@, layout@, shell, present),
            final(self)@ == bootstrapped(old(self)@),
    {
        let first = !self.prepared;
        self.prepared = true;
        if first && !present {
            let generate = layout.generate();
            Bootstrap::Create {
                directory: String::from_str(layout.root.as_str()),
                generate: invocation(shell, generate.as_str()),
            }
        } else {
            Bootstrap::Keep
        }
    }

    /// Whether a build is running.
    pub fn busy(&self) -> (busy: bool)
        ensures
            busy == self@.busy,
    {
        self.line.is_some()
    }

    /// The number of builds that wait for their turn.
    pub fn waiting(&self) -> (count: usize)
        ensures
            count == self@.waiting.len(),
    {
        match &self.line {
            Some(line) => line.len(),
            None => 0,
        }
    }

    /// Asks for a build. Where none is running the job comes back, to be
    /// started now; else it is kept for later and nothing comes back.
    pub fn submit(&mut self, job: BuildJob) -> (start: Option<BuildJob>)
        ensures
            final(self)@ == submitted(old(self)@, job@),
            start == if admits(old(self)@) {
                Some(job)
            } else {
                None
            },
    {
        match self.line.take() {
            Some(mut line) => {
                line.push_back(job);
                self.line = Some(line);
                assert(self@.waiting =~= old(self)@.waiting.push(job@));
                None
            },
            None => {
                self.line = Some(VecDeque::new());
                assert(self@.waiting =~= old(self)@.waiting);
                Some(job)
            },
        }
    }

    /// Reports that the running build has ended. The build that waited
    /// longest comes back, to be started now; where none waits the scaffold
    /// is free again.
    pub fn finish(&mut self) -> (next: Option<BuildJob>)
        ensures
            final(self)@ == finished(old(self)@),
            job_view(next) == successor(old(self)@),
    {
        match self.line.take() {
            Some(mut line) => match line.pop_front() {
                Some(job) => {
                    self.line = Some(line);
                    assert(self@.waiting =~= old(self)@.waiting.skip(1));
                    Some(job)
                },
                None => {
                    assert(self@.waiting =~= old(self)@.waiting);
                    None
                },
            },
            None => None,
        }
    }
}

/// What can happen to a scaffold between two bootstraps.
pub enum Event {
    /// A build is asked for.
    Submit { job: BuildJobModel },
    /// The running build is reported to have ended.
    Finish,
}

/// The scaffold after `events`, on one that was fresh.
pub open spec fn replayed(events: Seq<Event>) -> ScaffoldModel
    decreases events.len(),
{
    if events.len() == 0 {
        fresh()
    } else {
        let before = replayed(events.drop_last());
        match events.last() {
            Event::Submit { job } => submitted(before, job),
            Event::Finish => finished(before),
        }
    }
}

/// The builds that `events` asked for, in order.
pub open spec fn asked(events: Seq<Event>) -> Seq<BuildJobModel>
    decreases events.len(),
{
    if events.len() == 0 {
        Seq::empty()
    } else {
        match events.last() {
            Event::Submit { job } => asked(events.drop_last()).push(job),
            Event::Finish => asked(events.drop_last()),
        }
    }
}

/// The builds that were handed out to be started during `events`, in order.
pub open spec fn started(events: Seq<Event>) -> Seq<BuildJobModel>
    decreases events.len(),
{
    if events.len() == 0 {
        Seq::empty()
    } else {
        let before = replayed(events.drop_last());
        let earlier = started(events.drop_last());
        match events.last() {
            Event::Submit { job } => if admits(before) {
                earlier.push(job)
            } else {
                earlier
            },
            Event::Finish => match successor(before) {
                Some(job) => earlier.push(job),
                None => earlier,
            },
        }
    }
}

/// The number of builds that were running when `events` reported an end.
pub open spec fn ended(events: Seq<Event>) -> nat
    decreases events.len(),
{
    if events.len() == 0 {
        0
    } else {
        let before = replayed(events.drop_last());
        match events.last() {
            Event::Submit { .. } => ended(events.drop_last()),
            Event::Finish => if before.busy {
                ended(events.drop_last()) + 1
            } else {
                ended(events.drop_last())
            },
        }
    }
}

/// Builds on one scaffold take turns. Whatever is asked for and whenever
/// builds end: the builds started so far, followed by those that wait, are
/// the builds asked for, in the order in which they were asked for; and of
/// the builds started all have ended but the one that runs, if one does. So
/// between the start of a build and its end no other build is started, and
/// what the scaffold holds and prints in that time is that build's own.
pub proof fn law_builds_take_turns(events: Seq<Event>)
    ensures
        started(events) + replayed(events).waiting == asked(events),
        started(events).len() == ended(events) + if replayed(events).busy {
            1nat
        } else {
            0nat
        },
        !replayed(events).busy ==> replayed(events).waiting.len() == 0,
    decreases events.len(),
{
    if events.len() == 0 {
        assert(started(events) + replayed(events).waiting =~= asked(events));
    } else {
        let earlier = events.drop_last();
        law_builds_take_turns(earlier);
        let before = replayed(earlier);
        match events.last() {
            Event::Submit { job } => {
                if before.busy {
                    assert(started(earlier) + before.waiting.push(job) =~= (started(earlier)
                        + before.waiting).push(job));
                } else {
                    assert(before.waiting =~= Seq::empty());
                    assert(started(earlier).push(job) + before.waiting =~= (started(earlier)
                        + before.waiting).push(job));
                }
            },
            Event::Finish => {
                if before.waiting.len() > 0 {
                    assert(started(earlier).push(before.waiting[0]) + before.waiting.skip(1)
                        =~= started(earlier) + before.waiting);
                }
            },
        }
    }
}

/// What a build met on the scaffold: the build that ended, and the source
/// that lay in the scaffold's file when it did.
pub struct Run {
    pub job: BuildJobModel,
    pub on_disk: Seq<char>,
}

/// The builds that ended during `events`, in order, each with what lay in
/// the scaffold's file at its end. A build writes its source when it is
/// started, so the file holds the source of the build started last; and of
/// the builds that run, the one started first ends first.
pub open spec fn runs(events: Seq<Event>) -> Seq<Run>
    decreases events.len(),
{
    if events.len() == 0 {
        Seq::empty()
    } else {
        let earlier = events.drop_last();
        match events.last() {
            Event::Submit { .. } => runs(earlier),
            Event::Finish => if replayed(earlier).busy {
                runs(earlier).push(
                    Run {
                        job: started(earlier)[ended(earlier) as int],
                        on_disk: started(earlier).last().source,
                    },
                )
            } else {
                runs(earlier)
            },
        }
    }
}

/// No build is run on another build's source. Whenever a build ends, what
/// lies in the scaffold's file, and so what was built and what was
/// printed, is the source that this build was asked for with.
pub proof fn law_each_build_runs_its_own_source(events: Seq<Event>)
    ensures
        runs(events).len() == ended(events),
        forall|i: int|
            0 <= i < runs(events).len() ==> (#[trigger] runs(events)[i]).on_disk == runs(
                events,
            )[i].job.source,
        forall|i: int|
            0 <= i < runs(events).len() ==> (#[trigger] runs(events)[i]).job == started(events)[i],
    decreases events.len(),
{
    if events.len() > 0 {
        let earlier = events.drop_last();
        law_each_build_runs_its_own_source(earlier);
        law_builds_take_turns(earlier);
        law_builds_take_turns(events);
        assert forall|i: int| 0 <= i < runs(events).len() implies (#[trigger] runs(
            events,
        )[i]).on_disk == runs(events)[i].job.source && runs(events)[i].job == started(events)[i] by {
            if i < runs(earlier).len() {
                assert(runs(events)[i] == runs(earlier)[i]);
                assert(started(events)[i] == started(earlier)[i]);
            }
        }
    }
}

/// Of two builds asked for at the same time the second waits until the
/// first has ended, and is then the next to start.
pub proof fn law_second_build_waits(first: BuildJobModel, second: BuildJobModel)
    ensures
        ({
            let alone = submitted(fresh(), first);
            let both = submitted(alone, second);
            let after = finished(both);
            &&& admits(fresh())
            &&& !admits(alone)
            &&& successor(both) == Some(second)
            &&& after.busy
            &&& successor(after) is None
            &&& finished(after) == fresh()
        }),
{
    let alone = submitted(fresh(), first);
    let both = submitted(alone, second);
    let after = finished(both);
    assert(after.waiting =~= Seq::empty());
    assert(finished(after).waiting =~= Seq::empty());
}

/// Bootstrapping again asks for nothing. After one bootstrap every other
/// one keeps what is there, whatever it finds on disk; and so does the
/// first, where the scaffold is on disk already.
pub proof fn law_bootstrap_is_idempotent(
    state: ScaffoldModel,
    layout: LayoutModel,
    shell: Shell,
    present: bool,
)
    ensures
        bootstrap_plan(bootstrapped(state), layout, shell, present) == BootstrapModel::Keep,
        bootstrap_plan(state, layout, shell, true) == BootstrapModel::Keep,
        bootstrapped(bootstrapped(state)) == bootstrapped(state),
{
}

} // verus!
