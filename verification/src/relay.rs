//! The dispatcher: from a message to what is to be done about it.

use vstd::prelude::*;
use vstd::string::StringExecFns;
use crate::format::{usage, usage_text};
use crate::gate::authorize;
use crate::local::{invocation, shell_call, Invocation, InvocationModel, Shell};
use crate::message::{Inbound, InboundModel, Markup, Outbound, OutboundModel};
use crate::remote::{request, submission, Request, RequestModel, ENDPOINT, RUST};
use crate::scaffold::{build_job, build_of, BuildJob, BuildJobModel, Layout, LayoutModel};
use crate::text::{chars_of, occurs_at, remove_all, without};

verus! {

/// One way to have a payload executed.
#[derive(Clone, Debug, PartialEq, Eq)]
pub enum Backend {
    /// Post it to a service, as a program in the language `language`.
    Remote { endpoint: String, language: String },
    /// Hand it to the shell of this machine, as a command.
    Shell { shell: Shell },
    /// Write it into the scaffold at `layout`, as a program, and have the
    /// shell build and run that.
    Build { layout: Layout, shell: Shell },
}

/// A [`Backend`] with its texts as sequences of characters.
pub enum BackendModel {
    Remote { endpoint: Seq<char>, language: Seq<char> },
    Shell { shell: Shell },
    Build { layout: LayoutModel, shell: Shell },
}

impl View for Backend {
    type V = BackendModel;

    open spec fn view(&self) -> BackendModel {
        match self {
            Backend::Remote { endpoint, language } => BackendModel::Remote {
                endpoint: endpoint@,
                language: language@,
            },
            Backend::Shell { shell } => BackendModel::Shell { shell: *shell },
            Backend::Build { layout, shell } => BackendModel::Build {
                layout: layout@,
                shell: *shell,
            },
        }
    }
}

/// A family of commands: the prefix that a message must begin with, and
/// the backend that runs what follows.
#[derive(Clone, Debug, PartialEq, Eq)]
pub struct Route {
    pub prefix: String,
    pub backend: Backend,
}

/// A [`Route`] with its texts as sequences of characters.
pub struct RouteModel {
    pub prefix: Seq<char>,
    pub backend: BackendModel,
}

impl View for Route {
    type V = RouteModel;

    open spec fn view(&self) -> RouteModel {
        RouteModel { prefix: self.prefix@, backend: self.backend@ }
    }
}

/// What stays the same from message to message: who may command, and
/// which commands there are.
#[derive(Clone, Debug, PartialEq, Eq)]
pub struct Relay {
    pub allowed: Vec<i64>,
    pub routes: Vec<Route>,
}

/// A [`Relay`] with its texts as sequences of characters.
pub struct RelayModel {
    pub allowed: Seq<i64>,
    pub routes: Seq<RouteModel>,
}

impl View for Relay {
    type V = RelayModel;

    open spec fn view(&self) -> RelayModel {
        RelayModel {
            allowed: self.allowed@,
            routes: Seq::new(self.routes@.len(), |i: int| self.routes@[i]@),
        }
    }
}

/// Work that only the caller can do. When it is done the caller reports
/// how it ended, and gets the reply.
#[derive(Clone, Debug, PartialEq, Eq)]
pub enum Work {
    /// Post `request`; the reply goes to `chat`.
    Post { chat: i64, request: Request },
    /// Run `command`; the reply goes to `chat`.
    Run { chat: i64, command: Invocation },
    /// Take a turn on the scaffold, write the source and run the build.
    Build { job: BuildJob },
}

/// A [`Work`] with its texts as sequences of characters.
pub enum WorkModel {
    Post { chat: i64, request: RequestModel },
    Run { chat: i64, command: InvocationModel },
    Build { job: BuildJobModel },
}

impl View for Work {
    type V = WorkModel;

    open spec fn view(&self) -> WorkModel {
        match self {
            Work::Post { chat, request } => WorkModel::Post { chat: *chat, request: request@ },
            Work::Run { chat, command } => WorkModel::Run { chat: *chat, command: command@ },
            Work::Build { job } => WorkModel::Build { job: job@ },
        }
    }
}

/// What is to be done about a message.
#[derive(Clone, Debug, PartialEq, Eq)]
pub enum Step {
    /// Nothing, and nothing is sent.
    Ignore,
    /// Send this, and nothing else.
    Reply { message: Outbound },
    /// Have a backend run the payload.
    Invoke { work: Work },
}

/// A [`Step`] with its texts as sequences of characters.
pub enum StepModel {
    Ignore,
    Reply { message: OutboundModel },
    Invoke { work: WorkModel },
}

impl View for Step {
    type V = StepModel;

    open spec fn view(&self) -> StepModel {
        match self {
            Step::Ignore => StepModel::Ignore,
            Step::Reply { message } => StepModel::Reply { message: message@ },
            Step::Invoke { work } => StepModel::Invoke { work: work@ },
        }
    }
}

/// Whether `text` belongs to the command family with this prefix: it begins
/// with the prefix, letter for letter. What follows the prefix is not
/// looked at, so `/shutdown` belongs to `/sh`.
pub open spec fn matches(text: Seq<char>, prefix: Seq<char>) -> bool {
    prefix.is_prefix_of(text)
}

/// Whether route `i` is the first whose prefix `text` begins with.
pub open spec fn is_first_match(routes: Seq<RouteModel>, text: Seq<char>, i: int) -> bool {
    &&& 0 <= i < routes.len()
    &&& matches(text, routes[i].prefix)
    &&& forall|j: int| 0 <= j < i ==> !matches(text, #[trigger] routes[j].prefix)
}

/// The first route whose prefix `text` begins with, if there is one.
pub open spec fn first_match(routes: Seq<RouteModel>, text: Seq<char>) -> Option<int> {
    if exists|i: int| is_first_match(routes, text, i) {
        Some(choose|i: int| is_first_match(routes, text, i))
    } else {
        None
    }
}

/// What a command is about: the text without its prefix, wherever in the
/// text the prefix stands. Blanks and line breaks are kept as they are.
pub open spec fn payload_of(text: Seq<char>, prefix: Seq<char>) -> Seq<char> {
    without(text, prefix)
}

/// The work that has `backend` run `payload` for `chat`.
pub open spec fn work_for(backend: BackendModel, chat: i64, payload: Seq<char>) -> WorkModel {
    match backend {
        BackendModel::Remote { endpoint, language } => WorkModel::Post {
            chat,
            request: submission(endpoint, language, payload),
        },
        BackendModel::Shell { shell } => WorkModel::Run {
            chat,
            command: shell_call(shell, payload),
        },
        BackendModel::Build { layout, shell } => WorkModel::Build {
            job: build_of(layout, shell, chat, payload),
        },
    }
}

/// What a matched command leads to. A sender who is unknown or not allowed
/// gets nothing, not even a refusal. A command with nothing to run gets
/// told how it is used. Any other goes to its backend.
pub open spec fn commanded(relay: RelayModel, route: RouteModel, inbound: InboundModel, text: Seq<char>)
    -> StepModel {
    if !(inbound.sender is Some && relay.allowed.contains(inbound.sender->0)) {
        StepModel::Ignore
    } else if payload_of(text, route.prefix).len() == 0 {
        StepModel::Reply {
            message: OutboundModel {
                chat: inbound.chat,
                text: usage_text(route.prefix),
                markup: Markup::Plain,
            },
        }
    } else {
        StepModel::Invoke {
            work: work_for(route.backend, inbound.chat, payload_of(text, route.prefix)),
        }
    }
}

/// What is to be done about a message. One without a text is no command,
/// nor is one whose text begins with no route's prefix; where several
/// prefixes fit, the first route has it.
pub open spec fn planned(relay: RelayModel, inbound: InboundModel) -> StepModel {
    match inbound.text {
        None => StepModel::Ignore,
        Some(text) => match first_match(relay.routes, text) {
            None => StepModel::Ignore,
            Some(i) => commanded(relay, relay.routes[i], inbound, text),
        },
    }
}

/// Whether `text` belongs to the command family with this prefix.
pub fn is_valid(text: &str, prefix: &str) -> (found: bool)
    ensures
        found == matches(text@, prefix@),
{
    crate::text::starts_with(text, prefix)
}

/// What a command is about: `text` without `prefix`.
pub fn payload(text: &str, prefix: &str) -> (rest: String)
    ensures
        rest@ == payload_of(text@, prefix@),
{
    remove_all(text, prefix)
}

impl Backend {
    /// The work that has this backend run `payload` for `chat`.
    pub fn work(&self, chat: i64, payload: &str) -> (work: Work)
        ensures
            work@ == work_for(self@, chat, payload@),
    {
        match self {
            Backend::Remote { endpoint, language } => Work::Post {
                chat,
                request: request(endpoint.as_str(), language.as_str(), payload),
            },
            Backend::Shell { shell } => Work::Run { chat, command: invocation(*shell, payload) },
            Backend::Build { layout, shell } => Work::Build {
                job: build_job(layout, *shell, chat, payload),
            },
        }
    }
}

/// The routes of the deployment that runs everything on this machine:
/// `/sh` for a shell command, `/rustexec` for a program to build and run.
pub open spec fn local_routes(shell: Shell) -> Seq<RouteModel> {
    seq![
        RouteModel { prefix: "/sh"@, backend: BackendModel::Shell { shell } },
        RouteModel {
            prefix: "/rustexec"@,
            backend: BackendModel::Build {
                layout: LayoutModel { root: "builds"@, project: "bot"@ },
                shell,
            },
        },
    ]
}

/// The routes of the deployment that has a service run the programs:
/// `/rustexec`, posted as Rust.
pub open spec fn remote_routes() -> Seq<RouteModel> {
    seq![
        RouteModel {
            prefix: "/rustexec"@,
            backend: BackendModel::Remote { endpoint: ENDPOINT@, language: RUST@ },
        },
    ]
}

impl Relay {
    /// The relay that runs everything on this machine.
    pub fn local(allowed: Vec<i64>, shell: Shell) -> (relay: Relay)
        ensures
            relay@ == (RelayModel { allowed: allowed@, routes: local_routes(shell) }),
    {
        let mut routes: Vec<Route> = Vec::new();
        routes.push(Route { prefix: String::from_str("/sh"), backend: Backend::Shell { shell } });
        routes.push(
            Route {
                prefix: String::from_str("/rustexec"),
                backend: Backend::Build { layout: Layout::standard(), shell },
            },
        );
        let relay = Relay { allowed, routes };
        assert(relay@.routes =~= local_routes(shell));
        relay
    }

    /// The relay that has a service run the programs.
    pub fn remote(allowed: Vec<i64>) -> (relay: Relay)
        ensures
            relay@ == (RelayModel { allowed: allowed@, routes: remote_routes() }),
    {
        let mut routes: Vec<Route> = Vec::new();
        routes.push(
            Route {
                prefix: String::from_str("/rustexec"),
                backend: Backend::Remote {
                    endpoint: String::from_str(ENDPOINT),
                    language: String::from_str(RUST),
                },
            },
        );
        let relay = Relay { allowed, routes };
        assert(relay@.routes =~= remote_routes());
        relay
    }

    /// Finds the first route whose prefix `text` begins with.
    pub fn route(&self, text: &str) -> (found: Option<usize>)
        ensures
            match found {
                Some(i) => first_match(self@.routes, text@) == Some(i as int),
                None => first_match(self@.routes, text@) is None,
            },
    {
        let chars = chars_of(text);
        let mut i: usize = 0;
        while i < self.routes.len()
            invariant
                i <= self.routes.len(),
                chars@ == text@,
                forall|j: int| 0 <= j < i ==> !matches(text@, #[trigger] self@.routes[j].prefix),
            decreases self.routes.len() - i,
        {
            let prefix = chars_of(self.routes[i].prefix.as_str());
            assert(chars@.skip(0) =~= chars@);
            if occurs_at(&chars, 0, &prefix) {
                proof {
                    assert(is_first_match(self@.routes, text@, i as int));
                    lemma_first_match_is_unique(self@.routes, text@, i as int);
                }
                return Some(i);
            }
            i += 1;
        }
        None
    }

    /// Decides what is to be done about a message.
    pub fn dispatch(&self, inbound: &Inbound) -> (step: Step)
        ensures
            step@ == planned(self@, inbound@),
    {
        let text = match &inbound.text {
            Some(text) => text,
            None => { return Step::Ignore; },
        };
        let route = match self.route(text.as_str()) {
            Some(i) => &self.routes[i],
            None => { return Step::Ignore; },
        };
        let sender = match inbound.sender {
            Some(sender) => sender,
            None => { return Step::Ignore; },
        };
        if !authorize(sender, &self.allowed) {
            return Step::Ignore;
        }
        let rest = payload(text.as_str(), route.prefix.as_str());
        if rest.as_str().is_empty() {
            return Step::Reply {
                message: Outbound {
                    chat: inbound.chat,
                    text: usage(route.prefix.as_str()),
                    markup: Markup::Plain,
                },
            };
        }
        Step::Invoke { work: route.backend.work(inbound.chat, rest.as_str()) }
    }
}

/// A message whose text begins with the prefix of no route is no command:
/// nothing is run and nothing is sent.
pub proof fn law_unmatched_is_ignored(relay: RelayModel, inbound: InboundModel)
    requires
        inbound.text is Some ==> forall|i: int|
            0 <= i < relay.routes.len() ==> !matches(
                inbound.text->0,
                #[trigger] relay.routes[i].prefix,
            ),
    ensures
        planned(relay, inbound) == StepModel::Ignore,
{
    if inbound.text is Some {
        let text = inbound.text->0;
        if exists|i: int| is_first_match(relay.routes, text, i) {
            let i = choose|i: int| is_first_match(relay.routes, text, i);
            assert(matches(text, relay.routes[i].prefix));
        }
    }
}

/// A sender who is allowed and sends a command with nothing to run is told
/// how the command is used, and no backend is called.
pub proof fn law_empty_payload_gets_usage(relay: RelayModel, inbound: InboundModel, i: int)
    requires
        inbound.text is Some,
        is_first_match(relay.routes, inbound.text->0, i),
        inbound.sender is Some,
        relay.allowed.contains(inbound.sender->0),
        payload_of(inbound.text->0, relay.routes[i].prefix).len() == 0,
    ensures
        planned(relay, inbound) == (StepModel::Reply {
            message: OutboundModel {
                chat: inbound.chat,
                text: usage_text(relay.routes[i].prefix),
                markup: Markup::Plain,
            },
        }),
{
    lemma_first_match_is_unique(relay.routes, inbound.text->0, i);
}

/// A sender who is not on the allow-list gets no reply and has nothing
/// run, whatever the message holds.
pub proof fn law_unauthorized_is_ignored(relay: RelayModel, inbound: InboundModel)
    requires
        inbound.sender is None || !relay.allowed.contains(inbound.sender->0),
    ensures
        planned(relay, inbound) == StepModel::Ignore,
{
}

/// Where the prefix does not come again in what follows it, the payload
/// is exactly what follows it.
pub proof fn law_payload_is_the_remainder(prefix: Seq<char>, rest: Seq<char>)
    requires
        prefix.len() > 0,
        without(rest, prefix) == rest,
    ensures
        payload_of(prefix + rest, prefix) == rest,
{
    let text = prefix + rest;
    assert(text.subrange(0, prefix.len() as int) =~= prefix);
    assert(text.skip(prefix.len() as int) =~= rest);
}

/// Only one route can be the first that fits.
pub proof fn lemma_first_match_is_unique(routes: Seq<RouteModel>, text: Seq<char>, i: int)
    requires
        is_first_match(routes, text, i),
    ensures
        first_match(routes, text) == Some(i),
{
    let chosen = choose|k: int| is_first_match(routes, text, k);
    assert(is_first_match(routes, text, chosen));
    if chosen < i {
        assert(!matches(text, routes[chosen].prefix));
    }
    if i < chosen {
        assert(!matches(text, routes[i].prefix));
    }
}

} // verus!
