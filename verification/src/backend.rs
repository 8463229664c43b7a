//! The background worker: the commands it takes, the events it answers
//! with, and the requests it has the gateway make in between.
//!
//! The worker handles one command to the end before it takes the next. It
//! never waits itself: each step names the one request to make next, and
//! the answer to that request is the input of the following step. A request
//! for the runners of several groups is answered group by group, in the
//! order in which the groups were named, and merged in that order.

use crate::api::ApiRepository;
use crate::api::ApiRunner;
use crate::api::ApiRunnerGroup;
use crate::api::ApiRunnerGroupCreate;
use crate::api::ApiRepositoriesResponse;
use crate::api::GroupCreateView;
use crate::api::RunnersGroupResponse;
use crate::api::RunnersResponse;
use crate::config::Config;
use crate::runners::reported_runner;
use crate::runners::reported_status;
use crate::runners::Runner;
use crate::runners::RunnerGroup;
use crate::runners::RunnerGroupView;
use crate::runners::RunnerView;
use crate::text::texts;
use vstd::prelude::*;

verus! {

/// A command from the interactive loop to the worker.
#[derive(Debug, Clone)]
pub enum BackendMessage {
    FetchRunners,
    FetchGroups,
    AddLabel(usize, String),
    DeleteLabel(usize, String),
    ChangeGroup(usize, String),
    AddRepoToGroup(String, usize),
    GetGroupRepos(usize),
    CreateRunnerGroup(Box<ApiRunnerGroupCreate>),
}

/// What is compared of a command.
pub enum CommandView {
    FetchRunners,
    FetchGroups,
    AddLabel(usize, Seq<char>),
    DeleteLabel(usize, Seq<char>),
    ChangeGroup(usize, Seq<char>),
    AddRepoToGroup(Seq<char>, usize),
    GetGroupRepos(usize),
    CreateRunnerGroup(GroupCreateView),
}

impl View for BackendMessage {
    type V = CommandView;

    open spec fn view(&self) -> CommandView {
        match self {
            BackendMessage::FetchRunners => CommandView::FetchRunners,
            BackendMessage::FetchGroups => CommandView::FetchGroups,
            BackendMessage::AddLabel(id, label) => CommandView::AddLabel(*id, label@),
            BackendMessage::DeleteLabel(id, label) => CommandView::DeleteLabel(*id, label@),
            BackendMessage::ChangeGroup(id, name) => CommandView::ChangeGroup(*id, name@),
            BackendMessage::AddRepoToGroup(name, id) => CommandView::AddRepoToGroup(name@, *id),
            BackendMessage::GetGroupRepos(id) => CommandView::GetGroupRepos(*id),
            BackendMessage::CreateRunnerGroup(group) => CommandView::CreateRunnerGroup(group@),
        }
    }
}

/// An event from the worker to the interactive loop.
#[derive(Debug, Clone)]
pub enum ApiMessage {
    /// A change went through.
    Completed,
    RunnerList(Box<Vec<Runner>>),
    RunnerGroupList(Box<Vec<RunnerGroup>>),
    GroupRepos(Box<Vec<ApiRepository>>),
}

/// What is compared of an event.
pub enum EventView {
    Completed,
    RunnerList(Seq<RunnerView>),
    RunnerGroupList(Seq<RunnerGroupView>),
    GroupRepos(Seq<ApiRepository>),
}

/// What is compared of each runner of a list.
pub open spec fn runner_views(runners: Seq<Runner>) -> Seq<RunnerView> {
    Seq::new(runners.len(), |i: int| runners[i]@)
}

/// What is compared of each group of a list.
pub open spec fn group_views(groups: Seq<RunnerGroup>) -> Seq<RunnerGroupView> {
    Seq::new(groups.len(), |i: int| groups[i]@)
}

impl View for ApiMessage {
    type V = EventView;

    open spec fn view(&self) -> EventView {
        match self {
            ApiMessage::Completed => EventView::Completed,
            ApiMessage::RunnerList(runners) => EventView::RunnerList(runner_views(runners@)),
            ApiMessage::RunnerGroupList(groups) => EventView::RunnerGroupList(group_views(groups@)),
            ApiMessage::GroupRepos(repos) => EventView::GroupRepos(repos@),
        }
    }
}

/// What is compared of each event of a list.
pub open spec fn event_views(events: Seq<ApiMessage>) -> Seq<EventView> {
    Seq::new(events.len(), |i: int| events[i]@)
}

/// One round trip that the worker has the gateway make.
#[derive(Debug, Clone)]
pub enum Request {
    ListGroups { skip_cache: bool },
    /// The runners of each named group, fetched side by side and answered in
    /// the order of `group_ids`.
    ListGroupRunners { group_ids: Vec<usize>, skip_cache: bool },
    AddLabel { runner_id: usize, labels: Vec<String> },
    RemoveLabel { runner_id: usize, label: String },
    AddRunnerToGroup { runner_id: usize, group_id: usize },
    GetRepo { organization: String, name: String },
    AddRepoAccess { group_id: usize, repo_id: usize },
    CreateGroup(ApiRunnerGroupCreate),
    ListGroupRepos { group_id: usize },
}

/// What is compared of a request.
pub enum RequestView {
    ListGroups { skip_cache: bool },
    ListGroupRunners { group_ids: Seq<usize>, skip_cache: bool },
    AddLabel { runner_id: usize, labels: Seq<Seq<char>> },
    RemoveLabel { runner_id: usize, label: Seq<char> },
    AddRunnerToGroup { runner_id: usize, group_id: usize },
    GetRepo { organization: Seq<char>, name: Seq<char> },
    AddRepoAccess { group_id: usize, repo_id: usize },
    CreateGroup(GroupCreateView),
    ListGroupRepos { group_id: usize },
}

impl View for Request {
    type V = RequestView;

    open spec fn view(&self) -> RequestView {
        match self {
            Request::ListGroups { skip_cache } => RequestView::ListGroups { skip_cache: *skip_cache },
            Request::ListGroupRunners { group_ids, skip_cache } => RequestView::ListGroupRunners {
                group_ids: group_ids@,
                skip_cache: *skip_cache,
            },
            Request::AddLabel { runner_id, labels } => RequestView::AddLabel {
                runner_id: *runner_id,
                labels: texts(labels@),
            },
            Request::RemoveLabel { runner_id, label } => RequestView::RemoveLabel {
                runner_id: *runner_id,
                label: label@,
            },
            Request::AddRunnerToGroup { runner_id, group_id } => RequestView::AddRunnerToGroup {
                runner_id: *runner_id,
                group_id: *group_id,
            },
            Request::GetRepo { organization, name } => RequestView::GetRepo {
                organization: organization@,
                name: name@,
            },
            Request::AddRepoAccess { group_id, repo_id } => RequestView::AddRepoAccess {
                group_id: *group_id,
                repo_id: *repo_id,
            },
            Request::CreateGroup(group) => RequestView::CreateGroup(group@),
            Request::ListGroupRepos { group_id } => RequestView::ListGroupRepos { group_id: *group_id },
        }
    }
}

/// What is compared of an optional request.
pub open spec fn request_view(request: Option<Request>) -> Option<RequestView> {
    match request {
        Some(r) => Some(r@),
        None => None,
    }
}

/// The gateway's answer to a request.
#[derive(Debug, Clone)]
pub enum Response {
    Groups(RunnersGroupResponse),
    /// One answer for each group of the request, in the order of the request.
    GroupRunners(Vec<RunnersResponse>),
    Done,
    Repo(ApiRepository),
    Created(ApiRunnerGroup),
    GroupRepos(ApiRepositoriesResponse),
    /// The round trip failed.
    Failed,
}

/// Why a worker has stopped for good.
#[derive(Debug, Clone, Copy, PartialEq, Eq, Structural)]
pub enum HaltReason {
    /// A round trip failed.
    Network,
    /// A command named a group that the fresh list of groups does not hold.
    GroupNotFound,
    /// A runner was reported with a status text that names no status.
    UnknownStatus,
    /// An input came that the worker was not waiting for.
    Unexpected,
}

/// Where the worker stands in the command it is handling.
#[derive(Debug, Clone)]
pub enum Phase {
    /// Between commands.
    Idle,
    /// Waiting for the groups, which are all that the command asked for.
    GroupsOnly,
    /// Waiting for the groups, to fetch their runners next.
    RefreshGroups { dirty: bool, then_ok: bool },
    /// Waiting for the runners of the groups with these names.
    RefreshRunners { names: Vec<String>, then_ok: bool },
    /// Waiting for a change to go through, to refresh next.
    Mutation { then_ok: bool },
    /// Waiting for the fresh list of the groups, to find the named one among
    /// them.
    ResolveGroup { runner_id: usize, group_name: String },
    /// Waiting for a repository, to give it access to the group next.
    ResolveRepo { group_id: usize },
    /// Waiting for the repositories of a group.
    Repos,
    /// Stopped for good.
    Halted(HaltReason),
}

/// What is compared of a phase.
pub enum PhaseView {
    Idle,
    GroupsOnly,
    RefreshGroups { dirty: bool, then_ok: bool },
    RefreshRunners { names: Seq<Seq<char>>, then_ok: bool },
    Mutation { then_ok: bool },
    ResolveGroup { runner_id: usize, group_name: Seq<char> },
    ResolveRepo { group_id: usize },
    Repos,
    Halted(HaltReason),
}

impl View for Phase {
    type V = PhaseView;

    open spec fn view(&self) -> PhaseView {
        match self {
            Phase::Idle => PhaseView::Idle,
            Phase::GroupsOnly => PhaseView::GroupsOnly,
            Phase::RefreshGroups { dirty, then_ok } => PhaseView::RefreshGroups { dirty: *dirty, then_ok: *then_ok },
            Phase::RefreshRunners { names, then_ok } => PhaseView::RefreshRunners {
                names: texts(names@),
                then_ok: *then_ok,
            },
            Phase::Mutation { then_ok } => PhaseView::Mutation { then_ok: *then_ok },
            Phase::ResolveGroup { runner_id, group_name } => PhaseView::ResolveGroup {
                runner_id: *runner_id,
                group_name: group_name@,
            },
            Phase::ResolveRepo { group_id } => PhaseView::ResolveRepo { group_id: *group_id },
            Phase::Repos => PhaseView::Repos,
            Phase::Halted(reason) => PhaseView::Halted(*reason),
        }
    }
}

/// The groups that a report lists, in its order.
pub open spec fn reported_groups(groups: Seq<ApiRunnerGroup>) -> Seq<RunnerGroupView> {
    Seq::new(
        groups.len(),
        |i: int| RunnerGroupView { id: groups[i].id, name: groups[i].name@, visibility: groups[i].visibility },
    )
}

/// The ids of the groups that a report lists, in its order.
pub open spec fn reported_group_ids(groups: Seq<ApiRunnerGroup>) -> Seq<usize> {
    Seq::new(groups.len(), |i: int| groups[i].id)
}

/// The names of the groups that a report lists, in its order.
pub open spec fn reported_group_names(groups: Seq<ApiRunnerGroup>) -> Seq<Seq<char>> {
    Seq::new(groups.len(), |i: int| groups[i].name@)
}

/// The id of the first group called `name`, if any group is.
pub open spec fn first_named(groups: Seq<ApiRunnerGroup>, name: Seq<char>) -> Option<usize>
    decreases groups.len(),
{
    if groups.len() == 0 {
        None
    } else if groups[0].name@ == name {
        Some(groups[0].id)
    } else {
        first_named(groups.drop_first(), name)
    }
}

/// Every runner of every answer has a status.
pub open spec fn all_known(results: Seq<RunnersResponse>) -> bool {
    forall|i: int, j: int|
        0 <= i < results.len() && 0 <= j < results[i].runners@.len() ==> reported_status(
            #[trigger] results[i].runners@[j],
        ).is_some()
}

/// A reported runner as a member of the group called `name`.
pub open spec fn tagged(runner: ApiRunner, name: Seq<char>) -> RunnerView {
    RunnerView {
        id: runner.id,
        status: reported_status(runner).unwrap(),
        name: runner.name@,
        labels: crate::api::custom_labels(runner.labels@),
        group: Some(name),
    }
}

/// The runners of one answer, each as a member of the group called `name`.
pub open spec fn tagged_runners(runners: Seq<ApiRunner>, name: Seq<char>) -> Seq<RunnerView> {
    Seq::new(runners.len(), |j: int| tagged(runners[j], name))
}

/// The runners of all answers in one list: the answers in their order, the
/// runners of each answer in its order, each runner as a member of the group
/// whose name stands at the answer's position.
pub open spec fn merged(names: Seq<Seq<char>>, results: Seq<RunnersResponse>) -> Seq<RunnerView>
    decreases results.len(),
{
    if results.len() == 0 || names.len() == 0 {
        Seq::empty()
    } else {
        merged(names.drop_last(), results.drop_last()) + tagged_runners(results.last().runners@, names.last())
    }
}

/// The ids of all reported runners: the answers in their order, the runners
/// of each answer in its order.
pub open spec fn reported_ids(results: Seq<RunnersResponse>) -> Seq<usize>
    decreases results.len(),
{
    if results.len() == 0 {
        Seq::empty()
    } else {
        reported_ids(results.drop_last()) + Seq::new(
            results.last().runners@.len(),
            |j: int| results.last().runners@[j].id,
        )
    }
}

/// The ids of the runners of a list, in order.
pub open spec fn ids_of(runners: Seq<RunnerView>) -> Seq<usize> {
    Seq::new(runners.len(), |i: int| runners[i].id)
}

/// The merged list holds one runner for each reported runner and no other,
/// in the order of the reports: its ids are the reported ids. So where no id
/// is reported twice, none occurs twice in the merged list.
pub proof fn lemma_merged_ids(names: Seq<Seq<char>>, results: Seq<RunnersResponse>)
    requires
        names.len() == results.len(),
    ensures
        ids_of(merged(names, results)) == reported_ids(results),
        merged(names, results).len() == reported_ids(results).len(),
        reported_ids(results).no_duplicates() ==> ids_of(merged(names, results)).no_duplicates(),
    decreases results.len(),
{
    if results.len() > 0 {
        lemma_merged_ids(names.drop_last(), results.drop_last());
        assert(ids_of(merged(names, results)) =~= reported_ids(results));
    } else {
        assert(ids_of(merged(names, results)) =~= reported_ids(results));
    }
}

/// The runner at position `j` of the answer at position `i` stands in the
/// merged list behind all runners of the earlier answers, and is tagged with
/// the name at position `i`.
pub proof fn lemma_merged_places(names: Seq<Seq<char>>, results: Seq<RunnersResponse>, i: int, j: int)
    requires
        names.len() == results.len(),
        0 <= i < results.len(),
        0 <= j < results[i].runners@.len(),
    ensures
        merged(names.take(i), results.take(i)).len() + j < merged(names, results).len(),
        merged(names, results)[merged(names.take(i), results.take(i)).len() + j] == tagged(
            results[i].runners@[j],
            names[i],
        ),
    decreases results.len(),
{
    let front_names = names.drop_last();
    let front = results.drop_last();
    if i == results.len() - 1 {
        assert(names.take(i) =~= front_names);
        assert(results.take(i) =~= front);
    } else {
        lemma_merged_places(front_names, front, i, j);
        assert(front_names.take(i) =~= names.take(i));
        assert(front.take(i) =~= results.take(i));
    }
}

/// The report at position `j` of the answer at position `i` names no
/// status, and `message` is the refusal of its status text.
pub open spec fn bad_report(results: Seq<RunnersResponse>, i: int, j: int, message: Seq<char>) -> bool {
    &&& 0 <= i < results.len()
    &&& 0 <= j < results[i].runners@.len()
    &&& reported_status(results[i].runners@[j]).is_none()
    &&& message == crate::runners::unknown_status(results[i].runners@[j].status@)
}

/// The report at position `j` names no status, and `message` is the refusal
/// of its status text.
pub open spec fn bad_runner(runners: Seq<ApiRunner>, j: int, message: Seq<char>) -> bool {
    &&& 0 <= j < runners.len()
    &&& reported_status(runners[j]).is_none()
    &&& message == crate::runners::unknown_status(runners[j].status@)
}

/// Some report of `runners` names no status and is refused with `message`.
pub open spec fn some_bad_runner(runners: Seq<ApiRunner>, message: Seq<char>) -> bool {
    exists|j: int| #[trigger] bad_runner(runners, j, message)
}

/// Some report of some answer names no status and is refused with `message`.
pub open spec fn some_bad_report(results: Seq<RunnersResponse>, message: Seq<char>) -> bool {
    exists|i: int, j: int| #[trigger] bad_report(results, i, j, message)
}

/// What one step of the worker receives: the next command, or the answer to
/// the request that the step before named.
#[derive(Debug, Clone)]
pub enum WorkerInput {
    Command(BackendMessage),
    Reply(Response),
}

/// What one step of the worker yields: the events to send, in order, and the
/// request to make next. Without a request the worker has finished the
/// command, or has stopped.
#[derive(Debug, Clone)]
pub struct Step {
    pub events: Vec<ApiMessage>,
    pub request: Option<Request>,
}

/// A step as the contracts see it.
pub struct Outcome {
    pub phase: PhaseView,
    pub events: Seq<EventView>,
    pub request: Option<RequestView>,
}

/// The worker stops, or stays stopped.
pub open spec fn halted(reason: HaltReason) -> Outcome {
    Outcome { phase: PhaseView::Halted(reason), events: Seq::empty(), request: None }
}

/// The worker goes on waiting in `phase` for the answer to `request`.
pub open spec fn waiting(phase: PhaseView, request: RequestView) -> Outcome {
    Outcome { phase, events: Seq::empty(), request: Some(request) }
}

/// The worker stops on an answer that ends the command early: a failed
/// round trip, or an answer to another request than the one it made.
pub open spec fn stopped_by(response: Response) -> Outcome {
    match response {
        Response::Failed => halted(HaltReason::Network),
        _ => halted(HaltReason::Unexpected),
    }
}

/// The cache-bypassing refresh that follows every change.
pub open spec fn refreshing(then_ok: bool) -> Outcome {
    waiting(PhaseView::RefreshGroups { dirty: true, then_ok }, RequestView::ListGroups { skip_cache: true })
}

/// The first step of an idle worker on a command: no event yet, and the
/// command's first request. The two fetches read through the cache. A
/// change of group resolves the name over a fresh list, so it asks for the
/// groups past the cache.
pub open spec fn started(organization: Seq<char>, command: CommandView) -> Outcome {
    match command {
        CommandView::FetchGroups => waiting(PhaseView::GroupsOnly, RequestView::ListGroups { skip_cache: false }),
        CommandView::FetchRunners => waiting(
            PhaseView::RefreshGroups { dirty: false, then_ok: false },
            RequestView::ListGroups { skip_cache: false },
        ),
        CommandView::AddLabel(runner_id, label) => waiting(
            PhaseView::Mutation { then_ok: false },
            RequestView::AddLabel { runner_id, labels: seq![label] },
        ),
        CommandView::DeleteLabel(runner_id, label) => waiting(
            PhaseView::Mutation { then_ok: false },
            RequestView::RemoveLabel { runner_id, label },
        ),
        CommandView::ChangeGroup(runner_id, group_name) => waiting(
            PhaseView::ResolveGroup { runner_id, group_name },
            RequestView::ListGroups { skip_cache: true },
        ),
        CommandView::AddRepoToGroup(name, group_id) => waiting(
            PhaseView::ResolveRepo { group_id },
            RequestView::GetRepo { organization, name },
        ),
        CommandView::CreateRunnerGroup(group) => waiting(
            PhaseView::Mutation { then_ok: true },
            RequestView::CreateGroup(group),
        ),
        CommandView::GetGroupRepos(group_id) => waiting(PhaseView::Repos, RequestView::ListGroupRepos { group_id }),
    }
}

/// The end of a refresh on the answers of all groups: the merged runner
/// list, and a completion event behind it where the command asked for one.
pub open spec fn refreshed(names: Seq<Seq<char>>, then_ok: bool, results: Seq<RunnersResponse>) -> Outcome {
    if names.len() != results.len() {
        halted(HaltReason::Unexpected)
    } else if !all_known(results) {
        halted(HaltReason::UnknownStatus)
    } else {
        Outcome {
            phase: PhaseView::Idle,
            events: if then_ok {
                seq![EventView::RunnerList(merged(names, results)), EventView::Completed]
            } else {
                seq![EventView::RunnerList(merged(names, results))]
            },
            request: None,
        }
    }
}

/// The step of a worker in `phase` on the answer to its request.
pub open spec fn resumed(phase: PhaseView, response: Response) -> Outcome {
    match phase {
        PhaseView::Halted(reason) => halted(reason),
        PhaseView::Idle => halted(HaltReason::Unexpected),
        PhaseView::GroupsOnly => match response {
            Response::Groups(r) => Outcome {
                phase: PhaseView::Idle,
                events: seq![EventView::RunnerGroupList(reported_groups(r.runner_groups@))],
                request: None,
            },
            _ => stopped_by(response),
        },
        PhaseView::RefreshGroups { dirty, then_ok } => match response {
            Response::Groups(r) => Outcome {
                phase: PhaseView::RefreshRunners { names: reported_group_names(r.runner_groups@), then_ok },
                events: seq![EventView::RunnerGroupList(reported_groups(r.runner_groups@))],
                request: Some(
                    RequestView::ListGroupRunners {
                        group_ids: reported_group_ids(r.runner_groups@),
                        skip_cache: dirty,
                    },
                ),
            },
            _ => stopped_by(response),
        },
        PhaseView::RefreshRunners { names, then_ok } => match response {
            Response::GroupRunners(results) => refreshed(names, then_ok, results@),
            _ => stopped_by(response),
        },
        PhaseView::Mutation { then_ok } => match response {
            Response::Done => refreshing(then_ok),
            Response::Created(_) => refreshing(then_ok),
            _ => stopped_by(response),
        },
        PhaseView::ResolveGroup { runner_id, group_name } => match response {
            Response::Groups(r) => match first_named(r.runner_groups@, group_name) {
                Some(group_id) => waiting(
                    PhaseView::Mutation { then_ok: false },
                    RequestView::AddRunnerToGroup { runner_id, group_id },
                ),
                None => halted(HaltReason::GroupNotFound),
            },
            _ => stopped_by(response),
        },
        PhaseView::ResolveRepo { group_id } => match response {
            Response::Repo(repo) => waiting(
                PhaseView::Mutation { then_ok: true },
                RequestView::AddRepoAccess { group_id, repo_id: repo.id },
            ),
            _ => stopped_by(response),
        },
        PhaseView::Repos => match response {
            Response::GroupRepos(r) => Outcome {
                phase: PhaseView::Idle,
                events: seq![EventView::GroupRepos(r.repositories@)],
                request: None,
            },
            _ => stopped_by(response),
        },
    }
}

/// One step of a worker in `phase`. A command is taken only between
/// commands; one that comes in the middle of another stops the worker. A
/// stopped worker stays stopped and takes nothing.
pub open spec fn transition(organization: Seq<char>, phase: PhaseView, input: WorkerInput) -> Outcome {
    match input {
        WorkerInput::Command(message) => match phase {
            PhaseView::Idle => started(organization, message@),
            PhaseView::Halted(reason) => halted(reason),
            _ => halted(HaltReason::Unexpected),
        },
        WorkerInput::Reply(response) => resumed(phase, response),
    }
}

/// The worker: where it stands, and the configuration it was started with.
#[derive(Debug, Clone)]
pub struct Worker {
    pub phase: Phase,
    pub config: Config,
}

impl Worker {
    /// The step that `step` is, with the phase it leaves the worker in.
    pub open spec fn outcome(&self, step: Step) -> Outcome {
        Outcome { phase: self.phase@, events: event_views(step.events@), request: request_view(step.request) }
    }

    /// A worker between commands.
    pub fn new(config: Config) -> (worker: Self)
        ensures
            worker.phase == Phase::Idle,
            worker.config == config,
    {
        Worker { phase: Phase::Idle, config }
    }

    /// Whether the worker is between commands, and takes the next one.
    pub fn is_idle(&self) -> (idle: bool)
        ensures
            idle == (self.phase@ == PhaseView::Idle),
    {
        match &self.phase {
            Phase::Idle => true,
            _ => false,
        }
    }

    /// Why the worker has stopped for good, if it has.
    pub fn halted(&self) -> (reason: Option<HaltReason>)
        ensures
            match reason {
                Some(r) => self.phase@ == PhaseView::Halted(r),
                None => !(self.phase@ is Halted),
            },
    {
        match &self.phase {
            Phase::Halted(r) => Some(*r),
            _ => None,
        }
    }

    /// One step of the worker: on a command between commands, the command's
    /// first request; on the answer to a request, the events that the answer
    /// allows and the next request, if the command needs one. A failed round
    /// trip, a group that cannot be found and an input that was not waited
    /// for stop the worker for good.
    pub fn run(&mut self, input: WorkerInput) -> (step: Step)
        ensures
            final(self).config == old(self).config,
            final(self).outcome(step) == transition(old(self).config.organization@, old(self).phase@, input),
            step.events@.len() == transition(old(self).config.organization@, old(self).phase@, input).events.len(),
    {
        let mut phase = Phase::Idle;
        std::mem::swap(&mut self.phase, &mut phase);
        match input {
            WorkerInput::Command(message) => match phase {
                Phase::Idle => self.start(message),
                Phase::Halted(reason) => self.halt(reason),
                _ => self.halt(HaltReason::Unexpected),
            },
            WorkerInput::Reply(response) => self.resume(phase, response),
        }
    }

    fn halt(&mut self, reason: HaltReason) -> (step: Step)
        ensures
            final(self).config == old(self).config,
            final(self).outcome(step) == halted(reason),
    {
        self.phase = Phase::Halted(reason);
        let step = Step { events: Vec::new(), request: None };
        assert(event_views(step.events@) =~= Seq::empty());
        step
    }

    fn stop_on(&mut self, response: Response) -> (step: Step)
        ensures
            final(self).config == old(self).config,
            final(self).outcome(step) == stopped_by(response),
    {
        match response {
            Response::Failed => self.halt(HaltReason::Network),
            _ => self.halt(HaltReason::Unexpected),
        }
    }

    fn wait(&mut self, phase: Phase, request: Request) -> (step: Step)
        ensures
            final(self).config == old(self).config,
            final(self).outcome(step) == waiting(phase@, request@),
    {
        self.phase = phase;
        let step = Step { events: Vec::new(), request: Some(request) };
        assert(event_views(step.events@) =~= Seq::empty());
        step
    }

    fn finish(&mut self, event: ApiMessage) -> (step: Step)
        ensures
            final(self).config == old(self).config,
            final(self).outcome(step) == (Outcome { phase: PhaseView::Idle, events: seq![event@], request: None }),
    {
        self.phase = Phase::Idle;
        let mut events: Vec<ApiMessage> = Vec::new();
        events.push(event);
        assert(event_views(events@) =~= seq![event@]);
        Step { events, request: None }
    }

    /// Starts the cache-bypassing refresh that follows every change: the
    /// groups are asked for first, past the cache.
    pub fn refresh_runners(&mut self, then_ok: bool) -> (step: Step)
        ensures
            final(self).config == old(self).config,
            final(self).outcome(step) == refreshing(then_ok),
    {
        self.wait(Phase::RefreshGroups { dirty: true, then_ok }, Request::ListGroups { skip_cache: true })
    }

    fn start(&mut self, message: BackendMessage) -> (step: Step)
        ensures
            final(self).config == old(self).config,
            final(self).outcome(step) == started(old(self).config.organization@, message@),
    {
        match message {
            BackendMessage::FetchGroups => self.wait(Phase::GroupsOnly, Request::ListGroups { skip_cache: false }),
            BackendMessage::FetchRunners => self.wait(
                Phase::RefreshGroups { dirty: false, then_ok: false },
                Request::ListGroups { skip_cache: false },
            ),
            BackendMessage::AddLabel(runner_id, label) => {
                let mut labels: Vec<String> = Vec::new();
                let ghost text = label@;
                labels.push(label);
                assert(texts(labels@) =~= seq![text]);
                self.wait(Phase::Mutation { then_ok: false }, Request::AddLabel { runner_id, labels })
            },
            BackendMessage::DeleteLabel(runner_id, label) => self.wait(
                Phase::Mutation { then_ok: false },
                Request::RemoveLabel { runner_id, label },
            ),
            BackendMessage::ChangeGroup(runner_id, group_name) => self.wait(
                Phase::ResolveGroup { runner_id, group_name },
                Request::ListGroups { skip_cache: true },
            ),
            BackendMessage::AddRepoToGroup(name, group_id) => {
                let organization = self.config.organization.clone();
                self.wait(Phase::ResolveRepo { group_id }, Request::GetRepo { organization, name })
            },
            BackendMessage::CreateRunnerGroup(group) => self.wait(
                Phase::Mutation { then_ok: true },
                Request::CreateGroup(*group),
            ),
            BackendMessage::GetGroupRepos(group_id) => self.wait(Phase::Repos, Request::ListGroupRepos { group_id }),
        }
    }

    fn resume(&mut self, phase: Phase, response: Response) -> (step: Step)
        ensures
            final(self).config == old(self).config,
            final(self).outcome(step) == resumed(phase@, response),
    {
        match phase {
            Phase::Halted(reason) => self.halt(reason),
            Phase::Idle => self.halt(HaltReason::Unexpected),
            Phase::GroupsOnly => match response {
                Response::Groups(r) => {
                    let groups = Worker::get_runner_groups(&r.runner_groups);
                    self.finish(ApiMessage::RunnerGroupList(Box::new(groups)))
                },
                other => self.stop_on(other),
            },
            Phase::RefreshGroups { dirty, then_ok } => match response {
                Response::Groups(r) => {
                    let groups = Worker::get_runner_groups(&r.runner_groups);
                    let (group_ids, names) = Worker::group_keys(&r.runner_groups);
                    self.phase = Phase::RefreshRunners { names, then_ok };
                    let mut events: Vec<ApiMessage> = Vec::new();
                    let event = ApiMessage::RunnerGroupList(Box::new(groups));
                    events.push(event);
                    assert(event_views(events@) =~= seq![event@]);
                    Step { events, request: Some(Request::ListGroupRunners { group_ids, skip_cache: dirty }) }
                },
                other => self.stop_on(other),
            },
            Phase::RefreshRunners { names, then_ok } => match response {
                Response::GroupRunners(results) => {
                    if names.len() != results.len() {
                        self.halt(HaltReason::Unexpected)
                    } else {
                        match Worker::get_runners(&names, &results) {
                            Ok(runners) => {
                                self.phase = Phase::Idle;
                                let mut events: Vec<ApiMessage> = Vec::new();
                                let listed = ApiMessage::RunnerList(Box::new(runners));
                                events.push(listed);
                                if then_ok {
                                    events.push(ApiMessage::Completed);
                                    assert(event_views(events@) =~= seq![listed@, EventView::Completed]);
                                } else {
                                    assert(event_views(events@) =~= seq![listed@]);
                                }
                                Step { events, request: None }
                            },
                            Err(_) => self.halt(HaltReason::UnknownStatus),
                        }
                    }
                },
                other => self.stop_on(other),
            },
            Phase::Mutation { then_ok } => match response {
                Response::Done => self.refresh_runners(then_ok),
                Response::Created(_) => self.refresh_runners(then_ok),
                other => self.stop_on(other),
            },
            Phase::ResolveGroup { runner_id, group_name } => match response {
                Response::Groups(r) => match Worker::find_group(&r.runner_groups, group_name.as_str()) {
                    Some(group_id) => self.wait(
                        Phase::Mutation { then_ok: false },
                        Request::AddRunnerToGroup { runner_id, group_id },
                    ),
                    None => self.halt(HaltReason::GroupNotFound),
                },
                other => self.stop_on(other),
            },
            Phase::ResolveRepo { group_id } => match response {
                Response::Repo(repo) => self.wait(
                    Phase::Mutation { then_ok: true },
                    Request::AddRepoAccess { group_id, repo_id: repo.id },
                ),
                other => self.stop_on(other),
            },
            Phase::Repos => match response {
                Response::GroupRepos(r) => self.finish(ApiMessage::GroupRepos(Box::new(r.repositories))),
                other => self.stop_on(other),
            },
        }
    }

    /// The ids and the names of the groups of a report, in the report's
    /// order.
    pub fn group_keys(groups: &Vec<ApiRunnerGroup>) -> (keys: (Vec<usize>, Vec<String>))
        ensures
            keys.0@ == reported_group_ids(groups@),
            texts(keys.1@) == reported_group_names(groups@),
    {
        let mut ids: Vec<usize> = Vec::new();
        let mut names: Vec<String> = Vec::new();
        let mut i: usize = 0;
        while i < groups.len()
            invariant
                i <= groups.len(),
                ids.len() == i,
                names.len() == i,
                forall|k: int| 0 <= k < i ==> #[trigger] ids@[k] == groups@[k].id,
                forall|k: int| 0 <= k < i ==> (#[trigger] names@[k])@ == groups@[k].name@,
            decreases groups.len() - i,
        {
            ids.push(groups[i].id);
            names.push(groups[i].name.clone());
            i = i + 1;
        }
        assert(ids@ =~= reported_group_ids(groups@));
        assert(texts(names@) =~= reported_group_names(groups@));
        (ids, names)
    }

    /// The id of the first group called `name`, if any group is.
    pub fn find_group(groups: &Vec<ApiRunnerGroup>, name: &str) -> (found: Option<usize>)
        ensures
            found == first_named(groups@, name@),
    {
        let mut i: usize = 0;
        assert(groups@.skip(0) =~= groups@);
        while i < groups.len()
            invariant
                i <= groups.len(),
                first_named(groups@, name@) == first_named(groups@.skip(i as int), name@),
            decreases groups.len() - i,
        {
            proof {
                assert(groups@.skip(i as int)[0] == groups@[i as int]);
                assert(groups@.skip(i as int).drop_first() =~= groups@.skip(i + 1));
            }
            if crate::text::same_text(groups[i].name.as_str(), name) {
                return Some(groups[i].id);
            }
            i = i + 1;
        }
        None
    }

    /// The groups of a report as the dashboard shows them, in the report's
    /// order.
    pub fn get_runner_groups(groups: &Vec<ApiRunnerGroup>) -> (made: Vec<RunnerGroup>)
        ensures
            group_views(made@) == reported_groups(groups@),
    {
        let mut made: Vec<RunnerGroup> = Vec::new();
        let mut i: usize = 0;
        while i < groups.len()
            invariant
                i <= groups.len(),
                made.len() == i,
                forall|k: int| 0 <= k < i ==> (#[trigger] made@[k])@ == reported_groups(groups@)[k],
            decreases groups.len() - i,
        {
            made.push(RunnerGroup::from_ref(&groups[i]));
            i = i + 1;
        }
        assert(group_views(made@) =~= reported_groups(groups@));
        made
    }

    /// The runners of one answer, each tagged with the name of the group that
    /// the answer is for. A runner whose status text names no status fails
    /// the whole answer.
    pub fn tag_runners(runners: &Vec<ApiRunner>, name: &String) -> (r: Result<Vec<Runner>, String>)
        ensures
            match r {
                Ok(made) => runner_views(made@) == tagged_runners(runners@, name@) && forall|k: int|
                    0 <= k < runners@.len() ==> reported_status(#[trigger] runners@[k]).is_some(),
                Err(message) => some_bad_runner(runners@, message@),
            },
    {
        let mut out: Vec<Runner> = Vec::new();
        let mut j: usize = 0;
        while j < runners.len()
            invariant
                j <= runners.len(),
                out.len() == j,
                forall|k: int| 0 <= k < j ==> reported_status(#[trigger] runners@[k]).is_some(),
                forall|k: int| 0 <= k < j ==> (#[trigger] out@[k])@ == tagged(runners@[k], name@),
            decreases runners.len() - j,
        {
            match Runner::from_ref(&runners[j]) {
                Ok(made) => {
                    let mut runner = made;
                    runner.group = Some(name.clone());
                    assert(runner@ == tagged(runners@[j as int], name@));
                    out.push(runner);
                },
                Err(message) => {
                    assert(bad_runner(runners@, j as int, message@));
                    return Err(message);
                },
            }
            j = j + 1;
        }
        assert(runner_views(out@) =~= tagged_runners(runners@, name@));
        Ok(out)
    }

    /// The runners of all groups in one list. The answers are merged in the
    /// order in which their groups were named, whatever the order in which
    /// they arrived, and each runner is tagged with the name of its group.
    /// A runner whose status text names no status fails the whole merge.
    pub fn get_runners(names: &Vec<String>, results: &Vec<RunnersResponse>) -> (r: Result<Vec<Runner>, String>)
        requires
            names@.len() == results@.len(),
        ensures
            match r {
                Ok(runners) => all_known(results@) && runner_views(runners@) == merged(texts(names@), results@)
                    && runners@.len() == merged(texts(names@), results@).len(),
                Err(message) => !all_known(results@) && some_bad_report(results@, message@),
            },
    {
        let mut out: Vec<Runner> = Vec::new();
        let mut i: usize = 0;
        while i < results.len()
            invariant
                i <= results.len(),
                names@.len() == results@.len(),
                all_known(results@.take(i as int)),
                runner_views(out@) == merged(texts(names@).take(i as int), results@.take(i as int)),
            decreases results.len() - i,
        {
            let ghost base = runner_views(out@);
            let ghost name = names@[i as int]@;
            match Worker::tag_runners(&results[i].runners, &names[i]) {
                Ok(group) => {
                    let mut group = group;
                    let ghost added = runner_views(group@);
                    out.append(&mut group);
                    assert(runner_views(out@) =~= base + added);
                },
                Err(message) => {
                    proof {
                        let j = choose|j: int| #[trigger] bad_runner(results@[i as int].runners@, j, message@);
                        assert(bad_report(results@, i as int, j, message@));
                        assert(reported_status(results@[i as int].runners@[j]).is_none());
                    }
                    return Err(message);
                },
            }
            proof {
                assert(results@.take(i + 1).drop_last() =~= results@.take(i as int));
                assert(texts(names@).take(i + 1).drop_last() =~= texts(names@).take(i as int));
                assert(results@.take(i + 1).last() == results@[i as int]);
                assert(texts(names@).take(i + 1).last() == name);
                assert forall|a: int, b: int|
                    0 <= a < results@.take(i + 1).len() && 0 <= b < results@.take(i + 1)[a].runners@.len() implies reported_status(
                    #[trigger] results@.take(i + 1)[a].runners@[b],
                ).is_some() by {
                    if a < i {
                        assert(results@.take(i as int)[a] == results@.take(i + 1)[a]);
                    }
                }
            }
            i = i + 1;
        }
        proof {
            assert(results@.take(results.len() as int) =~= results@);
            assert(texts(names@).take(results.len() as int) =~= texts(names@));
        }
        Ok(out)
    }
}

/// Where a worker that starts in `phase` stands after `inputs`, one step
/// for each, and the events of all steps in the order of the steps.
pub open spec fn replay(organization: Seq<char>, phase: PhaseView, inputs: Seq<WorkerInput>) -> (
    PhaseView,
    Seq<EventView>,
)
    decreases inputs.len(),
{
    if inputs.len() == 0 {
        (phase, Seq::empty())
    } else {
        let before = replay(organization, phase, inputs.drop_last());
        let last = transition(organization, before.0, inputs.last());
        (last.phase, before.1 + last.events)
    }
}

/// Events come out in the order in which their inputs went in: the events
/// of `earlier` followed by `later` are the events of `earlier`, and behind
/// them the events of `later` from where `earlier` left the worker.
pub proof fn lemma_events_keep_dispatch_order(
    organization: Seq<char>,
    phase: PhaseView,
    earlier: Seq<WorkerInput>,
    later: Seq<WorkerInput>,
)
    ensures
        replay(organization, phase, earlier + later).0 == replay(
            organization,
            replay(organization, phase, earlier).0,
            later,
        ).0,
        replay(organization, phase, earlier + later).1 == replay(organization, phase, earlier).1 + replay(
            organization,
            replay(organization, phase, earlier).0,
            later,
        ).1,
    decreases later.len(),
{
    let mid = replay(organization, phase, earlier);
    if later.len() == 0 {
        assert(earlier + later =~= earlier);
        assert(mid.1 + Seq::<EventView>::empty() =~= mid.1);
    } else {
        lemma_events_keep_dispatch_order(organization, phase, earlier, later.drop_last());
        assert((earlier + later).drop_last() =~= earlier + later.drop_last());
        assert((earlier + later).last() == later.last());
        let front = replay(organization, mid.0, later.drop_last());
        let last = transition(organization, front.0, later.last());
        assert((mid.1 + front.1) + last.events =~= mid.1 + (front.1 + last.events));
    }
}

/// A worker takes a command only between commands: in the middle of one, a
/// second command yields no event and no request, and the worker stops.
pub proof fn lemma_one_command_at_a_time(organization: Seq<char>, phase: PhaseView, message: BackendMessage)
    requires
        phase != PhaseView::Idle,
    ensures
        transition(organization, phase, WorkerInput::Command(message)).phase is Halted,
        transition(organization, phase, WorkerInput::Command(message)).events.len() == 0,
        transition(organization, phase, WorkerInput::Command(message)).request.is_none(),
{
}

/// A fetch of the runners lists the groups first and the merged runners
/// second, and leaves the worker between commands.
pub proof fn lemma_fetch_lists_groups_first(
    organization: Seq<char>,
    groups: RunnersGroupResponse,
    results: Vec<RunnersResponse>,
)
    requires
        results@.len() == groups.runner_groups@.len(),
        all_known(results@),
    ensures
        replay(
            organization,
            PhaseView::Idle,
            seq![
                WorkerInput::Command(BackendMessage::FetchRunners),
                WorkerInput::Reply(Response::Groups(groups)),
                WorkerInput::Reply(Response::GroupRunners(results)),
            ],
        ) == (
            PhaseView::Idle,
            seq![
                EventView::RunnerGroupList(reported_groups(groups.runner_groups@)),
                EventView::RunnerList(merged(reported_group_names(groups.runner_groups@), results@)),
            ],
        ),
{
    let inputs = seq![
        WorkerInput::Command(BackendMessage::FetchRunners),
        WorkerInput::Reply(Response::Groups(groups)),
        WorkerInput::Reply(Response::GroupRunners(results)),
    ];
    let two = inputs.drop_last();
    let one = two.drop_last();
    assert(one.drop_last() =~= Seq::<WorkerInput>::empty());
    let r0 = replay(organization, PhaseView::Idle, one.drop_last());
    assert(r0.1 =~= Seq::<EventView>::empty());
    let r1 = replay(organization, PhaseView::Idle, one);
    assert(r1.0 == PhaseView::RefreshGroups { dirty: false, then_ok: false });
    assert(r1.1 =~= Seq::<EventView>::empty());
    let r2 = replay(organization, PhaseView::Idle, two);
    assert(r2.1 =~= seq![EventView::RunnerGroupList(reported_groups(groups.runner_groups@))]);
    let r3 = replay(organization, PhaseView::Idle, inputs);
    assert(r3.1 =~= seq![
        EventView::RunnerGroupList(reported_groups(groups.runner_groups@)),
        EventView::RunnerList(merged(reported_group_names(groups.runner_groups@), results@)),
    ]);
}

/// A change of group resolves the name over a fresh list: the groups are
/// asked for past the cache, the runner joins the first group of that name
/// by one request, and the refresh past the cache follows. Where no group
/// has the name, the worker stops.
pub proof fn lemma_group_change_resolves_over_fresh_list(
    organization: Seq<char>,
    runner_id: usize,
    name: Seq<char>,
    groups: RunnersGroupResponse,
)
    ensures
        started(organization, CommandView::ChangeGroup(runner_id, name)) == waiting(
            PhaseView::ResolveGroup { runner_id, group_name: name },
            RequestView::ListGroups { skip_cache: true },
        ),
        first_named(groups.runner_groups@, name).is_some() ==> resumed(
            PhaseView::ResolveGroup { runner_id, group_name: name },
            Response::Groups(groups),
        ) == waiting(
            PhaseView::Mutation { then_ok: false },
            RequestView::AddRunnerToGroup {
                runner_id,
                group_id: first_named(groups.runner_groups@, name).unwrap(),
            },
        ),
        first_named(groups.runner_groups@, name).is_none() ==> resumed(
            PhaseView::ResolveGroup { runner_id, group_name: name },
            Response::Groups(groups),
        ) == halted(HaltReason::GroupNotFound),
        resumed(PhaseView::Mutation { then_ok: false }, Response::Done) == refreshing(false),
{
}

/// After a change has gone through, the worker refreshes past the cache:
/// both the groups and the runners of each group are asked for with the
/// cache skipped, and only the answers of that refresh yield the runner
/// list.
pub proof fn lemma_change_refreshes_past_cache(then_ok: bool, groups: RunnersGroupResponse)
    ensures
        resumed(PhaseView::Mutation { then_ok }, Response::Done).events.len() == 0,
        resumed(PhaseView::Mutation { then_ok }, Response::Done).request == Some(
            RequestView::ListGroups { skip_cache: true },
        ),
        resumed(resumed(PhaseView::Mutation { then_ok }, Response::Done).phase, Response::Groups(groups)).request
            == Some(
            RequestView::ListGroupRunners {
                group_ids: reported_group_ids(groups.runner_groups@),
                skip_cache: true,
            },
        ),
{
}

} // verus!
