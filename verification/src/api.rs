//! The records that the remote management interface exchanges, and what the
//! gateway decides around one request: its path, and whether the cache
//! answers it.

use crate::cache::lookup;
use crate::cache::unix_seconds;
use crate::cache::Cache;
use crate::cache::CacheEntry;
use crate::text::decimal;
use crate::text::decimal_digits;
use crate::text::texts;
use crate::ui::DisplayText;
use vstd::prelude::*;
use vstd::string::StringExecFns;

verus! {

/// Which repositories may use a runner group.
#[derive(Debug, Clone, Copy, PartialEq, Eq, Structural)]
pub enum RunnerGroupVisibility {
    Selected,
    All,
}

/// A label as the remote side reports it. Only labels of type `custom` are
/// the operator's to change.
#[derive(Debug, Clone)]
pub struct APILabel {
    pub id: usize,
    pub name: String,
    pub label_type: String,
}

/// A runner as the remote side reports it.
#[derive(Debug, Clone)]
pub struct ApiRunner {
    pub id: usize,
    pub name: String,
    pub os: String,
    pub status: String,
    pub busy: bool,
    pub ephemeral: Option<bool>,
    pub labels: Vec<APILabel>,
    pub group_id: usize,
}

/// The answer to a request for runners.
#[derive(Debug, Clone)]
pub struct RunnersResponse {
    pub total_count: usize,
    pub runners: Vec<ApiRunner>,
}

/// A runner group as the remote side reports it.
#[derive(Debug, Clone)]
pub struct ApiRunnerGroup {
    pub id: usize,
    pub name: String,
    pub visibility: RunnerGroupVisibility,
    pub default: bool,
    pub selected_repositories_url: Option<String>,
    pub runners_url: String,
    pub inherited: bool,
    pub allows_public_repositories: bool,
    pub restricted_to_workflows: bool,
    pub selected_workflows: Vec<String>,
    pub workflow_restrictions_read_only: bool,
}

/// The answer to a request for runner groups.
#[derive(Debug, Clone)]
pub struct RunnersGroupResponse {
    pub total_count: usize,
    pub runner_groups: Vec<ApiRunnerGroup>,
}

/// What is sent to create a runner group.
#[derive(Debug, Clone)]
pub struct ApiRunnerGroupCreate {
    pub name: String,
    pub visibility: RunnerGroupVisibility,
    pub selected_repository_ids: Vec<usize>,
    pub runners: Vec<usize>,
}

/// What is compared of a request to create a runner group.
pub struct GroupCreateView {
    pub name: Seq<char>,
    pub visibility: RunnerGroupVisibility,
    pub selected_repository_ids: Seq<usize>,
    pub runners: Seq<usize>,
}

impl View for ApiRunnerGroupCreate {
    type V = GroupCreateView;

    open spec fn view(&self) -> GroupCreateView {
        GroupCreateView {
            name: self.name@,
            visibility: self.visibility,
            selected_repository_ids: self.selected_repository_ids@,
            runners: self.runners@,
        }
    }
}

/// The body of a request that adds labels to a runner.
#[derive(Debug, Clone)]
pub struct LabelsBody {
    pub labels: Vec<String>,
}

/// A repository as the remote side reports it.
#[derive(Debug, Clone)]
pub struct ApiRepository {
    pub id: usize,
    pub name: String,
}

impl DisplayText for ApiRepository {
    open spec fn text(&self) -> Seq<char> {
        self.name@
    }

    fn display(&self) -> (s: String) {
        self.name.clone()
    }
}

/// The answer to a request for the repositories of a runner group.
#[derive(Debug, Clone)]
pub struct ApiRepositoriesResponse {
    pub total_count: usize,
    pub repositories: Vec<ApiRepository>,
}

/// The names of the labels of type `custom`, in order.
pub open spec fn custom_labels(labels: Seq<APILabel>) -> Seq<Seq<char>>
    decreases labels.len(),
{
    if labels.len() == 0 {
        Seq::empty()
    } else if labels.last().label_type@ == "custom"@ {
        custom_labels(labels.drop_last()).push(labels.last().name@)
    } else {
        custom_labels(labels.drop_last())
    }
}

/// The names of the labels of type `custom`, in order: the labels that the
/// operator may change. Labels of any other type are left out.
pub fn custom_label_names(labels: &Vec<APILabel>) -> (names: Vec<String>)
    ensures
        texts(names@) == custom_labels(labels@),
{
    let mut names: Vec<String> = Vec::new();
    let mut i: usize = 0;
    while i < labels.len()
        invariant
            i <= labels.len(),
            texts(names@) == custom_labels(labels@.take(i as int)),
        decreases labels.len() - i,
    {
        proof {
            assert(labels@.take(i + 1).drop_last() =~= labels@.take(i as int));
            assert(labels@.take(i + 1).last() == labels@[i as int]);
        }
        let ghost before = texts(names@);
        if crate::text::same_text(labels[i].label_type.as_str(), "custom") {
            names.push(labels[i].name.clone());
            assert(texts(names@) =~= before.push(labels@[i as int].name@));
        }
        i = i + 1;
    }
    assert(labels@.take(labels.len() as int) =~= labels@);
    names
}

/// `anyhow::Error`, under which the failures of `Url::parse` and `Url::join`
/// come back. Only its presence is used.
#[verifier::external_type_specification]
#[verifier::external_body]
pub struct ExAnyhowError(anyhow::Error);

/// The canonical text of the address that `Url::parse` reads from `input`;
/// `None` where it reads none.
pub uninterp spec fn normalized_url(input: Seq<char>) -> Option<Seq<char>>;

/// The canonical text of the address that `Url::join` resolves `path` to
/// against the address `base`; `None` where `base` is no address or `path`
/// cannot be resolved.
pub uninterp spec fn joined_url(base: Seq<char>, path: Seq<char>) -> Option<Seq<char>>;

/// Calls `Url::parse` and hands back the canonical text of the address. The
/// result depends on the input alone.
#[verifier::external_body]
fn parse_url(input: &str) -> (r: Result<String, anyhow::Error>)
    ensures
        match r {
            Ok(url) => normalized_url(input@) == Some(url@),
            Err(_) => normalized_url(input@).is_none(),
        },
{
    Ok(String::from(reqwest::Url::parse(input)?))
}

/// Reads `base` as an address and calls `Url::join` on it with `path`; hands
/// back the canonical text of the resolved address. The result depends on
/// the two inputs alone.
#[verifier::external_body]
fn join_url(base: &str, path: &str) -> (r: Result<String, anyhow::Error>)
    ensures
        match r {
            Ok(url) => joined_url(base@, path@) == Some(url@),
            Err(_) => joined_url(base@, path@).is_none(),
        },
{
    Ok(String::from(reqwest::Url::parse(base)?.join(path)?))
}

/// Why the gateway cannot name a request.
#[derive(Debug, Clone, Copy, PartialEq, Eq, Structural)]
pub enum GatewayError {
    /// The base address is no address, or a path cannot be resolved
    /// against it.
    InvalidUrl,
}

/// How a request is made.
#[derive(Debug, Clone, Copy, PartialEq, Eq, Structural)]
pub enum Method {
    Get,
    Post,
    Put,
    Delete,
}

/// What a request carries.
#[derive(Debug, Clone)]
pub enum Body {
    Empty,
    Labels(LabelsBody),
    Group(ApiRunnerGroupCreate),
}

/// What is compared of what a request carries.
pub enum BodyView {
    Empty,
    Labels(Seq<Seq<char>>),
    Group(GroupCreateView),
}

impl View for Body {
    type V = BodyView;

    open spec fn view(&self) -> BodyView {
        match self {
            Body::Empty => BodyView::Empty,
            Body::Labels(body) => BodyView::Labels(texts(body.labels@)),
            Body::Group(group) => BodyView::Group(group@),
        }
    }
}

/// One round trip, ready to be made: the method, the full address, and the
/// body. The address of a read is also the key under which its answer is
/// cached.
#[derive(Debug, Clone)]
pub struct Call {
    pub method: Method,
    pub url: String,
    pub body: Body,
}

/// What is compared of a round trip.
pub struct CallView {
    pub method: Method,
    pub url: Seq<char>,
    pub body: BodyView,
}

impl View for Call {
    type V = CallView;

    open spec fn view(&self) -> CallView {
        CallView { method: self.method, url: self.url@, body: self.body@ }
    }
}

/// `r` is the round trip to `path` under `base`, or the refusal of a path
/// that cannot be resolved.
pub open spec fn planned(base: Seq<char>, method: Method, path: Seq<char>, body: BodyView, r: Result<
    Call,
    GatewayError,
>) -> bool {
    match joined_url(base, path) {
        Some(url) => r.is_ok() && r.unwrap()@ == (CallView { method, url, body }),
        None => r == Err::<Call, GatewayError>(GatewayError::InvalidUrl),
    }
}

/// The answer to a read: the cached answer, or the round trip to make.
pub enum Lookup<'a, T> {
    Hit(&'a T),
    Miss(Call),
}

/// `r` is what a read of `path` under `base` comes to at time `now`: the
/// cached answer where the cache is asked and holds a fresh one under the
/// address, else the round trip to make.
pub open spec fn looked_up<T>(
    entries: Map<Seq<char>, CacheEntry<T>>,
    base: Seq<char>,
    path: Seq<char>,
    skip_cache: bool,
    now: int,
    r: Result<Lookup<T>, GatewayError>,
) -> bool {
    match joined_url(base, path) {
        Some(url) => r.is_ok() && (match lookup(entries, url, now) {
            Some(cached) => if skip_cache {
                r.unwrap() is Miss && r.unwrap()->Miss_0@ == (CallView {
                    method: Method::Get,
                    url,
                    body: BodyView::Empty,
                })
            } else {
                r.unwrap() is Hit && *r.unwrap()->Hit_0 == cached
            },
            None => r.unwrap() is Miss && r.unwrap()->Miss_0@ == (CallView {
                method: Method::Get,
                url,
                body: BodyView::Empty,
            }),
        }),
        None => r is Err,
    }
}

/// `r` is what the read comes to at some reading of the clock.
pub open spec fn looked_up_now<T>(
    entries: Map<Seq<char>, CacheEntry<T>>,
    base: Seq<char>,
    path: Seq<char>,
    skip_cache: bool,
    r: Result<Lookup<T>, GatewayError>,
) -> bool {
    exists|now: usize| #[trigger] looked_up(entries, base, path, skip_cache, now as int, r)
}

/// A miss that is written through is a hit afterwards: once the answer to
/// a read is stored under the address that the read named, the same read
/// through the cache finds that answer for as long as the default time to
/// live lasts, and a read that skips the cache still names the round trip.
pub proof fn lemma_written_through_is_hit<T>(
    entries: Map<Seq<char>, CacheEntry<T>>,
    base: Seq<char>,
    path: Seq<char>,
    response: T,
    written: usize,
    read: usize,
    r: Result<Lookup<T>, GatewayError>,
)
    requires
        joined_url(base, path).is_some(),
        read - written < crate::cache::DEFAULT_TTL,
        looked_up(
            crate::cache::stored(entries, joined_url(base, path).unwrap(), response, None, written),
            base,
            path,
            false,
            read as int,
            r,
        ),
    ensures
        r.is_ok(),
        r.unwrap() is Hit,
        *r.unwrap()->Hit_0 == response,
{
}

/// The round trip to `path` under `base`.
fn plan(base: &str, method: Method, path: &str, body: Body) -> (r: Result<Call, GatewayError>)
    ensures
        planned(base@, method, path@, body@, r),
{
    match join_url(base, path) {
        Ok(url) => Ok(Call { method, url, body }),
        Err(_) => Err(GatewayError::InvalidUrl),
    }
}

/// A read of `path` under `base` at time `now`, through `cache` unless it
/// is to be skipped.
fn cached<'a, T>(cache: &'a Cache<T>, base: &str, path: &str, skip_cache: bool, now: usize) -> (r: Result<
    Lookup<'a, T>,
    GatewayError,
>)
    ensures
        looked_up(cache@, base@, path@, skip_cache, now as int, r),
{
    let url = match join_url(base, path) {
        Ok(url) => url,
        Err(_) => {
            return Err(GatewayError::InvalidUrl);
        },
    };
    if !skip_cache {
        match cache.get_at(url.as_str(), now) {
            Some(hit) => {
                return Ok(Lookup::Hit(hit));
            },
            None => {},
        }
    }
    Ok(Lookup::Miss(Call { method: Method::Get, url, body: Body::Empty }))
}

/// The path of the runners.
pub open spec fn runners_path() -> Seq<char> {
    "actions/runners"@
}

/// The path of the labels of a runner.
pub open spec fn labels_path(runner_id: usize) -> Seq<char> {
    "actions/runners/"@ + decimal_digits(runner_id as nat) + "/labels"@
}

/// The path of one label of a runner.
pub open spec fn label_path(runner_id: usize, label: Seq<char>) -> Seq<char> {
    labels_path(runner_id) + "/"@ + label
}

/// The path of the runner groups.
pub open spec fn groups_path() -> Seq<char> {
    "actions/runner-groups"@
}

/// The path of what belongs to a runner group: `what` is `/runners` or
/// `/repositories`.
pub open spec fn group_path(group_id: usize, what: Seq<char>) -> Seq<char> {
    "actions/runner-groups/"@ + decimal_digits(group_id as nat) + what
}

/// The path of one member, a runner or a repository, of a runner group.
pub open spec fn member_path(group_id: usize, what: Seq<char>, member: usize) -> Seq<char> {
    group_path(group_id, what) + "/"@ + decimal_digits(member as nat)
}

/// The path of a repository of an organisation, from the root of the host.
pub open spec fn repo_path(org: Seq<char>, repo: Seq<char>) -> Seq<char> {
    "/repos/"@ + org + "/"@ + repo
}

fn group_path_of(group_id: usize, what: &str) -> (path: String)
    ensures
        path@ == group_path(group_id, what@),
{
    let mut path = String::from_str("actions/runner-groups/");
    path.append(decimal(group_id).as_str());
    path.append(what);
    path
}

fn member_path_of(group_id: usize, what: &str, member: usize) -> (path: String)
    ensures
        path@ == member_path(group_id, what@, member),
{
    let mut path = group_path_of(group_id, what);
    path.append("/");
    path.append(decimal(member).as_str());
    path
}

fn labels_path_of(runner_id: usize) -> (path: String)
    ensures
        path@ == labels_path(runner_id),
{
    let mut path = String::from_str("actions/runners/");
    path.append(decimal(runner_id).as_str());
    path.append("/labels");
    path
}

/// The gateway's side of the core: the base address of the organisation,
/// and the cached answers of the two reads that are cached.
pub struct Client {
    api_base: String,
    runners: Cache<RunnersResponse>,
    runner_groups: Cache<RunnersGroupResponse>,
}

/// The operations on runners.
pub struct RunnersEndpoint<'c>(pub &'c Client);

/// The operations on runner groups.
pub struct RunnersGroupsEndpoint<'c>(pub &'c Client);

/// The operations on repositories.
pub struct RepoEndpoint<'c>(pub &'c Client);

impl Client {
    /// The canonical text of the base address.
    pub closed spec fn base(&self) -> Seq<char> {
        self.api_base@
    }

    /// The cached answers to reads of the runners of a group.
    pub closed spec fn cached_runners(&self) -> Map<Seq<char>, CacheEntry<RunnersResponse>> {
        self.runners@
    }

    /// The cached answers to reads of the runner groups.
    pub closed spec fn cached_groups(&self) -> Map<Seq<char>, CacheEntry<RunnersGroupResponse>> {
        self.runner_groups@
    }

    /// A gateway under the base address `api_base`, with empty caches. A
    /// text that is no address is refused.
    pub fn new(api_base: &str) -> (r: Result<Client, GatewayError>)
        ensures
            match r {
                Ok(client) => normalized_url(api_base@) == Some(client.base()) && client.cached_runners()
                    == Map::<Seq<char>, CacheEntry<RunnersResponse>>::empty() && client.cached_groups() == Map::<
                    Seq<char>,
                    CacheEntry<RunnersGroupResponse>,
                >::empty(),
                Err(e) => normalized_url(api_base@).is_none() && e == GatewayError::InvalidUrl,
            },
    {
        match parse_url(api_base) {
            Ok(url) => Ok(Client { api_base: url, runners: Cache::new(), runner_groups: Cache::new() }),
            Err(_) => Err(GatewayError::InvalidUrl),
        }
    }

    /// The canonical text of the base address.
    pub fn api_base(&self) -> (base: &String)
        ensures
            base@ == self.base(),
    {
        &self.api_base
    }

    pub fn runners(&self) -> (endpoint: RunnersEndpoint<'_>)
        ensures
            endpoint.0 == self,
    {
        RunnersEndpoint(self)
    }

    pub fn runner_groups(&self) -> (endpoint: RunnersGroupsEndpoint<'_>)
        ensures
            endpoint.0 == self,
    {
        RunnersGroupsEndpoint(self)
    }

    pub fn repos(&self) -> (endpoint: RepoEndpoint<'_>)
        ensures
            endpoint.0 == self,
    {
        RepoEndpoint(self)
    }

    /// Writes the answer to a missed read of the runner groups through to
    /// the cache at time `now`: under the address of `miss`, the round trip
    /// that the read named, and with the default time to live. This follows
    /// every round trip, also one that skipped the cache.
    pub fn store_runner_groups_at(&mut self, miss: Call, response: RunnersGroupResponse, now: usize)
        ensures
            final(self).base() == old(self).base(),
            final(self).cached_runners() == old(self).cached_runners(),
            final(self).cached_groups() == crate::cache::stored(
                old(self).cached_groups(),
                miss.url@,
                response,
                None,
                now,
            ),
    {
        self.runner_groups.insert_at(miss.url, response, None, now);
    }

    /// Writes the answer to a missed read of the runner groups through to
    /// the cache, stamped with the current time: what `store_runner_groups_at`
    /// does for the reading of the clock, whatever it is.
    pub fn store_runner_groups(&mut self, miss: Call, response: RunnersGroupResponse)
        ensures
            final(self).base() == old(self).base(),
            final(self).cached_runners() == old(self).cached_runners(),
            crate::cache::stored_now(
                old(self).cached_groups(),
                miss.url@,
                response,
                None,
                final(self).cached_groups(),
            ),
    {
        self.runner_groups.insert(miss.url, response);
    }

    /// Writes the answer to a missed read of the runners of a group through
    /// to the cache at time `now`: under the address of `miss`, the round
    /// trip that the read named, and with the default time to live.
    pub fn store_runners_at(&mut self, miss: Call, response: RunnersResponse, now: usize)
        ensures
            final(self).base() == old(self).base(),
            final(self).cached_groups() == old(self).cached_groups(),
            final(self).cached_runners() == crate::cache::stored(
                old(self).cached_runners(),
                miss.url@,
                response,
                None,
                now,
            ),
    {
        self.runners.insert_at(miss.url, response, None, now);
    }

    /// Writes the answer to a missed read of the runners of a group through
    /// to the cache, stamped with the current time: what `store_runners_at`
    /// does for the reading of the clock, whatever it is.
    pub fn store_runners(&mut self, miss: Call, response: RunnersResponse)
        ensures
            final(self).base() == old(self).base(),
            final(self).cached_groups() == old(self).cached_groups(),
            crate::cache::stored_now(
                old(self).cached_runners(),
                miss.url@,
                response,
                None,
                final(self).cached_runners(),
            ),
    {
        self.runners.insert(miss.url, response);
    }
}

impl<'c> RunnersEndpoint<'c> {
    /// The read of all runners.
    pub fn get_all(&self) -> (r: Result<Call, GatewayError>)
        ensures
            planned(self.0.base(), Method::Get, runners_path(), BodyView::Empty, r),
    {
        plan(self.0.api_base.as_str(), Method::Get, "actions/runners", Body::Empty)
    }

    /// The request that adds `labels` to runner `id`.
    pub fn add_label(&self, id: usize, labels: Vec<String>) -> (r: Result<Call, GatewayError>)
        ensures
            planned(self.0.base(), Method::Post, labels_path(id), BodyView::Labels(texts(labels@)), r),
    {
        let path = labels_path_of(id);
        plan(self.0.api_base.as_str(), Method::Post, path.as_str(), Body::Labels(LabelsBody { labels }))
    }

    /// The request that removes `label` from runner `id`.
    pub fn remove_label(&self, id: usize, label: String) -> (r: Result<Call, GatewayError>)
        ensures
            planned(self.0.base(), Method::Delete, label_path(id, label@), BodyView::Empty, r),
    {
        let mut path = labels_path_of(id);
        path.append("/");
        path.append(label.as_str());
        plan(self.0.api_base.as_str(), Method::Delete, path.as_str(), Body::Empty)
    }
}

impl<'c> RunnersGroupsEndpoint<'c> {
    /// The read of all runner groups at time `now`, through the cache
    /// unless `skip_cache` is set.
    pub fn get_all_at(&self, skip_cache: bool, now: usize) -> (r: Result<
        Lookup<'c, RunnersGroupResponse>,
        GatewayError,
    >)
        ensures
            looked_up(self.0.cached_groups(), self.0.base(), groups_path(), skip_cache, now as int, r),
    {
        cached(&self.0.runner_groups, self.0.api_base.as_str(), "actions/runner-groups", skip_cache, now)
    }

    /// The read of all runner groups by the wall clock: the answer of
    /// `get_all_at` for the reading of the clock, whatever it is.
    pub fn get_all(&self, skip_cache: bool) -> (r: Result<Lookup<'c, RunnersGroupResponse>, GatewayError>)
        ensures
            looked_up_now(self.0.cached_groups(), self.0.base(), groups_path(), skip_cache, r),
    {
        let now = unix_seconds();
        let r = self.get_all_at(skip_cache, now);
        assert(looked_up(self.0.cached_groups(), self.0.base(), groups_path(), skip_cache, now as int, r));
        r
    }

    /// The read of the runners of group `group_id` at time `now`, through
    /// the cache unless `skip_cache` is set.
    pub fn get_runners_at(&self, group_id: usize, skip_cache: bool, now: usize) -> (r: Result<
        Lookup<'c, RunnersResponse>,
        GatewayError,
    >)
        ensures
            looked_up(
                self.0.cached_runners(),
                self.0.base(),
                group_path(group_id, "/runners"@),
                skip_cache,
                now as int,
                r,
            ),
    {
        let path = group_path_of(group_id, "/runners");
        cached(&self.0.runners, self.0.api_base.as_str(), path.as_str(), skip_cache, now)
    }

    /// The read of the runners of group `group_id` by the wall clock: the
    /// answer of `get_runners_at` for the reading of the clock, whatever it
    /// is.
    pub fn get_runners(&self, group_id: usize, skip_cache: bool) -> (r: Result<
        Lookup<'c, RunnersResponse>,
        GatewayError,
    >)
        ensures
            looked_up_now(self.0.cached_runners(), self.0.base(), group_path(group_id, "/runners"@), skip_cache, r),
    {
        let now = unix_seconds();
        let r = self.get_runners_at(group_id, skip_cache, now);
        assert(looked_up(
            self.0.cached_runners(),
            self.0.base(),
            group_path(group_id, "/runners"@),
            skip_cache,
            now as int,
            r,
        ));
        r
    }

    /// The request that creates a runner group.
    pub fn create_runner_group(&self, runner_group: ApiRunnerGroupCreate) -> (r: Result<Call, GatewayError>)
        ensures
            planned(self.0.base(), Method::Post, groups_path(), BodyView::Group(runner_group@), r),
    {
        plan(self.0.api_base.as_str(), Method::Post, "actions/runner-groups", Body::Group(runner_group))
    }

    /// The request that makes runner `runner_id` a member of group
    /// `runner_group_id`.
    pub fn add_runner_to_group(&self, runner_id: usize, runner_group_id: usize) -> (r: Result<Call, GatewayError>)
        ensures
            planned(
                self.0.base(),
                Method::Put,
                member_path(runner_group_id, "/runners"@, runner_id),
                BodyView::Empty,
                r,
            ),
    {
        let path = member_path_of(runner_group_id, "/runners", runner_id);
        plan(self.0.api_base.as_str(), Method::Put, path.as_str(), Body::Empty)
    }

    /// The request that gives repository `repo_id` access to group
    /// `runner_group_id`.
    pub fn add_repo_access(&self, runner_group_id: usize, repo_id: usize) -> (r: Result<Call, GatewayError>)
        ensures
            planned(
                self.0.base(),
                Method::Put,
                member_path(runner_group_id, "/repositories"@, repo_id),
                BodyView::Empty,
                r,
            ),
    {
        let path = member_path_of(runner_group_id, "/repositories", repo_id);
        plan(self.0.api_base.as_str(), Method::Put, path.as_str(), Body::Empty)
    }

    /// The read of the repositories with access to group `runner_group_id`.
    pub fn get_group_repos(&self, runner_group_id: usize) -> (r: Result<Call, GatewayError>)
        ensures
            planned(
                self.0.base(),
                Method::Get,
                group_path(runner_group_id, "/repositories"@),
                BodyView::Empty,
                r,
            ),
    {
        let path = group_path_of(runner_group_id, "/repositories");
        plan(self.0.api_base.as_str(), Method::Get, path.as_str(), Body::Empty)
    }
}

impl<'c> RepoEndpoint<'c> {
    /// The read of repository `repo` of organisation `org`.
    pub fn get_repo(&self, org: &str, repo: &str) -> (r: Result<Call, GatewayError>)
        ensures
            planned(self.0.base(), Method::Get, repo_path(org@, repo@), BodyView::Empty, r),
    {
        let mut path = String::from_str("/repos/");
        path.append(org);
        path.append("/");
        path.append(repo);
        plan(self.0.api_base.as_str(), Method::Get, path.as_str(), Body::Empty)
    }
}

} // verus!
