use runner_dash::api::APILabel;
use runner_dash::api::ApiRepositoriesResponse;
use runner_dash::api::ApiRepository;
use runner_dash::api::ApiRunner;
use runner_dash::api::ApiRunnerGroup;
use runner_dash::api::ApiRunnerGroupCreate;
use runner_dash::api::RunnerGroupVisibility;
use runner_dash::api::RunnersGroupResponse;
use runner_dash::api::RunnersResponse;
use runner_dash::backend::ApiMessage;
use runner_dash::backend::BackendMessage;
use runner_dash::backend::HaltReason;
use runner_dash::backend::Request;
use runner_dash::backend::Response;
use runner_dash::backend::Step;
use runner_dash::backend::Worker;
use runner_dash::backend::WorkerInput;
use runner_dash::config::Config;
use runner_dash::runners::RunnerStatus;

fn worker() -> Worker {
    Worker::new(Config { organization: "acme".to_string(), token: "t".to_string() })
}

fn group(id: usize, name: &str) -> ApiRunnerGroup {
    ApiRunnerGroup {
        id,
        name: name.to_string(),
        visibility: RunnerGroupVisibility::All,
        default: false,
        selected_repositories_url: None,
        runners_url: String::new(),
        inherited: false,
        allows_public_repositories: true,
        restricted_to_workflows: false,
        selected_workflows: vec![],
        workflow_restrictions_read_only: false,
    }
}

fn groups(list: Vec<ApiRunnerGroup>) -> RunnersGroupResponse {
    RunnersGroupResponse { total_count: list.len(), runner_groups: list }
}

fn runner(id: usize, name: &str, labels: &[&str]) -> ApiRunner {
    ApiRunner {
        id,
        name: name.to_string(),
        os: "linux".to_string(),
        status: "online".to_string(),
        busy: false,
        ephemeral: None,
        labels: labels
            .iter()
            .map(|l| APILabel { id: 0, name: l.to_string(), label_type: "custom".to_string() })
            .collect(),
        group_id: 0,
    }
}

fn answer(list: Vec<ApiRunner>) -> RunnersResponse {
    RunnersResponse { total_count: list.len(), runners: list }
}

fn command(w: &mut Worker, m: BackendMessage) -> Step {
    w.run(WorkerInput::Command(m))
}

fn reply(w: &mut Worker, r: Response) -> Step {
    w.run(WorkerInput::Reply(r))
}

fn two_groups() -> RunnersGroupResponse {
    groups(vec![group(10, "A"), group(20, "B")])
}

fn two_answers() -> Vec<RunnersResponse> {
    vec![answer(vec![runner(1, "r1", &[]), runner(2, "r2", &[])]), answer(vec![runner(3, "r3", &[])])]
}

fn tags(event: &ApiMessage) -> Vec<(usize, String, Option<String>)> {
    match event {
        ApiMessage::RunnerList(list) => list.iter().map(|r| (r.id, r.name.clone(), r.group.clone())).collect(),
        _ => panic!("not a runner list"),
    }
}

#[test]
fn fetch_groups_lists_the_groups() {
    let mut w = worker();
    assert!(w.is_idle());
    let step = command(&mut w, BackendMessage::FetchGroups);
    assert!(step.events.is_empty());
    assert!(matches!(step.request, Some(Request::ListGroups { skip_cache: false })));
    assert!(!w.is_idle());
    let step = reply(&mut w, Response::Groups(two_groups()));
    assert!(step.request.is_none());
    assert_eq!(step.events.len(), 1);
    match &step.events[0] {
        ApiMessage::RunnerGroupList(list) => {
            assert_eq!(list.len(), 2);
            assert_eq!(list[0].id, 10);
            assert_eq!(list[0].name, "A");
            assert_eq!(list[1].id, 20);
            assert_eq!(list[1].name, "B");
        },
        _ => panic!("not a group list"),
    }
    assert!(w.is_idle());
}

#[test]
fn fetch_runners_lists_groups_before_runners() {
    let mut w = worker();
    let step = command(&mut w, BackendMessage::FetchRunners);
    assert!(matches!(step.request, Some(Request::ListGroups { skip_cache: false })));
    let step = reply(&mut w, Response::Groups(two_groups()));
    assert_eq!(step.events.len(), 1);
    assert!(matches!(step.events[0], ApiMessage::RunnerGroupList(_)));
    match step.request {
        Some(Request::ListGroupRunners { group_ids, skip_cache }) => {
            assert_eq!(group_ids, vec![10, 20]);
            assert!(!skip_cache);
        },
        _ => panic!("no fan-out"),
    }
    let step = reply(&mut w, Response::GroupRunners(two_answers()));
    assert!(step.request.is_none());
    assert_eq!(step.events.len(), 1);
    assert!(matches!(step.events[0], ApiMessage::RunnerList(_)));
    assert!(w.is_idle());
}

#[test]
fn merge_tags_each_runner_with_its_group() {
    let mut w = worker();
    command(&mut w, BackendMessage::FetchRunners);
    reply(&mut w, Response::Groups(two_groups()));
    let step = reply(&mut w, Response::GroupRunners(two_answers()));
    assert_eq!(
        tags(&step.events[0]),
        vec![
            (1, "r1".to_string(), Some("A".to_string())),
            (2, "r2".to_string(), Some("A".to_string())),
            (3, "r3".to_string(), Some("B".to_string())),
        ]
    );
}

#[test]
fn merge_follows_dispatch_order() {
    let names = vec!["B".to_string(), "empty".to_string(), "A".to_string()];
    let results = vec![
        answer(vec![runner(3, "r3", &["x"])]),
        answer(vec![]),
        answer(vec![runner(1, "r1", &[]), runner(2, "r2", &[])]),
    ];
    let merged = Worker::get_runners(&names, &results).unwrap();
    let ids: Vec<usize> = merged.iter().map(|r| r.id).collect();
    assert_eq!(ids, vec![3, 1, 2]);
    let groups: Vec<Option<String>> = merged.iter().map(|r| r.group.clone()).collect();
    assert_eq!(groups, vec![Some("B".to_string()), Some("A".to_string()), Some("A".to_string())]);
    assert_eq!(merged[0].labels, vec!["x"]);
    assert_eq!(merged[0].status, RunnerStatus::Online);
    assert!(Worker::get_runners(&vec![], &vec![]).unwrap().is_empty());
}

#[test]
fn merge_fails_on_an_unknown_status() {
    let mut bad = runner(2, "r2", &[]);
    bad.status = "weird".to_string();
    let results = vec![answer(vec![runner(1, "r1", &[])]), answer(vec![bad])];
    let names = vec!["A".to_string(), "B".to_string()];
    assert_eq!(Worker::get_runners(&names, &results).err(), Some("Unknown runner status: weird".to_string()));
    assert_eq!(
        Worker::tag_runners(&results[1].runners, &names[1]).err(),
        Some("Unknown runner status: weird".to_string())
    );
    let mut w = worker();
    command(&mut w, BackendMessage::FetchRunners);
    reply(&mut w, Response::Groups(two_groups()));
    let step = reply(&mut w, Response::GroupRunners(results));
    assert!(step.events.is_empty());
    assert_eq!(w.halted(), Some(HaltReason::UnknownStatus));
}

#[test]
fn group_keys_and_lookup() {
    let list = vec![group(10, "A"), group(20, "B"), group(30, "A")];
    let (ids, names) = Worker::group_keys(&list);
    assert_eq!(ids, vec![10, 20, 30]);
    assert_eq!(names, vec!["A", "B", "A"]);
    assert_eq!(Worker::find_group(&list, "A"), Some(10));
    assert_eq!(Worker::find_group(&list, "B"), Some(20));
    assert_eq!(Worker::find_group(&list, "C"), None);
    let made = Worker::get_runner_groups(&list);
    assert_eq!(made.len(), 3);
    assert_eq!(made[2].id, 30);
    assert_eq!(made[2].visibility, RunnerGroupVisibility::All);
}

#[test]
fn events_follow_command_order() {
    let mut w = worker();
    let mut seen: Vec<&'static str> = Vec::new();
    let mut note = |step: &Step| {
        for e in &step.events {
            seen.push(match e {
                ApiMessage::Completed => "ok",
                ApiMessage::RunnerList(_) => "runners",
                ApiMessage::RunnerGroupList(_) => "groups",
                ApiMessage::GroupRepos(_) => "repos",
            });
        }
    };
    note(&command(&mut w, BackendMessage::FetchGroups));
    note(&reply(&mut w, Response::Groups(two_groups())));
    note(&command(&mut w, BackendMessage::FetchRunners));
    note(&reply(&mut w, Response::Groups(two_groups())));
    note(&reply(&mut w, Response::GroupRunners(two_answers())));
    note(&command(&mut w, BackendMessage::AddLabel(1, "gpu".to_string())));
    note(&reply(&mut w, Response::Done));
    note(&reply(&mut w, Response::Groups(two_groups())));
    note(&reply(&mut w, Response::GroupRunners(two_answers())));
    assert_eq!(seen, vec!["groups", "groups", "runners", "groups", "runners"]);
    assert!(w.is_idle());
}

#[test]
fn add_label_round_trip() {
    let mut w = worker();
    let step = command(&mut w, BackendMessage::AddLabel(7, "gpu".to_string()));
    assert!(step.events.is_empty());
    let mut remote = runner(7, "r7", &[]);
    match step.request {
        Some(Request::AddLabel { runner_id, labels }) => {
            assert_eq!(runner_id, 7);
            assert_eq!(labels, vec!["gpu"]);
            for l in labels {
                remote.labels.push(APILabel { id: 1, name: l, label_type: "custom".to_string() });
            }
        },
        _ => panic!("no add-label request"),
    }
    let step = reply(&mut w, Response::Done);
    assert!(step.events.is_empty());
    assert!(matches!(step.request, Some(Request::ListGroups { skip_cache: true })));
    let step = reply(&mut w, Response::Groups(groups(vec![group(10, "A")])));
    assert!(matches!(step.request, Some(Request::ListGroupRunners { skip_cache: true, .. })));
    let step = reply(&mut w, Response::GroupRunners(vec![answer(vec![remote])]));
    assert_eq!(step.events.len(), 1);
    match &step.events[0] {
        ApiMessage::RunnerList(list) => {
            let r7 = list.iter().find(|r| r.id == 7).unwrap();
            assert!(r7.labels.contains(&"gpu".to_string()));
            assert_eq!(r7.group, Some("A".to_string()));
        },
        _ => panic!("not a runner list"),
    }
    assert!(w.is_idle());
}

#[test]
fn delete_label_refreshes_past_the_cache() {
    let mut w = worker();
    let step = command(&mut w, BackendMessage::DeleteLabel(7, "gpu".to_string()));
    match step.request {
        Some(Request::RemoveLabel { runner_id, label }) => {
            assert_eq!(runner_id, 7);
            assert_eq!(label, "gpu");
        },
        _ => panic!("no remove-label request"),
    }
    let step = reply(&mut w, Response::Done);
    assert!(matches!(step.request, Some(Request::ListGroups { skip_cache: true })));
}

#[test]
fn change_group_resolves_the_name() {
    let mut w = worker();
    let step = command(&mut w, BackendMessage::ChangeGroup(7, "B".to_string()));
    assert!(matches!(step.request, Some(Request::ListGroups { skip_cache: true })));
    let step = reply(&mut w, Response::Groups(two_groups()));
    assert!(step.events.is_empty());
    assert!(matches!(step.request, Some(Request::AddRunnerToGroup { runner_id: 7, group_id: 20 })));
    let step = reply(&mut w, Response::Done);
    assert!(matches!(step.request, Some(Request::ListGroups { skip_cache: true })));
}

#[test]
fn change_group_to_a_missing_group_stops_the_worker() {
    let mut w = worker();
    command(&mut w, BackendMessage::ChangeGroup(7, "Z".to_string()));
    let step = reply(&mut w, Response::Groups(two_groups()));
    assert!(step.events.is_empty());
    assert!(step.request.is_none());
    assert_eq!(w.halted(), Some(HaltReason::GroupNotFound));
    let step = command(&mut w, BackendMessage::FetchGroups);
    assert!(step.events.is_empty());
    assert!(step.request.is_none());
    assert_eq!(w.halted(), Some(HaltReason::GroupNotFound));
}

#[test]
fn add_repo_looks_the_repository_up_first() {
    let mut w = worker();
    let step = command(&mut w, BackendMessage::AddRepoToGroup("tools".to_string(), 20));
    match step.request {
        Some(Request::GetRepo { organization, name }) => {
            assert_eq!(organization, "acme");
            assert_eq!(name, "tools");
        },
        _ => panic!("no repository lookup"),
    }
    let step = reply(&mut w, Response::Repo(ApiRepository { id: 99, name: "tools".to_string() }));
    assert!(matches!(step.request, Some(Request::AddRepoAccess { group_id: 20, repo_id: 99 })));
    let step = reply(&mut w, Response::Done);
    assert!(matches!(step.request, Some(Request::ListGroups { skip_cache: true })));
    reply(&mut w, Response::Groups(two_groups()));
    let step = reply(&mut w, Response::GroupRunners(two_answers()));
    assert_eq!(step.events.len(), 2);
    assert!(matches!(step.events[0], ApiMessage::RunnerList(_)));
    assert!(matches!(step.events[1], ApiMessage::Completed));
    assert!(w.is_idle());
}

#[test]
fn create_group_refreshes_and_completes() {
    let mut w = worker();
    let spec = ApiRunnerGroupCreate {
        name: "new".to_string(),
        visibility: RunnerGroupVisibility::Selected,
        selected_repository_ids: vec![],
        runners: vec![],
    };
    let step = command(&mut w, BackendMessage::CreateRunnerGroup(Box::new(spec)));
    match step.request {
        Some(Request::CreateGroup(g)) => {
            assert_eq!(g.name, "new");
            assert_eq!(g.visibility, RunnerGroupVisibility::Selected);
        },
        _ => panic!("no create request"),
    }
    let step = reply(&mut w, Response::Created(group(30, "new")));
    assert!(matches!(step.request, Some(Request::ListGroups { skip_cache: true })));
    let step = reply(&mut w, Response::Groups(groups(vec![])));
    assert!(matches!(step.events[0], ApiMessage::RunnerGroupList(_)));
    let step = reply(&mut w, Response::GroupRunners(vec![]));
    assert_eq!(step.events.len(), 2);
    assert!(matches!(step.events[1], ApiMessage::Completed));
}

#[test]
fn group_repos_are_passed_on() {
    let mut w = worker();
    let step = command(&mut w, BackendMessage::GetGroupRepos(20));
    assert!(matches!(step.request, Some(Request::ListGroupRepos { group_id: 20 })));
    let repos = vec![ApiRepository { id: 1, name: "a".to_string() }, ApiRepository { id: 2, name: "b".to_string() }];
    let step = reply(&mut w, Response::GroupRepos(ApiRepositoriesResponse { total_count: 2, repositories: repos }));
    assert_eq!(step.events.len(), 1);
    match &step.events[0] {
        ApiMessage::GroupRepos(list) => {
            assert_eq!(list.len(), 2);
            assert_eq!(list[1].name, "b");
        },
        _ => panic!("not a repository list"),
    }
    assert!(w.is_idle());
}

#[test]
fn failed_round_trip_stops_the_worker() {
    let mut w = worker();
    command(&mut w, BackendMessage::FetchRunners);
    let step = reply(&mut w, Response::Failed);
    assert!(step.events.is_empty());
    assert!(step.request.is_none());
    assert_eq!(w.halted(), Some(HaltReason::Network));
    assert!(!w.is_idle());
}

#[test]
fn unexpected_inputs_stop_the_worker() {
    let mut w = worker();
    let step = reply(&mut w, Response::Done);
    assert!(step.request.is_none());
    assert_eq!(w.halted(), Some(HaltReason::Unexpected));
    let mut w = worker();
    command(&mut w, BackendMessage::FetchGroups);
    command(&mut w, BackendMessage::FetchGroups);
    assert_eq!(w.halted(), Some(HaltReason::Unexpected));
    let mut w = worker();
    command(&mut w, BackendMessage::FetchGroups);
    reply(&mut w, Response::Done);
    assert_eq!(w.halted(), Some(HaltReason::Unexpected));
    let mut w = worker();
    command(&mut w, BackendMessage::FetchRunners);
    reply(&mut w, Response::Groups(two_groups()));
    reply(&mut w, Response::GroupRunners(vec![answer(vec![])]));
    assert_eq!(w.halted(), Some(HaltReason::Unexpected));
}

#[test]
fn refresh_skips_the_cache() {
    let mut w = worker();
    let step = w.refresh_runners(true);
    assert!(step.events.is_empty());
    assert!(matches!(step.request, Some(Request::ListGroups { skip_cache: true })));
    reply(&mut w, Response::Groups(groups(vec![])));
    let step = reply(&mut w, Response::GroupRunners(vec![]));
    assert_eq!(step.events.len(), 2);
    assert!(w.halted().is_none());
}
