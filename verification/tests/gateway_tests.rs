use runner_dash::api::ApiRunnerGroupCreate;
use runner_dash::api::Body;
use runner_dash::api::Call;
use runner_dash::api::Client;
use runner_dash::api::GatewayError;
use runner_dash::api::Lookup;
use runner_dash::api::Method;
use runner_dash::api::RunnerGroupVisibility;
use runner_dash::api::RunnersGroupResponse;
use runner_dash::api::RunnersResponse;

const BASE: &str = "https://api.github.com/orgs/acme/";

fn client() -> Client {
    Client::new(BASE).unwrap()
}

fn url_of(call: Result<Call, GatewayError>) -> String {
    call.unwrap().url
}

#[test]
fn base_must_be_an_address() {
    assert!(Client::new(BASE).is_ok());
    assert_eq!(Client::new("not an address").err(), Some(GatewayError::InvalidUrl));
    assert_eq!(Client::new("").err(), Some(GatewayError::InvalidUrl));
}

#[test]
fn runner_paths() {
    let c = client();
    let call = c.runners().get_all().unwrap();
    assert_eq!(call.method, Method::Get);
    assert_eq!(call.url, "https://api.github.com/orgs/acme/actions/runners");
    assert!(matches!(call.body, Body::Empty));
    let call = c.runners().add_label(7, vec!["gpu".to_string()]).unwrap();
    assert_eq!(call.method, Method::Post);
    assert_eq!(call.url, "https://api.github.com/orgs/acme/actions/runners/7/labels");
    match call.body {
        Body::Labels(body) => assert_eq!(body.labels, vec!["gpu"]),
        _ => panic!("no labels"),
    }
    let call = c.runners().remove_label(12, "gpu".to_string()).unwrap();
    assert_eq!(call.method, Method::Delete);
    assert_eq!(call.url, "https://api.github.com/orgs/acme/actions/runners/12/labels/gpu");
}

#[test]
fn group_paths() {
    let c = client();
    let spec = ApiRunnerGroupCreate {
        name: "n".to_string(),
        visibility: RunnerGroupVisibility::Selected,
        selected_repository_ids: vec![],
        runners: vec![],
    };
    let call = c.runner_groups().create_runner_group(spec).unwrap();
    assert_eq!(call.method, Method::Post);
    assert_eq!(call.url, "https://api.github.com/orgs/acme/actions/runner-groups");
    match call.body {
        Body::Group(g) => assert_eq!(g.name, "n"),
        _ => panic!("no group"),
    }
    let call = c.runner_groups().add_runner_to_group(7, 20).unwrap();
    assert_eq!(call.method, Method::Put);
    assert_eq!(call.url, "https://api.github.com/orgs/acme/actions/runner-groups/20/runners/7");
    let call = c.runner_groups().add_repo_access(20, 99).unwrap();
    assert_eq!(call.method, Method::Put);
    assert_eq!(call.url, "https://api.github.com/orgs/acme/actions/runner-groups/20/repositories/99");
    let call = c.runner_groups().get_group_repos(20).unwrap();
    assert_eq!(call.method, Method::Get);
    assert_eq!(call.url, "https://api.github.com/orgs/acme/actions/runner-groups/20/repositories");
}

#[test]
fn repository_path_starts_at_the_root() {
    let c = client();
    let call = c.repos().get_repo("acme", "tools").unwrap();
    assert_eq!(call.method, Method::Get);
    assert_eq!(call.url, "https://api.github.com/repos/acme/tools");
}

#[test]
fn address_is_made_canonical() {
    let c = Client::new("HTTPS://API.GitHub.com/orgs/acme/x/../").unwrap();
    assert_eq!(c.api_base().as_str(), "https://api.github.com/orgs/acme/");
    assert_eq!(Client::new("http://example.org").unwrap().api_base().as_str(), "http://example.org/");
    assert_eq!(url_of(c.runners().get_all()), "https://api.github.com/orgs/acme/actions/runners");
    let c = Client::new("https://example.org/a/b").unwrap();
    assert_eq!(url_of(c.runners().get_all()), "https://example.org/a/actions/runners");
}

#[test]
fn groups_read_misses_then_hits() {
    let mut c = client();
    let miss = match c.runner_groups().get_all_at(false, 1000).unwrap() {
        Lookup::Miss(call) => {
            assert_eq!(call.method, Method::Get);
            assert_eq!(call.url, "https://api.github.com/orgs/acme/actions/runner-groups");
            call
        },
        Lookup::Hit(_) => panic!("empty cache hit"),
    };
    c.store_runner_groups(miss, RunnersGroupResponse { total_count: 5, runner_groups: vec![] });
    match c.runner_groups().get_all(false).unwrap() {
        Lookup::Hit(r) => assert_eq!(r.total_count, 5),
        Lookup::Miss(_) => panic!("fresh entry missed"),
    }
    assert!(matches!(c.runner_groups().get_all(true).unwrap(), Lookup::Miss(_)));
    assert!(matches!(c.runner_groups().get_all_at(true, 0).unwrap(), Lookup::Miss(_)));
    assert!(matches!(c.runner_groups().get_all_at(false, usize::MAX).unwrap(), Lookup::Miss(_)));
}

#[test]
fn runners_read_is_cached_per_group() {
    let mut c = client();
    let miss = match c.runner_groups().get_runners(20, false).unwrap() {
        Lookup::Miss(call) => {
            assert_eq!(call.url, "https://api.github.com/orgs/acme/actions/runner-groups/20/runners");
            call
        },
        Lookup::Hit(_) => panic!("empty cache hit"),
    };
    c.store_runners(miss, RunnersResponse { total_count: 1, runners: vec![] });
    match c.runner_groups().get_runners(20, false).unwrap() {
        Lookup::Hit(r) => assert_eq!(r.total_count, 1),
        Lookup::Miss(_) => panic!("fresh entry missed"),
    }
    assert!(matches!(c.runner_groups().get_runners(21, false).unwrap(), Lookup::Miss(_)));
    assert!(matches!(c.runner_groups().get_runners(20, true).unwrap(), Lookup::Miss(_)));
    assert!(matches!(c.runner_groups().get_runners_at(20, false, usize::MAX).unwrap(), Lookup::Miss(_)));
    assert!(matches!(c.runner_groups().get_all(false).unwrap(), Lookup::Miss(_)));
}

fn miss_of<T>(lookup: Lookup<'_, T>) -> Call {
    match lookup {
        Lookup::Miss(call) => call,
        Lookup::Hit(_) => panic!("hit where a miss was due"),
    }
}

#[test]
fn write_through_at_a_given_time_lives_for_the_default_ttl() {
    let mut c = client();
    let miss = miss_of(c.runner_groups().get_all_at(true, 1000).unwrap());
    c.store_runner_groups_at(miss, RunnersGroupResponse { total_count: 2, runner_groups: vec![] }, 1000);
    assert!(matches!(c.runner_groups().get_all_at(false, 1000).unwrap(), Lookup::Hit(_)));
    assert!(matches!(c.runner_groups().get_all_at(false, 1299).unwrap(), Lookup::Hit(_)));
    assert!(matches!(c.runner_groups().get_all_at(false, 1300).unwrap(), Lookup::Miss(_)));
    assert!(matches!(c.runner_groups().get_all_at(true, 1001).unwrap(), Lookup::Miss(_)));
    let miss = miss_of(c.runner_groups().get_runners_at(3, false, 50).unwrap());
    c.store_runners_at(miss, RunnersResponse { total_count: 9, runners: vec![] }, 50);
    match c.runner_groups().get_runners_at(3, false, 349).unwrap() {
        Lookup::Hit(r) => assert_eq!(r.total_count, 9),
        Lookup::Miss(_) => panic!("fresh entry missed"),
    }
    assert!(matches!(c.runner_groups().get_runners_at(3, false, 350).unwrap(), Lookup::Miss(_)));
    assert!(matches!(c.runner_groups().get_runners_at(4, false, 60).unwrap(), Lookup::Miss(_)));
}
