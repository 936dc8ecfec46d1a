use watchtower_client::cache::service_url;
use watchtower_client::client::HEARTBEAT_INTERVAL_SEC;
use watchtower_client::load_balancer::RoundRobinLoadBalancer;
use watchtower_client::resources::http_client::{Call, Method, Operation, Reply, Step};
use watchtower_client::utils::time::get_time_since_epoch;
use watchtower_client::{InstanceInfo, Resolution, Service, WatchtowerClient, WatchtowerError};

const WATCHTOWER_URL: &str = "http://localhost:8088";

const USERNAME: &str = "admin";
const PASSWORD: &str = "password";

fn get_watchtower_urls() -> Vec<String> {
    vec![WATCHTOWER_URL.to_string()]
}

fn listed(ids: &[&str]) -> Vec<InstanceInfo> {
    ids.iter()
        .enumerate()
        .map(|(place, id)| InstanceInfo {
            instance_id: id.to_string(),
            ip_addr: format!("10.0.0.{}", place + 1),
            port: 9000,
        })
        .collect()
}

fn opened(call: Result<Call, WatchtowerError>) -> Call {
    call.unwrap()
}

fn url_of(resolution: Result<Resolution, WatchtowerError>) -> String {
    match resolution {
        Ok(Resolution::Url(url)) => url,
        other => panic!("the cache did not answer: {:?}", other),
    }
}

fn fetch_of(resolution: Result<Resolution, WatchtowerError>) -> Call {
    match resolution {
        Ok(Resolution::Fetch(call)) => call,
        other => panic!("no listing was opened: {:?}", other),
    }
}

/// Carries `call` out against a registry that answers with `replies`, one
/// after the other. A listing that succeeds hands back `instances`.
fn carry_out(
    client: &mut WatchtowerClient,
    call: Call,
    replies: &[Reply],
    instances: Vec<InstanceInfo>,
) -> Result<Vec<InstanceInfo>, WatchtowerError> {
    let mut call = call;
    for reply in replies {
        match client.advance(call, *reply) {
            Step::Send(next) => call = next,
            Step::Decode => return Ok(instances),
            Step::Done(Ok(())) => return Ok(vec![]),
            Step::Done(Err(error)) => return Err(error),
        }
    }
    panic!("the registry fell silent");
}

fn registered_instance(call: &Call) -> InstanceInfo {
    match &call.operation {
        Operation::Register(instance) => instance.clone(),
        other => panic!("not a registration: {:?}", other),
    }
}

fn error_of<T: std::fmt::Debug>(outcome: Result<T, WatchtowerError>) -> WatchtowerError {
    outcome.unwrap_err()
}

#[test]
fn test_register_and_get_service() {
    let mut watchtower_client = WatchtowerClient::new(get_watchtower_urls(), USERNAME, PASSWORD);

    let url = "127.0.0.1";
    let port = 1234;
    let service_id = "test_register_and_get_service";
    let registration = watchtower_client.register(service_id, url, port).unwrap();
    let registered = registered_instance(&registration);
    carry_out(&mut watchtower_client, registration, &[Reply::Status(204)], vec![]).unwrap();

    let listing = fetch_of(watchtower_client.get_service_url(service_id));
    let outcome =
        carry_out(&mut watchtower_client, listing, &[Reply::Status(200)], vec![registered.clone()]);
    let service_url = watchtower_client.refetch_service(service_id, outcome).unwrap();
    assert_eq!(service_url, format!("{}:{}", url, port));

    let later = get_time_since_epoch().unwrap() + 40;
    let listing = fetch_of(watchtower_client.resolve_at(service_id, later));
    let outcome =
        carry_out(&mut watchtower_client, listing, &[Reply::Status(200)], vec![registered]);
    let service_url = watchtower_client.refetch_service(service_id, outcome).unwrap();
    assert_eq!(service_url, format!("{}:{}", url, port));
    let cancellation = watchtower_client.cancel().unwrap();
    let outcome =
        carry_out(&mut watchtower_client, cancellation, &[Reply::Status(200)], vec![]).map(|_| ());
    watchtower_client.finish_cancel(outcome).unwrap();
}

#[test]
fn test_get_non_existent_service() {
    let mut watchtower_client = WatchtowerClient::new(get_watchtower_urls(), USERNAME, PASSWORD);
    let listing = fetch_of(watchtower_client.get_service_url("imaginary"));
    let outcome = carry_out(&mut watchtower_client, listing, &[Reply::Status(404)], vec![]);
    let maybe_service = watchtower_client.refetch_service("imaginary", outcome);
    assert_eq!(maybe_service, Err(WatchtowerError::NotFound));
}

#[test]
fn test_unauthorized() {
    let mut watchtower_client = WatchtowerClient::new(get_watchtower_urls(), USERNAME, "whatever");
    let listing = fetch_of(watchtower_client.get_service_url("foo"));
    assert_eq!(watchtower_client.request(&listing).password, "whatever");
    let outcome = carry_out(&mut watchtower_client, listing, &[Reply::Status(401)], vec![]);
    let maybe_service = watchtower_client.refetch_service("foo", outcome);
    assert_eq!(maybe_service, Err(WatchtowerError::Unauthorized));
    let registration = watchtower_client.register("bar", "127.0.0.1", 1234).unwrap();
    assert_eq!(
        carry_out(&mut watchtower_client, registration, &[Reply::Status(401)], vec![]).map(|_| ()),
        Err(WatchtowerError::Unauthorized)
    );
}

#[test]
fn test_register_twice() {
    let mut watchtower_client = WatchtowerClient::new(get_watchtower_urls(), USERNAME, PASSWORD);

    let url = "127.0.0.1";
    let port = 1234;
    let service_id = "test_register_twice";
    let registration = watchtower_client.register(service_id, url, port).unwrap();
    carry_out(&mut watchtower_client, registration, &[Reply::Status(204)], vec![]).unwrap();

    assert_eq!(
        error_of(watchtower_client.register("bar", "127.0.0.1", 1234)),
        WatchtowerError::InstanceAlreadyRegistered
    );

    let cancellation = watchtower_client.cancel().unwrap();
    let outcome =
        carry_out(&mut watchtower_client, cancellation, &[Reply::Status(200)], vec![]).map(|_| ());
    watchtower_client.finish_cancel(outcome).unwrap();
    let registration = watchtower_client.register(service_id, url, port).unwrap();
    carry_out(&mut watchtower_client, registration, &[Reply::Status(204)], vec![]).unwrap();
    let cancellation = watchtower_client.cancel().unwrap();
    let outcome =
        carry_out(&mut watchtower_client, cancellation, &[Reply::Status(200)], vec![]).map(|_| ());
    watchtower_client.finish_cancel(outcome).unwrap();
}

#[test]
fn test_register_then_cancel() {
    let mut watchtower_client = WatchtowerClient::new(get_watchtower_urls(), USERNAME, PASSWORD);

    let url = "127.0.0.1";
    let port = 2345;
    let service_id = "test_register_then_cancel";
    let registration = watchtower_client.register(service_id, url, port).unwrap();
    carry_out(&mut watchtower_client, registration, &[Reply::Status(204)], vec![]).unwrap();
    let cancellation = watchtower_client.cancel().unwrap();
    let outcome =
        carry_out(&mut watchtower_client, cancellation, &[Reply::Status(200)], vec![]).map(|_| ());
    watchtower_client.finish_cancel(outcome).unwrap();

    let listing = fetch_of(watchtower_client.get_service_url("test_register_then_cancel"));
    let outcome = carry_out(&mut watchtower_client, listing, &[Reply::Status(404)], vec![]);
    assert_eq!(
        watchtower_client.refetch_service("test_register_then_cancel", outcome),
        Err(WatchtowerError::NotFound)
    );
}

#[test]
fn client_builds_the_requests_of_its_calls() {
    let mut client = WatchtowerClient::new(get_watchtower_urls(), USERNAME, PASSWORD);
    let registration = client.register("svc", "10.1.1.1", 8081).unwrap();
    let instance = registered_instance(&registration);
    let request = client.request(&registration);
    assert_eq!(request.method, Method::Post);
    assert_eq!(request.url, "http://localhost:8088/api/v1/services/svc");
    assert_eq!(request.username, "admin");
    assert_eq!(request.password, "password");
    assert_eq!(request.body.unwrap().instance_id, instance.instance_id);

    let renewal = client.ping().unwrap();
    let request = client.request(&renewal);
    assert_eq!(request.method, Method::Put);
    assert_eq!(
        request.url,
        format!("http://localhost:8088/api/v1/services/svc/{}", instance.instance_id)
    );
    assert!(request.body.is_none());
}

#[test]
fn ping_that_finds_the_lease_gone_registers_anew() {
    let mut client = WatchtowerClient::new(get_watchtower_urls(), USERNAME, PASSWORD);
    let registration = client.register("svc", "10.1.1.1", 8081).unwrap();
    let instance = registered_instance(&registration);
    let renewal = client.ping().unwrap();
    let again = match client.advance(renewal, Reply::Status(404)) {
        Step::Send(call) => call,
        other => panic!("the renewal is over: {:?}", other),
    };
    assert_eq!(registered_instance(&again).instance_id, instance.instance_id);
    assert_eq!(again.service_id, "svc");
    assert!(matches!(client.advance(again, Reply::Status(204)), Step::Done(Ok(()))));
    let (_, kept) = client.registration().unwrap();
    assert_eq!(kept.instance_id, instance.instance_id);
}

#[test]
fn client_gives_up_when_no_endpoint_answers() {
    let urls = vec!["e0".to_string(), "e1".to_string(), "e2".to_string()];
    let mut client = WatchtowerClient::new(urls, USERNAME, PASSWORD);
    let registration = client.register("svc", "10.1.1.1", 8081).unwrap();
    let replies = [Reply::Unreachable, Reply::Unreachable, Reply::Unreachable];
    assert_eq!(
        carry_out(&mut client, registration, &replies, vec![]).map(|_| ()),
        Err(WatchtowerError::MaxRetryReached)
    );
    assert!(client.registration().is_some());
}

#[test]
fn heartbeat_comes_every_fifteen_seconds() {
    assert_eq!(HEARTBEAT_INTERVAL_SEC, 15);
}

#[test]
fn new_client_has_nothing_registered() {
    let client = WatchtowerClient::new(get_watchtower_urls(), USERNAME, PASSWORD);
    assert!(client.registration().is_none());
}

#[test]
fn generated_instance_has_a_fresh_identifier() {
    let first = WatchtowerClient::generate_new_instance("127.0.0.1", 1234);
    let second = WatchtowerClient::generate_new_instance("127.0.0.1", 1234);
    assert_eq!(first.ip_addr, "127.0.0.1");
    assert_eq!(first.port, 1234);
    assert_eq!(first.instance_id.chars().count(), 36);
    assert_eq!(second.instance_id.chars().count(), 36);
    assert_ne!(first.instance_id, second.instance_id);
    let hyphens: Vec<usize> =
        first.instance_id.char_indices().filter(|(_, c)| *c == '-').map(|(at, _)| at).collect();
    assert_eq!(hyphens, vec![8, 13, 18, 23]);
    assert!(first.instance_id.chars().all(|c| c == '-' || c.is_ascii_hexdigit()));
}

#[test]
fn registration_is_entered_with_the_call() {
    let mut client = WatchtowerClient::new(get_watchtower_urls(), USERNAME, PASSWORD);
    let call = opened(client.register("svc", "10.1.1.1", 8081));
    assert_eq!(call.service_id, "svc");
    assert_eq!(call.base_url, WATCHTOWER_URL);
    assert_eq!(call.attempt, 0);
    let (service_id, instance) = client.registration().unwrap();
    assert_eq!(service_id, "svc");
    assert_eq!(instance.ip_addr, "10.1.1.1");
    assert_eq!(instance.port, 8081);
    assert!(matches!(&call.operation, Operation::Register(sent)
        if sent.instance_id == instance.instance_id && sent.ip_addr == "10.1.1.1"
            && sent.port == 8081));
}

#[test]
fn registration_of_a_given_instance_is_entered_as_given() {
    let mut client = WatchtowerClient::new(get_watchtower_urls(), USERNAME, PASSWORD);
    let given = InstanceInfo {
        instance_id: "given".to_string(),
        ip_addr: "10.2.2.2".to_string(),
        port: 7,
    };
    let call = opened(client.register_helper("svc", &given));
    assert!(matches!(&call.operation, Operation::Register(sent) if sent.instance_id == "given"));
    let (service_id, instance) = client.registration().unwrap();
    assert_eq!(service_id, "svc");
    assert_eq!(instance.instance_id, "given");
    assert_eq!(instance.ip_addr, "10.2.2.2");
    assert_eq!(instance.port, 7);
    assert_eq!(
        error_of(client.register_helper("svc", &given)),
        WatchtowerError::InstanceAlreadyRegistered
    );
    let (_, kept) = client.registration().unwrap();
    assert_eq!(kept.instance_id, "given");
}

#[test]
fn second_registration_is_refused_and_changes_nothing() {
    let mut client = WatchtowerClient::new(get_watchtower_urls(), USERNAME, PASSWORD);
    opened(client.register_without_pinging("first", "10.1.1.1", 1));
    let (_, before) = client.registration().unwrap();
    assert_eq!(
        error_of(client.register("second", "10.9.9.9", 2)),
        WatchtowerError::InstanceAlreadyRegistered
    );
    assert_eq!(
        error_of(client.register_without_pinging("first", "10.1.1.1", 1)),
        WatchtowerError::InstanceAlreadyRegistered
    );
    let (service_id, after) = client.registration().unwrap();
    assert_eq!(service_id, "first");
    assert_eq!(after.instance_id, before.instance_id);
    assert_eq!(after.ip_addr, "10.1.1.1");
    assert_eq!(after.port, 1);
}

#[test]
fn registration_after_cancel_yields_a_new_identifier() {
    let mut client = WatchtowerClient::new(get_watchtower_urls(), USERNAME, PASSWORD);
    opened(client.register("svc", "10.1.1.1", 1));
    let (_, first) = client.registration().unwrap();
    opened(client.cancel());
    assert_eq!(client.finish_cancel(Ok(())), Ok(()));
    assert!(client.registration().is_none());
    opened(client.register("svc", "10.1.1.1", 1));
    let (_, second) = client.registration().unwrap();
    assert_ne!(first.instance_id, second.instance_id);
}

#[test]
fn failed_registration_stays_entered() {
    let mut client = WatchtowerClient::new(get_watchtower_urls(), USERNAME, PASSWORD);
    opened(client.register("svc", "10.1.1.1", 1));
    assert!(client.registration().is_some());
    assert_eq!(
        error_of(client.register("svc", "10.1.1.1", 1)),
        WatchtowerError::InstanceAlreadyRegistered
    );
}

#[test]
fn ping_without_registration_is_invalid() {
    let mut client = WatchtowerClient::new(vec!["e0".to_string(), "e1".to_string()], "u", "p");
    assert_eq!(error_of(client.ping()), WatchtowerError::InvalidPing);
    assert_eq!(error_of(client.ping()), WatchtowerError::InvalidPing);
    assert!(client.registration().is_none());
}

#[test]
fn ping_opens_no_call_so_the_selector_rests() {
    let names = ["e0", "e1", "e2"];
    let urls: Vec<String> = names.iter().map(|name| name.to_string()).collect();
    let mut client = WatchtowerClient::new(urls, "u", "p");
    let first = fetch_of(client.resolve_at("a", 0)).base_url;
    let start = names.iter().position(|name| *name == first).unwrap();
    assert_eq!(error_of(client.ping()), WatchtowerError::InvalidPing);
    assert_eq!(error_of(client.cancel()), WatchtowerError::NotFound);
    assert_eq!(fetch_of(client.resolve_at("a", 0)).base_url, names[(start + 1) % 3]);
}

#[test]
fn ping_renews_the_registered_instance() {
    let mut client = WatchtowerClient::new(get_watchtower_urls(), USERNAME, PASSWORD);
    opened(client.register("svc", "10.1.1.1", 1));
    let (_, instance) = client.registration().unwrap();
    let call = opened(client.ping());
    assert!(matches!(&call.operation, Operation::Renew(sent)
        if sent.instance_id == instance.instance_id && sent.ip_addr == "10.1.1.1"
            && sent.port == 1));
    assert_eq!(call.service_id, "svc");
    assert_eq!(call.attempt, 0);
    assert!(client.registration().is_some());
}

#[test]
fn cancel_without_registration_is_not_found() {
    let mut client = WatchtowerClient::new(get_watchtower_urls(), USERNAME, PASSWORD);
    assert_eq!(error_of(client.cancel()), WatchtowerError::NotFound);
    assert!(client.registration().is_none());
}

#[test]
fn cancel_withdraws_the_registered_instance() {
    let mut client = WatchtowerClient::new(get_watchtower_urls(), USERNAME, PASSWORD);
    opened(client.register("svc", "10.1.1.1", 1));
    let (_, instance) = client.registration().unwrap();
    let call = opened(client.cancel());
    assert!(matches!(&call.operation, Operation::Cancel(sent)
        if sent.instance_id == instance.instance_id));
    assert_eq!(call.service_id, "svc");
    assert!(client.registration().is_some());
}

#[test]
fn failed_cancel_keeps_the_registration() {
    let mut client = WatchtowerClient::new(get_watchtower_urls(), USERNAME, PASSWORD);
    opened(client.register("svc", "10.1.1.1", 1));
    let (_, instance) = client.registration().unwrap();
    opened(client.cancel());
    assert_eq!(
        client.finish_cancel(Err(WatchtowerError::MaxRetryReached)),
        Err(WatchtowerError::MaxRetryReached)
    );
    let (service_id, kept) = client.registration().unwrap();
    assert_eq!(service_id, "svc");
    assert_eq!(kept.instance_id, instance.instance_id);
    opened(client.cancel());
    assert_eq!(
        client.finish_cancel(Err(WatchtowerError::Unauthorized)),
        Err(WatchtowerError::Unauthorized)
    );
    assert!(client.registration().is_some());
    opened(client.cancel());
    assert_eq!(client.finish_cancel(Ok(())), Ok(()));
    assert!(client.registration().is_none());
    assert_eq!(error_of(client.cancel()), WatchtowerError::NotFound);
}

#[test]
fn heartbeat_renews_while_its_instance_is_registered() {
    let mut client = WatchtowerClient::new(get_watchtower_urls(), USERNAME, PASSWORD);
    opened(client.register("svc", "10.1.1.1", 1));
    let (service_id, instance) = client.registration().unwrap();
    for _ in 0..3 {
        let call = client.heartbeat(&service_id, &instance).unwrap();
        assert!(matches!(&call.operation, Operation::Renew(sent)
            if sent.instance_id == instance.instance_id && sent.port == 1));
        assert_eq!(call.service_id, "svc");
        assert_eq!(call.attempt, 0);
    }
    assert!(client.registration().is_some());
}

#[test]
fn heartbeat_ends_when_the_registration_is_cancelled() {
    let mut client = WatchtowerClient::new(get_watchtower_urls(), USERNAME, PASSWORD);
    opened(client.register("svc", "10.1.1.1", 1));
    let (service_id, instance) = client.registration().unwrap();
    opened(client.cancel());
    client.finish_cancel(Ok(())).unwrap();
    assert!(client.heartbeat(&service_id, &instance).is_none());
    assert!(client.registration().is_none());
}

#[test]
fn heartbeat_ends_when_another_registration_took_its_place() {
    let mut client = WatchtowerClient::new(get_watchtower_urls(), USERNAME, PASSWORD);
    opened(client.register("svc", "10.1.1.1", 1));
    let (service_id, old_instance) = client.registration().unwrap();
    opened(client.cancel());
    client.finish_cancel(Ok(())).unwrap();
    opened(client.register("svc", "10.1.1.1", 1));
    let (_, new_instance) = client.registration().unwrap();
    assert!(client.heartbeat(&service_id, &old_instance).is_none());
    assert!(client.heartbeat(&service_id, &new_instance).is_some());
    let (_, kept) = client.registration().unwrap();
    assert_eq!(kept.instance_id, new_instance.instance_id);
}

#[test]
fn heartbeat_without_registration_ends() {
    let mut client = WatchtowerClient::new(get_watchtower_urls(), USERNAME, PASSWORD);
    let instance = WatchtowerClient::generate_new_instance("10.1.1.1", 1);
    assert!(client.heartbeat("svc", &instance).is_none());
}

#[test]
fn address_is_host_colon_port() {
    let mut instance = WatchtowerClient::generate_new_instance("127.0.0.1", 1234);
    assert_eq!(service_url(&instance), "127.0.0.1:1234");
    for (port, text) in [
        (0u16, "h:0"),
        (7, "h:7"),
        (9, "h:9"),
        (10, "h:10"),
        (99, "h:99"),
        (100, "h:100"),
        (8080, "h:8080"),
        (10000, "h:10000"),
        (65535, "h:65535"),
    ] {
        instance.ip_addr = "h".to_string();
        instance.port = port;
        assert_eq!(service_url(&instance), text);
    }
    for port in 0..=u16::MAX {
        instance.port = port;
        assert_eq!(service_url(&instance), format!("h:{}", port));
    }
}

#[test]
fn first_lookup_opens_exactly_one_listing() {
    let mut client = WatchtowerClient::new(get_watchtower_urls(), USERNAME, PASSWORD);
    let call = fetch_of(client.resolve_at("svc", 1000));
    assert!(matches!(call.operation, Operation::List));
    assert_eq!(call.service_id, "svc");
    assert_eq!(call.base_url, WATCHTOWER_URL);
    assert_eq!(call.attempt, 0);
}

#[test]
fn cached_lookups_go_round_the_instances() {
    let names = ["e0", "e1", "e2"];
    let urls: Vec<String> = names.iter().map(|name| name.to_string()).collect();
    let mut client = WatchtowerClient::new(urls, "u", "p");
    let listing = fetch_of(client.get_service_url("svc")).base_url;
    let start = names.iter().position(|name| *name == listing).unwrap();
    let first = client.refetch_service("svc", Ok(listed(&["a", "b", "c"]))).unwrap();
    let second = url_of(client.get_service_url("svc"));
    let third = url_of(client.get_service_url("svc"));
    let fourth = url_of(client.get_service_url("svc"));
    let fifth = url_of(client.get_service_url("svc"));
    assert_ne!(first, second);
    assert_ne!(second, third);
    assert_ne!(third, first);
    assert_eq!(fourth, first);
    assert_eq!(fifth, second);
    let all = ["10.0.0.1:9000", "10.0.0.2:9000", "10.0.0.3:9000"];
    let at = all.iter().position(|url| *url == first).unwrap();
    assert_eq!(second, all[(at + 1) % 3]);
    assert_eq!(third, all[(at + 2) % 3]);
    assert_eq!(fetch_of(client.get_service_url("other")).base_url, names[(start + 1) % 3]);
}

#[test]
fn cached_lookup_follows_the_selector_of_the_entry() {
    let mut client = WatchtowerClient::new(get_watchtower_urls(), USERNAME, PASSWORD);
    let service = Service {
        instance_infos: listed(&["a", "b", "c"]),
        load_balancer: RoundRobinLoadBalancer::starting_at(3, 1),
        last_updated_timestamp: 1000,
    };
    assert_eq!(client.cache_service("svc", service), Ok("10.0.0.3:9000".to_string()));
    assert_eq!(url_of(client.resolve_at("svc", 1000)), "10.0.0.1:9000");
    assert_eq!(url_of(client.resolve_at("svc", 1010)), "10.0.0.2:9000");
    assert_eq!(url_of(client.resolve_at("svc", 1029)), "10.0.0.3:9000");
    assert_eq!(url_of(client.resolve_at("svc", 999)), "10.0.0.1:9000");
}

#[test]
fn lookup_after_the_interval_fetches_anew() {
    let mut client = WatchtowerClient::new(get_watchtower_urls(), USERNAME, PASSWORD);
    let service = Service {
        instance_infos: listed(&["a", "b"]),
        load_balancer: RoundRobinLoadBalancer::starting_at(2, 0),
        last_updated_timestamp: 1000,
    };
    assert_eq!(client.cache_service("svc", service), Ok("10.0.0.2:9000".to_string()));
    assert_eq!(url_of(client.resolve_at("svc", 1029)), "10.0.0.1:9000");
    let call = fetch_of(client.resolve_at("svc", 1030));
    assert!(matches!(call.operation, Operation::List));
    assert_eq!(call.service_id, "svc");
    assert_eq!(url_of(client.resolve_at("svc", 1029)), "10.0.0.2:9000");

    let replacement = Service {
        instance_infos: vec![InstanceInfo {
            instance_id: "z".to_string(),
            ip_addr: "10.9.9.9".to_string(),
            port: 1,
        }],
        load_balancer: RoundRobinLoadBalancer::starting_at(1, 0),
        last_updated_timestamp: 1030,
    };
    assert_eq!(client.cache_service("svc", replacement), Ok("10.9.9.9:1".to_string()));
    assert_eq!(url_of(client.resolve_at("svc", 1059)), "10.9.9.9:1");
    fetch_of(client.resolve_at("svc", 1060));
}

#[test]
fn entries_are_kept_by_service() {
    let mut client = WatchtowerClient::new(get_watchtower_urls(), USERNAME, PASSWORD);
    client.refetch_service("one", Ok(listed(&["a"]))).unwrap();
    fetch_of(client.get_service_url("two"));
    client
        .refetch_service(
            "two",
            Ok(vec![InstanceInfo {
                instance_id: "b".to_string(),
                ip_addr: "10.7.7.7".to_string(),
                port: 77,
            }]),
        )
        .unwrap();
    assert_eq!(url_of(client.get_service_url("one")), "10.0.0.1:9000");
    assert_eq!(url_of(client.get_service_url("two")), "10.7.7.7:77");
    fetch_of(client.get_service_url("three"));
    fetch_of(client.get_service_url(""));
}

#[test]
fn empty_listing_gives_internal_error_and_is_not_cached() {
    let mut client = WatchtowerClient::new(get_watchtower_urls(), USERNAME, PASSWORD);
    assert_eq!(client.refetch_service("svc", Ok(vec![])), Err(WatchtowerError::InternalError));
    fetch_of(client.get_service_url("svc"));

    client.refetch_service("svc", Ok(listed(&["a"]))).unwrap();
    assert_eq!(client.refetch_service("svc", Ok(vec![])), Err(WatchtowerError::InternalError));
    assert_eq!(url_of(client.get_service_url("svc")), "10.0.0.1:9000");
}

#[test]
fn failed_listing_keeps_the_cache() {
    let mut client = WatchtowerClient::new(get_watchtower_urls(), USERNAME, PASSWORD);
    client.refetch_service("svc", Ok(listed(&["a"]))).unwrap();
    for error in [
        WatchtowerError::NotFound,
        WatchtowerError::Unauthorized,
        WatchtowerError::MaxRetryReached,
        WatchtowerError::InternalError,
    ] {
        assert_eq!(client.refetch_service("svc", Err(error)), Err(error));
    }
    assert_eq!(url_of(client.get_service_url("svc")), "10.0.0.1:9000");
}

#[test]
fn ill_formed_entry_gives_internal_error() {
    let mut client = WatchtowerClient::new(get_watchtower_urls(), USERNAME, PASSWORD);
    let service = Service {
        instance_infos: listed(&["a", "b"]),
        load_balancer: RoundRobinLoadBalancer::starting_at(4, 0),
        last_updated_timestamp: 1000,
    };
    assert_eq!(client.cache_service("svc", service), Ok("10.0.0.2:9000".to_string()));
    assert_eq!(error_of(client.resolve_at("svc", 1000)), WatchtowerError::InternalError);
    assert_eq!(error_of(client.resolve_at("svc", 1000)), WatchtowerError::InternalError);
    assert_eq!(url_of(client.resolve_at("svc", 1000)), "10.0.0.1:9000");
}

#[test]
fn lookups_leave_the_registration_alone() {
    let mut client = WatchtowerClient::new(get_watchtower_urls(), USERNAME, PASSWORD);
    opened(client.register("svc", "10.1.1.1", 1));
    let (_, instance) = client.registration().unwrap();
    fetch_of(client.get_service_url("svc"));
    client.refetch_service("svc", Ok(vec![instance.clone()])).unwrap();
    assert_eq!(url_of(client.get_service_url("svc")), "10.1.1.1:1");
    let (service_id, kept) = client.registration().unwrap();
    assert_eq!(service_id, "svc");
    assert_eq!(kept.instance_id, instance.instance_id);
}

#[test]
fn fetched_list_is_stamped_with_the_time_of_fetching() {
    let mut client = WatchtowerClient::new(get_watchtower_urls(), USERNAME, PASSWORD);
    fetch_of(client.resolve_at("svc", 5000));
    let first = client.refetch_service_at("svc", Ok(listed(&["a", "b"])), 5000).unwrap();
    let second = url_of(client.resolve_at("svc", 5000));
    let third = url_of(client.resolve_at("svc", 5029));
    assert_ne!(first, second);
    assert_eq!(third, first);
    let listing = fetch_of(client.resolve_at("svc", 5030));
    assert!(matches!(listing.operation, Operation::List));
    assert_eq!(
        client.refetch_service_at("svc", Ok(listed(&["c"])), 5030),
        Ok("10.0.0.1:9000".to_string())
    );
    assert_eq!(url_of(client.resolve_at("svc", 5059)), "10.0.0.1:9000");
    fetch_of(client.resolve_at("svc", 5060));
}

#[test]
fn refetch_at_a_given_time_keeps_the_cache_on_failure() {
    let mut client = WatchtowerClient::new(get_watchtower_urls(), USERNAME, PASSWORD);
    assert_eq!(
        client.refetch_service_at("svc", Ok(vec![]), 100),
        Err(WatchtowerError::InternalError)
    );
    fetch_of(client.resolve_at("svc", 100));
    client.refetch_service_at("svc", Ok(listed(&["a"])), 100).unwrap();
    assert_eq!(
        client.refetch_service_at("svc", Err(WatchtowerError::MaxRetryReached), 200),
        Err(WatchtowerError::MaxRetryReached)
    );
    assert_eq!(
        client.refetch_service_at("svc", Ok(vec![]), 200),
        Err(WatchtowerError::InternalError)
    );
    assert_eq!(url_of(client.resolve_at("svc", 129)), "10.0.0.1:9000");
    fetch_of(client.resolve_at("svc", 130));
}

#[test]
fn lookup_right_after_a_refresh_is_answered_from_the_cache() {
    let mut client = WatchtowerClient::new(get_watchtower_urls(), USERNAME, PASSWORD);
    fetch_of(client.get_service_url("svc"));
    client.refetch_service("svc", Ok(listed(&["a"]))).unwrap();
    assert_eq!(url_of(client.get_service_url("svc")), "10.0.0.1:9000");
    let now = get_time_since_epoch().unwrap();
    assert_eq!(url_of(client.resolve_at("svc", now + 20)), "10.0.0.1:9000");
    fetch_of(client.resolve_at("svc", now + 31));
}
