use ballista_cluster::cluster::{
    create_ballista_executor, create_pod_result, create_service_result, delete_pod_result, list_pods_result,
    ExecutorPhase,
};
use ballista_cluster::decode::{
    create_outcome_from, decode_pod_create, decode_pod_delete, decode_pod_list, decode_service_create,
    delete_outcome_from, list_outcome_from, CreateReply, DecodeOutcome, DecodeSession, DeleteReply, ListReply,
    Parsed, Reply,
};
use ballista_cluster::descriptor::{build_service_descriptor, build_workload_descriptor, EXECUTOR_PORT};
use ballista_cluster::error::ClusterError;
use ballista_cluster::transport::{
    create_pod_request, create_service_request, delete_pod_request, list_pods_request, request_method, Method,
    TransportRequest, TransportResponse,
};

const POD_EXEC_1: &str = r#"{"apiVersion":"v1","kind":"Pod","metadata":{"name":"exec-1","namespace":"default"},"spec":{"containers":[{"name":"exec-1","image":"ballista:latest"}]}}"#;
const CONFLICT: &str = r#"{"kind":"Status","apiVersion":"v1","metadata":{},"status":"Failure","message":"pods \"exec-1\" already exists","reason":"AlreadyExists","code":409}"#;
const DELETED_STATUS: &str = r#"{"kind":"Status","apiVersion":"v1","metadata":{},"status":"Success"}"#;
const SERVICE_EXEC_1: &str = r#"{"apiVersion":"v1","kind":"Service","metadata":{"name":"exec-1"},"spec":{"type":"ClusterIP"}}"#;

fn pod_list(names: &[Option<&str>]) -> String {
    let items: Vec<String> = names
        .iter()
        .map(|n| match n {
            Some(n) => format!(r#"{{"metadata":{{"name":"{}"}}}}"#, n),
            None => r#"{"metadata":{}}"#.to_string(),
        })
        .collect();
    format!(r#"{{"apiVersion":"v1","kind":"PodList","metadata":{{}},"items":[{}]}}"#, items.join(","))
}

fn response(status: u16, body: &str) -> TransportResponse {
    TransportResponse { status, body: body.as_bytes().to_vec() }
}

fn body_text(request: &TransportRequest) -> String {
    String::from_utf8(request.body.clone()).unwrap()
}

#[test]
fn workload_descriptor_has_fixed_policy() {
    let d = build_workload_descriptor("default", "exec-1", "ballista:latest");
    assert_eq!(d.name, "exec-1");
    assert_eq!(d.container_name, "exec-1");
    assert_eq!(d.image, "ballista:latest");
    assert_eq!(d.container_port, 50051);
    assert_eq!(d.image_pull_policy, "Always");
}

#[test]
fn service_descriptor_has_fixed_policy() {
    let d = build_service_descriptor("default", "exec-1");
    assert_eq!(d.name, "exec-1");
    assert_eq!(d.service_type, "ClusterIP");
    assert_eq!(d.port_name, "grpc");
    assert_eq!(d.port, EXECUTOR_PORT);
    assert_eq!(d.target_port, 50051);
}

#[test]
fn pod_create_request_is_encoded() {
    let t = create_pod_request("default", "exec-1", "ballista:latest").ok().unwrap();
    assert_eq!(t.method, "POST");
    assert_eq!(t.path, "/api/v1/namespaces/default/pods?");
    let body = body_text(&t);
    assert!(body.contains(r#""name":"exec-1""#));
    assert!(body.contains(r#""image":"ballista:latest""#));
    assert!(body.contains(r#""imagePullPolicy":"Always""#));
    assert!(body.contains(r#""containerPort":50051"#));
}

#[test]
fn pod_create_request_is_repeatable() {
    let a = create_pod_request("default", "exec-1", "ballista:latest").ok().unwrap();
    let b = create_pod_request("default", "exec-1", "ballista:latest").ok().unwrap();
    assert_eq!(a.method, b.method);
    assert_eq!(a.path, b.path);
    assert_eq!(a.body, b.body);
}

#[test]
fn namespace_is_percent_encoded_in_path() {
    let t = list_pods_request("my ns").ok().unwrap();
    assert_eq!(t.path, "/api/v1/namespaces/my%20ns/pods?");
}

#[test]
fn service_create_request_is_encoded() {
    let t = create_service_request("default", "exec-1").ok().unwrap();
    assert_eq!(t.method, "POST");
    assert_eq!(t.path, "/api/v1/namespaces/default/services?");
    let body = body_text(&t);
    assert!(body.contains(r#""type":"ClusterIP""#));
    assert!(body.contains(r#""name":"grpc""#));
    assert!(body.contains(r#""port":50051"#));
    assert!(body.contains(r#""targetPort":50051"#));
}

#[test]
fn delete_and_list_requests_are_encoded() {
    let d = delete_pod_request("default", "exec-1").ok().unwrap();
    assert_eq!(d.method, "DELETE");
    assert_eq!(d.path, "/api/v1/namespaces/default/pods/exec-1");
    assert_eq!(d.body, b"{}".to_vec());
    let l = list_pods_request("default").ok().unwrap();
    assert_eq!(l.method, "GET");
    assert_eq!(l.path, "/api/v1/namespaces/default/pods?");
    assert!(l.body.is_empty());
}

#[test]
fn only_get_post_delete_are_dispatched() {
    let mut t = list_pods_request("default").ok().unwrap();
    assert!(matches!(request_method(&t), Ok(Method::Get)));
    t.method = "POST".to_string();
    assert!(matches!(request_method(&t), Ok(Method::Post)));
    t.method = "DELETE".to_string();
    assert!(matches!(request_method(&t), Ok(Method::Delete)));
    t.method = "PATCH".to_string();
    assert!(matches!(request_method(&t), Err(ClusterError::CallerInput(_))));
}

#[test]
fn create_pod_succeeds_on_200_record() {
    assert!(matches!(create_pod_result(&response(200, POD_EXEC_1)), Ok(())));
}

#[test]
fn create_pod_conflict_is_unexpected_variant_409() {
    let r = create_pod_result(&response(409, CONFLICT));
    assert!(matches!(
        r,
        Err(ClusterError::UnexpectedVariant { status: 409, reply: Reply::Create(CreateReply::Other(_)) })
    ));
}

#[test]
fn create_pod_201_and_202_are_success() {
    assert!(matches!(decode_pod_create(201, POD_EXEC_1.as_bytes()), DecodeOutcome::Success(())));
    assert!(matches!(decode_pod_create(202, POD_EXEC_1.as_bytes()), DecodeOutcome::Success(())));
    assert!(matches!(create_pod_result(&response(201, POD_EXEC_1)), Ok(())));
}

#[test]
fn non_json_body_is_malformed_whatever_the_status() {
    assert!(matches!(
        create_pod_result(&response(409, "not json")),
        Err(ClusterError::MalformedResponse { status: 409, .. })
    ));
    assert!(matches!(
        create_service_result(&response(500, "<html>")),
        Err(ClusterError::MalformedResponse { status: 500, .. })
    ));
    assert!(matches!(
        delete_pod_result(&response(404, "nope")),
        Err(ClusterError::MalformedResponse { status: 404, .. })
    ));
    assert!(matches!(
        list_pods_result(&response(403, "denied")),
        Err(ClusterError::MalformedResponse { status: 403, .. })
    ));
}

#[test]
fn create_pod_malformed_body() {
    let r = decode_pod_create(200, b"{\"metadata\": 5}");
    assert!(matches!(r, DecodeOutcome::Malformed { status: 200, .. }));
    let r = create_pod_result(&response(200, "not json"));
    assert!(matches!(r, Err(ClusterError::MalformedResponse { status: 200, .. })));
    let r = decode_pod_create(200, &[0xff, 0xfe]);
    assert!(matches!(r, DecodeOutcome::Malformed { status: 200, .. }));
}

#[test]
fn create_pod_truncated_body_is_incomplete() {
    let half = &POD_EXEC_1[..20];
    assert!(matches!(decode_pod_create(200, half.as_bytes()), DecodeOutcome::NeedMoreData));
    assert!(matches!(create_pod_result(&response(200, half)), Err(ClusterError::IncompleteResponse)));
}

#[test]
fn create_service_outcomes() {
    assert!(matches!(create_service_result(&response(200, SERVICE_EXEC_1)), Ok(())));
    assert!(matches!(decode_service_create(409, CONFLICT.as_bytes()), DecodeOutcome::UnexpectedVariant { status: 409, .. }));
}

#[test]
fn delete_accepts_status_value_and_accepted() {
    assert!(matches!(decode_pod_delete(200, DELETED_STATUS.as_bytes()), DecodeOutcome::Success(())));
    assert!(matches!(decode_pod_delete(200, POD_EXEC_1.as_bytes()), DecodeOutcome::Success(())));
    assert!(matches!(decode_pod_delete(202, DELETED_STATUS.as_bytes()), DecodeOutcome::Success(())));
    assert!(matches!(delete_pod_result(&response(200, DELETED_STATUS)), Ok(())));
}

#[test]
fn delete_other_shape_is_unexpected() {
    let r = delete_pod_result(&response(404, CONFLICT));
    assert!(matches!(
        r,
        Err(ClusterError::UnexpectedVariant { status: 404, reply: Reply::Delete(DeleteReply::Other(_)) })
    ));
}

#[test]
fn delete_outcome_of_each_shape() {
    assert!(matches!(delete_outcome_from(200, Parsed::Reply(DeleteReply::OkStatus)), DecodeOutcome::Success(())));
    assert!(matches!(delete_outcome_from(200, Parsed::Reply(DeleteReply::OkValue)), DecodeOutcome::Success(())));
    assert!(matches!(delete_outcome_from(202, Parsed::Reply(DeleteReply::Accepted)), DecodeOutcome::Success(())));
    assert!(matches!(
        delete_outcome_from(500, Parsed::Reply(DeleteReply::Other("x".to_string()))),
        DecodeOutcome::UnexpectedVariant { status: 500, .. }
    ));
}

#[test]
fn list_keeps_order_of_three_items() {
    let body = pod_list(&[Some("exec-3"), Some("exec-1"), Some("exec-2")]);
    let names = list_pods_result(&response(200, &body)).ok().unwrap();
    assert_eq!(names, vec!["exec-3".to_string(), "exec-1".to_string(), "exec-2".to_string()]);
}

#[test]
fn list_of_nothing_is_empty() {
    let body = pod_list(&[]);
    let names = list_pods_result(&response(200, &body)).ok().unwrap();
    assert!(names.is_empty());
}

#[test]
fn list_fails_whole_when_an_item_has_no_name() {
    let body = pod_list(&[Some("exec-1"), None, Some("exec-2")]);
    assert!(matches!(decode_pod_list(200, body.as_bytes()), DecodeOutcome::Malformed { status: 200, .. }));
    assert!(matches!(list_pods_result(&response(200, &body)), Err(ClusterError::MalformedResponse { status: 200, .. })));
}

#[test]
fn list_outcome_from_items() {
    let items = vec![Some("a".to_string()), Some("b".to_string())];
    match list_outcome_from(200, Parsed::Reply(ListReply::Items(items))) {
        DecodeOutcome::Success(names) => assert_eq!(names, vec!["a".to_string(), "b".to_string()]),
        _ => panic!("expected success"),
    }
    let items = vec![Some("a".to_string()), None];
    assert!(matches!(
        list_outcome_from(200, Parsed::Reply(ListReply::Items(items))),
        DecodeOutcome::Malformed { status: 200, .. }
    ));
}

#[test]
fn list_forbidden_is_unexpected() {
    let r = list_pods_result(&response(403, CONFLICT));
    assert!(matches!(r, Err(ClusterError::UnexpectedVariant { status: 403, reply: Reply::List(ListReply::Other(_)) })));
}

#[test]
fn create_outcome_maps_each_parse() {
    assert!(matches!(create_outcome_from(200, Parsed::Reply(CreateReply::OkRecord)), DecodeOutcome::Success(())));
    assert!(matches!(create_outcome_from(201, Parsed::Reply(CreateReply::Created)), DecodeOutcome::Success(())));
    assert!(matches!(
        create_outcome_from(409, Parsed::Reply(CreateReply::Other("x".to_string()))),
        DecodeOutcome::UnexpectedVariant { status: 409, reply: CreateReply::Other(_) }
    ));
    assert!(matches!(create_outcome_from(200, Parsed::NeedMoreData), DecodeOutcome::NeedMoreData));
    assert!(matches!(
        create_outcome_from(200, Parsed::Malformed("bad".to_string())),
        DecodeOutcome::Malformed { status: 200, .. }
    ));
}

#[test]
fn fragments_need_more_data_then_succeed() {
    let bytes = POD_EXEC_1.as_bytes();
    let mut session = DecodeSession::new(200);
    session.append_slice(&bytes[..25]);
    assert!(matches!(session.parse_pod_create(), DecodeOutcome::NeedMoreData));
    session.append_slice(&bytes[25..]);
    assert_eq!(session.buf, bytes.to_vec());
    assert!(matches!(session.parse_pod_create(), DecodeOutcome::Success(())));
}

#[test]
fn decoding_twice_gives_same_outcome() {
    let body = pod_list(&[Some("a"), Some("b"), Some("c")]);
    let mut session = DecodeSession::new(200);
    session.append_slice(body.as_bytes());
    let first = session.parse_pod_list();
    let second = session.parse_pod_list();
    match (first, second) {
        (DecodeOutcome::Success(x), DecodeOutcome::Success(y)) => assert_eq!(x, y),
        _ => panic!("expected two successes"),
    }
    let a = decode_pod_create(409, CONFLICT.as_bytes());
    let b = decode_pod_create(409, CONFLICT.as_bytes());
    match (a, b) {
        (
            DecodeOutcome::UnexpectedVariant { status: s1, reply: CreateReply::Other(d1) },
            DecodeOutcome::UnexpectedVariant { status: s2, reply: CreateReply::Other(d2) },
        ) => {
            assert_eq!(s1, s2);
            assert_eq!(d1, d2);
        },
        _ => panic!("expected two unexpected variants"),
    }
}

#[test]
fn executor_provisioning_runs_both_steps() {
    let mut p = create_ballista_executor("default", "exec-1", "ballista:latest");
    assert!(matches!(p.phase, ExecutorPhase::CreatingWorkload));
    let t = p.next_request().unwrap();
    assert_eq!(t.path, "/api/v1/namespaces/default/pods?");
    p.on_response(&response(200, POD_EXEC_1));
    assert!(matches!(p.phase, ExecutorPhase::CreatingService));
    let t = p.next_request().unwrap();
    assert_eq!(t.path, "/api/v1/namespaces/default/services?");
    p.on_response(&response(200, SERVICE_EXEC_1));
    assert!(matches!(p.phase, ExecutorPhase::Ready));
    assert!(p.next_request().is_none());
}

#[test]
fn executor_service_failure_leaves_workload_live() {
    let mut p = create_ballista_executor("default", "exec-1", "ballista:latest");
    p.on_response(&response(200, POD_EXEC_1));
    p.on_response(&response(409, CONFLICT));
    assert!(matches!(
        p.phase,
        ExecutorPhase::Failed { workload_created: true, error: ClusterError::UnexpectedVariant { status: 409, .. } }
    ));
}

#[test]
fn executor_workload_failure_stops_before_service() {
    let mut p = create_ballista_executor("default", "exec-1", "ballista:latest");
    p.on_response(&response(409, CONFLICT));
    assert!(matches!(p.phase, ExecutorPhase::Failed { workload_created: false, .. }));
    assert!(p.next_request().is_none());
}

#[test]
fn executor_transport_error_is_reported() {
    let mut p = create_ballista_executor("default", "exec-1", "ballista:latest");
    p.on_transport_error("connection refused".to_string());
    assert!(matches!(
        p.phase,
        ExecutorPhase::Failed { workload_created: false, error: ClusterError::Transport(_) }
    ));
}

#[test]
fn listing_diagnostic_is_fixed() {
    let body = pod_list(&[None]);
    match list_pods_result(&response(200, &body)) {
        Err(ClusterError::MalformedResponse { status, diagnostic }) => {
            assert_eq!(status, 200);
            assert_eq!(diagnostic, "a listed item has no name");
        },
        _ => panic!("expected a malformed listing"),
    }
}

#[test]
fn executor_failure_event_records_step() {
    let mut p = create_ballista_executor("default", "exec-1", "ballista:latest");
    p.on_response(&response(201, POD_EXEC_1));
    assert!(matches!(p.phase, ExecutorPhase::CreatingService));
    let t = p.next_request().unwrap();
    assert_eq!(t.method, "POST");
    p.on_failure(ClusterError::IncompleteResponse);
    assert!(matches!(
        p.phase,
        ExecutorPhase::Failed { workload_created: true, error: ClusterError::IncompleteResponse }
    ));
}
