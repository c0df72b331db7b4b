use gcloud_wasm::api::{response_body, response_unit};
use gcloud_wasm::bigquery::{
    convert_query_response, insert_rows_request, query_request, CellValue, FieldJson, QueryResponseJson, RowJson,
    convert_insert_rows_response, InsertAllResponseJson, InsertErrorJson, ErrorDetailJson,
};
use gcloud_wasm::http::{authorization, check_status, ApiError, Body, ExchangeError, HttpRequest, HttpResponse, Method};
use gcloud_wasm::pubsub::{
    acknowledge_request, create_topic_request, publish_request, pull_request, PublishMessage, ReceivedMessage,
    ReceivedMessageJson, PubsubMessageJson,
};
use gcloud_wasm::secretmanager::{
    access_result, add_secret_version_request, create_secret_request, parse_version_state, AccessResponse,
    SecretPayload, SecretVersionState,
};
use gcloud_wasm::storage::{create_bucket_request, list_buckets_request, list_objects_request, upload_object_request,
    bucket_result, BucketJson};
use gcloud_wasm::tasks::{
    create_task_request, http_method_to_str, parse_queue_state, pause_queue_request, HttpMethod, QueueState,
    TaskHttpRequest, queue_result, QueueJson,
};
use gcloud_wasm::token::Token;

fn s(v: &str) -> String {
    v.to_string()
}

fn text(req: &HttpRequest) -> &str {
    match &req.body {
        Body::Text(t) => t.as_str(),
        _ => panic!("expected a text body"),
    }
}

fn failure(e: ApiError) -> String {
    match e {
        ApiError::RequestFailed(m) => m,
        ApiError::Auth(_) => panic!("expected a request failure"),
    }
}

#[test]
fn authorization_header_value() {
    let t = Token { access_token: s("ya29.x"), token_type: s("Bearer"), expires_in: 1 };
    assert_eq!(authorization(&t), "Bearer ya29.x");
}

#[test]
fn status_check() {
    assert_eq!(check_status(HttpResponse { status: 200, body: b"ok".to_vec() }).unwrap(), b"ok".to_vec());
    assert_eq!(check_status(HttpResponse { status: 299, body: vec![] }).unwrap(), Vec::<u8>::new());
    assert_eq!(check_status(HttpResponse { status: 404, body: b"not found".to_vec() }).err().unwrap(), "HTTP 404: not found");
    assert_eq!(check_status(HttpResponse { status: 199, body: vec![0xff] }).err().unwrap(), "HTTP 199: \u{fffd}");
}

#[test]
fn exchange_failures() {
    assert_eq!(failure(response_body(Err(ExchangeError::Transport(s("reset")))).err().unwrap()), "HTTP error: reset");
    assert_eq!(failure(response_body(Err(ExchangeError::RequestBuild(s("bad uri")))).err().unwrap()), "request build error: bad uri");
    assert_eq!(failure(response_body(Err(ExchangeError::BodyRead(s("eof")))).err().unwrap()), "body read error: eof");
    assert!(response_unit(Ok(HttpResponse { status: 204, body: vec![] })).is_ok());
    assert_eq!(failure(response_unit(Ok(HttpResponse { status: 403, body: b"no".to_vec() })).err().unwrap()), "HTTP 403: no");
}

#[test]
fn storage_requests() {
    let r = list_buckets_request("Bearer t", "proj");
    assert!(r.method == Method::Get);
    assert_eq!(r.url, "https://storage.googleapis.com/storage/v1/b?project=proj");
    assert_eq!(r.headers, vec![(s("Authorization"), s("Bearer t"))]);
    let r = create_bucket_request("Bearer t", "proj", "my\"bucket");
    assert!(r.method == Method::Post);
    assert_eq!(text(&r), "{\"name\":\"my\\\"bucket\"}");
    assert_eq!(r.headers[1], (s("Content-Type"), s("application/json")));
    assert_eq!(list_objects_request("a", "b", Some("p/")).url, "https://storage.googleapis.com/storage/v1/b/b/o?prefix=p/");
    assert_eq!(list_objects_request("a", "b", None).url, "https://storage.googleapis.com/storage/v1/b/b/o");
    let r = upload_object_request("a", "bk", "n", vec![1, 2], "text/plain");
    assert_eq!(r.url, "https://storage.googleapis.com/upload/storage/v1/b/bk/o?uploadType=media&name=n");
    assert_eq!(r.headers[1], (s("Content-Type"), s("text/plain")));
    assert!(matches!(r.body, Body::Bytes(ref b) if b == &vec![1u8, 2]));
}

#[test]
fn storage_answers() {
    let b = bucket_result(Ok(BucketJson { name: s("b"), location: Some(s("US")), storage_class: None, time_created: None }))
        .ok()
        .unwrap();
    assert_eq!(b.name, "b");
    assert_eq!(b.location, Some(s("US")));
    assert_eq!(failure(bucket_result(Err(s("eof"))).err().unwrap()), "JSON parse error: eof");
}

#[test]
fn publish_body_sorts_and_deduplicates_attributes() {
    let msgs = vec![
        PublishMessage { data: b"hello".to_vec(), attributes: vec![(s("z"), s("1")), (s("a"), s("2")), (s("z"), s("3"))] },
        PublishMessage { data: vec![], attributes: vec![] },
    ];
    let r = publish_request("a", "projects/p/topics/t", &msgs);
    assert_eq!(r.url, "https://pubsub.googleapis.com/v1/projects/p/topics/t:publish");
    assert_eq!(
        text(&r),
        "{\"messages\":[{\"attributes\":{\"a\":\"2\",\"z\":\"3\"},\"data\":\"aGVsbG8=\"},{\"attributes\":{},\"data\":\"\"}]}"
    );
}

#[test]
fn pubsub_requests() {
    let r = create_topic_request("a", "projects/p/topics/t");
    assert!(r.method == Method::Put);
    assert_eq!(text(&r), "{}");
    assert_eq!(text(&pull_request("a", "projects/p/subscriptions/s", 10)), "{\"maxMessages\":10}");
    let r = acknowledge_request("a", "projects/p/subscriptions/s", &[s("x"), s("y")]);
    assert_eq!(r.url, "https://pubsub.googleapis.com/v1/projects/p/subscriptions/s:acknowledge");
    assert_eq!(text(&r), "{\"ackIds\":[\"x\",\"y\"]}");
    assert_eq!(text(&acknowledge_request("a", "s", &[])), "{\"ackIds\":[]}");
}

#[test]
fn pulled_message_decoding() {
    let m = ReceivedMessage::from_json(ReceivedMessageJson {
        ack_id: s("ack"),
        message: PubsubMessageJson { data: Some(s("aGVsbG8=")), attributes: Some(vec![(s("k"), s("v"))]), message_id: s("1") },
    });
    assert_eq!(m.data, b"hello".to_vec());
    assert_eq!(m.attributes, vec![(s("k"), s("v"))]);
    assert_eq!(m.ack_id, "ack");
    assert_eq!(m.message_id, "1");
    let m = ReceivedMessage::from_json(ReceivedMessageJson {
        ack_id: s("a"),
        message: PubsubMessageJson { data: Some(s("not base64!")), attributes: None, message_id: s("2") },
    });
    assert!(m.data.is_empty());
    assert!(m.attributes.is_empty());
}

#[test]
fn pulled_attributes_have_one_pair_per_key() {
    let m = ReceivedMessage::from_json(ReceivedMessageJson {
        ack_id: s("ack"),
        message: PubsubMessageJson {
            data: None,
            attributes: Some(vec![(s("z"), s("1")), (s("a"), s("2")), (s("z"), s("3"))]),
            message_id: s("3"),
        },
    });
    assert_eq!(m.attributes, vec![(s("a"), s("2")), (s("z"), s("3"))]);
    assert!(m.data.is_empty());
}

#[test]
fn queue_states_and_methods() {
    assert!(parse_queue_state("RUNNING") == QueueState::Running);
    assert!(parse_queue_state("PAUSED") == QueueState::Paused);
    assert!(parse_queue_state("DISABLED") == QueueState::Disabled);
    assert!(parse_queue_state("running") == QueueState::StateUnspecified);
    assert_eq!(http_method_to_str(&HttpMethod::Get), "GET");
    assert_eq!(http_method_to_str(&HttpMethod::Options), "OPTIONS");
    assert_eq!(http_method_to_str(&HttpMethod::MethodUnspecified), "POST");
    let q = queue_result(Ok(QueueJson { name: s("q"), state: Some(s("PAUSED")) })).ok().unwrap();
    assert!(q.state == Some(QueueState::Paused));
}

#[test]
fn task_creation_body() {
    let req = TaskHttpRequest {
        url: s("https://example.com/h"),
        method: HttpMethod::Put,
        headers: vec![(s("X-B"), s("1")), (s("X-A"), s("2"))],
        body: b"hi".to_vec(),
    };
    let r = create_task_request("a", "projects/p/locations/l/queues/q", &req, Some("2024-01-01T00:00:00Z"));
    assert_eq!(r.url, "https://cloudtasks.googleapis.com/v2/projects/p/locations/l/queues/q/tasks");
    assert_eq!(
        text(&r),
        "{\"task\":{\"httpRequest\":{\"body\":\"aGk=\",\"headers\":{\"X-A\":\"2\",\"X-B\":\"1\"},\"httpMethod\":\"PUT\",\"url\":\"https://example.com/h\"},\"scheduleTime\":\"2024-01-01T00:00:00Z\"}}"
    );
    let r = create_task_request("a", "q", &req, None);
    assert!(text(&r).ends_with("\"url\":\"https://example.com/h\"}}}"));
    assert_eq!(pause_queue_request("a", "q").url, "https://cloudtasks.googleapis.com/v2/q:pause");
}

#[test]
fn secret_requests_and_payload() {
    let r = add_secret_version_request("a", "projects/p/secrets/s", &SecretPayload { data: b"pw".to_vec() });
    assert_eq!(r.url, "https://secretmanager.googleapis.com/v1/projects/p/secrets/s:addVersion");
    assert_eq!(text(&r), "{\"payload\":{\"data\":\"cHc=\"}}");
    let r = create_secret_request("a", "projects/p", "id");
    assert_eq!(r.url, "https://secretmanager.googleapis.com/v1/projects/p/secrets?secretId=id");
    assert_eq!(text(&r), "{\"replication\":{\"automatic\":{}}}");
    let p = access_result(Ok(AccessResponse { payload_data: s("cHc=") })).ok().unwrap();
    assert_eq!(p.data, b"pw".to_vec());
    let e = failure(access_result(Ok(AccessResponse { payload_data: s("%%") })).err().unwrap());
    assert!(e.starts_with("base64 decode error: "));
    assert!(parse_version_state("DESTROYED") == SecretVersionState::Destroyed);
    assert!(parse_version_state("") == SecretVersionState::StateUnspecified);
}

#[test]
fn bigquery_query_and_rows() {
    let r = query_request("a", "p", "SELECT \"x\"");
    assert_eq!(r.url, "https://bigquery.googleapis.com/bigquery/v2/projects/p/queries");
    assert_eq!(text(&r), "{\"query\":\"SELECT \\\"x\\\"\",\"useLegacySql\":false}");
    let q = convert_query_response(QueryResponseJson {
        job_id: s("j"),
        job_complete: true,
        rows: vec![RowJson {
            f: vec![
                FieldJson { v: Some(CellValue::Text(s("a"))) },
                FieldJson { v: Some(CellValue::Other(s("12"))) },
                FieldJson { v: Some(CellValue::Null) },
                FieldJson { v: None },
            ],
        }],
        total_rows: Some(s("1")),
    });
    assert_eq!(q.job_id, "j");
    assert!(q.job_complete);
    let values: Vec<Option<String>> = q.rows[0].fields.iter().map(|f| f.value.clone()).collect();
    assert_eq!(values, vec![Some(s("a")), Some(s("12")), None, None]);
}

#[test]
fn bigquery_insert_rows() {
    let r = insert_rows_request("a", "p", "d", "t", &[s("{\"b\": 1, \"a\": 2}"), s("[1]")]).ok().unwrap();
    assert_eq!(r.url, "https://bigquery.googleapis.com/bigquery/v2/projects/p/datasets/d/tables/t/insertAll");
    assert_eq!(text(&r), "{\"rows\":[{\"json\":{\"a\":2,\"b\":1}},{\"json\":[1]}]}");
    let e = failure(insert_rows_request("a", "p", "d", "t", &[s("{}"), s("nope"), s("{")]).err().unwrap());
    assert!(e.starts_with("JSON parse error for row: "));
    let a = convert_insert_rows_response(InsertAllResponseJson {
        insert_errors: vec![InsertErrorJson {
            index: 3,
            errors: vec![ErrorDetailJson { reason: Some(s("invalid")), location: None, message: Some(s("m")) }],
        }],
    });
    assert_eq!(a.insert_errors[0].index, 3);
    assert_eq!(a.insert_errors[0].errors[0].reason, Some(s("invalid")));
}
