//! What the operations are for, stated over their inputs: which credential field goes where in
//! a token request, which state or method name stands for which value, and which field of an
//! API answer becomes which field of the library's values.
use vstd::prelude::*;
use vstd::utf8::encode_utf8;
use crate::external::{percent_encoded, EncodeSet, base64_text, Base64Engine, json_quoted,
    rs256_signature};
use crate::text::{decimal, join};
use crate::http::{Method, BodyView, RequestView, ExchangeError, authorization_spec, is_success,
    checked_body_spec, exchange_message, json_parse_message};
use crate::external::utf8_lossy_text;
use crate::api::{bodyless_spec, with_body_spec};
use crate::flow::{TokenFetchError, fetch_failure_message};
use crate::token::TokenView;
use crate::adc::{RawCredentials, AdcView, adc_from_raw_spec};
use crate::auth::jwt_spec;
use crate::flow::{TokenSource, token_request_spec};
use crate::pubsub::{TopicJson, SubscriptionJson, ReceivedMessageJson, topic_spec, subscription_spec,
    received_message_spec};
use crate::tasks::{HttpMethod, QueueState, QueueJson, TaskJson, http_method_name, queue_state_spec,
    queue_spec, task_spec};
use crate::secretmanager::{SecretVersionState, SecretJson, SecretVersionJson, version_state_spec,
    secret_spec, secret_version_spec};
use crate::storage::{BucketJson, ObjectJson, bucket_spec, object_spec};
use crate::bigquery::{DatasetJson, TableJson, ErrorDetailJson, CellValue, dataset_spec, table_spec,
    error_detail_spec, cell_text};

verus! {

// ---------------------------------------------------------------------------
// Token acquisition

/// Authorized-user credentials are exchanged at Google's OAuth2 token endpoint by a
/// refresh-token grant: a form POST whose `client_id`, `client_secret` and `refresh_token`
/// fields carry the file's fields of the same names, each percent-encoded.
pub proof fn law_refresh_token_grant(
    raw: RawCredentials,
    env_host: Option<Seq<char>>,
    scopes: Seq<Seq<char>>,
    unix_now: u64,
)
    requires
        raw.credential_type@ == "authorized_user"@,
        raw.client_id is Some,
        raw.client_secret is Some,
        raw.refresh_token is Some,
    ensures
        token_request_spec(Ok::<RawCredentials, String>(raw), env_host, scopes, unix_now) == Ok::<(RequestView, TokenSource), Seq<char>>((
            (RequestView {
                method: Method::Post,
                url: "https://oauth2.googleapis.com/token"@,
                headers: seq![("Content-Type"@, "application/x-www-form-urlencoded"@)],
                body: BodyView::Text(
                    "grant_type=refresh_token&client_id="@
                        + percent_encoded(EncodeSet::NonAlphanumeric, encode_utf8(raw.client_id->0@))
                        + "&client_secret="@
                        + percent_encoded(EncodeSet::NonAlphanumeric, encode_utf8(raw.client_secret->0@))
                        + "&refresh_token="@
                        + percent_encoded(EncodeSet::NonAlphanumeric, encode_utf8(raw.refresh_token->0@))),
            }),
            TokenSource::OAuth,
        )),
{
}

/// Service-account credentials are exchanged at the file's token URI (Google's endpoint when
/// it names none) by a JWT-bearer grant whose assertion is signed with the file's private key,
/// names the file's key id, and is issued by the file's client email for that token URI.
pub proof fn law_service_account_grant(
    raw: RawCredentials,
    env_host: Option<Seq<char>>,
    scopes: Seq<Seq<char>>,
    unix_now: u64,
)
    requires
        raw.credential_type@ == "service_account"@,
        raw.client_email is Some,
        raw.private_key is Some,
        raw.private_key_id is Some,
    ensures
        ({
            let uri = match raw.token_uri {
                Some(u) => u@,
                None => "https://oauth2.googleapis.com/token"@,
            };
            token_request_spec(Ok::<RawCredentials, String>(raw), env_host, scopes, unix_now) == match jwt_spec(
                raw.client_email->0@,
                raw.private_key->0@,
                raw.private_key_id->0@,
                uri,
                scopes,
                unix_now,
            ) {
                Ok(jwt) => Ok::<(RequestView, TokenSource), Seq<char>>((
                    (RequestView {
                        method: Method::Post,
                        url: uri,
                        headers: seq![("Content-Type"@, "application/x-www-form-urlencoded"@)],
                        body: BodyView::Text(
                            "grant_type="@
                                + percent_encoded(EncodeSet::NonAlphanumeric,
                                    encode_utf8("urn:ietf:params:oauth:grant-type:jwt-bearer"@))
                                + "&assertion="@
                                + percent_encoded(EncodeSet::NonAlphanumeric, encode_utf8(jwt))),
                    }),
                    TokenSource::OAuth,
                )),
                Err(e) => Err(e),
            }
        }),
{
    law_credentials_fields(raw);
}

/// The metadata-server request: a GET of the default service account's token from
/// `GCE_METADATA_HOST` (or `metadata.google.internal`), asking for the scopes joined by commas
/// when there are any, with the `Metadata-Flavor: Google` header.
pub open spec fn expected_metadata_request(env_host: Option<Seq<char>>, scopes: Seq<Seq<char>>) -> RequestView {
    let host = match env_host {
        Some(h) => h,
        None => "metadata.google.internal"@,
    };
    let url = "http://"@ + host + "/computeMetadata/v1/instance/service-accounts/default/token"@;
    RequestView {
        method: Method::Get,
        url: if scopes.len() == 0 {
            url
        } else {
            url + "?scopes="@ + percent_encoded(EncodeSet::QueryValue, encode_utf8(join(scopes, ","@)))
        },
        headers: seq![("Metadata-Flavor"@, "Google"@)],
        body: BodyView::Empty,
    }
}

/// Without a credentials file, or with one of an unsupported type, the token is asked of the
/// metadata server.
pub proof fn law_metadata_fallback(
    creds: Result<RawCredentials, String>,
    env_host: Option<Seq<char>>,
    scopes: Seq<Seq<char>>,
    unix_now: u64,
)
    requires
        creds matches Ok(raw) ==> raw.credential_type@ != "authorized_user"@ && raw.credential_type@
            != "service_account"@,
    ensures
        token_request_spec(creds, env_host, scopes, unix_now) == Ok::<(RequestView, TokenSource), Seq<char>>(
            (expected_metadata_request(env_host, scopes), TokenSource::Metadata),
        ),
{
}

/// Each credential field of the file lands in the field of the same name, and a
/// service account without a token URI uses Google's token endpoint.
pub proof fn law_credentials_fields(raw: RawCredentials)
    ensures
        raw.credential_type@ == "authorized_user"@ && raw.client_id is Some && raw.client_secret is Some
            && raw.refresh_token is Some ==> adc_from_raw_spec(raw) == Ok::<AdcView, Seq<char>>(
            AdcView::AuthorizedUser {
                client_id: raw.client_id->0@,
                client_secret: raw.client_secret->0@,
                refresh_token: raw.refresh_token->0@,
            },
        ),
        raw.credential_type@ == "service_account"@ && raw.client_email is Some && raw.private_key is Some
            && raw.private_key_id is Some ==> adc_from_raw_spec(raw) == Ok::<AdcView, Seq<char>>(
            AdcView::ServiceAccount {
                client_email: raw.client_email->0@,
                private_key: raw.private_key->0@,
                private_key_id: raw.private_key_id->0@,
                token_uri: match raw.token_uri {
                    Some(u) => u@,
                    None => "https://oauth2.googleapis.com/token"@,
                },
            },
        ),
{
    reveal_strlit("authorized_user");
    reveal_strlit("service_account");
    assert("authorized_user"@ != "service_account"@) by {
        assert("authorized_user"@[0] != "service_account"@[0]);
    }
}

/// A signed assertion is the URL-safe base64 of the header `{"alg":"RS256","kid":<key id>,
/// "typ":"JWT"}`, a dot, the URL-safe base64 of the claims `{"aud":<audience>,"exp":<now +
/// 3600>,"iat":<now>,"iss":<client email>,"scope":<scopes joined by spaces>}`, a dot, and the
/// URL-safe base64 of the RS256 signature of the first two parts under the key.
pub proof fn law_jwt_contents(
    client_email: Seq<char>,
    private_key_pem: Seq<char>,
    private_key_id: Seq<char>,
    audience: Seq<char>,
    scopes: Seq<Seq<char>>,
    now: u64,
)
    ensures
        ({
            let header = base64_text(Base64Engine::UrlSafeNoPad, encode_utf8(
                "{\"alg\":\"RS256\",\"kid\":"@ + json_quoted(private_key_id) + ",\"typ\":\"JWT\"}"@));
            let claims = base64_text(Base64Engine::UrlSafeNoPad, encode_utf8(
                "{\"aud\":"@ + json_quoted(audience) + ",\"exp\":"@ + decimal((now + 3600) as nat)
                    + ",\"iat\":"@ + decimal(now as nat) + ",\"iss\":"@ + json_quoted(client_email)
                    + ",\"scope\":"@ + json_quoted(join(scopes, " "@)) + "}"@));
            let signed = header + "."@ + claims;
            jwt_spec(client_email, private_key_pem, private_key_id, audience, scopes, now) matches Ok(j)
                ==> (rs256_signature(private_key_pem, encode_utf8(signed)) matches Some(sig)
                && j == signed + "."@ + base64_text(Base64Engine::UrlSafeNoPad, sig))
        }),
{
}

/// The `Authorization` header value is the token type, one space, then the access token.
pub proof fn law_authorization_header(t: TokenView)
    ensures
        authorization_spec(t).len() == t.token_type.len() + 1 + t.access_token.len(),
        authorization_spec(t).take(t.token_type.len() as int) == t.token_type,
        authorization_spec(t)[t.token_type.len() as int] == ' ',
        authorization_spec(t).skip(t.token_type.len() as int + 1) == t.access_token,
{
    reveal_strlit(" ");
    assert(authorization_spec(t).take(t.token_type.len() as int) =~= t.token_type);
    assert(authorization_spec(t).skip(t.token_type.len() as int + 1) =~= t.access_token);
}

// ---------------------------------------------------------------------------
// Names of states and methods

/// A task's request is sent with the method it names: each method is written as its own
/// upper-case name, and an unspecified method is sent as a POST.
pub proof fn law_http_method_names(m: HttpMethod)
    ensures
        m == HttpMethod::Post ==> http_method_name(m) == "POST"@,
        m == HttpMethod::Get ==> http_method_name(m) == "GET"@,
        m == HttpMethod::Head ==> http_method_name(m) == "HEAD"@,
        m == HttpMethod::Put ==> http_method_name(m) == "PUT"@,
        m == HttpMethod::Delete ==> http_method_name(m) == "DELETE"@,
        m == HttpMethod::Patch ==> http_method_name(m) == "PATCH"@,
        m == HttpMethod::Options ==> http_method_name(m) == "OPTIONS"@,
        m == HttpMethod::MethodUnspecified ==> http_method_name(m) == "POST"@,
{
}

/// Different specified methods are written differently.
pub proof fn law_http_method_names_distinct(a: HttpMethod, b: HttpMethod)
    requires
        a != HttpMethod::MethodUnspecified,
        b != HttpMethod::MethodUnspecified,
        a != b,
    ensures
        http_method_name(a) != http_method_name(b),
{
    reveal_strlit("POST");
    reveal_strlit("GET");
    reveal_strlit("HEAD");
    reveal_strlit("PUT");
    reveal_strlit("DELETE");
    reveal_strlit("PATCH");
    reveal_strlit("OPTIONS");
    if http_method_name(a) == http_method_name(b) {
        let x = http_method_name(a);
        assert(x.len() == http_method_name(b).len());
        assert(x[0] == http_method_name(b)[0]);
        assert(x[1] == http_method_name(b)[1]);
    }
}

/// A queue is in the state its API name says: `RUNNING`, `PAUSED` and `DISABLED` each name
/// their own state, and every other name is an unspecified state.
pub proof fn law_queue_state_names(s: Seq<char>)
    ensures
        queue_state_spec(s) == QueueState::Running <==> s == "RUNNING"@,
        queue_state_spec(s) == QueueState::Paused <==> s == "PAUSED"@,
        queue_state_spec(s) == QueueState::Disabled <==> s == "DISABLED"@,
        queue_state_spec(s) == QueueState::StateUnspecified <==> (s != "RUNNING"@ && s != "PAUSED"@
            && s != "DISABLED"@),
{
    reveal_strlit("RUNNING");
    reveal_strlit("PAUSED");
    reveal_strlit("DISABLED");
    assert("RUNNING"@ != "PAUSED"@ && "RUNNING"@ != "DISABLED"@) by {
        assert("RUNNING"@.len() != "PAUSED"@.len());
        assert("RUNNING"@.len() != "DISABLED"@.len());
    }
    assert("PAUSED"@ != "DISABLED"@) by {
        assert("PAUSED"@.len() != "DISABLED"@.len());
    }
}

/// A secret version is in the state its API name says: `ENABLED`, `DISABLED` and
/// `DESTROYED` each name their own state, and every other name is an unspecified state.
pub proof fn law_version_state_names(s: Seq<char>)
    ensures
        version_state_spec(s) == SecretVersionState::Enabled <==> s == "ENABLED"@,
        version_state_spec(s) == SecretVersionState::Disabled <==> s == "DISABLED"@,
        version_state_spec(s) == SecretVersionState::Destroyed <==> s == "DESTROYED"@,
        version_state_spec(s) == SecretVersionState::StateUnspecified <==> (s != "ENABLED"@
            && s != "DISABLED"@ && s != "DESTROYED"@),
{
    reveal_strlit("ENABLED");
    reveal_strlit("DISABLED");
    reveal_strlit("DESTROYED");
    assert("ENABLED"@ != "DISABLED"@) by {
        assert("ENABLED"@.len() != "DISABLED"@.len());
    }
    assert("ENABLED"@ != "DESTROYED"@) by {
        assert("ENABLED"@.len() != "DESTROYED"@.len());
    }
    assert("DISABLED"@ != "DESTROYED"@) by {
        assert("DISABLED"@[1] != "DESTROYED"@[1]);
    }
}

// ---------------------------------------------------------------------------
// Values made from API answers: each field comes from the field of the same name

/// A topic keeps its name.
pub proof fn law_topic_fields(t: TopicJson)
    ensures
        topic_spec(t).name == t.name,
{
}

/// A subscription keeps its own name and the name of the topic it receives from.
pub proof fn law_subscription_fields(s: SubscriptionJson)
    ensures
        subscription_spec(s).name == s.name,
        subscription_spec(s).topic == s.topic,
{
}

/// A pulled message keeps its acknowledgement id and its message id, each in its place, and
/// has no data when the answer gives none.
pub proof fn law_received_message_fields(rm: ReceivedMessageJson)
    ensures
        received_message_spec(rm).ack_id == rm.ack_id@,
        received_message_spec(rm).message_id == rm.message.message_id@,
        rm.message.data is None ==> received_message_spec(rm).data == Seq::<u8>::empty(),
{
}

/// A queue keeps its name, and has a state exactly when the answer names one.
pub proof fn law_queue_fields(q: QueueJson)
    ensures
        queue_spec(q).name == q.name@,
        queue_spec(q).state is Some <==> q.state is Some,
        q.state matches Some(s) ==> queue_spec(q).state == Some(queue_state_spec(s@)),
{
}

/// A task keeps its name, its schedule time and its creation time, each in its place.
pub proof fn law_task_fields(t: TaskJson)
    ensures
        task_spec(t).name == t.name,
        task_spec(t).schedule_time == t.schedule_time,
        task_spec(t).create_time == t.create_time,
{
}

/// A secret keeps its name and creation time.
pub proof fn law_secret_fields(s: SecretJson)
    ensures
        secret_spec(s).name == s.name,
        secret_spec(s).create_time == s.create_time,
{
}

/// A secret version keeps its name, creation time and destruction time, each in its place,
/// and has the state its state name says.
pub proof fn law_secret_version_fields(v: SecretVersionJson)
    ensures
        secret_version_spec(v).name == v.name,
        secret_version_spec(v).create_time == v.create_time,
        secret_version_spec(v).destroy_time == v.destroy_time,
        secret_version_spec(v).state == version_state_spec(v.state@),
{
}

/// A bucket keeps its name, location, storage class and creation time, each in its place.
pub proof fn law_bucket_fields(b: BucketJson)
    ensures
        bucket_spec(b).name == b.name,
        bucket_spec(b).location == b.location,
        bucket_spec(b).storage_class == b.storage_class,
        bucket_spec(b).time_created == b.time_created,
{
}

/// An object keeps its name, its bucket, its size, content type and creation time, each in
/// its place.
pub proof fn law_object_fields(o: ObjectJson)
    ensures
        object_spec(o).name == o.name,
        object_spec(o).bucket == o.bucket,
        object_spec(o).size == o.size,
        object_spec(o).content_type == o.content_type,
        object_spec(o).time_created == o.time_created,
{
}

/// A dataset keeps its id, its reference (project and dataset id, each in its place), its
/// friendly name and its location.
pub proof fn law_dataset_fields(d: DatasetJson)
    ensures
        dataset_spec(d).id == d.id,
        dataset_spec(d).dataset_reference.project_id == d.dataset_reference.project_id,
        dataset_spec(d).dataset_reference.dataset_id == d.dataset_reference.dataset_id,
        dataset_spec(d).friendly_name == d.friendly_name,
        dataset_spec(d).location == d.location,
{
}

/// A table keeps its id, its reference (project, dataset and table id, each in its place), its
/// friendly name and its type.
pub proof fn law_table_fields(t: TableJson)
    ensures
        table_spec(t).id == t.id,
        table_spec(t).table_reference.project_id == t.table_reference.project_id,
        table_spec(t).table_reference.dataset_id == t.table_reference.dataset_id,
        table_spec(t).table_reference.table_id == t.table_reference.table_id,
        table_spec(t).friendly_name == t.friendly_name,
        table_spec(t).type_ == t.type_,
{
}

/// An insert error detail keeps its reason, location and message, each in its place.
pub proof fn law_error_detail_fields(d: ErrorDetailJson)
    ensures
        error_detail_spec(d).reason == d.reason,
        error_detail_spec(d).location == d.location,
        error_detail_spec(d).message == d.message,
{
}

/// A query cell reads as its string, or as the JSON text of any other value; a null or
/// absent cell has no value.
pub proof fn law_cell_text(v: Option<CellValue>)
    ensures
        v matches Some(CellValue::Text(s)) ==> cell_text(v) == Some(s@),
        v matches Some(CellValue::Other(t)) ==> cell_text(v) == Some(t@),
        v matches Some(CellValue::Null) ==> cell_text(v) is None,
        v is None ==> cell_text(v) is None,
{
}

// ---------------------------------------------------------------------------
// Requests and responses

/// Every service request carries the caller's `Authorization` value, and a request with a
/// body also carries its content type.
pub proof fn law_authorized_requests(method: Method, url: Seq<char>, auth: Seq<char>, ct: Seq<char>, body: BodyView)
    ensures
        bodyless_spec(method, url, auth).method == method,
        bodyless_spec(method, url, auth).url == url,
        bodyless_spec(method, url, auth).headers == seq![("Authorization"@, auth)],
        bodyless_spec(method, url, auth).body == BodyView::Empty,
        with_body_spec(method, url, auth, ct, body).method == method,
        with_body_spec(method, url, auth, ct, body).url == url,
        with_body_spec(method, url, auth, ct, body).headers == seq![("Authorization"@, auth), ("Content-Type"@, ct)],
        with_body_spec(method, url, auth, ct, body).body == body,
{
}

/// Each service addresses a resource by its full name under the service's base URL; BigQuery
/// addresses a table by project, dataset and table, in that order.
pub proof fn law_service_urls(name: Seq<char>, project: Seq<char>, dataset: Seq<char>, table: Seq<char>)
    ensures
        crate::pubsub::resource_url(name) == "https://pubsub.googleapis.com/v1"@ + "/"@ + name,
        crate::tasks::resource_url(name) == "https://cloudtasks.googleapis.com/v2"@ + "/"@ + name,
        crate::secretmanager::resource_url(name) == "https://secretmanager.googleapis.com/v1"@ + "/"@ + name,
        crate::bigquery::project_url(project) == "https://bigquery.googleapis.com/bigquery/v2"@ + "/projects/"@ + project,
        crate::bigquery::table_url(project, dataset, table) == "https://bigquery.googleapis.com/bigquery/v2"@
            + "/projects/"@ + project + "/datasets/"@ + dataset + "/tables/"@ + table,
        crate::storage::base_url() == "https://storage.googleapis.com/storage/v1"@,
        crate::storage::upload_url() == "https://storage.googleapis.com/upload/storage/v1"@,
        crate::storage::list_objects_url(name, None) == "https://storage.googleapis.com/storage/v1"@ + "/b/"@
            + name + "/o"@,
        crate::storage::list_objects_url(name, Some(project)) == "https://storage.googleapis.com/storage/v1"@
            + "/b/"@ + name + "/o"@ + "?prefix="@ + project,
{
}

/// The bodies that create resources name what they create: a bucket by its name, a queue by
/// its full name under its location, a query by its SQL in standard (not legacy) SQL, a secret
/// version by its data in base64, a secret with automatic replication.
pub proof fn law_creation_bodies(name: Seq<char>, parent: Seq<char>, id: Seq<char>, data: Seq<u8>)
    ensures
        crate::storage::create_bucket_body(name) == "{\"name\":"@ + json_quoted(name) + "}"@,
        crate::tasks::create_queue_body(parent, id) == "{\"name\":"@ + json_quoted(parent + "/queues/"@ + id) + "}"@,
        crate::bigquery::query_body(name) == "{\"query\":"@ + json_quoted(name) + ",\"useLegacySql\":false}"@,
        crate::secretmanager::add_version_body(data) == "{\"payload\":{\"data\":"@
            + json_quoted(base64_text(Base64Engine::Standard, data)) + "}}"@,
        crate::secretmanager::create_secret_body() == "{\"replication\":{\"automatic\":{}}}"@,
{
}

/// A task's HTTP request is written with its body in base64, its headers, its method's name
/// and its URL, each under its own key; the task carries the schedule time only when one is
/// given.
pub proof fn law_task_body(r: crate::tasks::TaskHttpRequest, schedule_time: Option<Seq<char>>)
    ensures
        crate::tasks::task_http_request_json(r) == "{\"body\":"@
            + json_quoted(base64_text(Base64Engine::Standard, r.body@)) + ",\"headers\":"@
            + crate::json::json_string_object(crate::json::canonical_pairs(crate::json::pairs_view(r.headers@)))
            + ",\"httpMethod\":"@ + json_quoted(http_method_name(r.method)) + ",\"url\":"@
            + json_quoted(r.url@) + "}"@,
        schedule_time is None ==> crate::tasks::create_task_body(r, schedule_time) == "{\"task\":{\"httpRequest\":"@
            + crate::tasks::task_http_request_json(r) + "}}"@,
        schedule_time matches Some(st) ==> crate::tasks::create_task_body(r, schedule_time)
            == "{\"task\":{\"httpRequest\":"@ + crate::tasks::task_http_request_json(r)
            + ",\"scheduleTime\":"@ + json_quoted(st) + "}}"@,
{
    assert(("{\"task\":{\"httpRequest\":"@ + crate::tasks::task_http_request_json(r) + Seq::<char>::empty()) =~=
        ("{\"task\":{\"httpRequest\":"@ + crate::tasks::task_http_request_json(r)));
}

/// A published message is written with its attributes as a JSON object (keys in order, the
/// last value of a key kept) and its data in base64.
pub proof fn law_publish_message(attributes: Seq<(Seq<char>, Seq<char>)>, data: Seq<u8>)
    ensures
        crate::pubsub::publish_message_json(attributes, data) == "{\"attributes\":"@
            + crate::json::json_string_object(crate::json::canonical_pairs(attributes)) + ",\"data\":"@
            + json_quoted(base64_text(Base64Engine::Standard, data)) + "}"@,
{
}

/// A response is a success exactly when its status is in the 2xx range; a success gives its
/// body, any other status the error `HTTP <status>: <body as text>`.
pub proof fn law_status_check(status: u16, body: Seq<u8>)
    ensures
        is_success(status) <==> 200 <= status && status < 300,
        200 <= status < 300 ==> checked_body_spec(status, body) == Ok::<Seq<u8>, Seq<char>>(body),
        !(200 <= status < 300) ==> checked_body_spec(status, body) == Err::<Seq<u8>, Seq<char>>(
            "HTTP "@ + decimal(status as nat) + ": "@ + utf8_lossy_text(body)),
{
}

/// The messages of failed exchanges: a request that could not be built, a transport failure
/// named by `transport`, and a body that could not be read each give their own prefix before
/// the underlying message; a JSON parse error is prefixed as one.
pub proof fn law_exchange_messages(m: String, transport: Seq<char>)
    ensures
        exchange_message(ExchangeError::RequestBuild(m), transport) == "request build error: "@ + m@,
        exchange_message(ExchangeError::Transport(m), transport) == transport + ": "@ + m@,
        exchange_message(ExchangeError::BodyRead(m), transport) == "body read error: "@ + m@,
        json_parse_message(m@) == "JSON parse error: "@ + m@,
{
}

/// A failed token request is reported as an HTTP error by the OAuth2 endpoint and as a
/// metadata server error by the metadata server; an unreadable answer as a JSON parse error.
pub proof fn law_token_fetch_messages(x: ExchangeError, m: String)
    ensures
        fetch_failure_message(TokenFetchError::Exchange(x), TokenSource::OAuth) == exchange_message(x, "HTTP error"@),
        fetch_failure_message(TokenFetchError::Exchange(x), TokenSource::Metadata)
            == exchange_message(x, "metadata server error"@),
        fetch_failure_message(TokenFetchError::JsonParse(m), TokenSource::OAuth) == "JSON parse error: "@ + m@,
        fetch_failure_message(TokenFetchError::JsonParse(m), TokenSource::Metadata) == "JSON parse error: "@ + m@,
{
}

// ---------------------------------------------------------------------------
// Numbers in text

/// The number that a sequence of decimal digits spells.
pub open spec fn digits_value(s: Seq<char>) -> int
    decreases s.len(),
{
    if s.len() == 0 {
        0
    } else {
        digits_value(s.drop_last()) * 10 + ((s.last() as int) - 48)
    }
}

/// A number is written in decimal: only digits, no leading zero, and the digits spell the
/// number.
pub proof fn law_decimal_digits(n: nat)
    ensures
        digits_value(decimal(n)) == n,
        decimal(n).len() >= 1,
        decimal(n).len() == 1 <==> n < 10,
        forall|i: int| 0 <= i < decimal(n).len() ==> '0' <= #[trigger] decimal(n)[i] <= '9',
        decimal(n).len() > 1 ==> decimal(n)[0] != '0',
    decreases n,
{
    if n < 10 {
        assert((crate::text::digit_char(n) as int) == 48 + n);
        assert(decimal(n).drop_last() =~= Seq::<char>::empty());
        assert(digits_value(Seq::<char>::empty()) == 0);
        assert(decimal(n).last() == crate::text::digit_char(n));
        assert(digits_value(decimal(n)) == digits_value(decimal(n).drop_last()) * 10
            + ((decimal(n).last() as int) - 48));
    } else {
        let q = n / 10;
        let r = n % 10;
        law_decimal_digits(q);
        assert((crate::text::digit_char(r) as int) == 48 + r);
        let d = decimal(n);
        assert(d == decimal(q).push(crate::text::digit_char(r)));
        assert(d.drop_last() =~= decimal(q));
        assert(d.last() == crate::text::digit_char(r));
        assert(digits_value(d) == digits_value(d.drop_last()) * 10 + ((d.last() as int) - 48));
        assert(digits_value(d) == q * 10 + r);
        assert(n == q * 10 + r) by (nonlinear_arith)
            requires q == n / 10, r == n % 10;
        assert forall|i: int| 0 <= i < d.len() implies '0' <= #[trigger] d[i] <= '9' by {
            if i < d.len() - 1 {
                assert(d[i] == decimal(q)[i]);
            }
        }
        assert(d[0] == decimal(q)[0]);
        if decimal(q).len() == 1 {
            assert(q < 10 && q >= 1);
        }
    }
}

// ---------------------------------------------------------------------------
// JSON objects and token lifetimes

/// A JSON object of strings is written as its entries in braces, separated by commas, each
/// entry the quoted key, a colon and the quoted value; an array of strings is its quoted items
/// in brackets, separated by commas.
pub proof fn law_json_text(entries: Seq<(Seq<char>, Seq<char>)>, items: Seq<Seq<char>>)
    ensures
        crate::json::json_string_object(entries) == "{"@ + join(entries.map_values(
            |p: (Seq<char>, Seq<char>)| json_quoted(p.0) + ":"@ + json_quoted(p.1)), ","@) + "}"@,
        crate::json::json_string_array(items) == "["@ + join(items.map_values(|s: Seq<char>| json_quoted(s)),
            ","@) + "]"@,
{
    assert(entries.map_values(|p: (Seq<char>, Seq<char>)| crate::json::json_entry(p)) =~= entries.map_values(
        |p: (Seq<char>, Seq<char>)| json_quoted(p.0) + ":"@ + json_quoted(p.1)));
}

/// A cached token is used until 60 seconds before its reported lifetime ends (never, for a
/// lifetime of at most 60 seconds), measured in nanoseconds.
pub proof fn law_token_margin(c: crate::cache::CachedView, now: u64)
    ensures
        crate::cache::ttl_secs(c.expires_in_secs) == if c.expires_in_secs >= 60 {
            c.expires_in_secs - 60
        } else {
            0
        },
        crate::cache::spec_is_valid(c, now) <==> (if now >= c.acquired_at { now - c.acquired_at } else { 0 })
            < crate::cache::ttl_secs(c.expires_in_secs) * 1_000_000_000,
{
}

} // verus!
