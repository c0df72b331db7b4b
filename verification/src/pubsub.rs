//! Pub/Sub: requests for topics and subscriptions, publishing and pulling messages, and the
//! values their answers make.
use vstd::prelude::*;
use vstd::utf8::encode_utf8;
use vstd::string::StringSliceAdditionalSpecFns;
use crate::text::{owned, push_str, push_decimal, decimal, join, views};
use crate::external::{json_quote, json_quoted, base64_encode, base64_text, base64_encodable,
    Base64Engine, base64_decode_standard, base64_standard_decoded};
use crate::json::{canonical_string_pairs, canonical_pairs, pairs_view, pairs_map, keys_distinct,
    law_canonical_pairs, lemma_sorted_keys_distinct, push_string_object,
    json_string_object, push_string_array, json_string_array};
use crate::http::{Method, BodyView, HttpRequest, ApiError, json_parse_message, parsed};
use crate::api::{bodyless_spec, with_body_spec, get_request, delete_request, json_request};

verus! {

/// The scope a Pub/Sub token is asked for.
pub open spec fn pubsub_scope() -> Seq<char> {
    "https://www.googleapis.com/auth/pubsub"@
}

/// The scope a Pub/Sub token is asked for.
pub fn pubsub_scope_string() -> (res: String)
    ensures
        res@ == pubsub_scope(),
{
    owned("https://www.googleapis.com/auth/pubsub")
}

/// The API base URL.
pub open spec fn base_url() -> Seq<char> {
    "https://pubsub.googleapis.com/v1"@
}

/// A topic.
pub struct Topic {
    pub name: String,
}

/// A subscription and the topic it receives from.
pub struct Subscription {
    pub name: String,
    pub topic: String,
}

/// A message to publish: its data and attributes.
pub struct PublishMessage {
    pub data: Vec<u8>,
    pub attributes: Vec<(String, String)>,
}

/// A pulled message: the id to acknowledge it with, its id, its data and its attributes.
pub struct ReceivedMessage {
    pub ack_id: String,
    pub message_id: String,
    pub data: Vec<u8>,
    pub attributes: Vec<(String, String)>,
}

/// A topic as the API describes it.
pub struct TopicJson {
    pub name: String,
}

/// A subscription as the API describes it (an absent topic is empty).
pub struct SubscriptionJson {
    pub name: String,
    pub topic: String,
}

/// The answer to a topic listing.
pub struct ListTopicsResponse {
    pub topics: Vec<TopicJson>,
}

/// The answer to a subscription listing.
pub struct ListSubscriptionsResponse {
    pub subscriptions: Vec<SubscriptionJson>,
}

/// The answer to a publish: the ids of the published messages.
pub struct PublishResponse {
    pub message_ids: Vec<String>,
}

/// A message as a pull answer describes it: base64 data and attributes, each possibly absent.
pub struct PubsubMessageJson {
    pub data: Option<String>,
    pub attributes: Option<Vec<(String, String)>>,
    pub message_id: String,
}

/// A pulled message as a pull answer describes it.
pub struct ReceivedMessageJson {
    pub ack_id: String,
    pub message: PubsubMessageJson,
}

/// The answer to a pull.
pub struct PullResponse {
    pub received_messages: Vec<ReceivedMessageJson>,
}

/// The topic a description makes.
pub open spec fn topic_spec(t: TopicJson) -> Topic {
    Topic { name: t.name }
}

/// The subscription a description makes.
pub open spec fn subscription_spec(s: SubscriptionJson) -> Subscription {
    Subscription { name: s.name, topic: s.topic }
}

impl Topic {
    /// The topic a description makes.
    pub fn from_json(t: TopicJson) -> (res: Topic)
        ensures
            res == topic_spec(t),
    {
        Topic { name: t.name }
    }
}

impl Subscription {
    /// The subscription a description makes.
    pub fn from_json(s: SubscriptionJson) -> (res: Subscription)
        ensures
            res == subscription_spec(s),
            res.name@ == s.name@,
            res.topic@ == s.topic@,
    {
        Subscription { name: s.name, topic: s.topic }
    }
}

/// The topics of a parsed listing, or the request failure of a parse error.
pub fn list_topics_result(r: Result<ListTopicsResponse, String>) -> (res: Result<Vec<Topic>, ApiError>)
    ensures
        r matches Ok(l) ==> (res matches Ok(v) && v@ == l.topics@.map_values(|t: TopicJson| topic_spec(t))),
        r matches Err(e) ==> (res matches Err(ApiError::RequestFailed(m)) && m@ == json_parse_message(e@)),
{
    let l = parsed(r)?;
    let items = l.topics;
    let mut out: Vec<Topic> = Vec::new();
    for t in it: items
        invariant
            out@ == items@.take(it.index() as int).map_values(|t: TopicJson| topic_spec(t)),
    {
        out.push(Topic::from_json(t));
        proof {
            assert(items@.take(it.index() + 1) =~= items@.take(it.index() as int).push(items@[it.index() as int]));
            assert(out@ =~= items@.take(it.index() + 1).map_values(|t: TopicJson| topic_spec(t)));
        }
    }
    assert(items@.take(items@.len() as int) =~= items@);
    Ok(out)
}

/// The topic of a parsed description, or the request failure of a parse error.
pub fn topic_result(r: Result<TopicJson, String>) -> (res: Result<Topic, ApiError>)
    ensures
        r matches Ok(t) ==> res == Ok::<Topic, ApiError>(topic_spec(t)),
        r matches Err(e) ==> (res matches Err(ApiError::RequestFailed(m)) && m@ == json_parse_message(e@)),
{
    let t = parsed(r)?;
    Ok(Topic::from_json(t))
}

/// The subscriptions of a parsed listing, or the request failure of a parse error.
pub fn list_subscriptions_result(r: Result<ListSubscriptionsResponse, String>) -> (res: Result<Vec<Subscription>, ApiError>)
    ensures
        r matches Ok(l) ==> (res matches Ok(v) && v@ == l.subscriptions@.map_values(|s: SubscriptionJson| subscription_spec(s))),
        r matches Err(e) ==> (res matches Err(ApiError::RequestFailed(m)) && m@ == json_parse_message(e@)),
{
    let l = parsed(r)?;
    let items = l.subscriptions;
    let mut out: Vec<Subscription> = Vec::new();
    for s in it: items
        invariant
            out@ == items@.take(it.index() as int).map_values(|s: SubscriptionJson| subscription_spec(s)),
    {
        out.push(Subscription::from_json(s));
        proof {
            assert(items@.take(it.index() + 1) =~= items@.take(it.index() as int).push(items@[it.index() as int]));
            assert(out@ =~= items@.take(it.index() + 1).map_values(|s: SubscriptionJson| subscription_spec(s)));
        }
    }
    assert(items@.take(items@.len() as int) =~= items@);
    Ok(out)
}

/// The subscription of a parsed description, or the request failure of a parse error.
pub fn subscription_result(r: Result<SubscriptionJson, String>) -> (res: Result<Subscription, ApiError>)
    ensures
        r matches Ok(s) ==> res == Ok::<Subscription, ApiError>(subscription_spec(s)),
        r matches Err(e) ==> (res matches Err(ApiError::RequestFailed(m)) && m@ == json_parse_message(e@)),
{
    let s = parsed(r)?;
    Ok(Subscription::from_json(s))
}

/// The message ids of a parsed publish answer, or the request failure of a parse error.
pub fn publish_result(r: Result<PublishResponse, String>) -> (res: Result<Vec<String>, ApiError>)
    ensures
        r matches Ok(p) ==> res == Ok::<Vec<String>, ApiError>(p.message_ids),
        r matches Err(e) ==> (res matches Err(ApiError::RequestFailed(m)) && m@ == json_parse_message(e@)),
{
    let p = parsed(r)?;
    Ok(p.message_ids)
}

// ---------------------------------------------------------------------------
// Pulled messages

/// The data of a pulled message: its base64 text decoded, or nothing when the text is absent
/// or not base64.
pub open spec fn pulled_data(data: Option<Seq<char>>) -> Seq<u8> {
    match data {
        Some(d) => match base64_standard_decoded(encode_utf8(d)) {
            Ok(v) => v,
            Err(_) => Seq::empty(),
        },
        None => Seq::empty(),
    }
}

/// The contents of a pulled message.
pub struct ReceivedMessageView {
    pub ack_id: Seq<char>,
    pub message_id: Seq<char>,
    pub data: Seq<u8>,
    pub attributes: Seq<(Seq<char>, Seq<char>)>,
}

impl View for ReceivedMessage {
    type V = ReceivedMessageView;

    open spec fn view(&self) -> ReceivedMessageView {
        ReceivedMessageView {
            ack_id: self.ack_id@,
            message_id: self.message_id@,
            data: self.data@,
            attributes: pairs_view(self.attributes@),
        }
    }
}

/// The attributes of a pulled message: one pair per key, the last given for it, in the order
/// of keys (none when absent).
pub open spec fn pulled_attributes(a: Option<Vec<(String, String)>>) -> Seq<(Seq<char>, Seq<char>)> {
    match a {
        Some(a) => canonical_pairs(pairs_view(a@)),
        None => Seq::empty(),
    }
}

/// The map of attributes a pull answer's entry gives (empty when absent).
pub open spec fn given_attributes(a: Option<Vec<(String, String)>>) -> Map<Seq<char>, Seq<char>> {
    match a {
        Some(a) => pairs_map(pairs_view(a@)),
        None => Map::empty(),
    }
}

/// The pulled message a pull answer's entry makes: the data decoded (nothing when absent or
/// not base64), the attributes with one pair per key (none when absent).
pub open spec fn received_message_spec(rm: ReceivedMessageJson) -> ReceivedMessageView {
    ReceivedMessageView {
        ack_id: rm.ack_id@,
        message_id: rm.message.message_id@,
        data: pulled_data(match rm.message.data {
            Some(d) => Some(d@),
            None => None,
        }),
        attributes: pulled_attributes(rm.message.attributes),
    }
}

/// Whether the base64 text of a pulled message is the standard encoding of `x`.
pub open spec fn carries_encoding_of(rm: ReceivedMessageJson, x: Seq<u8>) -> bool {
    rm.message.data matches Some(d) && d@ == base64_text(Base64Engine::Standard, x)
}

impl ReceivedMessage {
    /// The pulled message a pull answer's entry makes. Data published as the base64 encoding
    /// of some bytes is received as those bytes; no attribute key occurs twice, and each key
    /// given has the last value given for it.
    pub fn from_json(rm: ReceivedMessageJson) -> (res: ReceivedMessage)
        ensures
            res@ == received_message_spec(rm),
            forall|x: Seq<u8>| #[trigger] carries_encoding_of(rm, x) ==> res.data@ == x,
            keys_distinct(res@.attributes),
            pairs_map(res@.attributes) == given_attributes(rm.message.attributes),
    {
        let ghost g = rm;
        let data = match rm.message.data {
            Some(d) => match base64_decode_standard(d.as_str()) {
                Ok(v) => v,
                Err(_) => Vec::new(),
            },
            None => Vec::new(),
        };
        let attributes = match rm.message.attributes {
            Some(a) => canonical_string_pairs(a.as_slice()),
            None => Vec::new(),
        };
        proof {
            match g.message.attributes {
                Some(a) => {
                    law_canonical_pairs(pairs_view(a@));
                    lemma_sorted_keys_distinct(canonical_pairs(pairs_view(a@)));
                },
                None => {
                    assert(pairs_view(attributes@) =~= Seq::<(Seq<char>, Seq<char>)>::empty());
                    assert(pairs_map(pairs_view(attributes@)) =~= Map::<Seq<char>, Seq<char>>::empty());
                },
            }
        }
        ReceivedMessage { ack_id: rm.ack_id, message_id: rm.message.message_id, data, attributes }
    }
}

/// The messages of a parsed pull answer, or the request failure of a parse error.
pub fn pull_result(r: Result<PullResponse, String>) -> (res: Result<Vec<ReceivedMessage>, ApiError>)
    ensures
        r matches Ok(p) ==> (res matches Ok(v) && v@.len() == p.received_messages@.len()
            && forall|i: int| 0 <= i < v@.len() ==> (#[trigger] v@[i])@ == received_message_spec(p.received_messages@[i])),
        r matches Ok(p) ==> (res matches Ok(v) && forall|i: int| 0 <= i < v@.len() ==> {
            &&& keys_distinct((#[trigger] v@[i])@.attributes)
            &&& pairs_map(v@[i]@.attributes) == given_attributes(p.received_messages@[i].message.attributes)
        }),
        r matches Err(e) ==> (res matches Err(ApiError::RequestFailed(m)) && m@ == json_parse_message(e@)),
{
    let p = parsed(r)?;
    let items = p.received_messages;
    let mut out: Vec<ReceivedMessage> = Vec::new();
    for rm in it: items
        invariant
            out@.len() == it.index(),
            forall|i: int| 0 <= i < it.index() ==> (#[trigger] out@[i])@ == received_message_spec(items@[i]),
            forall|i: int| 0 <= i < it.index() ==> {
                &&& keys_distinct((#[trigger] out@[i])@.attributes)
                &&& pairs_map(out@[i]@.attributes) == given_attributes(items@[i].message.attributes)
            },
    {
        out.push(ReceivedMessage::from_json(rm));
    }
    Ok(out)
}

// ---------------------------------------------------------------------------
// Requests

/// The request listing a project's topics (`project` is `projects/<id>`).
pub fn list_topics_request(auth: &str, project: &str) -> (res: HttpRequest)
    ensures
        res@ == bodyless_spec(Method::Get, base_url() + "/"@ + project@ + "/topics"@, auth@),
{
    let mut url = owned("https://pubsub.googleapis.com/v1");
    push_str(&mut url, "/");
    push_str(&mut url, project);
    push_str(&mut url, "/topics");
    get_request(url, auth)
}

/// The URL of a named resource.
pub open spec fn resource_url(name: Seq<char>) -> Seq<char> {
    base_url() + "/"@ + name
}

fn resource_url_string(name: &str) -> (res: String)
    ensures
        res@ == resource_url(name@),
{
    let mut url = owned("https://pubsub.googleapis.com/v1");
    push_str(&mut url, "/");
    push_str(&mut url, name);
    url
}

/// The request describing a topic.
pub fn get_topic_request(auth: &str, name: &str) -> (res: HttpRequest)
    ensures
        res@ == bodyless_spec(Method::Get, resource_url(name@), auth@),
{
    get_request(resource_url_string(name), auth)
}

/// The request creating a topic: a PUT of an empty object.
pub fn create_topic_request(auth: &str, name: &str) -> (res: HttpRequest)
    ensures
        res@ == with_body_spec(Method::Put, resource_url(name@), auth@, "application/json"@,
            BodyView::Text("{}"@)),
{
    json_request(Method::Put, resource_url_string(name), auth, owned("{}"))
}

/// The request deleting a topic.
pub fn delete_topic_request(auth: &str, name: &str) -> (res: HttpRequest)
    ensures
        res@ == bodyless_spec(Method::Delete, resource_url(name@), auth@),
{
    delete_request(resource_url_string(name), auth)
}

/// The JSON of one message to publish: its attributes as an object (one entry per key, the
/// last given, keys in order) and its data in standard base64.
pub open spec fn publish_message_json(attributes: Seq<(Seq<char>, Seq<char>)>, data: Seq<u8>) -> Seq<char> {
    "{\"attributes\":"@ + json_string_object(canonical_pairs(attributes)) + ",\"data\":"@
        + json_quoted(base64_text(Base64Engine::Standard, data)) + "}"@
}

/// The JSON of a message to publish.
pub open spec fn message_json(m: PublishMessage) -> Seq<char> {
    publish_message_json(pairs_view(m.attributes@), m.data@)
}

/// The body of a publish: `{"messages":[...]}`.
pub open spec fn publish_body(messages: Seq<PublishMessage>) -> Seq<char> {
    "{\"messages\":["@ + join(messages.map_values(|m: PublishMessage| message_json(m)), ","@) + "]}"@
}

/// The request publishing messages to a topic.
pub fn publish_request(auth: &str, topic: &str, messages: &[PublishMessage]) -> (res: HttpRequest)
    requires
        forall|i: int| 0 <= i < messages@.len() ==> base64_encodable((#[trigger] messages@[i]).data@.len()),
    ensures
        res@ == with_body_spec(Method::Post, resource_url(topic@) + ":publish"@, auth@,
            "application/json"@, BodyView::Text(publish_body(messages@))),
{
    let ghost items = messages@.map_values(|m: PublishMessage| message_json(m));
    let mut body = owned("{\"messages\":[");
    let n = messages.len();
    let mut i: usize = 0;
    while i < n
        invariant
            n == messages@.len(),
            i <= n,
            forall|k: int| 0 <= k < messages@.len() ==> base64_encodable((#[trigger] messages@[k]).data@.len()),
            items == messages@.map_values(|m: PublishMessage| message_json(m)),
            body@ == "{\"messages\":["@ + join(items.take(i as int), ","@),
        decreases n - i,
    {
        if i > 0 {
            push_str(&mut body, ",");
        }
        let m = &messages[i];
        push_str(&mut body, "{\"attributes\":");
        let attrs = canonical_string_pairs(m.attributes.as_slice());
        push_string_object(&mut body, attrs.as_slice());
        push_str(&mut body, ",\"data\":");
        let encoded = base64_encode(Base64Engine::Standard, m.data.as_slice());
        let q = json_quote(encoded.as_str());
        push_str(&mut body, q.as_str());
        push_str(&mut body, "}");
        proof {
            let t = items.take(i + 1);
            assert(t.drop_last() =~= items.take(i as int));
            if i == 0 {
                assert(join(t, ","@) == t[0]);
            }
            assert(body@ =~= "{\"messages\":["@ + join(t, ","@));
        }
        i = i + 1;
    }
    assert(items.take(n as int) =~= items);
    push_str(&mut body, "]}");
    let mut url = resource_url_string(topic);
    push_str(&mut url, ":publish");
    json_request(Method::Post, url, auth, body)
}

/// The request listing a project's subscriptions.
pub fn list_subscriptions_request(auth: &str, project: &str) -> (res: HttpRequest)
    ensures
        res@ == bodyless_spec(Method::Get, base_url() + "/"@ + project@ + "/subscriptions"@, auth@),
{
    let mut url = owned("https://pubsub.googleapis.com/v1");
    push_str(&mut url, "/");
    push_str(&mut url, project);
    push_str(&mut url, "/subscriptions");
    get_request(url, auth)
}

/// The request describing a subscription.
pub fn get_subscription_request(auth: &str, name: &str) -> (res: HttpRequest)
    ensures
        res@ == bodyless_spec(Method::Get, resource_url(name@), auth@),
{
    get_request(resource_url_string(name), auth)
}

/// The request creating a subscription to a topic: a PUT of `{"topic":<topic>}`.
pub fn create_subscription_request(auth: &str, name: &str, topic: &str) -> (res: HttpRequest)
    ensures
        res@ == with_body_spec(Method::Put, resource_url(name@), auth@, "application/json"@,
            BodyView::Text("{\"topic\":"@ + json_quoted(topic@) + "}"@)),
{
    let mut body = owned("{\"topic\":");
    let q = json_quote(topic);
    push_str(&mut body, q.as_str());
    push_str(&mut body, "}");
    json_request(Method::Put, resource_url_string(name), auth, body)
}

/// The request deleting a subscription.
pub fn delete_subscription_request(auth: &str, name: &str) -> (res: HttpRequest)
    ensures
        res@ == bodyless_spec(Method::Delete, resource_url(name@), auth@),
{
    delete_request(resource_url_string(name), auth)
}

/// The request pulling at most `max_messages` messages: a POST of `{"maxMessages":<n>}`.
pub fn pull_request(auth: &str, subscription: &str, max_messages: u32) -> (res: HttpRequest)
    ensures
        res@ == with_body_spec(Method::Post, resource_url(subscription@) + ":pull"@, auth@,
            "application/json"@, BodyView::Text("{\"maxMessages\":"@ + decimal(max_messages as nat) + "}"@)),
{
    let mut body = owned("{\"maxMessages\":");
    push_decimal(&mut body, max_messages as u64);
    push_str(&mut body, "}");
    let mut url = resource_url_string(subscription);
    push_str(&mut url, ":pull");
    json_request(Method::Post, url, auth, body)
}

/// The request acknowledging pulled messages: a POST of `{"ackIds":[...]}`.
pub fn acknowledge_request(auth: &str, subscription: &str, ack_ids: &[String]) -> (res: HttpRequest)
    ensures
        res@ == with_body_spec(Method::Post, resource_url(subscription@) + ":acknowledge"@, auth@,
            "application/json"@, BodyView::Text("{\"ackIds\":"@ + json_string_array(views(ack_ids@)) + "}"@)),
{
    let mut body = owned("{\"ackIds\":");
    push_string_array(&mut body, ack_ids);
    push_str(&mut body, "}");
    let mut url = resource_url_string(subscription);
    push_str(&mut url, ":acknowledge");
    json_request(Method::Post, url, auth, body)
}

} // verus!
