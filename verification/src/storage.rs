//! Cloud Storage: requests for buckets and objects, and the values their answers make.
use vstd::prelude::*;
use crate::text::{owned, push_str};
use crate::external::{json_quote, json_quoted};
use crate::http::{Method, Body, BodyView, HttpRequest, RequestView, ApiError, json_parse_message, parsed};
use crate::api::{bodyless_spec, with_body_spec, get_request, delete_request, body_request, json_request};

verus! {

/// The scope a storage token is asked for.
pub open spec fn storage_scope() -> Seq<char> {
    "https://www.googleapis.com/auth/devstorage.full_control"@
}

/// The scope a storage token is asked for.
pub fn storage_scope_string() -> (res: String)
    ensures
        res@ == storage_scope(),
{
    owned("https://www.googleapis.com/auth/devstorage.full_control")
}

/// The JSON API base URL.
pub open spec fn base_url() -> Seq<char> {
    "https://storage.googleapis.com/storage/v1"@
}

/// The upload base URL.
pub open spec fn upload_url() -> Seq<char> {
    "https://storage.googleapis.com/upload/storage/v1"@
}

/// A bucket.
pub struct Bucket {
    pub name: String,
    pub location: Option<String>,
    pub storage_class: Option<String>,
    pub time_created: Option<String>,
}

/// An object.
pub struct Object {
    pub name: String,
    pub bucket: String,
    pub size: Option<String>,
    pub content_type: Option<String>,
    pub time_created: Option<String>,
}

/// A bucket as the JSON API describes it.
pub struct BucketJson {
    pub name: String,
    pub location: Option<String>,
    pub storage_class: Option<String>,
    pub time_created: Option<String>,
}

/// An object as the JSON API describes it.
pub struct ObjectJson {
    pub name: String,
    pub bucket: String,
    pub size: Option<String>,
    pub content_type: Option<String>,
    pub time_created: Option<String>,
}

/// The answer to a bucket listing.
pub struct ListBucketsResponse {
    pub items: Vec<BucketJson>,
}

/// The answer to an object listing.
pub struct ListObjectsResponse {
    pub items: Vec<ObjectJson>,
}

/// The bucket a JSON description makes: the same fields.
pub open spec fn bucket_spec(b: BucketJson) -> Bucket {
    Bucket { name: b.name, location: b.location, storage_class: b.storage_class, time_created: b.time_created }
}

/// The object a JSON description makes: the same fields.
pub open spec fn object_spec(o: ObjectJson) -> Object {
    Object {
        name: o.name,
        bucket: o.bucket,
        size: o.size,
        content_type: o.content_type,
        time_created: o.time_created,
    }
}

impl Bucket {
    /// The bucket a JSON description makes.
    pub fn from_json(b: BucketJson) -> (res: Bucket)
        ensures
            res == bucket_spec(b),
    {
        Bucket { name: b.name, location: b.location, storage_class: b.storage_class, time_created: b.time_created }
    }
}

impl Object {
    /// The object a JSON description makes.
    pub fn from_json(o: ObjectJson) -> (res: Object)
        ensures
            res == object_spec(o),
    {
        Object {
            name: o.name,
            bucket: o.bucket,
            size: o.size,
            content_type: o.content_type,
            time_created: o.time_created,
        }
    }
}

/// The buckets that JSON descriptions make, in order.
pub fn buckets_from_json(items: Vec<BucketJson>) -> (res: Vec<Bucket>)
    ensures
        res@ == items@.map_values(|b: BucketJson| bucket_spec(b)),
{
    let mut out: Vec<Bucket> = Vec::new();
    for b in it: items
        invariant
            out@ == items@.take(it.index() as int).map_values(|b: BucketJson| bucket_spec(b)),
    {
        let ghost before = out@;
        out.push(Bucket::from_json(b));
        proof {
            assert(items@.take(it.index() + 1) =~= items@.take(it.index() as int).push(items@[it.index() as int]));
            assert(out@ =~= items@.take(it.index() + 1).map_values(|b: BucketJson| bucket_spec(b)));
        }
    }
    assert(items@.take(items@.len() as int) =~= items@);
    out
}

/// The objects that JSON descriptions make, in order.
pub fn objects_from_json(items: Vec<ObjectJson>) -> (res: Vec<Object>)
    ensures
        res@ == items@.map_values(|o: ObjectJson| object_spec(o)),
{
    let mut out: Vec<Object> = Vec::new();
    for o in it: items
        invariant
            out@ == items@.take(it.index() as int).map_values(|o: ObjectJson| object_spec(o)),
    {
        out.push(Object::from_json(o));
        proof {
            assert(items@.take(it.index() + 1) =~= items@.take(it.index() as int).push(items@[it.index() as int]));
            assert(out@ =~= items@.take(it.index() + 1).map_values(|o: ObjectJson| object_spec(o)));
        }
    }
    assert(items@.take(items@.len() as int) =~= items@);
    out
}

// ---------------------------------------------------------------------------
// Requests

/// The request listing a project's buckets.
pub fn list_buckets_request(auth: &str, project: &str) -> (res: HttpRequest)
    ensures
        res@ == bodyless_spec(Method::Get, base_url() + "/b?project="@ + project@, auth@),
{
    let mut url = owned("https://storage.googleapis.com/storage/v1");
    push_str(&mut url, "/b?project=");
    push_str(&mut url, project);
    get_request(url, auth)
}

/// The request describing a bucket.
pub fn get_bucket_request(auth: &str, name: &str) -> (res: HttpRequest)
    ensures
        res@ == bodyless_spec(Method::Get, base_url() + "/b/"@ + name@, auth@),
{
    let mut url = owned("https://storage.googleapis.com/storage/v1");
    push_str(&mut url, "/b/");
    push_str(&mut url, name);
    get_request(url, auth)
}

/// The JSON body creating a bucket: `{"name":<name>}`.
pub open spec fn create_bucket_body(name: Seq<char>) -> Seq<char> {
    "{\"name\":"@ + json_quoted(name) + "}"@
}

/// The request creating a bucket in a project.
pub fn create_bucket_request(auth: &str, project: &str, name: &str) -> (res: HttpRequest)
    ensures
        res@ == with_body_spec(Method::Post, base_url() + "/b?project="@ + project@, auth@,
            "application/json"@, BodyView::Text(create_bucket_body(name@))),
{
    let mut body = owned("{\"name\":");
    let q = json_quote(name);
    push_str(&mut body, q.as_str());
    push_str(&mut body, "}");
    let mut url = owned("https://storage.googleapis.com/storage/v1");
    push_str(&mut url, "/b?project=");
    push_str(&mut url, project);
    json_request(Method::Post, url, auth, body)
}

/// The request deleting a bucket.
pub fn delete_bucket_request(auth: &str, name: &str) -> (res: HttpRequest)
    ensures
        res@ == bodyless_spec(Method::Delete, base_url() + "/b/"@ + name@, auth@),
{
    let mut url = owned("https://storage.googleapis.com/storage/v1");
    push_str(&mut url, "/b/");
    push_str(&mut url, name);
    delete_request(url, auth)
}

/// The URL listing a bucket's objects, restricted to a name prefix when one is given.
pub open spec fn list_objects_url(bucket: Seq<char>, prefix: Option<Seq<char>>) -> Seq<char> {
    let base = base_url() + "/b/"@ + bucket + "/o"@;
    match prefix {
        Some(p) => base + "?prefix="@ + p,
        None => base,
    }
}

/// The request listing a bucket's objects.
pub fn list_objects_request(auth: &str, bucket: &str, prefix: Option<&str>) -> (res: HttpRequest)
    ensures
        res@ == bodyless_spec(Method::Get, list_objects_url(bucket@, match prefix {
            Some(p) => Some(p@),
            None => None,
        }), auth@),
{
    let mut url = owned("https://storage.googleapis.com/storage/v1");
    push_str(&mut url, "/b/");
    push_str(&mut url, bucket);
    push_str(&mut url, "/o");
    match prefix {
        Some(p) => {
            push_str(&mut url, "?prefix=");
            push_str(&mut url, p);
        },
        None => {},
    }
    get_request(url, auth)
}

/// The request downloading an object's data.
pub fn get_object_request(auth: &str, bucket: &str, name: &str) -> (res: HttpRequest)
    ensures
        res@ == bodyless_spec(Method::Get, base_url() + "/b/"@ + bucket@ + "/o/"@ + name@ + "?alt=media"@, auth@),
{
    let mut url = owned("https://storage.googleapis.com/storage/v1");
    push_str(&mut url, "/b/");
    push_str(&mut url, bucket);
    push_str(&mut url, "/o/");
    push_str(&mut url, name);
    push_str(&mut url, "?alt=media");
    get_request(url, auth)
}

/// The request uploading data as an object, with the data's content type.
pub fn upload_object_request(auth: &str, bucket: &str, name: &str, data: Vec<u8>, content_type: &str) -> (res: HttpRequest)
    ensures
        res@ == with_body_spec(Method::Post,
            upload_url() + "/b/"@ + bucket@ + "/o?uploadType=media&name="@ + name@, auth@,
            content_type@, BodyView::Bytes(data@)),
{
    let mut url = owned("https://storage.googleapis.com/upload/storage/v1");
    push_str(&mut url, "/b/");
    push_str(&mut url, bucket);
    push_str(&mut url, "/o?uploadType=media&name=");
    push_str(&mut url, name);
    body_request(Method::Post, url, auth, content_type, Body::Bytes(data))
}

/// The request deleting an object.
pub fn delete_object_request(auth: &str, bucket: &str, name: &str) -> (res: HttpRequest)
    ensures
        res@ == bodyless_spec(Method::Delete, base_url() + "/b/"@ + bucket@ + "/o/"@ + name@, auth@),
{
    let mut url = owned("https://storage.googleapis.com/storage/v1");
    push_str(&mut url, "/b/");
    push_str(&mut url, bucket);
    push_str(&mut url, "/o/");
    push_str(&mut url, name);
    delete_request(url, auth)
}

// ---------------------------------------------------------------------------
// Answers

/// The buckets of a parsed listing, or the request failure of a parse error.
pub fn list_buckets_result(r: Result<ListBucketsResponse, String>) -> (res: Result<Vec<Bucket>, ApiError>)
    ensures
        r matches Ok(l) ==> (res matches Ok(v) && v@ == l.items@.map_values(|b: BucketJson| bucket_spec(b))),
        r matches Err(e) ==> (res matches Err(ApiError::RequestFailed(m)) && m@ == json_parse_message(e@)),
{
    let l = parsed(r)?;
    Ok(buckets_from_json(l.items))
}

/// The bucket of a parsed description, or the request failure of a parse error.
pub fn bucket_result(r: Result<BucketJson, String>) -> (res: Result<Bucket, ApiError>)
    ensures
        r matches Ok(b) ==> res == Ok::<Bucket, ApiError>(bucket_spec(b)),
        r matches Err(e) ==> (res matches Err(ApiError::RequestFailed(m)) && m@ == json_parse_message(e@)),
{
    let b = parsed(r)?;
    Ok(Bucket::from_json(b))
}

/// The objects of a parsed listing, or the request failure of a parse error.
pub fn list_objects_result(r: Result<ListObjectsResponse, String>) -> (res: Result<Vec<Object>, ApiError>)
    ensures
        r matches Ok(l) ==> (res matches Ok(v) && v@ == l.items@.map_values(|o: ObjectJson| object_spec(o))),
        r matches Err(e) ==> (res matches Err(ApiError::RequestFailed(m)) && m@ == json_parse_message(e@)),
{
    let l = parsed(r)?;
    Ok(objects_from_json(l.items))
}

/// The object of a parsed description, or the request failure of a parse error.
pub fn object_result(r: Result<ObjectJson, String>) -> (res: Result<Object, ApiError>)
    ensures
        r matches Ok(o) ==> res == Ok::<Object, ApiError>(object_spec(o)),
        r matches Err(e) ==> (res matches Err(ApiError::RequestFailed(m)) && m@ == json_parse_message(e@)),
{
    let o = parsed(r)?;
    Ok(Object::from_json(o))
}

} // verus!
