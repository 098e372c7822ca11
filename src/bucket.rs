use crate::encode::{encode_segment, percent_encoded};
use vstd::prelude::*;
use vstd::string::*;

verus! {

/// Base of the JSON API.
pub open spec fn api_base() -> Seq<char> {
    "https://www.googleapis.com/storage/v1"@
}

/// Base of the media upload API.
pub open spec fn upload_base() -> Seq<char> {
    "https://www.googleapis.com/upload/storage/v1"@
}

pub(crate) fn api_base_str() -> (r: &'static str)
    ensures
        r@ == api_base(),
{
    "https://www.googleapis.com/storage/v1"
}

fn upload_base_str() -> (r: &'static str)
    ensures
        r@ == upload_base(),
{
    "https://www.googleapis.com/upload/storage/v1"
}

/// The HTTP method of a request.
#[derive(Clone, Copy, Debug, PartialEq, Eq)]
pub enum Method {
    Get,
    Post,
    Delete,
}

/// A request to send to the service: method, address and query parameters.
/// The authorization header, and for uploads the body, are added by whoever
/// sends it.
#[derive(Clone, Debug)]
pub struct Request {
    pub method: Method,
    pub url: String,
    pub query: Vec<(String, String)>,
}

/// The query parameters as pairs of character sequences.
pub open spec fn query_view(q: Seq<(String, String)>) -> Seq<(Seq<char>, Seq<char>)> {
    q.map_values(|p: (String, String)| (p.0@, p.1@))
}

/// `{base}/b/{bucket}` with the bucket name percent-encoded.
pub open spec fn bucket_url(base: Seq<char>, bucket: Seq<char>) -> Seq<char> {
    base + "/b/"@ + percent_encoded(bucket)
}

/// `{base}/b/{bucket}/o`: the bucket's object collection.
pub open spec fn objects_url(base: Seq<char>, bucket: Seq<char>) -> Seq<char> {
    bucket_url(base, bucket) + "/o"@
}

/// `{base}/b/{bucket}/o/{object}` with both names percent-encoded.
pub open spec fn object_url(base: Seq<char>, bucket: Seq<char>, object: Seq<char>) -> Seq<char> {
    objects_url(base, bucket) + "/"@ + percent_encoded(object)
}

fn bucket_url_of(base: &str, bucket: &str) -> (r: String)
    ensures
        r@ == bucket_url(base@, bucket@),
{
    let encoded = encode_segment(bucket);
    String::from_str(base).concat("/b/").concat(encoded.as_str())
}

pub(crate) fn objects_url_of(base: &str, bucket: &str) -> (r: String)
    ensures
        r@ == objects_url(base@, bucket@),
{
    bucket_url_of(base, bucket).concat("/o")
}

/// A stored object: the bucket it lives in and its name.
#[derive(Clone, Debug, PartialEq, Eq)]
pub struct Object {
    pub bucket: String,
    pub name: String,
}

/// A Cloud Storage bucket.
#[derive(Clone, Debug)]
pub struct Bucket {
    pub(crate) name: String,
}

impl Bucket {
    pub closed spec fn spec_name(&self) -> Seq<char> {
        self.name@
    }

    pub fn new(name: String) -> (r: Bucket)
        ensures
            r.spec_name() == name@,
    {
        Bucket { name }
    }

    /// Get the bucket's name.
    pub fn name(&self) -> (r: &str)
        ensures
            r@ == self.spec_name(),
    {
        self.name.as_str()
    }

    /// The upload of a new object named `name`: a `POST` to the media
    /// upload endpoint of the bucket.
    pub fn create_object_request(&self, name: &str) -> (r: Request)
        ensures
            r.method == Method::Post,
            r.url@ == objects_url(upload_base(), self.spec_name()),
            query_view(r.query@) =~= seq![("uploadType"@, "media"@), ("name"@, name@)],
    {
        let url = objects_url_of(upload_base_str(), self.name.as_str());
        let query = vec![
            (String::from_str("uploadType"), String::from_str("media")),
            (String::from_str("name"), String::from_str(name)),
        ];
        Request { method: Method::Post, url, query }
    }

    /// The retrieval of the object named `name`: a `GET` of its resource.
    pub fn object_request(&self, name: &str) -> (r: Request)
        ensures
            r.method == Method::Get,
            r.url@ == object_url(api_base(), self.spec_name(), name@),
            r.query@.len() == 0,
    {
        let encoded = encode_segment(name);
        let url = objects_url_of(api_base_str(), self.name.as_str()).concat("/").concat(
            encoded.as_str(),
        );
        Request { method: Method::Get, url, query: Vec::new() }
    }

    /// The deletion of the bucket itself: a `DELETE` of its resource.
    pub fn delete_request(&self) -> (r: Request)
        ensures
            r.method == Method::Delete,
            r.url@ == bucket_url(api_base(), self.spec_name()),
            r.query@.len() == 0,
    {
        let url = bucket_url_of(api_base_str(), self.name.as_str());
        Request { method: Method::Delete, url, query: Vec::new() }
    }

    /// The object named `name` in this bucket, as the service reported it.
    pub fn object_named(&self, name: String) -> (r: Object)
        ensures
            r.bucket@ == self.spec_name(),
            r.name@ == name@,
    {
        Object { bucket: self.name.clone(), name }
    }
}

} // verus!
