//! The S3 commands: their arguments, the paths and bodies of the requests
//! they send, and the lines they print.

use vstd::prelude::*;
use vstd::string::*;
use vstd::utf8::encode_utf8;
use crate::text::{decimal, decimal_string, index_of, lemma_index_of, lemma_index_of_unique};

verus! {

/// An S3 subcommand with its arguments.
#[derive(Debug, PartialEq, Eq)]
#[allow(inconsistent_fields)]
pub enum S3Command {
    /// Create a bucket, in `region` (`us-east-1` by default).
    Mb { bucket: String, region: String },
    /// Remove a bucket; with `force`, remove its objects first.
    Rb { bucket: String, force: bool },
    /// List the buckets, or the objects of `bucket[/prefix]`.
    Ls { path: Option<String> },
    /// Copy a local file to `bucket/key`, or `bucket/key` to a local file.
    Cp { source: String, dest: String },
    /// Remove the object `bucket/key`; with `recursive`, every object of
    /// the bucket.
    Rm { path: String, recursive: bool },
}

/// One bucket of a bucket listing.
#[derive(Debug, PartialEq, Eq)]
pub struct BucketInfo {
    pub name: String,
    pub creation_date: String,
}

/// One object of an object listing.
#[derive(Debug, PartialEq, Eq)]
pub struct ObjectInfo {
    pub key: String,
    pub size: u64,
    pub last_modified: String,
}

/// The region in which a bucket is created when none is named; a bucket of
/// this region is created with an empty request body.
pub const DEFAULT_REGION: &'static str = "us-east-1";

// ---------------------------------------------------------------------------
// Paths `bucket/key`

/// `bucket/key` split at its first `/`; a path without `/` is a bucket with
/// an empty key.
pub open spec fn spec_split_path(path: Seq<char>) -> (Seq<char>, Seq<char>) {
    let i = index_of(path, '/');
    if i < path.len() {
        (path.subrange(0, i), path.subrange(i + 1, path.len() as int))
    } else {
        (path, Seq::<char>::empty())
    }
}

/// Splits `bucket/key` at its first `/` into the bucket and the key; a path
/// without `/` is a bucket with an empty key.
pub fn split_path(path: &str) -> (parts: (&str, &str))
    ensures
        parts.0@ == spec_split_path(path@).0,
        parts.1@ == spec_split_path(path@).1,
{
    let n = path.unicode_len();
    let mut i: usize = 0;
    while i < n
        invariant
            n == path@.len(),
            i <= n,
            forall|j: int| 0 <= j < i ==> path@[j] != '/',
        decreases n - i,
    {
        if path.get_char(i) == '/' {
            proof { lemma_index_of_unique(path@, '/', i as int); }
            return (path.substring_char(0, i), path.substring_char(i + 1, n));
        }
        i = i + 1;
    }
    proof { lemma_index_of_unique(path@, '/', n as int); }
    let empty = path.substring_char(n, n);
    assert(empty@ =~= Seq::<char>::empty());
    (path, empty)
}

/// Splitting then joining gives the path back: for a path with a `/`, the
/// bucket has no `/` and `bucket + "/" + key` is the path; a path without
/// `/` is all bucket.
pub proof fn law_split_path_joins(path: Seq<char>)
    ensures
        path.contains('/') ==> {
            let (bucket, key) = spec_split_path(path);
            &&& !bucket.contains('/')
            &&& bucket + seq!['/'] + key == path
        },
        !path.contains('/') ==> spec_split_path(path) == (path, Seq::<char>::empty()),
{
    lemma_index_of(path, '/');
    if path.contains('/') {
        let i = index_of(path, '/');
        let (bucket, key) = spec_split_path(path);
        assert(bucket + seq!['/'] + key =~= path);
        if bucket.contains('/') {
            let k = choose|k: int| 0 <= k < bucket.len() && bucket[k] == '/';
            assert(path[k] == '/');
        }
    }
}

// ---------------------------------------------------------------------------
// Request paths

/// The request path of a bucket: `/bucket`.
pub open spec fn spec_bucket_path(bucket: Seq<char>) -> Seq<char> {
    "/"@ + bucket
}

/// The request path of an object: `/bucket/key`.
pub open spec fn spec_object_path(bucket: Seq<char>, key: Seq<char>) -> Seq<char> {
    "/"@ + bucket + "/"@ + key
}

/// The request path that lists the objects of a bucket (version 2 of the
/// listing), restricted to the keys that start with `prefix` when it is not
/// empty.
pub open spec fn spec_list_objects_path(bucket: Seq<char>, prefix: Seq<char>) -> Seq<char> {
    if prefix.len() == 0 {
        "/"@ + bucket + "?list-type=2"@
    } else {
        "/"@ + bucket + "?list-type=2&prefix="@ + prefix
    }
}

/// The request path that lists every bucket: `/`.
pub open spec fn spec_list_buckets_path() -> Seq<char> {
    "/"@
}

/// `/bucket`.
pub fn bucket_path(bucket: &str) -> (p: String)
    ensures
        p@ == spec_bucket_path(bucket@),
{
    let mut p = String::from_str("/");
    p.append(bucket);
    p
}

/// `/bucket/key`.
pub fn object_path(bucket: &str, key: &str) -> (p: String)
    ensures
        p@ == spec_object_path(bucket@, key@),
{
    let mut p = String::from_str("/");
    p.append(bucket);
    p.append("/");
    p.append(key);
    p
}

/// `/bucket?list-type=2`, followed by `&prefix=<prefix>` when the prefix is
/// not empty.
pub fn list_objects_path(bucket: &str, prefix: &str) -> (p: String)
    ensures
        p@ == spec_list_objects_path(bucket@, prefix@),
{
    let mut p = String::from_str("/");
    p.append(bucket);
    if prefix.is_empty() {
        p.append("?list-type=2");
    } else {
        p.append("?list-type=2&prefix=");
        p.append(prefix);
    }
    p
}

/// `/`.
pub fn list_buckets_path() -> (p: String)
    ensures
        p@ == spec_list_buckets_path(),
{
    String::from_str("/")
}

// ---------------------------------------------------------------------------
// Printed lines

/// `Bucket created: <bucket>`.
pub open spec fn spec_created_message(bucket: Seq<char>) -> Seq<char> {
    "Bucket created: "@ + bucket
}

/// `Bucket removed: <bucket>`.
pub open spec fn spec_removed_message(bucket: Seq<char>) -> Seq<char> {
    "Bucket removed: "@ + bucket
}

/// `Uploaded: <local> -> <bucket>/<key>`.
pub open spec fn spec_uploaded_message(local: Seq<char>, bucket: Seq<char>, key: Seq<char>) -> Seq<char> {
    "Uploaded: "@ + local + " -> "@ + bucket + "/"@ + key
}

/// `Downloaded: <bucket>/<key> -> <local>`.
pub open spec fn spec_downloaded_message(bucket: Seq<char>, key: Seq<char>, local: Seq<char>) -> Seq<char> {
    "Downloaded: "@ + bucket + "/"@ + key + " -> "@ + local
}

/// `Deleted: <bucket>/<key>`.
pub open spec fn spec_deleted_message(bucket: Seq<char>, key: Seq<char>) -> Seq<char> {
    "Deleted: "@ + bucket + "/"@ + key
}

/// A bucket of a listing, as printed: creation date, tab, name.
pub open spec fn spec_bucket_line(info: BucketInfo) -> Seq<char> {
    info.creation_date@ + "\t"@ + info.name@
}

/// An object of a listing, as printed: last modification, tab, size in
/// decimal, tab, key.
pub open spec fn spec_object_line(info: ObjectInfo) -> Seq<char> {
    info.last_modified@ + "\t"@ + decimal(info.size as nat) + "\t"@ + info.key@
}

/// `Bucket created: <bucket>`.
pub fn created_message(bucket: &str) -> (m: String)
    ensures
        m@ == spec_created_message(bucket@),
{
    let mut m = String::from_str("Bucket created: ");
    m.append(bucket);
    m
}

/// `Bucket removed: <bucket>`.
pub fn removed_message(bucket: &str) -> (m: String)
    ensures
        m@ == spec_removed_message(bucket@),
{
    let mut m = String::from_str("Bucket removed: ");
    m.append(bucket);
    m
}

/// `Uploaded: <local> -> <bucket>/<key>`.
pub fn uploaded_message(local: &str, bucket: &str, key: &str) -> (m: String)
    ensures
        m@ == spec_uploaded_message(local@, bucket@, key@),
{
    let mut m = String::from_str("Uploaded: ");
    m.append(local);
    m.append(" -> ");
    m.append(bucket);
    m.append("/");
    m.append(key);
    m
}

/// `Downloaded: <bucket>/<key> -> <local>`.
pub fn downloaded_message(bucket: &str, key: &str, local: &str) -> (m: String)
    ensures
        m@ == spec_downloaded_message(bucket@, key@, local@),
{
    let mut m = String::from_str("Downloaded: ");
    m.append(bucket);
    m.append("/");
    m.append(key);
    m.append(" -> ");
    m.append(local);
    m
}

/// `Deleted: <bucket>/<key>`.
pub fn deleted_message(bucket: &str, key: &str) -> (m: String)
    ensures
        m@ == spec_deleted_message(bucket@, key@),
{
    let mut m = String::from_str("Deleted: ");
    m.append(bucket);
    m.append("/");
    m.append(key);
    m
}

/// The printed line of a bucket: `<creation date>\t<name>`.
pub fn bucket_line(info: &BucketInfo) -> (l: String)
    ensures
        l@ == spec_bucket_line(*info),
{
    let mut l = info.creation_date.clone();
    l.append("\t");
    l.append(info.name.as_str());
    l
}

/// The printed line of an object: `<last modified>\t<size>\t<key>`.
pub fn object_line(info: &ObjectInfo) -> (l: String)
    ensures
        l@ == spec_object_line(*info),
{
    let mut l = info.last_modified.clone();
    l.append("\t");
    let size = decimal_string(info.size);
    l.append(size.as_str());
    l.append("\t");
    l.append(info.key.as_str());
    l
}

/// The keys of the listed objects, in the order of the listing.
pub fn object_keys(objects: &Vec<ObjectInfo>) -> (keys: Vec<String>)
    ensures
        keys@.len() == objects@.len(),
        forall|i: int| 0 <= i < keys@.len() ==> (#[trigger] keys@[i])@ == objects@[i].key@,
{
    let mut keys: Vec<String> = Vec::new();
    let n = objects.len();
    for i in 0..n
        invariant
            n == objects@.len(),
            keys@.len() == i,
            forall|j: int| 0 <= j < i ==> (#[trigger] keys@[j])@ == objects@[j].key@,
    {
        keys.push(objects[i].key.clone());
    }
    keys
}

// ---------------------------------------------------------------------------
// The body of a bucket creation

/// A character of XML text content, escaped as `quick_xml` escapes the text
/// of an element: `<`, `>` and `&` become entities.
pub open spec fn xml_text_escape_char(c: char) -> Seq<char> {
    if c == '<' {
        seq!['&', 'l', 't', ';']
    } else if c == '>' {
        seq!['&', 'g', 't', ';']
    } else if c == '&' {
        seq!['&', 'a', 'm', 'p', ';']
    } else {
        seq![c]
    }
}

/// XML text content escaped character by character.
pub open spec fn xml_text_escape(s: Seq<char>) -> Seq<char>
    decreases s.len(),
{
    if s.len() == 0 {
        Seq::<char>::empty()
    } else {
        xml_text_escape_char(s[0]) + xml_text_escape(s.drop_first())
    }
}

/// `quick_xml::escape::partial_escape`: replaces `<`, `>` and `&` by `&lt;`,
/// `&gt;` and `&amp;` and keeps every other character, which is the escaping
/// that `quick_xml`'s serializer applies to the text of an element.
#[verifier::external_body]
fn escape_text(raw: &str) -> (escaped: String)
    ensures
        escaped@ == xml_text_escape(raw@),
{
    quick_xml::escape::partial_escape(raw).into_owned()
}

/// The `CreateBucketConfiguration` document that names `region`, as
/// `quick_xml` serializes it: no declaration, no indentation, and an empty
/// region written as a self-closed element.
pub open spec fn spec_create_bucket_xml(region: Seq<char>) -> Seq<char> {
    "<CreateBucketConfiguration>"@ + (if region.len() == 0 {
        "<LocationConstraint/>"@
    } else {
        "<LocationConstraint>"@ + xml_text_escape(region) + "</LocationConstraint>"@
    }) + "</CreateBucketConfiguration>"@
}

/// The body of the request that creates a bucket in `region`: empty for the
/// default region, otherwise the UTF-8 bytes of the configuration document.
pub open spec fn spec_create_bucket_body(region: Seq<char>) -> Seq<u8> {
    if region == DEFAULT_REGION@ {
        Seq::<u8>::empty()
    } else {
        encode_utf8(spec_create_bucket_xml(region))
    }
}

/// The `CreateBucketConfiguration` document that names `region`.
pub fn create_bucket_xml(region: &str) -> (xml: String)
    ensures
        xml@ == spec_create_bucket_xml(region@),
{
    let mut xml = String::from_str("<CreateBucketConfiguration>");
    if region.is_empty() {
        xml.append("<LocationConstraint/>");
    } else {
        xml.append("<LocationConstraint>");
        let escaped = escape_text(region);
        xml.append(escaped.as_str());
        xml.append("</LocationConstraint>");
    }
    xml.append("</CreateBucketConfiguration>");
    xml
}

/// The body of the request that creates a bucket in `region`.
pub fn create_bucket_body(region: &str) -> (body: Vec<u8>)
    ensures
        body@ == spec_create_bucket_body(region@),
{
    if String::from_str(region) == String::from_str(DEFAULT_REGION) {
        Vec::new()
    } else {
        let xml = create_bucket_xml(region);
        xml.as_str().as_bytes_vec()
    }
}

} // verus!
