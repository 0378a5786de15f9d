//! What the commands do from start to end, stated over whole traces: the
//! actions each command performs for given outcomes of the actions it waits
//! on.

use vstd::prelude::*;
use vstd::string::*;
use vstd::utf8::{decode_utf8, encode_utf8_decode_utf8};
use crate::s3::{
    law_split_path_joins, spec_bucket_line, spec_object_path, spec_create_bucket_xml, spec_object_line,
    spec_split_path, xml_text_escape, BucketInfo, ObjectInfo, S3Command, DEFAULT_REGION,
};
use crate::session::{
    spec_delete_and_report_each, spec_delete_each, spec_resume, spec_start_s3, spec_trace,
    ActionView, EventView, ResumeView, StageView,
};
use crate::status::spec_start_status;
use crate::runner::{
    completions, lemma_drive_fails_after, spec_begin, spec_drive, spec_next, spec_run,
    OutcomeView, RunnerView, StepView,
};
use crate::s3::{spec_create_bucket_body, spec_list_objects_path};
use crate::client::spec_is_success;
use crate::error::Error;
use crate::text::{
    all_digits, decimal, digits_value, lemma_trim_end_char, law_decimal_roundtrip, trim_end_char,
};
use crate::s3::{
    spec_bucket_path, spec_created_message, spec_deleted_message, spec_downloaded_message,
    spec_list_buckets_path, spec_removed_message, spec_uploaded_message,
};

verus! {

/// `awr s3 mb <bucket>` in the default region puts an empty body at
/// `/<bucket>` and prints `Bucket created: <bucket>`.
pub proof fn law_mb_default_region(bucket: String, region: String)
    requires
        region@ == DEFAULT_REGION@,
    ensures
        spec_trace(spec_start_s3(S3Command::Mb { bucket, region }), Seq::empty()) == seq![
            ActionView::Put("/"@ + bucket@, Seq::<u8>::empty()),
            ActionView::Print("Bucket created: "@ + bucket@),
        ],
{
}

/// `awr s3 mb <bucket> --region <region>` with any other region puts at
/// `/<bucket>` a body that is the UTF-8 text of a `CreateBucketConfiguration`
/// document naming the region (escaped as XML text), and prints
/// `Bucket created: <bucket>`.
pub proof fn law_mb_other_region(bucket: String, region: String)
    requires
        region@ != DEFAULT_REGION@,
        region@.len() > 0,
    ensures
        ({
            let trace = spec_trace(spec_start_s3(S3Command::Mb { bucket, region }), Seq::empty());
            &&& trace.len() == 2
            &&& trace[0] matches ActionView::Put(path, body) && {
                &&& path == "/"@ + bucket@
                &&& body.len() > 0
                &&& decode_utf8(body) == "<CreateBucketConfiguration><LocationConstraint>"@
                    + xml_text_escape(region@) + "</LocationConstraint></CreateBucketConfiguration>"@
            }
            &&& trace[1] == ActionView::Print("Bucket created: "@ + bucket@)
        }),
{
    let xml = spec_create_bucket_xml(region@);
    encode_utf8_decode_utf8(xml);
    reveal_strlit("<CreateBucketConfiguration>");
    reveal_strlit("<LocationConstraint>");
    reveal_strlit("</LocationConstraint>");
    reveal_strlit("</CreateBucketConfiguration>");
    reveal_strlit("<CreateBucketConfiguration><LocationConstraint>");
    reveal_strlit("</LocationConstraint></CreateBucketConfiguration>");
    assert(xml =~= "<CreateBucketConfiguration><LocationConstraint>"@ + xml_text_escape(region@)
        + "</LocationConstraint></CreateBucketConfiguration>"@);
    assert(xml.len() > 0);
}

/// `awr s3 rb <bucket>` deletes `/<bucket>` and prints
/// `Bucket removed: <bucket>`.
pub proof fn law_rb(bucket: String)
    ensures
        spec_trace(spec_start_s3(S3Command::Rb { bucket, force: false }), Seq::empty()) == seq![
            ActionView::Delete("/"@ + bucket@),
            ActionView::Print("Bucket removed: "@ + bucket@),
        ],
{
}

/// `awr s3 rb <bucket> --force` lists the objects of the bucket, deletes
/// every listed object in the order of the listing, and only then deletes
/// the bucket and prints `Bucket removed: <bucket>`.
pub proof fn law_rb_force(bucket: String, objects: Seq<ObjectInfo>)
    ensures
        spec_trace(
            spec_start_s3(S3Command::Rb { bucket, force: true }),
            seq![EventView::Objects(objects)],
        ) == seq![ActionView::ListObjects("/"@ + bucket@ + "?list-type=2"@)]
            + spec_delete_each(bucket@, objects) + seq![
            ActionView::Delete("/"@ + bucket@),
            ActionView::Print("Bucket removed: "@ + bucket@),
        ],
{
    let events = seq![EventView::Objects(objects)];
    assert(events.drop_first() =~= Seq::<EventView>::empty());
    assert(events[0] == EventView::Objects(objects));
    let start = spec_start_s3(S3Command::Rb { bucket, force: true });
    let first = ActionView::ListObjects("/"@ + bucket@ + "?list-type=2"@);
    let k = ResumeView::EmptyThenRemove { bucket: bucket@ };
    assert(start == StageView::Await(first, k));
    let next = spec_resume(k, events[0]);
    assert(spec_trace(start, events) == seq![first] + spec_trace(next, events.drop_first()));
    assert(spec_trace(next, events.drop_first()) == spec_delete_each(bucket@, objects) + seq![
            ActionView::Delete("/"@ + bucket@),
            ActionView::Print("Bucket removed: "@ + bucket@),
        ]);
}

/// `awr s3 ls` fetches `/` and prints one line per listed bucket, in the
/// order of the listing.
pub proof fn law_ls_buckets(buckets: Seq<BucketInfo>)
    ensures
        spec_trace(
            spec_start_s3(S3Command::Ls { path: None }),
            seq![EventView::Buckets(buckets)],
        ) == seq![ActionView::ListBuckets("/"@)] + Seq::new(
            buckets.len(),
            |i: int| ActionView::Print(spec_bucket_line(buckets[i])),
        ),
{
    let events = seq![EventView::Buckets(buckets)];
    assert(events.drop_first() =~= Seq::<EventView>::empty());
    assert(events[0] == EventView::Buckets(buckets));
    let start = spec_start_s3(S3Command::Ls { path: None });
    let first = ActionView::ListBuckets("/"@);
    let k = ResumeView::PrintBuckets;
    assert(start == StageView::Await(first, k));
    let next = spec_resume(k, events[0]);
    assert(spec_trace(start, events) == seq![first] + spec_trace(next, events.drop_first()));
}

/// `awr s3 ls <bucket>/<prefix>` lists the objects of the bucket whose keys
/// start with the prefix, and prints one line per listed object, in the
/// order of the listing.
pub proof fn law_ls_objects_with_prefix(path: String, objects: Seq<ObjectInfo>)
    requires
        path@.contains('/'),
        spec_split_path(path@).1.len() > 0,
    ensures
        ({
            let (bucket, prefix) = spec_split_path(path@);
            spec_trace(
                spec_start_s3(S3Command::Ls { path: Some(path) }),
                seq![EventView::Objects(objects)],
            ) == seq![
                ActionView::ListObjects("/"@ + bucket + "?list-type=2&prefix="@ + prefix),
            ] + Seq::new(objects.len(), |i: int| ActionView::Print(spec_object_line(objects[i])))
        }),
{
    let (bucket, prefix) = spec_split_path(path@);
    let events = seq![EventView::Objects(objects)];
    assert(events.drop_first() =~= Seq::<EventView>::empty());
    assert(events[0] == EventView::Objects(objects));
    let start = spec_start_s3(S3Command::Ls { path: Some(path) });
    let first = ActionView::ListObjects("/"@ + bucket + "?list-type=2&prefix="@ + prefix);
    let k = ResumeView::PrintObjects;
    assert(start == StageView::Await(first, k));
    let next = spec_resume(k, events[0]);
    assert(spec_trace(start, events) == seq![first] + spec_trace(next, events.drop_first()));
}

/// `awr s3 ls <bucket>` with no `/` lists every object of the bucket.
pub proof fn law_ls_objects_of_bucket(bucket: String, objects: Seq<ObjectInfo>)
    requires
        !bucket@.contains('/'),
    ensures
        spec_trace(
            spec_start_s3(S3Command::Ls { path: Some(bucket) }),
            seq![EventView::Objects(objects)],
        ) == seq![ActionView::ListObjects("/"@ + bucket@ + "?list-type=2"@)] + Seq::new(
            objects.len(),
            |i: int| ActionView::Print(spec_object_line(objects[i])),
        ),
{
    law_split_path_joins(bucket@);
    let events = seq![EventView::Objects(objects)];
    assert(events.drop_first() =~= Seq::<EventView>::empty());
    assert(events[0] == EventView::Objects(objects));
    let start = spec_start_s3(S3Command::Ls { path: Some(bucket) });
    let first = ActionView::ListObjects("/"@ + bucket@ + "?list-type=2"@);
    let k = ResumeView::PrintObjects;
    assert(start == StageView::Await(first, k));
    let next = spec_resume(k, events[0]);
    assert(spec_trace(start, events) == seq![first] + spec_trace(next, events.drop_first()));
}

/// `awr s3 cp <local> <bucket>/<key>` where the local file exists reads the
/// file and puts exactly its bytes at `/<bucket>/<key>`, then prints
/// `Uploaded: <local> -> <bucket>/<key>`.
pub proof fn law_cp_upload(source: String, dest: String, data: Seq<u8>)
    requires
        dest@.contains('/'),
    ensures
        spec_trace(
            spec_start_s3(S3Command::Cp { source, dest }),
            seq![EventView::Exists(true), EventView::Bytes(data)],
        ) == seq![
            ActionView::LocalExists(source@),
            ActionView::ReadLocal(source@),
            ActionView::Put("/"@ + dest@, data),
            ActionView::Print("Uploaded: "@ + source@ + " -> "@ + dest@),
        ],
{
    law_split_path_joins(dest@);
    reveal_strlit("/");
    let (bucket, key) = spec_split_path(dest@);
    let events = seq![EventView::Exists(true), EventView::Bytes(data)];
    assert(events.drop_first() =~= seq![EventView::Bytes(data)]);
    assert(events.drop_first().drop_first() =~= Seq::<EventView>::empty());
    assert(events[0] == EventView::Exists(true));
    assert(events.drop_first()[0] == EventView::Bytes(data));
    let start = spec_start_s3(S3Command::Cp { source, dest });
    let first = ActionView::LocalExists(source@);
    let k = ResumeView::ChooseDirection { source: source@, dest: dest@ };
    assert(start == StageView::Await(first, k));
    let second = ActionView::ReadLocal(source@);
    let k2 = ResumeView::Upload { local: source@, bucket, key };
    assert(spec_resume(k, events[0]) == StageView::Await(second, k2));
    let last = spec_resume(k2, events.drop_first()[0]);
    assert(spec_trace(start, events) == seq![first] + spec_trace(spec_resume(k, events[0]), events.drop_first()));
    assert(spec_trace(spec_resume(k, events[0]), events.drop_first()) == seq![second] + spec_trace(last, events.drop_first().drop_first()));
    assert("/"@ + bucket + "/"@ + key =~= "/"@ + dest@);
    assert("Uploaded: "@ + source@ + " -> "@ + bucket + "/"@ + key =~= "Uploaded: "@ + source@ + " -> "@ + dest@);
    assert(seq![ActionView::LocalExists(source@)] + (seq![ActionView::ReadLocal(source@)] + seq![
        ActionView::Put("/"@ + dest@, data),
        ActionView::Print("Uploaded: "@ + source@ + " -> "@ + dest@),
    ]) =~= seq![
        ActionView::LocalExists(source@),
        ActionView::ReadLocal(source@),
        ActionView::Put("/"@ + dest@, data),
        ActionView::Print("Uploaded: "@ + source@ + " -> "@ + dest@),
    ]);
}

/// `awr s3 cp <bucket>/<key> <local>` where no local file `<bucket>/<key>`
/// exists fetches `/<bucket>/<key>`, writes exactly the fetched bytes to the
/// local file, then prints `Downloaded: <bucket>/<key> -> <local>`.
pub proof fn law_cp_download(source: String, dest: String, data: Seq<u8>)
    requires
        source@.contains('/'),
    ensures
        spec_trace(
            spec_start_s3(S3Command::Cp { source, dest }),
            seq![EventView::Exists(false), EventView::Bytes(data)],
        ) == seq![
            ActionView::LocalExists(source@),
            ActionView::GetBytes("/"@ + source@),
            ActionView::WriteLocal(dest@, data),
            ActionView::Print("Downloaded: "@ + source@ + " -> "@ + dest@),
        ],
{
    law_split_path_joins(source@);
    reveal_strlit("/");
    let (bucket, key) = spec_split_path(source@);
    let events = seq![EventView::Exists(false), EventView::Bytes(data)];
    assert(events.drop_first() =~= seq![EventView::Bytes(data)]);
    assert(events.drop_first().drop_first() =~= Seq::<EventView>::empty());
    assert(events[0] == EventView::Exists(false));
    assert(events.drop_first()[0] == EventView::Bytes(data));
    let start = spec_start_s3(S3Command::Cp { source, dest });
    let first = ActionView::LocalExists(source@);
    let k = ResumeView::ChooseDirection { source: source@, dest: dest@ };
    assert(start == StageView::Await(first, k));
    let second = ActionView::GetBytes(spec_object_path(bucket, key));
    let k2 = ResumeView::Download { bucket, key, local: dest@ };
    assert(spec_resume(k, events[0]) == StageView::Await(second, k2));
    let last = spec_resume(k2, events.drop_first()[0]);
    assert(spec_trace(start, events) == seq![first] + spec_trace(spec_resume(k, events[0]), events.drop_first()));
    assert(spec_trace(spec_resume(k, events[0]), events.drop_first()) == seq![second] + spec_trace(last, events.drop_first().drop_first()));
    assert("/"@ + bucket + "/"@ + key =~= "/"@ + source@);
    assert("Downloaded: "@ + bucket + "/"@ + key + " -> "@ + dest@ =~= "Downloaded: "@ + source@ + " -> "@ + dest@);
    assert(seq![ActionView::LocalExists(source@)] + (seq![ActionView::GetBytes("/"@ + source@)] + seq![
        ActionView::WriteLocal(dest@, data),
        ActionView::Print("Downloaded: "@ + source@ + " -> "@ + dest@),
    ]) =~= seq![
        ActionView::LocalExists(source@),
        ActionView::GetBytes("/"@ + source@),
        ActionView::WriteLocal(dest@, data),
        ActionView::Print("Downloaded: "@ + source@ + " -> "@ + dest@),
    ]);
}

/// `awr s3 rm <bucket>/<key>` deletes `/<bucket>/<key>` and prints
/// `Deleted: <bucket>/<key>`: the path named is the path deleted.
pub proof fn law_rm(path: String)
    requires
        path@.contains('/'),
    ensures
        spec_trace(spec_start_s3(S3Command::Rm { path, recursive: false }), Seq::empty()) == seq![
            ActionView::Delete("/"@ + path@),
            ActionView::Print("Deleted: "@ + path@),
        ],
{
    law_split_path_joins(path@);
    reveal_strlit("/");
    let (bucket, key) = spec_split_path(path@);
    assert("/"@ + bucket + "/"@ + key =~= "/"@ + path@);
    assert("Deleted: "@ + bucket + "/"@ + key =~= "Deleted: "@ + path@);
}

/// `awr s3 rm <bucket>[/<anything>] --recursive` lists every object of the
/// bucket (whatever follows the bucket is not used) and deletes each listed
/// object, each deletion followed by its `Deleted: <bucket>/<key>` line.
pub proof fn law_rm_recursive(path: String, objects: Seq<ObjectInfo>)
    ensures
        ({
            let bucket = spec_split_path(path@).0;
            spec_trace(
                spec_start_s3(S3Command::Rm { path, recursive: true }),
                seq![EventView::Objects(objects)],
            ) == seq![ActionView::ListObjects("/"@ + bucket + "?list-type=2"@)]
                + spec_delete_and_report_each(bucket, objects)
        }),
{
    let bucket = spec_split_path(path@).0;
    let events = seq![EventView::Objects(objects)];
    assert(events.drop_first() =~= Seq::<EventView>::empty());
    assert(events[0] == EventView::Objects(objects));
    let start = spec_start_s3(S3Command::Rm { path, recursive: true });
    let first = ActionView::ListObjects("/"@ + bucket + "?list-type=2"@);
    let k = ResumeView::RemoveEach { bucket };
    assert(start == StageView::Await(first, k));
    let next = spec_resume(k, events[0]);
    assert(spec_trace(start, events) == seq![first] + spec_trace(next, events.drop_first()));
}

/// `awr status` fetches `/health` and prints the text of the answer.
pub proof fn law_status(text: Seq<char>)
    ensures
        spec_trace(spec_start_status(), seq![EventView::Text(text)]) == seq![
            ActionView::GetText("/health"@),
            ActionView::Print(text),
        ],
{
    let events = seq![EventView::Text(text)];
    assert(events.drop_first() =~= Seq::<EventView>::empty());
    assert(events[0] == EventView::Text(text));
    let start = spec_start_status();
    let first = ActionView::GetText("/health"@);
    let k = ResumeView::PrintText;
    let next = spec_resume(k, events[0]);
    assert(spec_trace(start, events) == seq![first] + spec_trace(next, events.drop_first()));
    assert(seq![first] + seq![ActionView::Print(text)] =~= seq![first, ActionView::Print(text)]);
}

/// An answer whose status lies outside 200-299 is refused, and the line
/// printed for the refusal starts with the status in decimal, followed by
/// `: ` and the body of the answer.
pub proof fn law_refusal_message(status: u16, body: String)
    requires
        !spec_is_success(status),
    ensures
        Error::Api(status, body).spec_message() == decimal(status as nat) + ": "@ + body@,
        all_digits(decimal(status as nat)),
        digits_value(decimal(status as nat)) == status,
{
    law_decimal_roundtrip(status as nat);
}

// ---------------------------------------------------------------------------
// Failures: a command stops at its first failing action, with its error.

/// A command whose first action fails performs only that action and ends
/// with the failure.
pub proof fn lemma_first_action_fails(stage: StageView, e: Error)
    requires
        spec_begin(stage).1 is Perform,
    ensures
        spec_run(stage, seq![OutcomeView::Failed(e)]) == (
            seq![spec_begin(stage).1->Perform_0],
            Some(Err::<(), Error>(e)),
        ),
{
    let (r, s) = spec_begin(stage);
    let outcomes = seq![OutcomeView::Failed(e)];
    assert(outcomes[0] == OutcomeView::Failed(e));
    let (r2, s2) = spec_next(r, outcomes[0]);
    assert(s2 == StepView::Finish(Err::<(), Error>(e)));
    assert(spec_drive(r2, s2, outcomes.drop_first()) == (Seq::<ActionView>::empty(), Some(Err::<(), Error>(e))));
    assert(seq![s->Perform_0] + Seq::<ActionView>::empty() =~= seq![s->Perform_0]);
}

/// A command that waits on its first action, gets `event` from it, and
/// then fails on the first action of what follows, performs exactly those
/// two actions and ends with the failure.
pub proof fn lemma_second_action_fails(a: ActionView, k: ResumeView, event: EventView, e: Error)
    requires
        spec_begin(spec_resume(k, event)).1 is Perform,
    ensures
        spec_run(StageView::Await(a, k), seq![OutcomeView::Produced(event), OutcomeView::Failed(e)]) == (
            seq![a, spec_begin(spec_resume(k, event)).1->Perform_0],
            Some(Err::<(), Error>(e)),
        ),
{
    let (r, s) = spec_begin(StageView::Await(a, k));
    let outcomes = seq![OutcomeView::Produced(event), OutcomeView::Failed(e)];
    assert(outcomes[0] == OutcomeView::Produced(event));
    assert(outcomes.drop_first() =~= seq![OutcomeView::Failed(e)]);
    let (r2, s2) = spec_next(r, outcomes[0]);
    assert((r2, s2) == spec_begin(spec_resume(k, event)));
    let b = s2->Perform_0;
    let rest = outcomes.drop_first();
    assert(rest[0] == OutcomeView::Failed(e));
    let (r3, s3) = spec_next(r2, rest[0]);
    assert(spec_drive(r3, s3, rest.drop_first()) == (Seq::<ActionView>::empty(), Some(Err::<(), Error>(e))));
    assert(seq![b] + Seq::<ActionView>::empty() =~= seq![b]);
    assert(spec_drive(r2, s2, rest) == (seq![b], Some(Err::<(), Error>(e))));
    assert(seq![a] + seq![b] =~= seq![a, b]);
}

/// `mb` whose `PUT` is refused (or fails) sends nothing else, prints
/// nothing, and ends with that failure.
pub proof fn law_mb_put_fails(bucket: String, region: String, e: Error)
    ensures
        spec_run(spec_start_s3(S3Command::Mb { bucket, region }), seq![OutcomeView::Failed(e)]) == (
            seq![ActionView::Put("/"@ + bucket@, spec_create_bucket_body(region@))],
            Some(Err::<(), Error>(e)),
        ),
{
    lemma_first_action_fails(spec_start_s3(S3Command::Mb { bucket, region }), e);
}

/// `mb` whose `PUT` and printing succeed ends with success.
pub proof fn law_mb_succeeds(bucket: String, region: String)
    ensures
        spec_run(spec_start_s3(S3Command::Mb { bucket, region }), completions(2)) == (
            seq![
                ActionView::Put("/"@ + bucket@, spec_create_bucket_body(region@)),
                ActionView::Print("Bucket created: "@ + bucket@),
            ],
            Some(Ok::<(), Error>(())),
        ),
{
    let put = ActionView::Put("/"@ + bucket@, spec_create_bucket_body(region@));
    let print = ActionView::Print("Bucket created: "@ + bucket@);
    crate::runner::lemma_drive_completes(seq![print], put);
    assert(seq![print].len() + 1 == 2);
    assert(seq![put] + seq![print] =~= seq![put, print]);
    assert(seq![put, print].drop_first() =~= seq![print]);
}

/// `rb` whose `DELETE` is refused prints nothing and ends with that
/// failure.
pub proof fn law_rb_delete_fails(bucket: String, e: Error)
    ensures
        spec_run(spec_start_s3(S3Command::Rb { bucket, force: false }), seq![OutcomeView::Failed(e)]) == (
            seq![ActionView::Delete("/"@ + bucket@)],
            Some(Err::<(), Error>(e)),
        ),
{
    lemma_first_action_fails(spec_start_s3(S3Command::Rb { bucket, force: false }), e);
}

/// `rm <bucket>/<key>` whose `DELETE` is refused prints nothing and ends
/// with that failure.
pub proof fn law_rm_delete_fails(path: String, e: Error)
    requires
        path@.contains('/'),
    ensures
        spec_run(spec_start_s3(S3Command::Rm { path, recursive: false }), seq![OutcomeView::Failed(e)]) == (
            seq![ActionView::Delete("/"@ + path@)],
            Some(Err::<(), Error>(e)),
        ),
{
    law_rm(path);
    lemma_first_action_fails(spec_start_s3(S3Command::Rm { path, recursive: false }), e);
}

/// Any `ls` whose listing fails (the request fails or is refused, or its
/// body is not the expected document) prints nothing and ends with that
/// failure.
pub proof fn law_ls_listing_fails(path: Option<String>, e: Error)
    ensures
        ({
            let (performed, end) = spec_run(spec_start_s3(S3Command::Ls { path }), seq![OutcomeView::Failed(e)]);
            &&& performed.len() == 1
            &&& performed[0] == match path {
                None => ActionView::ListBuckets("/"@),
                Some(p) => ActionView::ListObjects(
                    spec_list_objects_path(spec_split_path(p@).0, spec_split_path(p@).1),
                ),
            }
            &&& end == Some(Err::<(), Error>(e))
        }),
{
    lemma_first_action_fails(spec_start_s3(S3Command::Ls { path }), e);
}

/// `status` whose health check is refused prints nothing and ends with that
/// failure.
pub proof fn law_status_fails(e: Error)
    ensures
        spec_run(spec_start_status(), seq![OutcomeView::Failed(e)]) == (
            seq![ActionView::GetText("/health"@)],
            Some(Err::<(), Error>(e)),
        ),
{
    lemma_first_action_fails(spec_start_status(), e);
}

/// `cp` from an existing local file that cannot be read sends nothing,
/// prints nothing, and ends with that failure.
pub proof fn law_cp_read_fails(source: String, dest: String, e: Error)
    ensures
        spec_run(
            spec_start_s3(S3Command::Cp { source, dest }),
            seq![OutcomeView::Produced(EventView::Exists(true)), OutcomeView::Failed(e)],
        ) == (
            seq![ActionView::LocalExists(source@), ActionView::ReadLocal(source@)],
            Some(Err::<(), Error>(e)),
        ),
{
    let k = ResumeView::ChooseDirection { source: source@, dest: dest@ };
    lemma_second_action_fails(ActionView::LocalExists(source@), k, EventView::Exists(true), e);
}

/// `cp <bucket>/<key> <local>` whose fetch fails writes no local file,
/// prints nothing, and ends with that failure.
pub proof fn law_cp_fetch_fails(source: String, dest: String, e: Error)
    requires
        source@.contains('/'),
    ensures
        spec_run(
            spec_start_s3(S3Command::Cp { source, dest }),
            seq![OutcomeView::Produced(EventView::Exists(false)), OutcomeView::Failed(e)],
        ) == (
            seq![ActionView::LocalExists(source@), ActionView::GetBytes("/"@ + source@)],
            Some(Err::<(), Error>(e)),
        ),
{
    law_split_path_joins(source@);
    reveal_strlit("/");
    let (bucket, key) = spec_split_path(source@);
    assert("/"@ + bucket + "/"@ + key =~= "/"@ + source@);
    let k = ResumeView::ChooseDirection { source: source@, dest: dest@ };
    lemma_second_action_fails(ActionView::LocalExists(source@), k, EventView::Exists(false), e);
}

/// `rb --force` whose listing fails deletes nothing and ends with that
/// failure.
pub proof fn law_rb_force_listing_fails(bucket: String, e: Error)
    ensures
        spec_run(spec_start_s3(S3Command::Rb { bucket, force: true }), seq![OutcomeView::Failed(e)]) == (
            seq![ActionView::ListObjects("/"@ + bucket@ + "?list-type=2"@)],
            Some(Err::<(), Error>(e)),
        ),
{
    lemma_first_action_fails(spec_start_s3(S3Command::Rb { bucket, force: true }), e);
}

/// `rm --recursive` whose listing fails deletes nothing and ends with that
/// failure.
pub proof fn law_rm_recursive_listing_fails(path: String, e: Error)
    ensures
        spec_run(spec_start_s3(S3Command::Rm { path, recursive: true }), seq![OutcomeView::Failed(e)]) == (
            seq![ActionView::ListObjects("/"@ + spec_split_path(path@).0 + "?list-type=2"@)],
            Some(Err::<(), Error>(e)),
        ),
{
    lemma_first_action_fails(spec_start_s3(S3Command::Rm { path, recursive: true }), e);
}

/// Running a command that waits on its listing, then runs the list of
/// actions `then` (which is not empty), failing at the action of index
/// `m` of that list: the listing and the first `m + 1` actions of the list
/// are performed, and the command ends with the failure.
proof fn lemma_listed_then_fails(
    a: ActionView,
    k: ResumeView,
    objects: Seq<ObjectInfo>,
    then: Seq<ActionView>,
    m: nat,
    e: Error,
)
    requires
        spec_resume(k, EventView::Objects(objects)) == StageView::Run(then),
        m < then.len(),
    ensures
        spec_run(
            StageView::Await(a, k),
            seq![OutcomeView::Produced(EventView::Objects(objects))] + completions(m)
                + seq![OutcomeView::Failed(e)],
        ) == (seq![a] + then.take(m + 1int), Some(Err::<(), Error>(e))),
{
    let outcomes = seq![OutcomeView::Produced(EventView::Objects(objects))] + completions(m)
        + seq![OutcomeView::Failed(e)];
    let (r, s) = spec_begin(StageView::Await(a, k));
    assert(outcomes[0] == OutcomeView::Produced(EventView::Objects(objects)));
    assert(outcomes.drop_first() =~= completions(m) + seq![OutcomeView::Failed(e)]);
    let (r2, s2) = spec_next(r, outcomes[0]);
    assert(r2 == RunnerView { todo: then.drop_first(), waiting: None, finished: false });
    assert(s2 == StepView::Perform(then[0]));
    lemma_drive_fails_after(then.drop_first(), then[0], m, e);
    assert(seq![then[0]] + then.drop_first() =~= then);
}

/// `rm --recursive` in which deleting the listed object of index `j` fails
/// performs the listing, the deletions and reports of the objects before
/// it, and that one deletion; no further object is deleted and nothing
/// more is printed, and the command ends with the failure.
pub proof fn law_rm_recursive_delete_fails(path: String, objects: Seq<ObjectInfo>, j: nat, e: Error)
    requires
        j < objects.len(),
    ensures
        ({
            let bucket = spec_split_path(path@).0;
            spec_run(
                spec_start_s3(S3Command::Rm { path, recursive: true }),
                seq![OutcomeView::Produced(EventView::Objects(objects))] + completions(2 * j)
                    + seq![OutcomeView::Failed(e)],
            ) == (
                seq![ActionView::ListObjects("/"@ + bucket + "?list-type=2"@)]
                    + spec_delete_and_report_each(bucket, objects).take(2 * j + 1int),
                Some(Err::<(), Error>(e)),
            )
        }),
{
    let bucket = spec_split_path(path@).0;
    lemma_listed_then_fails(
        ActionView::ListObjects("/"@ + bucket + "?list-type=2"@),
        ResumeView::RemoveEach { bucket },
        objects,
        spec_delete_and_report_each(bucket, objects),
        2 * j,
        e,
    );
}

/// `rb --force` in which deleting the listed object of index `j` fails
/// deletes the objects up to that one and never the bucket, prints
/// nothing, and ends with the failure.
pub proof fn law_rb_force_delete_fails(bucket: String, objects: Seq<ObjectInfo>, j: nat, e: Error)
    requires
        j < objects.len(),
    ensures
        ({
            let (performed, end) = spec_run(
                spec_start_s3(S3Command::Rb { bucket, force: true }),
                seq![OutcomeView::Produced(EventView::Objects(objects))] + completions(j)
                    + seq![OutcomeView::Failed(e)],
            );
            &&& performed == seq![ActionView::ListObjects("/"@ + bucket@ + "?list-type=2"@)]
                + spec_delete_each(bucket@, objects).take(j + 1int)
            &&& !performed.contains(ActionView::Delete("/"@ + bucket@))
            &&& end == Some(Err::<(), Error>(e))
        }),
{
    let then = spec_delete_each(bucket@, objects) + seq![
        ActionView::Delete("/"@ + bucket@),
        ActionView::Print("Bucket removed: "@ + bucket@),
    ];
    lemma_listed_then_fails(
        ActionView::ListObjects("/"@ + bucket@ + "?list-type=2"@),
        ResumeView::EmptyThenRemove { bucket: bucket@ },
        objects,
        then,
        j,
        e,
    );
    assert(then.take(j + 1int) =~= spec_delete_each(bucket@, objects).take(j + 1int));
    let performed = seq![ActionView::ListObjects("/"@ + bucket@ + "?list-type=2"@)]
        + spec_delete_each(bucket@, objects).take(j + 1int);
    reveal_strlit("/");
    if performed.contains(ActionView::Delete("/"@ + bucket@)) {
        let i = choose|i: int| 0 <= i < performed.len() && performed[i] == ActionView::Delete("/"@ + bucket@);
        assert(i >= 1);
        let key = objects[i - 1].key@;
        assert(performed[i] == ActionView::Delete("/"@ + bucket@ + "/"@ + key));
        assert(("/"@ + bucket@ + "/"@ + key).len() > ("/"@ + bucket@).len());
    }
}

// ---------------------------------------------------------------------------
// What each printed line, request path and decision is, for every input.

/// The printed line of a listed object is its last modification, a tab, its
/// full size in decimal, a tab and its key; the digits read back to the
/// size, whatever its value.
pub proof fn law_object_line(info: ObjectInfo)
    ensures
        spec_object_line(info) == info.last_modified@ + "\t"@ + decimal(info.size as nat) + "\t"@
            + info.key@,
        all_digits(decimal(info.size as nat)),
        digits_value(decimal(info.size as nat)) == info.size,
        decimal(info.size as nat).len() > 1 ==> decimal(info.size as nat)[0] != '0',
{
    law_decimal_roundtrip(info.size as nat);
}

/// The printed line of a listed bucket is its creation date, a tab and its
/// whole name.
pub proof fn law_bucket_line(info: BucketInfo)
    ensures
        spec_bucket_line(info) == info.creation_date@ + "\t"@ + info.name@,
        spec_bucket_line(info).subrange(
            spec_bucket_line(info).len() - info.name@.len(),
            spec_bucket_line(info).len() as int,
        ) == info.name@,
{
    assert(spec_bucket_line(info).subrange(
        spec_bucket_line(info).len() - info.name@.len(),
        spec_bucket_line(info).len() as int,
    ) =~= info.name@);
}

/// What `rm --recursive` does after its listing: for each listed object, in
/// order, delete `/<bucket>/<key>` and then print `Deleted: <bucket>/<key>`;
/// nothing else.
pub proof fn law_delete_and_report_each(bucket: Seq<char>, objects: Seq<ObjectInfo>)
    ensures
        spec_delete_and_report_each(bucket, objects).len() == 2 * objects.len(),
        forall|i: int| 0 <= i < objects.len() ==> {
            &&& #[trigger] spec_delete_and_report_each(bucket, objects)[2 * i]
                == ActionView::Delete("/"@ + bucket + "/"@ + objects[i].key@)
            &&& spec_delete_and_report_each(bucket, objects)[2 * i + 1]
                == ActionView::Print("Deleted: "@ + bucket + "/"@ + objects[i].key@)
        },
{
    assert forall|i: int| 0 <= i < objects.len() implies {
        &&& #[trigger] spec_delete_and_report_each(bucket, objects)[2 * i]
            == ActionView::Delete("/"@ + bucket + "/"@ + objects[i].key@)
        &&& spec_delete_and_report_each(bucket, objects)[2 * i + 1]
            == ActionView::Print("Deleted: "@ + bucket + "/"@ + objects[i].key@)
    } by {
        assert((2 * i) / 2 == i);
        assert((2 * i + 1) / 2 == i);
        assert((2 * i) % 2 == 0);
        assert((2 * i + 1) % 2 == 1);
    }
}

/// What `rb --force` does after its listing, before removing the bucket:
/// one deletion of `/<bucket>/<key>` per listed object, in order, and
/// nothing else (in particular nothing is put).
pub proof fn law_delete_each(bucket: Seq<char>, objects: Seq<ObjectInfo>)
    ensures
        spec_delete_each(bucket, objects).len() == objects.len(),
        forall|i: int| 0 <= i < objects.len() ==> #[trigger] spec_delete_each(bucket, objects)[i]
            == ActionView::Delete("/"@ + bucket + "/"@ + objects[i].key@),
        forall|i: int| 0 <= i < objects.len() ==> !(#[trigger] spec_delete_each(bucket, objects)[i] is Put),
{
}

/// `rb --force` with a listing of objects performs the listing, exactly one
/// deletion per listed object in order, the deletion of the bucket and the
/// removed line, and never puts anything.
pub proof fn law_rb_force_actions(bucket: String, objects: Seq<ObjectInfo>)
    ensures
        ({
            let trace = spec_trace(
                spec_start_s3(S3Command::Rb { bucket, force: true }),
                seq![EventView::Objects(objects)],
            );
            &&& trace.len() == objects.len() + 3
            &&& trace[0] == ActionView::ListObjects("/"@ + bucket@ + "?list-type=2"@)
            &&& forall|i: int| 0 <= i < objects.len() ==> #[trigger] trace[i + 1]
                == ActionView::Delete("/"@ + bucket@ + "/"@ + objects[i].key@)
            &&& trace[objects.len() + 1int] == ActionView::Delete("/"@ + bucket@)
            &&& trace[objects.len() + 2int] == ActionView::Print("Bucket removed: "@ + bucket@)
            &&& forall|i: int| 0 <= i < trace.len() ==> !(#[trigger] trace[i] is Put)
        }),
{
    law_rb_force(bucket, objects);
    law_delete_each(bucket@, objects);
    let trace = spec_trace(
        spec_start_s3(S3Command::Rb { bucket, force: true }),
        seq![EventView::Objects(objects)],
    );
    assert forall|i: int| 0 <= i < trace.len() implies !(#[trigger] trace[i] is Put) by {
        if 1 <= i <= objects.len() {
            assert(trace[i] == spec_delete_each(bucket@, objects)[i - 1]);
        }
    }
    assert forall|i: int| 0 <= i < objects.len() implies #[trigger] trace[i + 1]
        == ActionView::Delete("/"@ + bucket@ + "/"@ + objects[i].key@) by {
        assert(trace[i + 1] == spec_delete_each(bucket@, objects)[i]);
    }
}

/// An answer counts as a success exactly when its status lies within
/// 200-299; every informational, redirect, client-error and server-error
/// status is refused.
pub proof fn law_success_statuses(status: u16)
    ensures
        spec_is_success(status) <==> 200 <= status && status < 300,
        status >= 400 ==> !spec_is_success(status),
        status < 200 ==> !spec_is_success(status),
{
}

/// The request paths: `/<bucket>`, `/<bucket>/<key>`, `/` for the bucket
/// listing, and `/<bucket>?list-type=2` followed by `&prefix=<prefix>` when
/// there is a prefix.
pub proof fn law_request_paths(bucket: Seq<char>, key: Seq<char>, prefix: Seq<char>)
    ensures
        spec_bucket_path(bucket) == "/"@ + bucket,
        spec_object_path(bucket, key) == "/"@ + bucket + "/"@ + key,
        spec_list_buckets_path() == "/"@,
        prefix.len() == 0 ==> spec_list_objects_path(bucket, prefix) == "/"@ + bucket + "?list-type=2"@,
        prefix.len() > 0 ==> spec_list_objects_path(bucket, prefix) == "/"@ + bucket
            + "?list-type=2&prefix="@ + prefix,
{
}

/// The printed report lines.
pub proof fn law_messages(bucket: Seq<char>, key: Seq<char>, local: Seq<char>)
    ensures
        spec_created_message(bucket) == "Bucket created: "@ + bucket,
        spec_removed_message(bucket) == "Bucket removed: "@ + bucket,
        spec_uploaded_message(local, bucket, key) == "Uploaded: "@ + local + " -> "@ + bucket + "/"@ + key,
        spec_downloaded_message(bucket, key, local) == "Downloaded: "@ + bucket + "/"@ + key + " -> "@ + local,
        spec_deleted_message(bucket, key) == "Deleted: "@ + bucket + "/"@ + key,
{
}

/// The line printed for each failure: the text of a transport or file
/// error as it is, `xml: ` before the detail of a malformed document, and
/// the status in decimal, `: ` and the body for a refused answer.
pub proof fn law_error_messages(text: String, status: u16)
    ensures
        Error::Http(text).spec_message() == text@,
        Error::Io(text).spec_message() == text@,
        Error::Xml(text).spec_message() == "xml: "@ + text@,
        Error::Api(status, text).spec_message() == decimal(status as nat) + ": "@ + text@,
        digits_value(decimal(status as nat)) == status,
{
    law_decimal_roundtrip(status as nat);
}

/// `bucket/key` is split at its first `/`: the bucket holds no `/`, and the
/// bucket, `/` and the key make the path again; a path without `/` is all
/// bucket, with an empty key.
pub proof fn law_split_path(path: Seq<char>)
    ensures
        path.contains('/') ==> {
            &&& !spec_split_path(path).0.contains('/')
            &&& spec_split_path(path).0 + seq!['/'] + spec_split_path(path).1 == path
        },
        !path.contains('/') ==> spec_split_path(path).0 == path && spec_split_path(path).1.len() == 0,
{
    law_split_path_joins(path);
}

/// The endpoint a client keeps is the given endpoint without its trailing
/// slashes: a prefix of it that does not end in `/`, after which the given
/// endpoint holds only `/`.
pub proof fn law_endpoint_trim(endpoint: Seq<char>)
    ensures
        ({
            let kept = trim_end_char(endpoint, '/');
            &&& kept.len() <= endpoint.len()
            &&& kept == endpoint.subrange(0, kept.len() as int)
            &&& kept.len() > 0 ==> kept.last() != '/'
            &&& forall|j: int| kept.len() <= j < endpoint.len() ==> endpoint[j] == '/'
        }),
{
    lemma_trim_end_char(endpoint, '/');
}

/// `mb` with an empty region name puts at `/<bucket>` the UTF-8 text of a
/// `CreateBucketConfiguration` document whose `LocationConstraint` element
/// is empty and self-closed.
pub proof fn law_mb_empty_region(bucket: String, region: String)
    requires
        region@.len() == 0,
    ensures
        ({
            let trace = spec_trace(spec_start_s3(S3Command::Mb { bucket, region }), Seq::empty());
            &&& trace.len() == 2
            &&& trace[0] matches ActionView::Put(path, body) && {
                &&& path == "/"@ + bucket@
                &&& decode_utf8(body)
                    == "<CreateBucketConfiguration><LocationConstraint/></CreateBucketConfiguration>"@
            }
            &&& trace[1] == ActionView::Print("Bucket created: "@ + bucket@)
        }),
{
    reveal_strlit("us-east-1");
    assert(region@ != DEFAULT_REGION@);
    let xml = spec_create_bucket_xml(region@);
    encode_utf8_decode_utf8(xml);
    reveal_strlit("<CreateBucketConfiguration>");
    reveal_strlit("<LocationConstraint/>");
    reveal_strlit("</CreateBucketConfiguration>");
    reveal_strlit("<CreateBucketConfiguration><LocationConstraint/></CreateBucketConfiguration>");
    assert(xml =~= "<CreateBucketConfiguration><LocationConstraint/></CreateBucketConfiguration>"@);
}

} // verus!
