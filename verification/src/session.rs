//! What a command does, step by step.
//!
//! A command is planned as a [`Stage`]: either a list of actions to perform
//! in order, after which the command has succeeded, or one action whose
//! outcome (an [`Event`]) is handed to [`resume`] together with the
//! [`Resume`] point to learn what comes next. The caller performs the
//! actions; a failing action ends the command with that failure.

use vstd::prelude::*;
use vstd::string::*;
use crate::s3::{
    bucket_path, create_bucket_body, created_message, deleted_message, list_buckets_path,
    list_objects_path, object_path, removed_message, spec_bucket_line, spec_bucket_path,
    spec_create_bucket_body, spec_created_message, spec_deleted_message, spec_downloaded_message,
    spec_list_buckets_path, spec_list_objects_path, spec_object_line, spec_object_path,
    spec_removed_message, spec_split_path, spec_uploaded_message, split_path, BucketInfo,
    ObjectInfo, S3Command, bucket_line, object_line, object_keys, uploaded_message,
    downloaded_message,
};

verus! {

/// Something a command asks its caller to do.
#[derive(Debug, PartialEq, Eq)]
pub enum Action {
    /// `GET` the path; its body, as text, comes back as [`Event::Text`].
    GetText(String),
    /// `GET` the path; its body comes back as [`Event::Bytes`].
    GetBytes(String),
    /// `GET` the path and read its body as a `ListAllMyBucketsResult`
    /// document; the buckets come back as [`Event::Buckets`].
    ListBuckets(String),
    /// `GET` the path and read its body as a `ListBucketResult` document;
    /// the objects come back as [`Event::Objects`].
    ListObjects(String),
    /// `PUT` the body at the path.
    Put(String, Vec<u8>),
    /// `DELETE` the path.
    Delete(String),
    /// Find out whether a local file exists; the answer comes back as
    /// [`Event::Exists`].
    LocalExists(String),
    /// Read a local file; its content comes back as [`Event::Bytes`].
    ReadLocal(String),
    /// Write the bytes to a local file.
    WriteLocal(String, Vec<u8>),
    /// Print the line on standard output.
    Print(String),
}

/// The outcome of an action that produces something.
#[derive(Debug, PartialEq, Eq)]
pub enum Event {
    Exists(bool),
    Text(String),
    Bytes(Vec<u8>),
    Buckets(Vec<BucketInfo>),
    Objects(Vec<ObjectInfo>),
}

/// Where a command goes on once the outcome of its pending action is known.
#[derive(Debug, PartialEq, Eq)]
pub enum Resume {
    /// Print the text of the answer.
    PrintText,
    /// Print a line per listed bucket.
    PrintBuckets,
    /// Print a line per listed object.
    PrintObjects,
    /// Upload `source` to `dest` when `source` is a local file, otherwise
    /// download `source` to `dest`.
    ChooseDirection { source: String, dest: String },
    /// Upload the content of `local` to `bucket/key`.
    Upload { local: String, bucket: String, key: String },
    /// Write the object `bucket/key` to `local`.
    Download { bucket: String, key: String, local: String },
    /// Delete every listed object of `bucket`, then the bucket.
    EmptyThenRemove { bucket: String },
    /// Delete every listed object of `bucket`, reporting each.
    RemoveEach { bucket: String },
}

/// The next part of a command.
#[derive(Debug, PartialEq, Eq)]
pub enum Stage {
    /// Perform these actions in order; then the command has succeeded.
    Run(Vec<Action>),
    /// Perform this action and hand its outcome to [`resume`].
    Await(Action, Resume),
}

/// An action, with paths and lines as character sequences.
pub enum ActionView {
    GetText(Seq<char>),
    GetBytes(Seq<char>),
    ListBuckets(Seq<char>),
    ListObjects(Seq<char>),
    Put(Seq<char>, Seq<u8>),
    Delete(Seq<char>),
    LocalExists(Seq<char>),
    ReadLocal(Seq<char>),
    WriteLocal(Seq<char>, Seq<u8>),
    Print(Seq<char>),
}

/// An outcome, with text as characters and content as bytes.
pub enum EventView {
    Exists(bool),
    Text(Seq<char>),
    Bytes(Seq<u8>),
    Buckets(Seq<BucketInfo>),
    Objects(Seq<ObjectInfo>),
}

/// A resume point, with names as character sequences.
pub enum ResumeView {
    PrintText,
    PrintBuckets,
    PrintObjects,
    ChooseDirection { source: Seq<char>, dest: Seq<char> },
    Upload { local: Seq<char>, bucket: Seq<char>, key: Seq<char> },
    Download { bucket: Seq<char>, key: Seq<char>, local: Seq<char> },
    EmptyThenRemove { bucket: Seq<char> },
    RemoveEach { bucket: Seq<char> },
}

/// A stage, with its actions as views.
pub enum StageView {
    Run(Seq<ActionView>),
    Await(ActionView, ResumeView),
}

impl View for Action {
    type V = ActionView;

    open spec fn view(&self) -> ActionView {
        match self {
            Action::GetText(p) => ActionView::GetText(p@),
            Action::GetBytes(p) => ActionView::GetBytes(p@),
            Action::ListBuckets(p) => ActionView::ListBuckets(p@),
            Action::ListObjects(p) => ActionView::ListObjects(p@),
            Action::Put(p, b) => ActionView::Put(p@, b@),
            Action::Delete(p) => ActionView::Delete(p@),
            Action::LocalExists(p) => ActionView::LocalExists(p@),
            Action::ReadLocal(p) => ActionView::ReadLocal(p@),
            Action::WriteLocal(p, b) => ActionView::WriteLocal(p@, b@),
            Action::Print(l) => ActionView::Print(l@),
        }
    }
}

impl View for Event {
    type V = EventView;

    open spec fn view(&self) -> EventView {
        match self {
            Event::Exists(b) => EventView::Exists(*b),
            Event::Text(t) => EventView::Text(t@),
            Event::Bytes(b) => EventView::Bytes(b@),
            Event::Buckets(v) => EventView::Buckets(v@),
            Event::Objects(v) => EventView::Objects(v@),
        }
    }
}

impl View for Resume {
    type V = ResumeView;

    open spec fn view(&self) -> ResumeView {
        match self {
            Resume::PrintText => ResumeView::PrintText,
            Resume::PrintBuckets => ResumeView::PrintBuckets,
            Resume::PrintObjects => ResumeView::PrintObjects,
            Resume::ChooseDirection { source, dest } => ResumeView::ChooseDirection {
                source: source@,
                dest: dest@,
            },
            Resume::Upload { local, bucket, key } => ResumeView::Upload {
                local: local@,
                bucket: bucket@,
                key: key@,
            },
            Resume::Download { bucket, key, local } => ResumeView::Download {
                bucket: bucket@,
                key: key@,
                local: local@,
            },
            Resume::EmptyThenRemove { bucket } => ResumeView::EmptyThenRemove { bucket: bucket@ },
            Resume::RemoveEach { bucket } => ResumeView::RemoveEach { bucket: bucket@ },
        }
    }
}

impl View for Stage {
    type V = StageView;

    open spec fn view(&self) -> StageView {
        match self {
            Stage::Run(actions) => StageView::Run(actions@.map_values(|a: Action| a@)),
            Stage::Await(a, k) => StageView::Await(a@, k@),
        }
    }
}

// ---------------------------------------------------------------------------
// The plan of each command

/// The first stage of an S3 command.
pub open spec fn spec_start_s3(cmd: S3Command) -> StageView {
    match cmd {
        S3Command::Mb { bucket, region } => StageView::Run(
            seq![
                ActionView::Put(spec_bucket_path(bucket@), spec_create_bucket_body(region@)),
                ActionView::Print(spec_created_message(bucket@)),
            ],
        ),
        S3Command::Rb { bucket, force } => if force {
            StageView::Await(
                ActionView::ListObjects(spec_list_objects_path(bucket@, Seq::<char>::empty())),
                ResumeView::EmptyThenRemove { bucket: bucket@ },
            )
        } else {
            StageView::Run(
                seq![
                    ActionView::Delete(spec_bucket_path(bucket@)),
                    ActionView::Print(spec_removed_message(bucket@)),
                ],
            )
        },
        S3Command::Ls { path } => match path {
            None => StageView::Await(
                ActionView::ListBuckets(spec_list_buckets_path()),
                ResumeView::PrintBuckets,
            ),
            Some(p) => {
                let (bucket, prefix) = spec_split_path(p@);
                StageView::Await(
                    ActionView::ListObjects(spec_list_objects_path(bucket, prefix)),
                    ResumeView::PrintObjects,
                )
            },
        },
        S3Command::Cp { source, dest } => StageView::Await(
            ActionView::LocalExists(source@),
            ResumeView::ChooseDirection { source: source@, dest: dest@ },
        ),
        S3Command::Rm { path, recursive } => {
            let (bucket, key) = spec_split_path(path@);
            if recursive {
                StageView::Await(
                    ActionView::ListObjects(spec_list_objects_path(bucket, Seq::<char>::empty())),
                    ResumeView::RemoveEach { bucket },
                )
            } else {
                StageView::Run(
                    seq![
                        ActionView::Delete(spec_object_path(bucket, key)),
                        ActionView::Print(spec_deleted_message(bucket, key)),
                    ],
                )
            }
        },
    }
}

/// Whether `event` is the kind of outcome that the resume point waits for.
pub open spec fn spec_fits(k: ResumeView, e: EventView) -> bool {
    match k {
        ResumeView::PrintText => e is Text,
        ResumeView::PrintBuckets => e is Buckets,
        ResumeView::PrintObjects => e is Objects,
        ResumeView::ChooseDirection { .. } => e is Exists,
        ResumeView::Upload { .. } => e is Bytes,
        ResumeView::Download { .. } => e is Bytes,
        ResumeView::EmptyThenRemove { .. } => e is Objects,
        ResumeView::RemoveEach { .. } => e is Objects,
    }
}

/// Deleting each listed object of `bucket`, in the order of the listing.
pub open spec fn spec_delete_each(bucket: Seq<char>, objects: Seq<ObjectInfo>) -> Seq<ActionView> {
    Seq::new(objects.len(), |i: int| ActionView::Delete(spec_object_path(bucket, objects[i].key@)))
}

/// Deleting each listed object of `bucket` and reporting it, in the order of
/// the listing.
pub open spec fn spec_delete_and_report_each(bucket: Seq<char>, objects: Seq<ObjectInfo>) -> Seq<ActionView> {
    Seq::new(
        2 * objects.len(),
        |j: int|
            if j % 2 == 0 {
                ActionView::Delete(spec_object_path(bucket, objects[j / 2].key@))
            } else {
                ActionView::Print(spec_deleted_message(bucket, objects[j / 2].key@))
            },
    )
}

/// The stage that follows the outcome `e` at the resume point `k`.
pub open spec fn spec_resume(k: ResumeView, e: EventView) -> StageView {
    match (k, e) {
        (ResumeView::PrintText, EventView::Text(t)) => StageView::Run(seq![ActionView::Print(t)]),
        (ResumeView::PrintBuckets, EventView::Buckets(v)) => StageView::Run(
            Seq::new(v.len(), |i: int| ActionView::Print(spec_bucket_line(v[i]))),
        ),
        (ResumeView::PrintObjects, EventView::Objects(v)) => StageView::Run(
            Seq::new(v.len(), |i: int| ActionView::Print(spec_object_line(v[i]))),
        ),
        (ResumeView::ChooseDirection { source, dest }, EventView::Exists(local)) => if local {
            let (bucket, key) = spec_split_path(dest);
            StageView::Await(
                ActionView::ReadLocal(source),
                ResumeView::Upload { local: source, bucket, key },
            )
        } else {
            let (bucket, key) = spec_split_path(source);
            StageView::Await(
                ActionView::GetBytes(spec_object_path(bucket, key)),
                ResumeView::Download { bucket, key, local: dest },
            )
        },
        (ResumeView::Upload { local, bucket, key }, EventView::Bytes(data)) => StageView::Run(
            seq![
                ActionView::Put(spec_object_path(bucket, key), data),
                ActionView::Print(spec_uploaded_message(local, bucket, key)),
            ],
        ),
        (ResumeView::Download { bucket, key, local }, EventView::Bytes(data)) => StageView::Run(
            seq![
                ActionView::WriteLocal(local, data),
                ActionView::Print(spec_downloaded_message(bucket, key, local)),
            ],
        ),
        (ResumeView::EmptyThenRemove { bucket }, EventView::Objects(v)) => StageView::Run(
            spec_delete_each(bucket, v) + seq![
                ActionView::Delete(spec_bucket_path(bucket)),
                ActionView::Print(spec_removed_message(bucket)),
            ],
        ),
        (ResumeView::RemoveEach { bucket }, EventView::Objects(v)) => StageView::Run(
            spec_delete_and_report_each(bucket, v),
        ),
        _ => StageView::Run(Seq::empty()),
    }
}

/// The actions a command performs, in order, when it starts at `stage` and
/// the actions it waits on have the outcomes `events`, one per wait. The
/// trace stops at a wait for which no outcome is given.
pub open spec fn spec_trace(stage: StageView, events: Seq<EventView>) -> Seq<ActionView>
    decreases events.len(),
{
    match stage {
        StageView::Run(actions) => actions,
        StageView::Await(action, k) => if events.len() == 0 {
            seq![action]
        } else {
            seq![action] + spec_trace(spec_resume(k, events[0]), events.drop_first())
        },
    }
}

/// Whether the action produces an outcome that the command waits for (a
/// fetched body or listing, a file's existence or content); the other
/// actions only succeed or fail.
pub open spec fn spec_yields(a: ActionView) -> bool {
    ||| a is GetText
    ||| a is GetBytes
    ||| a is ListBuckets
    ||| a is ListObjects
    ||| a is LocalExists
    ||| a is ReadLocal
}

/// Whether `e` is the kind of outcome that the action `a` produces.
pub open spec fn spec_produces(a: ActionView, e: EventView) -> bool {
    match a {
        ActionView::GetText(_) => e is Text,
        ActionView::GetBytes(_) => e is Bytes,
        ActionView::ListBuckets(_) => e is Buckets,
        ActionView::ListObjects(_) => e is Objects,
        ActionView::LocalExists(_) => e is Exists,
        ActionView::ReadLocal(_) => e is Bytes,
        _ => false,
    }
}

/// A stage is well formed when the actions of a run produce nothing to wait
/// for, and the awaited action produces something of exactly the kind its
/// resume point takes.
pub open spec fn spec_stage_wf(s: StageView) -> bool {
    match s {
        StageView::Run(actions) => forall|i: int| 0 <= i < actions.len() ==> !spec_yields(#[trigger] actions[i]),
        StageView::Await(a, k) => {
            &&& spec_yields(a)
            &&& forall|e: EventView| #[trigger] spec_produces(a, e) ==> spec_fits(k, e)
        },
    }
}

// ---------------------------------------------------------------------------
// Executable plan

/// The first stage of an S3 command.
pub fn start_s3(cmd: &S3Command) -> (s: Stage)
    ensures
        s@ == spec_start_s3(*cmd),
        spec_stage_wf(s@),
{
    match cmd {
        S3Command::Mb { bucket, region } => {
            let put = Action::Put(bucket_path(bucket.as_str()), create_bucket_body(region.as_str()));
            let print = Action::Print(created_message(bucket.as_str()));
            let actions = vec![put, print];
            proof {
                assert(actions@.map_values(|a: Action| a@) =~= seq![put@, print@]);
            }
            Stage::Run(actions)
        },
        S3Command::Rb { bucket, force } => {
            if *force {
                let empty = String::new();
                Stage::Await(
                    Action::ListObjects(list_objects_path(bucket.as_str(), empty.as_str())),
                    Resume::EmptyThenRemove { bucket: bucket.clone() },
                )
            } else {
                let delete = Action::Delete(bucket_path(bucket.as_str()));
                let print = Action::Print(removed_message(bucket.as_str()));
                let actions = vec![delete, print];
                proof {
                    assert(actions@.map_values(|a: Action| a@) =~= seq![delete@, print@]);
                }
                Stage::Run(actions)
            }
        },
        S3Command::Ls { path } => match path {
            None => Stage::Await(Action::ListBuckets(list_buckets_path()), Resume::PrintBuckets),
            Some(p) => {
                let (bucket, prefix) = split_path(p.as_str());
                Stage::Await(
                    Action::ListObjects(list_objects_path(bucket, prefix)),
                    Resume::PrintObjects,
                )
            },
        },
        S3Command::Cp { source, dest } => Stage::Await(
            Action::LocalExists(source.clone()),
            Resume::ChooseDirection { source: source.clone(), dest: dest.clone() },
        ),
        S3Command::Rm { path, recursive } => {
            let (bucket, key) = split_path(path.as_str());
            if *recursive {
                let empty = String::new();
                Stage::Await(
                    Action::ListObjects(list_objects_path(bucket, empty.as_str())),
                    Resume::RemoveEach { bucket: String::from_str(bucket) },
                )
            } else {
                let delete = Action::Delete(object_path(bucket, key));
                let print = Action::Print(deleted_message(bucket, key));
                let actions = vec![delete, print];
                proof {
                    assert(actions@.map_values(|a: Action| a@) =~= seq![delete@, print@]);
                }
                Stage::Run(actions)
            }
        },
    }
}

/// Whether `event` is the kind of outcome that `k` waits for.
pub fn fits(k: &Resume, event: &Event) -> (b: bool)
    ensures
        b == spec_fits(k@, event@),
{
    match k {
        Resume::PrintText => matches!(event, Event::Text(_)),
        Resume::PrintBuckets => matches!(event, Event::Buckets(_)),
        Resume::PrintObjects => matches!(event, Event::Objects(_)),
        Resume::ChooseDirection { .. } => matches!(event, Event::Exists(_)),
        Resume::Upload { .. } => matches!(event, Event::Bytes(_)),
        Resume::Download { .. } => matches!(event, Event::Bytes(_)),
        Resume::EmptyThenRemove { .. } => matches!(event, Event::Objects(_)),
        Resume::RemoveEach { .. } => matches!(event, Event::Objects(_)),
    }
}

/// The stage that follows the outcome `event` of the action pending at
/// `k`. The outcome must be of the kind that the action produces.
pub fn resume(k: Resume, event: Event) -> (s: Stage)
    requires
        spec_fits(k@, event@),
    ensures
        s@ == spec_resume(k@, event@),
        spec_stage_wf(s@),
{
    match k {
        Resume::PrintText => match event {
            Event::Text(t) => {
                let print = Action::Print(t);
                let actions = vec![print];
                proof {
                    assert(actions@.map_values(|a: Action| a@) =~= seq![print@]);
                }
                Stage::Run(actions)
            },
            _ => Stage::Run(Vec::new()),
        },
        Resume::PrintBuckets => match event {
            Event::Buckets(v) => Stage::Run(print_buckets(&v)),
            _ => Stage::Run(Vec::new()),
        },
        Resume::PrintObjects => match event {
            Event::Objects(v) => Stage::Run(print_objects(&v)),
            _ => Stage::Run(Vec::new()),
        },
        Resume::ChooseDirection { source, dest } => match event {
            Event::Exists(local) => {
                if local {
                    let (bucket, key) = split_path(dest.as_str());
                    let b = String::from_str(bucket);
                    let k = String::from_str(key);
                    Stage::Await(Action::ReadLocal(source.clone()), Resume::Upload { local: source, bucket: b, key: k })
                } else {
                    let (bucket, key) = split_path(source.as_str());
                    let path = object_path(bucket, key);
                    let b = String::from_str(bucket);
                    let k = String::from_str(key);
                    Stage::Await(Action::GetBytes(path), Resume::Download { bucket: b, key: k, local: dest })
                }
            },
            _ => Stage::Run(Vec::new()),
        },
        Resume::Upload { local, bucket, key } => match event {
            Event::Bytes(data) => {
                let put = Action::Put(object_path(bucket.as_str(), key.as_str()), data);
                let print = Action::Print(uploaded_message(local.as_str(), bucket.as_str(), key.as_str()));
                let actions = vec![put, print];
                proof {
                    assert(actions@.map_values(|a: Action| a@) =~= seq![put@, print@]);
                }
                Stage::Run(actions)
            },
            _ => Stage::Run(Vec::new()),
        },
        Resume::Download { bucket, key, local } => match event {
            Event::Bytes(data) => {
                let print = Action::Print(downloaded_message(bucket.as_str(), key.as_str(), local.as_str()));
                let write = Action::WriteLocal(local, data);
                let actions = vec![write, print];
                proof {
                    assert(actions@.map_values(|a: Action| a@) =~= seq![write@, print@]);
                }
                Stage::Run(actions)
            },
            _ => Stage::Run(Vec::new()),
        },
        Resume::EmptyThenRemove { bucket } => match event {
            Event::Objects(v) => Stage::Run(empty_then_remove(bucket.as_str(), &v)),
            _ => Stage::Run(Vec::new()),
        },
        Resume::RemoveEach { bucket } => match event {
            Event::Objects(v) => Stage::Run(remove_each(bucket.as_str(), &v)),
            _ => Stage::Run(Vec::new()),
        },
    }
}

/// A printed line per listed bucket.
fn print_buckets(buckets: &Vec<BucketInfo>) -> (actions: Vec<Action>)
    ensures
        actions@.map_values(|a: Action| a@) =~= Seq::new(
            buckets@.len(),
            |i: int| ActionView::Print(spec_bucket_line(buckets@[i])),
        ),
{
    let mut actions: Vec<Action> = Vec::new();
    let n = buckets.len();
    for i in 0..n
        invariant
            n == buckets@.len(),
            actions@.len() == i,
            forall|j: int| 0 <= j < i ==> (#[trigger] actions@[j])@ == ActionView::Print(spec_bucket_line(buckets@[j])),
    {
        actions.push(Action::Print(bucket_line(&buckets[i])));
    }
    actions
}

/// A printed line per listed object.
fn print_objects(objects: &Vec<ObjectInfo>) -> (actions: Vec<Action>)
    ensures
        actions@.map_values(|a: Action| a@) =~= Seq::new(
            objects@.len(),
            |i: int| ActionView::Print(spec_object_line(objects@[i])),
        ),
{
    let mut actions: Vec<Action> = Vec::new();
    let n = objects.len();
    for i in 0..n
        invariant
            n == objects@.len(),
            actions@.len() == i,
            forall|j: int| 0 <= j < i ==> (#[trigger] actions@[j])@ == ActionView::Print(spec_object_line(objects@[j])),
    {
        actions.push(Action::Print(object_line(&objects[i])));
    }
    actions
}

/// Deleting every listed object of `bucket`, then the bucket.
fn empty_then_remove(bucket: &str, objects: &Vec<ObjectInfo>) -> (actions: Vec<Action>)
    ensures
        actions@.map_values(|a: Action| a@) =~= spec_delete_each(bucket@, objects@) + seq![
            ActionView::Delete(spec_bucket_path(bucket@)),
            ActionView::Print(spec_removed_message(bucket@)),
        ],
{
    let keys = object_keys(objects);
    let mut actions: Vec<Action> = Vec::new();
    let n = keys.len();
    for i in 0..n
        invariant
            n == keys@.len(),
            keys@.len() == objects@.len(),
            forall|j: int| 0 <= j < keys@.len() ==> (#[trigger] keys@[j])@ == objects@[j].key@,
            actions@.len() == i,
            forall|j: int| 0 <= j < i ==> (#[trigger] actions@[j])@ == ActionView::Delete(spec_object_path(bucket@, objects@[j].key@)),
    {
        actions.push(Action::Delete(object_path(bucket, keys[i].as_str())));
    }
    actions.push(Action::Delete(bucket_path(bucket)));
    actions.push(Action::Print(removed_message(bucket)));
    actions
}

/// Deleting every listed object of `bucket`, each followed by its report.
fn remove_each(bucket: &str, objects: &Vec<ObjectInfo>) -> (actions: Vec<Action>)
    ensures
        actions@.map_values(|a: Action| a@) =~= spec_delete_and_report_each(bucket@, objects@),
{
    let keys = object_keys(objects);
    let mut actions: Vec<Action> = Vec::new();
    let n = keys.len();
    for i in 0..n
        invariant
            n == keys@.len(),
            keys@.len() == objects@.len(),
            forall|j: int| 0 <= j < keys@.len() ==> (#[trigger] keys@[j])@ == objects@[j].key@,
            actions@.len() == 2 * i,
            forall|j: int| 0 <= j < 2 * i ==> (#[trigger] actions@[j])@ == (if j % 2 == 0 {
                ActionView::Delete(spec_object_path(bucket@, objects@[j / 2].key@))
            } else {
                ActionView::Print(spec_deleted_message(bucket@, objects@[j / 2].key@))
            }),
    {
        actions.push(Action::Delete(object_path(bucket, keys[i].as_str())));
        actions.push(Action::Print(deleted_message(bucket, keys[i].as_str())));
    }
    actions
}

} // verus!
