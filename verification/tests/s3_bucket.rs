use awrust_cli::client::Client;
use awrust_cli::error::Error;
use awrust_cli::runner::{Outcome, Runner, Step};
use awrust_cli::s3::{BucketInfo, ObjectInfo, S3Command};
use awrust_cli::session::{fits, resume, start_s3, Action, Event, Stage};

/// Runs a command to its end, handing the outcomes in order to the waits,
/// and returns every action it performed.
fn drive(mut stage: Stage, events: Vec<Event>) -> Vec<Action> {
    let mut performed = Vec::new();
    let mut events = events.into_iter();
    loop {
        match stage {
            Stage::Run(actions) => {
                performed.extend(actions);
                return performed;
            }
            Stage::Await(action, k) => {
                performed.push(action);
                let event = events.next().expect("an outcome for every wait");
                assert!(fits(&k, &event));
                stage = resume(k, event);
            }
        }
    }
}

/// Runs a command with the runner, handing it the outcomes in order, and
/// returns the actions performed and the result if the command ended.
fn run_with(start: (Runner, Step), outcomes: Vec<Outcome>) -> (Vec<Action>, Option<Result<(), Error>>) {
    let (mut runner, mut step) = start;
    let mut performed = Vec::new();
    let mut outcomes = outcomes.into_iter();
    loop {
        match step {
            Step::Finish(result) => return (performed, Some(result)),
            Step::Perform(action) => {
                performed.push(action);
                match outcomes.next() {
                    None => return (performed, None),
                    Some(outcome) => {
                        assert!(runner.accepts(&outcome));
                        let (r, st) = runner.next(outcome);
                        runner = r;
                        step = st;
                    }
                }
            }
        }
    }
}

fn s(text: &str) -> String {
    text.to_string()
}

fn object(key: &str, size: u64, last_modified: &str) -> ObjectInfo {
    ObjectInfo { key: s(key), size, last_modified: s(last_modified) }
}

#[test]
fn given_service_when_mb_then_creates_bucket() {
    let actions = drive(
        start_s3(&S3Command::Mb { bucket: s("test-bucket"), region: s("us-east-1") }),
        vec![],
    );
    assert_eq!(
        actions,
        vec![
            Action::Put(s("/test-bucket"), vec![]),
            Action::Print(s("Bucket created: test-bucket")),
        ]
    );
}

#[test]
fn given_service_when_mb_with_region_then_sends_location_constraint() {
    let actions = drive(
        start_s3(&S3Command::Mb { bucket: s("regional-bucket"), region: s("eu-west-1") }),
        vec![],
    );
    assert_eq!(actions.len(), 2);
    match &actions[0] {
        Action::Put(path, body) => {
            assert_eq!(path, "/regional-bucket");
            let body = String::from_utf8(body.clone()).unwrap();
            assert!(body.contains("LocationConstraint"));
            assert!(body.contains("eu-west-1"));
        }
        other => panic!("unexpected action {:?}", other),
    }
    assert_eq!(actions[1], Action::Print(s("Bucket created: regional-bucket")));
}

#[test]
fn given_service_when_mb_default_region_then_sends_empty_body() {
    let actions = drive(
        start_s3(&S3Command::Mb { bucket: s("default-bucket"), region: s("us-east-1") }),
        vec![],
    );
    match &actions[0] {
        Action::Put(path, body) => {
            assert_eq!(path, "/default-bucket");
            assert!(body.is_empty());
        }
        other => panic!("unexpected action {:?}", other),
    }
}

#[test]
fn given_existing_bucket_when_rb_then_removes_bucket() {
    let actions = drive(start_s3(&S3Command::Rb { bucket: s("old-bucket"), force: false }), vec![]);
    assert_eq!(
        actions,
        vec![Action::Delete(s("/old-bucket")), Action::Print(s("Bucket removed: old-bucket"))]
    );
}

#[test]
fn given_nonexistent_bucket_when_rb_then_exits_with_error() {
    assert!(!Client::is_success(404));
    let refusal = Client::refusal(404, s("NoSuchBucket"));
    let (performed, end) = run_with(
        Runner::start_s3(&S3Command::Rb { bucket: s("ghost-bucket"), force: false }),
        vec![Outcome::Failed(refusal)],
    );
    assert_eq!(performed, vec![Action::Delete(s("/ghost-bucket"))]);
    let error = end.unwrap().unwrap_err();
    assert_eq!(error, Error::Api(404, s("NoSuchBucket")));
    assert!(error.message().contains("404"));
}

#[test]
fn given_buckets_exist_when_ls_then_lists_all_buckets() {
    let buckets = vec![
        BucketInfo { name: s("alpha"), creation_date: s("2025-01-01T00:00:00.000Z") },
        BucketInfo { name: s("bravo"), creation_date: s("2025-06-15T12:00:00.000Z") },
    ];
    let actions = drive(start_s3(&S3Command::Ls { path: None }), vec![Event::Buckets(buckets)]);
    assert_eq!(
        actions,
        vec![
            Action::ListBuckets(s("/")),
            Action::Print(s("2025-01-01T00:00:00.000Z\talpha")),
            Action::Print(s("2025-06-15T12:00:00.000Z\tbravo")),
        ]
    );
}

#[test]
fn given_objects_exist_when_ls_bucket_then_lists_objects() {
    let objects = vec![
        object("file1.txt", 1024, "2025-03-01T10:00:00.000Z"),
        object("file2.txt", 2048, "2025-03-02T10:00:00.000Z"),
    ];
    let actions = drive(
        start_s3(&S3Command::Ls { path: Some(s("data")) }),
        vec![Event::Objects(objects)],
    );
    assert_eq!(
        actions,
        vec![
            Action::ListObjects(s("/data?list-type=2")),
            Action::Print(s("2025-03-01T10:00:00.000Z\t1024\tfile1.txt")),
            Action::Print(s("2025-03-02T10:00:00.000Z\t2048\tfile2.txt")),
        ]
    );
}

#[test]
fn given_objects_with_prefix_when_ls_with_prefix_then_filters() {
    let objects = vec![object("logs/app.log", 512, "2025-04-01T08:00:00.000Z")];
    let actions = drive(
        start_s3(&S3Command::Ls { path: Some(s("data/logs/")) }),
        vec![Event::Objects(objects)],
    );
    match &actions[0] {
        Action::ListObjects(path) => {
            assert!(path.contains("list-type=2"));
            assert!(path.contains("prefix=logs/"));
            assert_eq!(path, "/data?list-type=2&prefix=logs/");
        }
        other => panic!("unexpected action {:?}", other),
    }
    assert_eq!(actions[1], Action::Print(s("2025-04-01T08:00:00.000Z\t512\tlogs/app.log")));
}

#[test]
fn rb_force_deletes_every_listed_object_before_the_bucket() {
    let objects = vec![object("a.txt", 1, "t1"), object("dir/b.txt", 2, "t2")];
    let actions = drive(
        start_s3(&S3Command::Rb { bucket: s("full"), force: true }),
        vec![Event::Objects(objects)],
    );
    assert_eq!(
        actions,
        vec![
            Action::ListObjects(s("/full?list-type=2")),
            Action::Delete(s("/full/a.txt")),
            Action::Delete(s("/full/dir/b.txt")),
            Action::Delete(s("/full")),
            Action::Print(s("Bucket removed: full")),
        ]
    );
}

#[test]
fn rb_force_on_empty_bucket_only_removes_the_bucket() {
    let actions = drive(
        start_s3(&S3Command::Rb { bucket: s("empty"), force: true }),
        vec![Event::Objects(vec![])],
    );
    assert_eq!(
        actions,
        vec![
            Action::ListObjects(s("/empty?list-type=2")),
            Action::Delete(s("/empty")),
            Action::Print(s("Bucket removed: empty")),
        ]
    );
}

#[test]
fn ls_with_empty_listing_prints_nothing() {
    let actions = drive(start_s3(&S3Command::Ls { path: None }), vec![Event::Buckets(vec![])]);
    assert_eq!(actions, vec![Action::ListBuckets(s("/"))]);
}

#[test]
fn ls_with_trailing_slash_only_lists_whole_bucket() {
    let actions = drive(
        start_s3(&S3Command::Ls { path: Some(s("data/")) }),
        vec![Event::Objects(vec![])],
    );
    assert_eq!(actions, vec![Action::ListObjects(s("/data?list-type=2"))]);
}

#[test]
fn mb_with_empty_region_writes_self_closed_constraint() {
    let actions = drive(
        start_s3(&S3Command::Mb { bucket: s("b"), region: s("") }),
        vec![],
    );
    assert_eq!(
        actions[0],
        Action::Put(
            s("/b"),
            b"<CreateBucketConfiguration><LocationConstraint/></CreateBucketConfiguration>".to_vec()
        )
    );
}

#[test]
fn mb_refused_put_ends_without_created_line() {
    let refusal = Client::refusal(409, s("BucketAlreadyExists"));
    let (performed, end) = run_with(
        Runner::start_s3(&S3Command::Mb { bucket: s("taken"), region: s("us-east-1") }),
        vec![Outcome::Failed(refusal)],
    );
    assert_eq!(performed, vec![Action::Put(s("/taken"), vec![])]);
    assert_eq!(end, Some(Err(Error::Api(409, s("BucketAlreadyExists")))));
}

#[test]
fn mb_success_ends_ok() {
    let (performed, end) = run_with(
        Runner::start_s3(&S3Command::Mb { bucket: s("b"), region: s("us-east-1") }),
        vec![Outcome::Completed, Outcome::Completed],
    );
    assert_eq!(performed, vec![Action::Put(s("/b"), vec![]), Action::Print(s("Bucket created: b"))]);
    assert_eq!(end, Some(Ok(())));
}

#[test]
fn ls_unparsable_listing_prints_nothing() {
    let (performed, end) = run_with(
        Runner::start_s3(&S3Command::Ls { path: Some(s("data")) }),
        vec![Outcome::Failed(Error::Xml(s("bad document")))],
    );
    assert_eq!(performed, vec![Action::ListObjects(s("/data?list-type=2"))]);
    assert_eq!(end, Some(Err(Error::Xml(s("bad document")))));
}

#[test]
fn ls_buckets_failed_request_prints_nothing() {
    let (performed, end) = run_with(
        Runner::start_s3(&S3Command::Ls { path: None }),
        vec![Outcome::Failed(Error::Http(s("connection refused")))],
    );
    assert_eq!(performed, vec![Action::ListBuckets(s("/"))]);
    assert_eq!(end, Some(Err(Error::Http(s("connection refused")))));
}

#[test]
fn ls_buckets_run_prints_each_then_ends_ok() {
    let buckets = vec![BucketInfo { name: s("a"), creation_date: s("d") }];
    let (performed, end) = run_with(
        Runner::start_s3(&S3Command::Ls { path: None }),
        vec![Outcome::Produced(Event::Buckets(buckets)), Outcome::Completed],
    );
    assert_eq!(performed, vec![Action::ListBuckets(s("/")), Action::Print(s("d\ta"))]);
    assert_eq!(end, Some(Ok(())));
}

#[test]
fn rb_force_failed_object_delete_never_deletes_bucket() {
    let objects = vec![object("a", 1, "t"), object("b", 1, "t"), object("c", 1, "t")];
    let (performed, end) = run_with(
        Runner::start_s3(&S3Command::Rb { bucket: s("full"), force: true }),
        vec![
            Outcome::Produced(Event::Objects(objects)),
            Outcome::Completed,
            Outcome::Failed(Error::Api(403, s("AccessDenied"))),
        ],
    );
    assert_eq!(
        performed,
        vec![
            Action::ListObjects(s("/full?list-type=2")),
            Action::Delete(s("/full/a")),
            Action::Delete(s("/full/b")),
        ]
    );
    assert!(!performed.contains(&Action::Delete(s("/full"))));
    assert_eq!(end, Some(Err(Error::Api(403, s("AccessDenied")))));
}

#[test]
fn rb_force_failed_listing_deletes_nothing() {
    let (performed, end) = run_with(
        Runner::start_s3(&S3Command::Rb { bucket: s("full"), force: true }),
        vec![Outcome::Failed(Error::Api(404, s("NoSuchBucket")))],
    );
    assert_eq!(performed, vec![Action::ListObjects(s("/full?list-type=2"))]);
    assert_eq!(end, Some(Err(Error::Api(404, s("NoSuchBucket")))));
}

#[test]
fn rb_force_full_run_ends_ok() {
    let objects = vec![object("a", 1, "t")];
    let (performed, end) = run_with(
        Runner::start_s3(&S3Command::Rb { bucket: s("full"), force: true }),
        vec![
            Outcome::Produced(Event::Objects(objects)),
            Outcome::Completed,
            Outcome::Completed,
            Outcome::Completed,
        ],
    );
    assert_eq!(
        performed,
        vec![
            Action::ListObjects(s("/full?list-type=2")),
            Action::Delete(s("/full/a")),
            Action::Delete(s("/full")),
            Action::Print(s("Bucket removed: full")),
        ]
    );
    assert_eq!(end, Some(Ok(())));
}

#[test]
fn runner_rejects_outcomes_of_the_wrong_kind() {
    let (runner, step) = Runner::start_s3(&S3Command::Ls { path: None });
    assert_eq!(step, Step::Perform(Action::ListBuckets(s("/"))));
    assert!(!runner.accepts(&Outcome::Completed));
    assert!(!runner.accepts(&Outcome::Produced(Event::Objects(vec![]))));
    assert!(runner.accepts(&Outcome::Produced(Event::Buckets(vec![]))));
    assert!(runner.accepts(&Outcome::Failed(Error::Io(s("x")))));
    let (runner, step) = runner.next(Outcome::Produced(Event::Buckets(vec![])));
    assert_eq!(step, Step::Finish(Ok(())));
    assert!(!runner.accepts(&Outcome::Completed));
}
