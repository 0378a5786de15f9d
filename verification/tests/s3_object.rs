use awrust_cli::client::Client;
use awrust_cli::error::Error;
use awrust_cli::runner::{Outcome, Runner, Step};
use awrust_cli::s3::{ObjectInfo, S3Command};
use awrust_cli::session::{fits, resume, start_s3, Action, Event, Resume, Stage};

fn run_to_end(mut stage: Stage, events: Vec<Event>) -> Vec<Action> {
    let mut performed = Vec::new();
    let mut events = events.into_iter();
    loop {
        match stage {
            Stage::Run(actions) => {
                performed.extend(actions);
                return performed;
            }
            Stage::Await(action, k) => {
                performed.push(action);
                let event = events.next().expect("an outcome for every wait");
                assert!(fits(&k, &event));
                stage = resume(k, event);
            }
        }
    }
}

fn run_with_outcomes(start: (Runner, Step), outcomes: Vec<Outcome>) -> (Vec<Action>, Option<Result<(), Error>>) {
    let (mut runner, mut step) = start;
    let mut performed = Vec::new();
    let mut outcomes = outcomes.into_iter();
    loop {
        match step {
            Step::Finish(result) => return (performed, Some(result)),
            Step::Perform(action) => {
                performed.push(action);
                match outcomes.next() {
                    None => return (performed, None),
                    Some(outcome) => {
                        assert!(runner.accepts(&outcome));
                        let (r, st) = runner.next(outcome);
                        runner = r;
                        step = st;
                    }
                }
            }
        }
    }
}

fn s(text: &str) -> String {
    text.to_string()
}

#[test]
fn given_local_file_when_cp_to_s3_then_uploads() {
    let actions = run_to_end(
        start_s3(&S3Command::Cp { source: s("/tmp/dir/upload.txt"), dest: s("my-bucket/my-key.txt") }),
        vec![Event::Exists(true), Event::Bytes(b"hello awrust".to_vec())],
    );
    assert_eq!(
        actions,
        vec![
            Action::LocalExists(s("/tmp/dir/upload.txt")),
            Action::ReadLocal(s("/tmp/dir/upload.txt")),
            Action::Put(s("/my-bucket/my-key.txt"), b"hello awrust".to_vec()),
            Action::Print(s("Uploaded: /tmp/dir/upload.txt -> my-bucket/my-key.txt")),
        ]
    );
}

#[test]
fn given_s3_object_when_cp_to_local_then_downloads() {
    let actions = run_to_end(
        start_s3(&S3Command::Cp { source: s("my-bucket/remote.txt"), dest: s("/tmp/dir/local.txt") }),
        vec![Event::Exists(false), Event::Bytes(b"downloaded content".to_vec())],
    );
    assert_eq!(
        actions,
        vec![
            Action::LocalExists(s("my-bucket/remote.txt")),
            Action::GetBytes(s("/my-bucket/remote.txt")),
            Action::WriteLocal(s("/tmp/dir/local.txt"), b"downloaded content".to_vec()),
            Action::Print(s("Downloaded: my-bucket/remote.txt -> /tmp/dir/local.txt")),
        ]
    );
}

#[test]
fn given_s3_object_when_rm_then_deletes() {
    let actions = run_to_end(
        start_s3(&S3Command::Rm { path: s("my-bucket/trash.txt"), recursive: false }),
        vec![],
    );
    assert_eq!(
        actions,
        vec![
            Action::Delete(s("/my-bucket/trash.txt")),
            Action::Print(s("Deleted: my-bucket/trash.txt")),
        ]
    );
}

#[test]
fn given_nonexistent_object_when_rm_then_exits_with_error() {
    assert!(!Client::is_success(404));
    let refusal = Client::refusal(404, s("NoSuchKey"));
    let (performed, end) = run_with_outcomes(
        Runner::start_s3(&S3Command::Rm { path: s("my-bucket/ghost.txt"), recursive: false }),
        vec![Outcome::Failed(refusal)],
    );
    assert_eq!(performed, vec![Action::Delete(s("/my-bucket/ghost.txt"))]);
    let error = end.unwrap().unwrap_err();
    assert_eq!(error, Error::Api(404, s("NoSuchKey")));
    assert!(error.message().contains("404"));
}

#[test]
fn given_binary_file_when_cp_roundtrip_then_preserves_content() {
    let binary_data: Vec<u8> = (0..=255).collect();
    let actions = run_to_end(
        start_s3(&S3Command::Cp { source: s("data.bin"), dest: s("bin-bucket/data.bin") }),
        vec![Event::Exists(true), Event::Bytes(binary_data.clone())],
    );
    assert_eq!(actions[2], Action::Put(s("/bin-bucket/data.bin"), binary_data));
}

#[test]
fn rm_recursive_deletes_and_reports_each_object_of_the_bucket() {
    let objects = vec![
        ObjectInfo { key: s("x"), size: 1, last_modified: s("t") },
        ObjectInfo { key: s("y/z"), size: 2, last_modified: s("t") },
    ];
    let actions = run_to_end(
        start_s3(&S3Command::Rm { path: s("bkt/ignored/prefix"), recursive: true }),
        vec![Event::Objects(objects)],
    );
    assert_eq!(
        actions,
        vec![
            Action::ListObjects(s("/bkt?list-type=2")),
            Action::Delete(s("/bkt/x")),
            Action::Print(s("Deleted: bkt/x")),
            Action::Delete(s("/bkt/y/z")),
            Action::Print(s("Deleted: bkt/y/z")),
        ]
    );
}

#[test]
fn rm_without_slash_deletes_key_less_object() {
    let actions = run_to_end(start_s3(&S3Command::Rm { path: s("bucket"), recursive: false }), vec![]);
    assert_eq!(
        actions,
        vec![Action::Delete(s("/bucket/")), Action::Print(s("Deleted: bucket/"))]
    );
}

#[test]
fn cp_upload_to_bucket_without_key() {
    let actions = run_to_end(
        start_s3(&S3Command::Cp { source: s("f.txt"), dest: s("bucket") }),
        vec![Event::Exists(true), Event::Bytes(vec![1, 2])],
    );
    assert_eq!(actions[2], Action::Put(s("/bucket/"), vec![1, 2]));
    assert_eq!(actions[3], Action::Print(s("Uploaded: f.txt -> bucket/")));
}

#[test]
fn fits_matches_outcomes_to_waits() {
    assert!(fits(&Resume::PrintText, &Event::Text(s("x"))));
    assert!(!fits(&Resume::PrintText, &Event::Bytes(vec![])));
    assert!(fits(
        &Resume::ChooseDirection { source: s("a"), dest: s("b") },
        &Event::Exists(false)
    ));
    assert!(!fits(&Resume::PrintBuckets, &Event::Objects(vec![])));
}

#[test]
fn cp_unreadable_local_file_sends_nothing() {
    let (performed, end) = run_with_outcomes(
        Runner::start_s3(&S3Command::Cp { source: s("dir"), dest: s("b/k") }),
        vec![Outcome::Produced(Event::Exists(true)), Outcome::Failed(Error::Io(s("is a directory")))],
    );
    assert_eq!(performed, vec![Action::LocalExists(s("dir")), Action::ReadLocal(s("dir"))]);
    assert_eq!(end, Some(Err(Error::Io(s("is a directory")))));
}

#[test]
fn cp_failed_download_writes_nothing() {
    let (performed, end) = run_with_outcomes(
        Runner::start_s3(&S3Command::Cp { source: s("b/missing.txt"), dest: s("out.txt") }),
        vec![Outcome::Produced(Event::Exists(false)), Outcome::Failed(Error::Api(404, s("NoSuchKey")))],
    );
    assert_eq!(performed, vec![Action::LocalExists(s("b/missing.txt")), Action::GetBytes(s("/b/missing.txt"))]);
    assert_eq!(end, Some(Err(Error::Api(404, s("NoSuchKey")))));
}

#[test]
fn cp_upload_full_run_ends_ok() {
    let (performed, end) = run_with_outcomes(
        Runner::start_s3(&S3Command::Cp { source: s("f"), dest: s("b/k") }),
        vec![
            Outcome::Produced(Event::Exists(true)),
            Outcome::Produced(Event::Bytes(vec![7])),
            Outcome::Completed,
            Outcome::Completed,
        ],
    );
    assert_eq!(performed[2], Action::Put(s("/b/k"), vec![7]));
    assert_eq!(end, Some(Ok(())));
}

#[test]
fn rm_recursive_failed_delete_stops_remaining() {
    let objects = vec![
        ObjectInfo { key: s("x"), size: 1, last_modified: s("t") },
        ObjectInfo { key: s("y"), size: 1, last_modified: s("t") },
        ObjectInfo { key: s("z"), size: 1, last_modified: s("t") },
    ];
    let (performed, end) = run_with_outcomes(
        Runner::start_s3(&S3Command::Rm { path: s("bkt"), recursive: true }),
        vec![
            Outcome::Produced(Event::Objects(objects)),
            Outcome::Completed,
            Outcome::Completed,
            Outcome::Failed(Error::Api(500, s("InternalError"))),
        ],
    );
    assert_eq!(
        performed,
        vec![
            Action::ListObjects(s("/bkt?list-type=2")),
            Action::Delete(s("/bkt/x")),
            Action::Print(s("Deleted: bkt/x")),
            Action::Delete(s("/bkt/y")),
        ]
    );
    assert_eq!(end, Some(Err(Error::Api(500, s("InternalError")))));
}

#[test]
fn rm_recursive_failed_listing_deletes_nothing() {
    let (performed, end) = run_with_outcomes(
        Runner::start_s3(&S3Command::Rm { path: s("bkt/x"), recursive: true }),
        vec![Outcome::Failed(Error::Xml(s("unexpected end")))],
    );
    assert_eq!(performed, vec![Action::ListObjects(s("/bkt?list-type=2"))]);
    assert_eq!(end, Some(Err(Error::Xml(s("unexpected end")))));
}
