use awrust_cli::client::Client;
use awrust_cli::error::Error;
use awrust_cli::runner::{Outcome, Runner, Step};
use awrust_cli::session::{resume, Action, Event, Resume, Stage};
use awrust_cli::status::{health_path, start};

#[test]
fn given_healthy_service_when_status_then_displays_response() {
    let stage = start();
    assert_eq!(stage, Stage::Await(Action::GetText("/health".to_string()), Resume::PrintText));
    assert!(Client::is_success(200));
    let next = resume(Resume::PrintText, Event::Text("all systems operational".to_string()));
    assert_eq!(next, Stage::Run(vec![Action::Print("all systems operational".to_string())]));
}

#[test]
fn given_unhealthy_service_when_status_then_exits_with_error() {
    assert!(!Client::is_success(503));
    let (runner, step) = Runner::start_status();
    assert_eq!(step, Step::Perform(Action::GetText("/health".to_string())));
    let refusal = Client::refusal(503, "service degraded".to_string());
    let (runner, step) = runner.next(Outcome::Failed(refusal));
    assert!(!runner.accepts(&Outcome::Completed));
    match step {
        Step::Finish(Err(error)) => {
            assert_eq!(error, Error::Api(503, "service degraded".to_string()));
            assert!(error.message().contains("503"));
            assert_eq!(error.message(), "503: service degraded");
        }
        other => panic!("unexpected step {:?}", other),
    }
}

#[test]
fn healthy_status_run_prints_body_then_ends_ok() {
    let (runner, _) = Runner::start_status();
    let (runner, step) = runner.next(Outcome::Produced(Event::Text("ok".to_string())));
    assert_eq!(step, Step::Perform(Action::Print("ok".to_string())));
    let (_, step) = runner.next(Outcome::Completed);
    assert_eq!(step, Step::Finish(Ok(())));
}

#[test]
fn health_path_is_fixed() {
    assert_eq!(health_path(), "/health");
}
