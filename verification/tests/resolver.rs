use robot_fleet::dispatcher::dispatch;
use robot_fleet::registry::{MemoryRegistry, RegistryError, WriteOutcome};
use robot_fleet::resolver::{
    conclude_resolve, conclude_status_write, mark_worker_status, resolve_workflow, status_write,
    CompletionSignal, EngineReply, Outcome, ResolveError,
};
use robot_fleet::status::WorkerStatus;

fn signal(token: &str, outcome: Outcome) -> CompletionSignal {
    CompletionSignal {
        continuation_token: token.to_string(),
        outcome,
    }
}

#[test]
fn success_signal_becomes_a_success_call() {
    let call = resolve_workflow(&signal("tok-123", Outcome::Success)).unwrap();
    assert_eq!(call.task_token, "tok-123");
    assert_eq!(call.output, "{\"info\":\"Successfully made smoothie!\"}");
}

#[test]
fn success_output_is_a_json_object_with_an_info_line() {
    let call = resolve_workflow(&signal("t", Outcome::Success)).unwrap();
    let value: serde_json::Value = serde_json::from_str(&call.output).unwrap();
    assert_eq!(value.as_object().unwrap().len(), 1);
    assert_eq!(value["info"].as_str(), Some("Successfully made smoothie!"));
}

#[test]
fn failure_signal_makes_no_call() {
    assert_eq!(
        resolve_workflow(&signal("tok-123", Outcome::Failure)).unwrap_err(),
        ResolveError::TaskFailed
    );
}

#[test]
fn duplicate_signal_is_forwarded_again() {
    let completion = signal("tok-123", Outcome::Success);
    let first = resolve_workflow(&completion).unwrap();
    let second = resolve_workflow(&completion).unwrap();
    assert_eq!(first.task_token, second.task_token);
    assert_eq!(first.output, second.output);
}

#[test]
fn conclude_resolve_on_each_answer() {
    assert_eq!(conclude_resolve(EngineReply::Accepted), Ok(()));
    assert_eq!(
        conclude_resolve(EngineReply::Rejected),
        Err(ResolveError::Rejected)
    );
}

#[test]
fn token_survives_dispatch_and_completion() {
    let token = "AQCEAAAAKgAAAAMAAAAAAAAAAd\"\\/\u{8}\u{c}\n\r\t+/=\u{1F34C}";
    for outcome in [Outcome::Success, Outcome::Failure] {
        let publication = dispatch("alpha", token, "mango").unwrap();

        // The worker reads the token out of the message and sends it back.
        let received: serde_json::Value = serde_json::from_str(&publication.body).unwrap();
        let returned = received["taskToken"].as_str().unwrap().to_string();
        assert_eq!(returned, token);
        assert_eq!(publication.envelope.continuation_token, token);

        let resolved = resolve_workflow(&signal(&returned, outcome));
        match outcome {
            Outcome::Success => assert_eq!(resolved.unwrap().task_token, token),
            Outcome::Failure => assert_eq!(resolved.unwrap_err(), ResolveError::TaskFailed),
        }
    }
}

#[test]
fn status_write_is_unconditional() {
    let write = status_write("alpha", WorkerStatus::Faulted);
    assert_eq!(write.worker, "alpha");
    assert_eq!(write.expected, None);
    assert_eq!(write.status, WorkerStatus::Faulted);
}

#[test]
fn conclude_status_write_on_each_answer() {
    assert_eq!(conclude_status_write(WriteOutcome::Applied), Ok(()));
    assert_eq!(
        conclude_status_write(WriteOutcome::ConflictOrMissing),
        Err(RegistryError::WriteRefused)
    );
    assert_eq!(
        conclude_status_write(WriteOutcome::StoreFailed),
        Err(RegistryError::WriteFailed)
    );
}

#[test]
fn mark_worker_status_sets_each_status() {
    let mut registry = MemoryRegistry::new();
    registry.provision("alpha", WorkerStatus::Busy);
    registry.provision("beta", WorkerStatus::Busy);

    assert_eq!(mark_worker_status(&mut registry, "alpha", WorkerStatus::Idle), Ok(()));
    assert_eq!(registry.status_of("alpha"), Some(WorkerStatus::Idle));
    assert_eq!(registry.status_of("beta"), Some(WorkerStatus::Busy));

    assert_eq!(mark_worker_status(&mut registry, "alpha", WorkerStatus::Faulted), Ok(()));
    assert_eq!(registry.status_of("alpha"), Some(WorkerStatus::Faulted));
    assert_eq!(registry.status_of("beta"), Some(WorkerStatus::Busy));

    assert_eq!(mark_worker_status(&mut registry, "alpha", WorkerStatus::Busy), Ok(()));
    assert_eq!(registry.status_of("alpha"), Some(WorkerStatus::Busy));
}

#[test]
fn mark_worker_status_returns_a_faulted_worker_to_service() {
    let mut registry = MemoryRegistry::new();
    registry.provision("alpha", WorkerStatus::Faulted);
    assert_eq!(mark_worker_status(&mut registry, "alpha", WorkerStatus::Idle), Ok(()));
    assert_eq!(registry.status_of("alpha"), Some(WorkerStatus::Idle));
}

#[test]
fn mark_worker_status_creates_no_worker() {
    let mut registry = MemoryRegistry::new();
    registry.provision("alpha", WorkerStatus::Busy);
    assert_eq!(
        mark_worker_status(&mut registry, "omega", WorkerStatus::Idle),
        Err(RegistryError::WriteRefused)
    );
    assert_eq!(registry.status_of("omega"), None);
    assert_eq!(registry.status_of("alpha"), Some(WorkerStatus::Busy));
}
