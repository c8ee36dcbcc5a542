use context_agent::agent::Agent;
use context_agent::loader::{ReadOutcome, SourceDocument};
use context_agent::pipeline::{assemble, conclude, FatalError};
use rig::providers::openai::{Client, CompletionModel, GPT_4O};

fn model() -> CompletionModel {
    Client::new("test-key").completion_model(GPT_4O)
}

fn loaded(path: &str, content: &str) -> ReadOutcome {
    ReadOutcome::Loaded(SourceDocument { path: path.to_string(), content: content.to_string() })
}

fn context(agent: &Agent) -> Vec<String> {
    let runtime = tokio::runtime::Runtime::new().unwrap();
    let request = runtime
        .block_on(rig::completion::Completion::completion(&agent.inner, "question", vec![]))
        .unwrap()
        .build();
    request.documents.into_iter().map(|d| d.text).collect()
}

fn assembled(discovery: Result<Vec<ReadOutcome>, String>) -> Agent {
    match assemble(model(), discovery) {
        Ok(agent) => agent,
        Err(error) => panic!("no agent: {:?}", error),
    }
}

#[test]
fn assemble_has_one_entry_per_file_that_was_read() {
    let agent = assembled(Ok(vec![
        loaded("a.rs", "A"),
        loaded("b.rs", "B"),
        loaded("c.rs", "C"),
        loaded("d.rs", "D"),
    ]));
    assert_eq!(
        context(&agent),
        vec![
            "Rust Example \"a.rs\":\nA".to_string(),
            "Rust Example \"b.rs\":\nB".to_string(),
            "Rust Example \"c.rs\":\nC".to_string(),
            "Rust Example \"d.rs\":\nD".to_string(),
        ]
    );
}

#[test]
fn assemble_passes_over_the_one_file_of_three_that_failed() {
    let agent = assembled(Ok(vec![
        loaded("first.rs", "1"),
        ReadOutcome::Failed,
        loaded("third.rs", "3"),
    ]));
    assert_eq!(
        context(&agent),
        vec![
            "Rust Example \"first.rs\":\n1".to_string(),
            "Rust Example \"third.rs\":\n3".to_string(),
        ]
    );
}

#[test]
fn assemble_with_no_match_gives_an_agent_without_context() {
    let agent = assembled(Ok(Vec::new()));
    assert!(context(&agent).is_empty());
}

#[test]
fn assemble_with_failures_only_gives_an_agent_without_context() {
    let agent = assembled(Ok(vec![ReadOutcome::Failed, ReadOutcome::Failed, ReadOutcome::Failed]));
    assert!(context(&agent).is_empty());
}

#[test]
fn assemble_reports_a_rejected_pattern() {
    let outcome = assemble(model(), Err("Pattern error: wildcards are either regular `*` or recursive `**`".to_string()));
    match outcome {
        Ok(_) => panic!("an agent was built from a rejected pattern"),
        Err(error) => assert_eq!(
            error,
            FatalError::InvalidPattern(
                "Pattern error: wildcards are either regular `*` or recursive `**`".to_string()
            )
        ),
    }
}

#[test]
fn assemble_twice_gives_the_same_context() {
    let snapshot = vec![
        loaded("start.rs", "fn start() {}\n"),
        ReadOutcome::Failed,
        loaded("stop.rs", "fn stop() {}\n"),
    ];
    let first = assembled(Ok(snapshot.clone()));
    let second = assembled(Ok(snapshot));
    let first_context = context(&first);
    assert_eq!(first_context.len(), 2);
    assert_eq!(first_context, context(&second));
}

#[test]
fn assemble_follows_the_order_of_discovery() {
    let forward = assembled(Ok(vec![loaded("a.rs", "A"), loaded("b.rs", "B")]));
    let backward = assembled(Ok(vec![loaded("b.rs", "B"), loaded("a.rs", "A")]));
    let mut reversed = context(&backward);
    reversed.reverse();
    assert_eq!(context(&forward), reversed);
    assert_ne!(context(&forward), context(&backward));
}

#[test]
fn conclude_hands_the_response_on() {
    let outcome = conclude(Ok("Use stop_container from container_management.rs.\n".to_string()));
    assert_eq!(outcome, Ok("Use stop_container from container_management.rs.\n".to_string()));
}

#[test]
fn conclude_hands_an_empty_response_on() {
    assert_eq!(conclude(Ok(String::new())), Ok(String::new()));
}

#[test]
fn conclude_turns_a_client_failure_into_a_fatal_error() {
    let outcome = conclude(Err("CompletionError: HttpError: connection refused".to_string()));
    assert_eq!(
        outcome,
        Err(FatalError::Completion("CompletionError: HttpError: connection refused".to_string()))
    );
    assert!(outcome.ok().is_none());
}

#[test]
fn description_of_a_rejected_pattern() {
    let error = FatalError::InvalidPattern("bad pattern".to_string());
    assert_eq!(error.description(), "bad pattern");
}

#[test]
fn description_of_a_failed_completion() {
    let error = FatalError::Completion("no route to host".to_string());
    assert_eq!(error.description(), "no route to host");
}
