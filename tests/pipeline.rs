use program_metadata_http_service::metadata::JsonValue;
use program_metadata_http_service::output::{append_tail, has_wasm_extension, locate_artifact, STDERR_TAIL_CHARS};
use program_metadata_http_service::pipeline::{
    build_args, Action, BuildError, BuildRequestType, BuildResponse, BuildSession, ManifestOutcome, Outcome,
    OutputStream,
};
use program_metadata_http_service::service::program_record;

const RECORD: &str = "{\"name\":\"my-program\",\"version\":\"0.1.0\"}";

fn found_manifest() -> Outcome {
    Outcome::ManifestRead(ManifestOutcome::Found { record: RECORD.to_string(), metadata: JsonValue::Null })
}

fn out(which: OutputStream, bytes: &[u8]) -> Outcome {
    Outcome::OutputRead(which, Ok(bytes.to_vec()))
}

/// Feeds the outcomes to a session, collecting the events that it has sent
/// and the writes that it has asked for.
fn run(request: BuildRequestType, outcomes: Vec<Outcome>) -> (Vec<Action>, Vec<Action>, Vec<Action>) {
    let (mut session, _) = BuildSession::new(request);
    let mut actions = vec![];
    let mut events = vec![];
    let mut commits = vec![];
    for outcome in outcomes {
        assert!(session.accepts(&outcome));
        let (next, action) = session.step(outcome);
        session = next;
        match &action {
            Action::Forward(_) | Action::Report(_) => events.push(action),
            Action::Commit { .. } => commits.push(action),
            _ => actions.push(action),
        }
    }
    (actions, events, commits)
}

fn is_terminal(a: &Action) -> bool {
    matches!(a, Action::Report(_))
}

#[test]
fn git_source_is_cloned_and_archive_unpacked() {
    let (_, a) = BuildSession::new(BuildRequestType::Git { url: "https://example.org/p.git".to_string() });
    assert!(matches!(a, Action::CloneRepository { url } if url == "https://example.org/p.git"));
    let (_, a) = BuildSession::new(BuildRequestType::Tar { raw_archive: vec![1, 2] });
    assert!(matches!(a, Action::UnpackArchive { raw_archive } if raw_archive == vec![1, 2]));
}

#[test]
fn archive_without_manifest_reports_missing_root_package() {
    let (_, events, commits) = run(
        BuildRequestType::Tar { raw_archive: vec![0; 512] },
        vec![
            Outcome::Fetched(Ok(())),
            Outcome::ManifestRead(ManifestOutcome::MissingRootPackage),
            Outcome::Delivered(true),
        ],
    );
    assert_eq!(events.len(), 1);
    assert!(matches!(&events[0], Action::Report(Err(BuildError::MetadataMissingRootPackage))));
    assert!(commits.is_empty());
}

#[test]
fn unreadable_manifest_reports_parse_failure() {
    let (_, events, commits) = run(
        BuildRequestType::Tar { raw_archive: vec![] },
        vec![Outcome::Fetched(Ok(())), Outcome::ManifestRead(ManifestOutcome::Unreadable("bad toml".to_string()))],
    );
    assert!(matches!(&events[0], Action::Report(Err(BuildError::MetadataParseFailure(d))) if d == "bad toml"));
    assert!(commits.is_empty());
}

#[test]
fn failed_fetch_reports_fetch_failed_and_writes_nothing() {
    let (_, events, commits) = run(
        BuildRequestType::Git { url: "https://unreachable.invalid/x.git".to_string() },
        vec![Outcome::Fetched(Err("could not resolve host".to_string())), Outcome::Delivered(false)],
    );
    assert_eq!(events.len(), 1);
    assert!(matches!(&events[0], Action::Report(Err(BuildError::FetchFailed(d))) if d == "could not resolve host"));
    assert!(commits.is_empty());
}

#[test]
fn failed_start_reports_invocation_failure() {
    let (_, events, _) = run(
        BuildRequestType::Tar { raw_archive: vec![] },
        vec![Outcome::Fetched(Ok(())), found_manifest(), Outcome::BuildStarted(Err("no docker".to_string()))],
    );
    assert!(matches!(&events[0], Action::Report(Err(BuildError::InvocationFailed(d))) if d == "no docker"));
}

#[test]
fn successful_build_streams_then_commits_then_succeeds() {
    let binary = b"\0asm\x01\0\0\0".to_vec();
    let (actions, events, commits) = run(
        BuildRequestType::Tar { raw_archive: vec![1] },
        vec![
            Outcome::Fetched(Ok(())),
            found_manifest(),
            Outcome::BuildStarted(Ok(())),
            out(OutputStream::StdOut, b"Compiling"),
            Outcome::Delivered(true),
            out(OutputStream::StdErr, b"warning"),
            Outcome::Delivered(true),
            out(OutputStream::StdOut, b""),
            out(OutputStream::StdErr, b""),
            Outcome::Exited(Ok(true)),
            Outcome::OutputListed(Ok(vec!["notes.txt".to_string(), "my_program.wasm".to_string()])),
            Outcome::ArtifactRead(Ok(binary.clone())),
            Outcome::Committed(Ok(())),
            Outcome::Delivered(true),
        ],
    );
    assert!(matches!(&events[0], Action::Forward(BuildResponse::StdOut(t)) if t == "Compiling"));
    assert!(matches!(&events[1], Action::Forward(BuildResponse::StdErr(t)) if t == "warning"));
    assert_eq!(events.len(), 3);
    assert_eq!(events.iter().filter(|e| is_terminal(e)).count(), 1);
    assert!(matches!(actions.last(), Some(Action::Finish)));
    assert!(actions.iter().any(|a| matches!(a, Action::ReadArtifact { file_name } if file_name == "my_program.wasm")));
    assert_eq!(commits.len(), 1);
    let (committed_hash, record) = match &commits[0] {
        Action::Commit { hash, record } => (*hash, record.clone()),
        _ => unreachable!(),
    };
    match &events[2] {
        Action::Report(Ok(BuildResponse::Success { hash, binary: b, binary_filename })) => {
            assert_eq!(hash.len(), 32);
            assert_eq!(*hash, committed_hash);
            assert_eq!(*b, binary);
            assert!(!b.is_empty());
            assert!(binary_filename.ends_with(".wasm"));
        },
        _ => panic!("expected success"),
    }
    assert_eq!(record, RECORD);
    let stored = program_record(Some(record.into_bytes())).ok().unwrap();
    assert!(stored.contains("\"name\":\"my-program\""));
}

#[test]
fn failing_build_tool_reports_compilation_failure_with_stderr_tail() {
    let (_, events, commits) = run(
        BuildRequestType::Tar { raw_archive: vec![] },
        vec![
            Outcome::Fetched(Ok(())),
            found_manifest(),
            Outcome::BuildStarted(Ok(())),
            out(OutputStream::StdErr, b"error[E0425]: "),
            Outcome::Delivered(true),
            out(OutputStream::StdErr, b"cannot find value"),
            Outcome::Delivered(true),
            out(OutputStream::StdErr, b""),
            out(OutputStream::StdOut, b""),
            Outcome::Exited(Ok(false)),
            Outcome::Delivered(true),
        ],
    );
    assert!(commits.is_empty());
    assert_eq!(events.iter().filter(|e| is_terminal(e)).count(), 1);
    assert!(matches!(events.last(),
        Some(Action::Report(Err(BuildError::CompilationFailed(d)))) if d == "error[E0425]: cannot find value"));
}

#[test]
fn undelivered_chunk_stops_forwarding_but_build_goes_on() {
    let (actions, events, commits) = run(
        BuildRequestType::Tar { raw_archive: vec![] },
        vec![
            Outcome::Fetched(Ok(())),
            found_manifest(),
            Outcome::BuildStarted(Ok(())),
            out(OutputStream::StdOut, b"one"),
            Outcome::Delivered(false),
            out(OutputStream::StdOut, b"two"),
            out(OutputStream::StdErr, b"three"),
            out(OutputStream::StdOut, b""),
            out(OutputStream::StdErr, b""),
            Outcome::Exited(Ok(true)),
            Outcome::OutputListed(Ok(vec!["a.wasm".to_string()])),
            Outcome::ArtifactRead(Ok(vec![1])),
            Outcome::Committed(Ok(())),
            Outcome::Delivered(false),
        ],
    );
    assert_eq!(events.len(), 2);
    assert!(matches!(&events[0], Action::Forward(BuildResponse::StdOut(t)) if t == "one"));
    assert!(matches!(&events[1], Action::Report(Ok(BuildResponse::Success { .. }))));
    assert_eq!(commits.len(), 1);
    assert!(matches!(actions.last(), Some(Action::Finish)));
}

#[test]
fn malformed_utf8_chunk_is_dropped() {
    let (actions, events, _) = run(
        BuildRequestType::Tar { raw_archive: vec![] },
        vec![
            Outcome::Fetched(Ok(())),
            found_manifest(),
            Outcome::BuildStarted(Ok(())),
            out(OutputStream::StdOut, &[0xe2, 0x82]),
            out(OutputStream::StdOut, "é".as_bytes()),
            Outcome::Delivered(true),
        ],
    );
    assert_eq!(events.len(), 1);
    assert!(matches!(&events[0], Action::Forward(BuildResponse::StdOut(t)) if t == "é"));
    assert!(matches!(actions.last(), Some(Action::ReadOutput { stdout: true, stderr: true })));
}

#[test]
fn closing_streams_one_by_one() {
    let (actions, _, _) = run(
        BuildRequestType::Tar { raw_archive: vec![] },
        vec![
            Outcome::Fetched(Ok(())),
            found_manifest(),
            Outcome::BuildStarted(Ok(())),
            out(OutputStream::StdOut, b""),
            out(OutputStream::StdErr, b""),
        ],
    );
    let n = actions.len();
    assert!(matches!(actions[n - 2], Action::ReadOutput { stdout: false, stderr: true }));
    assert!(matches!(actions[n - 1], Action::AwaitExit));
}

#[test]
fn failed_read_ends_that_stream_only() {
    let (actions, events, _) = run(
        BuildRequestType::Tar { raw_archive: vec![] },
        vec![
            Outcome::Fetched(Ok(())),
            found_manifest(),
            Outcome::BuildStarted(Ok(())),
            Outcome::OutputRead(OutputStream::StdErr, Err("broken pipe".to_string())),
            out(OutputStream::StdOut, b"still here"),
            Outcome::Delivered(true),
            out(OutputStream::StdOut, b""),
        ],
    );
    assert_eq!(events.len(), 1);
    assert!(matches!(&events[0], Action::Forward(BuildResponse::StdOut(t)) if t == "still here"));
    let n = actions.len();
    assert!(matches!(actions[n - 3], Action::ReadOutput { stdout: true, stderr: false }));
    assert!(matches!(actions[n - 1], Action::AwaitExit));
}

#[test]
fn failed_wait_stops_the_tool_before_reporting() {
    let (actions, events, commits) = run(
        BuildRequestType::Tar { raw_archive: vec![] },
        vec![
            Outcome::Fetched(Ok(())),
            found_manifest(),
            Outcome::BuildStarted(Ok(())),
            out(OutputStream::StdOut, b""),
            out(OutputStream::StdErr, b""),
            Outcome::Exited(Err("interrupted".to_string())),
            Outcome::Stopped,
        ],
    );
    assert!(matches!(actions.last(), Some(Action::StopBuild)));
    assert_eq!(events.len(), 1);
    assert!(matches!(&events[0], Action::Report(Err(BuildError::InvocationFailed(d))) if d == "interrupted"));
    assert!(commits.is_empty());
}

fn until_listing(listing: Result<Vec<String>, String>) -> Vec<Action> {
    let (_, events, commits) = run(
        BuildRequestType::Tar { raw_archive: vec![] },
        vec![
            Outcome::Fetched(Ok(())),
            found_manifest(),
            Outcome::BuildStarted(Ok(())),
            out(OutputStream::StdOut, b""),
            out(OutputStream::StdErr, b""),
            Outcome::Exited(Ok(true)),
            Outcome::OutputListed(listing),
        ],
    );
    assert!(commits.is_empty());
    events
}

#[test]
fn missing_or_ambiguous_artifact_is_not_found() {
    for listing in [
        Ok(vec![]),
        Ok(vec!["readme.md".to_string(), ".wasm".to_string()]),
        Ok(vec!["a.wasm".to_string(), "b.wasm".to_string()]),
        Err("no such directory".to_string()),
    ] {
        let events = until_listing(listing);
        assert!(matches!(&events[0], Action::Report(Err(BuildError::ArtifactNotFound))));
    }
}

#[test]
fn storage_failure_is_reported() {
    let (_, events, commits) = run(
        BuildRequestType::Tar { raw_archive: vec![] },
        vec![
            Outcome::Fetched(Ok(())),
            found_manifest(),
            Outcome::BuildStarted(Ok(())),
            out(OutputStream::StdOut, b""),
            out(OutputStream::StdErr, b""),
            Outcome::Exited(Ok(true)),
            Outcome::OutputListed(Ok(vec!["p.wasm".to_string()])),
            Outcome::ArtifactRead(Ok(vec![7])),
            Outcome::Committed(Err("disk full".to_string())),
        ],
    );
    assert_eq!(commits.len(), 1);
    assert!(matches!(&events[0], Action::Report(Err(BuildError::StorageFailure(d))) if d == "disk full"));
}

#[test]
fn session_takes_only_the_outcome_it_asked_for() {
    let (s, _) = BuildSession::new(BuildRequestType::Tar { raw_archive: vec![] });
    assert!(s.accepts(&Outcome::Fetched(Ok(()))));
    assert!(!s.accepts(&Outcome::Delivered(true)));
    assert!(!s.accepts(&Outcome::Committed(Ok(()))));
}

#[test]
fn build_image_is_passed_as_build_argument() {
    assert!(build_args(&None).is_empty());
    assert_eq!(build_args(&Some("img:1".to_string())), vec!["--build-arg".to_string(), "IMAGE=img:1".to_string()]);
}

#[test]
fn wasm_extension_needs_a_stem() {
    assert!(has_wasm_extension(&"p.wasm".to_string()));
    assert!(has_wasm_extension(&"..wasm".to_string()));
    assert!(!has_wasm_extension(&".wasm".to_string()));
    assert!(!has_wasm_extension(&"p.wasm.txt".to_string()));
    assert!(!has_wasm_extension(&"pwasm".to_string()));
    assert_eq!(locate_artifact(&vec!["x".to_string(), "y.wasm".to_string()]), Some(1));
    assert_eq!(locate_artifact(&vec!["x.wasm".to_string(), "y.wasm".to_string()]), None);
}

#[test]
fn stderr_tail_keeps_the_last_characters() {
    let long = "x".repeat(STDERR_TAIL_CHARS);
    let t = append_tail(&long, &"end".to_string());
    assert_eq!(t.chars().count(), STDERR_TAIL_CHARS);
    assert!(t.ends_with("xend"));
    assert_eq!(append_tail(&"ab".to_string(), &"é".to_string()), "abé");
}

#[test]
fn compilation_failure_keeps_only_the_tail_of_long_error_output() {
    let first = "a".repeat(1500);
    let second = "b".repeat(1000);
    let (_, events, _) = run(
        BuildRequestType::Tar { raw_archive: vec![] },
        vec![
            Outcome::Fetched(Ok(())),
            found_manifest(),
            Outcome::BuildStarted(Ok(())),
            out(OutputStream::StdErr, first.as_bytes()),
            Outcome::Delivered(false),
            out(OutputStream::StdErr, second.as_bytes()),
            out(OutputStream::StdErr, &[0xff]),
            out(OutputStream::StdOut, b"ignored in the tail"),
            out(OutputStream::StdErr, b""),
            out(OutputStream::StdOut, b""),
            Outcome::Exited(Ok(false)),
        ],
    );
    let expected = format!("{}{}", "a".repeat(1000), second);
    assert!(matches!(events.last(), Some(Action::Report(Err(BuildError::CompilationFailed(d)))) if *d == expected));
    assert_eq!(events.len(), 2);
}
