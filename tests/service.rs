use charms::auth::{authorize, chars_of, credential_of, token_from_config, trim_from};
use charms::failure::{
    classify, contains_bytes, is_transient_message, status_for, status_for_message, Failure,
    FailureClass, Stage, TRANSIENT_PROVER_FAILURE,
};
use charms::mode::{is_supported, ProofMode};
use charms::pipeline::{Action, Pipeline, StageOutcome};
use charms::server::{liveness, response_status, Server, ServerConfig, UNAUTHORIZED};

fn config(token: Option<&str>) -> ServerConfig {
    ServerConfig {
        ip: "0.0.0.0".to_string(),
        port: 17784,
        auth_token: token.map(|t| t.to_string()),
    }
}

/// Drives the pipeline with the given outcomes; returns every action asked for.
fn run(mode: ProofMode, outcomes: &[StageOutcome]) -> Result<Vec<Action>, Failure> {
    let (mut p, first) = Pipeline::start(mode)?;
    let mut actions = vec![first];
    for o in outcomes {
        match actions.last() {
            Some(Action::Run(_)) => actions.push(p.step(*o)),
            _ => break,
        }
    }
    Ok(actions)
}

fn chars(s: &str) -> Vec<char> {
    s.chars().collect()
}

fn done(cycles: u64) -> StageOutcome {
    StageOutcome::Done { cycles }
}

#[test]
fn compressed_run_reports_core_cycles() {
    let acts = run(ProofMode::Compressed, &[done(0), done(1234), done(0)]).unwrap();
    assert_eq!(
        acts,
        vec![
            Action::Run(Stage::Ready),
            Action::Run(Stage::Core),
            Action::Run(Stage::Compress),
            Action::Finish { mode: ProofMode::Compressed, cycles: 1234 },
        ]
    );
}

#[test]
fn groth16_run_reports_zero_cycles() {
    let outs = [done(0), done(987), done(0), done(0), done(0), done(0)];
    let acts = run(ProofMode::Groth16, &outs).unwrap();
    assert_eq!(acts.len(), 7);
    assert_eq!(acts[3], Action::Run(Stage::Shrink));
    assert_eq!(acts[4], Action::Run(Stage::Wrap));
    assert_eq!(acts[5], Action::Run(Stage::Groth16Wrap));
    assert_eq!(acts[6], Action::Finish { mode: ProofMode::Groth16, cycles: 0 });
}

#[test]
fn unsupported_modes_are_refused_permanently() {
    for m in [ProofMode::Core, ProofMode::Plonk] {
        assert!(!is_supported(m));
        assert_eq!(Pipeline::start(m).unwrap_err(), Failure::UnsupportedMode);
    }
    assert_eq!(classify(Failure::UnsupportedMode), FailureClass::Permanent);
    assert_eq!(response_status::<Vec<String>>(&Err(Failure::UnsupportedMode)), 400);
}

#[test]
fn readiness_failure_stops_before_core() {
    let acts = run(ProofMode::Groth16, &[StageOutcome::Failed, done(5), done(5)]).unwrap();
    assert_eq!(
        acts,
        vec![Action::Run(Stage::Ready), Action::Fail(Failure::BackendNotReady)]
    );
    assert_eq!(classify(Failure::BackendNotReady), FailureClass::Transient);
    assert_eq!(response_status::<Vec<String>>(&Err(Failure::BackendNotReady)), 500);
}

#[test]
fn stage_failure_is_transient() {
    let acts = run(ProofMode::Groth16, &[done(0), done(3), done(0), StageOutcome::Failed]).unwrap();
    assert_eq!(acts.last(), Some(&Action::Fail(Failure::StageFailed(Stage::Shrink))));
    assert_eq!(classify(Failure::StageFailed(Stage::Shrink)), FailureClass::Transient);
    assert_eq!(classify(Failure::InvalidRequest), FailureClass::Permanent);
}

#[test]
fn status_codes() {
    assert_eq!(status_for(FailureClass::Transient), 500);
    assert_eq!(status_for(FailureClass::Permanent), 400);
    assert_eq!(response_status::<u8>(&Ok(1)), 200);
    assert_eq!(UNAUTHORIZED, 401);
}

#[test]
fn marker_in_message_selects_status() {
    let msg = format!("{}: CUDA: device lost", TRANSIENT_PROVER_FAILURE);
    assert!(is_transient_message(&msg));
    assert_eq!(status_for_message(&msg), 500);
    assert!(!is_transient_message("invalid spell: bad input"));
    assert_eq!(status_for_message("invalid spell: bad input"), 400);
    assert_eq!(status_for_message(""), 400);
}

#[test]
fn byte_search() {
    assert!(contains_bytes(b"abcabd", b"abd"));
    assert!(!contains_bytes(b"abcab", b"abd"));
    assert!(contains_bytes(b"abc", b""));
    assert!(!contains_bytes(b"ab", b"abc"));
}

#[test]
fn trimming() {
    assert_eq!(trim_from(&chars(" \t tok en \r\n"), 0), chars("tok en"));
    assert_eq!(trim_from(&chars("xx  y "), 2), chars("y"));
    assert_eq!(trim_from(&chars("   "), 0), Vec::<char>::new());
    assert_eq!(trim_from(&chars("\u{a0}\u{3000}tok\u{2009}\u{85}"), 0), chars("tok"));
    assert_eq!(chars_of("a\u{3000}é"), vec!['a', '\u{3000}', 'é']);
    assert_eq!(credential_of("  Bearer   secret  "), chars("secret"));
    assert_eq!(credential_of("Basic secret"), chars("Basic secret"));
    assert_eq!(credential_of("bearer secret"), chars("bearer secret"));
}

#[test]
fn token_config() {
    assert_eq!(token_from_config(Some("  s3cret ")), Some(chars("s3cret")));
    assert_eq!(token_from_config(Some("\u{a0}s3cret\u{a0}")), Some(chars("s3cret")));
    assert_eq!(token_from_config(Some(" \t ")), None);
    assert_eq!(token_from_config(Some("\u{3000}")), None);
    assert_eq!(token_from_config(Some("")), None);
    assert_eq!(token_from_config(None), None);
}

#[test]
fn token_gate() {
    let t = chars("s3cret");
    let t: &[char] = &t;
    assert!(!authorize(Some(t), None));
    assert!(!authorize(Some(t), Some("wrong")));
    assert!(!authorize(Some(t), Some("Basic s3cret")));
    assert!(!authorize(Some(t), Some("S3CRET")));
    assert!(authorize(Some(t), Some("s3cret")));
    assert!(authorize(Some(t), Some("Bearer s3cret")));
    assert!(authorize(Some(t), Some("  Bearer  s3cret \t")));
}

#[test]
fn no_token_admits_everyone() {
    assert!(authorize(None, None));
    assert!(authorize(None, Some("Bearer anything")));
    let server = Server::new(config(Some("   ")), ());
    assert!(!server.auth_enabled());
    assert!(server.admits(None));
    assert!(server.admits(Some("garbage")));
    let server = Server::new(config(None), ());
    assert!(!server.auth_enabled());
    assert!(server.admits(None));
    let server = Server::new(config(Some("\u{3000}")), ());
    assert!(!server.auth_enabled());
    assert!(server.admits(Some("anything")));
}

#[test]
fn server_uses_trimmed_token() {
    let server = Server::new(config(Some("  tok ")), 7u32);
    assert!(server.auth_enabled());
    assert_eq!(*server.prover(), 7);
    assert_eq!(server.config.port, 17784);
    assert!(server.admits(Some("Bearer tok")));
    assert!(server.admits(Some("tok")));
    assert!(!server.admits(Some("  tok x")));
    assert!(!server.admits(None));
    let server = Server::new(config(Some("\u{a0}tok\u{a0}")), ());
    assert!(server.admits(Some("Bearer tok")));
}

#[test]
fn rejected_stage_is_permanent() {
    let acts = run(ProofMode::Groth16, &[done(0), StageOutcome::Rejected, done(0)]).unwrap();
    assert_eq!(
        acts,
        vec![
            Action::Run(Stage::Ready),
            Action::Run(Stage::Core),
            Action::Fail(Failure::InvalidRequest),
        ]
    );
    assert_eq!(response_status::<Vec<String>>(&Err(Failure::InvalidRequest)), 400);
}

#[test]
fn liveness_ignores_backend() {
    let acts = run(ProofMode::Compressed, &[StageOutcome::Failed]).unwrap();
    assert_eq!(acts.last(), Some(&Action::Fail(Failure::BackendNotReady)));
    assert_eq!(liveness(), (200, "OK"));
}

#[test]
fn groth16_request_end_to_end() {
    let server = Server::new(config(Some("tok")), ());
    assert!(server.admits(Some("Bearer tok")));
    let outs = [done(0), done(42), done(0), done(0), done(0), done(0)];
    let acts = run(ProofMode::Groth16, &outs).unwrap();
    let outcome: Result<Vec<String>, Failure> = match acts.last() {
        Some(Action::Finish { mode, .. }) if *mode == ProofMode::Groth16 => Ok(vec!["proof".to_string()]),
        Some(Action::Fail(f)) => Err(*f),
        _ => Err(Failure::InvalidRequest),
    };
    assert_eq!(response_status(&outcome), 200);
    let refused: Result<Vec<String>, Failure> = run(ProofMode::Plonk, &outs).map(|_| vec![]);
    assert_eq!(response_status(&refused), 400);
}
