use scufflecloud::email_service::{build_raw_email, ses_request, BuildEmailError};
use scufflecloud::emails::{EmailAddress, SendEmailRequest};
use scufflecloud::operation::{next_step, Answer, Failure, OperationStep, StepOutcome};
use scufflecloud::services::{grpc_web_allow_headers, grpc_web_expose_headers, CoreSvc, EmailSvc};
use base64::Engine;
use sha2::Digest;

fn run(outcomes: &[StepOutcome]) -> OperationStep {
    let mut step = OperationStep::Validate;
    for o in outcomes {
        step = next_step(step, *o);
    }
    step
}

use StepOutcome::{Failed as F, Succeeded as S};

#[test]
fn an_operation_succeeds_when_every_step_does() {
    assert_eq!(run(&[S, S, S, S, S, S]), OperationStep::Done(Answer::Succeeded));
    assert_eq!(run(&[S, S, S, S, S]), OperationStep::Commit);
}

#[test]
fn a_validation_failure_is_answered_without_a_roll_back() {
    assert_eq!(run(&[F]), OperationStep::Done(Answer::Failed(Failure::Validation)));
}

#[test]
fn later_failures_roll_back() {
    assert_eq!(run(&[S, F]), OperationStep::Abort(Failure::LoadPrincipal));
    assert_eq!(run(&[S, S, S, F]), OperationStep::Abort(Failure::Authorization));
    assert_eq!(run(&[S, S, S, F, S]), OperationStep::Done(Answer::Failed(Failure::Authorization)));
    assert_eq!(run(&[S, S, S, S, F, F]), OperationStep::Done(Answer::Failed(Failure::Abort)));
    assert_eq!(run(&[S, S, S, S, S, F]), OperationStep::Done(Answer::Failed(Failure::Commit)));
}

#[test]
fn a_finished_operation_stays_finished() {
    let done = OperationStep::Done(Answer::Succeeded);
    assert_eq!(next_step(done, F), done);
}

fn request(from: bool, to: bool) -> SendEmailRequest {
    SendEmailRequest {
        from: from.then(|| EmailAddress { name: Some("Scuffle".to_string()), address: "no-reply@scuffle.cloud".to_string() }),
        to: to.then(|| EmailAddress { name: None, address: "a@b.c".to_string() }),
        subject: "Subject line".to_string(),
        text: "Plain body".to_string(),
        html: "<b>Body</b>".to_string(),
    }
}

#[test]
fn raw_emails_need_sender_and_recipient() {
    assert_eq!(build_raw_email(request(false, true)), Err(BuildEmailError::MissingFrom));
    assert_eq!(build_raw_email(request(false, false)), Err(BuildEmailError::MissingFrom));
    assert_eq!(build_raw_email(request(true, false)), Err(BuildEmailError::MissingTo));
    let raw = String::from_utf8(build_raw_email(request(true, true)).unwrap()).unwrap();
    assert!(raw.contains("Subject: Subject line"));
    assert!(raw.contains("a@b.c"));
    assert!(raw.contains("no-reply@scuffle.cloud"));
}

#[test]
fn ses_requests_carry_the_raw_message() {
    let r = ses_request("eu-west-1", b"raw message");
    assert_eq!(r.uri, "https://email.eu-west-1.amazonaws.com/v2/email/outbound-emails");
    assert_eq!(r.content_type, "application/x-amz-json-1.1");
    let data = base64::prelude::BASE64_STANDARD.encode(b"raw message");
    assert_eq!(r.body, format!("{{\"Content\":{{\"Raw\":{{\"Data\":\"{data}\"}}}}}}"));
    let hex: String = sha2::Sha256::digest(r.body.as_bytes()).iter().map(|b| format!("{b:02x}")).collect();
    assert_eq!(r.content_sha256, hex);
}

#[test]
fn grpc_web_headers() {
    assert_eq!(
        grpc_web_allow_headers(),
        vec!["content-type", "x-grpc-web", "grpc-timeout", "scuf-token-id", "scuf-timestamp", "scuf-nonce", "scuf-auth-method", "scuf-auth-hmac"]
    );
    assert_eq!(grpc_web_expose_headers(), vec!["grpc-encoding", "grpc-status", "grpc-status-details-bin", "grpc-message"]);
    let _core: CoreSvc<()> = CoreSvc::default();
    let _email: EmailSvc<()> = EmailSvc::default();
}
