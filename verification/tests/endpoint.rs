use blogger_webhook::deploy::{DeploymentOutcome, Invocation, ProcessReport};
use blogger_webhook::endpoint::{
    conclude, handle, receive, respond, Decision, RawRequest, Terminal,
};
use blogger_webhook::filter::IgnoreReason;
use blogger_webhook::payload::{DecodeError, RequiredField};
use blogger_webhook::settings::WebhookConfig;
use blogger_webhook::signature::{AuthError, Header, SignatureDefect};
use hmac::{Hmac, Mac};
use sha2::Sha256;
use std::cell::{Cell, RefCell};

const SECRET: &[u8] = b"It's a Secret to Everybody";
const SCRIPT: &str = "/app/scripts/deploy.sh";
const PUBLISHED: &str = "{\"action\":\"published\",\"release\":{\"tag_name\":\"v1.2.3\",\"draft\":false,\"prerelease\":false},\"repository\":{\"full_name\":\"org/repo\"}}";
const DRAFT: &str = "{\"action\":\"published\",\"release\":{\"tag_name\":\"v1.2.3\",\"draft\":true,\"prerelease\":false},\"repository\":{\"full_name\":\"org/repo\"}}";

fn webhook_config() -> WebhookConfig {
    WebhookConfig { secret: SECRET.to_vec(), deploy_script_path: SCRIPT.to_string() }
}

fn signature_for(secret: &[u8], body: &[u8]) -> Vec<u8> {
    let mut mac = <Hmac<Sha256> as Mac>::new_from_slice(secret).unwrap();
    mac.update(body);
    format!("sha256={}", hex::encode(mac.finalize().into_bytes())).into_bytes()
}

fn signed_request(body: &str) -> RawRequest {
    RawRequest {
        headers: vec![
            Header { name: "content-type".to_string(), value: b"application/json".to_vec() },
            Header {
                name: "x-hub-signature-256".to_string(),
                value: signature_for(SECRET, body.as_bytes()),
            },
        ],
        body: body.as_bytes().to_vec(),
    }
}

fn unsigned_request(body: &str) -> RawRequest {
    RawRequest { headers: vec![], body: body.as_bytes().to_vec() }
}

fn script_exits(success: bool, stdout: &str, stderr: &str) -> ProcessReport {
    ProcessReport::Exited {
        success,
        stdout: stdout.as_bytes().to_vec(),
        stderr: stderr.as_bytes().to_vec(),
    }
}

fn deploy_command(tag: &str) -> Invocation {
    Invocation { script_path: SCRIPT.to_string(), tag: tag.to_string() }
}

fn every_terminal() -> Vec<Terminal> {
    vec![
        Terminal::RejectedAuth(AuthError::MalformedSignature(SignatureDefect::Missing)),
        Terminal::RejectedAuth(AuthError::MalformedSignature(SignatureDefect::BadFormat)),
        Terminal::RejectedAuth(AuthError::SignatureMismatch),
        Terminal::RejectedAuth(AuthError::InvalidSecret),
        Terminal::RejectedDecode(DecodeError::Malformed),
        Terminal::RejectedDecode(DecodeError::MissingField(RequiredField::Action)),
        Terminal::RejectedDecode(DecodeError::MissingField(RequiredField::TagName)),
        Terminal::RejectedDecode(DecodeError::MissingField(RequiredField::Draft)),
        Terminal::RejectedDecode(DecodeError::MissingField(RequiredField::Prerelease)),
        Terminal::RejectedDecode(DecodeError::MissingField(RequiredField::FullName)),
        Terminal::Skipped(IgnoreReason::Action("created".to_string())),
        Terminal::Skipped(IgnoreReason::DraftOrPrerelease),
        Terminal::Invoked {
            tag: "v1".to_string(),
            outcome: DeploymentOutcome::Success("out".to_string()),
        },
        Terminal::Invoked {
            tag: "v1".to_string(),
            outcome: DeploymentOutcome::Failure("why".to_string()),
        },
    ]
}

#[test]
fn scenario_without_signature_header_is_unauthorized() {
    let calls = Cell::new(0);
    let result = handle(&webhook_config(), &unsigned_request(PUBLISHED), |_: &Invocation| {
        calls.set(calls.get() + 1);
        script_exits(true, "deployed", "")
    });
    assert_eq!(result.status(), 401);
    assert!(!result.success());
    assert_eq!(
        result.message(),
        "Signature validation failed: Missing X-Hub-Signature-256 header"
    );
    assert!(result.message().to_lowercase().contains("missing"));
    assert!(result.message().to_lowercase().contains("signature"));
    assert_eq!(calls.get(), 0);
}

#[test]
fn scenario_published_release_is_deployed() {
    let seen: RefCell<Vec<Invocation>> = RefCell::new(Vec::new());
    let result = handle(&webhook_config(), &signed_request(PUBLISHED), |command: &Invocation| {
        seen.borrow_mut().push(command.clone());
        script_exits(true, "deployed", "")
    });
    assert_eq!(result.status(), 200);
    assert!(result.success());
    assert_eq!(result.message(), "Deployment triggered successfully for tag v1.2.3");
    assert!(result.message().contains("v1.2.3"));
    assert_eq!(seen.into_inner(), vec![deploy_command("v1.2.3")]);
}

#[test]
fn scenario_draft_is_ignored_and_nothing_is_run() {
    let calls = Cell::new(0);
    let result = handle(&webhook_config(), &signed_request(DRAFT), |_: &Invocation| {
        calls.set(calls.get() + 1);
        script_exits(true, "deployed", "")
    });
    assert_eq!(result.status(), 200);
    assert!(result.success());
    assert_eq!(result.message(), "Ignoring draft or prerelease");
    assert_eq!(calls.get(), 0);
}

#[test]
fn scenario_failing_script_is_an_internal_error() {
    let calls = Cell::new(0);
    let result = handle(&webhook_config(), &signed_request(PUBLISHED), |_: &Invocation| {
        calls.set(calls.get() + 1);
        script_exits(false, "", "build failed")
    });
    assert_eq!(result.status(), 500);
    assert!(!result.success());
    assert_eq!(result.message(), "Deployment failed: Deployment script failed: build failed");
    assert!(result.message().contains("build failed"));
    assert_eq!(calls.get(), 1);
}

#[test]
fn the_same_event_sent_twice_is_deployed_twice() {
    let config = webhook_config();
    let request = signed_request(PUBLISHED);
    let calls = Cell::new(0);
    for _ in 0..2 {
        let result = handle(&config, &request, |command: &Invocation| {
            calls.set(calls.get() + 1);
            assert_eq!(command.tag, "v1.2.3");
            script_exits(true, "deployed", "")
        });
        assert_eq!(result.status(), 200);
        assert!(result.success());
    }
    assert_eq!(calls.get(), 2);
    assert_eq!(receive(&config, &request), Decision::Invoke(deploy_command("v1.2.3")));
    assert_eq!(receive(&config, &request), Decision::Invoke(deploy_command("v1.2.3")));
}

#[test]
fn released_action_is_deployed_too() {
    let body = PUBLISHED.replace("published", "released");
    assert_eq!(
        receive(&webhook_config(), &signed_request(&body)),
        Decision::Invoke(deploy_command("v1.2.3"))
    );
}

#[test]
fn prerelease_is_ignored_and_nothing_is_run() {
    let body = PUBLISHED.replace("\"prerelease\":false", "\"prerelease\":true");
    let calls = Cell::new(0);
    let result = handle(&webhook_config(), &signed_request(&body), |_: &Invocation| {
        calls.set(calls.get() + 1);
        ProcessReport::TimedOut
    });
    assert_eq!(result.status(), 200);
    assert!(result.success());
    assert_eq!(result.message(), "Ignoring draft or prerelease");
    assert_eq!(calls.get(), 0);
}

#[test]
fn another_action_is_ignored_with_its_name_and_nothing_is_run() {
    let body = PUBLISHED.replace("published", "created");
    let calls = Cell::new(0);
    let result = handle(&webhook_config(), &signed_request(&body), |_: &Invocation| {
        calls.set(calls.get() + 1);
        ProcessReport::TimedOut
    });
    assert_eq!(result.status(), 200);
    assert!(result.success());
    assert_eq!(result.message(), "Ignoring action: created");
    assert_eq!(calls.get(), 0);
}

#[test]
fn wrong_signature_is_unauthorized_and_the_body_is_not_looked_at() {
    let config = webhook_config();
    for body in [PUBLISHED, "not json", ""] {
        let mut request = signed_request(body);
        request.headers[1].value = signature_for(b"another secret", body.as_bytes());
        assert_eq!(
            receive(&config, &request),
            Decision::Finish(Terminal::RejectedAuth(AuthError::SignatureMismatch))
        );
        let result = handle(&config, &request, |_: &Invocation| panic!("the script was run"));
        assert_eq!(result.status(), 401);
        assert!(!result.success());
        assert_eq!(
            result.message(),
            "Signature validation failed: Signature verification failed"
        );
    }
}

#[test]
fn malformed_signature_is_unauthorized() {
    let mut request = signed_request(PUBLISHED);
    request.headers[1].value = b"sha256=nothex".to_vec();
    let result = handle(&webhook_config(), &request, |_: &Invocation| panic!("the script was run"));
    assert_eq!(result.status(), 401);
    assert_eq!(result.message(), "Signature validation failed: Invalid signature format");
}

#[test]
fn empty_secret_is_unauthorized() {
    let config = WebhookConfig { secret: vec![], deploy_script_path: SCRIPT.to_string() };
    let mut request = signed_request(PUBLISHED);
    request.headers[1].value = signature_for(b"", PUBLISHED.as_bytes());
    let result = handle(&config, &request, |_: &Invocation| panic!("the script was run"));
    assert_eq!(result.status(), 401);
    assert!(!result.success());
    assert_eq!(result.message(), "Signature validation failed: Missing secret");
}

#[test]
fn signed_body_that_is_not_json_is_a_bad_request() {
    let result = handle(&webhook_config(), &signed_request("not json"), |_: &Invocation| {
        panic!("the script was run")
    });
    assert_eq!(result.status(), 400);
    assert!(!result.success());
    assert_eq!(result.message(), "Invalid payload: body is not well-formed JSON");
}

#[test]
fn signed_body_without_a_required_member_is_a_bad_request() {
    let body = PUBLISHED.replace("\"tag_name\":\"v1.2.3\",", "");
    let result = handle(&webhook_config(), &signed_request(&body), |_: &Invocation| {
        panic!("the script was run")
    });
    assert_eq!(result.status(), 400);
    assert!(!result.success());
    assert_eq!(result.message(), "Invalid payload: missing field `tag_name`");
}

#[test]
fn script_that_cannot_be_started_is_an_internal_error() {
    let result = handle(&webhook_config(), &signed_request(PUBLISHED), |_: &Invocation| {
        ProcessReport::NotStarted("No such file or directory (os error 2)".to_string())
    });
    assert_eq!(result.status(), 500);
    assert!(!result.success());
    assert_eq!(
        result.message(),
        "Deployment failed: Failed to execute deployment script: No such file or directory (os error 2)"
    );
}

#[test]
fn script_that_times_out_is_an_internal_error() {
    let result = handle(&webhook_config(), &signed_request(PUBLISHED), |_: &Invocation| {
        ProcessReport::TimedOut
    });
    assert_eq!(result.status(), 500);
    assert!(!result.success());
    assert_eq!(result.message(), "Deployment failed: Deployment script timed out");
}

#[test]
fn the_tag_reaches_the_command_as_an_opaque_token() {
    let body = PUBLISHED.replace("v1.2.3", "v1; rm -rf / $(id)");
    assert_eq!(
        receive(&webhook_config(), &signed_request(&body)),
        Decision::Invoke(deploy_command("v1; rm -rf / $(id)"))
    );
}

#[test]
fn the_signature_is_checked_on_the_bytes_as_they_came() {
    let config = webhook_config();
    let spaced = PUBLISHED.replace("\"action\":", "\"action\": ");
    let mut request = signed_request(&spaced);
    assert_eq!(receive(&config, &request), Decision::Invoke(deploy_command("v1.2.3")));
    request.headers[1].value = signature_for(SECRET, PUBLISHED.as_bytes());
    assert_eq!(
        receive(&config, &request),
        Decision::Finish(Terminal::RejectedAuth(AuthError::SignatureMismatch))
    );
}

#[test]
fn conclude_keeps_the_tag_and_reads_the_report() {
    assert_eq!(
        conclude(deploy_command("v9"), script_exits(true, "done", "ignored")),
        Terminal::Invoked {
            tag: "v9".to_string(),
            outcome: DeploymentOutcome::Success("done".to_string()),
        }
    );
    assert_eq!(
        conclude(deploy_command("v9"), script_exits(false, "ignored", "bad")),
        Terminal::Invoked {
            tag: "v9".to_string(),
            outcome: DeploymentOutcome::Failure("Deployment script failed: bad".to_string()),
        }
    );
}

#[test]
fn receive_then_conclude_then_respond_is_what_handle_does() {
    let config = webhook_config();
    let request = signed_request(PUBLISHED);
    let by_steps = match receive(&config, &request) {
        Decision::Finish(terminal) => respond(&terminal),
        Decision::Invoke(command) => {
            respond(&conclude(command, script_exits(false, "", "build failed")))
        }
    };
    let at_once =
        handle(&config, &request, |_: &Invocation| script_exits(false, "", "build failed"));
    assert_eq!(by_steps, at_once);
}

#[test]
fn success_is_set_exactly_with_status_200() {
    for terminal in every_terminal() {
        let result = respond(&terminal);
        assert!([200, 400, 401, 500].contains(&result.status()));
        assert_eq!(result.success(), result.status() == 200);
    }
}

#[test]
fn each_end_has_its_status() {
    let statuses: Vec<u16> =
        every_terminal().iter().map(|terminal| respond(terminal).status()).collect();
    assert_eq!(
        statuses,
        vec![401, 401, 401, 401, 400, 400, 400, 400, 400, 400, 200, 200, 200, 500]
    );
}

#[test]
fn each_end_has_its_message() {
    let messages: Vec<String> = every_terminal()
        .iter()
        .map(|terminal| respond(terminal).message().to_string())
        .collect();
    assert_eq!(
        messages,
        vec![
            "Signature validation failed: Missing X-Hub-Signature-256 header",
            "Signature validation failed: Invalid signature format",
            "Signature validation failed: Signature verification failed",
            "Signature validation failed: Missing secret",
            "Invalid payload: body is not well-formed JSON",
            "Invalid payload: missing field `action`",
            "Invalid payload: missing field `tag_name`",
            "Invalid payload: missing field `draft`",
            "Invalid payload: missing field `prerelease`",
            "Invalid payload: missing field `full_name`",
            "Ignoring action: created",
            "Ignoring draft or prerelease",
            "Deployment triggered successfully for tag v1",
            "Deployment failed: why",
        ]
    );
}
