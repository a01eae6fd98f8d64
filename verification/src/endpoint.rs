//! The endpoint: one request from its arrival to the response.
//!
//! A request passes four stages in a fixed order: its signature is verified,
//! its body is decoded, the event is filtered, the deployment is invoked. The
//! first stage that does not let it pass ends it, and every end has its
//! response. Nothing is kept from one request to the next.

use vstd::prelude::*;
use crate::deploy::{
    interpret_spec, invoke, outcome_spec, output_text, DeploymentOutcome, DeploymentOutcomeView,
    Invocation, InvocationView, ProcessReport, ProcessReportView,
};
use crate::filter::{
    decision_spec, is_deploying_action, should_deploy, FilterDecision, FilterDecisionView,
    IgnoreReason, IgnoreReasonView,
};
use crate::payload::{decode, decode_error_text, decode_spec, DecodeError, ReleaseEventView};
use crate::settings::{WebhookConfig, WebhookConfigView};
use crate::signature::{
    auth_error_text, header_views, verify, verify_spec, AuthError, Header, HeaderView,
};
use crate::text::{contains_text, join, lemma_contains_suffix, lemma_contains_within};

verus! {

/// A request as it came: the headers and the body, neither of them parsed.
#[derive(Clone, Debug, PartialEq, Eq)]
pub struct RawRequest {
    pub headers: Vec<Header>,
    pub body: Vec<u8>,
}

/// The mathematical content of a [`RawRequest`].
pub struct RawRequestView {
    pub headers: Seq<HeaderView>,
    pub body: Seq<u8>,
}

impl View for RawRequest {
    type V = RawRequestView;

    open spec fn view(&self) -> RawRequestView {
        RawRequestView { headers: header_views(self.headers@), body: self.body@ }
    }
}

/// How a request ended.
#[derive(Clone, Debug, PartialEq, Eq)]
pub enum Terminal {
    /// The signature did not verify. The body was not decoded.
    RejectedAuth(AuthError),
    /// The request is authentic, but its body is no release event.
    RejectedDecode(DecodeError),
    /// The event does not call for a deployment. Nothing was run.
    Skipped(IgnoreReason),
    /// The deployment of `tag` was attempted, once, with this outcome.
    Invoked { tag: String, outcome: DeploymentOutcome },
}

/// The mathematical content of a [`Terminal`].
pub enum TerminalView {
    RejectedAuth(AuthError),
    RejectedDecode(DecodeError),
    Skipped(IgnoreReasonView),
    Invoked { tag: Seq<char>, outcome: DeploymentOutcomeView },
}

impl View for Terminal {
    type V = TerminalView;

    open spec fn view(&self) -> TerminalView {
        match self {
            Terminal::RejectedAuth(error) => TerminalView::RejectedAuth(*error),
            Terminal::RejectedDecode(error) => TerminalView::RejectedDecode(*error),
            Terminal::Skipped(reason) => TerminalView::Skipped(reason@),
            Terminal::Invoked { tag, outcome } => TerminalView::Invoked {
                tag: tag@,
                outcome: outcome@,
            },
        }
    }
}

/// What is to be done with a request that has arrived: it has ended, or the
/// deployment is to be run.
#[derive(Clone, Debug, PartialEq, Eq)]
pub enum Decision {
    Finish(Terminal),
    Invoke(Invocation),
}

/// The mathematical content of a [`Decision`].
pub enum DecisionView {
    Finish(TerminalView),
    Invoke(InvocationView),
}

impl View for Decision {
    type V = DecisionView;

    open spec fn view(&self) -> DecisionView {
        match self {
            Decision::Finish(terminal) => DecisionView::Finish(terminal@),
            Decision::Invoke(invocation) => DecisionView::Invoke(invocation@),
        }
    }
}

/// The decision on a request. The signature is checked first and the body
/// is decoded only if it holds; the event is filtered only if the body
/// decodes; the deployment is called for only if the filter says so, and then
/// with the configured script and the tag of the event.
pub open spec fn decision_for(config: WebhookConfigView, request: RawRequestView) -> DecisionView {
    match verify_spec(request.headers, request.body, config.secret) {
        Err(error) => DecisionView::Finish(TerminalView::RejectedAuth(error)),
        Ok(_) => match decode_spec(request.body) {
            Err(error) => DecisionView::Finish(TerminalView::RejectedDecode(error)),
            Ok(event) => match decision_spec(event) {
                FilterDecisionView::Ignore(reason) => DecisionView::Finish(
                    TerminalView::Skipped(reason),
                ),
                FilterDecisionView::Deploy => DecisionView::Invoke(
                    InvocationView { script_path: config.deploy_script_path, tag: event.tag },
                ),
            },
        },
    }
}

/// How a request ends whose deployment was run and reported.
pub open spec fn conclude_spec(invocation: InvocationView, report: ProcessReportView) -> TerminalView {
    TerminalView::Invoked { tag: invocation.tag, outcome: outcome_spec(interpret_spec(report)) }
}

/// The status code of the response to a request that ended so.
pub open spec fn status_of(terminal: TerminalView) -> u16 {
    match terminal {
        TerminalView::RejectedAuth(_) => 401,
        TerminalView::RejectedDecode(_) => 400,
        TerminalView::Skipped(_) => 200,
        TerminalView::Invoked { outcome: DeploymentOutcomeView::Success(_), .. } => 200,
        TerminalView::Invoked { outcome: DeploymentOutcomeView::Failure(_), .. } => 500,
    }
}

/// Whether the response reports success. Ignoring an event is a success: the
/// sender must not take it for a failed delivery and send it again.
pub open spec fn success_of(terminal: TerminalView) -> bool {
    match terminal {
        TerminalView::RejectedAuth(_) => false,
        TerminalView::RejectedDecode(_) => false,
        TerminalView::Skipped(_) => true,
        TerminalView::Invoked { outcome: DeploymentOutcomeView::Success(_), .. } => true,
        TerminalView::Invoked { outcome: DeploymentOutcomeView::Failure(_), .. } => false,
    }
}

/// The message of the response.
pub open spec fn message_of(terminal: TerminalView) -> Seq<char> {
    match terminal {
        TerminalView::RejectedAuth(error) => "Signature validation failed: "@ + auth_error_text(
            error,
        ),
        TerminalView::RejectedDecode(error) => "Invalid payload: "@ + decode_error_text(error),
        TerminalView::Skipped(IgnoreReasonView::Action(action)) => "Ignoring action: "@ + action,
        TerminalView::Skipped(IgnoreReasonView::DraftOrPrerelease) => {
            "Ignoring draft or prerelease"@
        },
        TerminalView::Invoked { tag, outcome: DeploymentOutcomeView::Success(_) } => {
            "Deployment triggered successfully for tag "@ + tag
        },
        TerminalView::Invoked { outcome: DeploymentOutcomeView::Failure(reason), .. } => {
            "Deployment failed: "@ + reason
        },
    }
}

/// The response that goes back to the sender.
///
/// A response is made only by [`respond`], so every one of them has one of
/// the four status codes and reports success exactly with status 200.
#[derive(Debug, PartialEq, Eq)]
pub struct WebhookResult {
    status: u16,
    message: String,
    success: bool,
}

impl WebhookResult {
    #[verifier::type_invariant]
    spec fn consistent(self) -> bool {
        &&& self.status == 200 || self.status == 400 || self.status == 401 || self.status == 500
        &&& self.success == (self.status == 200)
    }

    /// The HTTP status code.
    pub closed spec fn status_code(self) -> u16 {
        self.status
    }

    /// The human-readable message.
    pub closed spec fn message_text(self) -> Seq<char> {
        self.message@
    }

    /// The success flag of the response body.
    pub closed spec fn succeeded(self) -> bool {
        self.success
    }

    /// Whether this is the response to a request that ended as `terminal`.
    pub open spec fn answers(self, terminal: TerminalView) -> bool {
        &&& self.status_code() == status_of(terminal)
        &&& self.message_text() == message_of(terminal)
        &&& self.succeeded() == success_of(terminal)
    }

    /// The HTTP status code: 200, 400, 401 or 500.
    pub fn status(&self) -> (code: u16)
        ensures
            code == self.status_code(),
            code == 200 || code == 400 || code == 401 || code == 500,
    {
        proof {
            use_type_invariant(self);
        }
        self.status
    }

    /// The human-readable message.
    pub fn message(&self) -> (message: &str)
        ensures
            message@ == self.message_text(),
    {
        self.message.as_str()
    }

    /// The success flag of the response body. It is set exactly when the
    /// status is 200.
    pub fn success(&self) -> (flag: bool)
        ensures
            flag == self.succeeded(),
            flag <==> self.status_code() == 200,
    {
        proof {
            use_type_invariant(self);
        }
        self.success
    }
}

/// Takes a request through the first three stages.
///
/// The result is `Finish` with the reason if the request is not authentic,
/// does not decode or does not deploy, and `Invoke` with the command
/// otherwise. The same request under the same configuration gets the same
/// decision every time it comes: no delivery is remembered.
pub fn receive(config: &WebhookConfig, request: &RawRequest) -> (decision: Decision)
    ensures
        decision@ == decision_for(config@, request@),
{
    match verify(request.headers.as_slice(), request.body.as_slice(), config.secret.as_slice()) {
        Err(error) => return Decision::Finish(Terminal::RejectedAuth(error)),
        Ok(_) => {},
    }
    let event = match decode(request.body.as_slice()) {
        Err(error) => return Decision::Finish(Terminal::RejectedDecode(error)),
        Ok(event) => event,
    };
    match should_deploy(&event) {
        FilterDecision::Ignore(reason) => Decision::Finish(Terminal::Skipped(reason)),
        FilterDecision::Deploy => Decision::Invoke(
            Invocation { script_path: config.deploy_script_path.clone(), tag: event.tag },
        ),
    }
}

/// Ends a request whose deployment was run: `report` tells how the one run
/// of `invocation` went.
pub fn conclude(invocation: Invocation, report: ProcessReport) -> (terminal: Terminal)
    ensures
        terminal@ == conclude_spec(invocation@, report@),
{
    Terminal::Invoked { tag: invocation.tag, outcome: DeploymentOutcome::from_report(report) }
}

/// The response to a request that ended as `terminal`.
///
/// An unauthenticated request gets 401, one that does not decode 400, a
/// failed deployment 500, each with `success` unset; an ignored event and a
/// deployment that went through get 200 with `success` set.
pub fn respond(terminal: &Terminal) -> (result: WebhookResult)
    ensures
        result.answers(terminal@),
{
    match terminal {
        Terminal::RejectedAuth(error) => WebhookResult {
            status: 401,
            message: join("Signature validation failed: ", error.describe().as_str()),
            success: false,
        },
        Terminal::RejectedDecode(error) => WebhookResult {
            status: 400,
            message: join("Invalid payload: ", error.describe().as_str()),
            success: false,
        },
        Terminal::Skipped(IgnoreReason::Action(action)) => WebhookResult {
            status: 200,
            message: join("Ignoring action: ", action.as_str()),
            success: true,
        },
        Terminal::Skipped(IgnoreReason::DraftOrPrerelease) => WebhookResult {
            status: 200,
            message: "Ignoring draft or prerelease".to_owned(),
            success: true,
        },
        Terminal::Invoked { tag, outcome: DeploymentOutcome::Success(_) } => WebhookResult {
            status: 200,
            message: join("Deployment triggered successfully for tag ", tag.as_str()),
            success: true,
        },
        Terminal::Invoked { outcome: DeploymentOutcome::Failure(reason), .. } => WebhookResult {
            status: 500,
            message: join("Deployment failed: ", reason.as_str()),
            success: false,
        },
    }
}

/// Handles one request from its arrival to the response, with `run` as the
/// means to run the deployment script.
///
/// `run` is called at most once, and only with the command of a request that
/// is authentic, decodes and deploys. For every other request the response
/// is that of [`decision_for`]; for that one it is the response to what `run`
/// reported.
pub fn handle<R>(config: &WebhookConfig, request: &RawRequest, run: R) -> (result: WebhookResult)
    where R: FnOnce(&Invocation) -> ProcessReport
    requires
        forall|invocation: &Invocation|
            decision_for(config@, request@) == DecisionView::Invoke(invocation@)
                ==> #[trigger] run.requires((invocation,)),
    ensures
        match decision_for(config@, request@) {
            DecisionView::Finish(terminal) => result.answers(terminal),
            DecisionView::Invoke(command) => exists|invocation: &Invocation, report: ProcessReport|
                invocation@ == command && #[trigger] run.ensures((invocation,), report)
                    && result.answers(conclude_spec(command, report@)),
        },
{
    let terminal = match receive(config, request) {
        Decision::Finish(terminal) => terminal,
        Decision::Invoke(invocation) => {
            let result = invoke(&invocation, run);
            let outcome = DeploymentOutcome::from_result(result);
            Terminal::Invoked { tag: invocation.tag, outcome }
        },
    };
    respond(&terminal)
}

/// The success flag of a response is set if and only if its status is 200;
/// it is unset for 400, 401 and 500, and there is no other status.
pub proof fn law_success_iff_status_ok(terminal: TerminalView)
    ensures
        success_of(terminal) <==> status_of(terminal) == 200,
        !success_of(terminal) <==> status_of(terminal) == 400 || status_of(terminal) == 401
            || status_of(terminal) == 500,
{
}

/// A correctly signed request whose event deploys is answered with the
/// command to run, the configured script with the tag of the event. The
/// decision has no argument but the configuration and the request: no
/// earlier delivery can change it, so the same event sent twice calls for the
/// deployment twice.
pub proof fn law_every_delivery_deploys(
    config: WebhookConfigView,
    request: RawRequestView,
    event: ReleaseEventView,
)
    requires
        verify_spec(request.headers, request.body, config.secret) is Ok,
        decode_spec(request.body) == Ok::<ReleaseEventView, DecodeError>(event),
        is_deploying_action(event.action),
        !event.is_draft,
        !event.is_prerelease,
    ensures
        decision_for(config, request) == DecisionView::Invoke(
            InvocationView { script_path: config.deploy_script_path, tag: event.tag },
        ),
{
}

/// A draft or a prerelease is never deployed, whatever its action, and an
/// event with any other action than the two deploying ones is never deployed
/// either: such a request ends before anything is run.
pub proof fn law_ignored_events_run_nothing(
    config: WebhookConfigView,
    request: RawRequestView,
    event: ReleaseEventView,
)
    requires
        decode_spec(request.body) == Ok::<ReleaseEventView, DecodeError>(event),
        event.is_draft || event.is_prerelease || !is_deploying_action(event.action),
    ensures
        decision_for(config, request) is Finish,
{
}

/// The response to an event that is ignored for its action holds the
/// action, as it came, in its message.
pub proof fn law_ignored_action_is_named(action: Seq<char>)
    ensures
        contains_text(message_of(TerminalView::Skipped(IgnoreReasonView::Action(action))), action),
{
    lemma_contains_suffix("Ignoring action: "@, action);
}

/// A deployment whose script exits with status zero is answered with 200
/// and a message that holds the tag.
pub proof fn law_deployed_tag_is_named(
    invocation: InvocationView,
    stdout: Seq<u8>,
    stderr: Seq<u8>,
)
    ensures
        ({
            let terminal = conclude_spec(
                invocation,
                ProcessReportView::Exited { success: true, stdout, stderr },
            );
            &&& status_of(terminal) == 200
            &&& success_of(terminal)
            &&& contains_text(message_of(terminal), invocation.tag)
        }),
{
    lemma_contains_suffix("Deployment triggered successfully for tag "@, invocation.tag);
}

/// A deployment whose script exits with another status is answered with 500
/// and a message that holds what the script wrote to its error stream.
pub proof fn law_failure_text_is_surfaced(
    invocation: InvocationView,
    stdout: Seq<u8>,
    stderr: Seq<u8>,
)
    ensures
        ({
            let terminal = conclude_spec(
                invocation,
                ProcessReportView::Exited { success: false, stdout, stderr },
            );
            &&& status_of(terminal) == 500
            &&& !success_of(terminal)
            &&& contains_text(message_of(terminal), output_text(stderr))
        }),
{
    let reason = "Deployment script failed: "@ + output_text(stderr);
    lemma_contains_suffix("Deployment script failed: "@, output_text(stderr));
    lemma_contains_suffix("Deployment failed: "@, reason);
    lemma_contains_within(
        "Deployment failed: "@ + reason,
        reason,
        output_text(stderr),
    );
}

/// A request that is not authentic ends with 401 whatever its body holds.
pub proof fn law_unauthenticated_is_rejected(config: WebhookConfigView, request: RawRequestView)
    requires
        verify_spec(request.headers, request.body, config.secret) is Err,
    ensures
        decision_for(config, request) matches DecisionView::Finish(terminal) && status_of(terminal)
            == 401 && !success_of(terminal),
{
}

} // verus!
