//! The verification pipeline as a state machine. Each job walks the portal's
//! sequence — gateway, captcha image, solving service, result page — and
//! every decision (which request to issue next, how to classify a reply or a
//! network failure) is taken here, under contract. The surrounding program
//! only performs the requested I/O and feeds the reply back as an event.

use vstd::prelude::*;
use crate::captcha::{base64_of, captcha_reply_of, get_captcha, solve_request_for_image, spec_solve_request};
use crate::classify::{classify_result, spec_classify, OutcomeModel, VerificationOutcome};
use crate::error::{spec_kind_of, CheckError, CheckErrorKind};
use crate::generator::Job;
use crate::pool::ProxyPool;
use crate::urls::{
    captcha_url, gateway_url, result_url, solver_url, spec_captcha_url, spec_gateway_url,
    spec_result_url, spec_solver_url, spec_user_agent, spec_uses_legacy, user_agent,
    uses_legacy_template,
};

verus! {

/// What the surrounding program is asked to do next.
pub enum StepAction {
    /// GET the gateway, establishing session cookies.
    FetchGateway { url: String },
    /// GET the captcha image; its bytes come back as an event.
    FetchCaptchaImage { url: String },
    /// POST the request body to the solving service.
    SolveCaptcha { url: String, body: String },
    /// GET the result page, with the fixed browser header and referer.
    FetchResult { url: String, referer: String, user_agent: String },
    /// The job is finished with this outcome; feed it to `settle_outcome`.
    Report { outcome: VerificationOutcome },
}

/// The mathematical shape of a `StepAction`.
pub enum ActionModel {
    FetchGateway(Seq<char>),
    FetchCaptchaImage(Seq<char>),
    SolveCaptcha(Seq<char>, Seq<char>),
    FetchResult(Seq<char>, Seq<char>, Seq<char>),
    Report(OutcomeModel),
}

impl View for StepAction {
    type V = ActionModel;

    open spec fn view(&self) -> ActionModel {
        match self {
            StepAction::FetchGateway { url } => ActionModel::FetchGateway(url@),
            StepAction::FetchCaptchaImage { url } => ActionModel::FetchCaptchaImage(url@),
            StepAction::SolveCaptcha { url, body } => ActionModel::SolveCaptcha(url@, body@),
            StepAction::FetchResult { url, referer, user_agent } => ActionModel::FetchResult(
                url@,
                referer@,
                user_agent@,
            ),
            StepAction::Report { outcome } => ActionModel::Report(outcome@),
        }
    }
}

/// What the last requested I/O produced.
pub enum StepEvent {
    /// A response read as text.
    GotText { body: String },
    /// A response read as bytes (the captcha image).
    GotBytes { data: Vec<u8> },
    /// A network-layer failure, with its description.
    NetError { description: String },
}

/// Where in the portal sequence a job stands.
#[derive(Clone, Copy, Debug, PartialEq, Eq, Structural)]
pub enum Phase {
    AtGateway,
    AtCaptcha,
    AtSolve,
    AtResult,
    Done,
}

/// The fault outcome a network-layer error description classifies to.
pub open spec fn fault_model(d: Seq<char>) -> OutcomeModel {
    match spec_kind_of(d) {
        CheckErrorKind::ProxyExpire => OutcomeModel::ProxyFault,
        CheckErrorKind::CaptchaError => OutcomeModel::CaptchaFault,
        CheckErrorKind::Other => OutcomeModel::OtherFault,
    }
}

/// Classifies a network-layer error description into its fault outcome.
pub fn fault_outcome(description: String) -> (o: VerificationOutcome)
    ensures
        o@ == fault_model(description@),
{
    let e = CheckError::from_description(description);
    match e.kind() {
        CheckErrorKind::ProxyExpire => VerificationOutcome::ProxyFault,
        CheckErrorKind::CaptchaError => VerificationOutcome::CaptchaFault,
        CheckErrorKind::Other => VerificationOutcome::OtherFault,
    }
}

/// One job's walk through the verification sequence.
pub struct Pipeline {
    pub job: Job,
    pub phase: Phase,
}

impl Pipeline {
    /// A pipeline at the start of the sequence for the given job.
    pub fn new(job: Job) -> (p: Pipeline)
        ensures
            p.job == job,
            p.phase == Phase::AtGateway,
    {
        Pipeline { job, phase: Phase::AtGateway }
    }

    /// The first request of the sequence: the gateway fetch.
    pub fn start_action(&self) -> (a: StepAction)
        ensures
            a@ == ActionModel::FetchGateway(spec_gateway_url()),
    {
        StepAction::FetchGateway { url: String::from_str(gateway_url()) }
    }

    /// Takes the event answering the last action and decides the next one.
    /// A network failure anywhere ends the job with its classified fault —
    /// at the solving step the fault is the solving service's. The gateway
    /// reply's content is ignored; the captcha bytes become the solving
    /// request; a parsable solving reply's token builds the result URL under
    /// the template the outer identifier selects; the result page is
    /// classified. An event of the wrong shape ends the job as `OtherFault`.
    pub fn advance(&mut self, ev: StepEvent) -> (a: StepAction)
        requires
            old(self).phase != Phase::Done,
        ensures
            final(self).job == old(self).job,
            match old(self).phase {
                Phase::AtGateway => match ev {
                    StepEvent::NetError { description } => final(self).phase == Phase::Done && a@
                        == ActionModel::Report(fault_model(description@)),
                    _ => final(self).phase == Phase::AtCaptcha && a@
                        == ActionModel::FetchCaptchaImage(
                        spec_captcha_url(
                            old(self).job.outer_id as int,
                            old(self).job.inner_id as int,
                        ),
                    ),
                },
                Phase::AtCaptcha => match ev {
                    StepEvent::GotBytes { data } => final(self).phase == Phase::AtSolve && a@
                        == ActionModel::SolveCaptcha(
                        spec_solver_url(),
                        spec_solve_request(base64_of(data@)),
                    ),
                    StepEvent::GotText { .. } => final(self).phase == Phase::Done && a@
                        == ActionModel::Report(OutcomeModel::OtherFault),
                    StepEvent::NetError { description } => final(self).phase == Phase::Done && a@
                        == ActionModel::Report(fault_model(description@)),
                },
                Phase::AtSolve => match ev {
                    StepEvent::GotText { body } => match captcha_reply_of(body@) {
                        Some(t) => final(self).phase == Phase::AtResult && a@
                            == ActionModel::FetchResult(
                            spec_result_url(
                                old(self).job.outer_id as int,
                                old(self).job.inner_id as int,
                                t.0,
                            ),
                            spec_gateway_url(),
                            spec_user_agent(),
                        ),
                        None => final(self).phase == Phase::Done && a@ == ActionModel::Report(
                            OutcomeModel::CaptchaFault,
                        ),
                    },
                    StepEvent::GotBytes { .. } => final(self).phase == Phase::Done && a@
                        == ActionModel::Report(OutcomeModel::OtherFault),
                    StepEvent::NetError { .. } => final(self).phase == Phase::Done && a@
                        == ActionModel::Report(OutcomeModel::CaptchaFault),
                },
                Phase::AtResult => match ev {
                    StepEvent::GotText { body } => final(self).phase == Phase::Done && a@
                        == ActionModel::Report(
                        spec_classify(body@, spec_uses_legacy(old(self).job.outer_id as int)),
                    ),
                    StepEvent::GotBytes { .. } => final(self).phase == Phase::Done && a@
                        == ActionModel::Report(OutcomeModel::OtherFault),
                    StepEvent::NetError { description } => final(self).phase == Phase::Done && a@
                        == ActionModel::Report(fault_model(description@)),
                },
                Phase::Done => true,
            },
    {
        match self.phase {
            Phase::AtGateway => match ev {
                StepEvent::NetError { description } => {
                    self.phase = Phase::Done;
                    StepAction::Report { outcome: fault_outcome(description) }
                },
                _ => {
                    self.phase = Phase::AtCaptcha;
                    StepAction::FetchCaptchaImage {
                        url: captcha_url(self.job.outer_id, self.job.inner_id),
                    }
                },
            },
            Phase::AtCaptcha => match ev {
                StepEvent::GotBytes { data } => {
                    self.phase = Phase::AtSolve;
                    StepAction::SolveCaptcha {
                        url: String::from_str(solver_url()),
                        body: solve_request_for_image(&data),
                    }
                },
                StepEvent::GotText { .. } => {
                    self.phase = Phase::Done;
                    StepAction::Report { outcome: VerificationOutcome::OtherFault }
                },
                StepEvent::NetError { description } => {
                    self.phase = Phase::Done;
                    StepAction::Report { outcome: fault_outcome(description) }
                },
            },
            Phase::AtSolve => match ev {
                StepEvent::GotText { body } => match get_captcha(body.as_str()) {
                    Some(c) => {
                        self.phase = Phase::AtResult;
                        StepAction::FetchResult {
                            url: result_url(
                                self.job.outer_id,
                                self.job.inner_id,
                                c.message.as_str(),
                            ),
                            referer: String::from_str(gateway_url()),
                            user_agent: String::from_str(user_agent()),
                        }
                    },
                    None => {
                        self.phase = Phase::Done;
                        StepAction::Report { outcome: VerificationOutcome::CaptchaFault }
                    },
                },
                StepEvent::GotBytes { .. } => {
                    self.phase = Phase::Done;
                    StepAction::Report { outcome: VerificationOutcome::OtherFault }
                },
                StepEvent::NetError { .. } => {
                    self.phase = Phase::Done;
                    StepAction::Report { outcome: VerificationOutcome::CaptchaFault }
                },
            },
            Phase::AtResult => match ev {
                StepEvent::GotText { body } => {
                    self.phase = Phase::Done;
                    let legacy = uses_legacy_template(self.job.outer_id);
                    StepAction::Report { outcome: classify_result(body.as_str(), legacy) }
                },
                StepEvent::GotBytes { .. } => {
                    self.phase = Phase::Done;
                    StepAction::Report { outcome: VerificationOutcome::OtherFault }
                },
                StepEvent::NetError { description } => {
                    self.phase = Phase::Done;
                    StepAction::Report { outcome: fault_outcome(description) }
                },
            },
            Phase::Done => {
                StepAction::Report { outcome: VerificationOutcome::OtherFault }
            },
        }
    }
}

/// Feeds a finished job's outcome back into the pool: a `ProxyFault` evicts
/// the handle and retires its id for good; every other outcome — success,
/// business failure, captcha or other fault — releases the handle, which
/// stays in the pool.
pub fn settle_outcome(pool: &mut ProxyPool, id: u64, outcome: &VerificationOutcome)
    requires
        old(pool).wf(),
        id < old(pool).next_id,
    ensures
        final(pool).wf(),
        final(pool).max_concurrent_uses == old(pool).max_concurrent_uses,
        final(pool).next_id == old(pool).next_id,
        outcome@ is ProxyFault ==> !final(pool).spec_has(id) && final(pool).retired@ == old(
            pool,
        ).retired@.insert(id),
        !(outcome@ is ProxyFault) ==> {
            &&& final(pool).retired == old(pool).retired
            &&& !old(pool).spec_has(id) ==> *final(pool) == *old(pool)
            &&& old(pool).spec_has(id) ==> {
                let k = old(pool).idx_of(id);
                if old(pool).handles@[k].in_use_count > 0 {
                    final(pool).handles@ == old(pool).handles@.update(
                        k,
                        (crate::pool::Proxy {
                            in_use_count: (old(pool).handles@[k].in_use_count - 1) as usize,
                            ..old(pool).handles@[k]
                        }),
                    )
                } else {
                    *final(pool) == *old(pool)
                }
            }
        },
{
    match outcome {
        VerificationOutcome::ProxyFault => pool.evict(id),
        _ => pool.release(id),
    }
}

} // verus!
