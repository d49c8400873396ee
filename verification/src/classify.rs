//! The result classifier: inspects a fetched result page under the selected
//! template. Two "not found / transient" markers name a business failure
//! that never evicts the proxy; otherwise a template-specific delimited
//! region yields the content and a template-specific marker decides success.

use vstd::prelude::*;
use crate::text::{
    contains_seq, contains_sub, find_from, first_match_from, has_match_from, is_first_match_from,
    lemma_first_match_unique,
};

verus! {

/// The business (non-fault) failure outcomes of a classified result page.
#[derive(Clone, Copy, Debug, PartialEq, Eq, Structural)]
pub enum FailureReason {
    /// The page says the report is unknown, or the portal asked to retry.
    NotFoundOrTransient,
    /// The delimited content region is absent.
    UnparseableResult,
    /// The region is present but the success marker is absent.
    Unsuccessful,
}

/// The terminal outcome of one job's verification.
pub enum VerificationOutcome {
    /// Verified: the extracted content region.
    Success { content: String },
    /// A business failure; the proxy is kept.
    Failure { reason: FailureReason },
    /// The proxy is dead or rejected; the worker evicts it.
    ProxyFault,
    /// The solving service failed; the proxy is kept.
    CaptchaFault,
    /// Anything else; the proxy is kept.
    OtherFault,
}

/// The mathematical shape of a `VerificationOutcome`.
pub enum OutcomeModel {
    Success(Seq<char>),
    Failure(FailureReason),
    ProxyFault,
    CaptchaFault,
    OtherFault,
}

impl View for VerificationOutcome {
    type V = OutcomeModel;

    open spec fn view(&self) -> OutcomeModel {
        match self {
            VerificationOutcome::Success { content } => OutcomeModel::Success(content@),
            VerificationOutcome::Failure { reason } => OutcomeModel::Failure(*reason),
            VerificationOutcome::ProxyFault => OutcomeModel::ProxyFault,
            VerificationOutcome::CaptchaFault => OutcomeModel::CaptchaFault,
            VerificationOutcome::OtherFault => OutcomeModel::OtherFault,
        }
    }
}

/// The portal's "no such report" marker.
pub open spec fn marker_not_found() -> Seq<char> {
    "没有查询到该报告相关信息!"@
}

/// The portal's "error, retry later" marker.
pub open spec fn marker_transient() -> Seq<char> {
    "发生错误，请稍后重试"@
}

/// The template-specific success marker.
pub open spec fn success_marker(legacy: bool) -> Seq<char> {
    if legacy {
        "alert-success"@
    } else {
        "reportNumArea"@
    }
}

/// The content region of a result page under the selected template: for the
/// legacy template, the text between the first `>` that closes the first
/// `<div id="textarea2"` opening and the first `<center` after it; for the
/// current template, the text between the first
/// `<div class="reportContent">` and the first `<p align="center"` after it.
/// Nothing when a delimiter is absent.
pub open spec fn spec_extract(body: Seq<char>, legacy: bool) -> Option<Seq<char>> {
    if legacy {
        let open = "<div id=\"textarea2\""@;
        if has_match_from(body, open, 0) {
            let i = first_match_from(body, open, 0);
            if has_match_from(body, ">"@, i + open.len()) {
                let s = first_match_from(body, ">"@, i + open.len()) + 1;
                if has_match_from(body, "<center"@, s) {
                    Some(body.subrange(s, first_match_from(body, "<center"@, s)))
                } else {
                    None
                }
            } else {
                None
            }
        } else {
            None
        }
    } else {
        let open = "<div class=\"reportContent\">"@;
        if has_match_from(body, open, 0) {
            let s = first_match_from(body, open, 0) + open.len();
            if has_match_from(body, "<p align=\"center\""@, s) {
                Some(body.subrange(s, first_match_from(body, "<p align=\"center\""@, s)))
            } else {
                None
            }
        } else {
            None
        }
    }
}

/// The classification of a result page: the two "not found / transient"
/// markers name the business failure first, whatever the template; then an
/// absent region is unparseable; then the success marker decides between
/// success with the region's content and an unsuccessful verification.
pub open spec fn spec_classify(body: Seq<char>, legacy: bool) -> OutcomeModel {
    if contains_seq(body, marker_not_found()) || contains_seq(body, marker_transient()) {
        OutcomeModel::Failure(FailureReason::NotFoundOrTransient)
    } else {
        match spec_extract(body, legacy) {
            None => OutcomeModel::Failure(FailureReason::UnparseableResult),
            Some(c) => if contains_seq(body, success_marker(legacy)) {
                OutcomeModel::Success(c)
            } else {
                OutcomeModel::Failure(FailureReason::Unsuccessful)
            },
        }
    }
}

/// A page carrying the "no such report" marker classifies as the
/// not-found-or-transient failure under either template — an outcome that
/// keeps the proxy (see `settle_outcome`).
pub proof fn lemma_not_found_marker(body: Seq<char>, legacy: bool)
    requires
        contains_seq(body, marker_not_found()),
    ensures
        spec_classify(body, legacy) == OutcomeModel::Failure(FailureReason::NotFoundOrTransient),
{
}

/// The classifier yields only business outcomes: never a fault, so a
/// classified page never evicts a proxy.
pub proof fn lemma_classifier_never_faults(body: Seq<char>, legacy: bool)
    ensures
        spec_classify(body, legacy) is Success || spec_classify(body, legacy) is Failure,
{
}

/// Classifies a fetched result page under the selected template.
pub fn classify_result(body: &str, legacy: bool) -> (r: VerificationOutcome)
    ensures
        r@ == spec_classify(body@, legacy),
{
    if contains_sub(body, "没有查询到该报告相关信息!") || contains_sub(body, "发生错误，请稍后重试") {
        return VerificationOutcome::Failure { reason: FailureReason::NotFoundOrTransient };
    }
    let tl = body.unicode_len();
    if legacy {
        let open = "<div id=\"textarea2\"";
        let ol = open.unicode_len();
        match find_from(body, open, 0) {
            None => VerificationOutcome::Failure { reason: FailureReason::UnparseableResult },
            Some(i) => {
                proof {
                    lemma_first_match_unique(body@, open@, 0, i as int);
                }
                match find_from(body, ">", i + ol) {
                    None => VerificationOutcome::Failure {
                        reason: FailureReason::UnparseableResult,
                    },
                    Some(g) => {
                        proof {
                            reveal_strlit(">");
                            lemma_first_match_unique(body@, ">"@, i + ol, g as int);
                            assert(g + ">"@.len() <= body@.len());
                        }
                        let start = g + 1;
                        match find_from(body, "<center", start) {
                            None => VerificationOutcome::Failure {
                                reason: FailureReason::UnparseableResult,
                            },
                            Some(e) => {
                                proof {
                                    lemma_first_match_unique(
                                        body@,
                                        "<center"@,
                                        start as int,
                                        e as int,
                                    );
                                }
                                let content = String::from_str(body.substring_char(start, e));
                                if contains_sub(body, "alert-success") {
                                    VerificationOutcome::Success { content }
                                } else {
                                    VerificationOutcome::Failure {
                                        reason: FailureReason::Unsuccessful,
                                    }
                                }
                            },
                        }
                    },
                }
            },
        }
    } else {
        let open = "<div class=\"reportContent\">";
        let ol = open.unicode_len();
        match find_from(body, open, 0) {
            None => VerificationOutcome::Failure { reason: FailureReason::UnparseableResult },
            Some(i) => {
                proof {
                    lemma_first_match_unique(body@, open@, 0, i as int);
                }
                let start = i + ol;
                match find_from(body, "<p align=\"center\"", start) {
                    None => VerificationOutcome::Failure {
                        reason: FailureReason::UnparseableResult,
                    },
                    Some(e) => {
                        proof {
                            lemma_first_match_unique(
                                body@,
                                "<p align=\"center\""@,
                                start as int,
                                e as int,
                            );
                        }
                        let content = String::from_str(body.substring_char(start, e));
                        if contains_sub(body, "reportNumArea") {
                            VerificationOutcome::Success { content }
                        } else {
                            VerificationOutcome::Failure { reason: FailureReason::Unsuccessful }
                        }
                    },
                }
            },
        }
    }
}

} // verus!
