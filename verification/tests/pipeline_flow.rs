use report_check::captcha::{get_captcha, solve_request_body, solve_request_for_image};
use report_check::classify::{classify_result, FailureReason, VerificationOutcome};
use report_check::generator::Job;
use report_check::pipeline::{settle_outcome, Pipeline, StepAction, StepEvent};
use report_check::pool::ProxyPool;
use report_check::urls::{captcha_url, result_url, uses_legacy_template};

fn job(outer: u64, inner: u64) -> Job {
    Job { outer_id: outer, inner_id: inner, success: false, content: String::new(), retry_budget: 0 }
}

#[test]
fn template_selection_boundary() {
    assert!(uses_legacy_template(2013999999));
    assert!(!uses_legacy_template(2014000000));
    assert_eq!(
        result_url(2013999999, 1, "TOK"),
        "https://www.chinadegrees.cn/cqva/report/rznb/report-rznb.html?appcod=2013999999&finishcod=0000000001&captcha=TOK&_r=12346"
    );
    assert_eq!(
        result_url(2014000000, 5, "TOK"),
        "http://www.chinadegrees.cn/cqva/report/result.html?appcod=2014000000&finishcod=5&captcha=TOK&_r=321648"
    );
}

#[test]
fn captcha_url_concatenates_identifiers() {
    assert_eq!(
        captcha_url(2014000001, 5),
        "https://www.chinadegrees.cn/cqva/captcha.html?20140000015"
    );
}

#[test]
fn solve_request_embeds_base64_verbatim() {
    // "ABC" encodes to "QUJD"; an encoder that handed its input back
    // unchanged would produce "ABC" here instead.
    assert_eq!(solve_request_for_image(&vec![65, 66, 67]), "{\"image\":\"QUJD\"}");
    assert_eq!(solve_request_for_image(&vec![]), "{\"image\":\"\"}");
    assert_eq!(solve_request_body("QUJD"), "{\"image\":\"QUJD\"}");
}

#[test]
fn solved_token_round_trips_into_result_url() {
    let data: Vec<u8> = vec![1, 2, 3, 255, 254];
    let request = solve_request_for_image(&data);
    // The mock solving service echoes the embedded encoding back verbatim.
    let prefix = "{\"image\":\"";
    let token = &request[prefix.len()..request.len() - 2];
    let url = result_url(2014000001, 5, token);
    assert!(url.contains(token));
    let legacy_url = result_url(2013999999, 5, token);
    assert!(legacy_url.contains(token));
}

#[test]
fn captcha_reply_parsing() {
    let c = get_captcha("{\"message\":\"ABCD\",\"code\":0,\"success\":true}").unwrap();
    assert_eq!(c.message, "ABCD");
    assert_eq!(c.code, 0);
    assert!(c.success);
    assert!(get_captcha("not json at all").is_none());
    assert!(get_captcha("{\"message\":\"ABCD\",\"code\":0}").is_none());
    assert!(get_captcha("{\"message\":7,\"code\":0,\"success\":true}").is_none());
}

#[test]
fn not_found_marker_is_transient_failure_under_both_templates() {
    let body = "<html>没有查询到该报告相关信息!</html>";
    for legacy in [true, false] {
        let r = classify_result(body, legacy);
        assert!(matches!(
            r,
            VerificationOutcome::Failure { reason: FailureReason::NotFoundOrTransient }
        ));
    }
    let body = "<html>发生错误，请稍后重试</html>";
    for legacy in [true, false] {
        let r = classify_result(body, legacy);
        assert!(matches!(
            r,
            VerificationOutcome::Failure { reason: FailureReason::NotFoundOrTransient }
        ));
    }
}

#[test]
fn classify_legacy_template() {
    let body = "<html class=\"alert-success\"><div id=\"textarea2\" rows=\"5\">THE TEXT<center></html>";
    match classify_result(body, true) {
        VerificationOutcome::Success { content } => assert_eq!(content, "THE TEXT"),
        _ => panic!("expected success"),
    }
    // Region present, marker absent.
    let body = "<html><div id=\"textarea2\" rows=\"5\">THE TEXT<center></html>";
    assert!(matches!(
        classify_result(body, true),
        VerificationOutcome::Failure { reason: FailureReason::Unsuccessful }
    ));
    // Region absent.
    let body = "<html>alert-success</html>";
    assert!(matches!(
        classify_result(body, true),
        VerificationOutcome::Failure { reason: FailureReason::UnparseableResult }
    ));
}

#[test]
fn classify_current_template() {
    let body = "<html>reportNumArea<div class=\"reportContent\">REPORT-XYZ<p align=\"center\"></html>";
    match classify_result(body, false) {
        VerificationOutcome::Success { content } => assert_eq!(content, "REPORT-XYZ"),
        _ => panic!("expected success"),
    }
    let body = "<html><div class=\"reportContent\">REPORT-XYZ<p align=\"center\"></html>";
    assert!(matches!(
        classify_result(body, false),
        VerificationOutcome::Failure { reason: FailureReason::Unsuccessful }
    ));
    let body = "<html>reportNumArea</html>";
    assert!(matches!(
        classify_result(body, false),
        VerificationOutcome::Failure { reason: FailureReason::UnparseableResult }
    ));
}

#[test]
fn settle_releases_on_failure_and_evicts_on_proxy_fault() {
    let mut pool = ProxyPool::new(2);
    let id = pool.insert_fresh(String::from("10.0.0.1:8000"));
    let fail = VerificationOutcome::Failure { reason: FailureReason::NotFoundOrTransient };
    settle_outcome(&mut pool, id, &fail);
    assert_eq!(pool.handles[0].in_use_count, 0);
    assert_eq!(pool.handles.len(), 1);
    pool.try_acquire();
    settle_outcome(&mut pool, id, &VerificationOutcome::ProxyFault);
    assert!(pool.handles.is_empty());
}

#[test]
fn end_to_end_current_template_success() {
    let mut pool = ProxyPool::new(10);
    let id = pool.insert_fresh(String::from("10.0.0.1:8000"));
    let before = pool.handles[0].in_use_count;

    let mut p = Pipeline::new(job(2014000001, 5));
    let a = p.start_action();
    let url = match a {
        StepAction::FetchGateway { url } => url,
        _ => panic!("expected gateway fetch"),
    };
    assert_eq!(url, "https://www.chinadegrees.cn/cqva/gateway.html");

    let a = p.advance(StepEvent::GotText { body: String::new() });
    match a {
        StepAction::FetchCaptchaImage { url } => {
            assert_eq!(url, "https://www.chinadegrees.cn/cqva/captcha.html?20140000015")
        },
        _ => panic!("expected captcha fetch"),
    }

    let a = p.advance(StepEvent::GotBytes { data: vec![1, 2, 3] });
    match a {
        StepAction::SolveCaptcha { url, body } => {
            assert_eq!(url, "http://106.13.192.37:19952/captcha/v1");
            assert_eq!(body, "{\"image\":\"AQID\"}");
        },
        _ => panic!("expected solve request"),
    }

    let reply = String::from("{\"message\":\"ABCD\",\"code\":0,\"success\":true}");
    let a = p.advance(StepEvent::GotText { body: reply });
    match a {
        StepAction::FetchResult { url, referer, user_agent } => {
            assert_eq!(
                url,
                "http://www.chinadegrees.cn/cqva/report/result.html?appcod=2014000001&finishcod=5&captcha=ABCD&_r=321648"
            );
            assert_eq!(referer, "https://www.chinadegrees.cn/cqva/gateway.html");
            assert!(user_agent.starts_with("Mozilla/5.0"));
        },
        _ => panic!("expected result fetch"),
    }

    let page = String::from(
        "<html>reportNumArea<div class=\"reportContent\">REPORT-XYZ<p align=\"center\"></html>",
    );
    let a = p.advance(StepEvent::GotText { body: page });
    let outcome = match a {
        StepAction::Report { outcome } => outcome,
        _ => panic!("expected report"),
    };
    match &outcome {
        VerificationOutcome::Success { content } => assert_eq!(content, "REPORT-XYZ"),
        _ => panic!("expected success"),
    }

    settle_outcome(&mut pool, id, &outcome);
    assert_eq!(pool.handles[0].in_use_count, before - 1);
}

#[test]
fn network_error_at_gateway_classifies_fault() {
    let mut p = Pipeline::new(job(2014000001, 5));
    let a = p.advance(StepEvent::NetError { description: String::from("proxy expire") });
    assert!(matches!(a, StepAction::Report { outcome: VerificationOutcome::ProxyFault }));

    let mut p = Pipeline::new(job(2014000001, 5));
    let a = p.advance(StepEvent::NetError { description: String::from("tls handshake failed") });
    assert!(matches!(a, StepAction::Report { outcome: VerificationOutcome::OtherFault }));
}

#[test]
fn unparsable_solver_reply_is_captcha_fault() {
    let mut p = Pipeline::new(job(2013999999, 1));
    p.advance(StepEvent::GotText { body: String::new() });
    p.advance(StepEvent::GotBytes { data: vec![9] });
    let a = p.advance(StepEvent::GotText { body: String::from("<garbage>") });
    assert!(matches!(a, StepAction::Report { outcome: VerificationOutcome::CaptchaFault }));
}
