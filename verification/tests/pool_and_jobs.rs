use report_check::error::{CheckError, CheckErrorKind};
use report_check::generator::Generator;
use report_check::pool::ProxyPool;
use report_check::text::{contains_sub, find_from, u64_to_dec, u64_to_dec_pad10};

#[test]
fn pool_bounds_concurrent_use() {
    let mut pool = ProxyPool::new(2);
    assert!(pool.try_acquire().is_none());
    let id0 = pool.insert_fresh(String::from("10.0.0.1:8000"));
    assert_eq!(pool.handles[0].in_use_count, 1);
    assert_eq!(pool.try_acquire(), Some(id0));
    assert_eq!(pool.handles[0].in_use_count, 2);
    // The handle is saturated at the cap: no further acquisition uses it.
    assert!(pool.try_acquire().is_none());
    assert_eq!(pool.handles[0].in_use_count, 2);
}

#[test]
fn pool_release_decrements_and_tolerates_unknown_ids() {
    let mut pool = ProxyPool::new(3);
    let id0 = pool.insert_fresh(String::from("10.0.0.1:8000"));
    pool.try_acquire();
    assert_eq!(pool.handles[0].in_use_count, 2);
    pool.release(id0);
    assert_eq!(pool.handles[0].in_use_count, 1);
    // A release racing an eviction targets an id that is gone: a no-op.
    pool.release(id0 + 1000);
    assert_eq!(pool.handles[0].in_use_count, 1);
    pool.release(id0);
    assert_eq!(pool.handles[0].in_use_count, 0);
    pool.release(id0);
    assert_eq!(pool.handles[0].in_use_count, 0);
}

#[test]
fn pool_first_fit_prefers_earliest_handle() {
    let mut pool = ProxyPool::new(1);
    let id0 = pool.insert_fresh(String::from("10.0.0.1:8000"));
    let id1 = pool.insert_fresh(String::from("10.0.0.2:8000"));
    pool.release(id0);
    // Only the first handle has spare capacity after its release.
    assert_eq!(pool.try_acquire(), Some(id0));
    assert!(pool.try_acquire().is_none());
    pool.release(id1);
    assert_eq!(pool.try_acquire(), Some(id1));
}

#[test]
fn evicted_id_is_never_returned_again() {
    let mut pool = ProxyPool::new(2);
    let id0 = pool.insert_fresh(String::from("10.0.0.1:8000"));
    pool.evict(id0);
    assert!(pool.handles.is_empty());
    assert!(pool.try_acquire().is_none());
    let id1 = pool.insert_fresh(String::from("10.0.0.2:8000"));
    assert_ne!(id1, id0);
    let again = pool.try_acquire();
    assert_eq!(again, Some(id1));
    assert_ne!(again, Some(id0));
}

#[test]
fn evict_ignores_counts_and_keeps_others() {
    let mut pool = ProxyPool::new(2);
    let id0 = pool.insert_fresh(String::from("10.0.0.1:8000"));
    let id1 = pool.insert_fresh(String::from("10.0.0.2:8000"));
    pool.try_acquire();
    pool.evict(id0);
    assert_eq!(pool.handles.len(), 1);
    assert_eq!(pool.handles[0].id, id1);
    assert_eq!(pool.handles[0].in_use_count, 1);
}

#[test]
fn generator_enumerates_inner_range_then_advances_outer() {
    let mut g = Generator::new(100, 5, 8, 0);
    let expected: [(u64, u64); 7] =
        [(100, 5), (100, 6), (100, 7), (101, 5), (101, 6), (101, 7), (102, 5)];
    for (outer, inner) in expected {
        let job = g.next_job();
        assert_eq!(job.outer_id, outer);
        assert_eq!(job.inner_id, inner);
        assert!(!job.success);
        assert_eq!(job.content, String::new());
    }
}

#[test]
fn generator_single_inner_value_advances_every_step() {
    let mut g = Generator::new(7, 3, 4, 2);
    let a = g.next_job();
    let b = g.next_job();
    assert_eq!((a.outer_id, a.inner_id), (7, 3));
    assert_eq!((b.outer_id, b.inner_id), (8, 3));
    assert_eq!(a.retry_budget, 2);
}

#[test]
fn error_kind_classification_is_exact() {
    let e = CheckError::from_description(String::from("proxy expire"));
    assert!(matches!(e.kind(), CheckErrorKind::ProxyExpire));
    let e = CheckError::from_description(String::from("captcha error"));
    assert!(matches!(e.kind(), CheckErrorKind::CaptchaError));
    let e = CheckError::from_description(String::from("connection reset by peer"));
    assert!(matches!(e.kind(), CheckErrorKind::Other));
    // A prefix is not the canonical text.
    let e = CheckError::from_description(String::from("proxy expired"));
    assert!(matches!(e.kind(), CheckErrorKind::Other));
}

#[test]
fn error_kind_round_trips_through_its_text() {
    for kind in [CheckErrorKind::ProxyExpire, CheckErrorKind::CaptchaError, CheckErrorKind::Other]
    {
        let e = CheckError::from_kind(kind);
        assert_eq!(e.description(), kind.as_str());
    }
    assert_eq!(CheckErrorKind::ProxyExpire.as_str(), "proxy expire");
    assert_eq!(CheckErrorKind::CaptchaError.as_str(), "captcha error");
    assert_eq!(CheckErrorKind::Other.as_str(), "other");
    assert!(matches!(
        CheckError::from_kind(CheckErrorKind::ProxyExpire).kind(),
        CheckErrorKind::ProxyExpire
    ));
}

#[test]
fn decimal_rendering_is_exact() {
    assert_eq!(u64_to_dec(0), "0");
    assert_eq!(u64_to_dec(7), "7");
    assert_eq!(u64_to_dec(2014000000), "2014000000");
    assert_eq!(u64_to_dec(u64::MAX), "18446744073709551615");
    assert_eq!(u64_to_dec_pad10(1), "0000000001");
    assert_eq!(u64_to_dec_pad10(1234567890), "1234567890");
    assert_eq!(u64_to_dec_pad10(12345678901), "12345678901");
}

#[test]
fn substring_search_finds_first_occurrence() {
    assert_eq!(find_from("abcabc", "bc", 0), Some(1));
    assert_eq!(find_from("abcabc", "bc", 2), Some(4));
    assert_eq!(find_from("abcabc", "bd", 0), None);
    assert_eq!(find_from("abc", "", 1), Some(1));
    assert_eq!(find_from("abc", "abcd", 0), None);
    assert!(contains_sub("报告相关信息", "相关"));
    assert!(!contains_sub("报告相关信息", "查询"));
}
