use openstack::endpoint::Endpoint;
use openstack::version::{ApiVersion, ApiVersionRequest, ServiceInfo};

fn service_info(min: Option<u16>, max: Option<u16>) -> ServiceInfo {
    ServiceInfo {
        root_url: Endpoint::new("http".to_string(), "127.0.0.1".to_string()),
        minimum_version: min.map(|x| ApiVersion(2, x)),
        current_version: max.map(|x| ApiVersion(2, x)),
    }
}

#[test]
fn test_pick_version_exact() {
    let info = service_info(Some(1), Some(24));
    let version = ApiVersion(2, 22);
    let result = info.pick_api_version(ApiVersionRequest::Exact(version)).unwrap();
    assert_eq!(result, version);
}

#[test]
fn test_pick_version_exact_mismatch() {
    let info = service_info(Some(1), Some(24));
    let version = ApiVersion(2, 25);
    let res1 = info.pick_api_version(ApiVersionRequest::Exact(version));
    assert!(res1.is_none());
    let version2 = ApiVersion(1, 11);
    let res2 = info.pick_api_version(ApiVersionRequest::Exact(version2));
    assert!(res2.is_none());
}

#[test]
fn test_pick_version_exact_current_only() {
    let info = service_info(None, Some(24));
    let version = ApiVersion(2, 24);
    let result = info.pick_api_version(ApiVersionRequest::Exact(version)).unwrap();
    assert_eq!(result, version);
}

#[test]
fn test_pick_version_exact_current_only_mismatch() {
    let info = service_info(None, Some(24));
    let version = ApiVersion(2, 22);
    let result = info.pick_api_version(ApiVersionRequest::Exact(version));
    assert!(result.is_none());
}

#[test]
fn test_pick_version_minimum() {
    let info = service_info(Some(1), Some(24));
    let result = info.pick_api_version(ApiVersionRequest::Minimum).unwrap();
    assert_eq!(result, ApiVersion(2, 1));
}

#[test]
fn test_pick_version_minimum_unknown() {
    let info = service_info(None, Some(24));
    let result = info.pick_api_version(ApiVersionRequest::Minimum);
    assert!(result.is_none());
}

#[test]
fn test_pick_version_latest() {
    let info = service_info(Some(1), Some(24));
    let result = info.pick_api_version(ApiVersionRequest::Latest).unwrap();
    assert_eq!(result, ApiVersion(2, 24));
}

#[test]
fn test_pick_version_latest_unknown() {
    let info = service_info(Some(1), None);
    let result = info.pick_api_version(ApiVersionRequest::Latest);
    assert!(result.is_none());
}

#[test]
fn test_pick_version_choice() {
    let info = service_info(Some(1), Some(24));
    let choice = vec![ApiVersion(2, 0), ApiVersion(2, 2), ApiVersion(2, 22), ApiVersion(2, 25)];
    let result = info.pick_api_version(ApiVersionRequest::Choice(choice)).unwrap();
    assert_eq!(result, ApiVersion(2, 22));
}

#[test]
fn test_pick_version_choice_mismatch() {
    let info = service_info(Some(1), Some(24));
    let choice = vec![ApiVersion(2, 0), ApiVersion(2, 25)];
    let result = info.pick_api_version(ApiVersionRequest::Choice(choice));
    assert!(result.is_none());
}

#[test]
fn test_pick_version_choice_current_only() {
    let info = service_info(None, Some(24));
    let choice = vec![ApiVersion(2, 0), ApiVersion(2, 2), ApiVersion(2, 24), ApiVersion(2, 25)];
    let result = info.pick_api_version(ApiVersionRequest::Choice(choice)).unwrap();
    assert_eq!(result, ApiVersion(2, 24));
}

#[test]
fn test_pick_version_choice_current_only_mismatch() {
    let info = service_info(None, Some(24));
    let choice = vec![ApiVersion(2, 0), ApiVersion(2, 2), ApiVersion(2, 22), ApiVersion(2, 25)];
    let result = info.pick_api_version(ApiVersionRequest::Choice(choice));
    assert!(result.is_none());
}

#[test]
fn exact_stays_accepted_when_range_widens() {
    let v = ApiVersion(2, 10);
    let narrow = service_info(Some(5), Some(20));
    let wide = service_info(Some(1), Some(30));
    assert_eq!(narrow.pick_api_version(ApiVersionRequest::Exact(v)), Some(v));
    assert_eq!(wide.pick_api_version(ApiVersionRequest::Exact(v)), Some(v));
}

#[test]
fn exact_bounds_are_inclusive() {
    let info = service_info(Some(5), Some(20));
    assert_eq!(info.pick_api_version(ApiVersionRequest::Exact(ApiVersion(2, 5))), Some(ApiVersion(2, 5)));
    assert_eq!(info.pick_api_version(ApiVersionRequest::Exact(ApiVersion(2, 20))), Some(ApiVersion(2, 20)));
    assert_eq!(info.pick_api_version(ApiVersionRequest::Exact(ApiVersion(3, 0))), None);
}

#[test]
fn exact_without_current_is_refused() {
    let info = service_info(Some(1), None);
    assert_eq!(info.pick_api_version(ApiVersionRequest::Exact(ApiVersion(2, 1))), None);
}

#[test]
fn empty_choice_picks_nothing() {
    for (min, max) in [(Some(1), Some(24)), (None, Some(24)), (Some(1), None), (None, None)] {
        let info = service_info(min, max);
        assert!(info.pick_api_version(ApiVersionRequest::Choice(vec![])).is_none());
    }
}

#[test]
fn choice_picks_maximum_regardless_of_order() {
    let info = service_info(Some(1), Some(24));
    let choice = vec![ApiVersion(2, 22), ApiVersion(2, 25), ApiVersion(2, 2), ApiVersion(2, 0)];
    assert_eq!(info.pick_api_version(ApiVersionRequest::Choice(choice)), Some(ApiVersion(2, 22)));
}

#[test]
fn choice_compares_major_first() {
    let info = ServiceInfo {
        root_url: Endpoint::new("http".to_string(), "127.0.0.1".to_string()),
        minimum_version: Some(ApiVersion(1, 5)),
        current_version: Some(ApiVersion(2, 3)),
    };
    let choice = vec![ApiVersion(1, 90), ApiVersion(2, 1), ApiVersion(1, 4)];
    assert_eq!(info.pick_api_version(ApiVersionRequest::Choice(choice)), Some(ApiVersion(2, 1)));
}

#[test]
fn choice_without_current_picks_nothing() {
    let info = service_info(Some(1), None);
    let choice = vec![ApiVersion(2, 1), ApiVersion(2, 2)];
    assert!(info.pick_api_version(ApiVersionRequest::Choice(choice)).is_none());
}

#[test]
fn version_order() {
    assert!(ApiVersion(1, 99).is_at_most(&ApiVersion(2, 0)));
    assert!(ApiVersion(2, 3).is_at_most(&ApiVersion(2, 3)));
    assert!(!ApiVersion(2, 4).is_at_most(&ApiVersion(2, 3)));
}
