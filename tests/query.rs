use openstack::port_query::PortSortKey;
use openstack::query::{render_decimal, Query, Sort};

#[test]
fn decimal_rendering() {
    assert_eq!(render_decimal(0), "0");
    assert_eq!(render_decimal(7), "7");
    assert_eq!(render_decimal(50), "50");
    assert_eq!(render_decimal(1234567), "1234567");
    assert_eq!(render_decimal(usize::MAX), usize::MAX.to_string());
}

#[test]
fn query_push_keeps_order() {
    let mut q = Query::new();
    q.push_str("name", "x".to_string());
    q.push("limit", 2);
    q.push_bool("shared", true);
    assert_eq!(
        q.0,
        vec![
            ("name".to_string(), "x".to_string()),
            ("limit".to_string(), "2".to_string()),
            ("shared".to_string(), "true".to_string()),
        ]
    );
    assert!(q.has_param("limit"));
    assert!(!q.has_param("marker"));
    assert_eq!(q.duplicate().0, q.0);
}

#[test]
fn sort_pairs() {
    assert_eq!(Sort::Asc(PortSortKey::Id).into_pair(), ("id".to_string(), "asc".to_string()));
    assert_eq!(
        Sort::Desc(PortSortKey::NetworkId).into_pair(),
        ("network_id".to_string(), "desc".to_string())
    );
}
