use std::cell::RefCell;

use openstack::error::{Error, ErrorKind};
use openstack::port_query::{PortQuery, PortSortKey};
use openstack::ports::{NetworkStatus, Port, PortRecord};
use openstack::pager::ResourceIterator;
use openstack::query::{Query, Sort};
use openstack::reference::ResourceRef;

fn port(id: &str) -> Port {
    Port::new(PortRecord {
        admin_state_up: true,
        created_at: None,
        description: None,
        device_id: None,
        device_owner: None,
        dns_domain: None,
        dns_name: None,
        extra_dhcp_opts: Vec::new(),
        fixed_ips: Vec::new(),
        id: id.to_string(),
        mac_address: [0; 6],
        name: None,
        network_id: "net".to_string(),
        project_id: None,
        security_groups: Vec::new(),
        status: NetworkStatus::Active,
        updated_at: None,
    })
}

fn param<'a>(q: &'a Query, key: &str) -> Option<&'a str> {
    q.0.iter().find(|(k, _)| k == key).map(|(_, v)| v.as_str())
}

/// A server holding `ids` that serves at most `max_page` items per call,
/// honouring `limit` and `marker`; every query is recorded.
fn server<'a>(
    ids: &'a [&'a str],
    max_page: usize,
    log: &'a RefCell<Vec<Query>>,
) -> impl Fn(&Query) -> Result<Vec<Port>, Error> + 'a {
    move |q: &Query| {
        log.borrow_mut().push(q.clone());
        let start = match param(q, "marker") {
            Some(m) => ids.iter().position(|i| *i == m).unwrap() + 1,
            None => 0,
        };
        let limit = param(q, "limit").map(|l| l.parse::<usize>().unwrap()).unwrap_or(usize::MAX);
        let n = limit.min(max_page);
        Ok(ids[start..].iter().take(n).map(|i| port(i)).collect())
    }
}

#[test]
fn collect_all_follows_markers() {
    let ids = ["a", "b", "c", "d", "e"];
    let log = RefCell::new(Vec::new());
    let list = server(&ids, 2, &log);
    let items = ResourceIterator::<Port>::new(Query::new(), 2).collect_all(&list).unwrap();
    let got: Vec<&str> = items.iter().map(|p| p.id().as_str()).collect();
    assert_eq!(got, ids.to_vec());
    let log = log.borrow();
    assert_eq!(log.len(), 3);
    assert_eq!(param(&log[0], "limit"), Some("2"));
    assert_eq!(param(&log[0], "marker"), None);
    assert_eq!(param(&log[1], "marker"), Some("b"));
    assert_eq!(param(&log[2], "marker"), Some("d"));
}

#[test]
fn collect_all_is_all_or_nothing() {
    let calls = RefCell::new(0);
    let list = |_: &Query| -> Result<Vec<Port>, Error> {
        *calls.borrow_mut() += 1;
        if *calls.borrow() == 1 {
            Ok(vec![port("a"), port("b")])
        } else {
            Err(Error::new(ErrorKind::TransportError, "lost".to_string()))
        }
    };
    let err = ResourceIterator::<Port>::new(Query::new(), 2).collect_all(&list).unwrap_err();
    assert_eq!(err.kind(), ErrorKind::TransportError);
    assert_eq!(*calls.borrow(), 2);
}

#[test]
fn manual_limit_disables_pagination() {
    let ids = ["a", "b", "c", "d", "e"];
    let log = RefCell::new(Vec::new());
    let list = server(&ids, 50, &log);
    let items = PortQuery::new().with_limit(2).all(&list).unwrap();
    assert_eq!(items.len(), 2);
    let log = log.borrow();
    assert_eq!(log.len(), 1);
    assert_eq!(log[0].0, vec![("limit".to_string(), "2".to_string())]);
}

#[test]
fn port_listing_asks_for_fifty() {
    let ids = ["a", "b", "c"];
    let log = RefCell::new(Vec::new());
    let list = server(&ids, 50, &log);
    let items = PortQuery::new().with_name("x".to_string()).all(&list).unwrap();
    assert_eq!(items.len(), 3);
    let log = log.borrow();
    assert_eq!(log.len(), 1);
    assert_eq!(
        log[0].0,
        vec![("name".to_string(), "x".to_string()), ("limit".to_string(), "50".to_string())]
    );
}

#[test]
fn one_over_no_items_is_not_found() {
    let log = RefCell::new(Vec::new());
    let list = server(&[], 50, &log);
    let err = PortQuery::new().one(&list).unwrap_err();
    assert_eq!(err.kind(), ErrorKind::ResourceNotFound);
    assert_eq!(log.borrow().len(), 1);
}

#[test]
fn one_over_two_items_is_too_many() {
    let ids = ["a", "b"];
    let log = RefCell::new(Vec::new());
    let list = server(&ids, 50, &log);
    let err = PortQuery::new().one(&list).unwrap_err();
    assert_eq!(err.kind(), ErrorKind::TooManyItems);
    let log = log.borrow();
    assert_eq!(log.len(), 1);
    assert_eq!(param(&log[0], "limit"), Some("2"));
}

#[test]
fn one_over_one_item() {
    let ids = ["only"];
    let log = RefCell::new(Vec::new());
    let list = server(&ids, 50, &log);
    let p = PortQuery::new().one(&list).unwrap();
    assert_eq!(p.id(), "only");
    assert_eq!(log.borrow().len(), 1);
}

#[test]
fn first_makes_one_call() {
    let ids = ["a", "b", "c"];
    let log = RefCell::new(Vec::new());
    let list = server(&ids, 50, &log);
    let p = PortQuery::new().into_iter().first(&list).unwrap().unwrap();
    assert_eq!(p.id(), "a");
    assert_eq!(log.borrow().len(), 1);
    let empty_log = RefCell::new(Vec::new());
    let empty = server(&[], 50, &empty_log);
    assert!(PortQuery::new().into_iter().first(&empty).unwrap().is_none());
}

#[test]
fn next_yields_in_server_order() {
    let ids = ["c", "a", "b"];
    let log = RefCell::new(Vec::new());
    let list = server(&ids, 50, &log);
    let mut it = ResourceIterator::<Port>::new(Query::new(), 50);
    assert_eq!(it.next(&list).unwrap().unwrap().id(), "c");
    assert_eq!(it.next(&list).unwrap().unwrap().id(), "a");
    assert_eq!(it.next(&list).unwrap().unwrap().id(), "b");
    assert!(it.next(&list).unwrap().is_none());
    assert!(it.next(&list).unwrap().is_none());
    assert_eq!(log.borrow().len(), 1);
}

#[test]
fn query_builders_keep_order() {
    let q = PortQuery::new()
        .with_network(ResourceRef::new("net-1".to_string()))
        .sort_by(Sort::Desc(PortSortKey::Name))
        .with_status(NetworkStatus::Down)
        .with_admin_state_up(false)
        .with_marker("m1".to_string());
    let log = RefCell::new(Vec::new());
    let list = server(&["m1", "z"], 50, &log);
    let items = q.all(&list).unwrap();
    assert_eq!(items.len(), 1);
    let log = log.borrow();
    assert_eq!(
        log[0].0,
        vec![
            ("network_id".to_string(), "net-1".to_string()),
            ("sort_key".to_string(), "name".to_string()),
            ("sort_dir".to_string(), "desc".to_string()),
            ("status".to_string(), "DOWN".to_string()),
            ("admin_state_up".to_string(), "false".to_string()),
            ("marker".to_string(), "m1".to_string()),
            ("limit".to_string(), "50".to_string()),
        ]
    );
}

#[test]
fn one_keeps_caller_limit() {
    let ids = ["a", "b", "c"];
    let log = RefCell::new(Vec::new());
    let list = server(&ids, 50, &log);
    let err = PortQuery::new().with_limit(3).one(&list).unwrap_err();
    assert_eq!(err.kind(), ErrorKind::TooManyItems);
    let log = log.borrow();
    assert_eq!(log.len(), 1);
    assert_eq!(log[0].0, vec![("limit".to_string(), "3".to_string())]);
}

#[test]
fn exhausted_listing_returns_pending_items() {
    let log = RefCell::new(Vec::new());
    let list = server(&["a"], 50, &log);
    let mut it = ResourceIterator::<Port>::new(Query::new(), 50);
    assert_eq!(it.next(&list).unwrap().unwrap().id(), "a");
    let rest = it.collect_all(&list).unwrap();
    assert!(rest.is_empty());
    assert_eq!(log.borrow().len(), 1);
}

#[test]
fn caller_marker_keeps_default_limit() {
    let log = RefCell::new(Vec::new());
    let list = server(&["a", "b", "c", "d"], 50, &log);
    let items = PortQuery::new().with_marker("b".to_string()).all(&list).unwrap();
    let got: Vec<&str> = items.iter().map(|p| p.id().as_str()).collect();
    assert_eq!(got, vec!["c", "d"]);
    let log = log.borrow();
    assert_eq!(log.len(), 1);
    assert_eq!(
        log[0].0,
        vec![("marker".to_string(), "b".to_string()), ("limit".to_string(), "50".to_string())]
    );
}
