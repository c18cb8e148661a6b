use std::cell::{Cell, RefCell};

use openstack::error::{Error, ErrorKind};
use openstack::new_port::{NewPort, PortIpRequest};
use openstack::ports::{IpAddress, NetworkStatus, Port, PortExtraDhcpOption, PortField, PortRecord, PortUpdate};
use openstack::reference::ResourceRef;
use openstack::timestamp::Timestamp;

fn record(id: &str, name: Option<&str>) -> PortRecord {
    PortRecord {
        admin_state_up: true,
        created_at: Timestamp::new(2018, 1, 1, 0, 0, 0, 0, 0),
        description: Some("server description".to_string()),
        device_id: None,
        device_owner: None,
        dns_domain: None,
        dns_name: None,
        extra_dhcp_opts: Vec::new(),
        fixed_ips: Vec::new(),
        id: id.to_string(),
        mac_address: [0xfa, 0x16, 0x3e, 0, 0, 1],
        name: name.map(|n| n.to_string()),
        network_id: "net-1".to_string(),
        project_id: None,
        security_groups: Vec::new(),
        status: NetworkStatus::Active,
        updated_at: None,
    }
}

#[test]
fn patch_carries_only_set_fields() {
    let mut port = Port::new(record("port-a", Some("old")));
    assert!(!port.is_dirty());
    port.set_name("new".to_string());
    assert!(port.is_dirty());
    assert!(port.is_field_set(PortField::Name));
    assert!(!port.is_field_set(PortField::Description));
    let patch = port.build_patch();
    assert_eq!(patch.name, Some(Some("new".to_string())));
    assert_eq!(patch.description, None);
    assert_eq!(patch.admin_state_up, None);
    assert_eq!(patch.mac_address, None);
    assert!(patch.extra_dhcp_opts.is_none());
}

#[test]
fn save_sends_patch_and_resyncs() {
    let mut port = Port::new(record("port-a", Some("old")));
    port.set_name("new".to_string());
    port.set_admin_state_up(false);
    let sent: RefCell<Vec<(String, PortUpdate)>> = RefCell::new(Vec::new());
    let update = |id: &String, u: PortUpdate| -> Result<PortRecord, Error> {
        sent.borrow_mut().push((id.clone(), u));
        let mut rec = record("port-a", Some("NEW"));
        rec.admin_state_up = false;
        Ok(rec)
    };
    port.save(&update).unwrap();
    let sent = sent.into_inner();
    assert_eq!(sent.len(), 1);
    assert_eq!(sent[0].0, "port-a");
    assert_eq!(sent[0].1.name, Some(Some("new".to_string())));
    assert_eq!(sent[0].1.admin_state_up, Some(false));
    assert_eq!(sent[0].1.description, None);
    assert!(!port.is_dirty());
    assert_eq!(port.name(), &Some("NEW".to_string()));
    assert!(!port.admin_state_up());
}

#[test]
fn failed_save_keeps_local_changes() {
    let mut port = Port::new(record("port-a", Some("old")));
    port.set_description("changed".to_string());
    let update = |_: &String, _: PortUpdate| -> Result<PortRecord, Error> {
        Err(Error::new(ErrorKind::TransportError, "down".to_string()))
    };
    assert_eq!(port.save(&update).unwrap_err().kind(), ErrorKind::TransportError);
    assert!(port.is_dirty());
    assert_eq!(port.description(), &Some("changed".to_string()));
}

#[test]
fn refresh_discards_unsaved_changes() {
    let mut port = Port::new(record("port-a", Some("server-name")));
    port.set_name("local".to_string());
    assert_eq!(port.name(), &Some("local".to_string()));
    let calls = Cell::new(0);
    let get = |id: &String| -> Result<PortRecord, Error> {
        calls.set(calls.get() + 1);
        Ok(record(id, Some("server-name")))
    };
    port.refresh(&get).unwrap();
    assert_eq!(calls.get(), 1);
    assert_eq!(port.name(), &Some("server-name".to_string()));
    assert!(!port.is_dirty());
}

#[test]
fn load_wraps_record() {
    let get = |id: &String| -> Result<PortRecord, Error> { Ok(record(id, None)) };
    let port = Port::load(&"port-i".to_string(), &get).unwrap();
    assert_eq!(port.id(), "port-i");
    assert!(!port.is_dirty());
    let missing = |_: &String| -> Result<PortRecord, Error> {
        Err(Error::new(ErrorKind::ResourceNotFound, "port-i".to_string()))
    };
    assert_eq!(Port::load(&"port-i".to_string(), &missing).unwrap_err().kind(), ErrorKind::ResourceNotFound);
}

#[test]
fn attached_to_server_checks_owner() {
    let mut rec = record("port-a", None);
    assert!(!Port::new(rec.clone()).attached_to_server());
    rec.device_owner = Some("compute:nova".to_string());
    assert!(Port::new(rec.clone()).attached_to_server());
    rec.device_owner = Some("network:dhcp".to_string());
    assert!(!Port::new(rec.clone()).attached_to_server());
    rec.device_owner = Some("compute".to_string());
    assert!(!Port::new(rec).attached_to_server());
}

#[test]
fn dhcp_options_mut_marks_field() {
    let mut port = Port::new(record("port-a", None));
    port.extra_dhcp_opts_mut().push(PortExtraDhcpOption {
        opt_name: "bootfile-name".to_string(),
        opt_value: "pxelinux.0".to_string(),
        ip_version: None,
    });
    assert!(port.is_field_set(PortField::ExtraDhcpOpts));
    let patch = port.build_patch();
    assert_eq!(patch.extra_dhcp_opts.unwrap()[0].opt_name, "bootfile-name");
}

#[test]
fn builders_set_fields() {
    let port = Port::new(record("port-a", None))
        .with_dns_name("host".to_string())
        .with_mac_address([1, 2, 3, 4, 5, 6]);
    assert_eq!(port.dns_name(), &Some("host".to_string()));
    assert_eq!(port.mac_address(), [1, 2, 3, 4, 5, 6]);
    let patch = port.build_patch();
    assert_eq!(patch.dns_name, Some(Some("host".to_string())));
    assert_eq!(patch.mac_address, Some([1, 2, 3, 4, 5, 6]));
    assert_eq!(patch.dns_domain, None);
}

#[test]
fn create_resolves_network_and_subnets() {
    let find_network = |v: &String| -> Result<String, Error> { Ok(format!("net-{}", v)) };
    let find_subnet = |v: &String| -> Result<String, Error> { Ok(format!("sub-{}", v)) };
    let sent: RefCell<Option<PortRecord>> = RefCell::new(None);
    let create = |rec: PortRecord| -> Result<PortRecord, Error> {
        *sent.borrow_mut() = Some(rec.clone());
        let mut out = rec;
        out.id = "new-port".to_string();
        Ok(out)
    };
    let request = NewPort::new(ResourceRef::new("private".to_string()))
        .with_fixed_ip(PortIpRequest::IpAddress(IpAddress::V4([10, 0, 0, 5])))
        .with_fixed_ip(PortIpRequest::AnyIpFromSubnet(ResourceRef::new("a".to_string())))
        .with_fixed_ip(PortIpRequest::IpFromSubnet(
            IpAddress::V4([10, 0, 1, 7]),
            ResourceRef::new_verified("b-id".to_string()),
        ));
    let port = request.create(&find_network, &find_subnet, &create).unwrap();
    assert_eq!(port.id(), "new-port");
    assert!(!port.is_dirty());
    let sent = sent.into_inner().unwrap();
    assert_eq!(sent.network_id, "net-private");
    assert!(sent.admin_state_up);
    assert_eq!(sent.fixed_ips.len(), 3);
    assert_eq!(sent.fixed_ips[0].ip_address, IpAddress::V4([10, 0, 0, 5]));
    assert_eq!(sent.fixed_ips[0].subnet_id, "");
    assert_eq!(sent.fixed_ips[1].ip_address, IpAddress::V4([0, 0, 0, 0]));
    assert_eq!(sent.fixed_ips[1].subnet_id, "sub-a");
    assert_eq!(sent.fixed_ips[2].ip_address, IpAddress::V4([10, 0, 1, 7]));
    assert_eq!(sent.fixed_ips[2].subnet_id, "b-id");
    assert_eq!(port.fixed_ips().len(), 3);
}

#[test]
fn create_stops_at_unresolvable_network() {
    let find_network = |_: &String| -> Result<String, Error> {
        Err(Error::new(ErrorKind::ResourceNotFound, "no network".to_string()))
    };
    let find_subnet = |v: &String| -> Result<String, Error> { Ok(v.clone()) };
    let created = Cell::new(false);
    let create = |rec: PortRecord| -> Result<PortRecord, Error> {
        created.set(true);
        Ok(rec)
    };
    let err = NewPort::new(ResourceRef::new("missing".to_string()))
        .create(&find_network, &find_subnet, &create)
        .unwrap_err();
    assert_eq!(err.kind(), ErrorKind::ResourceNotFound);
    assert!(!created.get());
}

#[test]
fn status_text_round_trip() {
    for st in [NetworkStatus::Active, NetworkStatus::Down, NetworkStatus::Build, NetworkStatus::Error] {
        assert_eq!(NetworkStatus::from_text(&st.as_text()), Some(st));
    }
    assert_eq!(NetworkStatus::from_text("active"), None);
}

#[test]
fn port_converts_to_verified_reference() {
    let r: openstack::reference::PortRef = Port::new(record("port-g", None)).into();
    assert!(r.is_verified());
    assert_eq!(r.value(), "port-g");
}

#[test]
fn cleared_field_is_sent_as_explicit_null() {
    let mut port = Port::new(record("port-a", Some("old")));
    port.clear_description();
    assert!(port.is_dirty());
    assert_eq!(port.description(), &None);
    let patch = port.build_patch();
    assert_eq!(patch.description, Some(None));
    assert_eq!(patch.name, None);
}

#[test]
fn timestamps_are_range_checked() {
    let t = Timestamp::new(2018, 2, 28, 23, 59, 60, 5, 3600).unwrap();
    assert_eq!((t.year, t.month, t.day, t.second, t.offset_seconds), (2018, 2, 28, 60, 3600));
    assert!(Timestamp::new(2018, 13, 1, 0, 0, 0, 0, 0).is_none());
    assert!(Timestamp::new(2018, 1, 0, 0, 0, 0, 0, 0).is_none());
    assert!(Timestamp::new(2018, 1, 1, 24, 0, 0, 0, 0).is_none());
    assert!(Timestamp::new(2018, 1, 1, 0, 0, 0, 0, 86400).is_none());
    let port = Port::new(record("port-a", None));
    assert_eq!(port.created_at(), Timestamp::new(2018, 1, 1, 0, 0, 0, 0, 0));
    assert_eq!(port.updated_at(), None);
}

#[test]
fn new_port_fields_are_sent() {
    let find = |v: &String| -> Result<String, Error> { Ok(v.clone()) };
    let sent: RefCell<Option<PortRecord>> = RefCell::new(None);
    let create = |rec: PortRecord| -> Result<PortRecord, Error> {
        *sent.borrow_mut() = Some(rec.clone());
        Ok(rec)
    };
    NewPort::new(ResourceRef::new_verified("net".to_string()))
        .with_name("web".to_string())
        .with_admin_state_up(false)
        .with_mac_address([2, 0, 0, 0, 0, 9])
        .with_dns_name("web-host".to_string())
        .create(&find, &find, &create)
        .unwrap();
    let sent = sent.into_inner().unwrap();
    assert_eq!(sent.name, Some("web".to_string()));
    assert!(!sent.admin_state_up);
    assert_eq!(sent.mac_address, [2, 0, 0, 0, 0, 9]);
    assert_eq!(sent.dns_name, Some("web-host".to_string()));
    assert_eq!(sent.description, None);
    assert_eq!(sent.network_id, "net");
}
