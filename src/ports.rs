//! Ports and the tracking of their local changes.

use vstd::prelude::*;

use crate::error::Error;
use crate::pager::ResourceId;
use crate::reference::ResourceRef;
use crate::text::{starts_with, text_equals};
use crate::timestamp::Timestamp;
use crate::tracker::ChangeTracker;

verus! {

/// Status of a network resource.
#[derive(Clone, Copy, Debug, PartialEq, Eq, Structural)]
pub enum NetworkStatus {
    Active,
    Down,
    Build,
    Error,
}

/// IP protocol version.
#[derive(Clone, Copy, Debug, PartialEq, Eq, Structural)]
pub enum IpVersion {
    V4,
    V6,
}

/// An IP address: four octets, or eight 16-bit groups.
#[derive(Clone, Copy, Debug, PartialEq, Eq)]
pub enum IpAddress {
    V4([u8; 4]),
    V6([u16; 8]),
}

/// An extra DHCP option of a port.
#[derive(Clone, Debug)]
pub struct PortExtraDhcpOption {
    pub opt_name: String,
    pub opt_value: String,
    pub ip_version: Option<IpVersion>,
}

/// A fixed IP address of a port.
#[derive(Clone, Debug)]
pub struct PortIpAddress {
    /// IP address.
    pub ip_address: IpAddress,
    /// ID of the subnet the address belongs to.
    pub subnet_id: String,
}

/// A port as the server describes it.
#[derive(Clone, Debug)]
pub struct PortRecord {
    pub admin_state_up: bool,
    pub created_at: Option<Timestamp>,
    pub description: Option<String>,
    pub device_id: Option<String>,
    pub device_owner: Option<String>,
    pub dns_domain: Option<String>,
    pub dns_name: Option<String>,
    pub extra_dhcp_opts: Vec<PortExtraDhcpOption>,
    pub fixed_ips: Vec<PortIpAddress>,
    pub id: String,
    pub mac_address: [u8; 6],
    pub name: Option<String>,
    pub network_id: String,
    pub project_id: Option<String>,
    pub security_groups: Vec<String>,
    pub status: NetworkStatus,
    pub updated_at: Option<Timestamp>,
}

/// A partial update of a port: `None` leaves a field as it is on the
/// server. An optional field is sent as `Some(None)` to clear it and as
/// `Some(Some(v))` to set it.
#[derive(Clone, Debug)]
pub struct PortUpdate {
    pub admin_state_up: Option<bool>,
    pub description: Option<Option<String>>,
    pub device_id: Option<Option<String>>,
    pub device_owner: Option<Option<String>>,
    pub dns_domain: Option<Option<String>>,
    pub dns_name: Option<Option<String>>,
    pub extra_dhcp_opts: Option<Vec<PortExtraDhcpOption>>,
    pub mac_address: Option<[u8; 6]>,
    pub name: Option<Option<String>>,
}

/// The fields of a port that can be updated.
#[derive(Clone, Copy, Debug, PartialEq, Eq, Structural)]
pub enum PortField {
    AdminStateUp,
    Description,
    DeviceId,
    DeviceOwner,
    DnsDomain,
    DnsName,
    ExtraDhcpOpts,
    MacAddress,
    Name,
}

/// The number of updatable fields.
pub const PORT_FIELD_COUNT: usize = 9;

impl PortField {
    pub open spec fn spec_index(self) -> nat {
        match self {
            PortField::AdminStateUp => 0,
            PortField::Description => 1,
            PortField::DeviceId => 2,
            PortField::DeviceOwner => 3,
            PortField::DnsDomain => 4,
            PortField::DnsName => 5,
            PortField::ExtraDhcpOpts => 6,
            PortField::MacAddress => 7,
            PortField::Name => 8,
        }
    }

    /// The position of this field in a change tracker.
    pub fn index(self) -> (r: usize)
        ensures
            r == self.spec_index(),
            r < PORT_FIELD_COUNT,
    {
        match self {
            PortField::AdminStateUp => 0,
            PortField::Description => 1,
            PortField::DeviceId => 2,
            PortField::DeviceOwner => 3,
            PortField::DnsDomain => 4,
            PortField::DnsName => 5,
            PortField::ExtraDhcpOpts => 6,
            PortField::MacAddress => 7,
            PortField::Name => 8,
        }
    }
}

/// A copy of a DHCP option list.
fn copy_dhcp_opts(v: &Vec<PortExtraDhcpOption>) -> (r: Vec<PortExtraDhcpOption>)
    ensures
        r@ == v@,
{
    let mut out: Vec<PortExtraDhcpOption> = Vec::new();
    let mut i: usize = 0;
    while i < v.len()
        invariant
            i <= v@.len(),
            out@ == v@.subrange(0, i as int),
        decreases v@.len() - i,
    {
        let o = &v[i];
        out.push(
            PortExtraDhcpOption {
                opt_name: o.opt_name.clone(),
                opt_value: o.opt_value.clone(),
                ip_version: o.ip_version,
            },
        );
        i = i + 1;
        assert(out@ =~= v@.subrange(0, i as int));
    }
    assert(v@.subrange(0, v@.len() as int) =~= v@);
    out
}

/// A copy of an optional string.
fn copy_opt(v: &Option<String>) -> (r: Option<String>)
    ensures
        r == *v,
{
    match v {
        Some(s) => Some(s.clone()),
        None => None,
    }
}

/// Whether a device owner names a compute server.
pub open spec fn is_compute_owner(owner: Option<String>) -> bool {
    match owner {
        Some(o) => o@.len() >= 8 && o@.subrange(0, 8) == "compute:"@,
        None => false,
    }
}

/// Whether a partial update mentions field `f`.
pub open spec fn mentions(u: PortUpdate, f: PortField) -> bool {
    match f {
        PortField::AdminStateUp => u.admin_state_up is Some,
        PortField::Description => u.description is Some,
        PortField::DeviceId => u.device_id is Some,
        PortField::DeviceOwner => u.device_owner is Some,
        PortField::DnsDomain => u.dns_domain is Some,
        PortField::DnsName => u.dns_name is Some,
        PortField::ExtraDhcpOpts => u.extra_dhcp_opts is Some,
        PortField::MacAddress => u.mac_address is Some,
        PortField::Name => u.name is Some,
    }
}

/// A port - a virtual NIC - with the fields changed locally since it was
/// last loaded or saved.
#[derive(Clone, Debug)]
pub struct Port {
    inner: PortRecord,
    dirty: ChangeTracker,
}

impl Port {
    /// The tracker covers every updatable field.
    pub closed spec fn wf(&self) -> bool {
        self.dirty@.len() == PORT_FIELD_COUNT
    }

    /// The port as last loaded, with the local changes applied.
    pub closed spec fn record(&self) -> PortRecord {
        self.inner
    }

    /// Whether field `f` was set since the port was last loaded or saved.
    pub closed spec fn is_set(&self, f: PortField) -> bool {
        self.dirty@[f.spec_index() as int]
    }

    /// No field was set since the port was last loaded or saved.
    pub open spec fn is_clean(&self) -> bool {
        forall|f: PortField| !#[trigger] self.is_set(f)
    }

    /// `u` carries the current value of each field that was set, and `None`
    /// for each one that was not.
    pub open spec fn is_patch(&self, u: PortUpdate) -> bool {
        let rec = self.record();
        &&& u.admin_state_up == if self.is_set(PortField::AdminStateUp) {
            Some(rec.admin_state_up)
        } else {
            None
        }
        &&& u.description == if self.is_set(PortField::Description) {
            Some(rec.description)
        } else {
            None
        }
        &&& u.device_id == if self.is_set(PortField::DeviceId) {
            Some(rec.device_id)
        } else {
            None
        }
        &&& u.device_owner == if self.is_set(PortField::DeviceOwner) {
            Some(rec.device_owner)
        } else {
            None
        }
        &&& u.dns_domain == if self.is_set(PortField::DnsDomain) {
            Some(rec.dns_domain)
        } else {
            None
        }
        &&& u.dns_name == if self.is_set(PortField::DnsName) {
            Some(rec.dns_name)
        } else {
            None
        }
        &&& if self.is_set(PortField::ExtraDhcpOpts) {
            u.extra_dhcp_opts matches Some(v) && v@ == rec.extra_dhcp_opts@
        } else {
            u.extra_dhcp_opts is None
        }
        &&& u.mac_address == if self.is_set(PortField::MacAddress) {
            Some(rec.mac_address)
        } else {
            None
        }
        &&& u.name == if self.is_set(PortField::Name) {
            Some(rec.name)
        } else {
            None
        }
    }

    /// `self` differs from `before` by the record `rec` and by field `f`
    /// being marked as set.
    pub open spec fn after_set(&self, before: Port, rec: PortRecord, f: PortField) -> bool {
        &&& self.record() == rec
        &&& forall|g: PortField| #[trigger] self.is_set(g) == (before.is_set(g) || g == f)
    }

    /// Wrap a record loaded from the server; no field is marked as set.
    pub fn new(inner: PortRecord) -> (r: Port)
        ensures
            r.wf(),
            r.record() == inner,
            r.is_clean(),
    {
        Port { inner, dirty: ChangeTracker::new(PORT_FIELD_COUNT) }
    }

    /// Load the port with the given ID through `get_port`.
    pub fn load<F: Fn(&String) -> Result<PortRecord, Error>>(id: &String, get_port: &F) -> (r:
        Result<Port, Error>)
        requires
            forall|i: &String| #[trigger] get_port.requires((i,)),
        ensures
            exists|res: Result<PortRecord, Error>|
                #[trigger] get_port.ensures((id,), res) && match res {
                    Ok(rec) => r matches Ok(p) && p.wf() && p.record() == rec && p.is_clean(),
                    Err(e) => r == Err::<Port, Error>(e),
                },
    {
        match get_port(id) {
            Ok(rec) => Ok(Port::new(rec)),
            Err(e) => Err(e),
        }
    }

    /// Whether the port was modified since it was last loaded or saved.
    pub fn is_dirty(&self) -> (r: bool)
        requires
            self.wf(),
        ensures
            r == !self.is_clean(),
    {
        let r = self.dirty.is_dirty();
        proof {
            if r {
                let i = choose|i: int| 0 <= i < self.dirty@.len() && #[trigger] self.dirty@[i];
                let f = if i == 0 {
                    PortField::AdminStateUp
                } else if i == 1 {
                    PortField::Description
                } else if i == 2 {
                    PortField::DeviceId
                } else if i == 3 {
                    PortField::DeviceOwner
                } else if i == 4 {
                    PortField::DnsDomain
                } else if i == 5 {
                    PortField::DnsName
                } else if i == 6 {
                    PortField::ExtraDhcpOpts
                } else if i == 7 {
                    PortField::MacAddress
                } else {
                    PortField::Name
                };
                assert(self.is_set(f));
            } else {
                assert forall|f: PortField| !#[trigger] self.is_set(f) by {
                    assert(!self.dirty@[f.spec_index() as int]);
                }
            }
        }
        r
    }

    /// Whether field `f` was set since the port was last loaded or saved.
    pub fn is_field_set(&self, f: PortField) -> (r: bool)
        requires
            self.wf(),
        ensures
            r == self.is_set(f),
    {
        self.dirty.is_marked(f.index())
    }

    fn mark(&mut self, f: PortField)
        requires
            old(self).wf(),
        ensures
            final(self).wf(),
            final(self).record() == old(self).record(),
            final(self).dirty@ == old(self).dirty@.update(f.spec_index() as int, true),
            forall|g: PortField| #[trigger] final(self).is_set(g) == (old(self).is_set(g) || g == f),
    {
        self.dirty.mark(f.index());
    }

    /// The partial update that carries the fields set since the port was
    /// last loaded or saved.
    pub fn build_patch(&self) -> (r: PortUpdate)
        requires
            self.wf(),
        ensures
            self.is_patch(r),
    {
        let rec = &self.inner;
        PortUpdate {
            admin_state_up: if self.is_field_set(PortField::AdminStateUp) {
                Some(rec.admin_state_up)
            } else {
                None
            },
            description: if self.is_field_set(PortField::Description) {
                Some(copy_opt(&rec.description))
            } else {
                None
            },
            device_id: if self.is_field_set(PortField::DeviceId) {
                Some(copy_opt(&rec.device_id))
            } else {
                None
            },
            device_owner: if self.is_field_set(PortField::DeviceOwner) {
                Some(copy_opt(&rec.device_owner))
            } else {
                None
            },
            dns_domain: if self.is_field_set(PortField::DnsDomain) {
                Some(copy_opt(&rec.dns_domain))
            } else {
                None
            },
            dns_name: if self.is_field_set(PortField::DnsName) {
                Some(copy_opt(&rec.dns_name))
            } else {
                None
            },
            extra_dhcp_opts: if self.is_field_set(PortField::ExtraDhcpOpts) {
                Some(copy_dhcp_opts(&rec.extra_dhcp_opts))
            } else {
                None
            },
            mac_address: if self.is_field_set(PortField::MacAddress) {
                Some(rec.mac_address)
            } else {
                None
            },
            name: if self.is_field_set(PortField::Name) {
                Some(copy_opt(&rec.name))
            } else {
                None
            },
        }
    }

    /// Save the changes: send the partial update through `update_port`, then
    /// take the server's answer as the new state with no field set. On
    /// failure the port stays as it was.
    pub fn save<F: Fn(&String, PortUpdate) -> Result<PortRecord, Error>>(
        &mut self,
        update_port: &F,
    ) -> (r: Result<(), Error>)
        requires
            old(self).wf(),
            forall|i: &String, u: PortUpdate| #[trigger] update_port.requires((i, u)),
        ensures
            final(self).wf(),
            exists|u: PortUpdate, res: Result<PortRecord, Error>|
                #[trigger] update_port.ensures((&old(self).record().id, u), res) && old(self).is_patch(u)
                    && match res {
                    Ok(rec) => r is Ok && final(self).record() == rec && final(self).is_clean(),
                    Err(e) => r == Err::<(), Error>(e) && *final(self) == *old(self),
                },
    {
        let update = self.build_patch();
        match update_port(&self.inner.id, update) {
            Ok(rec) => {
                *self = Port::new(rec);
                Ok(())
            },
            Err(e) => Err(e),
        }
    }

    /// Re-fetch the port through `get_port`, discarding local changes. On
    /// failure the port stays as it was.
    pub fn refresh<F: Fn(&String) -> Result<PortRecord, Error>>(&mut self, get_port: &F) -> (r:
        Result<(), Error>)
        requires
            old(self).wf(),
            forall|i: &String| #[trigger] get_port.requires((i,)),
        ensures
            final(self).wf(),
            exists|res: Result<PortRecord, Error>|
                #[trigger] get_port.ensures((&old(self).record().id,), res) && match res {
                    Ok(rec) => r is Ok && final(self).record() == rec && final(self).is_clean(),
                    Err(e) => r == Err::<(), Error>(e) && *final(self) == *old(self),
                },
    {
        match get_port(&self.inner.id) {
            Ok(rec) => {
                *self = Port::new(rec);
                Ok(())
            },
            Err(e) => Err(e),
        }
    }
}

impl Port {
    /// Whether the device owner is a compute server.
    pub fn attached_to_server(&self) -> (r: bool)
        ensures
            r == is_compute_owner(self.record().device_owner),
    {
        match &self.inner.device_owner {
            Some(x) => {
                let r = starts_with(x.as_str(), "compute:");
                proof {
                    reveal_strlit("compute:");
                }
                r
            },
            None => false,
        }
    }

    /// Mutable access to the DHCP options; they count as set.
    pub fn extra_dhcp_opts_mut(&mut self) -> (r: &mut Vec<PortExtraDhcpOption>)
        requires
            old(self).wf(),
        ensures
            *r == old(self).record().extra_dhcp_opts,
            final(self).wf(),
            final(self).record() == (PortRecord { extra_dhcp_opts: *final(r), ..old(self).record() }),
            forall|g: PortField|
                #[trigger] final(self).is_set(g) == (old(self).is_set(g) || g == PortField::ExtraDhcpOpts),
    {
        self.mark(PortField::ExtraDhcpOpts);
        &mut self.inner.extra_dhcp_opts
    }

    /// Update the administrative state.
    pub fn set_admin_state_up(&mut self, value: bool)
        requires
            old(self).wf(),
        ensures
            final(self).wf(),
            final(self).after_set(
                *old(self),
                (PortRecord { admin_state_up: value, ..old(self).record() }),
                PortField::AdminStateUp,
            ),
    {
        self.inner.admin_state_up = value;
        self.mark(PortField::AdminStateUp);
    }

    /// Update the administrative state.
    pub fn with_admin_state_up(self, value: bool) -> (r: Port)
        requires
            self.wf(),
        ensures
            r.wf(),
            r.after_set(
                self,
                (PortRecord { admin_state_up: value, ..self.record() }),
                PortField::AdminStateUp,
            ),
    {
        let mut p = self;
        p.set_admin_state_up(value);
        p
    }

    /// Update the description.
    pub fn set_description(&mut self, value: String)
        requires
            old(self).wf(),
        ensures
            final(self).wf(),
            final(self).after_set(
                *old(self),
                (PortRecord { description: Some(value), ..old(self).record() }),
                PortField::Description,
            ),
    {
        self.inner.description = Some(value);
        self.mark(PortField::Description);
    }

    /// Update the description.
    pub fn with_description(self, value: String) -> (r: Port)
        requires
            self.wf(),
        ensures
            r.wf(),
            r.after_set(
                self,
                (PortRecord { description: Some(value), ..self.record() }),
                PortField::Description,
            ),
    {
        let mut p = self;
        p.set_description(value);
        p
    }

    /// Clear the field `description`: the next save sends an explicit null.
    pub fn clear_description(&mut self)
        requires
            old(self).wf(),
        ensures
            final(self).wf(),
            final(self).after_set(
                *old(self),
                (PortRecord { description: None, ..old(self).record() }),
                PortField::Description,
            ),
    {
        self.inner.description = None;
        self.mark(PortField::Description);
    }

    /// Update the device ID.
    pub fn set_device_id(&mut self, value: String)
        requires
            old(self).wf(),
        ensures
            final(self).wf(),
            final(self).after_set(
                *old(self),
                (PortRecord { device_id: Some(value), ..old(self).record() }),
                PortField::DeviceId,
            ),
    {
        self.inner.device_id = Some(value);
        self.mark(PortField::DeviceId);
    }

    /// Update the device ID.
    pub fn with_device_id(self, value: String) -> (r: Port)
        requires
            self.wf(),
        ensures
            r.wf(),
            r.after_set(
                self,
                (PortRecord { device_id: Some(value), ..self.record() }),
                PortField::DeviceId,
            ),
    {
        let mut p = self;
        p.set_device_id(value);
        p
    }

    /// Clear the field `device_id`: the next save sends an explicit null.
    pub fn clear_device_id(&mut self)
        requires
            old(self).wf(),
        ensures
            final(self).wf(),
            final(self).after_set(
                *old(self),
                (PortRecord { device_id: None, ..old(self).record() }),
                PortField::DeviceId,
            ),
    {
        self.inner.device_id = None;
        self.mark(PortField::DeviceId);
    }

    /// Update the device owner.
    pub fn set_device_owner(&mut self, value: String)
        requires
            old(self).wf(),
        ensures
            final(self).wf(),
            final(self).after_set(
                *old(self),
                (PortRecord { device_owner: Some(value), ..old(self).record() }),
                PortField::DeviceOwner,
            ),
    {
        self.inner.device_owner = Some(value);
        self.mark(PortField::DeviceOwner);
    }

    /// Update the device owner.
    pub fn with_device_owner(self, value: String) -> (r: Port)
        requires
            self.wf(),
        ensures
            r.wf(),
            r.after_set(
                self,
                (PortRecord { device_owner: Some(value), ..self.record() }),
                PortField::DeviceOwner,
            ),
    {
        let mut p = self;
        p.set_device_owner(value);
        p
    }

    /// Clear the field `device_owner`: the next save sends an explicit null.
    pub fn clear_device_owner(&mut self)
        requires
            old(self).wf(),
        ensures
            final(self).wf(),
            final(self).after_set(
                *old(self),
                (PortRecord { device_owner: None, ..old(self).record() }),
                PortField::DeviceOwner,
            ),
    {
        self.inner.device_owner = None;
        self.mark(PortField::DeviceOwner);
    }

    /// Update the DNS domain.
    pub fn set_dns_domain(&mut self, value: String)
        requires
            old(self).wf(),
        ensures
            final(self).wf(),
            final(self).after_set(
                *old(self),
                (PortRecord { dns_domain: Some(value), ..old(self).record() }),
                PortField::DnsDomain,
            ),
    {
        self.inner.dns_domain = Some(value);
        self.mark(PortField::DnsDomain);
    }

    /// Update the DNS domain.
    pub fn with_dns_domain(self, value: String) -> (r: Port)
        requires
            self.wf(),
        ensures
            r.wf(),
            r.after_set(
                self,
                (PortRecord { dns_domain: Some(value), ..self.record() }),
                PortField::DnsDomain,
            ),
    {
        let mut p = self;
        p.set_dns_domain(value);
        p
    }

    /// Clear the field `dns_domain`: the next save sends an explicit null.
    pub fn clear_dns_domain(&mut self)
        requires
            old(self).wf(),
        ensures
            final(self).wf(),
            final(self).after_set(
                *old(self),
                (PortRecord { dns_domain: None, ..old(self).record() }),
                PortField::DnsDomain,
            ),
    {
        self.inner.dns_domain = None;
        self.mark(PortField::DnsDomain);
    }

    /// Update the DNS name.
    pub fn set_dns_name(&mut self, value: String)
        requires
            old(self).wf(),
        ensures
            final(self).wf(),
            final(self).after_set(
                *old(self),
                (PortRecord { dns_name: Some(value), ..old(self).record() }),
                PortField::DnsName,
            ),
    {
        self.inner.dns_name = Some(value);
        self.mark(PortField::DnsName);
    }

    /// Update the DNS name.
    pub fn with_dns_name(self, value: String) -> (r: Port)
        requires
            self.wf(),
        ensures
            r.wf(),
            r.after_set(
                self,
                (PortRecord { dns_name: Some(value), ..self.record() }),
                PortField::DnsName,
            ),
    {
        let mut p = self;
        p.set_dns_name(value);
        p
    }

    /// Clear the field `dns_name`: the next save sends an explicit null.
    pub fn clear_dns_name(&mut self)
        requires
            old(self).wf(),
        ensures
            final(self).wf(),
            final(self).after_set(
                *old(self),
                (PortRecord { dns_name: None, ..old(self).record() }),
                PortField::DnsName,
            ),
    {
        self.inner.dns_name = None;
        self.mark(PortField::DnsName);
    }

    /// Update the DHCP options.
    pub fn set_extra_dhcp_opts(&mut self, value: Vec<PortExtraDhcpOption>)
        requires
            old(self).wf(),
        ensures
            final(self).wf(),
            final(self).after_set(
                *old(self),
                (PortRecord { extra_dhcp_opts: value, ..old(self).record() }),
                PortField::ExtraDhcpOpts,
            ),
    {
        self.inner.extra_dhcp_opts = value;
        self.mark(PortField::ExtraDhcpOpts);
    }

    /// Update the DHCP options.
    pub fn with_extra_dhcp_opts(self, value: Vec<PortExtraDhcpOption>) -> (r: Port)
        requires
            self.wf(),
        ensures
            r.wf(),
            r.after_set(
                self,
                (PortRecord { extra_dhcp_opts: value, ..self.record() }),
                PortField::ExtraDhcpOpts,
            ),
    {
        let mut p = self;
        p.set_extra_dhcp_opts(value);
        p
    }

    /// Update the MAC address (admin-only).
    pub fn set_mac_address(&mut self, value: [u8; 6])
        requires
            old(self).wf(),
        ensures
            final(self).wf(),
            final(self).after_set(
                *old(self),
                (PortRecord { mac_address: value, ..old(self).record() }),
                PortField::MacAddress,
            ),
    {
        self.inner.mac_address = value;
        self.mark(PortField::MacAddress);
    }

    /// Update the MAC address (admin-only).
    pub fn with_mac_address(self, value: [u8; 6]) -> (r: Port)
        requires
            self.wf(),
        ensures
            r.wf(),
            r.after_set(
                self,
                (PortRecord { mac_address: value, ..self.record() }),
                PortField::MacAddress,
            ),
    {
        let mut p = self;
        p.set_mac_address(value);
        p
    }

    /// Update the port name.
    pub fn set_name(&mut self, value: String)
        requires
            old(self).wf(),
        ensures
            final(self).wf(),
            final(self).after_set(
                *old(self),
                (PortRecord { name: Some(value), ..old(self).record() }),
                PortField::Name,
            ),
    {
        self.inner.name = Some(value);
        self.mark(PortField::Name);
    }

    /// Update the port name.
    pub fn with_name(self, value: String) -> (r: Port)
        requires
            self.wf(),
        ensures
            r.wf(),
            r.after_set(
                self,
                (PortRecord { name: Some(value), ..self.record() }),
                PortField::Name,
            ),
    {
        let mut p = self;
        p.set_name(value);
        p
    }

    /// Clear the field `name`: the next save sends an explicit null.
    pub fn clear_name(&mut self)
        requires
            old(self).wf(),
        ensures
            final(self).wf(),
            final(self).after_set(
                *old(self),
                (PortRecord { name: None, ..old(self).record() }),
                PortField::Name,
            ),
    {
        self.inner.name = None;
        self.mark(PortField::Name);
    }

    /// The administrative state of the port.
    pub fn admin_state_up(&self) -> (r: bool)
        ensures
            r == self.record().admin_state_up,
    {
        self.inner.admin_state_up
    }

    /// Creation date and time (if available).
    pub fn created_at(&self) -> (r: Option<Timestamp>)
        ensures
            r == self.record().created_at,
    {
        self.inner.created_at
    }

    /// Port description.
    pub fn description(&self) -> (r: &Option<String>)
        ensures
            *r == self.record().description,
    {
        &self.inner.description
    }

    /// ID of object (server, router, etc) to which this port is attached.
    pub fn device_id(&self) -> (r: &Option<String>)
        ensures
            *r == self.record().device_id,
    {
        &self.inner.device_id
    }

    /// Type of object to which this port is attached.
    pub fn device_owner(&self) -> (r: &Option<String>)
        ensures
            *r == self.record().device_owner,
    {
        &self.inner.device_owner
    }

    /// DNS domain for the port (if available).
    pub fn dns_domain(&self) -> (r: &Option<String>)
        ensures
            *r == self.record().dns_domain,
    {
        &self.inner.dns_domain
    }

    /// DNS name for the port (if available).
    pub fn dns_name(&self) -> (r: &Option<String>)
        ensures
            *r == self.record().dns_name,
    {
        &self.inner.dns_name
    }

    /// DHCP options configured for this port.
    pub fn extra_dhcp_opts(&self) -> (r: &Vec<PortExtraDhcpOption>)
        ensures
            *r == self.record().extra_dhcp_opts,
    {
        &self.inner.extra_dhcp_opts
    }

    /// Fixed IP addresses of the port.
    pub fn fixed_ips(&self) -> (r: &Vec<PortIpAddress>)
        ensures
            *r == self.record().fixed_ips,
    {
        &self.inner.fixed_ips
    }

    /// MAC address of the port.
    pub fn mac_address(&self) -> (r: [u8; 6])
        ensures
            r == self.record().mac_address,
    {
        self.inner.mac_address
    }

    /// Unique ID.
    pub fn id(&self) -> (r: &String)
        ensures
            *r == self.record().id,
    {
        &self.inner.id
    }

    /// Port name.
    pub fn name(&self) -> (r: &Option<String>)
        ensures
            *r == self.record().name,
    {
        &self.inner.name
    }

    /// ID of the network this port belongs to.
    pub fn network_id(&self) -> (r: &String)
        ensures
            *r == self.record().network_id,
    {
        &self.inner.network_id
    }

    /// ID of the project owning the port.
    pub fn project_id(&self) -> (r: &Option<String>)
        ensures
            *r == self.record().project_id,
    {
        &self.inner.project_id
    }

    /// Port status.
    pub fn status(&self) -> (r: NetworkStatus)
        ensures
            r == self.record().status,
    {
        self.inner.status
    }

    /// Last update date and time (if available).
    pub fn updated_at(&self) -> (r: Option<Timestamp>)
        ensures
            r == self.record().updated_at,
    {
        self.inner.updated_at
    }
}

impl From<Port> for ResourceRef {
    fn from(value: Port) -> (r: ResourceRef) {
        ResourceRef::Verified(value.inner.id)
    }
}

impl vstd::std_specs::convert::FromSpecImpl<Port> for ResourceRef {
    open spec fn obeys_from_spec() -> bool {
        true
    }

    open spec fn from_spec(v: Port) -> ResourceRef {
        ResourceRef::Verified(v.record().id)
    }
}

impl ResourceId for Port {
    open spec fn id_of(&self) -> Seq<char> {
        self.record().id@
    }

    fn resource_id(&self) -> (r: String) {
        self.inner.id.clone()
    }
}

/// The text of a status in a query.
pub open spec fn status_text(s: NetworkStatus) -> Seq<char> {
    match s {
        NetworkStatus::Active => "ACTIVE"@,
        NetworkStatus::Down => "DOWN"@,
        NetworkStatus::Build => "BUILD"@,
        NetworkStatus::Error => "ERROR"@,
    }
}

impl NetworkStatus {
    /// The status written as `s`, if any.
    pub fn from_text(s: &str) -> (r: Option<NetworkStatus>)
        ensures
            r matches Some(st) ==> status_text(st) == s@,
            r is None ==> forall|st: NetworkStatus| status_text(st) != s@,
    {
        let t = String::from_str(s);
        if text_equals(&t, "ACTIVE") {
            Some(NetworkStatus::Active)
        } else if text_equals(&t, "DOWN") {
            Some(NetworkStatus::Down)
        } else if text_equals(&t, "BUILD") {
            Some(NetworkStatus::Build)
        } else if text_equals(&t, "ERROR") {
            Some(NetworkStatus::Error)
        } else {
            None
        }
    }

    /// The status as the server writes it.
    pub fn as_text(&self) -> (r: String)
        ensures
            r@ == status_text(*self),
    {
        match self {
            NetworkStatus::Active => String::from_str("ACTIVE"),
            NetworkStatus::Down => String::from_str("DOWN"),
            NetworkStatus::Build => String::from_str("BUILD"),
            NetworkStatus::Error => String::from_str("ERROR"),
        }
    }
}

/// The partial update of a port mentions exactly the fields set since it was
/// last loaded or saved, each with its current value, a cleared optional
/// field included; every other field is left out.
pub proof fn lemma_patch_mentions_set_fields(p: Port, u: PortUpdate, f: PortField)
    requires
        p.wf(),
        p.is_patch(u),
    ensures
        mentions(u, f) <==> p.is_set(f),
{
}

} // verus!
