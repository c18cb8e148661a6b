//! Requests to create ports, with references resolved on use.

use vstd::prelude::*;

use crate::error::Error;
use crate::ports::{IpAddress, NetworkStatus, Port, PortExtraDhcpOption, PortIpAddress, PortRecord};
use crate::reference::{NetworkRef, ResourceRef, SubnetRef, lookup_failed, resolves_to};

verus! {

/// A request of a fixed IP address.
#[derive(Clone, Debug)]
pub enum PortIpRequest {
    /// Request this IP from any subnet.
    IpAddress(IpAddress),
    /// Request any IP from the given subnet.
    AnyIpFromSubnet(SubnetRef),
    /// Request this IP from the given subnet.
    IpFromSubnet(IpAddress, SubnetRef),
}

/// `a` is the fixed IP that `req` asks for, its subnet resolved through
/// `find_subnet`.
pub open spec fn fixed_ip_for<F: Fn(&String) -> Result<String, Error>>(
    find_subnet: F,
    req: PortIpRequest,
    a: PortIpAddress,
) -> bool {
    match req {
        PortIpRequest::IpAddress(ip) => a.ip_address == ip && a.subnet_id@ == Seq::<char>::empty(),
        PortIpRequest::AnyIpFromSubnet(subnet) => a.ip_address == IpAddress::V4([0u8, 0u8, 0u8, 0u8])
            && resolves_to(find_subnet, subnet, a.subnet_id),
        PortIpRequest::IpFromSubnet(ip, subnet) => a.ip_address == ip && resolves_to(
            find_subnet,
            subnet,
            a.subnet_id,
        ),
    }
}

/// The subnet that a fixed IP request names, if any.
pub open spec fn requested_subnet(req: PortIpRequest) -> Option<ResourceRef> {
    match req {
        PortIpRequest::IpAddress(_) => None,
        PortIpRequest::AnyIpFromSubnet(subnet) => Some(subnet),
        PortIpRequest::IpFromSubnet(_, subnet) => Some(subnet),
    }
}

/// Resolving the subnet that `req` names through `lookup` may fail with `e`.
pub open spec fn subnet_lookup_failed<F: Fn(&String) -> Result<String, Error>>(
    lookup: F,
    req: PortIpRequest,
    e: Error,
) -> bool {
    match requested_subnet(req) {
        Some(subnet) => lookup_failed(lookup, subnet, e),
        None => false,
    }
}

/// The subnet that `req` names, if any, resolves through `lookup`.
pub open spec fn request_resolves<F: Fn(&String) -> Result<String, Error>>(
    lookup: F,
    req: PortIpRequest,
) -> bool {
    match requested_subnet(req) {
        Some(subnet) => exists|id: String| #[trigger] resolves_to(lookup, subnet, id),
        None => true,
    }
}

/// The subnets of the first `k` requests all resolve through `lookup`.
pub open spec fn subnets_resolve_before<F: Fn(&String) -> Result<String, Error>>(
    lookup: F,
    reqs: Seq<PortIpRequest>,
    k: int,
) -> bool {
    forall|j: int| 0 <= j < k ==> request_resolves(lookup, #[trigger] reqs[j])
}

/// A request to create a port.
#[derive(Clone, Debug)]
pub struct NewPort {
    inner: PortRecord,
    network: NetworkRef,
    fixed_ips: Vec<PortIpRequest>,
}

impl NewPort {
    /// The port record to be sent, before the network and the fixed IPs are
    /// filled in.
    pub closed spec fn record(&self) -> PortRecord {
        self.inner
    }

    /// The network the port will belong to.
    pub closed spec fn network_ref(&self) -> NetworkRef {
        self.network
    }

    /// The fixed IPs requested, in order.
    pub closed spec fn ip_requests(&self) -> Seq<PortIpRequest> {
        self.fixed_ips@
    }

    /// Start creating a port on `network`: administratively up, every other
    /// field empty.
    pub fn new(network: NetworkRef) -> (r: NewPort)
        ensures
            r.network_ref() == network,
            r.ip_requests().len() == 0,
            r.record().admin_state_up,
            r.record().created_at is None,
            r.record().description is None,
            r.record().device_id is None,
            r.record().device_owner is None,
            r.record().dns_domain is None,
            r.record().dns_name is None,
            r.record().extra_dhcp_opts@.len() == 0,
            r.record().fixed_ips@.len() == 0,
            r.record().id@.len() == 0,
            r.record().mac_address == [0u8, 0u8, 0u8, 0u8, 0u8, 0u8],
            r.record().name is None,
            r.record().network_id@.len() == 0,
            r.record().project_id is None,
            r.record().security_groups@.len() == 0,
            r.record().status == NetworkStatus::Active,
            r.record().updated_at is None,
    {
        NewPort {
            inner: PortRecord {
                admin_state_up: true,
                created_at: None,
                description: None,
                device_id: None,
                device_owner: None,
                dns_domain: None,
                dns_name: None,
                extra_dhcp_opts: Vec::new(),
                fixed_ips: Vec::new(),
                id: String::new(),
                mac_address: [0u8, 0u8, 0u8, 0u8, 0u8, 0u8],
                name: None,
                network_id: String::new(),
                project_id: None,
                security_groups: Vec::new(),
                status: NetworkStatus::Active,
                updated_at: None,
            },
            network,
            fixed_ips: Vec::new(),
        }
    }

    /// Add a new fixed IP to the request.
    pub fn add_fixed_ip(&mut self, request: PortIpRequest)
        ensures
            final(self).ip_requests() == old(self).ip_requests().push(request),
            final(self).record() == old(self).record(),
            final(self).network_ref() == old(self).network_ref(),
    {
        self.fixed_ips.push(request);
    }

    /// Add a new fixed IP to the request.
    pub fn with_fixed_ip(self, request: PortIpRequest) -> (r: NewPort)
        ensures
            r.ip_requests() == self.ip_requests().push(request),
            r.record() == self.record(),
            r.network_ref() == self.network_ref(),
    {
        let mut p = self;
        p.add_fixed_ip(request);
        p
    }

    /// Set the administrative state of the port.
    pub fn set_admin_state_up(&mut self, value: bool)
        ensures
            final(self).record() == (PortRecord { admin_state_up: value, ..old(self).record() }),
            final(self).network_ref() == old(self).network_ref(),
            final(self).ip_requests() == old(self).ip_requests(),
    {
        self.inner.admin_state_up = value;
    }

    /// Set the administrative state of the port.
    pub fn with_admin_state_up(self, value: bool) -> (r: NewPort)
        ensures
            r.record() == (PortRecord { admin_state_up: value, ..self.record() }),
            r.network_ref() == self.network_ref(),
            r.ip_requests() == self.ip_requests(),
    {
        let mut p = self;
        p.set_admin_state_up(value);
        p
    }

    /// Set the description of the port.
    pub fn set_description(&mut self, value: String)
        ensures
            final(self).record() == (PortRecord { description: Some(value), ..old(self).record() }),
            final(self).network_ref() == old(self).network_ref(),
            final(self).ip_requests() == old(self).ip_requests(),
    {
        self.inner.description = Some(value);
    }

    /// Set the description of the port.
    pub fn with_description(self, value: String) -> (r: NewPort)
        ensures
            r.record() == (PortRecord { description: Some(value), ..self.record() }),
            r.network_ref() == self.network_ref(),
            r.ip_requests() == self.ip_requests(),
    {
        let mut p = self;
        p.set_description(value);
        p
    }

    /// Set the device ID of the port.
    pub fn set_device_id(&mut self, value: String)
        ensures
            final(self).record() == (PortRecord { device_id: Some(value), ..old(self).record() }),
            final(self).network_ref() == old(self).network_ref(),
            final(self).ip_requests() == old(self).ip_requests(),
    {
        self.inner.device_id = Some(value);
    }

    /// Set the device ID of the port.
    pub fn with_device_id(self, value: String) -> (r: NewPort)
        ensures
            r.record() == (PortRecord { device_id: Some(value), ..self.record() }),
            r.network_ref() == self.network_ref(),
            r.ip_requests() == self.ip_requests(),
    {
        let mut p = self;
        p.set_device_id(value);
        p
    }

    /// Set the device owner of the port.
    pub fn set_device_owner(&mut self, value: String)
        ensures
            final(self).record() == (PortRecord { device_owner: Some(value), ..old(self).record() }),
            final(self).network_ref() == old(self).network_ref(),
            final(self).ip_requests() == old(self).ip_requests(),
    {
        self.inner.device_owner = Some(value);
    }

    /// Set the device owner of the port.
    pub fn with_device_owner(self, value: String) -> (r: NewPort)
        ensures
            r.record() == (PortRecord { device_owner: Some(value), ..self.record() }),
            r.network_ref() == self.network_ref(),
            r.ip_requests() == self.ip_requests(),
    {
        let mut p = self;
        p.set_device_owner(value);
        p
    }

    /// Set the DNS domain of the port.
    pub fn set_dns_domain(&mut self, value: String)
        ensures
            final(self).record() == (PortRecord { dns_domain: Some(value), ..old(self).record() }),
            final(self).network_ref() == old(self).network_ref(),
            final(self).ip_requests() == old(self).ip_requests(),
    {
        self.inner.dns_domain = Some(value);
    }

    /// Set the DNS domain of the port.
    pub fn with_dns_domain(self, value: String) -> (r: NewPort)
        ensures
            r.record() == (PortRecord { dns_domain: Some(value), ..self.record() }),
            r.network_ref() == self.network_ref(),
            r.ip_requests() == self.ip_requests(),
    {
        let mut p = self;
        p.set_dns_domain(value);
        p
    }

    /// Set the DNS name of the port.
    pub fn set_dns_name(&mut self, value: String)
        ensures
            final(self).record() == (PortRecord { dns_name: Some(value), ..old(self).record() }),
            final(self).network_ref() == old(self).network_ref(),
            final(self).ip_requests() == old(self).ip_requests(),
    {
        self.inner.dns_name = Some(value);
    }

    /// Set the DNS name of the port.
    pub fn with_dns_name(self, value: String) -> (r: NewPort)
        ensures
            r.record() == (PortRecord { dns_name: Some(value), ..self.record() }),
            r.network_ref() == self.network_ref(),
            r.ip_requests() == self.ip_requests(),
    {
        let mut p = self;
        p.set_dns_name(value);
        p
    }

    /// Set the extra DHCP options of the port.
    pub fn set_extra_dhcp_opts(&mut self, value: Vec<PortExtraDhcpOption>)
        ensures
            final(self).record() == (PortRecord { extra_dhcp_opts: value, ..old(self).record() }),
            final(self).network_ref() == old(self).network_ref(),
            final(self).ip_requests() == old(self).ip_requests(),
    {
        self.inner.extra_dhcp_opts = value;
    }

    /// Set the extra DHCP options of the port.
    pub fn with_extra_dhcp_opts(self, value: Vec<PortExtraDhcpOption>) -> (r: NewPort)
        ensures
            r.record() == (PortRecord { extra_dhcp_opts: value, ..self.record() }),
            r.network_ref() == self.network_ref(),
            r.ip_requests() == self.ip_requests(),
    {
        let mut p = self;
        p.set_extra_dhcp_opts(value);
        p
    }

    /// Set the MAC address (generated otherwise) of the port.
    pub fn set_mac_address(&mut self, value: [u8; 6])
        ensures
            final(self).record() == (PortRecord { mac_address: value, ..old(self).record() }),
            final(self).network_ref() == old(self).network_ref(),
            final(self).ip_requests() == old(self).ip_requests(),
    {
        self.inner.mac_address = value;
    }

    /// Set the MAC address (generated otherwise) of the port.
    pub fn with_mac_address(self, value: [u8; 6]) -> (r: NewPort)
        ensures
            r.record() == (PortRecord { mac_address: value, ..self.record() }),
            r.network_ref() == self.network_ref(),
            r.ip_requests() == self.ip_requests(),
    {
        let mut p = self;
        p.set_mac_address(value);
        p
    }

    /// Set the name of the port.
    pub fn set_name(&mut self, value: String)
        ensures
            final(self).record() == (PortRecord { name: Some(value), ..old(self).record() }),
            final(self).network_ref() == old(self).network_ref(),
            final(self).ip_requests() == old(self).ip_requests(),
    {
        self.inner.name = Some(value);
    }

    /// Set the name of the port.
    pub fn with_name(self, value: String) -> (r: NewPort)
        ensures
            r.record() == (PortRecord { name: Some(value), ..self.record() }),
            r.network_ref() == self.network_ref(),
            r.ip_requests() == self.ip_requests(),
    {
        let mut p = self;
        p.set_name(value);
        p
    }

    /// Extra DHCP options to configure on the port.
    pub fn extra_dhcp_opts(&mut self) -> (r: &mut Vec<PortExtraDhcpOption>)
        ensures
            *r == old(self).record().extra_dhcp_opts,
            final(self).record() == (PortRecord { extra_dhcp_opts: *final(r), ..old(self).record() }),
            final(self).network_ref() == old(self).network_ref(),
            final(self).ip_requests() == old(self).ip_requests(),
    {
        &mut self.inner.extra_dhcp_opts
    }

    /// `sent` is the record that `create` sends: this request's record with
    /// the network resolved and the requested fixed IPs appended.
    pub open spec fn is_request<N, S>(&self, find_network: N, find_subnet: S, sent: PortRecord) -> bool where
        N: Fn(&String) -> Result<String, Error>,
        S: Fn(&String) -> Result<String, Error>,
     {
        let base = self.record().fixed_ips@;
        let reqs = self.ip_requests();
        &&& sent == (PortRecord { network_id: sent.network_id, fixed_ips: sent.fixed_ips, ..self.record() })
        &&& resolves_to(find_network, self.network_ref(), sent.network_id)
        &&& sent.fixed_ips@.len() == base.len() + reqs.len()
        &&& sent.fixed_ips@.subrange(0, base.len() as int) == base
        &&& forall|k: int|
            0 <= k < reqs.len() ==> fixed_ip_for(find_subnet, #[trigger] reqs[k], sent.fixed_ips@[base.len() + k])
    }

    /// Request creation of the port: resolve the network and the subnets of
    /// the fixed IPs, then send the record through `create_port`. The first
    /// failure is returned.
    pub fn create<N, S, C>(self, find_network: &N, find_subnet: &S, create_port: &C) -> (r: Result<
        Port,
        Error,
    >) where
        N: Fn(&String) -> Result<String, Error>,
        S: Fn(&String) -> Result<String, Error>,
        C: Fn(PortRecord) -> Result<PortRecord, Error>,

        requires
            forall|v: &String| #[trigger] find_network.requires((v,)),
            forall|v: &String| #[trigger] find_subnet.requires((v,)),
            forall|rec: PortRecord| #[trigger] create_port.requires((rec,)),
        ensures
            r matches Ok(p) ==> p.wf() && p.is_clean() && exists|sent: PortRecord|
                #[trigger] create_port.ensures((sent,), Ok::<PortRecord, Error>(p.record()))
                    && self.is_request(*find_network, *find_subnet, sent),
            r matches Err(e) ==> {
                ||| lookup_failed(*find_network, self.network_ref(), e)
                ||| exists|network_id: String, k: int|
                    #[trigger] resolves_to(*find_network, self.network_ref(), network_id) && 0 <= k
                        < self.ip_requests().len() && subnets_resolve_before(
                        *find_subnet,
                        self.ip_requests(),
                        k,
                    ) && #[trigger] subnet_lookup_failed(*find_subnet, self.ip_requests()[k], e)
                ||| exists|sent: PortRecord|
                    #[trigger] create_port.ensures((sent,), Err::<PortRecord, Error>(e))
                        && self.is_request(*find_network, *find_subnet, sent)
            },
    {
        let ghost me = self;
        let mut inner = self.inner;
        let network_id = match self.network.verified_id(find_network) {
            Ok(id) => id,
            Err(e) => return Err(e),
        };
        inner.network_id = network_id;
        let requests = self.fixed_ips;
        let ghost base = me.record().fixed_ips@;
        let mut i: usize = 0;
        while i < requests.len()
            invariant
                i <= requests@.len(),
                requests@ == me.ip_requests(),
                me == self,
                forall|v: &String| #[trigger] find_subnet.requires((v,)),
                inner == (PortRecord { network_id: inner.network_id, fixed_ips: inner.fixed_ips, ..me.record() }),
                resolves_to(*find_network, me.network_ref(), inner.network_id),
                inner.fixed_ips@.len() == base.len() + i,
                inner.fixed_ips@.subrange(0, base.len() as int) == base,
                forall|k: int|
                    0 <= k < i ==> fixed_ip_for(*find_subnet, #[trigger] requests@[k], inner.fixed_ips@[base.len() + k]),
                subnets_resolve_before(*find_subnet, requests@, i as int),
            decreases requests@.len() - i,
        {
            let addr = match &requests[i] {
                PortIpRequest::IpAddress(ip) => PortIpAddress { ip_address: *ip, subnet_id: String::new() },
                PortIpRequest::AnyIpFromSubnet(subnet) => {
                    let id = match subnet.verified_id(find_subnet) {
                        Ok(id) => id,
                        Err(e) => {
                            assert(subnet_lookup_failed(*find_subnet, self.ip_requests()[i as int], e));
                            assert(resolves_to(*find_network, self.network_ref(), inner.network_id));
                            return Err(e);
                        },
                    };
                    PortIpAddress { ip_address: IpAddress::V4([0u8, 0u8, 0u8, 0u8]), subnet_id: id }
                },
                PortIpRequest::IpFromSubnet(ip, subnet) => {
                    let id = match subnet.verified_id(find_subnet) {
                        Ok(id) => id,
                        Err(e) => {
                            assert(subnet_lookup_failed(*find_subnet, self.ip_requests()[i as int], e));
                            assert(resolves_to(*find_network, self.network_ref(), inner.network_id));
                            return Err(e);
                        },
                    };
                    PortIpAddress { ip_address: *ip, subnet_id: id }
                },
            };
            let ghost prev = inner.fixed_ips@;
            inner.fixed_ips.push(addr);
            assert(inner.fixed_ips@.subrange(0, base.len() as int) =~= prev.subrange(0, base.len() as int));
            assert(fixed_ip_for(*find_subnet, requests@[i as int], inner.fixed_ips@[base.len() + i]));
            assert forall|k: int| 0 <= k < i + 1 implies fixed_ip_for(
                *find_subnet,
                #[trigger] requests@[k],
                inner.fixed_ips@[base.len() + k],
            ) by {
                if k < i {
                    assert(inner.fixed_ips@[base.len() + k] == prev[base.len() + k]);
                }
            }
            assert(request_resolves(*find_subnet, requests@[i as int])) by {
                let a = inner.fixed_ips@[base.len() + i];
                if let Some(subnet) = requested_subnet(requests@[i as int]) {
                    assert(resolves_to(*find_subnet, subnet, a.subnet_id));
                }
            }
            i = i + 1;
        }
        let ghost sent = inner;
        match create_port(inner) {
            Ok(rec) => {
                let p = Port::new(rec);
                assert(self.is_request(*find_network, *find_subnet, sent));
                Ok(p)
            },
            Err(e) => {
                assert(self.is_request(*find_network, *find_subnet, sent));
                Err(e)
            },
        }
    }
}

} // verus!
