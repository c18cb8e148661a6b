//! Floating IPs.

use vstd::prelude::*;

use crate::error::Error;
use crate::ports::IpAddress;
use crate::timestamp::Timestamp;

verus! {

/// Status of a floating IP.
#[derive(Clone, Copy, Debug, PartialEq, Eq, Structural)]
pub enum FloatingIpStatus {
    Active,
    Down,
    Error,
}

/// A floating IP as the server describes it.
#[derive(Clone, Debug)]
pub struct FloatingIpRecord {
    pub created_at: Option<Timestamp>,
    pub description: Option<String>,
    pub dns_domain: Option<String>,
    pub dns_name: Option<String>,
    pub fixed_ip_address: Option<IpAddress>,
    pub floating_ip_address: Option<IpAddress>,
    pub id: String,
    pub status: FloatingIpStatus,
    pub updated_at: Option<Timestamp>,
}

/// Structure representing a single floating IP.
#[derive(Clone, Debug)]
pub struct FloatingIp {
    inner: FloatingIpRecord,
}

impl FloatingIp {
    /// The floating IP as loaded.
    pub closed spec fn record(&self) -> FloatingIpRecord {
        self.inner
    }

    /// Load the floating IP with the given ID through `get_floating_ip`.
    pub fn load<F: Fn(&String) -> Result<FloatingIpRecord, Error>>(id: &String, get_floating_ip: &F) -> (r:
        Result<FloatingIp, Error>)
        requires
            forall|i: &String| #[trigger] get_floating_ip.requires((i,)),
        ensures
            exists|res: Result<FloatingIpRecord, Error>|
                #[trigger] get_floating_ip.ensures((id,), res) && match res {
                    Ok(rec) => r matches Ok(f) && f.record() == rec,
                    Err(e) => r == Err::<FloatingIp, Error>(e),
                },
    {
        match get_floating_ip(id) {
            Ok(inner) => Ok(FloatingIp { inner }),
            Err(e) => Err(e),
        }
    }

    /// Creation date and time (if available).
    pub fn created_at(&self) -> (r: Option<Timestamp>)
        ensures
            r == self.record().created_at,
    {
        self.inner.created_at
    }

    /// Floating IP description.
    pub fn description(&self) -> (r: &Option<String>)
        ensures
            *r == self.record().description,
    {
        &self.inner.description
    }

    /// DNS domain for the floating IP (if available).
    pub fn dns_domain(&self) -> (r: &Option<String>)
        ensures
            *r == self.record().dns_domain,
    {
        &self.inner.dns_domain
    }

    /// DNS name for the floating IP (if available).
    pub fn dns_name(&self) -> (r: &Option<String>)
        ensures
            *r == self.record().dns_name,
    {
        &self.inner.dns_name
    }

    /// IP address of the port associated with the IP (if any).
    pub fn fixed_ip_address(&self) -> (r: Option<IpAddress>)
        ensures
            r == self.record().fixed_ip_address,
    {
        self.inner.fixed_ip_address
    }

    /// Floating IP address (if allocated).
    pub fn floating_ip_address(&self) -> (r: Option<IpAddress>)
        ensures
            r == self.record().floating_ip_address,
    {
        self.inner.floating_ip_address
    }

    /// Unique ID.
    pub fn id(&self) -> (r: &String)
        ensures
            *r == self.record().id,
    {
        &self.inner.id
    }

    /// Status of the floating IP.
    pub fn status(&self) -> (r: FloatingIpStatus)
        ensures
            r == self.record().status,
    {
        self.inner.status
    }

    /// Last update date and time (if available).
    pub fn updated_at(&self) -> (r: Option<Timestamp>)
        ensures
            r == self.record().updated_at,
    {
        self.inner.updated_at
    }
}

} // verus!
