//! Reading a control-plane instance description: power status and the
//! external address of the first access configuration of the first network
//! interface, each absent part being a valid state rather than an error.
use vstd::prelude::*;

verus! {

/// One access configuration of a network interface.
#[derive(Debug, Clone)]
pub struct AccessConfig {
    pub name: Option<String>,
    /// The external address, when the configuration exposes one.
    pub nat_ip: Option<String>,
}

/// One network interface; a missing `accessConfigs` array reads as empty.
#[derive(Debug, Clone)]
pub struct NetworkInterface {
    pub network_ip: Option<String>,
    pub access_configs: Vec<AccessConfig>,
}

/// The fields of an instance description that this service reads; a missing
/// `networkInterfaces` array reads as empty.
#[derive(Debug, Clone)]
pub struct InstanceDescription {
    pub status: String,
    pub network_interfaces: Vec<NetworkInterface>,
}

/// What callers learn of an instance.
#[derive(Debug, Clone)]
pub struct InstanceSnapshot {
    pub power_status: String,
    pub network_address: Option<String>,
}

/// The outcome of looking for the instance's external address.
#[derive(Debug, Clone)]
pub enum IpLookup {
    Found(String),
    /// An access configuration exists but carries no external address.
    NoExternalAddress,
    /// No interface, or no access configuration on the first interface.
    NoAccessConfig,
}

/// The first access configuration of the first network interface.
pub open spec fn first_access_config(d: InstanceDescription) -> Option<AccessConfig> {
    if d.network_interfaces@.len() > 0 && d.network_interfaces@[0].access_configs@.len() > 0 {
        Some(d.network_interfaces@[0].access_configs@[0])
    } else {
        None
    }
}

/// The external address of a description, if it has one.
pub open spec fn network_address_of(d: InstanceDescription) -> Option<Seq<char>> {
    match first_access_config(d) {
        Some(c) => match c.nat_ip {
            Some(ip) => Some(ip@),
            None => None,
        },
        None => None,
    }
}

/// The lookup that `lookup_ip` returns for `d`.
pub open spec fn lookup_matches(l: IpLookup, d: InstanceDescription) -> bool {
    match first_access_config(d) {
        None => l is NoAccessConfig,
        Some(c) => match c.nat_ip {
            None => l is NoExternalAddress,
            Some(ip) => l matches IpLookup::Found(s) && s@ == ip@,
        },
    }
}

/// The reply text for a lookup: the address, or a fixed negative answer.
pub open spec fn ip_text_of(l: IpLookup) -> Seq<char> {
    match l {
        IpLookup::Found(s) => s@,
        _ => NOT_FOUND@,
    }
}

/// The reply text when the instance has no external address.
pub const NOT_FOUND: &'static str = "Not found.";

/// Looks for the external address and tells the two kinds of absence apart.
pub fn lookup_ip(d: &InstanceDescription) -> (r: IpLookup)
    ensures
        lookup_matches(r, *d),
        ip_text_of(r) == match network_address_of(*d) {
            Some(ip) => ip,
            None => NOT_FOUND@,
        },
{
    if d.network_interfaces.len() == 0 {
        return IpLookup::NoAccessConfig;
    }
    let iface = &d.network_interfaces[0];
    if iface.access_configs.len() == 0 {
        return IpLookup::NoAccessConfig;
    }
    match &iface.access_configs[0].nat_ip {
        Some(ip) => IpLookup::Found(ip.clone()),
        None => IpLookup::NoExternalAddress,
    }
}

/// The text a caller of the address query receives.
pub fn ip_text(l: &IpLookup) -> (r: String)
    ensures
        r@ == ip_text_of(*l),
{
    match l {
        IpLookup::Found(s) => s.clone(),
        _ => String::from_str(NOT_FOUND),
    }
}

/// The answer of the address query: the external address, or the fixed
/// negative text when there is none, whichever way it is absent.
pub fn get_ip(d: &InstanceDescription) -> (r: String)
    ensures
        r@ == match network_address_of(*d) {
            Some(ip) => ip,
            None => NOT_FOUND@,
        },
{
    let l = lookup_ip(d);
    ip_text(&l)
}

/// Translates a description into the power status and external address.
pub fn snapshot(d: &InstanceDescription) -> (r: InstanceSnapshot)
    ensures
        r.power_status@ == d.status@,
        match r.network_address {
            Some(a) => network_address_of(*d) == Some(a@),
            None => network_address_of(*d) is None,
        },
{
    let network_address = match lookup_ip(d) {
        IpLookup::Found(ip) => Some(ip),
        _ => None,
    };
    InstanceSnapshot { power_status: d.status.clone(), network_address }
}

/// A description without network interfaces has no external address.
pub proof fn lemma_no_interfaces_no_address(d: InstanceDescription)
    requires
        d.network_interfaces@.len() == 0,
    ensures
        network_address_of(d) is None,
{
}

/// A description whose one interface has one access configuration without an
/// external address has no external address.
pub proof fn lemma_config_without_address_no_address(d: InstanceDescription)
    requires
        d.network_interfaces@.len() == 1,
        d.network_interfaces@[0].access_configs@.len() == 1,
        d.network_interfaces@[0].access_configs@[0].nat_ip is None,
    ensures
        network_address_of(d) is None,
{
}

} // verus!
