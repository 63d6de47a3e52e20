//! Option and result records of the network endpoints, with their
//! mathematical views.
//!
//! Maps are held as ordered key/value pair lists: the wire encoding writes
//! and reads members in order, and the order of a request body is then a
//! function of the options value alone.

use vstd::prelude::*;

verus! {

/// View of a key/value pair list.
pub open spec fn kv_view(ps: Seq<(String, String)>) -> Seq<(Seq<char>, Seq<char>)> {
    Seq::new(
        ps.len(),
        |k: int|
            if 0 <= k < ps.len() {
                (ps[k].0@, ps[k].1@)
            } else {
                (Seq::empty(), Seq::empty())
            },
    )
}

/// One IP address management configuration entry.  Every field is optional.
#[derive(Debug, Clone, PartialEq, Eq)]
pub struct IPAMConfig {
    pub subnet: Option<String>,
    pub ip_range: Option<String>,
    pub gateway: Option<String>,
    pub aux_address: Option<Vec<(String, String)>>,
}

pub struct IPAMConfigV {
    pub subnet: Option<Seq<char>>,
    pub ip_range: Option<Seq<char>>,
    pub gateway: Option<Seq<char>>,
    pub aux_address: Option<Seq<(Seq<char>, Seq<char>)>>,
}

impl View for IPAMConfig {
    type V = IPAMConfigV;

    open spec fn view(&self) -> IPAMConfigV {
        IPAMConfigV {
            subnet: match self.subnet {
                Some(ref s) => Some(s@),
                None => None,
            },
            ip_range: match self.ip_range {
                Some(ref s) => Some(s@),
                None => None,
            },
            gateway: match self.gateway {
                Some(ref s) => Some(s@),
                None => None,
            },
            aux_address: match self.aux_address {
                Some(ref m) => Some(kv_view(m@)),
                None => None,
            },
        }
    }
}

/// IP address management settings of a network.
#[derive(Debug, Clone, PartialEq, Eq)]
pub struct IPAM {
    pub driver: String,
    pub config: Vec<IPAMConfig>,
    pub options: Vec<(String, String)>,
}

pub struct IPAMV {
    pub driver: Seq<char>,
    pub config: Seq<IPAMConfigV>,
    pub options: Seq<(Seq<char>, Seq<char>)>,
}

/// View of a list of configuration entries.
pub open spec fn cfgs_view(cs: Seq<IPAMConfig>) -> Seq<IPAMConfigV> {
    Seq::new(
        cs.len(),
        |k: int|
            if 0 <= k < cs.len() {
                cs[k]@
            } else {
                IPAMConfigV { subnet: None, ip_range: None, gateway: None, aux_address: None }
            },
    )
}

impl View for IPAM {
    type V = IPAMV;

    open spec fn view(&self) -> IPAMV {
        IPAMV { driver: self.driver@, config: cfgs_view(self.config@), options: kv_view(self.options@) }
    }
}

/// Options of the create-network call.
#[derive(Debug, Clone, PartialEq, Eq)]
pub struct CreateNetworkOptions {
    /// The network's name.
    pub name: String,
    /// Ask the daemon for a best-effort check of name collisions.
    pub check_duplicate: bool,
    /// Name of the network driver plugin to use.
    pub driver: String,
    /// Restrict external access to the network.
    pub internal: bool,
    /// Globally scoped network is manually attachable in swarm mode.
    pub attachable: bool,
    /// Ingress network providing the routing mesh in swarm mode.
    pub ingress: bool,
    /// IP address management settings.
    pub ipam: IPAM,
    /// Enable IPv6 on the network.
    pub enable_ipv6: bool,
    /// Driver-specific options.
    pub options: Vec<(String, String)>,
    /// User-defined key/value metadata.
    pub labels: Vec<(String, String)>,
}

pub struct CreateNetworkOptionsV {
    pub name: Seq<char>,
    pub check_duplicate: bool,
    pub driver: Seq<char>,
    pub internal: bool,
    pub attachable: bool,
    pub ingress: bool,
    pub ipam: IPAMV,
    pub enable_ipv6: bool,
    pub options: Seq<(Seq<char>, Seq<char>)>,
    pub labels: Seq<(Seq<char>, Seq<char>)>,
}

impl View for CreateNetworkOptions {
    type V = CreateNetworkOptionsV;

    open spec fn view(&self) -> CreateNetworkOptionsV {
        CreateNetworkOptionsV {
            name: self.name@,
            check_duplicate: self.check_duplicate,
            driver: self.driver@,
            internal: self.internal,
            attachable: self.attachable,
            ingress: self.ingress,
            ipam: self.ipam@,
            enable_ipv6: self.enable_ipv6,
            options: kv_view(self.options@),
            labels: kv_view(self.labels@),
        }
    }
}

impl Default for IPAMConfig {
    fn default() -> (r: Self)
        ensures
            r@ == (IPAMConfigV { subnet: None, ip_range: None, gateway: None, aux_address: None }),
    {
        IPAMConfig { subnet: None, ip_range: None, gateway: None, aux_address: None }
    }
}

impl Default for IPAM {
    fn default() -> (r: Self)
        ensures
            r@.driver == Seq::<char>::empty(),
            r@.config == Seq::<IPAMConfigV>::empty(),
            r@.options == Seq::<(Seq<char>, Seq<char>)>::empty(),
    {
        let r = IPAM { driver: String::new(), config: Vec::new(), options: Vec::new() };
        proof {
            assert(r@.config =~= Seq::<IPAMConfigV>::empty());
            assert(r@.options =~= Seq::<(Seq<char>, Seq<char>)>::empty());
        }
        r
    }
}

impl Default for CreateNetworkOptions {
    fn default() -> (r: Self)
        ensures
            r@.name == Seq::<char>::empty(),
            !r@.check_duplicate,
            r@.driver == Seq::<char>::empty(),
            !r@.internal,
            !r@.attachable,
            !r@.ingress,
            r@.ipam.driver == Seq::<char>::empty(),
            r@.ipam.config == Seq::<IPAMConfigV>::empty(),
            r@.ipam.options == Seq::<(Seq<char>, Seq<char>)>::empty(),
            !r@.enable_ipv6,
            r@.options == Seq::<(Seq<char>, Seq<char>)>::empty(),
            r@.labels == Seq::<(Seq<char>, Seq<char>)>::empty(),
    {
        let r = CreateNetworkOptions {
            name: String::new(),
            check_duplicate: false,
            driver: String::new(),
            internal: false,
            attachable: false,
            ingress: false,
            ipam: IPAM::default(),
            enable_ipv6: false,
            options: Vec::new(),
            labels: Vec::new(),
        };
        proof {
            assert(r@.options =~= Seq::<(Seq<char>, Seq<char>)>::empty());
            assert(r@.labels =~= Seq::<(Seq<char>, Seq<char>)>::empty());
        }
        r
    }
}

/// What a successful create-network call returns.
#[derive(Debug, Clone, PartialEq, Eq)]
pub struct CreateNetworkResults {
    pub id: String,
    pub warning: String,
}

pub struct CreateNetworkResultsV {
    pub id: Seq<char>,
    pub warning: Seq<char>,
}

impl View for CreateNetworkResults {
    type V = CreateNetworkResultsV;

    open spec fn view(&self) -> CreateNetworkResultsV {
        CreateNetworkResultsV { id: self.id@, warning: self.warning@ }
    }
}

/// Options of the inspect-network call.  Both fields are optional and an
/// absent field is left out of the query string entirely.
#[derive(Debug, Clone, PartialEq, Eq)]
pub struct InspectNetworkOptions {
    /// Detailed inspect output for troubleshooting.
    pub verbose: Option<bool>,
    /// Filter the network by scope (swarm, global, or local).
    pub scope: Option<String>,
}

pub struct InspectNetworkOptionsV {
    pub verbose: Option<bool>,
    pub scope: Option<Seq<char>>,
}

impl View for InspectNetworkOptions {
    type V = InspectNetworkOptionsV;

    open spec fn view(&self) -> InspectNetworkOptionsV {
        InspectNetworkOptionsV {
            verbose: self.verbose,
            scope: match self.scope {
                Some(ref s) => Some(s@),
                None => None,
            },
        }
    }
}

impl Default for InspectNetworkOptions {
    fn default() -> (r: Self)
        ensures
            r@.verbose is None,
            r@.scope is None,
    {
        InspectNetworkOptions { verbose: None, scope: None }
    }
}

/// One container attached to an inspected network.
#[derive(Debug, Clone, PartialEq, Eq)]
pub struct InspectNetworkResultsContainers {
    pub name: String,
    pub endpoint_id: String,
    pub mac_address: String,
    pub ipv4_address: String,
    pub ipv6_address: String,
}

pub struct InspectNetworkResultsContainersV {
    pub name: Seq<char>,
    pub endpoint_id: Seq<char>,
    pub mac_address: Seq<char>,
    pub ipv4_address: Seq<char>,
    pub ipv6_address: Seq<char>,
}

impl View for InspectNetworkResultsContainers {
    type V = InspectNetworkResultsContainersV;

    open spec fn view(&self) -> InspectNetworkResultsContainersV {
        InspectNetworkResultsContainersV {
            name: self.name@,
            endpoint_id: self.endpoint_id@,
            mac_address: self.mac_address@,
            ipv4_address: self.ipv4_address@,
            ipv6_address: self.ipv6_address@,
        }
    }
}

/// What a successful inspect-network call returns.
#[derive(Debug, Clone, PartialEq, Eq)]
pub struct InspectNetworkResults {
    pub name: String,
    pub id: String,
    pub created: String,
    pub scope: String,
    pub driver: String,
    pub enable_ipv6: bool,
    pub ipam: IPAM,
    pub internal: bool,
    pub attachable: bool,
    pub ingress: bool,
    pub containers: Vec<(String, InspectNetworkResultsContainers)>,
    pub options: Vec<(String, String)>,
    pub labels: Vec<(String, String)>,
    pub config_from: Vec<(String, String)>,
    pub config_only: bool,
}

pub struct InspectNetworkResultsV {
    pub name: Seq<char>,
    pub id: Seq<char>,
    pub created: Seq<char>,
    pub scope: Seq<char>,
    pub driver: Seq<char>,
    pub enable_ipv6: bool,
    pub ipam: IPAMV,
    pub internal: bool,
    pub attachable: bool,
    pub ingress: bool,
    pub containers: Seq<(Seq<char>, InspectNetworkResultsContainersV)>,
    pub options: Seq<(Seq<char>, Seq<char>)>,
    pub labels: Seq<(Seq<char>, Seq<char>)>,
    pub config_from: Seq<(Seq<char>, Seq<char>)>,
    pub config_only: bool,
}

/// View of a container list keyed by container identifier.
pub open spec fn containers_view(cs: Seq<(String, InspectNetworkResultsContainers)>) -> Seq<
    (Seq<char>, InspectNetworkResultsContainersV),
> {
    Seq::new(
        cs.len(),
        |k: int|
            if 0 <= k < cs.len() {
                (cs[k].0@, cs[k].1@)
            } else {
                (
                    Seq::empty(),
                    InspectNetworkResultsContainersV {
                        name: Seq::empty(),
                        endpoint_id: Seq::empty(),
                        mac_address: Seq::empty(),
                        ipv4_address: Seq::empty(),
                        ipv6_address: Seq::empty(),
                    },
                )
            },
    )
}

impl View for InspectNetworkResults {
    type V = InspectNetworkResultsV;

    open spec fn view(&self) -> InspectNetworkResultsV {
        InspectNetworkResultsV {
            name: self.name@,
            id: self.id@,
            created: self.created@,
            scope: self.scope@,
            driver: self.driver@,
            enable_ipv6: self.enable_ipv6,
            ipam: self.ipam@,
            internal: self.internal,
            attachable: self.attachable,
            ingress: self.ingress,
            containers: containers_view(self.containers@),
            options: kv_view(self.options@),
            labels: kv_view(self.labels@),
            config_from: kv_view(self.config_from@),
            config_only: self.config_only,
        }
    }
}

} // verus!
