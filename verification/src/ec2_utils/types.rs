//! Plain descriptions of provisioned hosts.

use crate::error::OrchError;
use vstd::prelude::*;
use vstd::string::StringExecFns;

verus! {

/// Which side of the benchmark a host serves.
#[derive(Clone, Copy, Debug, PartialEq, Eq, Structural)]
pub enum EndpointType {
    Server,
    Client,
}

impl EndpointType {
    /// The display name of this endpoint type.
    pub open spec fn name_chars(&self) -> Seq<char> {
        match self {
            EndpointType::Server => "Server"@,
            EndpointType::Client => "Client"@,
        }
    }

    /// The lower-case name of this endpoint type.
    pub open spec fn lower_chars(&self) -> Seq<char> {
        match self {
            EndpointType::Server => "server"@,
            EndpointType::Client => "client"@,
        }
    }

    /// The display name of this endpoint type.
    pub fn as_str(&self) -> (r: &str)
        ensures
            r@ == self.name_chars(),
    {
        match self {
            EndpointType::Server => "Server",
            EndpointType::Client => "Client",
        }
    }

    /// The lower-case name of this endpoint type, as used in object keys
    /// and host name tags.
    pub fn as_lower_str(&self) -> (r: &str)
        ensures
            r@ == self.lower_chars(),
    {
        match self {
            EndpointType::Server => "server",
            EndpointType::Client => "client",
        }
    }
}

/// An availability zone name.
#[derive(Clone, Debug)]
pub struct Az(pub String);

/// A subnet identifier.
#[derive(Clone, Debug)]
pub struct SubnetId(pub String);

/// A virtual-network identifier.
#[derive(Clone, Debug)]
pub struct VpcId(pub String);

/// A host's public address.
#[derive(Clone, Debug)]
pub struct PubIp(pub String);

/// A host's private address.
#[derive(Clone, Debug)]
pub struct PrivIp(pub String);

impl Az {
    /// The zone name as an owned string.
    pub fn as_string(&self) -> (r: String)
        ensures
            r@ == self.0@,
    {
        self.0.clone()
    }
}

impl SubnetId {
    /// The identifier as an owned string.
    pub fn as_string(&self) -> (r: String)
        ensures
            r@ == self.0@,
    {
        self.0.clone()
    }
}

impl VpcId {
    /// The identifier as an owned string.
    pub fn as_string(&self) -> (r: String)
        ensures
            r@ == self.0@,
    {
        self.0.clone()
    }
}

/// The public and private addresses of one remote host.
#[derive(Clone, Debug)]
pub struct HostIps {
    /// The private address.
    pub private_ip: PrivIp,
    /// The public address.
    pub public_ip: PubIp,
}

impl HostIps {
    /// The private address.
    pub open spec fn private_chars(&self) -> Seq<char> {
        self.private_ip.0@
    }

    /// The public address.
    pub open spec fn public_chars(&self) -> Seq<char> {
        self.public_ip.0@
    }

    /// Pair a host's two addresses.
    pub fn new(private_ip: PrivIp, public_ip: PubIp) -> (r: HostIps)
        ensures
            r.private_chars() == private_ip.0@,
            r.public_chars() == public_ip.0@,
    {
        HostIps { private_ip, public_ip }
    }

    /// The public address.
    pub fn public_ip(&self) -> (r: &PubIp)
        ensures
            r.0@ == self.public_chars(),
    {
        &self.public_ip
    }

    /// The private address.
    pub fn private_ip(&self) -> (r: &PrivIp)
        ensures
            r.0@ == self.private_chars(),
    {
        &self.private_ip
    }
}

/// One provisioned host: its role, zone, identifier and addresses.
/// Created at provisioning and immutable thereafter.
#[derive(Clone, Debug)]
pub struct InstanceDetail {
    /// The host's role.
    pub endpoint_type: EndpointType,
    /// The host's zone.
    pub az: Az,
    /// The host's identifier.
    pub instance_id: String,
    /// The host's addresses.
    pub host_ips: HostIps,
}

impl InstanceDetail {
    /// The host's identifier.
    pub open spec fn instance_id_chars(&self) -> Seq<char> {
        self.instance_id@
    }

    /// The host's addresses.
    pub open spec fn host_ips_spec(&self) -> HostIps {
        self.host_ips
    }

    /// The host's role.
    pub open spec fn endpoint_type_spec(&self) -> EndpointType {
        self.endpoint_type
    }

    /// The host's zone.
    pub open spec fn az_chars(&self) -> Seq<char> {
        self.az.0@
    }

    /// Describe one provisioned host. The launch report carries the
    /// identifier as an optional value; a host without one is a
    /// provisioning failure.
    pub fn new(
        endpoint_type: EndpointType,
        az: Az,
        instance_id: Option<String>,
        host_ips: HostIps,
    ) -> (r: Result<InstanceDetail, OrchError>)
        ensures
            r is Ok <==> instance_id is Some,
            r matches Ok(d) ==> d.endpoint_type_spec() == endpoint_type && d.az_chars() == az.0@
                && Some(d.instance_id_chars()) == instance_id_view(instance_id)
                && d.host_ips_spec() == host_ips,
            r matches Err(e) ==> e is Ec2,
    {
        match instance_id {
            Some(instance_id) => Ok(
                InstanceDetail { endpoint_type, az, instance_id, host_ips },
            ),
            None => Err(OrchError::Ec2 { dbg: String::from_str("No instance id") }),
        }
    }

    /// The host's identifier.
    pub fn instance_id(&self) -> (r: &String)
        ensures
            r@ == self.instance_id_chars(),
    {
        &self.instance_id
    }

    /// The host's addresses.
    pub fn host_ips(&self) -> (r: &HostIps)
        ensures
            *r == self.host_ips_spec(),
    {
        &self.host_ips
    }

    /// The host's role.
    pub fn endpoint_type(&self) -> (r: &EndpointType)
        ensures
            *r == self.endpoint_type_spec(),
    {
        &self.endpoint_type
    }
}

/// The characters of an optional identifier.
pub open spec fn instance_id_view(id: Option<String>) -> Option<Seq<char>> {
    match id {
        Some(s) => Some(s@),
        None => None,
    }
}

} // verus!
