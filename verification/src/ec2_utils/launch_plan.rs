//! Launch-request assembly and the polling of freshly launched hosts.

use crate::config::{HostConfig, PlacementGroupConfig};
use crate::ec2_utils::networking::{map_has_az, subnet_for_az};
use crate::ec2_utils::types::{Az, EndpointType, HostIps, PrivIp, PubIp, SubnetId, VpcId};
use crate::error::OrchError;
use crate::wire::str_eq;
use vstd::prelude::*;
use vstd::string::StringExecFns;

verus! {

/// Seconds to wait after launch before the hosts are used.
pub const WAIT_INSTANCE_LAUNCH_SECS: u64 = 10;

/// Everything needed to launch the run's hosts: the machine image, one
/// subnet per availability zone, the network they share, and the instance
/// profile the hosts run under.
pub struct LaunchPlan {
    /// The machine image to boot.
    pub ami_id: String,
    /// One subnet per availability zone.
    pub networking_detail: Vec<(Az, SubnetId)>,
    /// The network the subnets share.
    pub vpc_id: VpcId,
    /// The instance profile the hosts run under.
    pub instance_profile_arn: String,
}

/// The placement of one launch request: an optional placement group and
/// the availability zone.
pub struct PlacementSpec {
    /// The placement group, for clustered hosts.
    pub group_name: Option<String>,
    /// The availability zone.
    pub availability_zone: String,
}

/// True when some entry of the placement-group map carries this zone name.
pub open spec fn groups_have_az(map: Seq<(Az, String)>, az: Seq<char>) -> bool {
    exists|i: int| 0 <= i < map.len() && (#[trigger] map[i]).0.0@ == az
}

impl HostConfig {
    /// The placement of this host's launch request: clustered hosts name
    /// the placement group created for their zone, which must exist.
    pub fn to_ec2_placement(&self, placement_map: &Vec<(Az, String)>) -> (r: Result<
        PlacementSpec,
        OrchError,
    >)
        ensures
            self.placement is Unspecified ==> (r matches Ok(p) && p.group_name is None
                && p.availability_zone@ == self.az@),
            self.placement is Cluster ==> (r is Ok <==> groups_have_az(placement_map@, self.az@)),
            self.placement is Cluster ==> (r matches Ok(p) ==> (p.group_name matches Some(g)
                && (exists|i: int|
                0 <= i < placement_map@.len() && (#[trigger] placement_map@[i]).0.0@ == self.az@
                    && placement_map@[i].1@ == g@) && p.availability_zone@ == self.az@)),
            r matches Err(e) ==> e is Ec2,
    {
        match &self.placement {
            PlacementGroupConfig::Unspecified => Ok(
                PlacementSpec { group_name: None, availability_zone: self.az.clone() },
            ),
            PlacementGroupConfig::Cluster => {
                let n = placement_map.len();
                let mut i: usize = 0;
                while i < n
                    invariant
                        self.placement is Cluster,
                        0 <= i <= n,
                        n == placement_map@.len(),
                        forall|j: int| 0 <= j < i ==> (#[trigger] placement_map@[j]).0.0@ != self.az@,
                    decreases n - i,
                {
                    if str_eq(placement_map[i].0.0.as_str(), self.az.as_str()) {
                        return Ok(
                            PlacementSpec {
                                group_name: Some(placement_map[i].1.clone()),
                                availability_zone: self.az.clone(),
                            },
                        );
                    }
                    i += 1;
                }
                Err(OrchError::Ec2 { dbg: String::from_str("placement group not found") })
            },
        }
    }
}

/// One host launch request, ready for dispatch: every field the launch
/// call needs, as plain values.
pub struct RunInstancesSpec {
    /// The instance type.
    pub instance_type: String,
    /// The machine image to boot.
    pub ami_id: String,
    /// The subnet the host lands in.
    pub subnet_id: String,
    /// The run's security group.
    pub security_group_id: String,
    /// The instance profile the host runs under.
    pub iam_instance_profile_arn: String,
    /// The host's name tag.
    pub name_tag: String,
    /// The host's placement.
    pub placement: PlacementSpec,
    /// The root volume size, in binary gigabytes.
    pub volume_size_gib: u32,
    /// Whether the host terminates itself on shutdown.
    pub shutdown_terminates: bool,
    /// Whether the host gets a public address.
    pub associate_public_ip: bool,
    /// How many hosts this request launches.
    pub count: u32,
}

/// The name tag of a launched host: its role and the run it belongs to.
pub fn instance_name(unique_id: &str, endpoint_type: EndpointType) -> (r: String)
    ensures
        r@ == endpoint_type.lower_chars() + "_"@ + unique_id@,
{
    let role = endpoint_type.as_lower_str();
    String::from_str(role).concat("_").concat(unique_id)
}

/// Assemble the launch request for one host: resolve its subnet and
/// placement, name it after the run, and fix the launch parameters — one
/// host, a 50 gib root volume, termination on shutdown, and a public
/// address.
pub fn launch_instances(
    plan: &LaunchPlan,
    security_group_id: &String,
    unique_id: &str,
    host_config: &HostConfig,
    placement_map: &Vec<(Az, String)>,
    endpoint_type: EndpointType,
) -> (r: Result<RunInstancesSpec, OrchError>)
    ensures
        host_config.placement is Unspecified ==> (r is Ok <==> map_has_az(
            plan.networking_detail@,
            host_config.az@,
        )),
        host_config.placement is Cluster ==> (r is Ok <==> (map_has_az(
            plan.networking_detail@,
            host_config.az@,
        ) && groups_have_az(placement_map@, host_config.az@))),
        r matches Ok(spec) ==> spec.instance_type@ == host_config.instance_type@ && spec.ami_id@
            == plan.ami_id@ && spec.security_group_id@ == security_group_id@
            && spec.iam_instance_profile_arn@ == plan.instance_profile_arn@ && spec.name_tag@
            == endpoint_type.lower_chars() + "_"@ + unique_id@ && spec.volume_size_gib == 50
            && spec.shutdown_terminates && spec.associate_public_ip && spec.count == 1
            && spec.placement.availability_zone@ == host_config.az@ && (exists|i: int|
            0 <= i < plan.networking_detail@.len()
                && (#[trigger] plan.networking_detail@[i]).0.0@ == host_config.az@
                && plan.networking_detail@[i].1.0@ == spec.subnet_id@),
        r matches Err(e) ==> e is Ec2,
{
    let subnet = match subnet_for_az(&plan.networking_detail, host_config.az.as_str()) {
        Some(s) => s,
        None => {
            return Err(OrchError::Ec2 { dbg: String::from_str("Subnet not found") });
        },
    };
    let placement = match host_config.to_ec2_placement(placement_map) {
        Ok(p) => p,
        Err(e) => {
            return Err(e);
        },
    };
    Ok(
        RunInstancesSpec {
            instance_type: host_config.instance_type().clone(),
            ami_id: plan.ami_id.clone(),
            subnet_id: subnet.as_string(),
            security_group_id: security_group_id.clone(),
            iam_instance_profile_arn: plan.instance_profile_arn.clone(),
            name_tag: instance_name(unique_id, endpoint_type),
            placement,
            volume_size_gib: 50,
            shutdown_terminates: true,
            associate_public_ip: true,
            count: 1,
        },
    )
}

/// One status poll of a freshly launched host: keep polling while it is
/// not yet running; once it runs, both its addresses must be assigned.
pub fn poll_running(running: bool, private_ip: Option<String>, public_ip: Option<String>) -> (r:
    Result<Option<HostIps>, OrchError>)
    ensures
        !running ==> (r matches Ok(h) && h is None),
        (running && private_ip is Some && public_ip is Some) ==> (r matches Ok(h)
            && h matches Some(ips) && Some(ips.private_chars()) == opt_chars(private_ip)
            && Some(ips.public_chars()) == opt_chars(public_ip)),
        (running && (private_ip is None || public_ip is None)) ==> (r matches Err(e) && e is Ec2),
{
    if !running {
        return Ok(None);
    }
    match (private_ip, public_ip) {
        (Some(private_ip), Some(public_ip)) => Ok(
            Some(HostIps::new(PrivIp(private_ip), PubIp(public_ip))),
        ),
        _ => Err(OrchError::Ec2 { dbg: String::from_str("Failed to launch host") }),
    }
}

/// The characters of an optional string.
pub open spec fn opt_chars(s: Option<String>) -> Option<Seq<char>> {
    match s {
        Some(s) => Some(s@),
        None => None,
    }
}

} // verus!
