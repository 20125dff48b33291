//! Network provisioning decisions: the security-group rules for one run,
//! the placement-group names, and the zone-to-subnet resolution.

use crate::config::OrchestratorConfig;
use crate::ec2_utils::types::{Az, SubnetId, VpcId};
use crate::error::OrchError;
use crate::wire::str_eq;
use vstd::prelude::*;
use vstd::string::StringExecFns;

verus! {

/// One security-group rule: a protocol, a port range, and either the
/// group itself or a list of address blocks as the source.
pub struct IpPermissionSpec {
    /// The protocol, `-1` for all.
    pub ip_protocol: String,
    /// The first port of the range, -1 for all.
    pub from_port: i32,
    /// The last port of the range, -1 for all.
    pub to_port: i32,
    /// The address blocks the rule applies to.
    pub cidr_blocks: Vec<String>,
    /// Whether the rule names the group itself as its peer.
    pub within_group: bool,
}

/// The egress rules of the run's security group: all traffic within the
/// group.
pub fn egress_permissions() -> (r: Vec<IpPermissionSpec>)
    ensures
        r@.len() == 1,
        r@[0].within_group,
        r@[0].ip_protocol@ == "-1"@,
        r@[0].from_port == -1 && r@[0].to_port == -1,
        r@[0].cidr_blocks@.len() == 0,
{
    let mut r: Vec<IpPermissionSpec> = Vec::new();
    r.push(
        IpPermissionSpec {
            ip_protocol: String::from_str("-1"),
            from_port: -1,
            to_port: -1,
            cidr_blocks: Vec::new(),
            within_group: true,
        },
    );
    r
}

/// The ingress rules of the run's security group: all traffic within the
/// group; all traffic from the run's own public addresses; port 22 from
/// anywhere; and the coordination port from anywhere.
pub fn ingress_permissions(public_ips: &Vec<String>, coordination_port: u16) -> (r: Vec<
    IpPermissionSpec,
>)
    ensures
        r@.len() == 4,
        r@[0].within_group && r@[0].ip_protocol@ == "-1"@ && r@[0].from_port == -1
            && r@[0].to_port == -1,
        !r@[1].within_group && r@[1].ip_protocol@ == "-1"@ && r@[1].from_port == -1
            && r@[1].to_port == -1,
        r@[1].cidr_blocks@.len() == public_ips@.len(),
        forall|i: int|
            0 <= i < public_ips@.len() ==> (#[trigger] r@[1].cidr_blocks@[i])@ == public_ips@[i]@
                + "/32"@,
        !r@[2].within_group && r@[2].ip_protocol@ == "tcp"@ && r@[2].from_port == 22
            && r@[2].to_port == 22,
        r@[2].cidr_blocks@.len() == 1 && r@[2].cidr_blocks@[0]@ == "0.0.0.0/0"@,
        !r@[3].within_group && r@[3].ip_protocol@ == "tcp"@ && r@[3].from_port
            == coordination_port && r@[3].to_port == coordination_port,
        r@[3].cidr_blocks@.len() == 1 && r@[3].cidr_blocks@[0]@ == "0.0.0.0/0"@,
{
    let mut r: Vec<IpPermissionSpec> = Vec::new();
    r.push(
        IpPermissionSpec {
            ip_protocol: String::from_str("-1"),
            from_port: -1,
            to_port: -1,
            cidr_blocks: Vec::new(),
            within_group: true,
        },
    );
    let n = public_ips.len();
    let mut host_blocks: Vec<String> = Vec::new();
    let mut i: usize = 0;
    while i < n
        invariant
            0 <= i <= n,
            n == public_ips@.len(),
            host_blocks@.len() == i,
            forall|j: int|
                0 <= j < i ==> (#[trigger] host_blocks@[j])@ == public_ips@[j]@ + "/32"@,
        decreases n - i,
    {
        host_blocks.push(public_ips[i].clone().concat("/32"));
        i += 1;
    }
    r.push(
        IpPermissionSpec {
            ip_protocol: String::from_str("-1"),
            from_port: -1,
            to_port: -1,
            cidr_blocks: host_blocks,
            within_group: false,
        },
    );
    let mut ssh_range: Vec<String> = Vec::new();
    ssh_range.push(String::from_str("0.0.0.0/0"));
    r.push(
        IpPermissionSpec {
            ip_protocol: String::from_str("tcp"),
            from_port: 22,
            to_port: 22,
            cidr_blocks: ssh_range,
            within_group: false,
        },
    );
    let mut coordination_range: Vec<String> = Vec::new();
    coordination_range.push(String::from_str("0.0.0.0/0"));
    r.push(
        IpPermissionSpec {
            ip_protocol: String::from_str("tcp"),
            from_port: coordination_port as i32,
            to_port: coordination_port as i32,
            cidr_blocks: coordination_range,
            within_group: false,
        },
    );
    r
}

/// The name of the placement group created for one zone of one run.
pub fn placement_group_name(unique_id: &str, az: &Az) -> (r: String)
    ensures
        r@ == "cluster-"@ + unique_id@ + "-"@ + az.0@,
{
    String::from_str("cluster-").concat(unique_id).concat("-").concat(az.0.as_str())
}

/// One subnet as the describe call reports it: its zone, its identifier,
/// and the network it belongs to.
pub struct SubnetRecord {
    /// The subnet's availability zone.
    pub az: String,
    /// The subnet's identifier.
    pub subnet_id: String,
    /// The network the subnet belongs to.
    pub vpc_id: String,
}

/// True when every subnet names the same network as the first.
pub open spec fn all_same_vpc(subnets: Seq<SubnetRecord>) -> bool {
    forall|i: int| 0 <= i < subnets.len() ==> (#[trigger] subnets[i]).vpc_id@ == subnets[0].vpc_id@
}

/// True when some entry of the zone map carries this zone name.
pub open spec fn map_has_az(map: Seq<(Az, SubnetId)>, az: Seq<char>) -> bool {
    exists|i: int| 0 <= i < map.len() && (#[trigger] map[i]).0.0@ == az
}

/// True when every host's zone appears in the zone map.
pub open spec fn azs_covered(
    hosts: Seq<crate::config::HostConfig>,
    map: Seq<(Az, SubnetId)>,
) -> bool {
    forall|i: int| 0 <= i < hosts.len() ==> map_has_az(map, (#[trigger] hosts[i]).az@)
}

/// True when every entry of the zone map was taken from one of the
/// subnets: same zone, same subnet identifier.
pub open spec fn map_entries_from_subnets(
    map: Seq<(Az, SubnetId)>,
    subnets: Seq<SubnetRecord>,
) -> bool {
    forall|i: int|
        0 <= i < map.len() ==> exists|j: int|
            0 <= j < subnets.len() && (#[trigger] map[i]).0.0@ == (#[trigger] subnets[j]).az@
                && map[i].1.0@ == subnets[j].subnet_id@
}

/// True when some subnet lies in this zone.
pub open spec fn az_in_subnets(subnets: Seq<SubnetRecord>, az: Seq<char>) -> bool {
    exists|j: int| 0 <= j < subnets.len() && (#[trigger] subnets[j]).az@ == az
}

/// True when every host's zone has a subnet.
pub open spec fn hosts_covered(
    hosts: Seq<crate::config::HostConfig>,
    subnets: Seq<SubnetRecord>,
) -> bool {
    forall|i: int| 0 <= i < hosts.len() ==> az_in_subnets(subnets, (#[trigger] hosts[i]).az@)
}

/// Whether the zone map carries this zone name.
pub fn map_contains_az(map: &Vec<(Az, SubnetId)>, az: &str) -> (r: bool)
    ensures
        r == map_has_az(map@, az@),
{
    let n = map.len();
    let mut i: usize = 0;
    while i < n
        invariant
            0 <= i <= n,
            n == map@.len(),
            forall|j: int| 0 <= j < i ==> (#[trigger] map@[j]).0.0@ != az@,
        decreases n - i,
    {
        if str_eq(map[i].0.0.as_str(), az) {
            return true;
        }
        i += 1;
    }
    false
}

/// The subnet an availability zone resolves to, when the map has one.
pub fn subnet_for_az(map: &Vec<(Az, SubnetId)>, az: &str) -> (r: Option<SubnetId>)
    ensures
        r is Some <==> map_has_az(map@, az@),
        r matches Some(s) ==> exists|i: int|
            0 <= i < map@.len() && (#[trigger] map@[i]).0.0@ == az@ && map@[i].1.0@ == s.0@,
{
    let n = map.len();
    let mut i: usize = 0;
    while i < n
        invariant
            0 <= i <= n,
            n == map@.len(),
            forall|j: int| 0 <= j < i ==> (#[trigger] map@[j]).0.0@ != az@,
        decreases n - i,
    {
        if str_eq(map[i].0.0.as_str(), az) {
            return Some(SubnetId(map[i].1.0.clone()));
        }
        i += 1;
    }
    None
}

/// Resolve one subnet per availability zone from the tagged subnets, and
/// the single network they share. Fails when no subnet was found, when the
/// subnets span more than one network, or when some requested zone has no
/// subnet. With several subnets in one zone, one of them is kept.
pub fn get_subnet_vpc_ids(subnets: &Vec<SubnetRecord>, config: &OrchestratorConfig) -> (r: Result<
    (Vec<(Az, SubnetId)>, VpcId),
    OrchError,
>)
    ensures
        r is Ok <==> (subnets@.len() > 0 && all_same_vpc(subnets@) && hosts_covered(
            config.client_config@,
            subnets@,
        ) && hosts_covered(config.server_config@, subnets@)),
        r matches Ok((map, vpc)) ==> vpc.0@ == subnets@[0].vpc_id@ && azs_covered(
            config.client_config@,
            map@,
        ) && azs_covered(config.server_config@, map@) && map_entries_from_subnets(map@, subnets@),
        r matches Err(e) ==> e is Ec2,
{
    let n = subnets.len();
    if n == 0 {
        return Err(OrchError::Ec2 { dbg: String::from_str("No subnets found") });
    }
    let vpc_id = subnets[0].vpc_id.clone();
    let mut map: Vec<(Az, SubnetId)> = Vec::new();
    let mut i: usize = 0;
    while i < n
        invariant
            0 < n == subnets@.len(),
            0 <= i <= n,
            vpc_id@ == subnets@[0].vpc_id@,
            forall|j: int| 0 <= j < i ==> (#[trigger] subnets@[j]).vpc_id@ == subnets@[0].vpc_id@,
            map_entries_from_subnets(map@, subnets@),
            forall|j: int| 0 <= j < i ==> map_has_az(map@, (#[trigger] subnets@[j]).az@),
        decreases n - i,
    {
        if !str_eq(subnets[i].vpc_id.as_str(), vpc_id.as_str()) {
            return Err(
                OrchError::Ec2 { dbg: String::from_str("subnets span more than one network") },
            );
        }
        let az = subnets[i].az.clone();
        if !map_contains_az(&map, az.as_str()) {
            let ghost map_prev = map@;
            map.push((Az(az), SubnetId(subnets[i].subnet_id.clone())));
            proof {
                assert(map@[map@.len() - 1].0.0@ == subnets@[i as int].az@);
                assert(forall|j: int|
                    0 <= j < i ==> map_has_az(map_prev, (#[trigger] subnets@[j]).az@)
                        ==> map_has_az(map@, subnets@[j].az@)) by {
                    assert(forall|k: int| 0 <= k < map_prev.len() ==> map@[k] == map_prev[k]);
                }
            }
        }
        i += 1;
    }
    let mut k: usize = 0;
    let cn = config.client_config.len();
    while k < cn
        invariant
            0 <= k <= cn,
            cn == config.client_config@.len(),
            map_entries_from_subnets(map@, subnets@),
            forall|j: int|
                0 <= j < subnets@.len() ==> map_has_az(map@, (#[trigger] subnets@[j]).az@),
            forall|j: int|
                0 <= j < k ==> map_has_az(map@, (#[trigger] config.client_config@[j]).az@),
        decreases cn - k,
    {
        if !map_contains_az(&map, config.client_config[k].az.as_str()) {
            proof {
                lemma_map_az_matches_subnets(map@, subnets@, config.client_config@[k as int].az@);
            }
            return Err(OrchError::Ec2 { dbg: String::from_str("Subnet not found for zone") });
        }
        k += 1;
    }
    let mut k: usize = 0;
    let sn = config.server_config.len();
    while k < sn
        invariant
            0 <= k <= sn,
            sn == config.server_config@.len(),
            map_entries_from_subnets(map@, subnets@),
            forall|j: int|
                0 <= j < subnets@.len() ==> map_has_az(map@, (#[trigger] subnets@[j]).az@),
            forall|j: int|
                0 <= j < k ==> map_has_az(map@, (#[trigger] config.server_config@[j]).az@),
            azs_covered(config.client_config@, map@),
        decreases sn - k,
    {
        if !map_contains_az(&map, config.server_config[k].az.as_str()) {
            proof {
                lemma_map_az_matches_subnets(map@, subnets@, config.server_config@[k as int].az@);
            }
            return Err(OrchError::Ec2 { dbg: String::from_str("Subnet not found for zone") });
        }
        k += 1;
    }
    proof {
        assert forall|i: int| 0 <= i < config.client_config@.len() implies az_in_subnets(
            subnets@,
            (#[trigger] config.client_config@[i]).az@,
        ) by {
            lemma_map_az_matches_subnets(map@, subnets@, config.client_config@[i].az@);
        }
        assert forall|i: int| 0 <= i < config.server_config@.len() implies az_in_subnets(
            subnets@,
            (#[trigger] config.server_config@[i]).az@,
        ) by {
            lemma_map_az_matches_subnets(map@, subnets@, config.server_config@[i].az@);
        }
    }
    Ok((map, VpcId(vpc_id)))
}

/// With the zone map built from the subnets — every entry taken from a
/// subnet, every subnet's zone entered — the map has a zone exactly when
/// some subnet lies in it.
proof fn lemma_map_az_matches_subnets(map: Seq<(Az, SubnetId)>, subnets: Seq<SubnetRecord>, az: Seq<char>)
    requires
        map_entries_from_subnets(map, subnets),
        forall|j: int| 0 <= j < subnets.len() ==> map_has_az(map, (#[trigger] subnets[j]).az@),
    ensures
        map_has_az(map, az) <==> az_in_subnets(subnets, az),
{
    if map_has_az(map, az) {
        let i = choose|i: int| 0 <= i < map.len() && (#[trigger] map[i]).0.0@ == az;
        let j = choose|j: int|
            0 <= j < subnets.len() && (#[trigger] map[i]).0.0@ == (#[trigger] subnets[j]).az@
                && map[i].1.0@ == subnets[j].subnet_id@;
        assert(subnets[j].az@ == az);
    }
    if az_in_subnets(subnets, az) {
        let j = choose|j: int| 0 <= j < subnets.len() && (#[trigger] subnets[j]).az@ == az;
        assert(map_has_az(map, subnets[j].az@));
    }
}

} // verus!
