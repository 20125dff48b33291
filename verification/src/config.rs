//! Run configuration: the deployed-stack parameters, the benchmark
//! scenario's endpoint counts, and the per-host infrastructure overlay.

use crate::error::OrchError;
use crate::paths::{file_stem_chars, file_stem_of};
use crate::wire::{starts_with, str_starts_with};
use vstd::prelude::*;
use vstd::string::StringExecFns;

verus! {

/// The outputs of the deployed infrastructure stack.
pub struct CdkResources {
    /// The log group remote commands write to.
    pub output_netbench_runner_log_group: String,
    /// The public bucket for run artifacts and results.
    pub output_netbench_runner_public_logs_bucket: String,
    /// The private bucket for uploaded driver sources.
    pub output_netbench_runner_private_src_bucket: String,
    /// The distribution that serves the reports.
    pub output_netbench_cloudfront_distribution: String,
    /// The instance profile for the launched hosts.
    pub output_netbench_runner_instance_profile: String,
    /// The tag key that marks the per-zone subnets.
    pub output_netbench_subnet_tag_key: String,
    /// The tag value that marks the per-zone subnets.
    pub output_netbench_subnet_tag_value: String,
    /// The region the run happens in.
    pub output_netbench_infra_primary_prod_region: String,
}

/// The deployed-stack parameters a run needs.
pub struct CdkConfig {
    /// The stack's outputs.
    pub resources: CdkResources,
}

impl CdkConfig {
    /// The public bucket for run artifacts and results.
    pub fn netbench_runner_public_s3_bucket(&self) -> (r: &String)
        ensures
            r@ == self.resources.output_netbench_runner_public_logs_bucket@,
    {
        &self.resources.output_netbench_runner_public_logs_bucket
    }

    /// The private bucket for uploaded driver sources.
    pub fn netbench_runner_private_s3_bucket(&self) -> (r: &String)
        ensures
            r@ == self.resources.output_netbench_runner_private_src_bucket@,
    {
        &self.resources.output_netbench_runner_private_src_bucket
    }

    /// The distribution that serves the reports.
    pub fn netbench_cloudfront_distribution(&self) -> (r: &String)
        ensures
            r@ == self.resources.output_netbench_cloudfront_distribution@,
    {
        &self.resources.output_netbench_cloudfront_distribution
    }

    /// The log group remote commands write to.
    pub fn netbench_runner_log_group(&self) -> (r: &String)
        ensures
            r@ == self.resources.output_netbench_runner_log_group@,
    {
        &self.resources.output_netbench_runner_log_group
    }

    /// The instance profile for the launched hosts.
    pub fn netbench_runner_instance_profile(&self) -> (r: &String)
        ensures
            r@ == self.resources.output_netbench_runner_instance_profile@,
    {
        &self.resources.output_netbench_runner_instance_profile
    }

    /// The subnet tag key as a describe filter: the cloud API wants the
    /// `tag:` prefix on tag names.
    pub fn netbench_runner_subnet_tag_key(&self) -> (r: String)
        ensures
            r@ == "tag:"@ + self.resources.output_netbench_subnet_tag_key@,
    {
        String::from_str("tag:").concat(self.resources.output_netbench_subnet_tag_key.as_str())
    }

    /// The tag value that marks the per-zone subnets.
    pub fn netbench_runner_subnet_tag_value(&self) -> (r: &String)
        ensures
            r@ == self.resources.output_netbench_subnet_tag_value@,
    {
        &self.resources.output_netbench_subnet_tag_value
    }

    /// The region the run happens in.
    pub fn netbench_primary_region(&self) -> (r: &String)
        ensures
            r@ == self.resources.output_netbench_infra_primary_prod_region@,
    {
        &self.resources.output_netbench_infra_primary_prod_region
    }
}

/// Placement strategy for a launched host. Only cluster placement is
/// supported; placement groups are created per run and per zone.
#[derive(Clone, Copy, Debug, PartialEq, Eq, Structural)]
pub enum PlacementGroupConfig {
    /// No placement constraint.
    Unspecified,
    /// Pack the host close to the others in its zone, for low-latency
    /// node-to-node traffic.
    Cluster,
}

impl Default for PlacementGroupConfig {
    /// Hosts are unconstrained unless the overlay says otherwise.
    fn default() -> (r: PlacementGroupConfig)
        ensures
            r is Unspecified,
    {
        PlacementGroupConfig::Unspecified
    }
}

/// What one launched host looks like: its availability zone, instance
/// type, and placement strategy.
pub struct HostConfig {
    /// The availability zone the host lands in.
    pub az: String,
    /// The instance type to launch.
    pub instance_type: String,
    /// The host's placement strategy.
    pub placement: PlacementGroupConfig,
}

impl HostConfig {
    /// A host in the given zone, which must lie in the run's region.
    pub fn new(region: &str, az: String, placement: PlacementGroupConfig) -> (r: HostConfig)
        requires
            starts_with(az@, region@),
        ensures
            r.az@ == az@,
            r.instance_type@ == "c5.4xlarge"@,
            r.placement == placement,
    {
        HostConfig { az, instance_type: String::from_str("c5.4xlarge"), placement }
    }

    /// The instance type to launch.
    pub fn instance_type(&self) -> (r: &String)
        ensures
            r@ == self.instance_type@,
    {
        &self.instance_type
    }
}

/// The endpoint counts a benchmark scenario declares: how many client and
/// server hosts it needs.
pub struct NetbenchScenario {
    /// The number of client endpoints.
    pub clients: usize,
    /// The number of server endpoints.
    pub servers: usize,
}

/// The infrastructure overlay given on the command line: one availability
/// zone per scenario host, and an optional placement strategy per host.
pub struct CliInfraScenario {
    /// Placement strategy per client host; empty for none.
    pub client_placement: Vec<PlacementGroupConfig>,
    /// Placement strategy per server host; empty for none.
    pub server_placement: Vec<PlacementGroupConfig>,
    /// One availability zone per client host.
    pub client_az: Vec<String>,
    /// One availability zone per server host.
    pub server_az: Vec<String>,
}

/// The placement the overlay assigns to host `i`: unspecified where the
/// overlay is silent.
pub open spec fn overlay_placement(overlay: Seq<PlacementGroupConfig>, i: int) -> PlacementGroupConfig {
    if 0 <= i < overlay.len() {
        overlay[i]
    } else {
        PlacementGroupConfig::Unspecified
    }
}

/// True when the overlay lists are consistent with the scenario: one zone
/// per host, each zone inside the region, and a placement overlay that is
/// empty or matches the host count.
pub open spec fn overlay_consistent(
    azs: Seq<String>,
    placement: Seq<PlacementGroupConfig>,
    hosts: int,
    region: Seq<char>,
) -> bool {
    &&& azs.len() == hosts
    &&& (placement.len() == 0 || placement.len() == hosts)
    &&& forall|i: int| 0 <= i < azs.len() ==> starts_with(#[trigger] azs[i]@, region)
}

/// Build the host configurations for one endpoint group, or say what is
/// wrong with the overlay: a zone count that differs from the scenario's
/// host count, a placement overlay of the wrong length, or a zone outside
/// the region.
pub fn build_host_configs(
    azs: &Vec<String>,
    placement: &Vec<PlacementGroupConfig>,
    hosts: usize,
    region: &str,
) -> (r: Result<Vec<HostConfig>, OrchError>)
    ensures
        r is Ok <==> overlay_consistent(azs@, placement@, hosts as int, region@),
        r matches Ok(v) ==> v@.len() == hosts && (forall|i: int|
            0 <= i < v@.len() ==> (#[trigger] v@[i]).az@ == azs@[i]@ && v@[i].placement
                == overlay_placement(placement@, i) && v@[i].instance_type@ == "c5.4xlarge"@),
        r matches Err(e) ==> e is Init,
{
    if azs.len() != hosts {
        return Err(
            OrchError::Init {
                dbg: String::from_str(
                    "zone overlay should match the number of hosts in the scenario",
                ),
            },
        );
    }
    if placement.len() != 0 && placement.len() != hosts {
        return Err(
            OrchError::Init {
                dbg: String::from_str(
                    "placement overlay should be empty or match the number of hosts in the scenario",
                ),
            },
        );
    }
    let mut configs: Vec<HostConfig> = Vec::new();
    let mut i: usize = 0;
    while i < hosts
        invariant
            0 <= i <= hosts,
            azs@.len() == hosts,
            placement@.len() == 0 || placement@.len() == hosts,
            configs@.len() == i,
            forall|j: int|
                0 <= j < i ==> (#[trigger] configs@[j]).az@ == azs@[j]@ && configs@[j].placement
                    == overlay_placement(placement@, j) && configs@[j].instance_type@
                    == "c5.4xlarge"@,
            forall|j: int| 0 <= j < i ==> starts_with(#[trigger] azs@[j]@, region@),
        decreases hosts - i,
    {
        let az = azs[i].clone();
        if !str_starts_with(az.as_str(), region) {
            return Err(
                OrchError::Init {
                    dbg: String::from_str("a requested zone is not in the run's region"),
                },
            );
        }
        let p = if placement.len() == 0 {
            PlacementGroupConfig::Unspecified
        } else {
            placement[i]
        };
        configs.push(HostConfig::new(region, az, p));
        i += 1;
    }
    Ok(configs)
}

/// How much of a run to perform.
pub enum RunMode {
    /// Provision and tear down only, skipping the benchmark itself:
    /// useful to test the infrastructure setup.
    TestInfra,
    /// The whole run.
    Full,
}

/// The command-line arguments of the orchestrator: the two configuration
/// files and the per-host infrastructure overlay.
pub struct Cli {
    /// Path to the deployed-stack parameter file.
    pub cdk_config_file: String,
    /// Path to the benchmark scenario file.
    pub netbench_scenario_file: String,
    /// The infrastructure overlay for the scenario's hosts.
    pub infra: CliInfraScenario,
}

/// Everything one orchestrator run is configured with.
pub struct OrchestratorConfig {
    /// The scenario's file name, e.g. a bare `request_response.json`.
    pub netbench_scenario_filename: String,
    /// The path the scenario was read from.
    pub netbench_scenario_filepath: String,
    /// The deployed-stack parameters.
    pub cdk_config: CdkConfig,
    /// One entry per client host.
    pub client_config: Vec<HostConfig>,
    /// One entry per server host.
    pub server_config: Vec<HostConfig>,
}

impl OrchestratorConfig {
    /// The scenario's file name.
    pub fn netbench_scenario_filename(&self) -> (r: &String)
        ensures
            r@ == self.netbench_scenario_filename@,
    {
        &self.netbench_scenario_filename
    }

    /// The path the scenario was read from.
    pub fn netbench_scenario_filepath(&self) -> (r: &String)
        ensures
            r@ == self.netbench_scenario_filepath@,
    {
        &self.netbench_scenario_filepath
    }

    /// The scenario's file stem, e.g. `request_response` for
    /// `request_response.json`.
    pub fn netbench_scenario_file_stem(&self) -> (r: String)
        ensures
            r@ == file_stem_chars(self.netbench_scenario_filepath@),
    {
        file_stem_of(self.netbench_scenario_filepath.as_str())
    }

    /// The scenario's file stem, taken from its path.
    pub fn netbench_scenario_filepath_stem(&self) -> (r: String)
        ensures
            r@ == file_stem_chars(self.netbench_scenario_filepath@),
    {
        file_stem_of(self.netbench_scenario_filepath.as_str())
    }

    /// The distribution URL under which this run's artifacts are served.
    pub fn cf_url(&self, unique_id: &str) -> (r: String)
        ensures
            r@ == self.cdk_config.resources.output_netbench_cloudfront_distribution@ + "/"@
                + unique_id@,
    {
        self.cdk_config.netbench_cloudfront_distribution().clone().concat("/").concat(unique_id)
    }

    /// This run's prefix in the public bucket.
    pub fn s3_path(&self, unique_id: &str) -> (r: String)
        ensures
            r@ == "s3://"@ + self.cdk_config.resources.output_netbench_runner_public_logs_bucket@
                + "/"@ + unique_id@,
    {
        String::from_str("s3://").concat(
            self.cdk_config.netbench_runner_public_s3_bucket().as_str(),
        ).concat("/").concat(unique_id)
    }

    /// This run's prefix in the private bucket.
    pub fn s3_private_path(&self, unique_id: &str) -> (r: String)
        ensures
            r@ == "s3://"@ + self.cdk_config.resources.output_netbench_runner_private_src_bucket@
                + "/"@ + unique_id@,
    {
        String::from_str("s3://").concat(
            self.cdk_config.netbench_runner_private_s3_bucket().as_str(),
        ).concat("/").concat(unique_id)
    }
}

/// The requirement checks that are about the input alone: validate the
/// overlay against the scenario's endpoint counts and assemble the run
/// configuration. The environment checks — the benchmark and cloud
/// command-line tools, credentials, the local workspace — happen outside,
/// before any side effects.
pub fn check_requirements(
    cdk_config: CdkConfig,
    scenario: &NetbenchScenario,
    netbench_scenario_filename: String,
    netbench_scenario_filepath: String,
    infra: &CliInfraScenario,
) -> (r: Result<OrchestratorConfig, OrchError>)
    ensures
        r is Ok <==> (overlay_consistent(
            infra.client_az@,
            infra.client_placement@,
            scenario.clients as int,
            cdk_config.resources.output_netbench_infra_primary_prod_region@,
        ) && overlay_consistent(
            infra.server_az@,
            infra.server_placement@,
            scenario.servers as int,
            cdk_config.resources.output_netbench_infra_primary_prod_region@,
        )),
        r matches Ok(c) ==> c.netbench_scenario_filename@ == netbench_scenario_filename@
            && c.netbench_scenario_filepath@ == netbench_scenario_filepath@ && c.client_config@.len()
            == scenario.clients && c.server_config@.len() == scenario.servers && (forall|i: int|
            0 <= i < c.client_config@.len() ==> (#[trigger] c.client_config@[i]).az@
                == infra.client_az@[i]@) && (forall|i: int|
            0 <= i < c.server_config@.len() ==> (#[trigger] c.server_config@[i]).az@
                == infra.server_az@[i]@),
        r matches Err(e) ==> e is Init,
{
    let region = cdk_config.netbench_primary_region().clone();
    let client_config = match build_host_configs(
        &infra.client_az,
        &infra.client_placement,
        scenario.clients,
        region.as_str(),
    ) {
        Ok(c) => c,
        Err(e) => {
            return Err(e);
        },
    };
    let server_config = match build_host_configs(
        &infra.server_az,
        &infra.server_placement,
        scenario.servers,
        region.as_str(),
    ) {
        Ok(c) => c,
        Err(e) => {
            return Err(e);
        },
    };
    Ok(
        OrchestratorConfig {
            netbench_scenario_filename,
            netbench_scenario_filepath,
            cdk_config,
            client_config,
            server_config,
        },
    )
}

} // verus!
