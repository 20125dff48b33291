//! The text the status dashboard is built from.
//!
//! The dashboard lives at the run's prefix in the public bucket: an index
//! page templated with the run id and three status-file URL prefixes, and
//! one plain-text status dump per endpoint group once its hosts run.

use crate::config::OrchestratorConfig;
use crate::ec2_utils::types::{EndpointType, InstanceDetail};
use vstd::prelude::*;
use vstd::string::StringExecFns;

verus! {

/// The run's dashboard addresses: the status page itself and the three
/// URL prefixes substituted into the index template.
pub struct DashboardUrls {
    /// The status page URL.
    pub status: String,
    /// The prefix of the server step files.
    pub server_prefix: String,
    /// The prefix of the client step files.
    pub client_prefix: String,
    /// The prefix of the finished step files.
    pub finished_prefix: String,
}

/// The dashboard addresses of one run.
pub fn dashboard_urls(config: &OrchestratorConfig, unique_id: &str) -> (r: DashboardUrls)
    ensures
        ({
            let cf = config.cdk_config.resources.output_netbench_cloudfront_distribution@ + "/"@
                + unique_id@;
            &&& r.status@ == cf + "/index.html"@
            &&& r.server_prefix@ == cf + "/server-step-"@
            &&& r.client_prefix@ == cf + "/client-step-"@
            &&& r.finished_prefix@ == cf + "/finished-step-"@
        }),
{
    let status = config.cf_url(unique_id).concat("/index.html");
    let server_prefix = config.cf_url(unique_id).concat("/server-step-");
    let client_prefix = config.cf_url(unique_id).concat("/client-step-");
    let finished_prefix = config.cf_url(unique_id).concat("/finished-step-");
    DashboardUrls { status, server_prefix, client_prefix, finished_prefix }
}

/// The object key of the dashboard index page.
pub fn index_html_key(unique_id: &str) -> (r: String)
    ensures
        r@ == unique_id@ + "/index.html"@,
{
    String::from_str(unique_id).concat("/index.html")
}

/// The object key of one endpoint group's running-hosts status dump.
pub fn step_file_key(unique_id: &str, endpoint_type: EndpointType) -> (r: String)
    ensures
        r@ == unique_id@ + "/"@ + endpoint_type.lower_chars() + "-step-0"@,
{
    String::from_str(unique_id).concat("/").concat(endpoint_type.as_lower_str()).concat("-step-0")
}

/// One host's line in the status dump: its addresses and its identifier.
pub open spec fn instance_line(d: InstanceDetail) -> Seq<char> {
    "public_ip: "@ + d.host_ips_spec().public_chars() + ", private_ip: "@
        + d.host_ips_spec().private_chars() + " "@ + d.instance_id_chars()
}

/// The hosts' lines joined with a dash separator.
pub open spec fn joined_lines(ds: Seq<InstanceDetail>) -> Seq<char>
    decreases ds.len(),
{
    if ds.len() == 0 {
        Seq::empty()
    } else if ds.len() == 1 {
        instance_line(ds[0])
    } else {
        joined_lines(ds.drop_last()) + " - "@ + instance_line(ds.last())
    }
}

/// The status dump for one endpoint group: which hosts are up, with their
/// addresses and identifiers.
pub fn instance_running_payload(endpoint_type: EndpointType, instances: &Vec<InstanceDetail>) -> (r:
    String)
    ensures
        r@ == "EC2 "@ + endpoint_type.name_chars() + " instances up: "@ + joined_lines(
            instances@,
        ),
{
    let mut joined = String::new();
    let n = instances.len();
    let mut i: usize = 0;
    while i < n
        invariant
            0 <= i <= n,
            n == instances@.len(),
            joined@ == joined_lines(instances@.take(i as int)),
        decreases n - i,
    {
        if i > 0 {
            joined = joined.concat(" - ");
        }
        let d = &instances[i];
        joined = joined.concat("public_ip: ").concat(
            d.host_ips().public_ip().0.as_str(),
        ).concat(", private_ip: ").concat(d.host_ips().private_ip().0.as_str()).concat(
            " ",
        ).concat(d.instance_id().as_str());
        proof {
            assert(instances@.take(i + 1).drop_last() =~= instances@.take(i as int));
            assert(instances@.take(i + 1).last() == instances@[i as int]);
            assert(joined@ =~= joined_lines(instances@.take(i + 1)));
        }
        i += 1;
    }
    proof {
        assert(instances@.take(n as int) =~= instances@);
    }
    String::from_str("EC2 ").concat(endpoint_type.as_str()).concat(" instances up: ").concat(
        joined.as_str(),
    )
}

} // verus!
