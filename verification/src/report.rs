//! The aggregate report's addresses and the link that announces it.

use crate::config::OrchestratorConfig;
use vstd::prelude::*;
use vstd::string::StringExecFns;

verus! {

/// The URL the finished report is served at.
pub fn report_url(config: &OrchestratorConfig, unique_id: &str) -> (r: String)
    ensures
        r@ == config.cdk_config.resources.output_netbench_cloudfront_distribution@ + "/"@
            + unique_id@ + "/report/index.html"@,
{
    config.cf_url(unique_id).concat("/report/index.html")
}

/// The HTML fragment that links the finished report from the dashboard.
pub fn report_link_html(config: &OrchestratorConfig, unique_id: &str) -> (r: String)
    ensures
        r@ == "<a href=\""@ + config.cdk_config.resources.output_netbench_cloudfront_distribution@
            + "/"@ + unique_id@ + "/report/index.html\">Final Report</a>"@,
{
    String::from_str("<a href=\"").concat(config.cf_url(unique_id).as_str()).concat(
        "/report/index.html\">Final Report</a>",
    )
}

/// The object key of the finished-step marker.
pub fn finished_step_key(unique_id: &str) -> (r: String)
    ensures
        r@ == unique_id@ + "/finished-step-0"@,
{
    String::from_str(unique_id).concat("/finished-step-0")
}

/// The directory raw results are collected into under a working directory.
pub fn results_path(tmp_dir: &str) -> (r: String)
    ensures
        r@ == tmp_dir@ + "/results"@,
{
    String::from_str(tmp_dir).concat("/results")
}

/// The directory the rendered report goes into under a working directory.
pub fn report_path(tmp_dir: &str) -> (r: String)
    ensures
        r@ == tmp_dir@ + "/report"@,
{
    String::from_str(tmp_dir).concat("/report")
}

} // verus!
