use netbench_orchestrator::config::{CdkConfig, CdkResources, OrchestratorConfig};
use netbench_orchestrator::dashboard::{
    dashboard_urls, index_html_key, instance_running_payload, step_file_key,
};
use netbench_orchestrator::digits::u64_to_dec;
use netbench_orchestrator::ec2_utils::types::{
    Az, EndpointType, HostIps, InstanceDetail, PrivIp, PubIp,
};
use netbench_orchestrator::netbench::{trim_driver_name, ClientContext, ServerContext};
use netbench_orchestrator::netbench::{client_worker, server_worker};
use netbench_orchestrator::paths::{file_name_of, file_stem_of};
use netbench_orchestrator::report::{finished_step_key, report_link_html, report_url};
use netbench_orchestrator::report_tree::{classify_result_file, path_name, ReportTree};
use netbench_orchestrator::workflow::{dedup_addrs, ConnectRetry, CONNECT_RETRY_ATTEMPT};

fn config() -> OrchestratorConfig {
    OrchestratorConfig {
        netbench_scenario_filename: String::from("request_response.json"),
        netbench_scenario_filepath: String::from("../target/s2n-netbench/request_response.json"),
        cdk_config: CdkConfig {
            resources: CdkResources {
                output_netbench_runner_log_group: String::from("runner-logs"),
                output_netbench_runner_public_logs_bucket: String::from("public-bucket"),
                output_netbench_runner_private_src_bucket: String::from("private-bucket"),
                output_netbench_cloudfront_distribution: String::from("https://d123.example"),
                output_netbench_runner_instance_profile: String::from("runner-profile"),
                output_netbench_subnet_tag_key: String::from("RunnerSubnet"),
                output_netbench_subnet_tag_value: String::from("true"),
                output_netbench_infra_primary_prod_region: String::from("us-west-2"),
            },
        },
        client_config: Vec::new(),
        server_config: Vec::new(),
    }
}

#[test]
fn decimal_rendering() {
    assert_eq!(u64_to_dec(0), "0");
    assert_eq!(u64_to_dec(7), "7");
    assert_eq!(u64_to_dec(120), "120");
    assert_eq!(u64_to_dec(4433), "4433");
    assert_eq!(u64_to_dec(9000), "9000");
    assert_eq!(u64_to_dec(65535), "65535");
    assert_eq!(u64_to_dec(u64::MAX), "18446744073709551615");
}

#[test]
fn driver_names_trim_to_short_form() {
    assert_eq!(trim_driver_name("s2n-netbench-driver-server-tcp"), "server-tcp");
    assert_eq!(trim_driver_name("netbench-driver-client-quic"), "client-quic");
    assert_eq!(trim_driver_name("s2n-netbench-driver-client-s2n-quic-dc"), "client-s2n-quic-dc");
    assert_eq!(trim_driver_name("plain-name.json"), "plain-name");
    assert_eq!(trim_driver_name("untouched"), "untouched");

    let ctx = ServerContext {
        testing: false,
        netbench_path: String::from("/home/ec2-user/bin"),
        driver: String::from("s2n-netbench-driver-server-s2n-quic"),
        scenario: String::from("request_response.json"),
        netbench_port: 4433,
    };
    assert_eq!(ctx.trim_driver_name(), "server-s2n-quic");
    let ctx = ClientContext::testing();
    assert_eq!(ctx.trim_driver_name(), "");
}

#[test]
fn path_stems_and_names() {
    assert_eq!(file_stem_of("../target/s2n-netbench/request_response.json"), "request_response");
    assert_eq!(file_stem_of("request_response.json"), "request_response");
    assert_eq!(file_stem_of("no_extension"), "no_extension");
    assert_eq!(file_stem_of("dir/.hidden"), ".hidden");
    assert_eq!(file_stem_of("a/b/c.tar.gz"), "c.tar");
    assert_eq!(file_name_of("a/b/c.tar.gz"), "c.tar.gz");

    assert_eq!(path_name("results/request_response"), Some(String::from("request_response")));
    assert_eq!(path_name("results/.git"), None);
}

#[test]
fn result_files_classify_by_role() {
    assert_eq!(classify_result_file("notes.txt").unwrap(), None);
    assert_eq!(
        classify_result_file("server-tcp-0.json").unwrap(),
        Some(EndpointType::Server)
    );
    assert_eq!(
        classify_result_file("client-tcp-0.json").unwrap(),
        Some(EndpointType::Client)
    );
    assert!(classify_result_file("mystery.json").is_err());

    let tree = ReportTree {
        input_dir: String::from("sample/results"),
        out_dir: String::from("sample/report"),
    };
    assert_eq!(tree.input_dir, "sample/results");
}

#[test]
fn dashboard_urls_and_keys() {
    let config = config();
    let urls = dashboard_urls(&config, "run1");
    assert_eq!(urls.status, "https://d123.example/run1/index.html");
    assert_eq!(urls.server_prefix, "https://d123.example/run1/server-step-");
    assert_eq!(urls.client_prefix, "https://d123.example/run1/client-step-");
    assert_eq!(urls.finished_prefix, "https://d123.example/run1/finished-step-");
    assert_eq!(index_html_key("run1"), "run1/index.html");
    assert_eq!(step_file_key("run1", EndpointType::Server), "run1/server-step-0");
    assert_eq!(step_file_key("run1", EndpointType::Client), "run1/client-step-0");
}

#[test]
fn dashboard_status_payload() {
    let a = InstanceDetail::new(
        EndpointType::Server,
        Az(String::from("us-west-2a")),
        Some(String::from("i-aaa")),
        HostIps::new(PrivIp(String::from("10.0.0.1")), PubIp(String::from("203.0.113.1"))),
    )
    .unwrap();
    let b = InstanceDetail::new(
        EndpointType::Server,
        Az(String::from("us-west-2b")),
        Some(String::from("i-bbb")),
        HostIps::new(PrivIp(String::from("10.0.0.2")), PubIp(String::from("203.0.113.2"))),
    )
    .unwrap();
    let payload = instance_running_payload(EndpointType::Server, &vec![a, b]);
    assert_eq!(
        payload,
        "EC2 Server instances up: public_ip: 203.0.113.1, private_ip: 10.0.0.1 i-aaa - \
         public_ip: 203.0.113.2, private_ip: 10.0.0.2 i-bbb"
    );
    let empty = instance_running_payload(EndpointType::Client, &Vec::new());
    assert_eq!(empty, "EC2 Client instances up: ");
}

#[test]
fn report_links_and_keys() {
    let config = config();
    assert_eq!(report_url(&config, "run1"), "https://d123.example/run1/report/index.html");
    assert_eq!(
        report_link_html(&config, "run1"),
        "<a href=\"https://d123.example/run1/report/index.html\">Final Report</a>"
    );
    assert_eq!(finished_step_key("run1"), "run1/finished-step-0");
}

#[test]
fn run_ids_and_listen_addresses() {
    let state = netbench_orchestrator::state::State::new();
    assert_eq!(state.unique_id("2024-01-02T03:04:05Z"), "2024-01-02T03:04:05Z-v1.0.0");
    assert_eq!(netbench_orchestrator::workflow::local_listen_addr(9000), "0.0.0.0:9000");
}

#[test]
fn pairing_addresses_deduplicate() {
    let addrs = vec![
        String::from("10.0.0.1:9000"),
        String::from("10.0.0.2:9000"),
        String::from("10.0.0.1:9000"),
    ];
    let unique = dedup_addrs(&addrs);
    assert_eq!(unique, vec![String::from("10.0.0.1:9000"), String::from("10.0.0.2:9000")]);

    let mut retry = ConnectRetry::new();
    let mut spent = 0;
    while !retry.exhausted() {
        retry.record_failure();
        spent += 1;
    }
    assert_eq!(spent as u64, CONNECT_RETRY_ATTEMPT);
}

#[test]
fn worker_run_commands() {
    let ctx = ServerContext {
        testing: false,
        netbench_path: String::from("/home/ec2-user/bin"),
        driver: String::from("s2n-netbench-driver-server-tcp"),
        scenario: String::from("request_response.json"),
        netbench_port: 4433,
    };
    let worker = server_worker::WorkerWorkflow::new(String::from("id7"), ctx);
    let cmd = worker.run_command();
    assert_eq!(cmd.program, "/home/ec2-user/bin/s2n-netbench-collector");
    assert_eq!(
        cmd.args,
        vec![
            String::from("/home/ec2-user/bin/s2n-netbench-driver-server-tcp"),
            String::from("--scenario"),
            String::from("/home/ec2-user/bin/request_response.json"),
        ]
    );
    assert_eq!(cmd.env, vec![(String::from("PORT"), String::from("4433"))]);
    assert_eq!(cmd.stdout_file.as_deref(), Some("server-w-id7.json"));

    let ctx = ClientContext {
        testing: false,
        netbench_path: String::from("/home/ec2-user/bin"),
        driver: String::from("s2n-netbench-driver-client-tcp"),
        scenario: String::from("request_response.json"),
        netbench_servers: vec![String::from("10.0.0.1:4433"), String::from("10.0.0.2:4433")],
    };
    let worker = client_worker::WorkerProtocol::new(String::from("id8"), ctx);
    let cmd = worker.run_command();
    assert_eq!(
        cmd.env,
        vec![
            (String::from("SERVER_0"), String::from("10.0.0.1:4433")),
            (String::from("SERVER_1"), String::from("10.0.0.2:4433")),
        ]
    );
    assert_eq!(cmd.stdout_file.as_deref(), Some("client-w-id8.json"));

    // Testing mode runs the stub script instead.
    let worker = server_worker::WorkerWorkflow::new(String::from("t"), ServerContext::testing());
    let cmd = worker.run_command();
    assert_eq!(cmd.program, "sh");
    assert_eq!(
        cmd.args,
        vec![String::from("scripts/sim_netbench_server.sh"), String::from("server-w-t")]
    );
    assert!(cmd.stdout_file.is_none());
}
