use netbench_orchestrator::config::{
    build_host_configs, CdkConfig, CdkResources, NetbenchScenario, OrchestratorConfig,
    PlacementGroupConfig,
};
use netbench_orchestrator::ec2_utils::launch_plan::{launch_instances, LaunchPlan};
use netbench_orchestrator::ec2_utils::networking::{
    egress_permissions, get_subnet_vpc_ids, ingress_permissions, placement_group_name,
    SubnetRecord,
};
use netbench_orchestrator::ec2_utils::types::{
    Az, EndpointType, HostIps, InstanceDetail, PrivIp, PubIp, SubnetId, VpcId,
};
use netbench_orchestrator::ec2_utils::{
    is_retryable_placement_group_error, is_retryable_security_group_error, InfraDetail,
    TeardownRetry, MAX_RETRY_COUNT,
};
use netbench_orchestrator::error::OrchError;
use netbench_orchestrator::protocol::PollResult;
use netbench_orchestrator::ssm_utils::netbench_driver::tcp_driver_crates;
use netbench_orchestrator::ssm_utils::{
    assemble_command, count_ready, poll_ssm_results, CommandStatus, SendCommandRetry, Step,
};
use netbench_orchestrator::state::State;

fn cdk() -> CdkConfig {
    CdkConfig {
        resources: CdkResources {
            output_netbench_runner_log_group: String::from("runner-logs"),
            output_netbench_runner_public_logs_bucket: String::from("public-bucket"),
            output_netbench_runner_private_src_bucket: String::from("private-bucket"),
            output_netbench_cloudfront_distribution: String::from("https://d123.example"),
            output_netbench_runner_instance_profile: String::from("runner-profile"),
            output_netbench_subnet_tag_key: String::from("RunnerSubnet"),
            output_netbench_subnet_tag_value: String::from("true"),
            output_netbench_infra_primary_prod_region: String::from("us-west-2"),
        },
    }
}

fn config() -> OrchestratorConfig {
    OrchestratorConfig {
        netbench_scenario_filename: String::from("request_response.json"),
        netbench_scenario_filepath: String::from("../target/s2n-netbench/request_response.json"),
        cdk_config: cdk(),
        client_config: build_host_configs(
            &vec![String::from("us-west-2a")],
            &Vec::new(),
            1,
            "us-west-2",
        )
        .unwrap(),
        server_config: build_host_configs(
            &vec![String::from("us-west-2b")],
            &Vec::new(),
            1,
            "us-west-2",
        )
        .unwrap(),
    }
}

#[test]
fn state_paths_and_names() {
    let state = State::new();
    assert_eq!(state.host_bin_path(), "/home/ec2-user/bin");
    assert_eq!(state.cargo_path(), "/home/ec2-user/bin/cargo");
    assert_eq!(state.security_group_name("2024-01-01-v1.0.0"), "netbench_2024-01-01-v1.0.0");
    assert_eq!(state.russula_port, 9000);
    assert_eq!(state.netbench_port, 4433);
    assert_eq!(state.poll_delay_russula_secs, 5);
    assert_eq!(state.poll_delay_ssm_secs, 10);
}

#[test]
fn config_urls_and_stems() {
    let config = config();
    assert_eq!(config.cf_url("run1"), "https://d123.example/run1");
    assert_eq!(config.s3_path("run1"), "s3://public-bucket/run1");
    assert_eq!(config.s3_private_path("run1"), "s3://private-bucket/run1");
    assert_eq!(config.netbench_scenario_file_stem(), "request_response");
    assert_eq!(config.netbench_scenario_filepath_stem(), "request_response");
    assert_eq!(config.cdk_config.netbench_runner_subnet_tag_key(), "tag:RunnerSubnet");
}

#[test]
fn host_config_validation() {
    let scenario = NetbenchScenario { clients: 2, servers: 1 };
    // The zone count must match the scenario.
    let r = build_host_configs(
        &vec![String::from("us-west-2a")],
        &Vec::new(),
        scenario.clients,
        "us-west-2",
    );
    assert!(matches!(r, Err(OrchError::Init { dbg: _ })));
    // A zone outside the region is rejected.
    let r = build_host_configs(
        &vec![String::from("us-west-2a"), String::from("eu-west-1a")],
        &Vec::new(),
        scenario.clients,
        "us-west-2",
    );
    assert!(r.is_err());
    // A placement overlay of the wrong length is rejected.
    let r = build_host_configs(
        &vec![String::from("us-west-2a"), String::from("us-west-2b")],
        &vec![PlacementGroupConfig::Cluster],
        scenario.clients,
        "us-west-2",
    );
    assert!(r.is_err());
    // A full overlay is carried over host by host.
    let r = build_host_configs(
        &vec![String::from("us-west-2a"), String::from("us-west-2b")],
        &vec![PlacementGroupConfig::Cluster, PlacementGroupConfig::Unspecified],
        scenario.clients,
        "us-west-2",
    )
    .unwrap();
    assert_eq!(r.len(), 2);
    assert_eq!(r[0].placement, PlacementGroupConfig::Cluster);
    assert_eq!(r[1].placement, PlacementGroupConfig::Unspecified);
    assert_eq!(r[0].az, "us-west-2a");
    assert_eq!(*r[0].instance_type(), "c5.4xlarge");
}

#[test]
fn subnet_resolution_and_validation() {
    let subnets = vec![
        SubnetRecord {
            az: String::from("us-west-2a"),
            subnet_id: String::from("subnet-a"),
            vpc_id: String::from("vpc-1"),
        },
        SubnetRecord {
            az: String::from("us-west-2b"),
            subnet_id: String::from("subnet-b"),
            vpc_id: String::from("vpc-1"),
        },
    ];
    let (map, vpc) = get_subnet_vpc_ids(&subnets, &config()).unwrap();
    assert_eq!(vpc.as_string(), "vpc-1");
    assert_eq!(map.len(), 2);
    assert_eq!(map[0].0.as_string(), "us-west-2a");
    assert_eq!(map[0].1.as_string(), "subnet-a");

    // No subnets at all.
    assert!(get_subnet_vpc_ids(&Vec::new(), &config()).is_err());

    // Subnets spanning two networks.
    let mixed = vec![
        SubnetRecord {
            az: String::from("us-west-2a"),
            subnet_id: String::from("subnet-a"),
            vpc_id: String::from("vpc-1"),
        },
        SubnetRecord {
            az: String::from("us-west-2b"),
            subnet_id: String::from("subnet-b"),
            vpc_id: String::from("vpc-2"),
        },
    ];
    assert!(get_subnet_vpc_ids(&mixed, &config()).is_err());

    // A requested zone with no subnet.
    let partial = vec![SubnetRecord {
        az: String::from("us-west-2a"),
        subnet_id: String::from("subnet-a"),
        vpc_id: String::from("vpc-1"),
    }];
    assert!(get_subnet_vpc_ids(&partial, &config()).is_err());
}

#[test]
fn security_group_rules() {
    let egress = egress_permissions();
    assert_eq!(egress.len(), 1);
    assert!(egress[0].within_group);
    assert_eq!(egress[0].ip_protocol, "-1");

    let ips = vec![String::from("203.0.113.5"), String::from("203.0.113.6")];
    let ingress = ingress_permissions(&ips, 9000);
    assert_eq!(ingress.len(), 4);
    assert!(ingress[0].within_group);
    assert_eq!(ingress[1].cidr_blocks, vec!["203.0.113.5/32", "203.0.113.6/32"]);
    assert_eq!(ingress[2].from_port, 22);
    assert_eq!(ingress[2].cidr_blocks, vec!["0.0.0.0/0"]);
    assert_eq!(ingress[3].from_port, 9000);
    assert_eq!(ingress[3].to_port, 9000);
    assert_eq!(ingress[3].ip_protocol, "tcp");
}

#[test]
fn placement_and_launch_assembly() {
    let az = Az(String::from("us-west-2a"));
    assert_eq!(placement_group_name("run1", &az), "cluster-run1-us-west-2a");

    let plan = LaunchPlan {
        ami_id: String::from("ami-123"),
        networking_detail: vec![(Az(String::from("us-west-2a")), SubnetId(String::from("subnet-a")))],
        vpc_id: VpcId(String::from("vpc-1")),
        instance_profile_arn: String::from("arn:profile"),
    };
    let hosts = build_host_configs(
        &vec![String::from("us-west-2a")],
        &vec![PlacementGroupConfig::Cluster],
        1,
        "us-west-2",
    )
    .unwrap();
    let groups = vec![(Az(String::from("us-west-2a")), String::from("cluster-run1-us-west-2a"))];
    let spec = launch_instances(
        &plan,
        &String::from("sg-1"),
        "run1",
        &hosts[0],
        &groups,
        EndpointType::Server,
    )
    .unwrap();
    assert_eq!(spec.name_tag, "server_run1");
    assert_eq!(spec.subnet_id, "subnet-a");
    assert_eq!(spec.volume_size_gib, 50);
    assert_eq!(spec.count, 1);
    assert!(spec.shutdown_terminates);
    assert_eq!(spec.placement.group_name.as_deref(), Some("cluster-run1-us-west-2a"));
    assert_eq!(spec.placement.availability_zone, "us-west-2a");

    // A zone with no subnet fails the assembly.
    let stray = build_host_configs(&vec![String::from("us-west-2c")], &Vec::new(), 1, "us-west-2")
        .unwrap();
    assert!(launch_instances(
        &plan,
        &String::from("sg-1"),
        "run1",
        &stray[0],
        &groups,
        EndpointType::Client,
    )
    .is_err());
}

#[test]
fn infra_detail_lists_hosts_in_order() {
    let server = InstanceDetail::new(
        EndpointType::Server,
        Az(String::from("us-west-2a")),
        Some(String::from("i-server")),
        HostIps::new(PrivIp(String::from("10.0.0.1")), PubIp(String::from("203.0.113.1"))),
    )
    .unwrap();
    let client = InstanceDetail::new(
        EndpointType::Client,
        Az(String::from("us-west-2b")),
        Some(String::from("i-client")),
        HostIps::new(PrivIp(String::from("10.0.0.2")), PubIp(String::from("203.0.113.2"))),
    )
    .unwrap();
    let infra = InfraDetail {
        security_group_id: String::from("sg-1"),
        clients: vec![client],
        servers: vec![server],
        placement_map: Vec::new(),
    };
    assert_eq!(infra.server_ids(), vec!["i-server"]);
    assert_eq!(infra.client_ids(), vec!["i-client"]);
    assert_eq!(infra.public_server_ips()[0].0, "203.0.113.1");
    assert_eq!(infra.private_server_ips()[0].0, "10.0.0.1");
    assert_eq!(infra.public_client_ips()[0].0, "203.0.113.2");

    // A host the launch report gave no identifier is rejected.
    let missing = InstanceDetail::new(
        EndpointType::Server,
        Az(String::from("us-west-2a")),
        None,
        HostIps::new(PrivIp(String::from("10.0.0.3")), PubIp(String::from("203.0.113.3"))),
    );
    assert!(matches!(missing, Err(OrchError::Ec2 { dbg: _ })));
}

#[test]
fn teardown_retry_codes_and_budget() {
    assert!(is_retryable_security_group_error(Some(&String::from("DependencyViolation"))));
    assert!(!is_retryable_security_group_error(Some(&String::from("AccessDenied"))));
    assert!(!is_retryable_security_group_error(None));
    assert!(is_retryable_placement_group_error(Some(&String::from(
        "InvalidPlacementGroup.InUse"
    ))));
    assert!(!is_retryable_placement_group_error(Some(&String::from("DependencyViolation"))));

    let mut retry = TeardownRetry::new();
    let mut spent = 0;
    while !retry.exhausted() {
        retry.record_in_use();
        spent += 1;
    }
    assert_eq!(spent, MAX_RETRY_COUNT);
}

#[test]
fn ssm_batch_carries_sentinels_around_payload() {
    let waits = vec![Step::UploadScenarioFile, Step::Configure];
    let curr = Step::BuildRussula;
    let payload = vec![String::from("echo build")];
    let batch = assemble_command(&waits, &curr, payload);
    assert_eq!(
        batch,
        vec![
            String::from(
                "cd /home/ec2-user; until [ -f fin_upload_scenario_file___ ]; do sleep 5; done"
            ),
            String::from("cd /home/ec2-user; until [ -f fin_configure___ ]; do sleep 5; done"),
            String::from("cd /home/ec2-user; touch start_build_russula___"),
            String::from("echo build"),
            String::from("cd /home/ec2-user"),
            String::from("mv start_build_russula___ fin_build_russula___"),
        ]
    );

    // A driver build carries its detail marker as well.
    let curr = Step::BuildDriver(String::from("drv"));
    let batch = assemble_command(&Vec::new(), &curr, Vec::new());
    assert_eq!(
        batch,
        vec![
            String::from("cd /home/ec2-user; touch start_build_driver___"),
            String::from("cd /home/ec2-user; touch start_build_driver_drv___"),
            String::from("cd /home/ec2-user"),
            String::from("mv start_build_driver___ fin_build_driver___"),
            String::from(
                "cd /home/ec2-user; mv start_build_driver_drv___ fin_build_driver_drv___"
            ),
        ]
    );
}

#[test]
fn ssm_step_names() {
    assert_eq!(Step::UploadScenarioFile.as_str(), "upload_scenario_file");
    assert_eq!(Step::Configure.as_str(), "configure");
    assert_eq!(Step::BuildDriver(String::from("x")).as_str(), "build_driver");
    assert_eq!(Step::BuildRussula.as_str(), "build_russula");
    assert_eq!(Step::RunRussula.as_str(), "run_russula");
    assert_eq!(Step::UploadNetbenchRawData.as_str(), "upload_netbench_raw_data");
    assert_eq!(Step::RunRussula.task_detail(), None);
    assert_eq!(
        Step::BuildDriver(String::from("x")).task_detail(),
        Some(&String::from("x"))
    );
}

#[test]
fn ssm_status_classification() {
    assert_eq!(poll_ssm_results(None, "c").unwrap(), PollResult::Ready);
    assert_eq!(
        poll_ssm_results(Some(CommandStatus::Success), "c").unwrap(),
        PollResult::Ready
    );
    for pending in [CommandStatus::Delayed, CommandStatus::InProgress, CommandStatus::Pending] {
        assert_eq!(poll_ssm_results(Some(pending), "c").unwrap(), PollResult::Pending);
    }
    for failed in [
        CommandStatus::Cancelled,
        CommandStatus::Cancelling,
        CommandStatus::Failed,
        CommandStatus::TimedOut,
        CommandStatus::Other,
    ] {
        assert!(matches!(
            poll_ssm_results(Some(failed), "c"),
            Err(OrchError::Ssm { dbg: _ })
        ));
    }

    let polls = vec![PollResult::Ready, PollResult::Pending, PollResult::Ready];
    assert_eq!(count_ready(&polls), 2);
    assert_eq!(count_ready(&Vec::new()), 0);

    let mut retry = SendCommandRetry::new();
    let mut spent = 0;
    while !retry.exhausted() {
        retry.record_failure();
        spent += 1;
    }
    assert_eq!(spent, 5);
}

#[test]
fn driver_descriptors_and_build_commands() {
    let state = State::new();
    let driver = tcp_driver_crates::tcp_server_driver();
    assert_eq!(*driver.driver_name(), "s2n-netbench-driver-server-tcp");
    assert_eq!(driver.trim_driver_name(), "server-tcp");
    let cmds = driver.ssm_build_cmd(&state);
    assert_eq!(
        cmds,
        vec![
            String::from(
                "runuser -u ec2-user -- env CARGO_REGISTRIES_CRATES_IO_PROTOCOL=sparse /home/ec2-user/bin/cargo install s2n-netbench-collector"
            ),
            String::from(
                "ln -s /home/ec2-user/.cargo/bin/s2n-netbench-collector /home/ec2-user/bin/s2n-netbench-collector"
            ),
            String::from(
                "runuser -u ec2-user -- env CARGO_REGISTRIES_CRATES_IO_PROTOCOL=sparse /home/ec2-user/bin/cargo install s2n-netbench-driver-tcp"
            ),
            String::from(
                "ln -s /home/ec2-user/.cargo/bin/s2n-netbench-driver-server-tcp /home/ec2-user/bin/s2n-netbench-driver-server-tcp"
            ),
        ]
    );
}

#[test]
fn shared_command_payloads() {
    let state = State::new();
    let deps = netbench_orchestrator::ssm_utils::common::install_deps_cmd(&state);
    assert_eq!(deps.len(), 13);
    assert_eq!(deps[0], "shutdown -P +120");
    assert_eq!(deps[1], "mkdir -p /home/ec2-user/bin");
    assert_eq!(deps[12], "ln -s /home/ec2-user/.cargo/bin/cargo /home/ec2-user/bin/cargo");

    let build = netbench_orchestrator::ssm_utils::common::build_russula_cmd(&state);
    assert_eq!(
        build,
        vec![
            String::from(
                "git clone --branch ak-main https://github.com/toidiu/netbench_orchestrator.git"
            ),
            String::from("cd netbench_orchestrator"),
            String::from(
                "env CARGO_REGISTRIES_CRATES_IO_PROTOCOL=sparse /home/ec2-user/bin/cargo build --release"
            ),
            String::from(
                "find target/release -maxdepth 1 -type f -perm /a+x -exec cp {} /home/ec2-user/bin \\;"
            ),
        ]
    );
}

#[test]
fn run_and_upload_command_payloads() {
    let state = State::new();
    let config = config();
    let download = netbench_orchestrator::ssm_utils::common::download_netbench_scenario_cmd(
        &config, "run1", &state,
    );
    assert_eq!(
        download,
        vec![String::from(
            "aws s3 cp s3://public-bucket/run1/request_response.json /home/ec2-user/bin/request_response.json"
        )]
    );

    let driver = tcp_driver_crates::tcp_server_driver();
    let upload = netbench_orchestrator::ssm_utils::common::upload_netbench_data_to_s3_cmd(
        &config, "run1", &driver,
    );
    assert_eq!(
        upload,
        vec![
            String::from("cd netbench_orchestrator"),
            String::from(
                "aws s3 cp *server-tcp.json s3://public-bucket/run1/results/request_response/server-tcp/"
            ),
        ]
    );

    let run = netbench_orchestrator::ssm_utils::common::run_server_worker_cmd(
        &config, &driver, &state,
    );
    assert_eq!(
        run[1],
        "env RUST_LOG=debug ./target/release/russula_cli netbench-server-worker --russula-port 9000 \
         --driver s2n-netbench-driver-server-tcp --scenario request_response.json --netbench-port 4433"
    );

    let client_driver = tcp_driver_crates::tcp_client_driver();
    let ips = vec![String::from("10.0.0.1"), String::from("10.0.0.2")];
    let run = netbench_orchestrator::ssm_utils::common::run_client_worker_cmd(
        &config,
        &client_driver,
        &ips,
        &state,
    );
    assert_eq!(
        run[1],
        "env RUST_LOG=debug ./target/release/russula_cli netbench-client-worker --russula-port 9000 \
         --driver s2n-netbench-driver-client-tcp --scenario request_response.json \
         --netbench-servers 10.0.0.1:4433 10.0.0.2:4433"
    );
}

#[test]
fn dc_quic_driver_build_commands() {
    let state = State::new();
    let config = config();
    let driver = netbench_orchestrator::ssm_utils::netbench_driver::s2n_quic_dc_driver::dc_quic_server_driver(
        "run1", &config, &state,
    );
    assert_eq!(*driver.driver_name(), "s2n-netbench-driver-server-s2n-quic-dc");
    match &driver {
        netbench_orchestrator::ssm_utils::netbench_driver::NetbenchDriverType::Local(s) => {
            assert_eq!(s.proj_name, "SaltyLib-Rust");
            assert_eq!(
                s.ssm_build_cmd[0],
                "aws s3 sync s3://private-bucket/run1/SaltyLib-Rust/ /home/ec2-user/SaltyLib-Rust"
            );
            assert_eq!(s.ssm_build_cmd[1], "cd SaltyLib-Rust");
        }
        _ => panic!("the datacenter QUIC driver builds from a local source"),
    }
}

#[test]
fn teardown_succeeds_once_dependency_resolves() {
    // The first delete attempt sees the security group still in use; the
    // dependency resolves before the budget runs out, and teardown
    // completes.
    let outcomes = vec![
        Some(String::from("DependencyViolation")),
        Some(String::from("DependencyViolation")),
        None,
    ];
    let mut retry = TeardownRetry::new();
    let mut deleted = false;
    for outcome in &outcomes {
        match outcome {
            None => {
                deleted = true;
                break;
            }
            Some(code) => {
                assert!(is_retryable_security_group_error(Some(code)));
                assert!(!retry.exhausted());
                retry.record_in_use();
            }
        }
    }
    assert!(deleted);
}
