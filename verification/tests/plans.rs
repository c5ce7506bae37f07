use evectl::config::Config;
use evectl::container::{ContainerManager, DockerManager, PodmanManager};
use evectl::context::Context;
use evectl::lifecycle::{
    build_evebox_command, build_suricata_command, evebox_start_plan, foreground_cleanup_plan,
    ja4_set_args, remove_plan, set_flags, shutdown_plan, stop_ok, stop_plan, suricata_dump_plan,
    suricata_start_plan, update_pull_plan, update_ok, BuildError, EngineOp,
};

fn docker() -> ContainerManager {
    ContainerManager::Docker(DockerManager::new())
}

fn podman() -> ContainerManager {
    ContainerManager::Podman(PodmanManager::new())
}

fn context_with_interface() -> Context {
    let mut config = Config::default();
    config.suricata.interfaces = vec!["eth0".to_string()];
    Context::new(config, docker(), false)
}

fn strs(v: &[&str]) -> Vec<String> {
    v.iter().map(|s| s.to_string()).collect()
}

#[test]
fn stop_with_no_containers_issues_nothing() {
    let plan = stop_plan(false, false);
    assert_eq!(plan.len(), 0);
    assert!(stop_ok(false, false, false, false));
}

#[test]
fn stop_acts_on_viewer_first() {
    let plan = stop_plan(true, true);
    assert_eq!(plan.len(), 4);
    match &plan[0] {
        EngineOp::Stop { name, signal } => {
            assert_eq!(name, "simple-ids-evebox");
            assert_eq!(signal.as_deref(), Some("SIGINT"));
        },
        other => panic!("unexpected: {:?}", plan_kind(other)),
    }
    match &plan[1] {
        EngineOp::QuietRm { name } => assert_eq!(name, "simple-ids-evebox"),
        other => panic!("unexpected: {:?}", plan_kind(other)),
    }
    match &plan[2] {
        EngineOp::Stop { name, signal } => {
            assert_eq!(name, "simple-ids-suricata");
            assert!(signal.is_none());
        },
        other => panic!("unexpected: {:?}", plan_kind(other)),
    }
    match &plan[3] {
        EngineOp::QuietRm { name } => assert_eq!(name, "simple-ids-suricata"),
        other => panic!("unexpected: {:?}", plan_kind(other)),
    }
}

fn plan_kind(op: &EngineOp) -> &'static str {
    match op {
        EngineOp::QuietRm { .. } => "quiet-rm",
        EngineOp::Stop { .. } => "stop",
        EngineOp::Run { .. } => "run",
        EngineOp::Exec { .. } => "exec",
        EngineOp::Pull { .. } => "pull",
        EngineOp::VolumeRm { .. } => "volume-rm",
        EngineOp::ImageRm { .. } => "image-rm",
    }
}

#[test]
fn stop_outcome_requires_issued_stops_to_succeed() {
    assert!(stop_ok(true, true, true, true));
    assert!(!stop_ok(true, false, true, true));
    assert!(stop_ok(false, false, true, true));
}

#[test]
fn op_args_follow_dialect() {
    let stop_op = EngineOp::Stop {
        name: "simple-ids-evebox".to_string(),
        signal: Some("SIGINT".to_string()),
    };
    assert_eq!(
        docker().op_args(&stop_op),
        strs(&["stop", "--signal", "SIGINT", "simple-ids-evebox"])
    );
    assert_eq!(podman().op_args(&stop_op), strs(&["stop", "simple-ids-evebox"]));
    let rm_op = EngineOp::QuietRm { name: "unit".to_string() };
    assert_eq!(podman().op_args(&rm_op), strs(&["rm", "--force", "unit"]));
    assert_eq!(
        docker().op_args(&EngineOp::Pull { image: "img".to_string() }),
        strs(&["pull", "img"])
    );
    assert_eq!(
        docker().op_args(&EngineOp::VolumeRm { volume: "vol".to_string() }),
        strs(&["volume", "rm", "vol"])
    );
    assert_eq!(
        docker().op_args(&EngineOp::ImageRm { image: "img".to_string() }),
        strs(&["image", "rmi", "img"])
    );
}

#[test]
fn suricata_command_full_shape() {
    let mut config = Config::default();
    config.suricata.interfaces = vec!["eth0".to_string()];
    config.suricata.bpf = Some("port 53".to_string());
    let ctx = Context::new(config, docker(), false);
    let args =
        build_suricata_command(&ctx, true, true, Some("/work/af-packet.yaml")).unwrap();
    assert_eq!(
        args,
        strs(&[
            "run",
            "--name",
            "simple-ids-suricata",
            "--net=host",
            "--cap-add=sys_nice",
            "--cap-add=net_admin",
            "--cap-add=net_raw",
            "-d",
            "--volume=/work/af-packet.yaml:/config/af-packet.yaml",
            "--volume=simple-ids-suricata-log:/var/log/suricata",
            "--volume=simple-ids-suricata-lib:/var/lib/suricata",
            "--volume=simple-ids-suricata-run:/var/run/suricata",
            "docker.io/jasonish/suricata:latest",
            "-v",
            "-i",
            "eth0",
            "--include",
            "/config/af-packet.yaml",
            "port 53",
        ])
    );
}

#[test]
fn suricata_command_needs_an_interface() {
    let ctx = Context::new(Config::default(), docker(), false);
    assert_eq!(
        build_suricata_command(&ctx, true, true, None).unwrap_err(),
        BuildError::NoInterface
    );
}

#[test]
fn suricata_command_without_fixups() {
    let mut config = Config::default();
    config.suricata.interfaces = vec!["eth0".to_string()];
    let ctx = Context::new(config, docker(), true);
    let args = build_suricata_command(&ctx, false, false, None).unwrap();
    assert_eq!(
        args,
        strs(&[
            "run",
            "--name",
            "simple-ids-suricata",
            "--net=host",
            "--cap-add=sys_nice",
            "--cap-add=net_admin",
            "--cap-add=net_raw",
            "--volume=simple-ids-suricata-log:/var/log/suricata",
            "--volume=simple-ids-suricata-lib:/var/lib/suricata",
            "--volume=simple-ids-suricata-run:/var/run/suricata",
            "docker.io/jasonish/suricata:latest",
            "-v",
            "-i",
            "eth0",
        ])
    );
}

#[test]
fn evebox_command_binds_loopback_by_default() {
    let ctx = Context::new(Config::default(), docker(), false);
    let args = build_evebox_command(&ctx, true);
    assert_eq!(
        args,
        strs(&[
            "run",
            "--name",
            "simple-ids-evebox",
            "--publish=127.0.0.1:5636:5636",
            "-d",
            "--volume=simple-ids-suricata-log:/var/log/suricata",
            "--volume=simple-ids-evebox-lib:/var/lib/evebox",
            "docker.io/jasonish/evebox:master",
            "evebox",
            "server",
            "--no-tls",
            "--no-auth",
            "--host=[::0]",
            "--sqlite",
            "/var/log/suricata/eve.json",
        ])
    );
}

#[test]
fn evebox_command_with_remote_access() {
    let mut config = Config::default();
    evectl::config::enable_remote_access(&mut config.evebox);
    let ctx = Context::new(config, docker(), false);
    let args = build_evebox_command(&ctx, false);
    assert_eq!(
        args,
        strs(&[
            "run",
            "--name",
            "simple-ids-evebox",
            "--publish=5636:5636",
            "--volume=simple-ids-suricata-log:/var/log/suricata",
            "--volume=simple-ids-evebox-lib:/var/lib/evebox",
            "docker.io/jasonish/evebox:master",
            "evebox",
            "server",
            "--host=[::0]",
            "--sqlite",
            "/var/log/suricata/eve.json",
        ])
    );
}

#[test]
fn ja4_settings_read_off_dump() {
    let lines = strs(&[
        "outputs.1.eve-log.types.3.tls = something",
        "unrelated line",
        "outputs.1.eve-log.types.9.quic = on",
    ]);
    let settings = ja4_set_args(&lines);
    assert_eq!(
        settings,
        strs(&[
            "app-layer.protocols.tls.ja4-fingerprints=true",
            "app-layer.protocols.quic.ja4-fingerprints=true",
            "outputs.1.eve-log.types.3.tls.ja4=true",
            "outputs.1.eve-log.types.9.quic.ja4=true",
        ])
    );
    assert_eq!(
        set_flags(&strs(&["a=1", "b=2"])),
        strs(&["--set", "a=1", "--set", "b=2"])
    );
}

#[test]
fn dump_plan_clears_then_runs() {
    let ctx = context_with_interface();
    let plan = suricata_dump_plan(&ctx).unwrap();
    assert_eq!(plan.len(), 2);
    assert!(matches!(&plan[0], EngineOp::QuietRm { name } if name == "simple-ids-suricata"));
    match &plan[1] {
        EngineOp::Run { name, args } => {
            assert_eq!(name, "simple-ids-suricata");
            assert_eq!(args.last().unwrap(), "--dump-config");
            assert!(!args.contains(&"-d".to_string()));
        },
        other => panic!("unexpected: {:?}", plan_kind(other)),
    }
}

#[test]
fn start_plan_runs_detached_then_rotates() {
    let ctx = context_with_interface();
    let lines = strs(&["outputs.0.eve-log.types.0.tls "]);
    let plan = suricata_start_plan(&ctx, None, &lines).unwrap();
    assert_eq!(plan.len(), 3);
    assert!(matches!(&plan[0], EngineOp::QuietRm { name } if name == "simple-ids-suricata"));
    match &plan[1] {
        EngineOp::Run { name, args } => {
            assert_eq!(name, "simple-ids-suricata");
            assert!(args.contains(&"-d".to_string()));
            assert!(args.contains(&"--set".to_string()));
            assert!(args.contains(&"outputs.0.eve-log.types.0.tls.ja4=true".to_string()));
        },
        other => panic!("unexpected: {:?}", plan_kind(other)),
    }
    match &plan[2] {
        EngineOp::Exec { args } => {
            assert_eq!(args[0], "exec");
            assert_eq!(args[1], "-d");
            assert_eq!(args[2], "simple-ids-suricata");
        },
        other => panic!("unexpected: {:?}", plan_kind(other)),
    }
}

#[test]
fn evebox_plan_clears_then_runs() {
    let ctx = context_with_interface();
    let plan = evebox_start_plan(&ctx);
    assert_eq!(plan.len(), 2);
    assert!(matches!(&plan[0], EngineOp::QuietRm { name } if name == "simple-ids-evebox"));
    assert!(matches!(&plan[1], EngineOp::Run { name, .. } if name == "simple-ids-evebox"));
}

#[test]
fn foreground_plans() {
    let cleanup = foreground_cleanup_plan();
    assert_eq!(cleanup.len(), 2);
    assert!(matches!(&cleanup[0], EngineOp::QuietRm { name } if name == "simple-ids-suricata"));
    assert!(matches!(&cleanup[1], EngineOp::QuietRm { name } if name == "simple-ids-evebox"));
    let shutdown = shutdown_plan();
    assert_eq!(shutdown.len(), 2);
    assert!(matches!(
        &shutdown[0],
        EngineOp::Stop { name, signal } if name == "simple-ids-suricata" && signal.is_none()
    ));
    assert!(matches!(
        &shutdown[1],
        EngineOp::Stop { name, signal } if name == "simple-ids-evebox"
            && signal.as_deref() == Some("SIGINT")
    ));
}

#[test]
fn update_pulls_both_images() {
    let ctx = context_with_interface();
    let plan = update_pull_plan(&ctx);
    assert_eq!(plan.len(), 2);
    assert!(matches!(
        &plan[0],
        EngineOp::Pull { image } if image == "docker.io/jasonish/suricata:latest"
    ));
    assert!(matches!(
        &plan[1],
        EngineOp::Pull { image } if image == "docker.io/jasonish/evebox:master"
    ));
    assert!(update_ok(true, true, true));
    assert!(!update_ok(true, false, true));
}

#[test]
fn remove_tears_everything_down() {
    let ctx = context_with_interface();
    let plan = remove_plan(&ctx);
    assert_eq!(plan.len(), 10);
    assert!(matches!(&plan[0], EngineOp::Stop { name, signal } if name == "simple-ids-suricata" && signal.is_none()));
    assert!(matches!(&plan[1], EngineOp::Stop { name, signal } if name == "simple-ids-evebox" && signal.is_none()));
    assert!(matches!(&plan[2], EngineOp::QuietRm { name } if name == "simple-ids-suricata"));
    assert!(matches!(&plan[3], EngineOp::QuietRm { name } if name == "simple-ids-evebox"));
    assert!(matches!(&plan[4], EngineOp::VolumeRm { volume } if volume == "simple-ids-evebox-lib"));
    assert!(matches!(&plan[5], EngineOp::VolumeRm { volume } if volume == "simple-ids-suricata-lib"));
    assert!(matches!(&plan[6], EngineOp::VolumeRm { volume } if volume == "simple-ids-suricata-log"));
    assert!(matches!(&plan[7], EngineOp::VolumeRm { volume } if volume == "simple-ids-suricata-run"));
    assert!(matches!(&plan[8], EngineOp::ImageRm { .. }));
    assert!(matches!(&plan[9], EngineOp::ImageRm { .. }));
}
