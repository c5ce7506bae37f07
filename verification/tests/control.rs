use evectl::config::{disable_remote_access, enable_remote_access, Config, EveBoxConfig};
use evectl::container::{CmdOutput, ContainerManager, DockerManager, EngineError, PodmanManager};
use evectl::context::{is_interactive, Command, Context};
use evectl::lifecycle::command_status;
use evectl::logs::{logs_args, stream_label, wants_service};
use evectl::supervisor::{labeled_line, logrotate_poll, RotatePoll, ShutdownLatch};
use evectl::system::{guess_evebox_url, must_refuse_unprivileged, parse_interface_fields, pick_interface_addr, Interface};

fn iface(name: &str, status: &str, addr4: &[&str]) -> Interface {
    Interface {
        name: name.to_string(),
        status: status.to_string(),
        addr4: addr4.iter().map(|s| s.to_string()).collect(),
        addr6: Vec::new(),
    }
}

#[test]
fn one_interrupt_one_shutdown() {
    let mut latch = ShutdownLatch::new();
    assert!(latch.request_shutdown());
    assert!(!latch.request_shutdown());
    assert!(!latch.request_shutdown());
}

#[test]
fn lines_only_get_a_label() {
    assert_eq!(labeled_line("suricata", "Info -- started"), "suricata: Info -- started");
    assert_eq!(stream_label("simple-ids-evebox", "stderr"), "simple-ids-evebox | stderr");
}

#[test]
fn rotation_poll_decisions() {
    assert_eq!(logrotate_poll(true, 0), RotatePoll::Start);
    assert_eq!(logrotate_poll(true, 10), RotatePoll::Start);
    assert_eq!(logrotate_poll(false, 2), RotatePoll::Wait);
    assert_eq!(logrotate_poll(false, 3), RotatePoll::Wait);
    assert_eq!(logrotate_poll(false, 4), RotatePoll::GiveUp);
}

#[test]
fn log_queries() {
    assert_eq!(
        logs_args(true, "simple-ids-suricata"),
        vec![
            "logs".to_string(),
            "--timestamps".to_string(),
            "--follow".to_string(),
            "simple-ids-suricata".to_string(),
        ]
    );
    assert_eq!(
        logs_args(false, "unit"),
        vec!["logs".to_string(), "--timestamps".to_string(), "unit".to_string()]
    );
    assert!(wants_service(&Vec::new(), "suricata"));
    assert!(wants_service(&vec!["suricata".to_string()], "suricata"));
    assert!(!wants_service(&vec!["evebox".to_string()], "suricata"));
}

#[test]
fn interactive_verbs() {
    assert!(is_interactive(&None));
    assert!(is_interactive(&Some(Command::ConfigureMenu)));
    assert!(is_interactive(&Some(Command::Menu { menu: "configure.advanced".to_string() })));
    assert!(!is_interactive(&Some(Command::Start { debug: false })));
    assert!(!is_interactive(&Some(Command::Stop)));
    assert!(!is_interactive(&Some(Command::Remove)));
}

#[test]
fn remote_access_forces_protection() {
    let mut config = EveBoxConfig::default();
    assert!(config.no_tls && config.no_auth && !config.allow_remote);
    enable_remote_access(&mut config);
    assert!(config.allow_remote);
    assert!(!config.no_tls);
    assert!(!config.no_auth);
    disable_remote_access(&mut config);
    assert!(!config.allow_remote);
    assert!(!config.no_tls);
    assert!(!config.no_auth);
}

#[test]
fn url_without_remote_access_is_loopback() {
    assert_eq!(guess_evebox_url(true, false, None), "http://127.0.0.1:5636");
    assert_eq!(guess_evebox_url(false, false, None), "https://127.0.0.1:5636");
}

#[test]
fn url_prefers_interface_that_is_up() {
    let interfaces = vec![
        iface("lo", "UNKNOWN", &["127.0.0.1"]),
        iface("eth0", "UP", &["192.168.1.5"]),
    ];
    assert_eq!(guess_evebox_url(false, true, Some(&interfaces)), "https://192.168.1.5:5636");
}

#[test]
fn url_falls_back_to_loopback_interface() {
    let interfaces = vec![iface("lo", "UNKNOWN", &["127.0.0.1"]), iface("eth0", "DOWN", &[])];
    assert_eq!(guess_evebox_url(true, true, Some(&interfaces)), "http://127.0.0.1:5636");
    assert_eq!(guess_evebox_url(true, true, None), "http://127.0.0.1:5636");
}

#[test]
fn address_pick_replaces_loopback() {
    let interfaces = vec![
        iface("lo", "UNKNOWN", &["127.0.0.1"]),
        iface("down0", "DOWN", &["10.0.0.9"]),
        iface("eth0", "UP", &["192.168.1.5", "192.168.1.6"]),
    ];
    assert_eq!(pick_interface_addr(&interfaces), Some("192.168.1.5".to_string()));
    assert_eq!(pick_interface_addr(&Vec::new()), None);
}

#[test]
fn privilege_gate() {
    let podman = ContainerManager::Podman(PodmanManager::new());
    let docker = ContainerManager::Docker(DockerManager::new());
    assert!(must_refuse_unprivileged(&podman, 1000, false));
    assert!(!must_refuse_unprivileged(&podman, 0, false));
    assert!(!must_refuse_unprivileged(&podman, 1000, true));
    assert!(!must_refuse_unprivileged(&docker, 1000, false));
}

#[test]
fn status_exit_code() {
    let ok = Ok(evectl::container::InspectState { status: "running".to_string(), running: true });
    let ok2 = Ok(evectl::container::InspectState { status: "exited".to_string(), running: false });
    let err: Result<evectl::container::InspectState, EngineError> = Err(EngineError::Parse);
    assert_eq!(command_status(&ok, &ok2), 0);
    assert_eq!(command_status(&ok, &err), 1);
    assert_eq!(command_status(&err, &err), 1);
}

#[test]
fn context_resolves_images() {
    let mut config = Config::default();
    config.evebox.image = Some("custom/evebox:1".to_string());
    let ctx = Context::new(config, ContainerManager::Docker(DockerManager::new()), false);
    assert_eq!(ctx.suricata_image, "docker.io/jasonish/suricata:latest");
    assert_eq!(ctx.evebox_image, "custom/evebox:1");
    assert_eq!(
        ctx.image_name(evectl::container::Container::EveBox),
        "custom/evebox:1"
    );
    let _ = CmdOutput { success: true, stdout: Vec::new(), stderr: Vec::new() };
}

#[test]
fn interface_fields_are_parsed() {
    let fields: Vec<String> = ["eth0", "UP", "192.168.1.5/24", "fe80::1/64"]
        .iter()
        .map(|s| s.to_string())
        .collect();
    let interface = parse_interface_fields(&fields).unwrap();
    assert_eq!(interface.name, "eth0");
    assert_eq!(interface.status, "UP");
    assert_eq!(interface.addr4, vec!["192.168.1.5".to_string()]);
    assert_eq!(interface.addr6, vec!["fe80::1".to_string()]);
}

#[test]
fn short_interface_lines_are_skipped() {
    assert!(parse_interface_fields(&vec!["lonely".to_string()]).is_none());
    assert!(parse_interface_fields(&Vec::new()).is_none());
    let fields: Vec<String> = ["lo", "UNKNOWN"].iter().map(|s| s.to_string()).collect();
    let interface = parse_interface_fields(&fields).unwrap();
    assert!(interface.addr4.is_empty());
    assert!(interface.addr6.is_empty());
}

#[test]
fn addresses_keep_their_order_without_prefix_lengths() {
    let fields: Vec<String> = ["br0", "UP", "10.0.0.1/8", "10.0.0.2", "::1"]
        .iter()
        .map(|s| s.to_string())
        .collect();
    let interface = parse_interface_fields(&fields).unwrap();
    assert_eq!(interface.addr4, vec!["10.0.0.1".to_string(), "10.0.0.2".to_string()]);
    assert_eq!(interface.addr6, vec!["::1".to_string()]);
}
