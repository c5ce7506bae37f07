use evectl::config::Config;
use evectl::container::{
    image_name, CmdOutput, Container, ContainerManager, DockerManager, EngineError, PodmanManager,
};

fn docker() -> ContainerManager {
    ContainerManager::Docker(DockerManager::new())
}

fn podman() -> ContainerManager {
    ContainerManager::Podman(PodmanManager::new())
}

fn output(success: bool, stdout: &[u8], stderr: &[u8]) -> CmdOutput {
    CmdOutput { success, stdout: stdout.to_vec(), stderr: stderr.to_vec() }
}

#[test]
fn bins_and_kind() {
    assert_eq!(docker().bin(), "docker");
    assert_eq!(podman().bin(), "podman");
    assert!(docker().is_docker());
    assert!(!docker().is_podman());
    assert!(podman().is_podman());
    assert_eq!(docker().name(), "Docker");
    assert_eq!(podman().name(), "Podman");
    assert!(docker().supports_custom_stop_signal());
    assert!(!podman().supports_custom_stop_signal());
    assert!(podman().requires_privilege());
    assert!(!docker().requires_privilege());
}

#[test]
fn quiet_rm_dialects() {
    assert_eq!(docker().quiet_rm("unit"), vec!["rm".to_string(), "unit".to_string()]);
    assert_eq!(
        podman().quiet_rm("unit"),
        vec!["rm".to_string(), "--force".to_string(), "unit".to_string()]
    );
}

#[test]
fn stop_signal_dialects() {
    assert_eq!(
        docker().stop("unit", None),
        vec!["stop".to_string(), "--signal".to_string(), "SIGTERM".to_string(), "unit".to_string()]
    );
    assert_eq!(
        docker().stop("unit", Some("SIGINT")),
        vec!["stop".to_string(), "--signal".to_string(), "SIGINT".to_string(), "unit".to_string()]
    );
    assert_eq!(podman().stop("unit", Some("SIGINT")), vec!["stop".to_string(), "unit".to_string()]);
}

#[test]
fn stop_result_reports_stderr() {
    assert!(docker().stop_result(&output(true, b"", b"")).is_ok());
    match docker().stop_result(&output(false, b"", b"boom")) {
        Err(EngineError::Failed { stderr }) => assert_eq!(stderr, b"boom".to_vec()),
        other => panic!("unexpected: {:?}", other),
    }
}

#[test]
fn version_from_client_section() {
    let out = output(true, br#"{"Client":{"Version":"4.9.3"}}"#, b"");
    assert_eq!(docker().version_result(&out).unwrap(), "4.9.3");
}

#[test]
fn version_falls_back_to_top_level() {
    let out = output(true, br#"{"Version":"1.2.3"}"#, b"");
    assert_eq!(podman().version_result(&out).unwrap(), "1.2.3");
}

#[test]
fn version_parse_failure() {
    let out = output(true, b"not json", b"");
    assert!(matches!(docker().version_result(&out), Err(EngineError::Parse)));
}

#[test]
fn version_command_failure() {
    let out = output(false, b"", b"no engine");
    match docker().version_result(&out) {
        Err(EngineError::Failed { stderr }) => assert_eq!(stderr, b"no engine".to_vec()),
        other => panic!("unexpected: {:?}", other),
    }
}

#[test]
fn state_of_running_container() {
    let body = br#"[{"Id":"abc","State":{"Status":"running","Running":true}}]"#;
    let state = docker().state(&output(true, body, b"")).unwrap();
    assert_eq!(state.status, "running");
    assert!(state.running);
    assert!(docker().is_running(&output(true, body, b"")));
    assert!(docker().has_image(&output(true, body, b"")));
}

#[test]
fn state_of_exited_container() {
    let body = br#"[{"Id":"abc","State":{"Status":"exited","Running":false}}]"#;
    let state = docker().state(&output(true, body, b"")).unwrap();
    assert_eq!(state.status, "exited");
    assert!(!state.running);
    assert!(!docker().is_running(&output(true, body, b"")));
}

#[test]
fn inspecting_an_image_is_not_a_container() {
    let body = br#"[{"Id":"abc","RepoTags":["x:latest"]}]"#;
    assert!(matches!(
        docker().state(&output(true, body, b"")),
        Err(EngineError::NotAContainer)
    ));
    assert!(docker().has_image(&output(true, body, b"")));
    assert!(!docker().is_running(&output(true, body, b"")));
}

#[test]
fn empty_inspect_array_is_unexpected() {
    assert!(matches!(
        docker().inspect_first(&output(true, b"[]", b"")),
        Err(EngineError::EmptyInspect)
    ));
}

#[test]
fn failed_inspect_without_stderr() {
    assert!(matches!(
        docker().inspect_first(&output(false, b"", b"")),
        Err(EngineError::EmptyOutput)
    ));
}

#[test]
fn container_exists_follows_exit_status() {
    assert!(docker().container_exists(&output(true, b"[]", b"")));
    assert!(!docker().container_exists(&output(false, b"", b"err")));
}

#[test]
fn pull_args_and_result() {
    assert_eq!(docker().pull("img:latest"), vec!["pull".to_string(), "img:latest".to_string()]);
    assert!(docker().pull_result(true).is_ok());
    assert!(matches!(docker().pull_result(false), Err(EngineError::PullFailed)));
}

#[test]
fn image_names_default_and_override() {
    let mut config = Config::default();
    assert_eq!(image_name(&config, Container::Suricata), "docker.io/jasonish/suricata:latest");
    assert_eq!(image_name(&config, Container::EveBox), "docker.io/jasonish/evebox:master");
    config.suricata.image = Some("custom/suricata:7".to_string());
    assert_eq!(image_name(&config, Container::Suricata), "custom/suricata:7");
}

#[test]
fn role_volumes() {
    assert_eq!(
        Container::Suricata.volumes(),
        vec!["simple-ids-suricata-log:/var/log/suricata".to_string()]
    );
    assert_eq!(
        Container::EveBox.volumes(),
        vec![
            "simple-ids-suricata-log:/var/log/suricata".to_string(),
            "simple-ids-evebox-lib:/var/lib/evebox".to_string(),
        ]
    );
}

#[test]
fn direct_docker_queries() {
    let body = br#"[{"State":{"Status":"running","Running":true}}]"#;
    assert!(evectl::docker::running(body, b""));
    assert!(!evectl::docker::running(body, b"some warning"));
    assert!(!evectl::docker::running(b"[]", b""));
    assert!(evectl::docker::image_exists(true));
    assert!(!evectl::docker::image_exists(false));
    assert_eq!(
        evectl::docker::version(br#"{"Server":{"Version":"24.0.7"}}"#, &Vec::new()).unwrap(),
        "24.0.7"
    );
    assert_eq!(
        evectl::docker::version_args(),
        vec!["version".to_string(), "--format".to_string(), "{{json .}}".to_string()]
    );
}

#[test]
fn direct_podman_queries() {
    let body = br#"[{"State":{"Status":"running","Running":true}}]"#;
    assert!(evectl::podman::running(body, b""));
    assert!(!evectl::podman::running(b"{}", b""));
    assert!(evectl::podman::image_exists(true));
    let out = CmdOutput {
        success: true,
        stdout: br#"{"Client":{"Version":"5.0.2"}}"#.to_vec(),
        stderr: Vec::new(),
    };
    assert_eq!(evectl::podman::version(&out).unwrap(), "5.0.2");
    assert_eq!(
        evectl::podman::inspect_args("unit"),
        vec!["inspect".to_string(), "unit".to_string()]
    );
}
