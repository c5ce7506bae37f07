use evectl::cmd::{ArgBuilder, RunCommandBuilder};
use evectl::container::{ContainerManager, DockerManager};

fn docker() -> ContainerManager {
    ContainerManager::Docker(DockerManager::new())
}

#[test]
fn build_is_deterministic() {
    let mut builder = RunCommandBuilder::new(docker(), "docker.io/jasonish/suricata:latest");
    builder.rm();
    builder.it();
    builder.name("simple-ids-suricata");
    builder.volumes(&["a:/var/a", "b:/var/b"]);
    builder.args(&["-v", "-i", "eth0"]);
    let first = builder.build();
    let second = builder.build();
    assert_eq!(first, second);
}

#[test]
fn build_fixed_order() {
    let mut builder = RunCommandBuilder::new(docker(), "img:latest");
    builder.it();
    builder.rm();
    builder.name("unit");
    builder.volumes(&["vol:/data"]);
    builder.args(&["echo", "hi"]);
    let args = builder.build();
    assert_eq!(
        args,
        vec![
            "run".to_string(),
            "-it".to_string(),
            "--rm".to_string(),
            "--name=unit".to_string(),
            "--volume=vol:/data".to_string(),
            "img:latest".to_string(),
            "echo".to_string(),
            "hi".to_string(),
        ]
    );
}

#[test]
fn build_minimal() {
    let builder = RunCommandBuilder::new(docker(), "img");
    assert_eq!(builder.build(), vec!["run".to_string(), "img".to_string()]);
}

#[test]
fn arg_builder_accumulates() {
    let mut args = ArgBuilder::from(&["run", "--name"]);
    args.add("unit");
    args.extend(&["-v", "-i"]);
    assert_eq!(
        args.args,
        vec![
            "run".to_string(),
            "--name".to_string(),
            "unit".to_string(),
            "-v".to_string(),
            "-i".to_string(),
        ]
    );
}
