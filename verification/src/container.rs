use vstd::prelude::*;

use crate::cmd::RunCommandBuilder;
use crate::config::Config;
use crate::context::Context;
use crate::json::{
    extract_inspect_count, extract_running_at, extract_state_present, extract_status_at,
    extract_top_version, extract_version_at, inspect_count, inspect_running_at, inspect_state_present,
    inspect_status_at, json_top_version, json_version_at,
};
use vstd::string::StringExecFns;

verus! {

#[derive(Debug, Clone, Copy, Eq, PartialEq, Structural)]
pub struct DockerManager {}

impl DockerManager {
    pub fn new() -> (r: Self) {
        DockerManager {  }
    }

    pub fn bin(&self) -> (r: &'static str)
        ensures
            r@ == "docker"@,
    {
        "docker"
    }
}

#[derive(Debug, Clone, Copy, Eq, PartialEq, Structural)]
pub struct PodmanManager {}

impl PodmanManager {
    pub fn new() -> (r: Self) {
        PodmanManager {  }
    }

    pub fn bin(&self) -> (r: &'static str)
        ensures
            r@ == "podman"@,
    {
        "podman"
    }
}

/// One of the two interchangeable container engines.  Selected once at
/// startup and passed by value; all dialect differences are absorbed by the
/// methods below.
#[derive(Debug, Clone, Copy, Eq, PartialEq, Structural)]
pub enum ContainerManager {
    Docker(DockerManager),
    Podman(PodmanManager),
}

/// What one finished engine invocation reported: whether it exited
/// successfully, and what it wrote to its two output streams.  The caller
/// runs the engine binary and hands the outcome to the functions below.
pub struct CmdOutput {
    pub success: bool,
    pub stdout: Vec<u8>,
    pub stderr: Vec<u8>,
}

/// The narrow failure shapes every engine operation funnels through.
#[derive(Debug)]
pub enum EngineError {
    /// The engine exited non-zero; its diagnostic output is carried along.
    Failed { stderr: Vec<u8> },
    /// The engine exited non-zero and wrote no diagnostic at all.
    EmptyOutput,
    /// The engine answered, but not in the JSON shape it promises.
    Parse,
    /// An inspect query answered with an empty array: unexpected engine
    /// behaviour, not "not found".
    EmptyInspect,
    /// The inspected name is an image, not a container.
    NotAContainer,
    /// A pull did not exit successfully.
    PullFailed,
}

/// Snapshot of a container's state, re-queried from the engine on every read.
#[derive(Debug)]
pub struct InspectState {
    pub status: String,
    pub running: bool,
}

/// The first element of an inspect answer.  `state` is present for
/// containers and absent for images.
#[derive(Debug)]
pub struct InspectEntry {
    pub state: Option<InspectState>,
}

/// Arguments of a best-effort removal.  The one dialect difference: the
/// second engine needs forced removal because its stop-then-remove semantics
/// differ.
pub open spec fn spec_quiet_rm_args(m: ContainerManager, name: Seq<char>) -> Seq<Seq<char>> {
    if m is Podman {
        seq!["rm"@, "--force"@, name]
    } else {
        seq!["rm"@, name]
    }
}

/// Arguments of a stop.  Only the first engine supports selecting the stop
/// signal; against the second a requested signal is silently dropped and the
/// engine's built-in default is used.
pub open spec fn spec_stop_args(
    m: ContainerManager,
    name: Seq<char>,
    signal: Option<Seq<char>>,
) -> Seq<Seq<char>> {
    if m is Docker {
        seq!["stop"@, "--signal"@, (match signal {
            Some(s) => s,
            None => "SIGTERM"@,
        }), name]
    } else {
        seq!["stop"@, name]
    }
}

/// The version string an engine's `version` answer carries: the client
/// section's entry when present, the top-level entry otherwise.
pub open spec fn spec_version_of(b: Seq<u8>) -> Option<Seq<char>> {
    match json_version_at(b, "Client"@) {
        Some(v) => Some(v),
        None => json_top_version(b),
    }
}

/// An inspect answer is well-formed when it is a non-empty array whose first
/// element, if it describes a container at all, carries both state fields.
pub open spec fn spec_inspect_ok(b: Seq<u8>) -> bool {
    match inspect_count(b) {
        Some(n) => n > 0 && (inspect_state_present(b, 0) ==> (inspect_status_at(b, 0) is Some
            && inspect_running_at(b, 0) is Some)),
        None => false,
    }
}

/// A well-formed inspect answer whose first element is a container.
pub open spec fn spec_state_ok(b: Seq<u8>) -> bool {
    spec_inspect_ok(b) && inspect_state_present(b, 0)
}

/// The container described by `b` is currently running.
pub open spec fn spec_running(b: Seq<u8>) -> bool {
    spec_state_ok(b) && inspect_running_at(b, 0) == Some(true)
}

impl ContainerManager {
    pub fn bin(&self) -> (r: &'static str)
        ensures
            self is Docker ==> r@ == "docker"@,
            self is Podman ==> r@ == "podman"@,
    {
        match self {
            ContainerManager::Docker(docker) => docker.bin(),
            ContainerManager::Podman(podman) => podman.bin(),
        }
    }

    /// The engine's name, for reports.
    pub fn name(&self) -> (r: &'static str)
        ensures
            self is Docker ==> r@ == "Docker"@,
            self is Podman ==> r@ == "Podman"@,
    {
        match self {
            ContainerManager::Docker(_) => "Docker",
            ContainerManager::Podman(_) => "Podman",
        }
    }

    /// Return true if the container manager is Podman.
    pub fn is_podman(&self) -> (r: bool)
        ensures
            r == (self is Podman),
    {
        matches!(self, ContainerManager::Podman(_))
    }

    /// Return true if the container manager is Docker.
    pub fn is_docker(&self) -> (r: bool)
        ensures
            r == (self is Docker),
    {
        matches!(self, ContainerManager::Docker(_))
    }

    /// Whether a caller-chosen stop signal is honoured.
    pub fn supports_custom_stop_signal(&self) -> (r: bool)
        ensures
            r == (self is Docker),
    {
        self.is_docker()
    }

    /// Whether the engine must run with elevated privilege.  Re-derived on
    /// every call; never cached.
    pub fn requires_privilege(&self) -> (r: bool)
        ensures
            r == (self is Podman),
    {
        self.is_podman()
    }

    /// Arguments of the version query.
    pub fn version_args(&self) -> (r: Vec<String>)
        ensures
            r.deep_view() == seq!["version"@, "--format"@, "{{json . }}"@],
    {
        let mut out: Vec<String> = Vec::new();
        out.push("version".to_owned());
        out.push("--format".to_owned());
        out.push("{{json . }}".to_owned());
        assert(out.deep_view() =~= seq!["version"@, "--format"@, "{{json . }}"@]);
        out
    }

    /// Interpret the answer of the version query.
    pub fn version_result(&self, output: &CmdOutput) -> (r: Result<String, EngineError>)
        ensures
            !output.success ==> (r matches Err(EngineError::Failed { stderr }) && stderr@
                == output.stderr@),
            output.success ==> match spec_version_of(output.stdout@) {
                Some(v) => r matches Ok(s) && s@ == v,
                None => r matches Err(EngineError::Parse),
            },
    {
        if !output.success {
            return Err(EngineError::Failed { stderr: clone_bytes(&output.stderr) });
        }
        match extract_version_at(output.stdout.as_slice(), "Client") {
            Some(v) => Ok(v),
            None => match extract_top_version(output.stdout.as_slice()) {
                Some(v) => Ok(v),
                None => Err(EngineError::Parse),
            },
        }
    }

    /// Arguments of a best-effort removal.  There is no answer to interpret:
    /// whatever the engine reports is discarded, so removal of a name that
    /// does not exist is not an error for any caller.
    pub fn quiet_rm(&self, name: &str) -> (r: Vec<String>)
        ensures
            r.deep_view() == spec_quiet_rm_args(*self, name@),
    {
        let mut out: Vec<String> = Vec::new();
        out.push("rm".to_owned());
        if self.is_podman() {
            out.push("--force".to_owned());
        }
        out.push(name.to_owned());
        assert(out.deep_view() =~= spec_quiet_rm_args(*self, name@));
        out
    }

    /// Arguments of a stop request.
    pub fn stop(&self, name: &str, signal: Option<&str>) -> (r: Vec<String>)
        ensures
            r.deep_view() == spec_stop_args(*self, name@, match signal {
                Some(s) => Some(s@),
                None => None,
            }),
    {
        let mut out: Vec<String> = Vec::new();
        out.push("stop".to_owned());
        if self.is_docker() {
            out.push("--signal".to_owned());
            match signal {
                Some(s) => out.push(s.to_owned()),
                None => out.push("SIGTERM".to_owned()),
            }
        }
        out.push(name.to_owned());
        assert(out.deep_view() =~= spec_stop_args(*self, name@, match signal {
            Some(s) => Some(s@),
            None => None,
        }));
        out
    }

    /// Interpret the answer of a stop request: failure surfaces the engine's
    /// diagnostic output as the error.
    pub fn stop_result(&self, output: &CmdOutput) -> (r: Result<(), EngineError>)
        ensures
            r is Ok <==> output.success,
            r matches Err(e) ==> e matches EngineError::Failed { stderr } && stderr@
                == output.stderr@,
    {
        if output.success {
            Ok(())
        } else {
            Err(EngineError::Failed { stderr: clone_bytes(&output.stderr) })
        }
    }

    /// Arguments of a pull.
    pub fn pull(&self, image: &str) -> (r: Vec<String>)
        ensures
            r.deep_view() == seq!["pull"@, image@],
    {
        let mut out: Vec<String> = Vec::new();
        out.push("pull".to_owned());
        out.push(image.to_owned());
        assert(out.deep_view() =~= seq!["pull"@, image@]);
        out
    }

    /// Interpret the exit of a pull: a non-zero exit is an error.
    pub fn pull_result(&self, success: bool) -> (r: Result<(), EngineError>)
        ensures
            r is Ok <==> success,
            r matches Err(e) ==> e is PullFailed,
    {
        if success {
            Ok(())
        } else {
            Err(EngineError::PullFailed)
        }
    }

    /// Arguments of an inspect query.
    pub fn inspect_args(&self, name: &str) -> (r: Vec<String>)
        ensures
            r.deep_view() == seq!["inspect"@, name@],
    {
        let mut out: Vec<String> = Vec::new();
        out.push("inspect".to_owned());
        out.push(name.to_owned());
        assert(out.deep_view() =~= seq!["inspect"@, name@]);
        out
    }

    /// Interpret an inspect answer: the first array element.
    pub fn inspect_first(&self, output: &CmdOutput) -> (r: Result<InspectEntry, EngineError>)
        ensures
            !output.success && output.stderr@.len() == 0 ==> r matches Err(
                EngineError::EmptyOutput,
            ),
            !output.success && output.stderr@.len() > 0 ==> (r matches Err(
                EngineError::Failed { stderr },
            ) && stderr@ == output.stderr@),
            output.success && inspect_count(output.stdout@) is None ==> r matches Err(
                EngineError::Parse,
            ),
            output.success && inspect_count(output.stdout@) == Some(0usize) ==> r matches Err(
                EngineError::EmptyInspect,
            ),
            output.success ==> (r is Ok <==> spec_inspect_ok(output.stdout@)),
            r matches Ok(e) ==> (e.state is Some <==> inspect_state_present(output.stdout@, 0)),
            r matches Ok(e) ==> (e.state matches Some(st) ==> (inspect_status_at(
                output.stdout@,
                0,
            ) matches Some(status) && st.status@ == status && inspect_running_at(
                output.stdout@,
                0,
            ) == Some(st.running))),
    {
        if !output.success {
            if output.stderr.len() == 0 {
                return Err(EngineError::EmptyOutput);
            }
            return Err(EngineError::Failed { stderr: clone_bytes(&output.stderr) });
        }
        let stdout = output.stdout.as_slice();
        let count = match extract_inspect_count(stdout) {
            Some(count) => count,
            None => {
                return Err(EngineError::Parse);
            },
        };
        if count == 0 {
            return Err(EngineError::EmptyInspect);
        }
        if !extract_state_present(stdout, 0) {
            return Ok(InspectEntry { state: None });
        }
        let status = match extract_status_at(stdout, 0) {
            Some(status) => status,
            None => {
                return Err(EngineError::Parse);
            },
        };
        let running = match extract_running_at(stdout, 0) {
            Some(running) => running,
            None => {
                return Err(EngineError::Parse);
            },
        };
        Ok(InspectEntry { state: Some(InspectState { status, running }) })
    }

    /// Whether an image of that name is known to the engine: any failure of
    /// the inspect query collapses to false.
    pub fn has_image(&self, output: &CmdOutput) -> (r: bool)
        ensures
            r == (output.success && spec_inspect_ok(output.stdout@)),
    {
        self.inspect_first(output).is_ok()
    }

    /// The state of a container; an inspected name that is an image yields a
    /// distinguishable "not a container" error.
    pub fn state(&self, output: &CmdOutput) -> (r: Result<InspectState, EngineError>)
        ensures
            r is Ok <==> (output.success && spec_state_ok(output.stdout@)),
            r matches Ok(st) ==> (inspect_status_at(output.stdout@, 0) matches Some(status)
                && st.status@ == status && inspect_running_at(output.stdout@, 0) == Some(
                st.running,
            )),
            output.success && spec_inspect_ok(output.stdout@) && !inspect_state_present(
                output.stdout@,
                0,
            ) ==> r matches Err(EngineError::NotAContainer),
    {
        match self.inspect_first(output)? {
            InspectEntry { state: Some(state) } => Ok(state),
            InspectEntry { state: None } => Err(EngineError::NotAContainer),
        }
    }

    /// Whether the container is running; every failure collapses to false.
    pub fn is_running(&self, output: &CmdOutput) -> (r: bool)
        ensures
            r == (output.success && spec_running(output.stdout@)),
    {
        match self.state(output) {
            Ok(state) => state.running,
            Err(_) => false,
        }
    }

    /// Whether a container of that name exists: exactly when the inspect
    /// invocation exited successfully.  A caller that could not even launch
    /// the engine reports false itself.
    pub fn container_exists(&self, output: &CmdOutput) -> (r: bool)
        ensures
            r == output.success,
    {
        output.success
    }
}

/// Byte-for-byte copy of a diagnostic output, so an error can carry it.
pub(crate) fn clone_bytes(v: &Vec<u8>) -> (r: Vec<u8>)
    ensures
        r@ == v@,
{
    let mut out: Vec<u8> = Vec::new();
    let n = v.len();
    for i in 0..n
        invariant
            n == v@.len(),
            out@ =~= v@.take(i as int),
    {
        out.push(v[i]);
        assert(out@ =~= v@.take(i as int + 1));
    }
    assert(v@.take(n as int) =~= v@);
    out
}

/// One of the two fixed-role service containers this tool owns.
#[derive(Debug, Clone, Copy, Eq, PartialEq, Structural)]
pub enum Container {
    Suricata,
    EveBox,
}

/// The volume bindings a role mounts when run ad hoc (source name to
/// container path, in fixed order).
pub open spec fn spec_container_volumes(c: Container) -> Seq<Seq<char>> {
    match c {
        Container::Suricata => seq![
            crate::spec_suricata_volume_log() + ":/var/log/suricata"@,
        ],
        Container::EveBox => seq![
            crate::spec_suricata_volume_log() + ":/var/log/suricata"@,
            crate::spec_evebox_volume_lib() + ":/var/lib/evebox"@,
        ],
    }
}

impl Container {
    pub fn volumes(&self) -> (r: Vec<String>)
        ensures
            r.deep_view() == spec_container_volumes(*self),
    {
        let mut out: Vec<String> = Vec::new();
        match self {
            Container::Suricata => {
                out.push(crate::suricata_volume_log().to_owned().concat(":/var/log/suricata"));
            },
            Container::EveBox => {
                out.push(crate::suricata_volume_log().to_owned().concat(":/var/log/suricata"));
                out.push(crate::evebox_volume_lib().to_owned().concat(":/var/lib/evebox"));
            },
        }
        assert(out.deep_view() =~= spec_container_volumes(*self));
        out
    }
}

/// The image a role runs: the configured override when present, the
/// hard-coded default otherwise.
pub open spec fn spec_image_name(config: Config, container: Container) -> Seq<char> {
    match container {
        Container::Suricata => match config.suricata.image {
            Some(image) => image@,
            None => crate::spec_default_suricata_image(),
        },
        Container::EveBox => match config.evebox.image {
            Some(image) => image@,
            None => crate::spec_default_evebox_image(),
        },
    }
}

/// Given the configuration and a container role, return the image name.
pub fn image_name(config: &Config, container: Container) -> (r: String)
    ensures
        r@ == spec_image_name(*config, container),
{
    match container {
        Container::Suricata => match &config.suricata.image {
            Some(image) => image.clone(),
            None => "docker.io/jasonish/suricata:latest".to_owned(),
        },
        Container::EveBox => match &config.evebox.image {
            Some(image) => image.clone(),
            None => "docker.io/jasonish/evebox:master".to_owned(),
        },
    }
}

/// The volume bindings of a full (managed, long-running) Suricata container.
pub open spec fn spec_suricata_volumes() -> Seq<Seq<char>> {
    seq![
        crate::spec_suricata_volume_log() + ":/var/log/suricata"@,
        crate::spec_suricata_volume_lib() + ":/var/lib/suricata"@,
        crate::spec_suricata_volume_run() + ":/var/run/suricata"@,
    ]
}

/// The volume bindings of the managed Suricata container, materialized.
pub fn suricata_volumes() -> (r: Vec<String>)
    ensures
        r.deep_view() == spec_suricata_volumes(),
{
    let mut out: Vec<String> = Vec::new();
    out.push(crate::suricata_volume_log().to_owned().concat(":/var/log/suricata"));
    out.push(crate::suricata_volume_lib().to_owned().concat(":/var/lib/suricata"));
    out.push(crate::suricata_volume_run().to_owned().concat(":/var/run/suricata"));
    assert(out.deep_view() =~= spec_suricata_volumes());
    out
}

/// The managed Suricata container, bound to a context.
pub struct SuricataContainer {
    pub context: Context,
}

impl SuricataContainer {
    pub fn new(context: Context) -> (r: Self)
        ensures
            r.context == context,
    {
        SuricataContainer { context }
    }

    pub fn volumes(&self) -> (r: Vec<String>)
        ensures
            r.deep_view() == spec_suricata_volumes(),
    {
        suricata_volumes()
    }

    /// A run builder for this container: image resolved from the context,
    /// the three standing volumes already bound.
    pub fn run(&self) -> (r: RunCommandBuilder)
        ensures
            r.manager == self.context.manager,
            r.image@ == spec_image_name(self.context.config, Container::Suricata),
            !r.rm,
            !r.it,
            r.volumes.deep_view() == spec_suricata_volumes(),
            r.name is None,
            r.args.deep_view() == Seq::<Seq<char>>::empty(),
    {
        let image = image_name(&self.context.config, Container::Suricata);
        let mut builder = RunCommandBuilder::new(self.context.manager, image.as_str());
        let volumes = self.volumes();
        builder.volumes_vec(&volumes);
        assert(builder.volumes.deep_view() =~= spec_suricata_volumes());
        builder
    }
}

} // verus!
