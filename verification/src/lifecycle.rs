use vstd::prelude::*;

use crate::cmd::{clone_args, push_string, ArgBuilder};
use crate::config::Config;
use crate::container::{
    spec_image_name, spec_quiet_rm_args, spec_stop_args, spec_suricata_volumes, Container,
    ContainerManager, EngineError, InspectState,
};
use crate::context::Context;
use vstd::string::StringExecFns;

verus! {

// The lifecycle controller: the one component that decides the desired
// running topology.  It plans sequences of engine operations; the caller
// performs them in order and reports each outcome back.

/// One engine operation, as the controller plans it.  The dialect-correct
/// argument list is derived by `ContainerManager::op_args`.
pub enum EngineOp {
    /// Best-effort removal of a container; the outcome is discarded.
    QuietRm { name: String },
    /// Stop a container, optionally with a chosen signal.
    Stop { name: String, signal: Option<String> },
    /// Create and run a container under a fixed name.
    Run { name: String, args: Vec<String> },
    /// Run a command inside an existing container.
    Exec { args: Vec<String> },
    /// Pull an image.
    Pull { image: String },
    /// Remove a named volume.
    VolumeRm { volume: String },
    /// Remove an image.
    ImageRm { image: String },
}

/// The mathematical shape of an operation.
pub enum OpView {
    QuietRm { name: Seq<char> },
    Stop { name: Seq<char>, signal: Option<Seq<char>> },
    Run { name: Seq<char>, args: Seq<Seq<char>> },
    Exec { args: Seq<Seq<char>> },
    Pull { image: Seq<char> },
    VolumeRm { volume: Seq<char> },
    ImageRm { image: Seq<char> },
}

impl View for EngineOp {
    type V = OpView;

    open spec fn view(&self) -> OpView {
        match self {
            EngineOp::QuietRm { name } => OpView::QuietRm { name: name@ },
            EngineOp::Stop { name, signal } => OpView::Stop {
                name: name@,
                signal: match signal {
                    Some(s) => Some(s@),
                    None => None,
                },
            },
            EngineOp::Run { name, args } => OpView::Run { name: name@, args: args.deep_view() },
            EngineOp::Exec { args } => OpView::Exec { args: args.deep_view() },
            EngineOp::Pull { image } => OpView::Pull { image: image@ },
            EngineOp::VolumeRm { volume } => OpView::VolumeRm { volume: volume@ },
            EngineOp::ImageRm { image } => OpView::ImageRm { image: image@ },
        }
    }
}

/// The views of a planned sequence.
pub open spec fn ops_view(ops: Seq<EngineOp>) -> Seq<OpView> {
    ops.map_values(|o: EngineOp| o@)
}

/// Push one operation, tracking the sequence of views.
fn push_op(v: &mut Vec<EngineOp>, op: EngineOp)
    ensures
        ops_view(final(v)@) == ops_view(old(v)@).push(op@),
{
    let ghost ov = op@;
    v.push(op);
    assert forall|j: int| 0 <= j < v@.len() implies ops_view(v@)[j] == ops_view(old(v)@).push(
        ov,
    )[j] by {
        if j < old(v)@.len() {
            assert(v@[j] == old(v)@[j]);
        }
    }
    assert(ops_view(v@) =~= ops_view(old(v)@).push(ov));
}

/// The argument list of one operation in this engine's dialect.
pub open spec fn spec_op_args(m: ContainerManager, op: OpView) -> Seq<Seq<char>> {
    match op {
        OpView::QuietRm { name } => spec_quiet_rm_args(m, name),
        OpView::Stop { name, signal } => spec_stop_args(m, name, signal),
        OpView::Run { name: _, args } => args,
        OpView::Exec { args } => args,
        OpView::Pull { image } => seq!["pull"@, image],
        OpView::VolumeRm { volume } => seq!["volume"@, "rm"@, volume],
        OpView::ImageRm { image } => seq!["image"@, "rmi"@, image],
    }
}

impl ContainerManager {
    /// Materialize one planned operation as the engine's argument list.
    pub fn op_args(&self, op: &EngineOp) -> (r: Vec<String>)
        ensures
            r.deep_view() == spec_op_args(*self, op@),
    {
        match op {
            EngineOp::QuietRm { name } => self.quiet_rm(name.as_str()),
            EngineOp::Stop { name, signal } => self.stop(name.as_str(), match signal {
                Some(s) => Some(s.as_str()),
                None => None,
            }),
            EngineOp::Run { name: _, args } => clone_args(args),
            EngineOp::Exec { args } => clone_args(args),
            EngineOp::Pull { image } => {
                let mut out: Vec<String> = Vec::new();
                push_string(&mut out, "pull".to_owned());
                push_string(&mut out, image.clone());
                assert(out.deep_view() =~= spec_op_args(*self, op@));
                out
            },
            EngineOp::VolumeRm { volume } => {
                let mut out: Vec<String> = Vec::new();
                push_string(&mut out, "volume".to_owned());
                push_string(&mut out, "rm".to_owned());
                push_string(&mut out, volume.clone());
                assert(out.deep_view() =~= spec_op_args(*self, op@));
                out
            },
            EngineOp::ImageRm { image } => {
                let mut out: Vec<String> = Vec::new();
                push_string(&mut out, "image".to_owned());
                push_string(&mut out, "rmi".to_owned());
                push_string(&mut out, image.clone());
                assert(out.deep_view() =~= spec_op_args(*self, op@));
                out
            },
        }
    }
}

// --- The engine-namespace model -------------------------------------------
//
// The one invariant the controller owes the engine: at most one container
// with a given logical name exists whenever the system is settled.  The
// model tracks exactly that dimension — which names exist.  `QuietRm`
// removes a name, `Run` creates one and is refused by the engine when the
// name is taken; stopping needs the name present.  Operations can of course
// fail for other reasons (a missing image, a dead engine); the model says
// nothing about those, and neither do the laws below.

/// The set of container names that exist after one operation.
pub open spec fn spec_op_touch(w: Set<Seq<char>>, op: OpView) -> Set<Seq<char>> {
    match op {
        OpView::QuietRm { name } => w.remove(name),
        OpView::Run { name, args: _ } => w.insert(name),
        _ => w,
    }
}

/// Whether the engine's namespace accepts the operation: a `Run` needs its
/// name free, a `Stop` needs its name present, everything else is accepted
/// in every world.
pub open spec fn spec_op_accepted(w: Set<Seq<char>>, op: OpView) -> bool {
    match op {
        OpView::Run { name, args: _ } => !w.contains(name),
        OpView::Stop { name, signal: _ } => w.contains(name),
        _ => true,
    }
}

/// The names that exist after a whole plan.
pub open spec fn spec_world_after(w: Set<Seq<char>>, ops: Seq<OpView>) -> Set<Seq<char>>
    decreases ops.len(),
{
    if ops.len() == 0 {
        w
    } else {
        spec_world_after(spec_op_touch(w, ops.first()), ops.drop_first())
    }
}

/// Whether every operation of the plan, run in order, is accepted.
pub open spec fn spec_ops_accepted(w: Set<Seq<char>>, ops: Seq<OpView>) -> bool
    decreases ops.len(),
{
    if ops.len() == 0 {
        true
    } else {
        spec_op_accepted(w, ops.first()) && spec_ops_accepted(
            spec_op_touch(w, ops.first()),
            ops.drop_first(),
        )
    }
}

/// Running a concatenated plan is running its parts in order.
pub proof fn lemma_world_after_concat(w: Set<Seq<char>>, a: Seq<OpView>, b: Seq<OpView>)
    ensures
        spec_world_after(w, a + b) == spec_world_after(spec_world_after(w, a), b),
        spec_ops_accepted(w, a + b) == (spec_ops_accepted(w, a) && spec_ops_accepted(
            spec_world_after(w, a),
            b,
        )),
    decreases a.len(),
{
    if a.len() == 0 {
        assert(a + b =~= b);
    } else {
        assert((a + b).first() == a.first());
        assert((a + b).drop_first() =~= a.drop_first() + b);
        lemma_world_after_concat(spec_op_touch(w, a.first()), a.drop_first(), b);
    }
}

/// The effect of a two-operation plan, written out.
pub proof fn lemma_world_after_two(w: Set<Seq<char>>, a: OpView, b: OpView)
    ensures
        spec_world_after(w, seq![a, b]) == spec_op_touch(spec_op_touch(w, a), b),
        spec_ops_accepted(w, seq![a, b]) == (spec_op_accepted(w, a) && spec_op_accepted(
            spec_op_touch(w, a),
            b,
        )),
{
    reveal_with_fuel(spec_world_after, 3);
    reveal_with_fuel(spec_ops_accepted, 3);
    assert(seq![a, b].drop_first() =~= seq![b]);
    assert(seq![b].drop_first() =~= Seq::<OpView>::empty());
    assert(spec_world_after(w, seq![a, b]) == spec_world_after(spec_op_touch(w, a), seq![b]));
    assert(spec_world_after(spec_op_touch(w, a), seq![b]) == spec_world_after(
        spec_op_touch(spec_op_touch(w, a), b),
        Seq::<OpView>::empty(),
    ));
}

/// Best-effort removal is accepted in every world — also when the name does
/// not exist — and afterwards the name is gone.
pub proof fn lemma_quiet_rm_total(w: Set<Seq<char>>, name: Seq<char>)
    ensures
        spec_op_accepted(w, OpView::QuietRm { name }),
        !spec_op_touch(w, OpView::QuietRm { name }).contains(name),
{
}

// --- Stopping --------------------------------------------------------------

/// The stop plan.  A service is only acted on when its container exists;
/// then it is sent the service-appropriate signal — the viewer asks for
/// SIGINT so it can flush state, the inspection engine takes the engine's
/// default — and is force-removed afterwards whatever the stop reported, so
/// that "absent" holds on exit.  The viewer goes first, the reverse of the
/// start order.
pub open spec fn spec_stop_plan(suricata_exists: bool, evebox_exists: bool) -> Seq<OpView> {
    (if evebox_exists {
        seq![
            OpView::Stop { name: crate::spec_evebox_name(), signal: Some("SIGINT"@) },
            OpView::QuietRm { name: crate::spec_evebox_name() },
        ]
    } else {
        Seq::empty()
    }) + (if suricata_exists {
        seq![
            OpView::Stop { name: crate::spec_suricata_name(), signal: None },
            OpView::QuietRm { name: crate::spec_suricata_name() },
        ]
    } else {
        Seq::empty()
    })
}

/// Plan a stop, given which of the two containers exist.
pub fn stop_plan(suricata_exists: bool, evebox_exists: bool) -> (r: Vec<EngineOp>)
    ensures
        ops_view(r@) == spec_stop_plan(suricata_exists, evebox_exists),
{
    let mut ops: Vec<EngineOp> = Vec::new();
    assert(ops_view(ops@) =~= Seq::<OpView>::empty());
    if evebox_exists {
        push_op(
            &mut ops,
            EngineOp::Stop {
                name: crate::evebox_container_name().to_owned(),
                signal: Some("SIGINT".to_owned()),
            },
        );
        push_op(&mut ops, EngineOp::QuietRm { name: crate::evebox_container_name().to_owned() });
    }
    if suricata_exists {
        push_op(
            &mut ops,
            EngineOp::Stop { name: crate::suricata_container_name().to_owned(), signal: None },
        );
        push_op(&mut ops, EngineOp::QuietRm { name: crate::suricata_container_name().to_owned() });
    }
    assert(ops_view(ops@) =~= spec_stop_plan(suricata_exists, evebox_exists));
    ops
}

/// Whether a finished stop reports success: every stop that was issued must
/// have succeeded; a service whose container did not exist contributes
/// nothing.  Removal outcomes are discarded by design.
pub fn stop_ok(
    suricata_exists: bool,
    suricata_stopped: bool,
    evebox_exists: bool,
    evebox_stopped: bool,
) -> (r: bool)
    ensures
        r == ((suricata_exists ==> suricata_stopped) && (evebox_exists ==> evebox_stopped)),
{
    (!suricata_exists || suricata_stopped) && (!evebox_exists || evebox_stopped)
}

/// Stop with no containers present: the plan is empty — no engine stop call
/// at all is issued — and the outcome is success.
pub proof fn lemma_stop_nothing_is_noop()
    ensures
        spec_stop_plan(false, false) == Seq::<OpView>::empty(),
{
    assert(spec_stop_plan(false, false) =~= Seq::<OpView>::empty());
}

/// The overall command outcome, as the process exit code: zero exactly when
/// every queried service answered.
pub fn command_status(
    suricata: &Result<InspectState, EngineError>,
    evebox: &Result<InspectState, EngineError>,
) -> (r: i32)
    ensures
        r == 0 <==> (suricata is Ok && evebox is Ok),
        r == 0 || r == 1,
{
    if suricata.is_ok() && evebox.is_ok() {
        0
    } else {
        1
    }
}

// --- Building the two run invocations ---------------------------------------

/// Why a run invocation could not be built.
#[derive(Debug, Clone, Copy, Eq, PartialEq, Structural)]
pub enum BuildError {
    /// No capture interface is configured; the inspection engine cannot run.
    NoInterface,
}

/// The full Suricata run invocation: fixed capabilities, host networking,
/// the optional af-packet stub volume, the three standing volumes, the
/// image, the capture interface, and the configured BPF filter last.
pub open spec fn spec_suricata_command(
    config: Config,
    no_fixups: bool,
    detached: bool,
    stubs: bool,
    af_packet_path: Option<Seq<char>>,
) -> Seq<Seq<char>>
    recommends
        config.suricata.interfaces@.len() > 0,
{
    seq![
        "run"@,
        "--name"@,
        crate::spec_suricata_name(),
        "--net=host"@,
        "--cap-add=sys_nice"@,
        "--cap-add=net_admin"@,
        "--cap-add=net_raw"@,
    ] + (if detached {
        seq!["-d"@]
    } else {
        Seq::empty()
    }) + (if !no_fixups && stubs {
        match af_packet_path {
            Some(p) => seq!["--volume="@ + p + ":/config/af-packet.yaml"@],
            None => Seq::empty(),
        }
    } else {
        Seq::empty()
    }) + spec_suricata_volumes().map_values(|v: Seq<char>| "--volume="@ + v) + seq![
        spec_image_name(config, Container::Suricata),
    ] + seq!["-v"@, "-i"@, config.suricata.interfaces@[0]@] + (if !no_fixups || stubs {
        seq!["--include"@, "/config/af-packet.yaml"@]
    } else {
        Seq::empty()
    }) + (match config.suricata.bpf {
        Some(b) => seq![b@],
        None => Seq::empty(),
    })
}

/// Build the Suricata run invocation.  Fails exactly when no capture
/// interface is configured.  When fix-ups are on and stubs are wanted, the
/// caller passes the path of the af-packet stub it has materialized.
pub fn build_suricata_command(
    ctx: &Context,
    detached: bool,
    stubs: bool,
    af_packet_path: Option<&str>,
) -> (r: Result<Vec<String>, BuildError>)
    ensures
        r is Ok <==> ctx.config.suricata.interfaces@.len() > 0,
        r is Err ==> r == Err::<Vec<String>, BuildError>(BuildError::NoInterface),
        r matches Ok(args) ==> args.deep_view() == spec_suricata_command(
            ctx.config,
            ctx.no_fixups,
            detached,
            stubs,
            match af_packet_path {
                Some(p) => Some(p@),
                None => None,
            },
        ),
{
    if ctx.config.suricata.interfaces.len() == 0 {
        return Err(BuildError::NoInterface);
    }
    let ghost base = seq![
        "run"@,
        "--name"@,
        crate::spec_suricata_name(),
        "--net=host"@,
        "--cap-add=sys_nice"@,
        "--cap-add=net_admin"@,
        "--cap-add=net_raw"@,
    ];
    let mut args = ArgBuilder::new();
    args.add("run");
    args.add("--name");
    args.add(crate::suricata_container_name());
    args.add("--net=host");
    args.add("--cap-add=sys_nice");
    args.add("--cap-add=net_admin");
    args.add("--cap-add=net_raw");
    assert(args.args.deep_view() =~= base);
    if detached {
        args.add("-d");
    }
    let ghost g1 = base + (if detached {
        seq!["-d"@]
    } else {
        Seq::<Seq<char>>::empty()
    });
    assert(args.args.deep_view() =~= g1);
    if !ctx.no_fixups && stubs {
        match af_packet_path {
            Some(p) => {
                args.add_string(
                    "--volume=".to_owned().concat(p).concat(":/config/af-packet.yaml"),
                );
            },
            None => {},
        }
    }
    let ghost g2 = g1 + (if !ctx.no_fixups && stubs {
        match af_packet_path {
            Some(p) => seq!["--volume="@ + p@ + ":/config/af-packet.yaml"@],
            None => Seq::<Seq<char>>::empty(),
        }
    } else {
        Seq::<Seq<char>>::empty()
    });
    assert(args.args.deep_view() =~= g2);
    args.add_string("--volume=".to_owned().concat(crate::suricata_volume_log()).concat(
        ":/var/log/suricata",
    ));
    args.add_string("--volume=".to_owned().concat(crate::suricata_volume_lib()).concat(
        ":/var/lib/suricata",
    ));
    args.add_string("--volume=".to_owned().concat(crate::suricata_volume_run()).concat(
        ":/var/run/suricata",
    ));
    let ghost g3 = g2 + spec_suricata_volumes().map_values(|v: Seq<char>| "--volume="@ + v);
    assert(args.args.deep_view() =~~= g3);
    let image = ctx.image_name(Container::Suricata);
    args.add(image.as_str());
    args.add("-v");
    args.add("-i");
    let interface: &String = &ctx.config.suricata.interfaces[0];
    args.add(interface.as_str());
    let ghost g4 = g3 + seq![spec_image_name(ctx.config, Container::Suricata)] + seq![
        "-v"@,
        "-i"@,
        ctx.config.suricata.interfaces@[0]@,
    ];
    assert(args.args.deep_view() =~= g4);
    if !ctx.no_fixups || stubs {
        args.add("--include");
        args.add("/config/af-packet.yaml");
    }
    match &ctx.config.suricata.bpf {
        Some(bpf) => {
            args.add(bpf.as_str());
        },
        None => {},
    }
    assert(args.args.deep_view() =~= spec_suricata_command(
        ctx.config,
        ctx.no_fixups,
        detached,
        stubs,
        match af_packet_path {
            Some(p) => Some(p@),
            None => None,
        },
    ));
    Ok(args.args)
}

/// The full EveBox run invocation: the published port bound to loopback
/// unless remote access is configured, the two volumes, the image, and the
/// server's own flags.
pub open spec fn spec_evebox_command(config: Config, daemon: bool) -> Seq<Seq<char>> {
    seq!["run"@, "--name"@, crate::spec_evebox_name()] + seq![
        if config.evebox.allow_remote {
            "--publish=5636:5636"@
        } else {
            "--publish=127.0.0.1:5636:5636"@
        },
    ] + (if daemon {
        seq!["-d"@]
    } else {
        Seq::empty()
    }) + crate::container::spec_container_volumes(Container::EveBox).map_values(
        |v: Seq<char>| "--volume="@ + v,
    ) + seq![spec_image_name(config, Container::EveBox)] + seq!["evebox"@, "server"@] + (if config.evebox.no_tls {
        seq!["--no-tls"@]
    } else {
        Seq::empty()
    }) + (if config.evebox.no_auth {
        seq!["--no-auth"@]
    } else {
        Seq::empty()
    }) + seq!["--host=[::0]"@, "--sqlite"@, "/var/log/suricata/eve.json"@]
}

/// Build the EveBox run invocation.
#[verifier::rlimit(60)]
pub fn build_evebox_command(ctx: &Context, daemon: bool) -> (r: Vec<String>)
    ensures
        r.deep_view() == spec_evebox_command(ctx.config, daemon),
{
    let mut args = ArgBuilder::new();
    args.add("run");
    args.add("--name");
    args.add(crate::evebox_container_name());
    if ctx.config.evebox.allow_remote {
        args.add("--publish=5636:5636");
    } else {
        args.add("--publish=127.0.0.1:5636:5636");
    }
    if daemon {
        args.add("-d");
    }
    let ghost g1 = seq!["run"@, "--name"@, crate::spec_evebox_name()] + seq![
        if ctx.config.evebox.allow_remote {
            "--publish=5636:5636"@
        } else {
            "--publish=127.0.0.1:5636:5636"@
        },
    ] + (if daemon {
        seq!["-d"@]
    } else {
        Seq::<Seq<char>>::empty()
    });
    assert(args.args.deep_view() =~= g1);
    args.add_string("--volume=".to_owned().concat(crate::suricata_volume_log()).concat(
        ":/var/log/suricata",
    ));
    args.add_string("--volume=".to_owned().concat(crate::evebox_volume_lib()).concat(
        ":/var/lib/evebox",
    ));
    let ghost g2 = g1 + crate::container::spec_container_volumes(Container::EveBox).map_values(
        |v: Seq<char>| "--volume="@ + v,
    );
    assert(args.args.deep_view() =~~= g2);
    let image = ctx.image_name(Container::EveBox);
    args.add(image.as_str());
    args.add("evebox");
    args.add("server");
    if ctx.config.evebox.no_tls {
        args.add("--no-tls");
    }
    if ctx.config.evebox.no_auth {
        args.add("--no-auth");
    }
    args.add("--host=[::0]");
    args.add("--sqlite");
    args.add("/var/log/suricata/eve.json");
    assert(args.args.deep_view() =~= spec_evebox_command(ctx.config, daemon));
    args.args
}

// --- The ja4 fix-ups read off a configuration dump ---------------------------

/// The eve-log tls output section named on a dump line, if one is.
pub uninterp spec fn tls_eve_type_of(line: Seq<char>) -> Option<Seq<char>>;

/// The eve-log quic output section named on a dump line, if one is.
pub uninterp spec fn quic_eve_type_of(line: Seq<char>) -> Option<Seq<char>>;

/// Relies on the regex crate: the first capture group of
/// `(outputs\.\d+\.eve-log\.types\.\d+\.tls)\s` on the line.  The result
/// depends on the line alone.
#[verifier::external_body]
pub fn capture_tls_eve_type(line: &str) -> (r: Option<String>)
    ensures
        r.deep_view() == tls_eve_type_of(line@),
{
    regex::Regex::new(r"(outputs\.\d+\.eve-log\.types\.\d+\.tls)\s")
        .unwrap()
        .captures(line)
        .map(|c| c[1].to_string())
}

/// Relies on the regex crate: the first capture group of
/// `(outputs\.\d+\.eve-log\.types\.\d+\.quic)\s` on the line.  The result
/// depends on the line alone.
#[verifier::external_body]
pub fn capture_quic_eve_type(line: &str) -> (r: Option<String>)
    ensures
        r.deep_view() == quic_eve_type_of(line@),
{
    regex::Regex::new(r"(outputs\.\d+\.eve-log\.types\.\d+\.quic)\s")
        .unwrap()
        .captures(line)
        .map(|c| c[1].to_string())
}

/// The settings one dump line contributes: ja4 turned on for each tls or
/// quic eve-log section it names.
pub open spec fn spec_ja4_line_args(line: Seq<char>) -> Seq<Seq<char>> {
    (match tls_eve_type_of(line) {
        Some(p) => seq![p + ".ja4=true"@],
        None => Seq::empty(),
    }) + (match quic_eve_type_of(line) {
        Some(p) => seq![p + ".ja4=true"@],
        None => Seq::empty(),
    })
}

pub open spec fn spec_ja4_tail(lines: Seq<Seq<char>>) -> Seq<Seq<char>>
    decreases lines.len(),
{
    if lines.len() == 0 {
        Seq::empty()
    } else {
        spec_ja4_line_args(lines.first()) + spec_ja4_tail(lines.drop_first())
    }
}

/// All settings passed to a detached Suricata: ja4 fingerprints on for both
/// protocols, then whatever the configuration dump shows needs switching on.
pub open spec fn spec_ja4_set_args(lines: Seq<Seq<char>>) -> Seq<Seq<char>> {
    seq![
        "app-layer.protocols.tls.ja4-fingerprints=true"@,
        "app-layer.protocols.quic.ja4-fingerprints=true"@,
    ] + spec_ja4_tail(lines)
}

/// Read the settings off the lines of a configuration dump.
pub fn ja4_set_args(lines: &Vec<String>) -> (r: Vec<String>)
    ensures
        r.deep_view() == spec_ja4_set_args(lines.deep_view()),
{
    let mut out: Vec<String> = Vec::new();
    push_string(&mut out, "app-layer.protocols.tls.ja4-fingerprints=true".to_owned());
    push_string(&mut out, "app-layer.protocols.quic.ja4-fingerprints=true".to_owned());
    let n = lines.len();
    assert(lines.deep_view().skip(0) =~= lines.deep_view());
    for i in 0..n
        invariant
            n == lines@.len(),
            n == lines.deep_view().len(),
            out.deep_view() + spec_ja4_tail(lines.deep_view().skip(i as int)) =~= spec_ja4_set_args(
                lines.deep_view(),
            ),
    {
        let ghost rest = lines.deep_view().skip(i as int);
        assert(rest.first() == lines.deep_view()[i as int]);
        assert(rest.drop_first() =~= lines.deep_view().skip(i as int + 1));
        let line: &String = &lines[i];
        assert(line@ == lines.deep_view()[i as int]);
        match capture_tls_eve_type(line.as_str()) {
            Some(path) => {
                push_string(&mut out, path.concat(".ja4=true"));
            },
            None => {},
        }
        match capture_quic_eve_type(line.as_str()) {
            Some(path) => {
                push_string(&mut out, path.concat(".ja4=true"));
            },
            None => {},
        }
        assert(out.deep_view() + spec_ja4_tail(lines.deep_view().skip(i as int + 1))
            =~= spec_ja4_set_args(lines.deep_view()));
    }
    assert(lines.deep_view().skip(n as int) =~= Seq::<Seq<char>>::empty());
    assert(out.deep_view() =~= spec_ja4_set_args(lines.deep_view()));
    out
}

/// Each setting as the engine takes it: a `--set` flag before each value.
pub open spec fn spec_set_flags(settings: Seq<Seq<char>>) -> Seq<Seq<char>>
    decreases settings.len(),
{
    if settings.len() == 0 {
        Seq::empty()
    } else {
        seq!["--set"@, settings.first()] + spec_set_flags(settings.drop_first())
    }
}

/// Turn settings into `--set` flag pairs.
pub fn set_flags(settings: &Vec<String>) -> (r: Vec<String>)
    ensures
        r.deep_view() == spec_set_flags(settings.deep_view()),
{
    let mut out: Vec<String> = Vec::new();
    let n = settings.len();
    assert(settings.deep_view().skip(0) =~= settings.deep_view());
    assert(out.deep_view() =~= Seq::<Seq<char>>::empty());
    for i in 0..n
        invariant
            n == settings@.len(),
            n == settings.deep_view().len(),
            out.deep_view() + spec_set_flags(settings.deep_view().skip(i as int))
                =~= spec_set_flags(settings.deep_view()),
    {
        let ghost rest = settings.deep_view().skip(i as int);
        assert(rest.first() == settings.deep_view()[i as int]);
        assert(rest.drop_first() =~= settings.deep_view().skip(i as int + 1));
        push_string(&mut out, "--set".to_owned());
        assert(settings.deep_view()[i as int] == settings@[i as int]@);
        push_string(&mut out, settings[i].clone());
        assert(out.deep_view() + spec_set_flags(settings.deep_view().skip(i as int + 1))
            =~= spec_set_flags(settings.deep_view()));
    }
    assert(settings.deep_view().skip(n as int) =~= Seq::<Seq<char>>::empty());
    assert(out.deep_view() =~= spec_set_flags(settings.deep_view()));
    out
}

// --- Starting ---------------------------------------------------------------

/// The shell loop the log-rotation helper runs inside the container.
pub open spec fn spec_logrotate_script() -> Seq<char> {
    "while true; do logrotate -v /etc/logrotate.d/suricata > /tmp/last_logrotate 2>&1; sleep 600; done"@
}

/// The exec invocation that starts the log-rotation helper in the background.
pub open spec fn spec_logrotate_exec_args() -> Seq<Seq<char>> {
    seq![
        "exec"@,
        "-d"@,
        crate::spec_suricata_name(),
        "bash"@,
        "-c"@,
        spec_logrotate_script(),
    ]
}

/// Materialize the log-rotation exec invocation.
pub fn start_logrotate_args() -> (r: Vec<String>)
    ensures
        r.deep_view() == spec_logrotate_exec_args(),
{
    let mut out: Vec<String> = Vec::new();
    push_string(&mut out, "exec".to_owned());
    push_string(&mut out, "-d".to_owned());
    push_string(&mut out, crate::suricata_container_name().to_owned());
    push_string(&mut out, "bash".to_owned());
    push_string(&mut out, "-c".to_owned());
    push_string(
        &mut out,
        "while true; do logrotate -v /etc/logrotate.d/suricata > /tmp/last_logrotate 2>&1; sleep 600; done".to_owned(),
    );
    assert(out.deep_view() =~= spec_logrotate_exec_args());
    out
}

/// The configuration-dump run: clear any stale container, then run Suricata
/// once, attached and without stubs, asking for `--dump-config`.
pub open spec fn spec_suricata_dump_plan(config: Config, no_fixups: bool) -> Seq<OpView> {
    seq![
        OpView::QuietRm { name: crate::spec_suricata_name() },
        OpView::Run {
            name: crate::spec_suricata_name(),
            args: spec_suricata_command(config, no_fixups, false, false, None) + seq![
                "--dump-config"@,
            ],
        },
    ]
}

/// Plan the configuration dump that precedes a detached start.
pub fn suricata_dump_plan(ctx: &Context) -> (r: Result<Vec<EngineOp>, BuildError>)
    ensures
        r is Ok <==> ctx.config.suricata.interfaces@.len() > 0,
        r matches Ok(ops) ==> ops_view(ops@) == spec_suricata_dump_plan(ctx.config, ctx.no_fixups),
        r is Err ==> r == Err::<Vec<EngineOp>, BuildError>(BuildError::NoInterface),
{
    let mut args = match build_suricata_command(ctx, false, false, None) {
        Ok(args) => args,
        Err(e) => {
            return Err(e);
        },
    };
    push_string(&mut args, "--dump-config".to_owned());
    assert(args.deep_view() =~= spec_suricata_command(ctx.config, ctx.no_fixups, false, false, None)
        + seq!["--dump-config"@]);
    let mut ops: Vec<EngineOp> = Vec::new();
    assert(ops_view(ops@) =~= Seq::<OpView>::empty());
    push_op(&mut ops, EngineOp::QuietRm { name: crate::suricata_container_name().to_owned() });
    push_op(
        &mut ops,
        EngineOp::Run { name: crate::suricata_container_name().to_owned(), args },
    );
    assert(ops_view(ops@) =~= spec_suricata_dump_plan(ctx.config, ctx.no_fixups));
    Ok(ops)
}

/// The detached start of the inspection engine: clear any stale container,
/// run detached with the ja4 settings read off the dump, then start the
/// log-rotation helper inside the container.
pub open spec fn spec_suricata_start_plan(
    config: Config,
    no_fixups: bool,
    af_packet_path: Option<Seq<char>>,
    dump_lines: Seq<Seq<char>>,
) -> Seq<OpView> {
    seq![
        OpView::QuietRm { name: crate::spec_suricata_name() },
        OpView::Run {
            name: crate::spec_suricata_name(),
            args: spec_suricata_command(config, no_fixups, true, true, af_packet_path)
                + spec_set_flags(spec_ja4_set_args(dump_lines)),
        },
        OpView::Exec { args: spec_logrotate_exec_args() },
    ]
}

/// Plan the detached start of the inspection engine.
pub fn suricata_start_plan(
    ctx: &Context,
    af_packet_path: Option<&str>,
    dump_lines: &Vec<String>,
) -> (r: Result<Vec<EngineOp>, BuildError>)
    ensures
        r is Ok <==> ctx.config.suricata.interfaces@.len() > 0,
        r matches Ok(ops) ==> ops_view(ops@) == spec_suricata_start_plan(
            ctx.config,
            ctx.no_fixups,
            match af_packet_path {
                Some(p) => Some(p@),
                None => None,
            },
            dump_lines.deep_view(),
        ),
        r is Err ==> r == Err::<Vec<EngineOp>, BuildError>(BuildError::NoInterface),
{
    let mut args = match build_suricata_command(ctx, true, true, af_packet_path) {
        Ok(args) => args,
        Err(e) => {
            return Err(e);
        },
    };
    let settings = ja4_set_args(dump_lines);
    let flags = set_flags(&settings);
    let n = flags.len();
    let ghost run_args = spec_suricata_command(ctx.config, ctx.no_fixups, true, true, match af_packet_path {
        Some(p) => Some(p@),
        None => None,
    }) + spec_set_flags(spec_ja4_set_args(dump_lines.deep_view()));
    for i in 0..n
        invariant
            n == flags@.len(),
            args.deep_view() =~= spec_suricata_command(ctx.config, ctx.no_fixups, true, true, match af_packet_path {
                Some(p) => Some(p@),
                None => None,
            }) + flags.deep_view().take(i as int),
    {
        assert(flags.deep_view()[i as int] == flags@[i as int]@);
        push_string(&mut args, flags[i].clone());
        assert(args.deep_view() =~= spec_suricata_command(ctx.config, ctx.no_fixups, true, true, match af_packet_path {
            Some(p) => Some(p@),
            None => None,
        }) + flags.deep_view().take(i as int + 1));
    }
    assert(flags.deep_view().take(n as int) =~= flags.deep_view());
    assert(args.deep_view() =~= run_args);
    let mut ops: Vec<EngineOp> = Vec::new();
    assert(ops_view(ops@) =~= Seq::<OpView>::empty());
    push_op(&mut ops, EngineOp::QuietRm { name: crate::suricata_container_name().to_owned() });
    push_op(
        &mut ops,
        EngineOp::Run { name: crate::suricata_container_name().to_owned(), args },
    );
    push_op(&mut ops, EngineOp::Exec { args: start_logrotate_args() });
    assert(ops_view(ops@) =~= spec_suricata_start_plan(ctx.config, ctx.no_fixups, match af_packet_path {
        Some(p) => Some(p@),
        None => None,
    }, dump_lines.deep_view()));
    Ok(ops)
}

/// The detached start of the viewer: clear any stale container, then run
/// detached.
pub open spec fn spec_evebox_start_plan(config: Config) -> Seq<OpView> {
    seq![
        OpView::QuietRm { name: crate::spec_evebox_name() },
        OpView::Run {
            name: crate::spec_evebox_name(),
            args: spec_evebox_command(config, true),
        },
    ]
}

/// Plan the detached start of the viewer.
pub fn evebox_start_plan(ctx: &Context) -> (r: Vec<EngineOp>)
    ensures
        ops_view(r@) == spec_evebox_start_plan(ctx.config),
{
    let args = build_evebox_command(ctx, true);
    let mut ops: Vec<EngineOp> = Vec::new();
    assert(ops_view(ops@) =~= Seq::<OpView>::empty());
    push_op(&mut ops, EngineOp::QuietRm { name: crate::evebox_container_name().to_owned() });
    push_op(&mut ops, EngineOp::Run { name: crate::evebox_container_name().to_owned(), args });
    assert(ops_view(ops@) =~= spec_evebox_start_plan(ctx.config));
    ops
}

// --- The foreground supervisor's plans ---------------------------------------

/// Before attaching: force-remove any stale same-named containers for both
/// services, guaranteeing a clean slate.
pub open spec fn spec_foreground_cleanup_plan() -> Seq<OpView> {
    seq![
        OpView::QuietRm { name: crate::spec_suricata_name() },
        OpView::QuietRm { name: crate::spec_evebox_name() },
    ]
}

pub fn foreground_cleanup_plan() -> (r: Vec<EngineOp>)
    ensures
        ops_view(r@) == spec_foreground_cleanup_plan(),
{
    let mut ops: Vec<EngineOp> = Vec::new();
    assert(ops_view(ops@) =~= Seq::<OpView>::empty());
    push_op(&mut ops, EngineOp::QuietRm { name: crate::suricata_container_name().to_owned() });
    push_op(&mut ops, EngineOp::QuietRm { name: crate::evebox_container_name().to_owned() });
    assert(ops_view(ops@) =~= spec_foreground_cleanup_plan());
    ops
}

/// On shutdown: stop the inspection engine with the default signal and the
/// viewer with SIGINT.  The caller then waits for both child processes,
/// whatever the stops reported.
pub open spec fn spec_shutdown_plan() -> Seq<OpView> {
    seq![
        OpView::Stop { name: crate::spec_suricata_name(), signal: None },
        OpView::Stop { name: crate::spec_evebox_name(), signal: Some("SIGINT"@) },
    ]
}

pub fn shutdown_plan() -> (r: Vec<EngineOp>)
    ensures
        ops_view(r@) == spec_shutdown_plan(),
{
    let mut ops: Vec<EngineOp> = Vec::new();
    assert(ops_view(ops@) =~= Seq::<OpView>::empty());
    push_op(
        &mut ops,
        EngineOp::Stop { name: crate::suricata_container_name().to_owned(), signal: None },
    );
    push_op(
        &mut ops,
        EngineOp::Stop {
            name: crate::evebox_container_name().to_owned(),
            signal: Some("SIGINT".to_owned()),
        },
    );
    assert(ops_view(ops@) =~= spec_shutdown_plan());
    ops
}

// --- Updating and removing ---------------------------------------------------

/// Pull the current image of each role.
pub open spec fn spec_update_pull_plan(config: Config) -> Seq<OpView> {
    seq![
        OpView::Pull { image: spec_image_name(config, Container::Suricata) },
        OpView::Pull { image: spec_image_name(config, Container::EveBox) },
    ]
}

pub fn update_pull_plan(ctx: &Context) -> (r: Vec<EngineOp>)
    ensures
        ops_view(r@) == spec_update_pull_plan(ctx.config),
{
    let mut ops: Vec<EngineOp> = Vec::new();
    assert(ops_view(ops@) =~= Seq::<OpView>::empty());
    push_op(&mut ops, EngineOp::Pull { image: ctx.image_name(Container::Suricata) });
    push_op(&mut ops, EngineOp::Pull { image: ctx.image_name(Container::EveBox) });
    assert(ops_view(ops@) =~= spec_update_pull_plan(ctx.config));
    ops
}

/// Whether the whole update succeeded: both pulls and the self-update.
pub fn update_ok(suricata_pulled: bool, evebox_pulled: bool, self_update_ok: bool) -> (r: bool)
    ensures
        r == (suricata_pulled && evebox_pulled && self_update_ok),
{
    suricata_pulled && evebox_pulled && self_update_ok
}

/// Tear everything down: stop and remove both containers, then the four
/// named volumes, then both images.
pub open spec fn spec_remove_plan(config: Config) -> Seq<OpView> {
    seq![
        OpView::Stop { name: crate::spec_suricata_name(), signal: None },
        OpView::Stop { name: crate::spec_evebox_name(), signal: None },
        OpView::QuietRm { name: crate::spec_suricata_name() },
        OpView::QuietRm { name: crate::spec_evebox_name() },
        OpView::VolumeRm { volume: crate::spec_evebox_volume_lib() },
        OpView::VolumeRm { volume: crate::spec_suricata_volume_lib() },
        OpView::VolumeRm { volume: crate::spec_suricata_volume_log() },
        OpView::VolumeRm { volume: crate::spec_suricata_volume_run() },
        OpView::ImageRm { image: spec_image_name(config, Container::Suricata) },
        OpView::ImageRm { image: spec_image_name(config, Container::EveBox) },
    ]
}

pub fn remove_plan(ctx: &Context) -> (r: Vec<EngineOp>)
    ensures
        ops_view(r@) == spec_remove_plan(ctx.config),
{
    let mut ops: Vec<EngineOp> = Vec::new();
    assert(ops_view(ops@) =~= Seq::<OpView>::empty());
    push_op(
        &mut ops,
        EngineOp::Stop { name: crate::suricata_container_name().to_owned(), signal: None },
    );
    push_op(
        &mut ops,
        EngineOp::Stop { name: crate::evebox_container_name().to_owned(), signal: None },
    );
    push_op(&mut ops, EngineOp::QuietRm { name: crate::suricata_container_name().to_owned() });
    push_op(&mut ops, EngineOp::QuietRm { name: crate::evebox_container_name().to_owned() });
    push_op(&mut ops, EngineOp::VolumeRm { volume: crate::evebox_volume_lib().to_owned() });
    push_op(&mut ops, EngineOp::VolumeRm { volume: crate::suricata_volume_lib().to_owned() });
    push_op(&mut ops, EngineOp::VolumeRm { volume: crate::suricata_volume_log().to_owned() });
    push_op(&mut ops, EngineOp::VolumeRm { volume: crate::suricata_volume_run().to_owned() });
    push_op(&mut ops, EngineOp::ImageRm { image: ctx.image_name(Container::Suricata) });
    push_op(&mut ops, EngineOp::ImageRm { image: ctx.image_name(Container::EveBox) });
    assert(ops_view(ops@) =~= spec_remove_plan(ctx.config));
    ops
}

// --- Laws over the engine-namespace model ------------------------------------

/// The two managed names never collide.
pub proof fn lemma_names_distinct()
    ensures
        crate::spec_suricata_name() != crate::spec_evebox_name(),
{
    reveal_strlit("simple-ids-suricata");
    reveal_strlit("simple-ids-evebox");
    assert(crate::spec_suricata_name().len() != crate::spec_evebox_name().len());
}

/// The effect of a three-operation plan, written out.
pub proof fn lemma_world_after_three(w: Set<Seq<char>>, a: OpView, b: OpView, c: OpView)
    ensures
        spec_world_after(w, seq![a, b, c]) == spec_op_touch(
            spec_op_touch(spec_op_touch(w, a), b),
            c,
        ),
        spec_ops_accepted(w, seq![a, b, c]) == (spec_op_accepted(w, a) && spec_op_accepted(
            spec_op_touch(w, a),
            b,
        ) && spec_op_accepted(spec_op_touch(spec_op_touch(w, a), b), c)),
{
    assert(seq![a, b, c].drop_first() =~= seq![b, c]);
    lemma_world_after_two(spec_op_touch(w, a), b, c);
}

/// Start, stop, start on the viewer service, from any engine state: every
/// run is issued against a world free of the name — no start can collide
/// with a stale container — and afterwards the name exists, exactly once,
/// since the engine's namespace keys containers by name.
pub proof fn lemma_evebox_start_stop_start(
    w: Set<Seq<char>>,
    c1: Config,
    c2: Config,
    suricata_exists: bool,
)
    requires
        suricata_exists == spec_world_after(w, spec_evebox_start_plan(c1)).contains(
            crate::spec_suricata_name(),
        ),
    ensures
        ({
            let eb = crate::spec_evebox_name();
            let w1 = spec_world_after(w, spec_evebox_start_plan(c1));
            let stop = spec_stop_plan(suricata_exists, true);
            let w2 = spec_world_after(w1, stop);
            let p2 = spec_evebox_start_plan(c2);
            &&& spec_ops_accepted(w, spec_evebox_start_plan(c1))
            &&& w1.contains(eb)
            &&& spec_ops_accepted(w1, stop)
            &&& !w2.contains(eb)
            &&& spec_ops_accepted(w2, p2)
            &&& spec_world_after(w2, p2).contains(eb)
        }),
{
    lemma_names_distinct();
    let eb = crate::spec_evebox_name();
    let su = crate::spec_suricata_name();
    let p1 = spec_evebox_start_plan(c1);
    lemma_world_after_two(
        w,
        OpView::QuietRm { name: eb },
        OpView::Run { name: eb, args: spec_evebox_command(c1, true) },
    );
    let w1 = spec_world_after(w, p1);
    let eb_half = seq![
        OpView::Stop { name: eb, signal: Some("SIGINT"@) },
        OpView::QuietRm { name: eb },
    ];
    let su_half: Seq<OpView> = if suricata_exists {
        seq![OpView::Stop { name: su, signal: None }, OpView::QuietRm { name: su }]
    } else {
        Seq::empty()
    };
    assert(spec_stop_plan(suricata_exists, true) == eb_half + su_half);
    lemma_world_after_concat(w1, eb_half, su_half);
    lemma_world_after_two(w1, eb_half[0], eb_half[1]);
    let w_mid = spec_world_after(w1, eb_half);
    if suricata_exists {
        lemma_world_after_two(w_mid, su_half[0], su_half[1]);
        assert(w_mid.contains(su));
    }
    let w2 = spec_world_after(w1, spec_stop_plan(suricata_exists, true));
    lemma_world_after_two(
        w2,
        OpView::QuietRm { name: eb },
        OpView::Run { name: eb, args: spec_evebox_command(c2, true) },
    );
}

/// Start, stop, start on the inspection-engine service, from any engine
/// state.  A start is the configuration-dump run followed by the detached
/// run; both runs of both starts are issued against a world free of the
/// name, and afterwards the name exists, exactly once.
pub proof fn lemma_suricata_start_stop_start(
    w: Set<Seq<char>>,
    c1: Config,
    nf1: bool,
    af1: Option<Seq<char>>,
    lines1: Seq<Seq<char>>,
    c2: Config,
    nf2: bool,
    af2: Option<Seq<char>>,
    lines2: Seq<Seq<char>>,
    evebox_exists: bool,
)
    requires
        evebox_exists == spec_world_after(
            w,
            spec_suricata_dump_plan(c1, nf1) + spec_suricata_start_plan(c1, nf1, af1, lines1),
        ).contains(crate::spec_evebox_name()),
    ensures
        ({
            let su = crate::spec_suricata_name();
            let start1 = spec_suricata_dump_plan(c1, nf1) + spec_suricata_start_plan(
                c1,
                nf1,
                af1,
                lines1,
            );
            let start2 = spec_suricata_dump_plan(c2, nf2) + spec_suricata_start_plan(
                c2,
                nf2,
                af2,
                lines2,
            );
            let w1 = spec_world_after(w, start1);
            let stop = spec_stop_plan(true, evebox_exists);
            let w2 = spec_world_after(w1, stop);
            &&& spec_ops_accepted(w, start1)
            &&& w1.contains(su)
            &&& spec_ops_accepted(w1, stop)
            &&& !w2.contains(su)
            &&& spec_ops_accepted(w2, start2)
            &&& spec_world_after(w2, start2).contains(su)
        }),
{
    lemma_names_distinct();
    let eb = crate::spec_evebox_name();
    let su = crate::spec_suricata_name();
    let dump1 = spec_suricata_dump_plan(c1, nf1);
    let run1 = spec_suricata_start_plan(c1, nf1, af1, lines1);
    let dump2 = spec_suricata_dump_plan(c2, nf2);
    let run2 = spec_suricata_start_plan(c2, nf2, af2, lines2);
    lemma_world_after_concat(w, dump1, run1);
    lemma_world_after_two(w, dump1[0], dump1[1]);
    let wa = spec_world_after(w, dump1);
    lemma_world_after_three(wa, run1[0], run1[1], run1[2]);
    let w1 = spec_world_after(w, dump1 + run1);
    assert(w1.contains(su));
    let eb_half: Seq<OpView> = if evebox_exists {
        seq![
            OpView::Stop { name: eb, signal: Some("SIGINT"@) },
            OpView::QuietRm { name: eb },
        ]
    } else {
        Seq::empty()
    };
    let su_half = seq![OpView::Stop { name: su, signal: None }, OpView::QuietRm { name: su }];
    assert(spec_stop_plan(true, evebox_exists) == eb_half + su_half);
    lemma_world_after_concat(w1, eb_half, su_half);
    if evebox_exists {
        lemma_world_after_two(w1, eb_half[0], eb_half[1]);
    }
    let w_mid = spec_world_after(w1, eb_half);
    assert(w_mid.contains(su));
    lemma_world_after_two(w_mid, su_half[0], su_half[1]);
    let w2 = spec_world_after(w1, spec_stop_plan(true, evebox_exists));
    assert(!w2.contains(su));
    lemma_world_after_concat(w2, dump2, run2);
    lemma_world_after_two(w2, dump2[0], dump2[1]);
    let wb = spec_world_after(w2, dump2);
    lemma_world_after_three(wb, run2[0], run2[1], run2[2]);
}

} // verus!
