use vstd::prelude::*;

use crate::cmd::spec_run_command;
use crate::container::{spec_image_name, spec_suricata_volumes, Container, SuricataContainer};
use vstd::string::StringExecFns;

verus! {

// Rule-set actions.  Retrieval and bookkeeping are delegated to the package
// manager inside the inspection-engine container; what is decided here is
// the exact invocation each action issues.

/// Force one immediate log rotation inside the running container.
pub open spec fn spec_force_logrotate_args() -> Seq<Seq<char>> {
    seq![
        "exec"@,
        crate::spec_suricata_name(),
        "logrotate"@,
        "-fv"@,
        "/etc/logrotate.d/suricata"@,
    ]
}

pub fn force_suricata_logrotate(container: &SuricataContainer) -> (r: Vec<String>)
    ensures
        r.deep_view() == spec_force_logrotate_args(),
{
    let _ = container;
    let mut out: Vec<String> = Vec::new();
    out.push("exec".to_owned());
    out.push(crate::suricata_container_name().to_owned());
    out.push("logrotate".to_owned());
    out.push("-fv".to_owned());
    out.push("/etc/logrotate.d/suricata".to_owned());
    assert(out.deep_view() =~= spec_force_logrotate_args());
    out
}

/// An ad-hoc run of the inspection-engine image with its standing volumes:
/// what `SuricataContainer::run` builds, with the given trailing arguments.
pub open spec fn spec_suricata_adhoc_run(
    config: crate::config::Config,
    rm: bool,
    it: bool,
    extra_volumes: Seq<Seq<char>>,
    args: Seq<Seq<char>>,
) -> Seq<Seq<char>> {
    spec_run_command(
        it,
        rm,
        None,
        spec_suricata_volumes() + extra_volumes,
        spec_image_name(config, Container::Suricata),
        args,
    )
}

/// The invocation that reads the rule-index file cached inside the image.
pub fn load_rule_index(container: &SuricataContainer) -> (r: Vec<String>)
    ensures
        r.deep_view() == spec_suricata_adhoc_run(
            container.context.config,
            true,
            false,
            Seq::empty(),
            seq!["cat"@, "/var/lib/suricata/update/cache/index.yaml"@],
        ),
{
    let mut builder = container.run();
    builder.rm();
    builder.args(&["cat", "/var/lib/suricata/update/cache/index.yaml"]);
    let r = builder.build();
    assert(spec_suricata_volumes() + Seq::<Seq<char>>::empty() =~= spec_suricata_volumes());
    assert(builder.spec_build() =~= spec_suricata_adhoc_run(
        container.context.config,
        true,
        false,
        Seq::empty(),
        seq!["cat"@, "/var/lib/suricata/update/cache/index.yaml"@],
    ));
    r
}

/// The invocation that lists the enabled rule sources.
pub fn get_enabled_ruleset(container: &SuricataContainer) -> (r: Vec<String>)
    ensures
        r.deep_view() == spec_suricata_adhoc_run(
            container.context.config,
            false,
            false,
            Seq::empty(),
            seq!["suricata-update"@, "list-sources"@, "--enabled"@],
        ),
{
    let mut builder = container.run();
    builder.args(&["suricata-update", "list-sources", "--enabled"]);
    let r = builder.build();
    assert(spec_suricata_volumes() + Seq::<Seq<char>>::empty() =~= spec_suricata_volumes());
    assert(builder.spec_build() =~= spec_suricata_adhoc_run(
        container.context.config,
        false,
        false,
        Seq::empty(),
        seq!["suricata-update"@, "list-sources"@, "--enabled"@],
    ));
    r
}

/// The invocation that enables one rule source.
pub fn enable_ruleset(container: &SuricataContainer, ruleset: &str) -> (r: Vec<String>)
    ensures
        r.deep_view() == spec_suricata_adhoc_run(
            container.context.config,
            false,
            false,
            Seq::empty(),
            seq!["suricata-update"@, "enable-source"@, ruleset@],
        ),
{
    let mut builder = container.run();
    builder.arg("suricata-update");
    builder.arg("enable-source");
    builder.arg(ruleset);
    let r = builder.build();
    assert(spec_suricata_volumes() + Seq::<Seq<char>>::empty() =~= spec_suricata_volumes());
    assert(builder.args.deep_view() =~= seq!["suricata-update"@, "enable-source"@, ruleset@]);
    assert(builder.spec_build() =~= spec_suricata_adhoc_run(
        container.context.config,
        false,
        false,
        Seq::empty(),
        seq!["suricata-update"@, "enable-source"@, ruleset@],
    ));
    r
}

/// The invocation that disables one rule source.
pub fn disable_ruleset(container: &SuricataContainer, ruleset: &str) -> (r: Vec<String>)
    ensures
        r.deep_view() == spec_suricata_adhoc_run(
            container.context.config,
            false,
            false,
            Seq::empty(),
            seq!["suricata-update"@, "disable-source"@, ruleset@],
        ),
{
    let mut builder = container.run();
    builder.arg("suricata-update");
    builder.arg("disable-source");
    builder.arg(ruleset);
    let r = builder.build();
    assert(spec_suricata_volumes() + Seq::<Seq<char>>::empty() =~= spec_suricata_volumes());
    assert(builder.args.deep_view() =~= seq!["suricata-update"@, "disable-source"@, ruleset@]);
    assert(builder.spec_build() =~= spec_suricata_adhoc_run(
        container.context.config,
        false,
        false,
        Seq::empty(),
        seq!["suricata-update"@, "disable-source"@, ruleset@],
    ));
    r
}

/// The bind mounts a rule update carries: each of the three override files
/// that exists in the working directory, mounted over its place inside the
/// container, in fixed order.
pub open spec fn spec_update_rules_volumes(
    cwd: Seq<char>,
    enable_conf: bool,
    disable_conf: bool,
    modify_conf: bool,
) -> Seq<Seq<char>> {
    (if enable_conf {
        seq![cwd + "/enable.conf:/etc/suricata/enable.conf"@]
    } else {
        Seq::empty()
    }) + (if disable_conf {
        seq![cwd + "/disable.conf:/etc/suricata/disable.conf"@]
    } else {
        Seq::empty()
    }) + (if modify_conf {
        seq![cwd + "/modify.conf:/etc/suricata/modify.conf"@]
    } else {
        Seq::empty()
    })
}

/// Materialize the rule-update bind mounts; the caller says which override
/// files exist in the working directory `cwd`.
pub fn update_rules_volumes(
    cwd: &str,
    enable_conf: bool,
    disable_conf: bool,
    modify_conf: bool,
) -> (r: Vec<String>)
    ensures
        r.deep_view() == spec_update_rules_volumes(cwd@, enable_conf, disable_conf, modify_conf),
{
    let mut out: Vec<String> = Vec::new();
    if enable_conf {
        out.push(cwd.to_owned().concat("/enable.conf:/etc/suricata/enable.conf"));
    }
    if disable_conf {
        out.push(cwd.to_owned().concat("/disable.conf:/etc/suricata/disable.conf"));
    }
    if modify_conf {
        out.push(cwd.to_owned().concat("/modify.conf:/etc/suricata/modify.conf"));
    }
    assert(out.deep_view() =~= spec_update_rules_volumes(
        cwd@,
        enable_conf,
        disable_conf,
        modify_conf,
    ));
    out
}

/// The first invocation of a rule update: refresh the source index.
pub fn update_sources_invocation(container: &SuricataContainer) -> (r: Vec<String>)
    ensures
        r.deep_view() == spec_suricata_adhoc_run(
            container.context.config,
            true,
            true,
            Seq::empty(),
            seq!["suricata-update"@, "update-sources"@],
        ),
{
    let mut builder = container.run();
    builder.rm();
    builder.it();
    builder.args(&["suricata-update", "update-sources"]);
    let r = builder.build();
    assert(spec_suricata_volumes() + Seq::<Seq<char>>::empty() =~= spec_suricata_volumes());
    assert(builder.spec_build() =~= spec_suricata_adhoc_run(
        container.context.config,
        true,
        true,
        Seq::empty(),
        seq!["suricata-update"@, "update-sources"@],
    ));
    r
}

/// The second invocation of a rule update: run the update itself, with the
/// override files mounted in.
pub fn update_rules_invocation(container: &SuricataContainer, volumes: &Vec<String>) -> (r: Vec<
    String,
>)
    ensures
        r.deep_view() == spec_suricata_adhoc_run(
            container.context.config,
            true,
            true,
            volumes.deep_view(),
            seq!["suricata-update"@],
        ),
{
    let mut builder = container.run();
    builder.rm();
    builder.it();
    builder.volumes_vec(volumes);
    builder.args(&["suricata-update"]);
    let r = builder.build();
    assert(builder.args.deep_view() =~= seq!["suricata-update"@]);
    assert(builder.spec_build() =~= spec_suricata_adhoc_run(
        container.context.config,
        true,
        true,
        volumes.deep_view(),
        seq!["suricata-update"@],
    ));
    r
}

/// The two invocations that reset the viewer's admin account: drop the user,
/// then add it back (the engine prompts for the new password).
pub open spec fn spec_reset_password_args(image: Seq<char>) -> (Seq<Seq<char>>, Seq<Seq<char>>) {
    (
        seq![
            "run"@,
            "-v"@,
            crate::spec_suricata_volume_log() + ":/var/log/suricata"@,
            "-v"@,
            crate::spec_evebox_volume_lib() + ":/var/lib/evebox"@,
            "--rm"@,
            "-it"@,
            image,
            "evebox"@,
            "config"@,
            "users"@,
            "rm"@,
            "admin"@,
        ],
        seq![
            "run"@,
            "-v"@,
            crate::spec_suricata_volume_log() + ":/var/log/suricata"@,
            "-v"@,
            crate::spec_evebox_volume_lib() + ":/var/lib/evebox"@,
            "--rm"@,
            "-it"@,
            image,
            "evebox"@,
            "config"@,
            "users"@,
            "add"@,
            "--username"@,
            "admin"@,
        ],
    )
}

pub fn reset_password(image: &str) -> (r: (Vec<String>, Vec<String>))
    ensures
        r.0.deep_view() == spec_reset_password_args(image@).0,
        r.1.deep_view() == spec_reset_password_args(image@).1,
{
    let mut first: Vec<String> = Vec::new();
    first.push("run".to_owned());
    first.push("-v".to_owned());
    first.push(crate::suricata_volume_log().to_owned().concat(":/var/log/suricata"));
    first.push("-v".to_owned());
    first.push(crate::evebox_volume_lib().to_owned().concat(":/var/lib/evebox"));
    first.push("--rm".to_owned());
    first.push("-it".to_owned());
    first.push(image.to_owned());
    first.push("evebox".to_owned());
    first.push("config".to_owned());
    first.push("users".to_owned());
    first.push("rm".to_owned());
    first.push("admin".to_owned());
    assert(first.deep_view() =~= spec_reset_password_args(image@).0);
    let mut second: Vec<String> = Vec::new();
    second.push("run".to_owned());
    second.push("-v".to_owned());
    second.push(crate::suricata_volume_log().to_owned().concat(":/var/log/suricata"));
    second.push("-v".to_owned());
    second.push(crate::evebox_volume_lib().to_owned().concat(":/var/lib/evebox"));
    second.push("--rm".to_owned());
    second.push("-it".to_owned());
    second.push(image.to_owned());
    second.push("evebox".to_owned());
    second.push("config".to_owned());
    second.push("users".to_owned());
    second.push("add".to_owned());
    second.push("--username".to_owned());
    second.push("admin".to_owned());
    assert(second.deep_view() =~= spec_reset_password_args(image@).1);
    (first, second)
}

} // verus!
