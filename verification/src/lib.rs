use vstd::prelude::*;

pub mod actions;
pub mod cmd;
pub mod config;
pub mod container;
pub mod context;
pub mod docker;
pub mod json;
pub mod lifecycle;
pub mod logs;
pub mod podman;
pub mod probe;
pub mod selfupdate;
pub mod supervisor;
pub mod system;

verus! {

// Fixed, deployment-unique names for the two managed containers and their
// volumes.  Every component refers to these through the functions below so
// that the contracts can speak of one set of literals.

pub open spec fn spec_suricata_name() -> Seq<char> {
    "simple-ids-suricata"@
}

pub open spec fn spec_evebox_name() -> Seq<char> {
    "simple-ids-evebox"@
}

pub open spec fn spec_suricata_volume_log() -> Seq<char> {
    "simple-ids-suricata-log"@
}

pub open spec fn spec_suricata_volume_lib() -> Seq<char> {
    "simple-ids-suricata-lib"@
}

pub open spec fn spec_suricata_volume_run() -> Seq<char> {
    "simple-ids-suricata-run"@
}

pub open spec fn spec_evebox_volume_lib() -> Seq<char> {
    "simple-ids-evebox-lib"@
}

pub open spec fn spec_default_suricata_image() -> Seq<char> {
    "docker.io/jasonish/suricata:latest"@
}

pub open spec fn spec_default_evebox_image() -> Seq<char> {
    "docker.io/jasonish/evebox:master"@
}

pub fn suricata_container_name() -> (r: &'static str)
    ensures
        r@ == spec_suricata_name(),
{
    "simple-ids-suricata"
}

pub fn evebox_container_name() -> (r: &'static str)
    ensures
        r@ == spec_evebox_name(),
{
    "simple-ids-evebox"
}

pub fn suricata_volume_log() -> (r: &'static str)
    ensures
        r@ == spec_suricata_volume_log(),
{
    "simple-ids-suricata-log"
}

pub fn suricata_volume_lib() -> (r: &'static str)
    ensures
        r@ == spec_suricata_volume_lib(),
{
    "simple-ids-suricata-lib"
}

pub fn suricata_volume_run() -> (r: &'static str)
    ensures
        r@ == spec_suricata_volume_run(),
{
    "simple-ids-suricata-run"
}

pub fn evebox_volume_lib() -> (r: &'static str)
    ensures
        r@ == spec_evebox_volume_lib(),
{
    "simple-ids-evebox-lib"
}

} // verus!
