use vstd::prelude::*;

use vstd::string::StringExecFns;

verus! {

// Viewing the containers' logs: which services are selected and what the
// engine is asked.

/// Arguments of one log query: timestamps always, following on request.
pub open spec fn spec_logs_args(follow: bool, name: Seq<char>) -> Seq<Seq<char>> {
    seq!["logs"@, "--timestamps"@] + (if follow {
        seq!["--follow"@]
    } else {
        Seq::empty()
    }) + seq![name]
}

pub fn logs_args(follow: bool, name: &str) -> (r: Vec<String>)
    ensures
        r.deep_view() == spec_logs_args(follow, name@),
{
    let mut out: Vec<String> = Vec::new();
    out.push("logs".to_owned());
    out.push("--timestamps".to_owned());
    if follow {
        out.push("--follow".to_owned());
    }
    out.push(name.to_owned());
    assert(out.deep_view() =~= spec_logs_args(follow, name@));
    out
}

/// Whether a service's logs are wanted: an empty selection means all
/// services, otherwise the service must be named.
pub fn wants_service(services: &Vec<String>, service: &str) -> (r: bool)
    ensures
        r == (services.deep_view().len() == 0 || services.deep_view().contains(service@)),
{
    let n = services.len();
    if n == 0 {
        return true;
    }
    let wanted = service.to_owned();
    for i in 0..n
        invariant
            n == services@.len(),
            wanted@ == service@,
            forall|j: int| 0 <= j < i ==> services.deep_view()[j] != service@,
    {
        assert(services.deep_view()[i as int] == services@[i as int]@);
        if services[i].eq(&wanted) {
            assert(services.deep_view().contains(service@));
            return true;
        }
    }
    assert(!services.deep_view().contains(service@));
    false
}

/// The prefix of a relayed log line: the container's name and which stream
/// the line arrived on.
pub fn stream_label(name: &str, stream: &str) -> (r: String)
    ensures
        r@ == name@ + " | "@ + stream@,
{
    let mut out = name.to_owned();
    out.append(" | ");
    out.append(stream);
    out
}

} // verus!
