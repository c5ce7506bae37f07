use vstd::prelude::*;

use crate::container::ContainerManager;
use vstd::string::{StrSliceExecFns, StringExecFns};

verus! {

/// One host network interface, as the caller read it off the system: name,
/// administrative status, and its addresses by family.
pub struct Interface {
    pub name: String,
    pub status: String,
    pub addr4: Vec<String>,
    pub addr6: Vec<String>,
}

/// Character-level equality of a string with a literal.
fn str_eq(a: &String, b: &str) -> (r: bool)
    ensures
        r == (a@ == b@),
{
    a.eq(&b.to_owned())
}

/// An address in the loopback net, recognized by its first octet.
pub open spec fn spec_loopback_prefixed(a: Seq<char>) -> bool {
    a.len() >= 3 && a.subrange(0, 3) == "127"@
}

fn starts_with_127(addr: &String) -> (r: bool)
    ensures
        r == spec_loopback_prefixed(addr@),
{
    let s = addr.as_str();
    if s.unicode_len() >= 3 {
        let prefix = s.substring_char(0, 3);
        prefix.to_owned().eq(&"127".to_owned())
    } else {
        false
    }
}

/// How one interface changes the running choice of an address to advertise:
/// interfaces without an IPv4 address say nothing; the loopback interface
/// fills an empty choice; an interface that is up fills an empty choice and
/// replaces a loopback one.
pub open spec fn spec_pick_step(cur: Option<Seq<char>>, i: Interface) -> Option<Seq<char>> {
    if i.addr4@.len() == 0 {
        cur
    } else if i.name@ == "lo"@ && cur is None {
        Some(i.addr4@[0]@)
    } else if i.status@ == "UP"@ {
        match cur {
            Some(prev) => if spec_loopback_prefixed(prev) {
                Some(i.addr4@[0]@)
            } else {
                cur
            },
            None => Some(i.addr4@[0]@),
        }
    } else {
        cur
    }
}

/// The address the interface list advertises, walking the list in order.
pub open spec fn spec_pick_addr(ifs: Seq<Interface>, cur: Option<Seq<char>>) -> Option<Seq<char>>
    decreases ifs.len(),
{
    if ifs.len() == 0 {
        cur
    } else {
        spec_pick_addr(ifs.drop_first(), spec_pick_step(cur, ifs.first()))
    }
}

/// Choose the first usable address: prefer an interface that is up over the
/// loopback, and a non-loopback address over a loopback one.
pub fn pick_interface_addr(interfaces: &Vec<Interface>) -> (r: Option<String>)
    ensures
        (match r {
            Some(s) => Some(s@),
            None => None,
        }) == spec_pick_addr(interfaces@, None),
{
    let mut cur: Option<String> = None;
    let n = interfaces.len();
    assert(interfaces@.skip(0) =~= interfaces@);
    for idx in 0..n
        invariant
            n == interfaces@.len(),
            spec_pick_addr(interfaces@.skip(idx as int), match &cur {
                Some(s) => Some(s@),
                None => None,
            }) == spec_pick_addr(interfaces@, None),
    {
        let ghost rest = interfaces@.skip(idx as int);
        assert(rest.first() == interfaces@[idx as int]);
        assert(rest.drop_first() =~= interfaces@.skip(idx as int + 1));
        let ghost cur0: Option<Seq<char>> = match &cur {
            Some(s) => Some(s@),
            None => None,
        };
        let interface = &interfaces[idx];
        if interface.addr4.len() == 0 {
        } else if str_eq(&interface.name, "lo") && cur.is_none() {
            cur = Some(interface.addr4[0].clone());
        } else if str_eq(&interface.status, "UP") {
            let replace: bool = match &cur {
                Some(prev) => starts_with_127(prev),
                None => true,
            };
            if replace {
                cur = Some(interface.addr4[0].clone());
            }
        }
        assert((match &cur {
            Some(s) => Some(s@),
            None => None,
        }) == spec_pick_step(cur0, interfaces@[idx as int]));
    }
    assert(interfaces@.skip(n as int) =~= Seq::<Interface>::empty());
    cur
}

/// The URL the viewer answers on: the scheme follows the TLS setting; bound
/// to loopback unless remote access is on; with remote access, the address
/// the interface list advertises, falling back to loopback when the list is
/// unavailable or names nothing.
pub open spec fn spec_evebox_url(
    no_tls: bool,
    allow_remote: bool,
    interfaces: Option<Seq<Interface>>,
) -> Seq<char> {
    let scheme: Seq<char> = if no_tls {
        "http"@
    } else {
        "https"@
    };
    if !allow_remote {
        scheme + "://127.0.0.1:5636"@
    } else {
        match interfaces {
            None => scheme + "://127.0.0.1:5636"@,
            Some(ifs) => scheme + "://"@ + (match spec_pick_addr(ifs, None) {
                Some(a) => a,
                None => "127.0.0.1"@,
            }) + ":5636"@,
        }
    }
}

/// Guess the viewer's URL.  `interfaces` is the host's interface list where
/// the caller could read it.
pub fn guess_evebox_url(
    no_tls: bool,
    allow_remote: bool,
    interfaces: Option<&Vec<Interface>>,
) -> (r: String)
    ensures
        r@ == spec_evebox_url(no_tls, allow_remote, match interfaces {
            Some(v) => Some(v@),
            None => None,
        }),
{
    let scheme: &str = if no_tls {
        "http"
    } else {
        "https"
    };
    if !allow_remote {
        let url = scheme.to_owned().concat("://127.0.0.1:5636");
        assert(url@ =~= spec_evebox_url(no_tls, allow_remote, match interfaces {
            Some(v) => Some(v@),
            None => None,
        }));
        return url;
    }
    match interfaces {
        None => {
            let url = scheme.to_owned().concat("://127.0.0.1:5636");
            assert(url@ =~= spec_evebox_url(no_tls, allow_remote, None));
            url
        },
        Some(ifs) => {
            let addr = match pick_interface_addr(ifs) {
                Some(a) => a,
                None => "127.0.0.1".to_owned(),
            };
            let url = scheme.to_owned().concat("://").concat(addr.as_str()).concat(":5636");
            assert(url@ =~= spec_evebox_url(no_tls, allow_remote, Some(ifs@)));
            url
        },
    }
}

/// The startup gate on privilege: Podman is driven as root unless the caller
/// explicitly waives that.
pub fn must_refuse_unprivileged(manager: &ContainerManager, uid: u32, no_root: bool) -> (r: bool)
    ensures
        r == (manager is Podman && uid != 0 && !no_root),
{
    manager.is_podman() && uid != 0 && !no_root
}

// --- Reading the host's interface listing -------------------------------------
//
// The caller runs the system's address-listing command and splits each line
// into whitespace-separated fields; one line describes one interface: its
// name, its status, then its addresses, each optionally suffixed with a
// prefix length after a slash.

/// The part of an address before its prefix length: everything up to the
/// first slash, or the whole text when there is none.
pub open spec fn spec_strip_prefix_len(a: Seq<char>) -> Seq<char>
    decreases a.len(),
{
    if a.len() == 0 {
        Seq::empty()
    } else if a.first() == '/' {
        Seq::empty()
    } else {
        seq![a.first()] + spec_strip_prefix_len(a.drop_first())
    }
}

/// An address with a dot is taken as IPv4, anything else as IPv6.
pub open spec fn spec_has_dot(a: Seq<char>) -> bool {
    exists|i: int| 0 <= i < a.len() && a[i] == '.'
}

/// The stripped addresses of one family among the address fields, in order.
pub open spec fn spec_family_addrs(fields: Seq<Seq<char>>, v4: bool) -> Seq<Seq<char>>
    decreases fields.len(),
{
    if fields.len() == 0 {
        Seq::empty()
    } else {
        let stripped = spec_strip_prefix_len(fields.first());
        (if spec_has_dot(stripped) == v4 {
            seq![stripped]
        } else {
            Seq::empty()
        }) + spec_family_addrs(fields.drop_first(), v4)
    }
}

proof fn lemma_strip_prefix_len_is_subrange(a: Seq<char>, i: int)
    requires
        0 <= i <= a.len(),
        forall|j: int| 0 <= j < i ==> a[j] != '/',
        i == a.len() || a[i] == '/',
    ensures
        spec_strip_prefix_len(a) == a.subrange(0, i),
    decreases i,
{
    if a.len() == 0 {
        assert(spec_strip_prefix_len(a) =~= a.subrange(0, i));
    } else if i == 0 {
        assert(spec_strip_prefix_len(a) =~= a.subrange(0, 0));
    } else {
        assert(a.drop_first() =~= a.subrange(1, a.len() as int));
        lemma_strip_prefix_len_is_subrange(a.drop_first(), i - 1);
        assert(spec_strip_prefix_len(a) =~= a.subrange(0, i));
    }
}

/// Strip the prefix length off one address field.
fn strip_prefix_len(addr: &str) -> (r: String)
    ensures
        r@ == spec_strip_prefix_len(addr@),
{
    let n = addr.unicode_len();
    let mut i: usize = 0;
    while i < n && addr.get_char(i) != '/'
        invariant
            i <= n,
            n == addr@.len(),
            forall|j: int| 0 <= j < i ==> addr@[j] != '/',
        decreases n - i,
    {
        i = i + 1;
    }
    proof {
        lemma_strip_prefix_len_is_subrange(addr@, i as int);
    }
    addr.substring_char(0, i).to_owned()
}

/// Whether the address text carries a dot.
fn has_dot(s: &str) -> (r: bool)
    ensures
        r == spec_has_dot(s@),
{
    let n = s.unicode_len();
    for i in 0..n
        invariant
            n == s@.len(),
            forall|j: int| 0 <= j < i ==> s@[j] != '.',
    {
        if s.get_char(i) == '.' {
            assert(s@[i as int] == '.');
            assert(spec_has_dot(s@));
            return true;
        }
    }
    assert(!spec_has_dot(s@));
    false
}

/// Read one interface off the whitespace-separated fields of one listing
/// line: the name, the status, then the addresses sorted into families.  A
/// line with fewer than two fields describes no interface.
pub fn parse_interface_fields(fields: &Vec<String>) -> (r: Option<Interface>)
    ensures
        fields.deep_view().len() < 2 <==> r is None,
        r matches Some(i) ==> {
            &&& i.name@ == fields.deep_view()[0]
            &&& i.status@ == fields.deep_view()[1]
            &&& i.addr4.deep_view() == spec_family_addrs(fields.deep_view().skip(2), true)
            &&& i.addr6.deep_view() == spec_family_addrs(fields.deep_view().skip(2), false)
        },
{
    if fields.len() < 2 {
        return None;
    }
    let mut interface = Interface {
        name: fields[0].clone(),
        status: fields[1].clone(),
        addr4: Vec::new(),
        addr6: Vec::new(),
    };
    let n = fields.len();
    let ghost rest0 = fields.deep_view().skip(2);
    assert(rest0.skip(0) =~= rest0);
    assert(interface.addr4.deep_view() =~= Seq::<Seq<char>>::empty());
    assert(interface.addr6.deep_view() =~= Seq::<Seq<char>>::empty());
    let mut k: usize = 2;
    while k < n
        invariant
            2 <= k <= n,
            n == fields@.len(),
            rest0 == fields.deep_view().skip(2),
            interface.addr4.deep_view() + spec_family_addrs(
                fields.deep_view().skip(k as int),
                true,
            ) =~= spec_family_addrs(rest0, true),
            interface.addr6.deep_view() + spec_family_addrs(
                fields.deep_view().skip(k as int),
                false,
            ) =~= spec_family_addrs(rest0, false),
            interface.name@ == fields.deep_view()[0],
            interface.status@ == fields.deep_view()[1],
        decreases n - k,
    {
        let ghost tail = fields.deep_view().skip(k as int);
        assert(tail.first() == fields.deep_view()[k as int]);
        assert(tail.drop_first() =~= fields.deep_view().skip(k as int + 1));
        assert(fields.deep_view()[k as int] == fields@[k as int]@);
        let stripped = strip_prefix_len(fields[k].as_str());
        if has_dot(stripped.as_str()) {
            crate::cmd::push_string(&mut interface.addr4, stripped);
        } else {
            crate::cmd::push_string(&mut interface.addr6, stripped);
        }
        assert(interface.addr4.deep_view() + spec_family_addrs(
            fields.deep_view().skip(k as int + 1),
            true,
        ) =~= spec_family_addrs(rest0, true));
        assert(interface.addr6.deep_view() + spec_family_addrs(
            fields.deep_view().skip(k as int + 1),
            false,
        ) =~= spec_family_addrs(rest0, false));
        k = k + 1;
    }
    assert(fields.deep_view().skip(n as int) =~= Seq::<Seq<char>>::empty());
    assert(interface.addr4.deep_view() =~= spec_family_addrs(rest0, true));
    assert(interface.addr6.deep_view() =~= spec_family_addrs(rest0, false));
    Some(interface)
}

} // verus!
