use vstd::prelude::*;

verus! {

// Checksum-verified, fail-safe replacement of the running executable.  The
// caller does the fetching, reading and writing; every decision about
// whether to fetch, and whether a download may be installed, is taken here.

/// The SHA-256 digest of `b`.
pub uninterp spec fn sha256_of(b: Seq<u8>) -> Seq<u8>;

/// Relies on sha2::Sha256 (through the Digest trait): the 32-byte SHA-256
/// digest, a function of the data alone.
#[verifier::external_body]
pub fn sha256_digest(data: &[u8]) -> (r: Vec<u8>)
    ensures
        r@ == sha256_of(data@),
        r@.len() == 32,
{
    <sha2::Sha256 as sha2::Digest>::digest(data).as_slice().to_vec()
}

/// The lower-case hex digit of a value below sixteen, as an ASCII byte.
pub open spec fn spec_hex_digit(n: u8) -> u8 {
    if n < 10 {
        (48 + n) as u8
    } else {
        (87 + n) as u8
    }
}

/// Lower-case hex encoding: two digits for each byte, in order.
pub open spec fn spec_hex_of(b: Seq<u8>) -> Seq<u8>
    decreases b.len(),
{
    if b.len() == 0 {
        Seq::empty()
    } else {
        seq![spec_hex_digit(b.first() / 16), spec_hex_digit(b.first() % 16)] + spec_hex_of(
            b.drop_first(),
        )
    }
}

/// The checksum this module compares: the digest, hex-encoded in lower case.
pub open spec fn spec_checksum_hex(data: Seq<u8>) -> Seq<u8> {
    spec_hex_of(sha256_of(data))
}

fn hex_digit(n: u8) -> (r: u8)
    requires
        n < 16,
    ensures
        r == spec_hex_digit(n),
{
    if n < 10 {
        48 + n
    } else {
        87 + n
    }
}

/// Hex-encode `data` in lower case.
pub fn to_hex(data: &[u8]) -> (r: Vec<u8>)
    ensures
        r@ == spec_hex_of(data@),
{
    let mut out: Vec<u8> = Vec::new();
    let n = data.len();
    assert(data@.skip(0) =~= data@);
    for i in 0..n
        invariant
            n == data@.len(),
            out@ + spec_hex_of(data@.skip(i as int)) =~= spec_hex_of(data@),
    {
        let b = data[i];
        assert(data@.skip(i as int).len() > 0);
        assert(data@.skip(i as int).first() == b);
        assert(data@.skip(i as int).drop_first() =~= data@.skip(i as int + 1));
        out.push(hex_digit(b / 16));
        out.push(hex_digit(b % 16));
        assert(out@ + spec_hex_of(data@.skip(i as int + 1)) =~= spec_hex_of(data@));
    }
    assert(data@.skip(n as int) =~= Seq::<u8>::empty());
    assert(out@ =~= spec_hex_of(data@));
    out
}

/// The checksum of `data`, as the remote side publishes it: lower-case hex.
pub fn data_checksum(data: &[u8]) -> (r: Vec<u8>)
    ensures
        r@ == spec_checksum_hex(data@),
{
    let digest = sha256_digest(data);
    to_hex(digest.as_slice())
}

/// ASCII whitespace, the only padding a published checksum file carries.
pub open spec fn spec_is_space(c: u8) -> bool {
    c == 32 || c == 9 || c == 10 || c == 13
}

/// ASCII lower-casing of one byte.
pub open spec fn spec_lower(c: u8) -> u8 {
    if 65 <= c && c <= 90 {
        (c + 32) as u8
    } else {
        c
    }
}

pub open spec fn spec_trim_front(s: Seq<u8>) -> Seq<u8>
    decreases s.len(),
{
    if s.len() > 0 && spec_is_space(s.first()) {
        spec_trim_front(s.drop_first())
    } else {
        s
    }
}

pub open spec fn spec_trim_back(s: Seq<u8>) -> Seq<u8>
    decreases s.len(),
{
    if s.len() > 0 && spec_is_space(s.last()) {
        spec_trim_back(s.drop_last())
    } else {
        s
    }
}

/// A published checksum, brought into the form this module compares:
/// surrounding whitespace dropped, then lower-cased, so that the comparison
/// is case-insensitive.
pub open spec fn spec_normalize(s: Seq<u8>) -> Seq<u8> {
    spec_trim_back(spec_trim_front(s)).map_values(|c: u8| spec_lower(c))
}

fn is_space(c: u8) -> (r: bool)
    ensures
        r == spec_is_space(c),
{
    c == 32 || c == 9 || c == 10 || c == 13
}

fn lower(c: u8) -> (r: u8)
    ensures
        r == spec_lower(c),
{
    if 65 <= c && c <= 90 {
        c + 32
    } else {
        c
    }
}

/// Normalize the text of a fetched checksum file.
pub fn normalize_checksum(raw: &[u8]) -> (r: Vec<u8>)
    ensures
        r@ == spec_normalize(raw@),
{
    let n = raw.len();
    let mut start: usize = 0;
    assert(raw@.skip(0) =~= raw@);
    while start < n && is_space(raw[start])
        invariant
            start <= n,
            n == raw@.len(),
            spec_trim_front(raw@.skip(start as int)) == spec_trim_front(raw@),
        decreases n - start,
    {
        assert(raw@.skip(start as int).first() == raw@[start as int]);
        assert(raw@.skip(start as int).drop_first() =~= raw@.skip(start as int + 1));
        start = start + 1;
    }
    assert(spec_trim_front(raw@) == raw@.skip(start as int));
    let mut end: usize = n;
    assert(raw@.subrange(start as int, end as int) =~= raw@.skip(start as int));
    while end > start && is_space(raw[end - 1])
        invariant
            start <= end <= n,
            n == raw@.len(),
            spec_trim_back(raw@.subrange(start as int, end as int)) == spec_trim_back(
                spec_trim_front(raw@),
            ),
        decreases end,
    {
        assert(raw@.subrange(start as int, end as int).last() == raw@[end as int - 1]);
        assert(raw@.subrange(start as int, end as int).drop_last() =~= raw@.subrange(
            start as int,
            end as int - 1,
        ));
        end = end - 1;
    }
    let ghost trimmed = raw@.subrange(start as int, end as int);
    assert(spec_trim_back(spec_trim_front(raw@)) == trimmed);
    let mut out: Vec<u8> = Vec::new();
    let mut i: usize = start;
    while i < end
        invariant
            start <= i <= end <= n,
            n == raw@.len(),
            out@ =~= raw@.subrange(start as int, i as int).map_values(|c: u8| spec_lower(c)),
        decreases end - i,
    {
        out.push(lower(raw[i]));
        assert(raw@.subrange(start as int, i as int + 1) =~= raw@.subrange(
            start as int,
            i as int,
        ).push(raw@[i as int]));
        assert(raw@.subrange(start as int, i as int + 1).map_values(|c: u8| spec_lower(c))
            =~= raw@.subrange(start as int, i as int).map_values(|c: u8| spec_lower(c)).push(
            spec_lower(raw@[i as int]),
        ));
        i = i + 1;
    }
    assert(out@ =~= spec_normalize(raw@));
    out
}

/// Byte-for-byte equality of two buffers.
pub fn bytes_eq(a: &Vec<u8>, b: &Vec<u8>) -> (r: bool)
    ensures
        r == (a@ == b@),
{
    if a.len() != b.len() {
        return false;
    }
    let n = a.len();
    for i in 0..n
        invariant
            n == a@.len() == b@.len(),
            forall|j: int| 0 <= j < i ==> a@[j] == b@[j],
    {
        if a[i] != b[i] {
            return false;
        }
    }
    assert(a@ =~= b@);
    true
}

/// What the update flow does once the remote checksum has been fetched.
#[derive(Debug, Clone, Copy, Eq, PartialEq, Structural)]
pub enum UpdateAdvice {
    /// Running under a development environment: updating in place is unsafe,
    /// skip entirely.
    SkipDevEnv,
    /// The checksum fetch did not answer 200: abort, touching nothing.
    AbortBadStatus,
    /// The running executable already matches the remote build: no-op.
    UpToDate,
    /// Fetch the candidate binary and verify it.
    Download,
}

pub open spec fn spec_update_advice(
    dev_env: bool,
    http_status: u16,
    local: Option<Seq<u8>>,
    remote_raw: Seq<u8>,
) -> UpdateAdvice {
    if dev_env {
        UpdateAdvice::SkipDevEnv
    } else if http_status != 200 {
        UpdateAdvice::AbortBadStatus
    } else {
        match local {
            Some(l) => if l == spec_normalize(remote_raw) {
                UpdateAdvice::UpToDate
            } else {
                UpdateAdvice::Download
            },
            None => UpdateAdvice::Download,
        }
    }
}

/// Decide the update flow.  `local_checksum` is the running executable's
/// checksum where it could be computed; an unknown checksum forces a
/// download attempt rather than blocking one.
pub fn update_advice(
    dev_env: bool,
    http_status: u16,
    local_checksum: &Option<Vec<u8>>,
    remote_raw: &[u8],
) -> (r: UpdateAdvice)
    ensures
        r == spec_update_advice(dev_env, http_status, match local_checksum {
            Some(l) => Some(l@),
            None => None,
        }, remote_raw@),
{
    if dev_env {
        return UpdateAdvice::SkipDevEnv;
    }
    if http_status != 200 {
        return UpdateAdvice::AbortBadStatus;
    }
    match local_checksum {
        Some(local) => {
            let normalized = normalize_checksum(remote_raw);
            if bytes_eq(local, &normalized) {
                UpdateAdvice::UpToDate
            } else {
                UpdateAdvice::Download
            }
        },
        None => UpdateAdvice::Download,
    }
}

/// Whether a completed download may replace the running executable.
#[derive(Debug, Clone, Copy, Eq, PartialEq, Structural)]
pub enum InstallAdvice {
    /// The download's checksum matches the remote-declared one.
    Install,
    /// The checksums differ: abort, leaving the running executable as it is.
    AbortChecksumMismatch,
}

pub open spec fn spec_install_advice(data: Seq<u8>, remote_raw: Seq<u8>) -> InstallAdvice {
    if spec_checksum_hex(data) == spec_normalize(remote_raw) {
        InstallAdvice::Install
    } else {
        InstallAdvice::AbortChecksumMismatch
    }
}

/// Verify a downloaded binary against the remote-declared checksum.
pub fn install_advice(data: &[u8], remote_raw: &[u8]) -> (r: InstallAdvice)
    ensures
        r == spec_install_advice(data@, remote_raw@),
{
    let checksum = data_checksum(data);
    let normalized = normalize_checksum(remote_raw);
    if bytes_eq(&checksum, &normalized) {
        InstallAdvice::Install
    } else {
        InstallAdvice::AbortChecksumMismatch
    }
}

/// When the running executable's checksum equals the remote-declared one,
/// the flow is a successful no-op: nothing is downloaded, so no file is
/// written and the executable is left exactly as it was.
pub proof fn lemma_matching_checksum_is_noop(local: Seq<u8>, remote_raw: Seq<u8>)
    requires
        local == spec_normalize(remote_raw),
    ensures
        spec_update_advice(false, 200, Some(local), remote_raw) == UpdateAdvice::UpToDate,
{
}

/// A download whose checksum does not match the remote-declared one is never
/// installed, whatever else happened: the running executable is not touched.
pub proof fn lemma_mismatch_never_installs(data: Seq<u8>, remote_raw: Seq<u8>)
    requires
        spec_checksum_hex(data) != spec_normalize(remote_raw),
    ensures
        spec_install_advice(data, remote_raw) == InstallAdvice::AbortChecksumMismatch,
{
}

} // verus!
