//! The identity deriver: a pool name made of the host's name and the
//! disk's serial number.
//!
//! The name never fails to come about: whatever cannot be read is replaced
//! by the word `unknown`, and a disk without serial number is named after
//! the start of its UUID.

use crate::command::{capture_command, capture_run, Policy, Slot, Step, StepView};
use crate::text::{
    chars_of, join2, lowercase_of, prefix, spaces_to_underscores, take_chars, text_of, trim,
    trimmed, underscored,
};
use vstd::prelude::*;

verus! {

/// What stands in a pool name for a part that could not be read.
pub const UNKNOWN: &'static str = "unknown";

/// Whether a host name may keep `c`: a lower-case letter, a digit or a
/// hyphen.
pub open spec fn is_slug_char(c: char) -> bool {
    let n = c as u32;
    ||| 0x61 <= n <= 0x7A
    ||| 0x30 <= n <= 0x39
    ||| n == 0x2D
}

/// The characters of `s` that a host name may keep.
pub open spec fn slug_chars(s: Seq<char>) -> Seq<char> {
    s.filter(|c: char| is_slug_char(c))
}

/// The host name that the output of `hostname` stands for: trimmed, in
/// lower case, without any character but `a` to `z`, `0` to `9` and `-`.
pub open spec fn hostname_slug(output: Seq<char>) -> Seq<char> {
    slug_chars(lowercase_of(trimmed(output)))
}

/// The serial number that the outputs of the two disk queries stand for.
///
/// The trimmed serial number with underscores for spaces; where it is
/// empty, `DISK-` and the first eight characters of the trimmed UUID; and
/// nothing where it is empty and the UUID could not be read.
pub open spec fn disk_serial(serial_output: Seq<char>, uuid_output: Option<Seq<char>>) -> Option<
    Seq<char>,
> {
    let serial = trimmed(serial_output);
    if serial.len() > 0 {
        Some(underscored(serial))
    } else {
        match uuid_output {
            Some(uuid) => Some("DISK-"@ + prefix(trimmed(uuid), 8)),
            None => None,
        }
    }
}

/// The host part of the pool name.
pub open spec fn host_part(hostname_output: Option<Seq<char>>) -> Seq<char> {
    match hostname_output {
        Some(output) => hostname_slug(output),
        None => UNKNOWN@,
    }
}

/// The disk part of the pool name.
pub open spec fn disk_part(
    serial_output: Option<Seq<char>>,
    uuid_output: Option<Seq<char>>,
) -> Seq<char> {
    match serial_output {
        Some(output) => match disk_serial(output, uuid_output) {
            Some(serial) => serial,
            None => UNKNOWN@,
        },
        None => UNKNOWN@,
    }
}

/// What a pool is named after: the host and the disk.
#[derive(Debug, PartialEq, Eq)]
pub struct PoolIdentity {
    /// The host's name, in lower case, of letters, digits and hyphens.
    pub hostname: String,
    /// The disk's serial number, or what stands for it.
    pub serial: String,
}

/// The model of a `PoolIdentity`.
pub struct PoolIdentityView {
    pub hostname: Seq<char>,
    pub serial: Seq<char>,
}

impl View for PoolIdentity {
    type V = PoolIdentityView;

    open spec fn view(&self) -> PoolIdentityView {
        PoolIdentityView { hostname: self.hostname@, serial: self.serial@ }
    }
}

/// Whether every character of `s` is one that a host name may keep.
pub open spec fn is_slug(s: Seq<char>) -> bool {
    forall|i: int| 0 <= i < s.len() ==> is_slug_char(#[trigger] s[i])
}

/// The name of the pool of an identity: `rpool-<host>-<disk>`.
pub open spec fn identity_name(identity: PoolIdentityView) -> Seq<char> {
    "rpool-"@ + identity.hostname + "-"@ + identity.serial
}

/// The identity that the three queries stand for; `None` stands for a
/// query that failed or was not made.
pub open spec fn pool_identity(
    hostname_output: Option<Seq<char>>,
    serial_output: Option<Seq<char>>,
    uuid_output: Option<Seq<char>>,
) -> PoolIdentityView {
    PoolIdentityView {
        hostname: host_part(hostname_output),
        serial: disk_part(serial_output, uuid_output),
    }
}

/// The pool name `rpool-<host>-<disk>` for what the three queries gave;
/// `None` stands for a query that failed or was not made.
pub open spec fn pool_name(
    hostname_output: Option<Seq<char>>,
    serial_output: Option<Seq<char>>,
    uuid_output: Option<Seq<char>>,
) -> Seq<char> {
    identity_name(pool_identity(hostname_output, serial_output, uuid_output))
}

/// Whether the disk's UUID has to be asked for: the serial number was read
/// and is empty.
pub open spec fn wants_disk_uuid(serial_output: Option<Seq<char>>) -> bool {
    serial_output matches Some(output) && trimmed(output).len() == 0
}

/// The queries for the host name and for the serial number of `disk`.
/// Their failure is borne.
pub open spec fn identity_probe_steps(disk: Seq<char>) -> Seq<StepView> {
    seq![
        capture_run("hostname"@, Seq::empty(), Policy::Lenient, Slot::Hostname),
        capture_run(
            "lsblk"@,
            seq!["-d"@, "-n"@, "-o"@, "SERIAL"@, disk],
            Policy::Lenient,
            Slot::Serial,
        ),
    ]
}

/// The query for the UUID of `disk`. Its failure is borne.
pub open spec fn uuid_probe_step(disk: Seq<char>) -> StepView {
    capture_run("lsblk"@, seq!["-d"@, "-n"@, "-o"@, "UUID"@, disk], Policy::Lenient, Slot::DiskUuid)
}

/// Keeps the lower-case letters, digits and hyphens of `lowered`.
pub fn slug(lowered: &str) -> (r: String)
    ensures
        r@ == slug_chars(lowered@),
        is_slug(r@),
{
    let chars = chars_of(lowered);
    let mut out = String::new();
    let mut i: usize = 0;
    proof {
        reveal(Seq::filter);
        assert(chars@.take(0) =~= Seq::<char>::empty());
    }
    while i < chars.len()
        invariant
            i <= chars.len(),
            out@ == slug_chars(chars@.take(i as int)),
        decreases chars.len() - i,
    {
        let c = chars[i];
        let n: u32 = c as u32;
        proof {
            reveal(Seq::filter);
            assert(chars@.take(i + 1).drop_last() =~= chars@.take(i as int));
        }
        if (0x61 <= n && n <= 0x7A) || (0x30 <= n && n <= 0x39) || n == 0x2D {
            out.push(c);
        }
        i += 1;
    }
    assert(chars@.take(chars.len() as int) =~= chars@);
    proof {
        lemma_slug_chars_is_slug(lowered@);
    }
    out
}

/// What is kept of a text for a host name holds nothing but letters,
/// digits and hyphens.
pub proof fn lemma_slug_chars_is_slug(s: Seq<char>)
    ensures
        is_slug(slug_chars(s)),
{
    assert forall|i: int| 0 <= i < slug_chars(s).len() implies is_slug_char(
        #[trigger] slug_chars(s)[i],
    ) by {
        s.lemma_filter_pred(|c: char| is_slug_char(c), i);
    }
}

/// The host name that the output of `hostname` stands for.
pub fn get_hostname(output: &str) -> (r: String)
    ensures
        r@ == hostname_slug(output@),
        is_slug(r@),
{
    let name = trim(output);
    let lowered = name.as_str().to_lowercase();
    slug(lowered.as_str())
}

/// The serial number that the outputs of the two disk queries stand for.
pub fn get_disk_serial(serial_output: &str, uuid_output: &Option<String>) -> (r: Option<String>)
    ensures
        text_of(r) == disk_serial(serial_output@, text_of(*uuid_output)),
{
    let serial = trim(serial_output);
    if serial.as_str().unicode_len() > 0 {
        Some(spaces_to_underscores(serial.as_str()))
    } else {
        match uuid_output {
            Some(uuid) => {
                let id = trim(uuid.as_str());
                let head = take_chars(id.as_str(), 8);
                Some(join2("DISK-", head.as_str()))
            },
            None => None,
        }
    }
}

/// Tells whether the disk's UUID has to be asked for.
pub fn needs_disk_uuid(serial_output: &Option<String>) -> (r: bool)
    ensures
        r == wants_disk_uuid(text_of(*serial_output)),
{
    match serial_output {
        Some(output) => trim(output.as_str()).as_str().unicode_len() == 0,
        None => false,
    }
}

impl PoolIdentity {
    /// The host's name holds nothing but lower-case letters, digits and
    /// hyphens.
    pub open spec fn well_formed(&self) -> bool {
        is_slug(self.hostname@)
    }

    /// Derives the identity from what the queries for the host name, the
    /// disk's serial number and the disk's UUID gave. A host name that
    /// could not be read and a serial number that could not be found are
    /// `unknown`.
    pub fn derive(
        hostname_output: &Option<String>,
        serial_output: &Option<String>,
        uuid_output: &Option<String>,
    ) -> (r: PoolIdentity)
        ensures
            r@ == pool_identity(
                text_of(*hostname_output),
                text_of(*serial_output),
                text_of(*uuid_output),
            ),
            r.well_formed(),
    {
        let hostname = match hostname_output {
            Some(output) => get_hostname(output.as_str()),
            None => {
                proof {
                    lemma_unknown_is_slug();
                }
                UNKNOWN.to_owned()
            },
        };
        let serial = match serial_output {
            Some(output) => match get_disk_serial(output.as_str(), uuid_output) {
                Some(serial) => serial,
                None => UNKNOWN.to_owned(),
            },
            None => UNKNOWN.to_owned(),
        };
        PoolIdentity { hostname, serial }
    }

    /// The name of the pool: `rpool-<host>-<disk>`.
    pub fn pool_name(&self) -> (r: String)
        ensures
            r@ == identity_name(self@),
    {
        let mut name = "rpool-".to_owned();
        name.append(self.hostname.as_str());
        name.append("-");
        name.append(self.serial.as_str());
        name
    }
}

/// The word that stands for an unread host name is a host name itself.
proof fn lemma_unknown_is_slug()
    ensures
        is_slug(UNKNOWN@),
{
    reveal_strlit("unknown");
}

/// Derives the pool name from what the queries for the host name, the
/// disk's serial number and the disk's UUID gave.
pub fn generate_pool_name(
    hostname_output: &Option<String>,
    serial_output: &Option<String>,
    uuid_output: &Option<String>,
) -> (r: String)
    ensures
        r@ == pool_name(text_of(*hostname_output), text_of(*serial_output), text_of(*uuid_output)),
{
    PoolIdentity::derive(hostname_output, serial_output, uuid_output).pool_name()
}

/// Plans the queries for the host name and for the serial number of `disk`.
pub fn identity_probes(disk: &str) -> (r: Vec<Step>)
    ensures
        r.deep_view() == identity_probe_steps(disk@),
{
    let mut steps: Vec<Step> = Vec::new();
    steps.push(capture_command("hostname", &[], Policy::Lenient, Slot::Hostname));
    steps.push(
        capture_command("lsblk", &["-d", "-n", "-o", "SERIAL", disk], Policy::Lenient, Slot::Serial),
    );
    assert(steps.deep_view() =~~= identity_probe_steps(disk@));
    steps
}

/// Plans the query for the UUID of `disk`.
pub fn uuid_probe(disk: &str) -> (r: Step)
    ensures
        r@ == uuid_probe_step(disk@),
{
    let step = capture_command(
        "lsblk",
        &["-d", "-n", "-o", "UUID", disk],
        Policy::Lenient,
        Slot::DiskUuid,
    );
    assert(step@ =~~= uuid_probe_step(disk@));
    step
}

/// The identity deriver is deterministic: the pool name depends on nothing
/// but the host's name and the disk's serial number as the queries gave
/// them, so the same host on the same disk is given the same name however
/// often it is asked for. The host's name in it holds nothing but
/// lower-case letters, digits and hyphens, and the name always begins with
/// `rpool-`.
pub proof fn pool_name_is_deterministic(
    hostname_a: Option<Seq<char>>,
    serial_a: Option<Seq<char>>,
    uuid_a: Option<Seq<char>>,
    hostname_b: Option<Seq<char>>,
    serial_b: Option<Seq<char>>,
    uuid_b: Option<Seq<char>>,
)
    requires
        host_part(hostname_a) == host_part(hostname_b),
        disk_part(serial_a, uuid_a) == disk_part(serial_b, uuid_b),
    ensures
        pool_identity(hostname_a, serial_a, uuid_a) == pool_identity(hostname_b, serial_b, uuid_b),
        pool_name(hostname_a, serial_a, uuid_a) == pool_name(hostname_b, serial_b, uuid_b),
        is_slug(host_part(hostname_a)),
        pool_name(hostname_a, serial_a, uuid_a).take(6) == "rpool-"@,
{
    match hostname_a {
        Some(output) => lemma_slug_chars_is_slug(lowercase_of(trimmed(output))),
        None => lemma_unknown_is_slug(),
    }
    reveal_strlit("rpool-");
    assert(pool_name(hostname_a, serial_a, uuid_a).take(6) =~= "rpool-"@);
}

} // verus!
