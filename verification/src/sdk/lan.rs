//! Direct-LAN discovery and transport.
//!
//! Hosts advertise themselves on the local network with mDNS under
//! [`SERVICE_TYPE`], carrying their friendly name, identity public key, and
//! protocol version in TXT records. Clients collect those hosts, then open a
//! connection and run the [`super::direct`] handshake over it to establish an
//! end-to-end encrypted [`SealedChannel`].
//!
//! On top of the sealed channel sits a small request/response protocol
//! ([`LanRequest`] / [`LanResponse`]). The relay is never involved.

use vstd::prelude::*;
use vstd::string::*;

use super::error;
use super::error::{crypto_error, SdkError, SdkErrorView, SdkResult};
use crate::crypto::identity::VerifyingKey;
use crate::crypto::primitives;
use crate::crypto::sealed;
use crate::crypto::sealed::SealedChannel;
use crate::encoding;
use crate::encoding::{base64_decode, decode_fixed_32};
use crate::framing;
use crate::text;
use crate::text::{chars_of, decimal, find_char, joined, parse_number, text_between, trim};

verus! {

broadcast use vstd::array::group_array_axioms;

/// mDNS service type RivetLink hosts advertise under.
pub const SERVICE_TYPE: &'static str = "_rivetlink._tcp.local.";

/// TXT record that holds the friendly name.
pub const TXT_NAME: &'static str = "name";

/// TXT record that holds the identity public key.
pub const TXT_PUBKEY: &'static str = "pk";

/// TXT record that holds the protocol version.
pub const TXT_VERSION: &'static str = "v";

/// Direct-LAN wire protocol version, advertised in mDNS.
pub const PROTOCOL_VERSION: u16 = 1;

/// Upper bound on a single sealed application frame: 32 MiB.
pub const MAX_SEALED_FRAME: usize = 33554432;

/// A RivetLink host found on the local network.
#[derive(Debug)]
pub struct LanDevice {
    /// Friendly instance name the host advertised.
    pub name: String,
    /// A reachable IP address (IPv4 preferred).
    pub address: String,
    /// TCP port the host listens on.
    pub port: u16,
    /// Host identity public key (base64), if advertised: lets the client pin
    /// the host so a later key-mode connection cannot be intercepted.
    pub public_key: Option<String>,
    /// Protocol version the host advertised, if any.
    pub protocol_version: Option<u16>,
}

/// Whether a text is base64 of an identity key.
pub open spec fn is_identity(text: Seq<char>) -> bool {
    encoding::is_fixed(text, 32) && primitives::ed25519_is_key(encoding::fixed_bytes(text))
}

impl LanDevice {
    /// The advertised host identity as a verifying key, if present and valid.
    pub fn host_identity(&self) -> (key: Option<VerifyingKey>)
        ensures
            key is Some == (self.public_key matches Some(text) && is_identity(text@)),
            key matches Some(k) ==> k@ == encoding::fixed_bytes(self.public_key->0@),
    {
        match &self.public_key {
            Some(text) => match decode_fixed_32(text.as_str()) {
                Ok(raw) => match VerifyingKey::from_bytes(&raw) {
                    Ok(key) => Some(key),
                    Err(_) => None,
                },
                Err(_) => None,
            },
            None => None,
        }
    }
}

/// An address that a service was resolved to.
#[derive(Debug)]
pub struct ServiceAddress {
    pub text: String,
    pub is_ipv4: bool,
}

/// What the network says of an advertised service.
#[derive(Debug)]
pub struct ServiceRecord {
    /// The service's full mDNS name.
    pub fullname: String,
    pub addresses: Vec<ServiceAddress>,
    pub port: u16,
    /// The TXT record [`TXT_NAME`].
    pub name: Option<String>,
    /// The TXT record [`TXT_PUBKEY`].
    pub public_key: Option<String>,
    /// The TXT record [`TXT_VERSION`].
    pub version: Option<String>,
}

/// The first IPv4 address from `from` on.
pub open spec fn first_ipv4(addresses: Seq<ServiceAddress>, from: int) -> Option<int>
    decreases addresses.len() - from,
{
    if from < 0 || from >= addresses.len() {
        None
    } else if addresses[from].is_ipv4 {
        Some(from)
    } else {
        first_ipv4(addresses, from + 1)
    }
}

/// The address to use: the first IPv4 address, else the first one.
pub open spec fn preferred(addresses: Seq<ServiceAddress>) -> Option<int> {
    if first_ipv4(addresses, 0) is Some {
        first_ipv4(addresses, 0)
    } else if addresses.len() > 0 {
        Some(0)
    } else {
        None
    }
}

/// The friendly name of a service: the TXT record, else the first label of its
/// full name.
pub open spec fn friendly_name(record: ServiceRecord) -> Seq<char> {
    match record.name {
        Some(name) => name@,
        None => record.fullname@.take(text::first_at(record.fullname@, '.') as int),
    }
}

/// Whether two optional texts are the same.
pub open spec fn same_optional(a: Option<String>, b: Option<String>) -> bool {
    match (a, b) {
        (Some(x), Some(y)) => x@ == y@,
        (None, None) => true,
        _ => false,
    }
}

/// Whether `device` is what `record` describes.
pub open spec fn describes(record: ServiceRecord, device: LanDevice) -> bool {
    &&& preferred(record.addresses@) matches Some(i)
    &&& device.address@ == record.addresses@[i].text@
    &&& device.name@ == friendly_name(record)
    &&& device.port == record.port
    &&& same_optional(device.public_key, record.public_key)
    &&& (match device.protocol_version {
        Some(v) => record.version is Some && text::parsed_number(record.version->0@, u16::MAX as nat)
            == Some(v as nat),
        None => record.version is None || text::parsed_number(
            record.version->0@,
            u16::MAX as nat,
        ) is None,
    })
}

/// A copy of an optional text.
fn copy_optional(text: &Option<String>) -> (copy: Option<String>)
    ensures
        same_optional(copy, *text),
{
    match text {
        Some(t) => Some(t.as_str().to_owned()),
        None => None,
    }
}

/// The device that a resolved service stands for; `None` if it has no address.
pub fn device_from_info(record: &ServiceRecord) -> (device: Option<LanDevice>)
    ensures
        device is Some == (record.addresses@.len() > 0),
        device matches Some(d) ==> describes(*record, d),
{
    if record.addresses.len() == 0 {
        return None;
    }
    let mut at: usize = 0;
    while at < record.addresses.len() && !record.addresses[at].is_ipv4
        invariant
            at <= record.addresses@.len(),
            first_ipv4(record.addresses@, 0) == first_ipv4(record.addresses@, at as int),
        decreases record.addresses@.len() - at,
    {
        at = at + 1;
    }
    if at == record.addresses.len() {
        at = 0;
    }
    let address = record.addresses[at].text.as_str().to_owned();
    let name = match &record.name {
        Some(name) => name.as_str().to_owned(),
        None => {
            let full = chars_of(record.fullname.as_str());
            let dot: usize = find_char(&full, '.');
            proof {
                assert(full@.subrange(0, dot as int) =~= full@.take(dot as int));
            }
            text_between(&full, 0, dot)
        },
    };
    let protocol_version = match &record.version {
        Some(version) => match parse_number(version.as_str(), 65535) {
            Some(v) => Some(v as u16),
            None => None,
        },
        None => None,
    };
    Some(
        LanDevice {
            name,
            address,
            port: record.port,
            public_key: copy_optional(&record.public_key),
            protocol_version,
        },
    )
}

/// The hosts found so far, one for each full mDNS name, in the order of these
/// names.
pub struct DiscoveredHosts {
    entries: Vec<(String, LanDevice)>,
}

/// Whether the names of `entries` ascend.
spec fn ascending(entries: Seq<(String, LanDevice)>) -> bool {
    forall|i: int, j: int|
        0 <= i < j < entries.len() ==> text::precedes(
            #[trigger] entries[i].0@,
            #[trigger] entries[j].0@,
        )
}

/// What `entries` maps each name to.
spec fn entries_map(entries: Seq<(String, LanDevice)>) -> Map<Seq<char>, LanDevice> {
    Map::new(
        |name: Seq<char>| exists|i: int| 0 <= i < entries.len() && #[trigger] entries[i].0@ == name,
        |name: Seq<char>|
            entries[choose|i: int| 0 <= i < entries.len() && #[trigger] entries[i].0@ == name].1,
    )
}

proof fn entry_is_mapped(entries: Seq<(String, LanDevice)>, at: int)
    requires
        ascending(entries),
        0 <= at < entries.len(),
    ensures
        entries_map(entries).contains_key(entries[at].0@),
        entries_map(entries)[entries[at].0@] == entries[at].1,
{
    let name = entries[at].0@;
    let i = choose|i: int| 0 <= i < entries.len() && #[trigger] entries[i].0@ == name;
    text::precedes_is_strict(name);
    if i < at {
        assert(text::precedes(entries[i].0@, entries[at].0@));
    } else if at < i {
        assert(text::precedes(entries[at].0@, entries[i].0@));
    }
}

impl View for DiscoveredHosts {
    type V = Map<Seq<char>, LanDevice>;

    closed spec fn view(&self) -> Map<Seq<char>, LanDevice> {
        entries_map(self.entries@)
    }
}

/// Whether `devices` are the values of `found` in the order of its keys.
pub open spec fn lists(
    names: Seq<Seq<char>>,
    devices: Seq<LanDevice>,
    found: Map<Seq<char>, LanDevice>,
) -> bool {
    &&& names.len() == devices.len()
    &&& forall|i: int, j: int|
        0 <= i < j < names.len() ==> text::precedes(#[trigger] names[i], #[trigger] names[j])
    &&& forall|name: Seq<char>| #[trigger]
        found.contains_key(name) <==> names.contains(name)
    &&& forall|i: int| 0 <= i < names.len() ==> devices[i] == found[#[trigger] names[i]]
}

impl DiscoveredHosts {
    #[verifier::type_invariant]
    spec fn ordered(self) -> bool {
        ascending(self.entries@)
    }

    /// No host yet.
    pub fn new() -> (hosts: Self)
        ensures
            hosts@ == Map::<Seq<char>, LanDevice>::empty(),
    {
        let hosts = DiscoveredHosts { entries: Vec::new() };
        assert(hosts@ =~= Map::<Seq<char>, LanDevice>::empty());
        hosts
    }

    /// Take a host in, in place of one found before under the same full name.
    pub fn insert(&mut self, fullname: String, device: LanDevice)
        ensures
            final(self)@ == old(self)@.insert(fullname@, device),
    {
        proof {
            use_type_invariant(&*self);
        }
        let mut entries: Vec<(String, LanDevice)> = Vec::new();
        std::mem::swap(&mut entries, &mut self.entries);
        let ghost before = entries@;
        let mut at: usize = 0;
        while at < entries.len() && text::text_precedes(
            entries[at].0.as_str(),
            fullname.as_str(),
        )
            invariant
                at <= entries@.len(),
                entries@ == before,
                forall|j: int|
                    0 <= j < at ==> text::precedes(#[trigger] before[j].0@, fullname@),
            decreases entries@.len() - at,
        {
            at = at + 1;
        }
        let ghost name = fullname@;
        let ghost replaced = at < before.len() && before[at as int].0@ == name;
        if at < entries.len() && text::same_text(entries[at].0.as_str(), fullname.as_str()) {
            let _ = entries.remove(at);
        }
        let ghost kept = entries@;
        entries.insert(at, (fullname, device));
        proof {
            let after = entries@;
            if at < before.len() {
                text::precedes_is_total(before[at as int].0@, name);
            }
            assert forall|j: int| at <= j < kept.len() implies text::precedes(
                name,
                #[trigger] kept[j].0@,
            ) by {
                if replaced {
                    assert(kept[j] == before[j + 1]);
                    assert(text::precedes(before[at as int].0@, before[j + 1].0@));
                } else if j > at {
                    assert(text::precedes(before[at as int].0@, before[j].0@));
                    text::precedes_is_transitive(name, before[at as int].0@, before[j].0@);
                }
            }
            assert forall|j: int| 0 <= j < at implies kept[j] == before[j] by {}
            assert(ascending(kept)) by {
                assert forall|i: int, j: int| 0 <= i < j < kept.len() implies text::precedes(
                    #[trigger] kept[i].0@,
                    #[trigger] kept[j].0@,
                ) by {
                    let bi = if replaced && i >= at { i + 1 } else { i };
                    let bj = if replaced && j >= at { j + 1 } else { j };
                    assert(kept[i] == before[bi] && kept[j] == before[bj]);
                    assert(text::precedes(before[bi].0@, before[bj].0@));
                }
            }
            assert forall|i: int, j: int| 0 <= i < j < after.len() implies text::precedes(
                #[trigger] after[i].0@,
                #[trigger] after[j].0@,
            ) by {
                let ki = if i > at { i - 1 } else { i };
                let kj = if j > at { j - 1 } else { j };
                if i != at && j != at {
                    assert(after[i] == kept[ki] && after[j] == kept[kj]);
                    assert(text::precedes(kept[ki].0@, kept[kj].0@));
                } else if i == at {
                    assert(after[j] == kept[kj]);
                } else {
                    assert(after[i] == before[i]);
                }
            }
            inserted_maps(before, after, at as int, replaced);
        }
        self.entries = entries;
    }

    /// The hosts, in the order of their full names.
    pub fn into_devices(self) -> (devices: Vec<LanDevice>)
        ensures
            exists|names: Seq<Seq<char>>| #[trigger] lists(names, devices@, self@),
    {
        proof {
            use_type_invariant(&self);
        }
        let mut entries = self.entries;
        let ghost all = entries@;
        let mut reversed: Vec<LanDevice> = Vec::new();
        let n: usize = entries.len();
        while entries.len() > 0
            invariant
                entries@ == all.take(entries@.len() as int),
                entries@.len() + reversed@.len() == all.len(),
                forall|i: int|
                    0 <= i < reversed@.len() ==> #[trigger] reversed@[i] == all[all.len() - 1 - i].1,
            decreases entries@.len(),
        {
            let ghost last = entries@.len() - 1;
            if let Some((_, device)) = entries.pop() {
                reversed.push(device);
                assert(entries@ =~= all.take(last));
            }
        }
        let mut devices: Vec<LanDevice> = Vec::new();
        while reversed.len() > 0
            invariant
                devices@.len() + reversed@.len() == all.len(),
                forall|i: int|
                    0 <= i < reversed@.len() ==> #[trigger] reversed@[i] == all[all.len() - 1 - i].1,
                forall|i: int| 0 <= i < devices@.len() ==> #[trigger] devices@[i] == all[i].1,
            decreases reversed@.len(),
        {
            if let Some(device) = reversed.pop() {
                devices.push(device);
            }
        }
        proof {
            let names = all.map_values(|entry: (String, LanDevice)| entry.0@);
            assert forall|i: int, j: int| 0 <= i < j < names.len() implies text::precedes(
                #[trigger] names[i],
                #[trigger] names[j],
            ) by {
                assert(text::precedes(all[i].0@, all[j].0@));
            }
            assert forall|name: Seq<char>| #[trigger] self@.contains_key(name) implies names.contains(
                name,
            ) by {
                let i = choose|i: int| 0 <= i < all.len() && #[trigger] all[i].0@ == name;
                assert(names[i] == name);
            }
            assert forall|name: Seq<char>| names.contains(name) implies #[trigger] self@.contains_key(
                name,
            ) by {
                let i = choose|i: int| 0 <= i < names.len() && names[i] == name;
                entry_is_mapped(all, i);
            }
            assert forall|i: int| 0 <= i < names.len() implies devices@[i] == self@[#[trigger] names[i]] by {
                entry_is_mapped(all, i);
            }
            assert(lists(names, devices@, self@));
        }
        devices
    }
}

proof fn inserted_maps(
    before: Seq<(String, LanDevice)>,
    after: Seq<(String, LanDevice)>,
    at: int,
    replaced: bool,
)
    requires
        ascending(before),
        ascending(after),
        0 <= at <= before.len(),
        at < after.len(),
        replaced ==> at < before.len() && before[at].0@ == after[at].0@,
        after.len() == before.len() + (if replaced { 0int } else { 1 }),
        forall|j: int| 0 <= j < at ==> #[trigger] after[j] == before[j],
        forall|j: int|
            at < j < after.len() ==> #[trigger] after[j] == before[if replaced { j } else { j - 1 }],
    ensures
        entries_map(after) == entries_map(before).insert(after[at].0@, after[at].1),
{
    let left = entries_map(after);
    let right = entries_map(before).insert(after[at].0@, after[at].1);
    assert forall|name: Seq<char>| left.contains_key(name) implies right.contains_key(name)
        && left[name] == right[name] by {
        let i = choose|i: int| 0 <= i < after.len() && #[trigger] after[i].0@ == name;
        entry_is_mapped(after, i);
        if i != at {
            let b = if i < at || replaced { i } else { i - 1 };
            assert(after[i] == before[b]);
            entry_is_mapped(before, b);
            text::precedes_is_strict(name);
            if i < at {
                assert(text::precedes(after[i].0@, after[at].0@));
            } else {
                assert(text::precedes(after[at].0@, after[i].0@));
            }
        }
    }
    assert forall|name: Seq<char>| right.contains_key(name) implies left.contains_key(name) by {
        if name == after[at].0@ {
            entry_is_mapped(after, at);
        } else {
            let b = choose|b: int| 0 <= b < before.len() && #[trigger] before[b].0@ == name;
            let i = if b < at || replaced { b } else { b + 1 };
            assert(after[i] == before[b]);
            entry_is_mapped(after, i);
        }
    }
    assert(left =~= right);
}

/// Whether `c` is an ASCII letter or digit.
pub open spec fn is_alphanumeric(c: char) -> bool {
    'a' <= c <= 'z' || 'A' <= c <= 'Z' || '0' <= c <= '9'
}

/// `c` as it stands in a host name: letters and digits stay, anything else is a
/// hyphen.
pub open spec fn label_char(c: char) -> char {
    if is_alphanumeric(c) {
        c
    } else {
        '-'
    }
}

/// `c` in lower case.
pub open spec fn lower(c: char) -> char {
    if 'A' <= c <= 'Z' {
        (c as u32 + 32) as char
    } else {
        c
    }
}

/// `s` without the hyphens in front.
pub open spec fn without_leading(s: Seq<char>) -> Seq<char>
    decreases s.len(),
{
    if s.len() > 0 && s[0] == '-' {
        without_leading(s.drop_first())
    } else {
        s
    }
}

/// `s` without the hyphens behind.
pub open spec fn without_trailing(s: Seq<char>) -> Seq<char>
    decreases s.len(),
{
    if s.len() > 0 && s.last() == '-' {
        without_trailing(s.drop_last())
    } else {
        s
    }
}

/// The host name of a device: its name in label characters, without the hyphens
/// around it, in lower case; `rivetlink` if nothing is left.
pub open spec fn hostname(name: Seq<char>) -> Seq<char> {
    let bare = without_trailing(without_leading(name.map_values(|c: char| label_char(c))));
    if bare.len() == 0 {
        "rivetlink"@
    } else {
        bare.map_values(|c: char| lower(c))
    }
}

fn to_lower(c: char) -> (r: char)
    ensures
        r == lower(c),
{
    if 'A' <= c && c <= 'Z' {
        let n: u8 = (c as u32) as u8;
        (n + 32) as char
    } else {
        c
    }
}

/// Reduce a free-form device name to a DNS-label-safe hostname.
pub fn sanitize_hostname(name: &str) -> (host: String)
    ensures
        host@ == hostname(name@),
{
    let v = chars_of(name);
    let mut cleaned: Vec<char> = Vec::new();
    let mut i: usize = 0;
    while i < v.len()
        invariant
            i <= v@.len(),
            v@ == name@,
            cleaned@ == name@.take(i as int).map_values(|c: char| label_char(c)),
        decreases v@.len() - i,
    {
        let c: char = v[i];
        let keep = ('a' <= c && c <= 'z') || ('A' <= c && c <= 'Z') || ('0' <= c && c <= '9');
        cleaned.push(
            if keep {
                c
            } else {
                '-'
            },
        );
        assert(cleaned@ =~= name@.take(i as int + 1).map_values(|c: char| label_char(c)));
        i = i + 1;
    }
    assert(name@.take(name@.len() as int) =~= name@);
    let ghost all = cleaned@;
    let mut from: usize = 0;
    assert(all.skip(0) =~= all);
    while from < cleaned.len() && cleaned[from] == '-'
        invariant
            from <= cleaned@.len(),
            cleaned@ == all,
            without_leading(all.skip(from as int)) == without_leading(all),
        decreases cleaned@.len() - from,
    {
        assert(all.skip(from as int).drop_first() =~= all.skip(from as int + 1));
        from = from + 1;
    }
    let ghost rest = all.skip(from as int);
    let mut to: usize = cleaned.len();
    assert(rest =~= all.subrange(from as int, to as int));
    while to > from && cleaned[to - 1] == '-'
        invariant
            from <= to <= cleaned@.len(),
            cleaned@ == all,
            without_trailing(all.subrange(from as int, to as int)) == without_trailing(rest),
        decreases to - from,
    {
        assert(all.subrange(from as int, to as int).drop_last() =~= all.subrange(
            from as int,
            to as int - 1,
        ));
        to = to - 1;
    }
    let ghost bare = all.subrange(from as int, to as int);
    if from == to {
        return "rivetlink".to_owned();
    }
    let mut host = String::new();
    let mut k: usize = from;
    while k < to
        invariant
            from <= k <= to <= cleaned@.len(),
            cleaned@ == all,
            host@ == all.subrange(from as int, k as int).map_values(|c: char| lower(c)),
        decreases to - k,
    {
        host.push(to_lower(cleaned[k]));
        assert(host@ =~= all.subrange(from as int, k as int + 1).map_values(|c: char| lower(c)));
        k = k + 1;
    }
    host
}

proof fn leading_is_part(s: Seq<char>)
    ensures
        without_leading(s).len() <= s.len(),
        without_leading(s) == s.skip(s.len() - without_leading(s).len()),
        without_leading(s).len() > 0 ==> without_leading(s)[0] != '-',
    decreases s.len(),
{
    if s.len() > 0 && s[0] == '-' {
        leading_is_part(s.drop_first());
        assert(s.skip(s.len() - without_leading(s).len()) =~= s.drop_first().skip(
            s.len() - 1 - without_leading(s).len(),
        ));
    } else {
        assert(s.skip(0) =~= s);
    }
}

proof fn trailing_is_part(s: Seq<char>)
    ensures
        without_trailing(s).len() <= s.len(),
        without_trailing(s) == s.take(without_trailing(s).len() as int),
        without_trailing(s).len() > 0 ==> without_trailing(s).last() != '-',
    decreases s.len(),
{
    if s.len() > 0 && s.last() == '-' {
        trailing_is_part(s.drop_last());
        assert(s.take(without_trailing(s).len() as int) =~= s.drop_last().take(
            without_trailing(s).len() as int,
        ));
    } else {
        assert(s.take(s.len() as int) =~= s);
    }
}

/// A host name is never empty, has only lower-case letters, digits and hyphens,
/// and neither begins nor ends with a hyphen.
pub proof fn hostname_is_dns_safe(name: Seq<char>)
    ensures
        hostname(name).len() > 0,
        hostname(name)[0] != '-',
        hostname(name).last() != '-',
        forall|i: int|
            0 <= i < hostname(name).len() ==> {
                let c = #[trigger] hostname(name)[i];
                'a' <= c <= 'z' || '0' <= c <= '9' || c == '-'
            },
{
    let dashed = name.map_values(|c: char| label_char(c));
    let front = without_leading(dashed);
    let bare = without_trailing(front);
    leading_is_part(dashed);
    trailing_is_part(front);
    if bare.len() == 0 {
        reveal_strlit("rivetlink");
    } else {
        let host = bare.map_values(|c: char| lower(c));
        assert(bare[0] == front[0]);
        assert forall|i: int| 0 <= i < host.len() implies {
            let c = #[trigger] host[i];
            ('a' <= c <= 'z' || '0' <= c <= '9' || c == '-') && (c == '-' <==> bare[i] == '-')
        } by {
            assert(bare[i] == front[i]);
            assert(front[i] == dashed[dashed.len() - front.len() + i]);
            let original = name[dashed.len() - front.len() + i];
            assert(bare[i] == label_char(original));
            assert(host[i] == lower(bare[i]));
        }
        assert(host[0] != '-');
        assert(host.last() == host[host.len() - 1]);
        assert(bare.last() == bare[bare.len() - 1]);
    }
}

/// What a host advertises of itself.
#[derive(Debug)]
pub struct Advertisement {
    /// The host name, ending with the local domain.
    pub hostname: String,
    /// The TXT record [`TXT_NAME`].
    pub name: String,
    /// The TXT record [`TXT_PUBKEY`].
    pub public_key: String,
    /// The TXT record [`TXT_VERSION`].
    pub version: String,
}

/// What a host advertises: `instance` is the friendly device name, `public_key`
/// the host identity (base64), `version` the protocol version.
pub fn advertisement(instance: &str, public_key: &str, version: u16) -> (a: Advertisement)
    ensures
        a.hostname@ == hostname(instance@) + ".local."@,
        a.name@ == instance@,
        a.public_key@ == public_key@,
        a.version@ == text::decimal_digits(version as nat),
{
    Advertisement {
        hostname: joined(sanitize_hostname(instance).as_str(), ".local."),
        name: instance.to_owned(),
        public_key: public_key.to_owned(),
        version: decimal(version as u64),
    }
}

/// A client that resolves what a host advertises learns the host's name,
/// identity key, port and protocol version.
pub proof fn advertised_is_discovered(
    instance: Seq<char>,
    public_key: Seq<char>,
    version: u16,
    record: ServiceRecord,
    device: LanDevice,
)
    requires
        record.name is Some,
        record.name->0@ == instance,
        record.public_key is Some,
        record.public_key->0@ == public_key,
        record.version is Some,
        record.version->0@ == text::decimal_digits(version as nat),
        describes(record, device),
    ensures
        device.name@ == instance,
        device.public_key is Some,
        device.public_key->0@ == public_key,
        device.port == record.port,
        device.protocol_version == Some(version),
{
    text::decimal_is_parsed(version as nat, u16::MAX as nat);
}

/// A pointer button.
#[derive(Debug, Clone, Copy, PartialEq, Eq, Structural)]
pub enum PtrButton {
    Left,
    Right,
    Middle,
}

/// A client request over an established sealed LAN channel.
#[allow(inconsistent_fields)]
#[derive(Debug)]
pub enum LanRequest {
    /// Ask the host for a single screenshot.
    Screenshot,
    /// Ask the host which displays it offers.
    ListDisplays,
    /// Begin a live stream.
    StartStream {
        /// Frames per second that the client wants.
        fps: u16,
        /// The display to show; `None` for the primary one.
        display: Option<u32>,
        /// The client's device name.
        name: Option<String>,
        /// The client's identity key, base64.
        identity_key: Option<String>,
        /// The client's proof that it holds the key, base64.
        identity_sig: Option<String>,
    },
    /// Show another display.
    SwitchDisplay { display: u32 },
    /// Move the pointer to a position, in ten-thousandths of the frame.
    PointerMove { x: u16, y: u16 },
    PointerButton { button: PtrButton, down: bool },
    Scroll { dx: i16, dy: i16 },
    /// Press or release the key with a browser `KeyboardEvent.code`.
    Key { code: String, down: bool },
}

/// A display that a host offers.
#[derive(Debug)]
pub struct DisplayInfo {
    pub id: u32,
    pub name: String,
}

/// A tile of a frame that changed.
#[derive(Debug)]
pub struct TilePatch {
    /// The tile's index, row by row.
    pub i: u32,
    /// Base64 of the tile as JPEG.
    pub jpeg_b64: String,
}

/// What changed from one frame to the next.
#[derive(Debug)]
pub struct FrameDelta {
    /// Width of the frame in pixels.
    pub w: u32,
    /// Height of the frame in pixels.
    pub h: u32,
    /// Edge of a tile in pixels.
    pub tile: u32,
    /// Whether every tile is there.
    pub keyframe: bool,
    pub tiles: Vec<TilePatch>,
}

/// A host response.
#[derive(Debug)]
pub enum LanResponse {
    /// A screenshot, as base64-encoded PNG bytes.
    Screenshot { png_b64: String },
    /// The displays that the host offers.
    Displays { displays: Vec<DisplayInfo> },
    /// A frame of a live stream.
    Frame(FrameDelta),
    /// The host could not satisfy the request.
    Error { message: String },
}

/// A [`LanResponse`] with its strings as characters.
pub enum LanResponseView {
    Screenshot { png_b64: Seq<char> },
    Displays { displays: Seq<DisplayInfo> },
    Frame(FrameDelta),
    Error { message: Seq<char> },
}

impl View for LanResponse {
    type V = LanResponseView;

    open spec fn view(&self) -> LanResponseView {
        match *self {
            LanResponse::Screenshot { png_b64 } => LanResponseView::Screenshot {
                png_b64: png_b64@,
            },
            LanResponse::Displays { displays } => LanResponseView::Displays { displays: displays@ },
            LanResponse::Frame(delta) => LanResponseView::Frame(delta),
            LanResponse::Error { message } => LanResponseView::Error { message: message@ },
        }
    }
}

/// The response that reports a failure.
pub fn error_response(message: &str) -> (response: LanResponse)
    ensures
        response@ == (LanResponseView::Error { message: message@ }),
{
    LanResponse::Error { message: message.to_owned() }
}

/// The fault of sealing so many bytes into a frame.
pub open spec fn frame_fault(len: nat) -> Option<SdkErrorView> {
    if !sealed::aead_fits(len) {
        Some(SdkErrorView::Crypto("encryption failed: "@ + "aead::Error"@))
    } else if sealed::NONCE_LEN + len + 16 > u32::MAX {
        Some(SdkErrorView::Crypto("sealed frame too large"@))
    } else {
        None
    }
}

/// Seal an encoded message and put it into a frame. Whoever holds the same key
/// opens the frame's body to the message again, if the length that its header
/// announces is within the limit of [`sealed_len`].
pub fn seal_frame(channel: &SealedChannel, plain: &[u8]) -> (r: SdkResult<Vec<u8>>)
    requires
        plain@.len() + sealed::NONCE_LEN + 16 <= isize::MAX,
    ensures
        error::fails_with(r, frame_fault(plain@.len())),
        r matches Ok(framed) ==> {
            let body = framed@.skip(4);
            &&& framing::is_frame(framed@, body)
            &&& framing::be_value(framed@.take(4)) == sealed::NONCE_LEN + plain@.len() + 16
            &&& sealed::is_sealing(channel@, plain@, body)
            &&& sealed::opened(channel@, body) == Some(plain@)
        },
{
    match channel.seal(plain) {
        Ok(body) => match framing::frame(&body) {
            Some(framed) => Ok(framed),
            None => Err(crypto_error("sealed frame too large")),
        },
        Err(e) => Err(SdkError::Crypto(e.to_string())),
    }
}

/// How many bytes of a sealed message follow a header.
pub fn sealed_len(header: &[u8; 4]) -> (r: SdkResult<usize>)
    ensures
        error::fails_with(
            r,
            if framing::be_value(header@) <= MAX_SEALED_FRAME {
                None
            } else {
                Some(SdkErrorView::Crypto("sealed frame too large"@))
            },
        ),
        r is Ok == (framing::be_value(header@) <= 32 * 1024 * 1024),
        r matches Ok(n) ==> n == framing::be_value(header@),
{
    match framing::body_len(header, MAX_SEALED_FRAME) {
        Some(n) => Ok(n),
        None => Err(crypto_error("sealed frame too large")),
    }
}

/// Open the body of a frame.
pub fn open_frame(channel: &SealedChannel, body: &[u8]) -> (r: SdkResult<Vec<u8>>)
    ensures
        error::fails_with(
            r,
            if sealed::opened(channel@, body@) is Some {
                None
            } else {
                Some(SdkErrorView::Crypto("decrypt failed"@))
            },
        ),
        r matches Ok(plain) ==> Some(plain@) == sealed::opened(channel@, body@),
{
    match channel.open(body) {
        Ok(plain) => Ok(plain),
        Err(_) => Err(crypto_error("decrypt failed")),
    }
}

/// The fault of a response that should be a screenshot.
pub open spec fn screenshot_fault(response: LanResponseView) -> Option<SdkErrorView> {
    match response {
        LanResponseView::Screenshot { png_b64 } => match encoding::base64_decoded(
            text::trimmed(png_b64),
        ) {
            Ok(_) => None,
            Err(fault) => Some(SdkErrorView::Base64(fault)),
        },
        LanResponseView::Error { message } => Some(SdkErrorView::Relay(message)),
        _ => Some(SdkErrorView::Relay("unexpected response to a screenshot request"@)),
    }
}

/// The PNG bytes of a response to a screenshot request.
pub fn screenshot_from(response: LanResponse) -> (r: SdkResult<Vec<u8>>)
    ensures
        error::fails_with(r, screenshot_fault(response@)),
        r matches Ok(png) ==> png@ == encoding::fixed_bytes(response@->png_b64),
{
    match response {
        LanResponse::Screenshot { png_b64 } => match base64_decode(trim(png_b64.as_str()).as_str()) {
            Ok(png) => Ok(png),
            Err(fault) => Err(SdkError::Base64(fault)),
        },
        LanResponse::Error { message } => Err(SdkError::Relay(message)),
        _ => Err(SdkError::Relay("unexpected response to a screenshot request".to_owned())),
    }
}

proof fn first_ipv4_is_first(addresses: Seq<ServiceAddress>, from: int)
    requires
        0 <= from <= addresses.len(),
    ensures
        first_ipv4(addresses, from) matches Some(i) ==> {
            &&& from <= i < addresses.len()
            &&& addresses[i].is_ipv4
            &&& forall|j: int| from <= j < i ==> !(#[trigger] addresses[j]).is_ipv4
        },
        first_ipv4(addresses, from) is None ==> forall|j: int|
            from <= j < addresses.len() ==> !(#[trigger] addresses[j]).is_ipv4,
    decreases addresses.len() - from,
{
    if from < addresses.len() && !addresses[from].is_ipv4 {
        first_ipv4_is_first(addresses, from + 1);
    }
}

/// A service is reached at its first IPv4 address, and at its very first one where it
/// has none of these; only one without addresses is not reached at all.
pub proof fn ipv4_is_preferred(addresses: Seq<ServiceAddress>)
    ensures
        preferred(addresses) is None <==> addresses.len() == 0,
        preferred(addresses) matches Some(i) ==> {
            &&& 0 <= i < addresses.len()
            &&& addresses[i].is_ipv4 ==> forall|j: int|
                0 <= j < i ==> !(#[trigger] addresses[j]).is_ipv4
            &&& !addresses[i].is_ipv4 ==> i == 0 && forall|j: int|
                0 <= j < addresses.len() ==> !(#[trigger] addresses[j]).is_ipv4
        },
{
    first_ipv4_is_first(addresses, 0);
}

/// A service is called by the name that it advertises, and without one by what stands
/// before the first dot of its full name.
pub proof fn services_have_a_name(record: ServiceRecord, label: Seq<char>, rest: Seq<char>)
    requires
        forall|i: int| 0 <= i < label.len() ==> #[trigger] label[i] != '.',
        record.fullname@ == label + seq!['.'] + rest,
    ensures
        record.name matches Some(name) ==> friendly_name(record) == name@,
        record.name is None ==> friendly_name(record) == label,
{
    let full = record.fullname@;
    assert forall|i: int| 0 <= i < label.len() implies #[trigger] full[i] != '.' by {
        assert(full[i] == label[i]);
    }
    text::first_at_is(full, '.', label.len());
    assert(full.take(label.len() as int) =~= label);
}

/// A discovered device is what its service says: the address is one of the service's,
/// the port and the key are the service's, and the version is the number that the
/// service names, if it names one.
pub proof fn devices_are_as_described(record: ServiceRecord, device: LanDevice)
    requires
        describes(record, device),
    ensures
        exists|i: int|
            0 <= i < record.addresses@.len() && device.address@ == (
            #[trigger] record.addresses@[i]).text@ && Some(i) == preferred(record.addresses@),
        device.name@ == friendly_name(record),
        device.port == record.port,
        device.public_key is Some <==> record.public_key is Some,
        device.public_key matches Some(key) ==> key@ == record.public_key->0@,
        device.protocol_version matches Some(v) ==> record.version is Some && text::parsed_number(
            record.version->0@,
            65535,
        ) == Some(v as nat),
        record.version matches Some(version) ==> (text::parsed_number(version@, 65535) is Some
            ==> device.protocol_version is Some),
{
    ipv4_is_preferred(record.addresses@);
    let i = preferred(record.addresses@)->0;
    assert(device.address@ == record.addresses@[i].text@);
}

/// A name that begins and ends with a letter or digit keeps its length as a host name:
/// each letter is in lower case, each digit stays, and anything else is a hyphen. A
/// name without letters and digits is called `rivetlink`.
pub proof fn hostname_keeps_letters_and_digits(name: Seq<char>, i: int)
    ensures
        name.len() > 0 && is_alphanumeric(name[0]) && is_alphanumeric(name.last()) && 0 <= i
            < name.len() ==> {
            &&& hostname(name).len() == name.len()
            &&& 'a' <= name[i] <= 'z' || '0' <= name[i] <= '9' ==> hostname(name)[i] == name[i]
            &&& 'A' <= name[i] <= 'Z' ==> hostname(name)[i] as u32 == name[i] as u32 + 32
            &&& !('a' <= name[i] <= 'z' || '0' <= name[i] <= '9' || 'A' <= name[i] <= 'Z')
                ==> hostname(name)[i] == '-'
        },
        (forall|j: int| 0 <= j < name.len() ==> !is_alphanumeric(#[trigger] name[j])) ==> hostname(
            name,
        ) == "rivetlink"@,
{
    let dashed = name.map_values(|c: char| label_char(c));
    let front = without_leading(dashed);
    let bare = without_trailing(front);
    if name.len() > 0 && is_alphanumeric(name[0]) && is_alphanumeric(name.last()) {
        assert(dashed[0] == name[0]);
        assert(dashed.last() == name.last());
        assert(front == dashed);
        assert(bare == dashed);
    }
    if forall|j: int| 0 <= j < name.len() ==> !is_alphanumeric(#[trigger] name[j]) {
        leading_is_part(dashed);
        if front.len() > 0 {
            let at = dashed.len() - front.len();
            assert(front[0] == dashed[at]);
            assert(!is_alphanumeric(name[at]));
        }
        assert(front.len() == 0);
    }
}

/// Hyphens and what becomes one are taken from the ends of a host name, so a name means
/// the same with them around it.
pub proof fn hostname_ignores_what_stands_around(name: Seq<char>, c: char)
    requires
        !is_alphanumeric(c),
    ensures
        hostname(seq![c] + name) == hostname(name),
{
    let more = (seq![c] + name).map_values(|c: char| label_char(c));
    let less = name.map_values(|c: char| label_char(c));
    assert(more[0] == '-');
    assert(more.drop_first() =~= less);
}

/// A message is put into a frame exactly if it can be sealed and the length of the
/// sealed one, 28 bytes more, fits the header.
pub proof fn frames_hold_what_fits(len: nat)
    ensures
        frame_fault(len) is None <==> sealed::aead_fits(len) && len + 28 <= u32::MAX,
{
}

/// A response gives a screenshot exactly if it is one in good base64. An error of the
/// host is handed on in its own words.
pub proof fn only_screenshots_give_images(response: LanResponseView)
    ensures
        screenshot_fault(response) is None <==> (response matches LanResponseView::Screenshot {
            png_b64,
        } && encoding::base64_decoded(text::trimmed(png_b64)) is Ok),
        response matches LanResponseView::Error { message } ==> screenshot_fault(response) == Some(
            SdkErrorView::Relay(message),
        ),
        response is Displays || response is Frame ==> (screenshot_fault(response) matches Some(fault)
            && fault is Relay),
{
}

/// A text is an identity key exactly if it is base64 of 32 bytes that encode a point.
pub proof fn identities_are_points(text: Seq<char>)
    ensures
        is_identity(text) <==> (encoding::base64_decoded(text::trimmed(text)) matches Ok(bytes)
            && bytes.len() == 32 && primitives::ed25519_is_key(bytes)),
{
}

/// Found devices are listed in the order of their names, none left out and none twice.
pub proof fn devices_are_listed_by_name(
    names: Seq<Seq<char>>,
    devices: Seq<LanDevice>,
    found: Map<Seq<char>, LanDevice>,
    i: int,
    j: int,
    name: Seq<char>,
)
    requires
        lists(names, devices, found),
        0 <= i < j < devices.len(),
        found.contains_key(name),
    ensures
        text::precedes(names[i], names[j]),
        names[i] != names[j],
        found.contains_key(names[i]) && devices[i] == found[names[i]],
        exists|k: int|
            0 <= k < devices.len() && #[trigger] names[k] == name && devices[k] == found[name],
{
    assert(text::precedes(names[i], names[j]));
    assert(names.contains(names[i]));
    assert(names.contains(name));
    let k = choose|k: int| 0 <= k < names.len() && names[k] == name;
    assert(devices[k] == found[names[k]]);
    assert(names[i] != names[j]) by {
        if names[i] == names[j] {
            text::precedes_is_strict(names[i]);
        }
    }
}

} // verus!
