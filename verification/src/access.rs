//! Decisions on who may call the API: the API key, the caller's network,
//! the bearer token and the permissions of a user.

use vstd::prelude::*;
use crate::text::{
    char_is_printable_ascii, chars_of, find, find_char, is_printable_ascii, matches_at,
    occurs_at, same_chars, str_eq, string_of, trim, trimmed,
};

verus! {

/// What becomes of a request at the API key check.
#[derive(Debug, Clone, Copy, PartialEq, Eq, Structural)]
pub enum AccessDecision {
    /// The health check: served without a key.
    HealthCheck,
    /// The key is wrong: status 401.
    Unauthorized,
    /// The key is right, the caller's address is not allowed: status 403.
    Forbidden,
    /// The request goes on.
    Granted,
}

/// The decision for a request to `path` that presents `api_key`.
pub open spec fn decided_access(
    path: Seq<char>,
    api_key: Seq<char>,
    expected_key: Seq<char>,
    address_allowed: bool,
) -> AccessDecision {
    if path == "/health"@ {
        AccessDecision::HealthCheck
    } else if api_key != expected_key {
        AccessDecision::Unauthorized
    } else if !address_allowed {
        AccessDecision::Forbidden
    } else {
        AccessDecision::Granted
    }
}

/// Decides on a request: the health check needs no key; else the key must
/// be the expected one, and then the caller's address must be allowed.
pub fn access_decision(path: &str, api_key: &str, expected_key: &str, address_allowed: bool) -> (r:
    AccessDecision)
    ensures
        r == decided_access(path@, api_key@, expected_key@, address_allowed),
{
    if str_eq(path, "/health") {
        AccessDecision::HealthCheck
    } else if !str_eq(api_key, expected_key) {
        AccessDecision::Unauthorized
    } else if !address_allowed {
        AccessDecision::Forbidden
    } else {
        AccessDecision::Granted
    }
}

/// The key that requests must present: the configured one, or a fixed key
/// for development and another for every other environment.
pub fn expected_api_key(configured: Option<String>, development: bool) -> (r: String)
    ensures
        r@ == match configured {
            Some(key) => key@,
            None => if development {
                "airtally_dev_key_2025"@
            } else {
                "airtally_production_secure_key_2025"@
            },
        },
{
    match configured {
        Some(key) => key,
        None => if development {
            "airtally_dev_key_2025".to_owned()
        } else {
            "airtally_production_secure_key_2025".to_owned()
        },
    }
}

/// The first entry of a comma-separated list, trimmed.
pub open spec fn first_entry(list: Seq<char>) -> Seq<char> {
    trimmed(list.take(find_char(list, ',', 0)))
}

/// The first address of a forwarding header: the client itself. The
/// entry is what stands before the first comma, trimmed.
pub fn first_forwarded_address(header: &str) -> (r: String)
    ensures
        r@ == first_entry(header@),
{
    let chars = chars_of(header);
    let comma = find(chars.as_slice(), ',');
    proof {
        assert(chars@.subrange(0, comma as int) == chars@.take(comma as int));
    }
    let entry = trim(&chars[0..comma]);
    string_of(entry.as_slice())
}

/// The token of an authorization header: what follows the prefix
/// "Bearer "; none where the header does not begin with it.
pub open spec fn token_of(header: Seq<char>) -> Option<Seq<char>> {
    if occurs_at(header, "Bearer "@, 0) {
        Some(header.skip("Bearer "@.len() as int))
    } else {
        None
    }
}

/// Takes the token out of an authorization header.
pub fn bearer_token(header: &str) -> (r: Option<String>)
    ensures
        match token_of(header@) {
            Some(t) => r matches Some(s) && s@ == t,
            None => r is None,
        },
{
    let chars = chars_of(header);
    let prefix = chars_of("Bearer ");
    if matches_at(chars.as_slice(), prefix.as_slice(), 0) {
        proof {
            assert(chars@.subrange(prefix@.len() as int, chars@.len() as int) == chars@.skip(
                prefix@.len() as int,
            ));
        }
        Some(string_of(&chars[prefix.len()..chars.len()]))
    } else {
        None
    }
}

/// True when the permissions hold the required one, or any permission of
/// the system group: those open everything.
pub open spec fn permits(permissions: Seq<String>, required: Seq<char>) -> bool {
    exists|i: int|
        0 <= i < permissions.len() && (#[trigger] permissions[i]@ == required || occurs_at(
            permissions[i]@,
            "system."@,
            0,
        ))
}

/// Decides whether a user with `permissions` may do what needs `required`.
pub fn has_permission(permissions: &Vec<String>, required: &str) -> (r: bool)
    ensures
        r == permits(permissions@, required@),
{
    let wanted = chars_of(required);
    let system = chars_of("system.");
    let mut i: usize = 0;
    while i < permissions.len()
        invariant
            i <= permissions.len(),
            wanted@ == required@,
            system@ == "system."@,
            forall|k: int|
                0 <= k < i ==> !(#[trigger] permissions@[k]@ == required@ || occurs_at(
                    permissions@[k]@,
                    "system."@,
                    0,
                )),
        decreases permissions.len() - i,
    {
        let held = chars_of(permissions[i].as_str());
        if same_chars(held.as_slice(), wanted.as_slice()) || matches_at(
            held.as_slice(),
            system.as_slice(),
            0,
        ) {
            return true;
        }
        i = i + 1;
    }
    false
}

/// The first 200 characters of a user agent, without those that are not
/// printable ASCII.
pub open spec fn sanitized(user_agent: Seq<char>) -> Seq<char> {
    (if user_agent.len() > 200 {
        user_agent.take(200)
    } else {
        user_agent
    }).filter(|c: char| is_printable_ascii(c))
}

/// Cuts a user agent to 200 characters and drops what is not printable
/// ASCII.
pub fn sanitize_user_agent(user_agent: &str) -> (r: String)
    ensures
        r@ == sanitized(user_agent@),
{
    let chars = chars_of(user_agent);
    let n: usize = if chars.len() > 200 { 200 } else { chars.len() };
    let ghost keep = |c: char| is_printable_ascii(c);
    let mut out: Vec<char> = Vec::new();
    let mut i: usize = 0;
    while i < n
        invariant
            i <= n <= chars.len(),
            keep == |c: char| is_printable_ascii(c),
            out@ == chars@.take(i as int).filter(keep),
        decreases n - i,
    {
        proof {
            let next = chars@.take(i + 1);
            assert(next.drop_last() == chars@.take(i as int));
            reveal(Seq::filter);
        }
        if char_is_printable_ascii(chars[i]) {
            out.push(chars[i]);
        }
        i = i + 1;
    }
    proof {
        if chars.len() <= 200 {
            assert(chars@.take(n as int) == chars@);
        }
    }
    string_of(out.as_slice())
}

/// The class of an HTTP status code, by which a finished request is logged.
#[derive(Debug, Clone, Copy, PartialEq, Eq, Structural)]
pub enum StatusClass {
    /// 200 to 299.
    Success,
    /// 400 to 499.
    ClientError,
    /// 500 to 599.
    ServerError,
    /// Anything else.
    Other,
}

/// Sorts a status code into its class.
pub fn status_class(status: u16) -> (r: StatusClass)
    ensures
        r == if 200 <= status <= 299 {
            StatusClass::Success
        } else if 400 <= status <= 499 {
            StatusClass::ClientError
        } else if 500 <= status <= 599 {
            StatusClass::ServerError
        } else {
            StatusClass::Other
        },
{
    if 200 <= status && status <= 299 {
        StatusClass::Success
    } else if 400 <= status && status <= 499 {
        StatusClass::ClientError
    } else if 500 <= status && status <= 599 {
        StatusClass::ServerError
    } else {
        StatusClass::Other
    }
}

/// An IP address as plain values: the 32 bits of a version 4 address,
/// first octet highest, or the eight segments of a version 6 address.
#[derive(Debug, Clone, Copy)]
pub enum IpAddress {
    V4 { bits: u32 },
    V6 { segments: [u16; 8] },
}

/// A network that callers may come from.
#[derive(Debug, Clone, Copy)]
pub enum Network {
    /// An address with the number of leading bits that count.
    Cidr { address: IpAddress, prefix: u8 },
    /// One address.
    Single { address: IpAddress },
}

/// True when two version 4 addresses agree in their first `prefix` bits.
pub open spec fn same_v4_network(network: u32, client: u32, prefix: u8) -> bool {
    (network >> ((32 - prefix) as u32)) == (client >> ((32 - prefix) as u32))
}

/// True when two version 6 addresses agree in their first four segments.
pub open spec fn same_v6_network(network: [u16; 8], client: [u16; 8]) -> bool {
    forall|i: int| 0 <= i < 4 ==> network@[i] == client@[i]
}

/// True when the two addresses are the same.
pub open spec fn same_address(a: IpAddress, b: IpAddress) -> bool {
    match (a, b) {
        (IpAddress::V4 { bits: x }, IpAddress::V4 { bits: y }) => x == y,
        (IpAddress::V6 { segments: x }, IpAddress::V6 { segments: y }) => x@ == y@,
        _ => false,
    }
}

/// True when `ip` lies in `network`: for an address with a prefix, both
/// are of one version and agree in the leading bits (version 4) or in the
/// first four segments (version 6); for a single address, they are the
/// same.
pub open spec fn in_network(ip: IpAddress, network: Network) -> bool {
    match network {
        Network::Cidr { address, prefix } => match (address, ip) {
            (IpAddress::V4 { bits: net }, IpAddress::V4 { bits: client }) => same_v4_network(
                net,
                client,
                prefix,
            ),
            (IpAddress::V6 { segments: net }, IpAddress::V6 { segments: client }) => same_v6_network(
                net,
                client,
            ),
            _ => false,
        },
        Network::Single { address } => same_address(address, ip),
    }
}

/// True when a network's prefix can be applied: for a version 4 address it
/// counts from 1 to 32 bits.
pub open spec fn usable(network: Network) -> bool {
    match network {
        Network::Cidr { address: IpAddress::V4 { .. }, prefix } => 1 <= prefix <= 32,
        _ => true,
    }
}

/// The loopback addresses: 127.0.0.0/8 and ::1.
pub open spec fn loopback(ip: IpAddress) -> bool {
    match ip {
        IpAddress::V4 { bits } => bits >> 24 == 127,
        IpAddress::V6 { segments } => segments@ == seq![0u16, 0, 0, 0, 0, 0, 0, 1],
    }
}

/// The private version 4 ranges: 10.0.0.0/8, 172.16.0.0/12 and
/// 192.168.0.0/16. No version 6 address counts as private.
pub open spec fn private(ip: IpAddress) -> bool {
    match ip {
        IpAddress::V4 { bits } => bits >> 24 == 10 || bits >> 20 == 0xac1 || bits >> 16 == 0xc0a8,
        IpAddress::V6 { .. } => false,
    }
}

/// Decides whether two version 4 addresses agree in their first `prefix`
/// bits.
pub fn ipv4_in_network(network: u32, client: u32, prefix: u8) -> (r: bool)
    requires
        1 <= prefix <= 32,
    ensures
        r == same_v4_network(network, client, prefix),
{
    let shift: u32 = (32 - prefix) as u32;
    let mask: u32 = !0u32 << shift;
    proof {
        assert(((network & (!0u32 << shift)) == (client & (!0u32 << shift))) == ((network >> shift)
            == (client >> shift))) by (bit_vector)
            requires
                shift < 32,
        ;
    }
    (network & mask) == (client & mask)
}

fn same_segments(a: &[u16; 8], b: &[u16; 8], count: usize) -> (r: bool)
    requires
        count <= 8,
    ensures
        r == (forall|i: int| 0 <= i < count ==> a@[i] == b@[i]),
{
    let mut i: usize = 0;
    while i < count
        invariant
            i <= count <= 8,
            forall|k: int| 0 <= k < i ==> a@[k] == b@[k],
        decreases count - i,
    {
        if a[i] != b[i] {
            return false;
        }
        i = i + 1;
    }
    true
}

/// Decides whether `ip` lies in `network`.
pub fn is_ip_in_network(ip: &IpAddress, network: &Network) -> (r: bool)
    requires
        usable(*network),
    ensures
        r == in_network(*ip, *network),
{
    match network {
        Network::Cidr { address, prefix } => match (address, ip) {
            (IpAddress::V4 { bits: net }, IpAddress::V4 { bits: client }) => ipv4_in_network(
                *net,
                *client,
                *prefix,
            ),
            (IpAddress::V6 { segments: net }, IpAddress::V6 { segments: client }) => same_segments(
                net,
                client,
                4,
            ),
            _ => false,
        },
        Network::Single { address } => match (address, ip) {
            (IpAddress::V4 { bits: x }, IpAddress::V4 { bits: y }) => *x == *y,
            (IpAddress::V6 { segments: x }, IpAddress::V6 { segments: y }) => {
                let same = same_segments(x, y, 8);
                proof {
                    if same {
                        assert(x@ =~= y@);
                    }
                }
                same
            },
            _ => false,
        },
    }
}

/// Decides whether `ip` is a loopback address.
pub fn is_loopback(ip: &IpAddress) -> (r: bool)
    ensures
        r == loopback(*ip),
{
    match ip {
        IpAddress::V4 { bits } => *bits >> 24 == 127,
        IpAddress::V6 { segments } => {
            let one: [u16; 8] = [0, 0, 0, 0, 0, 0, 0, 1];
            let same = same_segments(segments, &one, 8);
            proof {
                assert(one@ =~= seq![0u16, 0, 0, 0, 0, 0, 0, 1]);
                if same {
                    assert(segments@ =~= one@);
                }
            }
            same
        },
    }
}

/// Decides whether `ip` is a private version 4 address.
pub fn is_private(ip: &IpAddress) -> (r: bool)
    ensures
        r == private(*ip),
{
    match ip {
        IpAddress::V4 { bits } => *bits >> 24 == 10 || *bits >> 20 == 0xac1 || *bits >> 16
            == 0xc0a8,
        IpAddress::V6 { .. } => false,
    }
}

/// True when a caller at `ip` is let in: a loopback address always; in
/// development any private address and no other; else an address that
/// lies in one of the allowed networks.
pub open spec fn address_allowed(ip: IpAddress, development: bool, networks: Seq<Network>) -> bool {
    if loopback(ip) {
        true
    } else if development {
        private(ip)
    } else {
        exists|i: int| 0 <= i < networks.len() && in_network(ip, #[trigger] networks[i])
    }
}

/// Decides whether a caller at `ip` is let in.
pub fn is_allowed_ip(ip: &IpAddress, development: bool, networks: &Vec<Network>) -> (r: bool)
    requires
        forall|i: int| 0 <= i < networks.len() ==> usable(#[trigger] networks[i]),
    ensures
        r == address_allowed(*ip, development, networks@),
{
    if is_loopback(ip) {
        return true;
    }
    if development {
        return is_private(ip);
    }
    let mut i: usize = 0;
    while i < networks.len()
        invariant
            i <= networks.len(),
            !loopback(*ip),
            !development,
            forall|k: int| 0 <= k < networks.len() ==> usable(#[trigger] networks[k]),
            forall|k: int| 0 <= k < i ==> !in_network(*ip, #[trigger] networks[k]),
        decreases networks.len() - i,
    {
        if is_ip_in_network(ip, &networks[i]) {
            assert(in_network(*ip, networks@[i as int]));
            return true;
        }
        i = i + 1;
    }
    false
}

} // verus!
