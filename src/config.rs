//! Resolving the startup configuration: the address to listen on and the base-domain label.
use vstd::prelude::*;
use vstd::string::StringSliceAdditionalSpecFns;
use vstd::utf8::encode_utf8;
use crate::decimal::{is_decimal_at_most, decimal_at_most, digits_value, unsigned_digits, parse_decimal};
use crate::error::ConfigError;
use crate::labels::{split_on, find_byte, lemma_split_at_first, lemma_split_without_sep};

verus! {

/// The byte `.`, which separates the numbers of a dotted-decimal address.
pub const DOT: u8 = 0x2e;

/// The settings that the configuration is resolved from, each as given, if given.
#[derive(Debug, Clone)]
pub struct Settings {
    /// The label that means "no subdomain".
    pub base_domain: Option<String>,
    /// The IPv4 address to listen on, in dotted-decimal form.
    pub host: Option<String>,
    /// The TCP port to listen on, in decimal.
    pub port: Option<String>,
}

/// An IPv4 address and a port.
#[derive(Debug, Clone, Copy, PartialEq, Eq)]
pub struct BindAddress {
    pub octets: [u8; 4],
    pub port: u16,
}

/// The resolved configuration, fixed for the life of the server.
#[derive(Debug, Clone)]
pub struct Config {
    pub address: BindAddress,
    pub base_label: String,
}

/// True when every piece is a decimal number from 0 to 255.
pub open spec fn all_octets(pieces: Seq<Seq<u8>>) -> bool {
    forall|i: int| 0 <= i < pieces.len() ==> is_decimal_at_most(#[trigger] pieces[i], 255)
}

/// The numbers that the pieces denote.
pub open spec fn octet_values(pieces: Seq<Seq<u8>>) -> Seq<u8> {
    pieces.map_values(|g: Seq<u8>| digits_value(unsigned_digits(g)) as u8)
}

/// The four numbers of a dotted-decimal IPv4 address, if `s` is one.
pub open spec fn ipv4_of(s: Seq<u8>) -> Option<Seq<u8>> {
    let pieces = split_on(s, DOT);
    if pieces.len() == 4 && all_octets(pieces) {
        Some(octet_values(pieces))
    } else {
        None
    }
}

/// The port that `s` denotes, if it is a decimal number from 0 to 65535.
pub open spec fn port_of(s: Seq<u8>) -> Option<nat> {
    decimal_at_most(s, 65535)
}

/// The address that a host and a port text denote; a bad port is reported before
/// a bad host.
pub open spec fn address_of(host: Seq<u8>, port: Seq<u8>) -> Result<(Seq<u8>, nat), ConfigError> {
    match port_of(port) {
        None => Err(ConfigError::InvalidPort),
        Some(p) => match ipv4_of(host) {
            None => Err(ConfigError::InvalidHost),
            Some(o) => Ok((o, p)),
        },
    }
}

/// The view of an address.
pub open spec fn address_view(a: BindAddress) -> (Seq<u8>, nat) {
    (a.octets@, a.port as nat)
}

/// The numbers of the dot-separated pieces of `b`, if each is a decimal number from
/// 0 to 255.
pub fn parse_octets(b: &[u8]) -> (r: Option<Vec<u8>>)
    ensures
        match r {
            Some(v) => all_octets(split_on(b@, DOT)) && v@ == octet_values(split_on(b@, DOT)),
            None => !all_octets(split_on(b@, DOT)),
        },
{
    let mut out: Vec<u8> = Vec::new();
    let mut start: usize = 0;
    let ghost mut done: Seq<Seq<u8>> = seq![];
    assert(b@.subrange(0, b@.len() as int) =~= b@);
    assert(done + split_on(b@, DOT) =~= split_on(b@, DOT));
    loop
        invariant
            start <= b@.len(),
            split_on(b@, DOT) == done + split_on(b@.subrange(start as int, b@.len() as int), DOT),
            all_octets(done),
            out@ == octet_values(done),
        decreases b@.len() - start,
    {
        let k = find_byte(b, start, b.len(), DOT);
        let ghost rest = b@.subrange(start as int, b@.len() as int);
        let ghost piece = b@.subrange(start as int, k as int);
        proof {
            assert forall|j: int| 0 <= j < k - start implies rest[j] != DOT by {
                assert(rest[j] == b@[start + j]);
            }
            if k < b.len() {
                lemma_split_at_first(rest, DOT, k - start);
                assert(rest.take(k - start) =~= piece);
                assert(rest.skip(k - start + 1) =~= b@.subrange(k + 1, b@.len() as int));
            } else {
                lemma_split_without_sep(rest, DOT);
                assert(rest =~= piece);
            }
            assert(split_on(b@, DOT)[done.len() as int] == piece);
        }
        match parse_decimal(b, start, k, 255) {
            None => {
                assert(!is_decimal_at_most(split_on(b@, DOT)[done.len() as int], 255));
                return None;
            },
            Some(v) => {
                out.push(v as u8);
                proof {
                    let ghost prev = done;
                    done = done.push(piece);
                    assert(octet_values(done) =~= octet_values(prev).push(v as u8));
                }
            },
        }
        if k == b.len() {
            assert(split_on(b@, DOT) =~= done);
            return Some(out);
        }
        assert(split_on(b@, DOT) =~= done + split_on(
            b@.subrange(k + 1, b@.len() as int),
            DOT,
        ));
        start = k + 1;
    }
}

/// The address to listen on, from a dotted-decimal IPv4 host and a decimal port.
pub fn get_address(host: &str, port: &str) -> (r: Result<BindAddress, ConfigError>)
    ensures
        match address_of(host.spec_bytes(), port.spec_bytes()) {
            Ok(a) => r matches Ok(x) && address_view(x) == a,
            Err(e) => r == Err::<BindAddress, ConfigError>(e),
        },
{
    let pb = port.as_bytes();
    assert(pb@.subrange(0, pb@.len() as int) =~= pb@);
    let p = match parse_decimal(pb, 0, pb.len(), 65535) {
        None => {
            return Err(ConfigError::InvalidPort);
        },
        Some(p) => p,
    };
    let hb = host.as_bytes();
    let v = match parse_octets(hb) {
        None => {
            return Err(ConfigError::InvalidHost);
        },
        Some(v) => v,
    };
    if v.len() != 4 {
        return Err(ConfigError::InvalidHost);
    }
    let a = BindAddress { octets: [v[0], v[1], v[2], v[3]], port: p as u16 };
    assert(a.octets@ =~= v@);
    Ok(a)
}

/// The view of a setting as UTF-8 bytes.
pub open spec fn setting_bytes(s: Option<String>) -> Option<Seq<u8>> {
    match s {
        None => None,
        Some(t) => Some(encode_utf8(t@)),
    }
}

/// The address that the host and port settings denote; a missing or bad port is
/// reported before a missing or bad host.
pub open spec fn settings_address(host: Option<Seq<u8>>, port: Option<Seq<u8>>) -> Result<
    (Seq<u8>, nat),
    ConfigError,
> {
    match port {
        None => Err(ConfigError::InvalidPort),
        Some(p) => match host {
            None => if port_of(p) is None {
                Err(ConfigError::InvalidPort)
            } else {
                Err(ConfigError::InvalidHost)
            },
            Some(h) => address_of(h, p),
        },
    }
}

/// Resolves the settings: the base-domain label must be given, then the port and the
/// host must denote an address.
pub fn resolve_config(settings: Settings) -> (r: Result<Config, ConfigError>)
    ensures
        settings.base_domain is None ==> (r matches Err(ConfigError::Missing(name)) && name@
            == "base domain"@),
        settings.base_domain matches Some(l) ==> match settings_address(
            setting_bytes(settings.host),
            setting_bytes(settings.port),
        ) {
            Err(e) => r == Err::<Config, ConfigError>(e),
            Ok(a) => r matches Ok(c) && address_view(c.address) == a && c.base_label@ == l@,
        },
{
    let base_label = match settings.base_domain {
        None => {
            return Err(ConfigError::Missing(String::from_str("base domain")));
        },
        Some(l) => l,
    };
    let port = match settings.port {
        None => {
            return Err(ConfigError::InvalidPort);
        },
        Some(p) => p,
    };
    let host = match settings.host {
        None => {
            let pb = port.as_str().as_bytes();
            assert(pb@.subrange(0, pb@.len() as int) =~= pb@);
            return match parse_decimal(pb, 0, pb.len(), 65535) {
                None => Err(ConfigError::InvalidPort),
                Some(_) => Err(ConfigError::InvalidHost),
            };
        },
        Some(h) => h,
    };
    let address = get_address(host.as_str(), port.as_str())?;
    Ok(Config { address, base_label })
}

} // verus!