//! The program's settings: their defaults, and reading a port number.
use vstd::prelude::*;
use vstd::string::*;

verus! {

/// Where the server listens.
#[derive(Debug, Clone, PartialEq, Eq)]
pub struct ServerConfig {
    pub host: String,
    pub port: u16,
}

/// The program's settings.
#[derive(Debug, Clone, PartialEq, Eq)]
pub struct AppConfig {
    pub server: ServerConfig,
    pub log_level: String,
}

/// The host that is used where none is set.
pub open spec fn default_host() -> Seq<char> {
    "127.0.0.1"@
}

/// The port that is used where none is set.
pub open spec fn default_port() -> u16 {
    8080
}

/// The log level that is used where none is set.
pub open spec fn default_log_level() -> Seq<char> {
    "info"@
}

impl AppConfig {
    /// The settings from what the environment gave; each value that is
    /// missing takes its default.
    pub fn from_settings(host: Option<String>, port: Option<u16>, log_level: Option<String>) -> (config:
        AppConfig)
        ensures
            config.server.host@ == (match host {
                Some(h) => h@,
                None => default_host(),
            }),
            config.server.port == (match port {
                Some(p) => p,
                None => default_port(),
            }),
            config.log_level@ == (match log_level {
                Some(l) => l@,
                None => default_log_level(),
            }),
    {
        let host = match host {
            Some(h) => h,
            None => String::from_str("127.0.0.1"),
        };
        let port = match port {
            Some(p) => p,
            None => 8080,
        };
        let log_level = match log_level {
            Some(l) => l,
            None => String::from_str("info"),
        };
        AppConfig { server: ServerConfig { host, port }, log_level }
    }
}

/// The port that a text writes: an optional `+`, then one or more ASCII
/// digits and nothing else, with a value of at most 65535.
pub open spec fn port_of(text: Seq<u8>) -> Option<u16> {
    let digits = port_digits(text);
    if digits.len() > 0 && all_digits(digits) && digits_value(digits) <= u16::MAX {
        Some(digits_value(digits) as u16)
    } else {
        None
    }
}

/// The digits of a port number's text: the text without a leading `+`.
pub open spec fn port_digits(text: Seq<u8>) -> Seq<u8> {
    if text.len() > 0 && text[0] == 0x2b {
        text.skip(1)
    } else {
        text
    }
}

/// Whether every byte is an ASCII digit.
pub open spec fn all_digits(bytes: Seq<u8>) -> bool {
    forall|i: int| 0 <= i < bytes.len() ==> is_digit(#[trigger] bytes[i])
}

/// Whether the byte is an ASCII digit.
pub open spec fn is_digit(byte: u8) -> bool {
    0x30 <= byte <= 0x39
}

/// The number that a run of ASCII digits writes in base ten.
pub open spec fn digits_value(digits: Seq<u8>) -> nat
    decreases digits.len(),
{
    if digits.len() == 0 {
        0
    } else {
        digits_value(digits.drop_last()) * 10 + (digits.last() - 0x30) as nat
    }
}

/// Reads a port number: an optional `+`, then ASCII digits. Anything else,
/// and a number above 65535, is no port.
pub fn parse_port(text: &str) -> (port: Option<u16>)
    ensures
        port == port_of(text.spec_bytes()),
{
    let bytes = text.as_bytes();
    let n = bytes.len();
    let start: usize = if n > 0 && bytes[0] == 0x2b {
        1
    } else {
        0
    };
    if start == n {
        return None;
    }
    let ghost digits = port_digits(bytes@);
    let mut value: u32 = 0;
    let mut i: usize = start;
    assert(digits.take(0) =~= Seq::<u8>::empty());
    while i < n
        invariant
            n == bytes@.len(),
            bytes@ == text.spec_bytes(),
            start <= i <= n,
            start < n,
            digits == port_digits(bytes@),
            digits == bytes@.skip(start as int),
            all_digits(digits.take(i - start)),
            value == digits_value(digits.take(i - start)),
            value <= u16::MAX,
        decreases n - i,
    {
        let byte = bytes[i];
        assert(digits[i - start] == byte);
        if byte < 0x30 || byte > 0x39 {
            assert(!all_digits(digits));
            return None;
        }
        proof {
            let upto = digits.take(i - start + 1);
            assert(upto.drop_last() =~= digits.take(i - start));
            assert(upto.last() == byte);
            assert forall|k: int| 0 <= k < upto.len() implies is_digit(#[trigger] upto[k]) by {
                if k < i - start {
                    assert(digits.take(i - start)[k] == upto[k]);
                }
            }
        }
        value = value * 10 + (byte - 0x30) as u32;
        if value > 65535 {
            proof {
                if all_digits(digits) {
                    lemma_digits_value_grows(digits, i - start + 1);
                }
            }
            return None;
        }
        i += 1;
    }
    assert(digits.take(n - start) =~= digits);
    Some(value as u16)
}

/// A run of digits writes a number that is at least the number written by
/// any shorter run it starts with.
pub proof fn lemma_digits_value_grows(digits: Seq<u8>, n: int)
    requires
        0 <= n <= digits.len(),
        all_digits(digits),
    ensures
        digits_value(digits.take(n)) <= digits_value(digits),
    decreases digits.len() - n,
{
    if n == digits.len() {
        assert(digits.take(n) =~= digits);
    } else {
        lemma_digits_value_grows(digits, n + 1);
        assert(digits.take(n + 1).drop_last() =~= digits.take(n));
        assert(is_digit(digits.take(n + 1).last()));
    }
}

} // verus!
