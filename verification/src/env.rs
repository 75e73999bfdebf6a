//! Configuration values and their parsing.
//!
//! Reading the process environment is left to the binary; this module owns
//! the meaning of the values: which chain the node pair serves, how boolean
//! flags are spelled, and the configuration record the rest of the system
//! consumes once at startup.

use vstd::prelude::*;

verus! {

/// The chain the node pair serves. Fixed at process start; selects whether
/// peer-count checks apply and the execution-layer peer minimum.
#[derive(Debug, Clone, Copy, PartialEq, Eq, Structural)]
pub enum Network {
    Mainnet,
    Goerli,
    Holesky,
    Hoodi,
}

impl Network {
    /// The lower-case name of the network, as it is spelled in
    /// configuration.
    pub fn as_str(&self) -> (s: &'static str)
        ensures
            *self is Mainnet ==> s@ == "mainnet"@,
            *self is Goerli ==> s@ == "goerli"@,
            *self is Holesky ==> s@ == "holesky"@,
            *self is Hoodi ==> s@ == "hoodi"@,
    {
        match self {
            Network::Mainnet => "mainnet",
            Network::Goerli => "goerli",
            Network::Holesky => "holesky",
            Network::Hoodi => "hoodi",
        }
    }
}

/// The startup configuration: upstream base URLs, the interface policy for
/// the HTTP listener, and the network profile. Read once; never mutated.
#[derive(Debug, Clone)]
pub struct EnvConfig {
    pub beacon_url: String,
    pub bind_public_interface: bool,
    pub execution_node_url: String,
    pub network: Network,
}

/// `c` with an ASCII capital letter lowered; anything else unchanged.
pub open spec fn lower_char(c: char) -> char {
    if 'A' as int <= c as int && c as int <= 'Z' as int {
        (c as int + 32) as char
    } else {
        c
    }
}

/// `s` with every ASCII capital letter lowered.
pub open spec fn lower(s: Seq<char>) -> Seq<char> {
    s.map_values(|c: char| lower_char(c))
}

/// Whether lowering `a` gives `b`.
fn char_lower_eq(a: char, b: char) -> (r: bool)
    ensures
        r == (lower_char(a) == b),
{
    let ua: u32 = a as u32;
    let ub: u32 = b as u32;
    if 65 <= ua && ua <= 90 {
        ua + 32 == ub
    } else {
        ua == ub
    }
}

/// Whether `s`, lowered, reads exactly `t`.
fn eq_ignore_case(s: &str, t: &str) -> (r: bool)
    ensures
        r == (lower(s@) == t@),
{
    let n: usize = s.unicode_len();
    let m: usize = t.unicode_len();
    if n != m {
        proof {
            assert(lower(s@).len() == s@.len());
        }
        return false;
    }
    let mut i: usize = 0;
    while i < n
        invariant
            i <= n,
            n == s@.len(),
            n == t@.len(),
            lower(s@).len() == s@.len(),
            forall|j: int| 0 <= j < i ==> lower(s@)[j] == t@[j],
        decreases n - i,
    {
        let a: char = s.get_char(i);
        let b: char = t.get_char(i);
        if !char_lower_eq(a, b) {
            proof {
                assert(lower(s@)[i as int] == lower_char(a));
            }
            return false;
        }
        proof {
            assert(lower(s@)[i as int] == lower_char(a));
        }
        i = i + 1;
    }
    proof {
        assert(lower(s@) =~= t@);
    }
    true
}

/// Whether `a` and `b` read the same.
fn str_eq(a: &str, b: &str) -> (r: bool)
    ensures
        r == (a@ == b@),
{
    let n: usize = a.unicode_len();
    let m: usize = b.unicode_len();
    if n != m {
        return false;
    }
    let mut i: usize = 0;
    while i < n
        invariant
            i <= n,
            n == a@.len(),
            n == b@.len(),
            forall|j: int| 0 <= j < i ==> a@[j] == b@[j],
        decreases n - i,
    {
        let x: char = a.get_char(i);
        let y: char = b.get_char(i);
        if x != y {
            return false;
        }
        i = i + 1;
    }
    proof {
        assert(a@ =~= b@);
    }
    true
}

/// The network a configuration string names, matched without regard to
/// case; `None` for an unknown name.
pub open spec fn spec_parse_network(s: Seq<char>) -> Option<Network> {
    if lower(s) == "mainnet"@ {
        Some(Network::Mainnet)
    } else if lower(s) == "goerli"@ {
        Some(Network::Goerli)
    } else if lower(s) == "holesky"@ {
        Some(Network::Holesky)
    } else if lower(s) == "hoodi"@ {
        Some(Network::Hoodi)
    } else {
        None
    }
}

pub fn parse_network(s: &str) -> (r: Option<Network>)
    ensures
        r == spec_parse_network(s@),
{
    if eq_ignore_case(s, "mainnet") {
        Some(Network::Mainnet)
    } else if eq_ignore_case(s, "goerli") {
        Some(Network::Goerli)
    } else if eq_ignore_case(s, "holesky") {
        Some(Network::Holesky)
    } else if eq_ignore_case(s, "hoodi") {
        Some(Network::Hoodi)
    } else {
        None
    }
}

/// The network the process serves, from the configured name: an absent
/// name means the primary network. The caller rejects unknown names
/// before calling, as `parse_network` decides them.
pub fn get_network(network_str: Option<String>) -> (n: Network)
    requires
        network_str matches Some(s) ==> spec_parse_network(s@) is Some,
    ensures
        network_str is None ==> n == Network::Mainnet,
        network_str matches Some(s) ==> Some(n) == spec_parse_network(s@),
{
    match network_str {
        None => Network::Mainnet,
        Some(s) => parse_network(s.as_str()).unwrap(),
    }
}

/// The boolean a configuration string spells: `true`/`t`/`1` and
/// `false`/`f`/`0`, in any case; `None` for anything else.
pub open spec fn spec_parse_env_bool(s: Seq<char>) -> Option<bool> {
    if lower(s) == "true"@ || lower(s) == "t"@ || lower(s) == "1"@ {
        Some(true)
    } else if lower(s) == "false"@ || lower(s) == "f"@ || lower(s) == "0"@ {
        Some(false)
    } else {
        None
    }
}

pub fn parse_env_bool(s: &str) -> (r: Option<bool>)
    ensures
        r == spec_parse_env_bool(s@),
{
    if eq_ignore_case(s, "true") || eq_ignore_case(s, "t") || eq_ignore_case(s, "1") {
        Some(true)
    } else if eq_ignore_case(s, "false") || eq_ignore_case(s, "f") || eq_ignore_case(s, "0") {
        Some(false)
    } else {
        None
    }
}

/// A boolean flag from the environment: absent means `None`. The caller
/// rejects unreadable spellings before calling, as `parse_env_bool`
/// decides them.
pub fn get_env_bool(value: Option<String>) -> (r: Option<bool>)
    requires
        value matches Some(s) ==> spec_parse_env_bool(s@) is Some,
    ensures
        value is None ==> r is None,
        value matches Some(s) ==> r == spec_parse_env_bool(s@),
{
    match value {
        None => None,
        Some(s) => parse_env_bool(s.as_str()),
    }
}

/// An environment value the process cannot run without; the caller has
/// already established that it is present.
pub fn get_env_var_unsafe(value: Option<String>) -> (r: String)
    requires
        value is Some,
    ensures
        Some(r) == value,
{
    value.unwrap()
}

/// The last characters of a secret that a log line may show.
pub open spec fn spec_last_four(value: Seq<char>) -> Seq<char> {
    if value.len() <= 4 {
        value
    } else {
        value.skip(value.len() - 4)
    }
}

/// Whether `key` stands in the blacklist of secret keys.
pub open spec fn spec_in_blacklist(blacklist: Seq<&str>, key: Seq<char>) -> bool {
    exists|i: int| 0 <= i < blacklist.len() && blacklist[i]@ == key
}

/// A value fit for a log line: a blacklisted key's value is masked down to
/// its last four characters; any other value passes through.
pub fn obfuscate_if_secret(blacklist: &[&str], key: &str, value: &str) -> (r: String)
    ensures
        spec_in_blacklist(blacklist@, key@) ==> r@ == "****"@ + spec_last_four(value@),
        !spec_in_blacklist(blacklist@, key@) ==> r@ == value@,
{
    let mut found: bool = false;
    let mut i: usize = 0;
    let n: usize = blacklist.len();
    while i < n
        invariant
            i <= n,
            n == blacklist@.len(),
            found <==> exists|j: int| 0 <= j < i && blacklist@[j]@ == key@,
        decreases n - i,
    {
        if str_eq(blacklist[i], key) {
            found = true;
        }
        i = i + 1;
    }
    if found {
        let len: usize = value.unicode_len();
        let start: usize = if len > 4 {
            len - 4
        } else {
            0
        };
        let tail: &str = value.substring_char(start, len);
        proof {
            assert(value@.subrange(start as int, len as int) =~= spec_last_four(value@));
        }
        String::from_str("****").concat(tail)
    } else {
        String::from_str(value)
    }
}

} // verus!
