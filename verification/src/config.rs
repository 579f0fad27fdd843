//! The configuration of the transport.

use vstd::prelude::*;
use vstd::string::StringExecFns;

use crate::error;

verus! {

/// The relay map of iroh, which the transport only hands through.
#[verifier::external_type_specification]
#[verifier::external_body]
pub struct ExRelayMap(iroh::RelayMap);

/// The relay servers that an endpoint uses.
pub enum RelayMode {
    /// None at all.
    Disabled,
    /// The production servers of n0.
    Default,
    /// The staging servers of n0.
    Staging,
    /// The servers of the given map.
    Custom(iroh::RelayMap),
}

/// A span of time, to the nanosecond.
#[derive(Clone, Copy, Debug, PartialEq, Eq)]
pub struct Timeout {
    secs: u64,
    nanos: u32,
}

impl View for Timeout {
    type V = nat;

    /// The span in nanoseconds.
    closed spec fn view(&self) -> nat {
        (self.secs * 1_000_000_000 + self.nanos) as nat
    }
}

/// The text that the formatter of the standard library writes for a `Duration` of so many
/// nanoseconds under `{:?}`.
pub uninterp spec fn duration_text(nanos: nat) -> Seq<char>;

/// Formats a `std::time::Duration` with `{:?}`, by `std`'s `format!`. The claim is that the
/// outcome depends on the length of the span alone.
#[verifier::external_body]
fn std_duration_text(secs: u64, nanos: u32) -> (out: String)
    requires
        nanos < 1_000_000_000,
    ensures
        out@ == duration_text((secs * 1_000_000_000 + nanos) as nat),
{
    let duration = std::time::Duration::new(secs, nanos);
    format!("{duration:?}")
}

/// Formats an `iroh::RelayMap` with `{:?}`, by its `Debug`. Nothing is claimed of the text: the
/// map may change behind a shared handle.
#[verifier::external_body]
fn iroh_relay_map_text(map: &iroh::RelayMap) -> String {
    format!("{map:?}")
}

impl Timeout {
    #[verifier::type_invariant]
    closed spec fn inv(self) -> bool {
        self.nanos < 1_000_000_000
    }

    /// A span of `secs` seconds and `nanos` nanoseconds, if the latter make less than a second.
    pub fn new(secs: u64, nanos: u32) -> (timeout: Option<Timeout>)
        ensures
            timeout is Some <==> nanos < 1_000_000_000,
            timeout matches Some(t) ==> t@ == secs * 1_000_000_000 + nanos,
    {
        if nanos < 1_000_000_000 {
            Some(Timeout { secs, nanos })
        } else {
            None
        }
    }

    /// A span of `secs` seconds.
    pub fn from_secs(secs: u64) -> (timeout: Timeout)
        ensures
            timeout@ == secs * 1_000_000_000,
    {
        Timeout { secs, nanos: 0 }
    }

    /// The whole seconds of the span.
    pub fn as_secs(&self) -> (secs: u64)
        ensures
            secs == self@ / 1_000_000_000,
    {
        proof {
            use_type_invariant(self);
        }
        self.secs
    }

    /// The nanoseconds beyond the whole seconds.
    pub fn subsec_nanos(&self) -> (nanos: u32)
        ensures
            nanos == self@ % 1_000_000_000,
    {
        proof {
            use_type_invariant(self);
        }
        self.nanos
    }

    /// The span as it is shown to a user.
    pub fn debug_text(&self) -> (text: String)
        ensures
            text@ == duration_text(self@),
    {
        proof {
            use_type_invariant(self);
        }
        std_duration_text(self.secs, self.nanos)
    }
}

/// How a relay mode is shown, where `custom` shows its map if it has one.
pub open spec fn relay_text(mode: RelayMode, custom: Seq<char>) -> Seq<char> {
    match mode {
        RelayMode::Disabled => "Disabled"@,
        RelayMode::Default => "Default"@,
        RelayMode::Staging => "Staging"@,
        RelayMode::Custom(_) => "Custom("@ + custom + ")"@,
    }
}

impl RelayMode {
    /// The mode as it is shown to a developer, where `custom` shows its map if it has one.
    pub fn debug_text(&self, custom: String) -> (text: String)
        ensures
            text@ == relay_text(*self, custom@),
    {
        match self {
            RelayMode::Disabled => String::from_str("Disabled"),
            RelayMode::Default => String::from_str("Default"),
            RelayMode::Staging => String::from_str("Staging"),
            RelayMode::Custom(_) => error::show("Custom(", custom),
        }
    }
}

/// The configuration of a transport. `F` is the type of the peer filter.
pub struct TransportConfig<F> {
    /// The relay servers to use. By default those of n0.
    pub relay_mode: RelayMode,
    /// How long a dial attempt may take. By default 300 seconds.
    pub timeout: Timeout,
    /// The filter for incoming connections: `true` accepts a peer, `false` rejects it. Without
    /// a filter all peers are accepted.
    pub peer_filter: Option<F>,
}

impl<F> Default for TransportConfig<F> {
    fn default() -> (config: Self)
        ensures
            config.relay_mode == RelayMode::Default,
            config.timeout@ == 300 * 1_000_000_000,
            config.peer_filter is None,
    {
        TransportConfig {
            relay_mode: RelayMode::Default,
            timeout: Timeout::from_secs(300),
            peer_filter: None,
        }
    }
}

/// How a configuration is shown, where `custom` shows its relay map if it has one. The filter is
/// a function, of which only the presence can be shown.
pub open spec fn config_text<F>(config: TransportConfig<F>, custom: Seq<char>) -> Seq<char> {
    "TransportConfig { relay_mode: "@ + error::quoted(relay_text(config.relay_mode, custom))
        + ", timeout: "@ + duration_text(config.timeout@) + ", peer_filter: "@ + (
    if config.peer_filter is Some {
        "Some("@ + error::quoted("Some(<fn>)"@) + ")"@
    } else {
        "None"@
    }) + " }"@
}

impl<F> TransportConfig<F> {
    /// The configuration as it is shown to a developer. What a custom relay map shows is not
    /// fixed.
    pub fn debug_text(&self) -> (text: String)
        ensures
            exists|custom: Seq<char>| text@ == #[trigger] config_text(*self, custom),
    {
        let custom = match &self.relay_mode {
            RelayMode::Custom(map) => iroh_relay_map_text(map),
            _ => String::new(),
        };
        self.debug_text_with(custom)
    }

    /// The configuration as it is shown to a developer, where `custom` shows its relay map if it
    /// has one.
    pub fn debug_text_with(&self, custom: String) -> (text: String)
        ensures
            text@ == config_text(*self, custom@),
    {
        let relay_mode = self.relay_mode.debug_text(custom);
        let peer_filter = match &self.peer_filter {
            Some(_) => error::show("Some(", error::std_quoted("Some(<fn>)")),
            None => String::from_str("None"),
        };
        fields_text(
            error::std_quoted(relay_mode.as_str()),
            self.timeout.debug_text(),
            peer_filter,
        )
    }
}

/// The three fields of a configuration in one line.
pub fn fields_text(relay_mode: String, timeout: String, peer_filter: String) -> (text: String)
    ensures
        text@ == "TransportConfig { relay_mode: "@ + relay_mode@ + ", timeout: "@ + timeout@
            + ", peer_filter: "@ + peer_filter@ + " }"@,
{
    String::from_str("TransportConfig { relay_mode: ").concat(relay_mode.as_str()).concat(
        ", timeout: ",
    ).concat(timeout.as_str()).concat(", peer_filter: ").concat(peer_filter.as_str()).concat(" }")
}

} // verus!
