//! The tunnel's state as the daemon reports it, and the reasons that go with it.
use crate::foreign::{class_of, lemma_views_equal, unit_object, JValue, JavaValue};
use crate::model::GeoIpLocation;
use crate::net::TunnelEndpoint;
use crate::project::IntoJava;
use vstd::prelude::*;

verus! {

pub const AFTER_DISCONNECT_NOTHING_CLASS: &'static str =
    "net/mullvad/talpid/tunnel/ActionAfterDisconnect$Nothing";

pub const AFTER_DISCONNECT_BLOCK_CLASS: &'static str =
    "net/mullvad/talpid/tunnel/ActionAfterDisconnect$Block";

pub const AFTER_DISCONNECT_RECONNECT_CLASS: &'static str =
    "net/mullvad/talpid/tunnel/ActionAfterDisconnect$Reconnect";

pub const BLOCK_AUTH_FAILED_CLASS: &'static str = "net/mullvad/talpid/tunnel/BlockReason$AuthFailed";

pub const BLOCK_AUTH_FAILED_SIGNATURE: &'static str = "(Ljava/lang/String;)V";

pub const BLOCK_IPV6_UNAVAILABLE_CLASS: &'static str =
    "net/mullvad/talpid/tunnel/BlockReason$Ipv6Unavailable";

pub const BLOCK_SET_FIREWALL_POLICY_ERROR_CLASS: &'static str =
    "net/mullvad/talpid/tunnel/BlockReason$SetFirewallPolicyError";

pub const BLOCK_SET_DNS_ERROR_CLASS: &'static str = "net/mullvad/talpid/tunnel/BlockReason$SetDnsError";

pub const BLOCK_START_TUNNEL_ERROR_CLASS: &'static str =
    "net/mullvad/talpid/tunnel/BlockReason$StartTunnelError";

pub const BLOCK_PARAMETER_GENERATION_CLASS: &'static str =
    "net/mullvad/talpid/tunnel/BlockReason$ParameterGeneration";

pub const BLOCK_PARAMETER_GENERATION_SIGNATURE: &'static str =
    "(Lnet/mullvad/talpid/tunnel/ParameterGenerationError;)V";

pub const BLOCK_IS_OFFLINE_CLASS: &'static str = "net/mullvad/talpid/tunnel/BlockReason$IsOffline";

pub const BLOCK_TAP_ADAPTER_PROBLEM_CLASS: &'static str =
    "net/mullvad/talpid/tunnel/BlockReason$TapAdapterProblem";

pub const NO_MATCHING_RELAY_CLASS: &'static str =
    "net/mullvad/talpid/tunnel/ParameterGenerationError$NoMatchingRelay";

pub const NO_MATCHING_BRIDGE_RELAY_CLASS: &'static str =
    "net/mullvad/talpid/tunnel/ParameterGenerationError$NoMatchingBridgeRelay";

pub const NO_WIREGUARD_KEY_CLASS: &'static str =
    "net/mullvad/talpid/tunnel/ParameterGenerationError$NoWireguardKey";

pub const CUSTOM_TUNNEL_HOST_RESOLUTION_ERROR_CLASS: &'static str =
    "net/mullvad/talpid/tunnel/ParameterGenerationError$CustomTunnelHostResultionError";

pub const DISCONNECTED_CLASS: &'static str = "net/mullvad/mullvadvpn/model/TunnelState$Disconnected";

pub const CONNECTING_CLASS: &'static str = "net/mullvad/mullvadvpn/model/TunnelState$Connecting";

pub const CONNECTED_CLASS: &'static str = "net/mullvad/mullvadvpn/model/TunnelState$Connected";

pub const DISCONNECTING_CLASS: &'static str = "net/mullvad/mullvadvpn/model/TunnelState$Disconnecting";

pub const BLOCKED_CLASS: &'static str = "net/mullvad/mullvadvpn/model/TunnelState$Blocked";

pub const CONNECTION_SIGNATURE: &'static str =
    "(Lnet/mullvad/talpid/net/TunnelEndpoint;Lnet/mullvad/mullvadvpn/model/GeoIpLocation;)V";

pub const DISCONNECTING_SIGNATURE: &'static str = "(Lnet/mullvad/talpid/tunnel/ActionAfterDisconnect;)V";

pub const BLOCKED_SIGNATURE: &'static str = "(Lnet/mullvad/talpid/tunnel/BlockReason;)V";

#[derive(Clone, Copy, Debug, PartialEq, Eq)]
pub enum ActionAfterDisconnect {
    Nothing,
    Block,
    Reconnect,
}

/// Why tunnel parameters could not be generated.
#[derive(Clone, Copy, Debug, PartialEq, Eq)]
pub enum ParameterGenerationError {
    NoMatchingRelay,
    NoMatchingBridgeRelay,
    NoWireguardKey,
    CustomTunnelHostResultionError,
}

/// Why the tunnel blocks all traffic.
#[derive(Clone, Debug, PartialEq, Eq)]
pub enum BlockReason {
    AuthFailed(Option<String>),
    Ipv6Unavailable,
    SetFirewallPolicyError,
    SetDnsError,
    StartTunnelError,
    TunnelParameterError(ParameterGenerationError),
    IsOffline,
    TapAdapterProblem,
}

#[derive(Clone, Debug, PartialEq, Eq)]
pub enum TunnelState {
    Disconnected,
    Connecting { endpoint: TunnelEndpoint, location: Option<GeoIpLocation> },
    Connected { endpoint: TunnelEndpoint, location: Option<GeoIpLocation> },
    Disconnecting(ActionAfterDisconnect),
    Blocked(BlockReason),
}

impl ActionAfterDisconnect {
    /// The foreign class of each variant.
    pub open spec fn class(self) -> Seq<char> {
        match self {
            ActionAfterDisconnect::Nothing => AFTER_DISCONNECT_NOTHING_CLASS@,
            ActionAfterDisconnect::Block => AFTER_DISCONNECT_BLOCK_CLASS@,
            ActionAfterDisconnect::Reconnect => AFTER_DISCONNECT_RECONNECT_CLASS@,
        }
    }
}

impl IntoJava for ActionAfterDisconnect {
    open spec fn projection(self) -> JValue {
        unit_object(self.class())
    }

    fn into_java(self) -> (r: JavaValue) {
        let class_name = match self {
            ActionAfterDisconnect::Nothing => AFTER_DISCONNECT_NOTHING_CLASS,
            ActionAfterDisconnect::Block => AFTER_DISCONNECT_BLOCK_CLASS,
            ActionAfterDisconnect::Reconnect => AFTER_DISCONNECT_RECONNECT_CLASS,
        };
        JavaValue::unit_object(class_name)
    }
}

impl ParameterGenerationError {
    /// The foreign class of each variant.
    pub open spec fn class(self) -> Seq<char> {
        match self {
            ParameterGenerationError::NoMatchingRelay => NO_MATCHING_RELAY_CLASS@,
            ParameterGenerationError::NoMatchingBridgeRelay => NO_MATCHING_BRIDGE_RELAY_CLASS@,
            ParameterGenerationError::NoWireguardKey => NO_WIREGUARD_KEY_CLASS@,
            ParameterGenerationError::CustomTunnelHostResultionError =>
                CUSTOM_TUNNEL_HOST_RESOLUTION_ERROR_CLASS@,
        }
    }
}

impl IntoJava for ParameterGenerationError {
    open spec fn projection(self) -> JValue {
        unit_object(self.class())
    }

    fn into_java(self) -> (r: JavaValue) {
        let class_name = match self {
            ParameterGenerationError::NoMatchingRelay => NO_MATCHING_RELAY_CLASS,
            ParameterGenerationError::NoMatchingBridgeRelay => NO_MATCHING_BRIDGE_RELAY_CLASS,
            ParameterGenerationError::NoWireguardKey => NO_WIREGUARD_KEY_CLASS,
            ParameterGenerationError::CustomTunnelHostResultionError =>
                CUSTOM_TUNNEL_HOST_RESOLUTION_ERROR_CLASS,
        };
        JavaValue::unit_object(class_name)
    }
}

impl BlockReason {
    /// The foreign class of each variant.
    pub open spec fn class(self) -> Seq<char> {
        match self {
            BlockReason::AuthFailed(_) => BLOCK_AUTH_FAILED_CLASS@,
            BlockReason::Ipv6Unavailable => BLOCK_IPV6_UNAVAILABLE_CLASS@,
            BlockReason::SetFirewallPolicyError => BLOCK_SET_FIREWALL_POLICY_ERROR_CLASS@,
            BlockReason::SetDnsError => BLOCK_SET_DNS_ERROR_CLASS@,
            BlockReason::StartTunnelError => BLOCK_START_TUNNEL_ERROR_CLASS@,
            BlockReason::TunnelParameterError(_) => BLOCK_PARAMETER_GENERATION_CLASS@,
            BlockReason::IsOffline => BLOCK_IS_OFFLINE_CLASS@,
            BlockReason::TapAdapterProblem => BLOCK_TAP_ADAPTER_PROBLEM_CLASS@,
        }
    }
}

impl IntoJava for BlockReason {
    open spec fn projection(self) -> JValue {
        match self {
            BlockReason::AuthFailed(reason) => JValue::Object {
                class: self.class(),
                signature: BLOCK_AUTH_FAILED_SIGNATURE@,
                args: seq![reason.projection()],
            },
            BlockReason::TunnelParameterError(reason) => JValue::Object {
                class: self.class(),
                signature: BLOCK_PARAMETER_GENERATION_SIGNATURE@,
                args: seq![reason.projection()],
            },
            _ => unit_object(self.class()),
        }
    }

    fn into_java(self) -> (r: JavaValue) {
        let ghost original = self;
        let class_name = match self {
            BlockReason::AuthFailed(reason) => {
                let reason = reason.into_java();
                let args = vec![reason];
                proof {
                    lemma_views_equal(args@, original.projection()->Object_args);
                }
                return JavaValue::object(BLOCK_AUTH_FAILED_CLASS, BLOCK_AUTH_FAILED_SIGNATURE, args);
            },
            BlockReason::Ipv6Unavailable => BLOCK_IPV6_UNAVAILABLE_CLASS,
            BlockReason::SetFirewallPolicyError => BLOCK_SET_FIREWALL_POLICY_ERROR_CLASS,
            BlockReason::SetDnsError => BLOCK_SET_DNS_ERROR_CLASS,
            BlockReason::StartTunnelError => BLOCK_START_TUNNEL_ERROR_CLASS,
            BlockReason::TunnelParameterError(reason) => {
                let reason = reason.into_java();
                let args = vec![reason];
                proof {
                    lemma_views_equal(args@, original.projection()->Object_args);
                }
                return JavaValue::object(
                    BLOCK_PARAMETER_GENERATION_CLASS,
                    BLOCK_PARAMETER_GENERATION_SIGNATURE,
                    args,
                );
            },
            BlockReason::IsOffline => BLOCK_IS_OFFLINE_CLASS,
            BlockReason::TapAdapterProblem => BLOCK_TAP_ADAPTER_PROBLEM_CLASS,
        };
        JavaValue::unit_object(class_name)
    }
}

impl TunnelState {
    /// The foreign class of each variant.
    pub open spec fn class(self) -> Seq<char> {
        match self {
            TunnelState::Disconnected => DISCONNECTED_CLASS@,
            TunnelState::Connecting { .. } => CONNECTING_CLASS@,
            TunnelState::Connected { .. } => CONNECTED_CLASS@,
            TunnelState::Disconnecting(_) => DISCONNECTING_CLASS@,
            TunnelState::Blocked(_) => BLOCKED_CLASS@,
        }
    }
}

impl IntoJava for TunnelState {
    open spec fn projection(self) -> JValue {
        match self {
            TunnelState::Disconnected => unit_object(self.class()),
            TunnelState::Connecting { endpoint, location }
            | TunnelState::Connected { endpoint, location } => JValue::Object {
                class: self.class(),
                signature: CONNECTION_SIGNATURE@,
                args: seq![endpoint.projection(), location.projection()],
            },
            TunnelState::Disconnecting(action_after_disconnect) => JValue::Object {
                class: self.class(),
                signature: DISCONNECTING_SIGNATURE@,
                args: seq![action_after_disconnect.projection()],
            },
            TunnelState::Blocked(block_reason) => JValue::Object {
                class: self.class(),
                signature: BLOCKED_SIGNATURE@,
                args: seq![block_reason.projection()],
            },
        }
    }

    fn into_java(self) -> (r: JavaValue) {
        let ghost original = self;
        match self {
            TunnelState::Disconnected => JavaValue::unit_object(DISCONNECTED_CLASS),
            TunnelState::Connecting { endpoint, location } => {
                let endpoint = endpoint.into_java();
                let location = location.into_java();
                let args = vec![endpoint, location];
                proof {
                    lemma_views_equal(args@, original.projection()->Object_args);
                }
                JavaValue::object(CONNECTING_CLASS, CONNECTION_SIGNATURE, args)
            },
            TunnelState::Connected { endpoint, location } => {
                let endpoint = endpoint.into_java();
                let location = location.into_java();
                let args = vec![endpoint, location];
                proof {
                    lemma_views_equal(args@, original.projection()->Object_args);
                }
                JavaValue::object(CONNECTED_CLASS, CONNECTION_SIGNATURE, args)
            },
            TunnelState::Disconnecting(action_after_disconnect) => {
                let after_disconnect = action_after_disconnect.into_java();
                let args = vec![after_disconnect];
                proof {
                    lemma_views_equal(args@, original.projection()->Object_args);
                }
                JavaValue::object(DISCONNECTING_CLASS, DISCONNECTING_SIGNATURE, args)
            },
            TunnelState::Blocked(block_reason) => {
                let reason = block_reason.into_java();
                let args = vec![reason];
                proof {
                    lemma_views_equal(args@, original.projection()->Object_args);
                }
                JavaValue::object(BLOCKED_CLASS, BLOCKED_SIGNATURE, args)
            },
        }
    }
}

impl TunnelState {
    /// The position of the active variant in the declaration.
    pub open spec fn tag(self) -> nat {
        match self {
            TunnelState::Disconnected => 0,
            TunnelState::Connecting { .. } => 1,
            TunnelState::Connected { .. } => 2,
            TunnelState::Disconnecting(_) => 3,
            TunnelState::Blocked(_) => 4,
        }
    }
}

/// A tunnel state becomes an object of the class of its own variant, and the
/// classes of two different variants differ.
pub proof fn lemma_tunnel_state_class(a: TunnelState, b: TunnelState)
    ensures
        class_of(a.projection()) == Some(a.class()),
        a.tag() != b.tag() ==> a.class() != b.class(),
{
    reveal_strlit("net/mullvad/mullvadvpn/model/TunnelState$Disconnected");
    reveal_strlit("net/mullvad/mullvadvpn/model/TunnelState$Connecting");
    reveal_strlit("net/mullvad/mullvadvpn/model/TunnelState$Connected");
    reveal_strlit("net/mullvad/mullvadvpn/model/TunnelState$Disconnecting");
    reveal_strlit("net/mullvad/mullvadvpn/model/TunnelState$Blocked");
    if a.tag() != b.tag() {
        assert(a.class().len() != b.class().len());
    }
}


impl ActionAfterDisconnect {
    /// The position of the active variant in the declaration.
    pub open spec fn tag(self) -> nat {
        match self {
            ActionAfterDisconnect::Nothing => 0,
            ActionAfterDisconnect::Block => 1,
            ActionAfterDisconnect::Reconnect => 2,
        }
    }
}

impl ParameterGenerationError {
    /// The position of the active variant in the declaration.
    pub open spec fn tag(self) -> nat {
        match self {
            ParameterGenerationError::NoMatchingRelay => 0,
            ParameterGenerationError::NoMatchingBridgeRelay => 1,
            ParameterGenerationError::NoWireguardKey => 2,
            ParameterGenerationError::CustomTunnelHostResultionError => 3,
        }
    }
}

impl BlockReason {
    /// The position of the active variant in the declaration.
    pub open spec fn tag(self) -> nat {
        match self {
            BlockReason::AuthFailed(_) => 0,
            BlockReason::Ipv6Unavailable => 1,
            BlockReason::SetFirewallPolicyError => 2,
            BlockReason::SetDnsError => 3,
            BlockReason::StartTunnelError => 4,
            BlockReason::TunnelParameterError(_) => 5,
            BlockReason::IsOffline => 6,
            BlockReason::TapAdapterProblem => 7,
        }
    }
}

/// An action after disconnecting becomes an object of its own variant's class,
/// and the classes of two different variants differ.
pub proof fn lemma_action_after_disconnect_class(a: ActionAfterDisconnect, b: ActionAfterDisconnect)
    ensures
        class_of(a.projection()) == Some(a.class()),
        a.tag() != b.tag() ==> a.class() != b.class(),
{
    reveal_strlit("net/mullvad/talpid/tunnel/ActionAfterDisconnect$Nothing");
    reveal_strlit("net/mullvad/talpid/tunnel/ActionAfterDisconnect$Block");
    reveal_strlit("net/mullvad/talpid/tunnel/ActionAfterDisconnect$Reconnect");
    if a.tag() != b.tag() {
        assert(a.class().len() != b.class().len());
    }
}

/// A parameter generation error becomes an object of its own variant's class,
/// and the classes of two different variants differ.
pub proof fn lemma_parameter_generation_error_class(
    a: ParameterGenerationError,
    b: ParameterGenerationError,
)
    ensures
        class_of(a.projection()) == Some(a.class()),
        a.tag() != b.tag() ==> a.class() != b.class(),
{
    reveal_strlit("net/mullvad/talpid/tunnel/ParameterGenerationError$NoMatchingRelay");
    reveal_strlit("net/mullvad/talpid/tunnel/ParameterGenerationError$NoMatchingBridgeRelay");
    reveal_strlit("net/mullvad/talpid/tunnel/ParameterGenerationError$NoWireguardKey");
    reveal_strlit("net/mullvad/talpid/tunnel/ParameterGenerationError$CustomTunnelHostResultionError");
    if a.tag() != b.tag() {
        assert(a.class().len() != b.class().len());
    }
}

/// A block reason becomes an object of its own variant's class, and the classes
/// of two different variants differ.
pub proof fn lemma_block_reason_class(a: BlockReason, b: BlockReason)
    ensures
        class_of(a.projection()) == Some(a.class()),
        a.tag() != b.tag() ==> a.class() != b.class(),
{
    reveal_strlit("net/mullvad/talpid/tunnel/BlockReason$AuthFailed");
    reveal_strlit("net/mullvad/talpid/tunnel/BlockReason$Ipv6Unavailable");
    reveal_strlit("net/mullvad/talpid/tunnel/BlockReason$SetFirewallPolicyError");
    reveal_strlit("net/mullvad/talpid/tunnel/BlockReason$SetDnsError");
    reveal_strlit("net/mullvad/talpid/tunnel/BlockReason$StartTunnelError");
    reveal_strlit("net/mullvad/talpid/tunnel/BlockReason$ParameterGeneration");
    reveal_strlit("net/mullvad/talpid/tunnel/BlockReason$IsOffline");
    reveal_strlit("net/mullvad/talpid/tunnel/BlockReason$TapAdapterProblem");
    if a.tag() != b.tag() {
        assert(a.class().len() != b.class().len());
    }
}

} // verus!
