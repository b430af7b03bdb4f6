//! Network values: addresses, socket addresses, networks, endpoints and the
//! configuration of a tunnel device.
use crate::foreign::{address_octets, class_of, lemma_views_equal, JValue, JavaValue};
use crate::project::IntoJava;
use vstd::array::array_as_slice;
use vstd::prelude::*;
use vstd::slice::slice_to_vec;

verus! {

pub const INET_SOCKET_ADDRESS_CLASS: &'static str = "java/net/InetSocketAddress";

pub const INET_SOCKET_ADDRESS_SIGNATURE: &'static str = "(Ljava/net/InetAddress;I)V";

pub const INET_NETWORK_CLASS: &'static str = "net/mullvad/talpid/tun_provider/InetNetwork";

pub const INET_NETWORK_SIGNATURE: &'static str = "(Ljava/net/InetAddress;S)V";

pub const TUN_CONFIG_CLASS: &'static str = "net/mullvad/talpid/tun_provider/TunConfig";

pub const TUN_CONFIG_SIGNATURE: &'static str = "(Ljava/util/List;Ljava/util/List;Ljava/util/List;I)V";

pub const TCP_CLASS: &'static str = "net/mullvad/talpid/net/TransportProtocol$Tcp";

pub const UDP_CLASS: &'static str = "net/mullvad/talpid/net/TransportProtocol$Udp";

pub const ENDPOINT_CLASS: &'static str = "net/mullvad/talpid/net/Endpoint";

pub const ENDPOINT_SIGNATURE: &'static str =
    "(Ljava/net/InetSocketAddress;Lnet/mullvad/talpid/net/TransportProtocol;)V";

pub const TUNNEL_ENDPOINT_CLASS: &'static str = "net/mullvad/talpid/net/TunnelEndpoint";

pub const TUNNEL_ENDPOINT_SIGNATURE: &'static str = "(Lnet/mullvad/talpid/net/Endpoint;)V";

/// An IPv4 address, as its four octets in network order.
#[derive(Clone, Copy, Debug, PartialEq, Eq)]
pub struct Ipv4Address {
    pub octets: [u8; 4],
}

/// An IPv6 address, as its sixteen octets in network order.
#[derive(Clone, Copy, Debug, PartialEq, Eq)]
pub struct Ipv6Address {
    pub octets: [u8; 16],
}

#[derive(Clone, Copy, Debug, PartialEq, Eq)]
pub enum IpAddress {
    V4(Ipv4Address),
    V6(Ipv6Address),
}

#[derive(Clone, Copy, Debug, PartialEq, Eq)]
pub struct SocketAddress {
    pub ip: IpAddress,
    pub port: u16,
}

/// An address together with the length of its network prefix.
#[derive(Clone, Copy, Debug, PartialEq, Eq)]
pub struct IpNetwork {
    pub ip: IpAddress,
    pub prefix: u8,
}

#[derive(Clone, Copy, Debug, PartialEq, Eq)]
pub enum TransportProtocol {
    Tcp,
    Udp,
}

#[derive(Clone, Copy, Debug, PartialEq, Eq)]
pub struct Endpoint {
    pub address: SocketAddress,
    pub protocol: TransportProtocol,
}

#[derive(Clone, Copy, Debug, PartialEq, Eq)]
pub struct TunnelEndpoint {
    pub endpoint: Endpoint,
}

/// What the tunnel device is set up with.
#[derive(Clone, Debug, PartialEq, Eq)]
pub struct TunConfig {
    pub addresses: Vec<IpAddress>,
    pub dns_servers: Vec<IpAddress>,
    pub routes: Vec<IpNetwork>,
    pub mtu: u16,
}

impl IpAddress {
    /// The octets of the address: four for IPv4, sixteen for IPv6.
    pub open spec fn octets(self) -> Seq<u8> {
        match self {
            IpAddress::V4(a) => a.octets@,
            IpAddress::V6(a) => a.octets@,
        }
    }
}

/// The foreign address built from `original_octets` by the runtime's
/// "address from bytes" factory.
pub fn ipvx_addr_into_java(original_octets: &[u8]) -> (r: JavaValue)
    ensures
        r@ == JValue::Address(original_octets@),
{
    JavaValue::Address(slice_to_vec(original_octets))
}

impl IntoJava for Ipv4Address {
    open spec fn projection(self) -> JValue {
        JValue::Address(self.octets@)
    }

    fn into_java(self) -> (r: JavaValue) {
        ipvx_addr_into_java(array_as_slice(&self.octets))
    }
}

impl IntoJava for Ipv6Address {
    open spec fn projection(self) -> JValue {
        JValue::Address(self.octets@)
    }

    fn into_java(self) -> (r: JavaValue) {
        ipvx_addr_into_java(array_as_slice(&self.octets))
    }
}

impl IntoJava for IpAddress {
    open spec fn projection(self) -> JValue {
        match self {
            IpAddress::V4(address) => address.projection(),
            IpAddress::V6(address) => address.projection(),
        }
    }

    fn into_java(self) -> (r: JavaValue) {
        match self {
            IpAddress::V4(address) => address.into_java(),
            IpAddress::V6(address) => address.into_java(),
        }
    }
}

impl IntoJava for SocketAddress {
    open spec fn projection(self) -> JValue {
        JValue::Object {
            class: INET_SOCKET_ADDRESS_CLASS@,
            signature: INET_SOCKET_ADDRESS_SIGNATURE@,
            args: seq![self.ip.projection(), JValue::Int(self.port as i32)],
        }
    }

    fn into_java(self) -> (r: JavaValue) {
        let ip_address = self.ip.into_java();
        let port = JavaValue::Int(self.port as i32);
        let args = vec![ip_address, port];
        proof {
            lemma_views_equal(args@, seq![self.ip.projection(), JValue::Int(self.port as i32)]);
        }
        JavaValue::object(INET_SOCKET_ADDRESS_CLASS, INET_SOCKET_ADDRESS_SIGNATURE, args)
    }
}

impl IntoJava for IpNetwork {
    open spec fn projection(self) -> JValue {
        JValue::Object {
            class: INET_NETWORK_CLASS@,
            signature: INET_NETWORK_SIGNATURE@,
            args: seq![self.ip.projection(), JValue::Short(self.prefix as i16)],
        }
    }

    fn into_java(self) -> (r: JavaValue) {
        let address = self.ip.into_java();
        let prefix_length = JavaValue::Short(self.prefix as i16);
        let args = vec![address, prefix_length];
        proof {
            lemma_views_equal(args@, seq![self.ip.projection(), JValue::Short(self.prefix as i16)]);
        }
        JavaValue::object(INET_NETWORK_CLASS, INET_NETWORK_SIGNATURE, args)
    }
}

impl IntoJava for TunConfig {
    open spec fn projection(self) -> JValue {
        JValue::Object {
            class: TUN_CONFIG_CLASS@,
            signature: TUN_CONFIG_SIGNATURE@,
            args: seq![
                self.addresses.projection(),
                self.dns_servers.projection(),
                self.routes.projection(),
                JValue::Int(self.mtu as i32),
            ],
        }
    }

    fn into_java(self) -> (r: JavaValue) {
        let ghost original = self;
        let addresses = self.addresses.into_java();
        let dns_servers = self.dns_servers.into_java();
        let routes = self.routes.into_java();
        let mtu = JavaValue::Int(self.mtu as i32);
        let args = vec![addresses, dns_servers, routes, mtu];
        proof {
            lemma_views_equal(
                args@,
                seq![
                    original.addresses.projection(),
                    original.dns_servers.projection(),
                    original.routes.projection(),
                    JValue::Int(original.mtu as i32),
                ],
            );
        }
        JavaValue::object(TUN_CONFIG_CLASS, TUN_CONFIG_SIGNATURE, args)
    }
}

impl IntoJava for TransportProtocol {
    open spec fn projection(self) -> JValue {
        JValue::Object {
            class: self.class(),
            signature: "()V"@,
            args: Seq::empty(),
        }
    }

    fn into_java(self) -> (r: JavaValue) {
        let class_name = match self {
            TransportProtocol::Tcp => TCP_CLASS,
            TransportProtocol::Udp => UDP_CLASS,
        };
        JavaValue::unit_object(class_name)
    }
}

impl IntoJava for Endpoint {
    open spec fn projection(self) -> JValue {
        JValue::Object {
            class: ENDPOINT_CLASS@,
            signature: ENDPOINT_SIGNATURE@,
            args: seq![self.address.projection(), self.protocol.projection()],
        }
    }

    fn into_java(self) -> (r: JavaValue) {
        let address = self.address.into_java();
        let protocol = self.protocol.into_java();
        let args = vec![address, protocol];
        proof {
            lemma_views_equal(args@, seq![self.address.projection(), self.protocol.projection()]);
        }
        JavaValue::object(ENDPOINT_CLASS, ENDPOINT_SIGNATURE, args)
    }
}

impl IntoJava for TunnelEndpoint {
    open spec fn projection(self) -> JValue {
        JValue::Object {
            class: TUNNEL_ENDPOINT_CLASS@,
            signature: TUNNEL_ENDPOINT_SIGNATURE@,
            args: seq![self.endpoint.projection()],
        }
    }

    fn into_java(self) -> (r: JavaValue) {
        let endpoint = self.endpoint.into_java();
        let args = vec![endpoint];
        proof {
            lemma_views_equal(args@, seq![self.endpoint.projection()]);
        }
        JavaValue::object(TUNNEL_ENDPOINT_CLASS, TUNNEL_ENDPOINT_SIGNATURE, args)
    }
}

impl TransportProtocol {
    /// The foreign class of each variant.
    pub open spec fn class(self) -> Seq<char> {
        match self {
            TransportProtocol::Tcp => TCP_CLASS@,
            TransportProtocol::Udp => UDP_CLASS@,
        }
    }
}

/// Reading back the octets of a projected address gives the address's own
/// octets: four for IPv4, sixteen for IPv6.
pub proof fn lemma_address_round_trip(a: IpAddress)
    ensures
        address_octets(a.projection()) == Some(a.octets()),
        a is V4 ==> a.octets().len() == 4,
        a is V6 ==> a.octets().len() == 16,
{
}

/// A transport protocol becomes an object of its own variant's class, and the
/// two variants' classes differ.
pub proof fn lemma_transport_protocol_class(a: TransportProtocol, b: TransportProtocol)
    ensures
        class_of(a.projection()) == Some(a.class()),
        a != b ==> a.class() != b.class(),
{
    reveal_strlit("net/mullvad/talpid/net/TransportProtocol$Tcp");
    reveal_strlit("net/mullvad/talpid/net/TransportProtocol$Udp");
    if a != b {
        assert(a.class()[41] != b.class()[41]);
    }
}

} // verus!
