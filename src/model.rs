//! The daemon's account, version, location, relay and settings values.
use crate::foreign::{class_of, lemma_views_equal, unit_object, JValue, JavaValue};
use crate::net::{Ipv4Address, Ipv6Address};
use crate::project::IntoJava;
use vstd::array::array_as_slice;
use vstd::prelude::*;

verus! {

pub const PUBLIC_KEY_CLASS: &'static str = "net/mullvad/mullvadvpn/model/PublicKey";

pub const PUBLIC_KEY_SIGNATURE: &'static str = "([BLjava/lang/String;)V";

pub const APP_VERSION_INFO_CLASS: &'static str = "net/mullvad/mullvadvpn/model/AppVersionInfo";

pub const APP_VERSION_INFO_SIGNATURE: &'static str = "(ZZLjava/lang/String;Ljava/lang/String;)V";

pub const ACCOUNT_DATA_CLASS: &'static str = "net/mullvad/mullvadvpn/model/AccountData";

pub const ACCOUNT_DATA_SIGNATURE: &'static str = "(Ljava/lang/String;)V";

pub const GEO_IP_LOCATION_CLASS: &'static str = "net/mullvad/mullvadvpn/model/GeoIpLocation";

pub const GEO_IP_LOCATION_SIGNATURE: &'static str =
    "(Ljava/net/InetAddress;Ljava/net/InetAddress;Ljava/lang/String;Ljava/lang/String;Ljava/lang/String;)V";

pub const RELAY_LIST_CLASS: &'static str = "net/mullvad/mullvadvpn/model/RelayList";

pub const RELAY_LIST_SIGNATURE: &'static str = "(Ljava/util/List;)V";

pub const RELAY_LIST_COUNTRY_CLASS: &'static str = "net/mullvad/mullvadvpn/model/RelayListCountry";

pub const RELAY_LIST_CITY_CLASS: &'static str = "net/mullvad/mullvadvpn/model/RelayListCity";

pub const NAME_CODE_LIST_SIGNATURE: &'static str =
    "(Ljava/lang/String;Ljava/lang/String;Ljava/util/List;)V";

pub const RELAY_CLASS: &'static str = "net/mullvad/mullvadvpn/model/Relay";

pub const RELAY_SIGNATURE: &'static str = "(Ljava/lang/String;ZZ)V";

/// A WireGuard public key and when it was created.
#[derive(Clone, Debug, PartialEq, Eq)]
pub struct PublicKey {
    pub key: [u8; 32],
    /// The creation time, as the daemon writes it out.
    pub created: String,
}

#[derive(Clone, Debug, PartialEq, Eq)]
pub struct AppVersionInfo {
    pub current_is_supported: bool,
    pub current_is_outdated: bool,
    pub latest_stable: String,
    pub latest: String,
}

#[derive(Clone, Debug, PartialEq, Eq)]
pub struct AccountData {
    /// The expiry time, as the daemon writes it out.
    pub expiry: String,
}

#[derive(Clone, Debug, PartialEq, Eq)]
pub struct GeoIpLocation {
    pub ipv4: Option<Ipv4Address>,
    pub ipv6: Option<Ipv6Address>,
    pub country: String,
    pub city: Option<String>,
    pub hostname: Option<String>,
}

#[derive(Clone, Debug, PartialEq, Eq)]
pub struct RelayList {
    pub countries: Vec<RelayListCountry>,
}

#[derive(Clone, Debug, PartialEq, Eq)]
pub struct RelayListCountry {
    pub name: String,
    pub code: String,
    pub cities: Vec<RelayListCity>,
}

#[derive(Clone, Debug, PartialEq, Eq)]
pub struct RelayListCity {
    pub name: String,
    pub code: String,
    pub relays: Vec<Relay>,
}

#[derive(Clone, Debug, PartialEq, Eq)]
pub struct Relay {
    pub hostname: String,
    pub active: bool,
    /// How many WireGuard tunnels the relay offers.
    pub wireguard_tunnel_count: usize,
}

impl IntoJava for PublicKey {
    open spec fn projection(self) -> JValue {
        JValue::Object {
            class: PUBLIC_KEY_CLASS@,
            signature: PUBLIC_KEY_SIGNATURE@,
            args: seq![JValue::Bytes(self.key@), JValue::Text(self.created@)],
        }
    }

    fn into_java(self) -> (r: JavaValue) {
        let ghost original = self;
        let key = array_as_slice(&self.key).into_java();
        let date_created = self.created.into_java();
        let args = vec![key, date_created];
        proof {
            lemma_views_equal(
                args@,
                seq![JValue::Bytes(original.key@), JValue::Text(original.created@)],
            );
        }
        JavaValue::object(PUBLIC_KEY_CLASS, PUBLIC_KEY_SIGNATURE, args)
    }
}

impl IntoJava for AppVersionInfo {
    open spec fn projection(self) -> JValue {
        JValue::Object {
            class: APP_VERSION_INFO_CLASS@,
            signature: APP_VERSION_INFO_SIGNATURE@,
            args: seq![
                JValue::Bool(self.current_is_supported),
                JValue::Bool(self.current_is_outdated),
                self.latest_stable.projection(),
                self.latest.projection(),
            ],
        }
    }

    fn into_java(self) -> (r: JavaValue) {
        let ghost original = self;
        let current_is_supported = JavaValue::Bool(self.current_is_supported);
        let current_is_outdated = JavaValue::Bool(self.current_is_outdated);
        let latest_stable = self.latest_stable.into_java();
        let latest = self.latest.into_java();
        let args = vec![current_is_supported, current_is_outdated, latest_stable, latest];
        proof {
            lemma_views_equal(args@, original.projection()->Object_args);
        }
        JavaValue::object(APP_VERSION_INFO_CLASS, APP_VERSION_INFO_SIGNATURE, args)
    }
}

impl IntoJava for AccountData {
    open spec fn projection(self) -> JValue {
        JValue::Object {
            class: ACCOUNT_DATA_CLASS@,
            signature: ACCOUNT_DATA_SIGNATURE@,
            args: seq![self.expiry.projection()],
        }
    }

    fn into_java(self) -> (r: JavaValue) {
        let ghost original = self;
        let account_expiry = self.expiry.into_java();
        let args = vec![account_expiry];
        proof {
            lemma_views_equal(args@, original.projection()->Object_args);
        }
        JavaValue::object(ACCOUNT_DATA_CLASS, ACCOUNT_DATA_SIGNATURE, args)
    }
}

impl IntoJava for GeoIpLocation {
    open spec fn projection(self) -> JValue {
        JValue::Object {
            class: GEO_IP_LOCATION_CLASS@,
            signature: GEO_IP_LOCATION_SIGNATURE@,
            args: seq![
                self.ipv4.projection(),
                self.ipv6.projection(),
                self.country.projection(),
                self.city.projection(),
                self.hostname.projection(),
            ],
        }
    }

    fn into_java(self) -> (r: JavaValue) {
        let ghost original = self;
        let ipv4 = self.ipv4.into_java();
        let ipv6 = self.ipv6.into_java();
        let country = self.country.into_java();
        let city = self.city.into_java();
        let hostname = self.hostname.into_java();
        let args = vec![ipv4, ipv6, country, city, hostname];
        proof {
            lemma_views_equal(args@, original.projection()->Object_args);
        }
        JavaValue::object(GEO_IP_LOCATION_CLASS, GEO_IP_LOCATION_SIGNATURE, args)
    }
}

impl IntoJava for RelayList {
    open spec fn projection(self) -> JValue {
        JValue::Object {
            class: RELAY_LIST_CLASS@,
            signature: RELAY_LIST_SIGNATURE@,
            args: seq![self.countries.projection()],
        }
    }

    fn into_java(self) -> (r: JavaValue) {
        let ghost original = self;
        let relay_countries = self.countries.into_java();
        let args = vec![relay_countries];
        proof {
            lemma_views_equal(args@, original.projection()->Object_args);
        }
        JavaValue::object(RELAY_LIST_CLASS, RELAY_LIST_SIGNATURE, args)
    }
}

impl IntoJava for RelayListCountry {
    open spec fn projection(self) -> JValue {
        JValue::Object {
            class: RELAY_LIST_COUNTRY_CLASS@,
            signature: NAME_CODE_LIST_SIGNATURE@,
            args: seq![self.name.projection(), self.code.projection(), self.cities.projection()],
        }
    }

    fn into_java(self) -> (r: JavaValue) {
        let ghost original = self;
        let name = self.name.into_java();
        let code = self.code.into_java();
        let relay_cities = self.cities.into_java();
        let args = vec![name, code, relay_cities];
        proof {
            lemma_views_equal(args@, original.projection()->Object_args);
        }
        JavaValue::object(RELAY_LIST_COUNTRY_CLASS, NAME_CODE_LIST_SIGNATURE, args)
    }
}

impl IntoJava for RelayListCity {
    open spec fn projection(self) -> JValue {
        JValue::Object {
            class: RELAY_LIST_CITY_CLASS@,
            signature: NAME_CODE_LIST_SIGNATURE@,
            args: seq![self.name.projection(), self.code.projection(), self.relays.projection()],
        }
    }

    fn into_java(self) -> (r: JavaValue) {
        let ghost original = self;
        let name = self.name.into_java();
        let code = self.code.into_java();
        let relays = self.relays.into_java();
        let args = vec![name, code, relays];
        proof {
            lemma_views_equal(args@, original.projection()->Object_args);
        }
        JavaValue::object(RELAY_LIST_CITY_CLASS, NAME_CODE_LIST_SIGNATURE, args)
    }
}

impl IntoJava for Relay {
    open spec fn projection(self) -> JValue {
        JValue::Object {
            class: RELAY_CLASS@,
            signature: RELAY_SIGNATURE@,
            args: seq![
                self.hostname.projection(),
                JValue::Bool(self.wireguard_tunnel_count != 0),
                JValue::Bool(self.active),
            ],
        }
    }

    fn into_java(self) -> (r: JavaValue) {
        let ghost original = self;
        let hostname = self.hostname.into_java();
        let has_wireguard_tunnels = JavaValue::Bool(self.wireguard_tunnel_count != 0);
        let active = JavaValue::Bool(self.active);
        let args = vec![hostname, has_wireguard_tunnels, active];
        proof {
            lemma_views_equal(args@, original.projection()->Object_args);
        }
        JavaValue::object(RELAY_CLASS, RELAY_SIGNATURE, args)
    }
}

pub const KEYGEN_NEW_KEY_CLASS: &'static str = "net/mullvad/mullvadvpn/model/KeygenEvent$NewKey";

pub const KEYGEN_NEW_KEY_SIGNATURE: &'static str =
    "(Lnet/mullvad/mullvadvpn/model/PublicKey;Ljava/lang/Boolean;Lnet/mullvad/mullvadvpn/model/KeygenFailure;)V";

pub const KEYGEN_FAILURE_EVENT_CLASS: &'static str = "net/mullvad/mullvadvpn/model/KeygenEvent$Failure";

pub const KEYGEN_FAILURE_EVENT_SIGNATURE: &'static str =
    "(Lnet/mullvad/mullvadvpn/model/KeygenFailure;)V";

pub const TOO_MANY_KEYS_CLASS: &'static str = "net/mullvad/mullvadvpn/model/KeygenFailure$TooManyKeys";

pub const GENERATION_FAILURE_CLASS: &'static str =
    "net/mullvad/mullvadvpn/model/KeygenFailure$GenerationFailure";

/// The outcome of generating a WireGuard key.
#[derive(Clone, Debug, PartialEq, Eq)]
pub enum KeygenEvent {
    NewKey(PublicKey),
    TooManyKeys,
    GenerationFailure,
}

impl KeygenEvent {
    /// The foreign class of each variant: both failures are one class, which
    /// carries the kind of failure as an object of its own.
    pub open spec fn class(self) -> Seq<char> {
        match self {
            KeygenEvent::NewKey(_) => KEYGEN_NEW_KEY_CLASS@,
            _ => KEYGEN_FAILURE_EVENT_CLASS@,
        }
    }
}

impl IntoJava for KeygenEvent {
    open spec fn projection(self) -> JValue {
        match self {
            KeygenEvent::NewKey(public_key) => JValue::Object {
                class: KEYGEN_NEW_KEY_CLASS@,
                signature: KEYGEN_NEW_KEY_SIGNATURE@,
                args: seq![public_key.projection(), JValue::Null, JValue::Null],
            },
            KeygenEvent::TooManyKeys => JValue::Object {
                class: KEYGEN_FAILURE_EVENT_CLASS@,
                signature: KEYGEN_FAILURE_EVENT_SIGNATURE@,
                args: seq![unit_object(TOO_MANY_KEYS_CLASS@)],
            },
            KeygenEvent::GenerationFailure => JValue::Object {
                class: KEYGEN_FAILURE_EVENT_CLASS@,
                signature: KEYGEN_FAILURE_EVENT_SIGNATURE@,
                args: seq![unit_object(GENERATION_FAILURE_CLASS@)],
            },
        }
    }

    fn into_java(self) -> (r: JavaValue) {
        let ghost original = self;
        let args = match self {
            KeygenEvent::NewKey(public_key) => {
                let java_public_key = public_key.into_java();
                let args = vec![java_public_key, JavaValue::Null, JavaValue::Null];
                proof {
                    lemma_views_equal(args@, original.projection()->Object_args);
                }
                return JavaValue::object(KEYGEN_NEW_KEY_CLASS, KEYGEN_NEW_KEY_SIGNATURE, args);
            },
            KeygenEvent::TooManyKeys => vec![JavaValue::unit_object(TOO_MANY_KEYS_CLASS)],
            KeygenEvent::GenerationFailure => vec![JavaValue::unit_object(GENERATION_FAILURE_CLASS)],
        };
        proof {
            lemma_views_equal(args@, original.projection()->Object_args);
        }
        JavaValue::object(KEYGEN_FAILURE_EVENT_CLASS, KEYGEN_FAILURE_EVENT_SIGNATURE, args)
    }
}


impl KeygenEvent {
    /// The position of the active variant in the declaration.
    pub open spec fn tag(self) -> nat {
        match self {
            KeygenEvent::NewKey(_) => 0,
            KeygenEvent::TooManyKeys => 1,
            KeygenEvent::GenerationFailure => 2,
        }
    }

    /// The class of the object that says what kind of failure a failed
    /// generation was.
    pub open spec fn failure_class(self) -> Seq<char> {
        match self {
            KeygenEvent::TooManyKeys => TOO_MANY_KEYS_CLASS@,
            _ => GENERATION_FAILURE_CLASS@,
        }
    }
}

/// A new key becomes an object of the `NewKey` class; a failure becomes an
/// object of the failure class whose one field is an object of the class of
/// that kind of failure, and the two kinds' classes differ.
pub proof fn lemma_keygen_event_class(a: KeygenEvent, b: KeygenEvent)
    ensures
        class_of(a.projection()) == Some(a.class()),
        a is NewKey ==> a.class() != b.class() || b is NewKey,
        !(a is NewKey) ==> a.projection()->Object_args.len() == 1 && class_of(
            a.projection()->Object_args[0],
        ) == Some(a.failure_class()),
        !(a is NewKey) && !(b is NewKey) && a.tag() != b.tag() ==> a.failure_class()
            != b.failure_class(),
{
    reveal_strlit("net/mullvad/mullvadvpn/model/KeygenEvent$NewKey");
    reveal_strlit("net/mullvad/mullvadvpn/model/KeygenEvent$Failure");
    reveal_strlit("net/mullvad/mullvadvpn/model/KeygenFailure$TooManyKeys");
    reveal_strlit("net/mullvad/mullvadvpn/model/KeygenFailure$GenerationFailure");
    assert(KEYGEN_NEW_KEY_CLASS@.len() != KEYGEN_FAILURE_EVENT_CLASS@.len());
    assert(TOO_MANY_KEYS_CLASS@.len() != GENERATION_FAILURE_CLASS@.len());
}

} // verus!
