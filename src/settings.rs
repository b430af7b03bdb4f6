//! Relay constraints and the settings that carry them.
use crate::foreign::{class_of, lemma_views_equal, JValue, JavaValue};
use crate::project::IntoJava;
use vstd::prelude::*;

verus! {

pub const CONSTRAINT_ANY_CLASS: &'static str = "net/mullvad/mullvadvpn/model/Constraint$Any";

pub const CONSTRAINT_ONLY_CLASS: &'static str = "net/mullvad/mullvadvpn/model/Constraint$Only";

pub const CONSTRAINT_ONLY_SIGNATURE: &'static str = "(Ljava/lang/Object;)V";

pub const LOCATION_COUNTRY_CLASS: &'static str =
    "net/mullvad/mullvadvpn/model/LocationConstraint$Country";

pub const LOCATION_CITY_CLASS: &'static str = "net/mullvad/mullvadvpn/model/LocationConstraint$City";

pub const LOCATION_HOSTNAME_CLASS: &'static str =
    "net/mullvad/mullvadvpn/model/LocationConstraint$Hostname";

pub const ONE_STRING_SIGNATURE: &'static str = "(Ljava/lang/String;)V";

pub const TWO_STRINGS_SIGNATURE: &'static str = "(Ljava/lang/String;Ljava/lang/String;)V";

pub const THREE_STRINGS_SIGNATURE: &'static str =
    "(Ljava/lang/String;Ljava/lang/String;Ljava/lang/String;)V";

pub const CUSTOM_TUNNEL_ENDPOINT_CLASS: &'static str =
    "net/mullvad/mullvadvpn/model/RelaySettings$CustomTunnelEndpoint";

pub const RELAY_CONSTRAINTS_CLASS: &'static str =
    "net/mullvad/mullvadvpn/model/RelaySettings$RelayConstraints";

pub const RELAY_CONSTRAINTS_SIGNATURE: &'static str = "(Lnet/mullvad/mullvadvpn/model/Constraint;)V";

pub const SETTINGS_CLASS: &'static str = "net/mullvad/mullvadvpn/model/Settings";

pub const SETTINGS_SIGNATURE: &'static str =
    "(Ljava/lang/String;Lnet/mullvad/mullvadvpn/model/RelaySettings;)V";

/// Either no restriction, or exactly the given value.
#[derive(Clone, Debug, PartialEq, Eq)]
pub enum Constraint<T> {
    Any,
    Only(T),
}

#[derive(Clone, Debug, PartialEq, Eq)]
pub enum LocationConstraint {
    /// A country code.
    Country(String),
    /// A country code and a city code.
    City(String, String),
    /// A country code, a city code and a relay's host name.
    Hostname(String, String, String),
}

#[derive(Clone, Debug, PartialEq, Eq)]
pub struct RelayConstraints {
    pub location: Constraint<LocationConstraint>,
}

/// A tunnel endpoint that the user gave by hand.
#[derive(Clone, Debug, PartialEq, Eq)]
pub struct CustomTunnelEndpoint {
    pub host: String,
}

#[derive(Clone, Debug, PartialEq, Eq)]
pub enum RelaySettings {
    CustomTunnelEndpoint(CustomTunnelEndpoint),
    Normal(RelayConstraints),
}

#[derive(Clone, Debug, PartialEq, Eq)]
pub struct Settings {
    pub account_token: Option<String>,
    pub relay_settings: RelaySettings,
}

impl<T: IntoJava> IntoJava for Constraint<T> {
    open spec fn projection(self) -> JValue {
        match self {
            Constraint::Any => JValue::Object {
                class: CONSTRAINT_ANY_CLASS@,
                signature: "()V"@,
                args: Seq::empty(),
            },
            Constraint::Only(value) => JValue::Object {
                class: CONSTRAINT_ONLY_CLASS@,
                signature: CONSTRAINT_ONLY_SIGNATURE@,
                args: seq![value.projection()],
            },
        }
    }

    fn into_java(self) -> (r: JavaValue) {
        match self {
            Constraint::Any => JavaValue::unit_object(CONSTRAINT_ANY_CLASS),
            Constraint::Only(constraint) => {
                let ghost original = constraint;
                let value = constraint.into_java();
                let args = vec![value];
                proof {
                    lemma_views_equal(args@, seq![original.projection()]);
                }
                JavaValue::object(CONSTRAINT_ONLY_CLASS, CONSTRAINT_ONLY_SIGNATURE, args)
            },
        }
    }
}

impl IntoJava for LocationConstraint {
    open spec fn projection(self) -> JValue {
        match self {
            LocationConstraint::Country(country) => JValue::Object {
                class: LOCATION_COUNTRY_CLASS@,
                signature: ONE_STRING_SIGNATURE@,
                args: seq![JValue::Text(country@)],
            },
            LocationConstraint::City(country, city) => JValue::Object {
                class: LOCATION_CITY_CLASS@,
                signature: TWO_STRINGS_SIGNATURE@,
                args: seq![JValue::Text(country@), JValue::Text(city@)],
            },
            LocationConstraint::Hostname(country, city, hostname) => JValue::Object {
                class: LOCATION_HOSTNAME_CLASS@,
                signature: THREE_STRINGS_SIGNATURE@,
                args: seq![JValue::Text(country@), JValue::Text(city@), JValue::Text(hostname@)],
            },
        }
    }

    fn into_java(self) -> (r: JavaValue) {
        let ghost original = self;
        match self {
            LocationConstraint::Country(country_code) => {
                let country = country_code.into_java();
                let args = vec![country];
                proof {
                    lemma_views_equal(args@, original.projection()->Object_args);
                }
                JavaValue::object(LOCATION_COUNTRY_CLASS, ONE_STRING_SIGNATURE, args)
            },
            LocationConstraint::City(country_code, city_code) => {
                let country = country_code.into_java();
                let city = city_code.into_java();
                let args = vec![country, city];
                proof {
                    lemma_views_equal(args@, original.projection()->Object_args);
                }
                JavaValue::object(LOCATION_CITY_CLASS, TWO_STRINGS_SIGNATURE, args)
            },
            LocationConstraint::Hostname(country_code, city_code, hostname) => {
                let country = country_code.into_java();
                let city = city_code.into_java();
                let hostname = hostname.into_java();
                let args = vec![country, city, hostname];
                proof {
                    lemma_views_equal(args@, original.projection()->Object_args);
                }
                JavaValue::object(LOCATION_HOSTNAME_CLASS, THREE_STRINGS_SIGNATURE, args)
            },
        }
    }
}

impl IntoJava for RelayConstraints {
    open spec fn projection(self) -> JValue {
        JValue::Object {
            class: RELAY_CONSTRAINTS_CLASS@,
            signature: RELAY_CONSTRAINTS_SIGNATURE@,
            args: seq![self.location.projection()],
        }
    }

    fn into_java(self) -> (r: JavaValue) {
        let ghost original = self;
        let location = self.location.into_java();
        let args = vec![location];
        proof {
            lemma_views_equal(args@, original.projection()->Object_args);
        }
        JavaValue::object(RELAY_CONSTRAINTS_CLASS, RELAY_CONSTRAINTS_SIGNATURE, args)
    }
}

/// The foreign class has no fields: only the fact that a custom endpoint is in
/// use is passed on.
impl IntoJava for CustomTunnelEndpoint {
    open spec fn projection(self) -> JValue {
        JValue::Object { class: CUSTOM_TUNNEL_ENDPOINT_CLASS@, signature: "()V"@, args: Seq::empty() }
    }

    fn into_java(self) -> (r: JavaValue) {
        JavaValue::unit_object(CUSTOM_TUNNEL_ENDPOINT_CLASS)
    }
}

/// Each variant is projected as its payload is: the payloads' classes are the
/// foreign subclasses of `RelaySettings`.
impl IntoJava for RelaySettings {
    open spec fn projection(self) -> JValue {
        match self {
            RelaySettings::CustomTunnelEndpoint(endpoint) => endpoint.projection(),
            RelaySettings::Normal(relay_constraints) => relay_constraints.projection(),
        }
    }

    fn into_java(self) -> (r: JavaValue) {
        match self {
            RelaySettings::CustomTunnelEndpoint(endpoint) => endpoint.into_java(),
            RelaySettings::Normal(relay_constraints) => relay_constraints.into_java(),
        }
    }
}

impl IntoJava for Settings {
    open spec fn projection(self) -> JValue {
        JValue::Object {
            class: SETTINGS_CLASS@,
            signature: SETTINGS_SIGNATURE@,
            args: seq![self.account_token.projection(), self.relay_settings.projection()],
        }
    }

    fn into_java(self) -> (r: JavaValue) {
        let ghost original = self;
        let account_token = self.account_token.into_java();
        let relay_settings = self.relay_settings.into_java();
        let args = vec![account_token, relay_settings];
        proof {
            lemma_views_equal(args@, original.projection()->Object_args);
        }
        JavaValue::object(SETTINGS_CLASS, SETTINGS_SIGNATURE, args)
    }
}


impl<T> Constraint<T> {
    /// The foreign class of each variant.
    pub open spec fn class(self) -> Seq<char> {
        match self {
            Constraint::Any => CONSTRAINT_ANY_CLASS@,
            Constraint::Only(_) => CONSTRAINT_ONLY_CLASS@,
        }
    }
}

impl LocationConstraint {
    /// The foreign class of each variant.
    pub open spec fn class(self) -> Seq<char> {
        match self {
            LocationConstraint::Country(_) => LOCATION_COUNTRY_CLASS@,
            LocationConstraint::City(_, _) => LOCATION_CITY_CLASS@,
            LocationConstraint::Hostname(_, _, _) => LOCATION_HOSTNAME_CLASS@,
        }
    }

    /// The position of the active variant in the declaration.
    pub open spec fn tag(self) -> nat {
        match self {
            LocationConstraint::Country(_) => 0,
            LocationConstraint::City(_, _) => 1,
            LocationConstraint::Hostname(_, _, _) => 2,
        }
    }
}

impl RelaySettings {
    /// The foreign class of each variant: that of its payload.
    pub open spec fn class(self) -> Seq<char> {
        match self {
            RelaySettings::CustomTunnelEndpoint(_) => CUSTOM_TUNNEL_ENDPOINT_CLASS@,
            RelaySettings::Normal(_) => RELAY_CONSTRAINTS_CLASS@,
        }
    }
}

/// A constraint becomes an object of its own variant's class, and the two
/// variants' classes differ.
pub proof fn lemma_constraint_class<T: IntoJava>(a: Constraint<T>, b: Constraint<T>)
    ensures
        class_of(a.projection()) == Some(a.class()),
        a is Any != b is Any ==> a.class() != b.class(),
{
    reveal_strlit("net/mullvad/mullvadvpn/model/Constraint$Any");
    reveal_strlit("net/mullvad/mullvadvpn/model/Constraint$Only");
    assert(CONSTRAINT_ANY_CLASS@.len() != CONSTRAINT_ONLY_CLASS@.len());
}

/// A location constraint becomes an object of its own variant's class, and the
/// classes of two different variants differ.
pub proof fn lemma_location_constraint_class(a: LocationConstraint, b: LocationConstraint)
    ensures
        class_of(a.projection()) == Some(a.class()),
        a.tag() != b.tag() ==> a.class() != b.class(),
{
    reveal_strlit("net/mullvad/mullvadvpn/model/LocationConstraint$Country");
    reveal_strlit("net/mullvad/mullvadvpn/model/LocationConstraint$City");
    reveal_strlit("net/mullvad/mullvadvpn/model/LocationConstraint$Hostname");
    if a.tag() != b.tag() {
        assert(a.class().len() != b.class().len());
    }
}

/// Relay settings become an object of the class of their variant's payload, and
/// the two variants' classes differ.
pub proof fn lemma_relay_settings_class(a: RelaySettings, b: RelaySettings)
    ensures
        class_of(a.projection()) == Some(a.class()),
        a is Normal != b is Normal ==> a.class() != b.class(),
{
    reveal_strlit("net/mullvad/mullvadvpn/model/RelaySettings$CustomTunnelEndpoint");
    reveal_strlit("net/mullvad/mullvadvpn/model/RelaySettings$RelayConstraints");
    assert(CUSTOM_TUNNEL_ENDPOINT_CLASS@.len() != RELAY_CONSTRAINTS_CLASS@.len());
}

} // verus!
