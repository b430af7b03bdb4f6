use mullvad_jni::account::{
    classify_error, AccountErrorClass, DaemonError, ErrorCode, RpcErrorKind, INVALID_ACCOUNT_CODE,
};
use mullvad_jni::model::{
    AccountData, GeoIpLocation, KeygenEvent, PublicKey, Relay, RelayListCity, RelayListCountry,
};
use mullvad_jni::net::{
    Endpoint, IpAddress, IpNetwork, Ipv4Address, Ipv6Address, SocketAddress, TransportProtocol,
    TunConfig, TunnelEndpoint,
};
use mullvad_jni::settings::{
    Constraint, CustomTunnelEndpoint, LocationConstraint, RelayConstraints, RelaySettings, Settings,
};
use mullvad_jni::tunnel::{ActionAfterDisconnect, BlockReason, ParameterGenerationError, TunnelState};
use mullvad_jni::{IntoJava, JavaValue};

fn text(s: &str) -> JavaValue {
    JavaValue::Text(s.to_string())
}

fn object(class: &str, signature: &str, args: Vec<JavaValue>) -> JavaValue {
    JavaValue::Object { class: class.to_string(), signature: signature.to_string(), args }
}

fn unit(class: &str) -> JavaValue {
    object(class, "()V", vec![])
}

fn class_of(v: &JavaValue) -> &str {
    match v {
        JavaValue::Object { class, .. } => class,
        other => panic!("not an object: {:?}", other),
    }
}

fn args_of(v: &JavaValue) -> &Vec<JavaValue> {
    match v {
        JavaValue::Object { args, .. } => args,
        other => panic!("not an object: {:?}", other),
    }
}

fn country(name: &str, code: &str) -> RelayListCountry {
    RelayListCountry { name: name.to_string(), code: code.to_string(), cities: vec![] }
}

fn endpoint() -> TunnelEndpoint {
    TunnelEndpoint {
        endpoint: Endpoint {
            address: SocketAddress {
                ip: IpAddress::V4(Ipv4Address { octets: [185, 65, 135, 1] }),
                port: 1194,
            },
            protocol: TransportProtocol::Udp,
        },
    }
}

fn location() -> GeoIpLocation {
    GeoIpLocation {
        ipv4: Some(Ipv4Address { octets: [10, 0, 0, 1] }),
        ipv6: None,
        country: "Sweden".to_string(),
        city: Some("Gothenburg".to_string()),
        hostname: None,
    }
}

#[test]
fn none_is_null() {
    let absent: Option<String> = None;
    assert_eq!(absent.into_java(), JavaValue::Null);
    assert!(JavaValue::Null.is_null());
}

#[test]
fn some_is_projected_value() {
    assert_eq!(Some("token".to_string()).into_java(), text("token"));
    assert_eq!(Some("token".to_string()).into_java(), "token".to_string().into_java());
    assert!(!Some("token".to_string()).into_java().is_null());
}

#[test]
fn string_keeps_text() {
    assert_eq!("Malmö".to_string().into_java(), text("Malmö"));
}

#[test]
fn vector_keeps_length_and_order() {
    let v = vec!["b".to_string(), "a".to_string(), "b".to_string()];
    assert_eq!(v.into_java(), JavaValue::List(vec![text("b"), text("a"), text("b")]));
}

#[test]
fn empty_vector_is_empty_list() {
    let v: Vec<String> = vec![];
    assert_eq!(v.into_java(), JavaValue::List(vec![]));
}

#[test]
fn byte_slice_is_copied_verbatim() {
    let bytes: &[u8] = &[0, 1, 127, 128, 255];
    assert_eq!(bytes.into_java(), JavaValue::Bytes(vec![0, 1, 127, 128, 255]));
}

#[test]
fn ipv4_octets_round_trip() {
    let a = IpAddress::V4(Ipv4Address { octets: [192, 168, 1, 254] });
    assert_eq!(a.into_java(), JavaValue::Address(vec![192, 168, 1, 254]));
}

#[test]
fn ipv6_octets_round_trip() {
    let octets = [0x20, 0x01, 0x0d, 0xb8, 0, 0, 0, 0, 0, 0, 0, 0, 0, 0, 0xff, 0x01];
    let a = IpAddress::V6(Ipv6Address { octets });
    match a.into_java() {
        JavaValue::Address(read_back) => {
            assert_eq!(read_back.len(), 16);
            assert_eq!(read_back, octets.to_vec());
        }
        other => panic!("not an address: {:?}", other),
    }
}

#[test]
fn socket_address_has_address_and_port() {
    let s = SocketAddress { ip: IpAddress::V4(Ipv4Address { octets: [1, 2, 3, 4] }), port: 65535 };
    assert_eq!(
        s.into_java(),
        object(
            "java/net/InetSocketAddress",
            "(Ljava/net/InetAddress;I)V",
            vec![JavaValue::Address(vec![1, 2, 3, 4]), JavaValue::Int(65535)],
        )
    );
}

#[test]
fn network_has_prefix_as_short() {
    let n = IpNetwork { ip: IpAddress::V4(Ipv4Address { octets: [10, 0, 0, 0] }), prefix: 8 };
    assert_eq!(
        n.into_java(),
        object(
            "net/mullvad/talpid/tun_provider/InetNetwork",
            "(Ljava/net/InetAddress;S)V",
            vec![JavaValue::Address(vec![10, 0, 0, 0]), JavaValue::Short(8)],
        )
    );
}

#[test]
fn tun_config_has_three_lists_and_mtu() {
    let config = TunConfig {
        addresses: vec![IpAddress::V4(Ipv4Address { octets: [10, 64, 0, 2] })],
        dns_servers: vec![],
        routes: vec![IpNetwork { ip: IpAddress::V4(Ipv4Address { octets: [0, 0, 0, 0] }), prefix: 0 }],
        mtu: 1380,
    };
    let projected = config.into_java();
    assert_eq!(class_of(&projected), "net/mullvad/talpid/tun_provider/TunConfig");
    let args = args_of(&projected);
    assert_eq!(args.len(), 4);
    assert_eq!(args[0], JavaValue::List(vec![JavaValue::Address(vec![10, 64, 0, 2])]));
    assert_eq!(args[1], JavaValue::List(vec![]));
    assert_eq!(args[3], JavaValue::Int(1380));
}

#[test]
fn transport_protocols_have_own_classes() {
    assert_eq!(TransportProtocol::Tcp.into_java(), unit("net/mullvad/talpid/net/TransportProtocol$Tcp"));
    assert_eq!(TransportProtocol::Udp.into_java(), unit("net/mullvad/talpid/net/TransportProtocol$Udp"));
}

#[test]
fn relay_country_names_keep_order() {
    let countries = vec![country("Sweden", "se"), country("Norway", "no"), country("Denmark", "dk")];
    let projected = countries.into_java();
    match projected {
        JavaValue::List(elements) => {
            assert_eq!(elements.len(), 3);
            let names: Vec<&JavaValue> = elements.iter().map(|e| &args_of(e)[0]).collect();
            assert_eq!(names, vec![&text("Sweden"), &text("Norway"), &text("Denmark")]);
            for e in &elements {
                assert_eq!(class_of(e), "net/mullvad/mullvadvpn/model/RelayListCountry");
            }
        }
        other => panic!("not a list: {:?}", other),
    }
}

#[test]
fn relay_reports_wireguard_tunnels() {
    let with = Relay { hostname: "se-got-001".to_string(), active: true, wireguard_tunnel_count: 2 };
    let without = Relay { hostname: "se-got-002".to_string(), active: false, wireguard_tunnel_count: 0 };
    assert_eq!(
        with.into_java(),
        object(
            "net/mullvad/mullvadvpn/model/Relay",
            "(Ljava/lang/String;ZZ)V",
            vec![text("se-got-001"), JavaValue::Bool(true), JavaValue::Bool(true)],
        )
    );
    assert_eq!(args_of(&without.into_java())[1..], [JavaValue::Bool(false), JavaValue::Bool(false)]);
}

#[test]
fn relay_city_holds_relays() {
    let city = RelayListCity {
        name: "Gothenburg".to_string(),
        code: "got".to_string(),
        relays: vec![Relay { hostname: "se1".to_string(), active: true, wireguard_tunnel_count: 0 }],
    };
    let projected = city.into_java();
    assert_eq!(class_of(&projected), "net/mullvad/mullvadvpn/model/RelayListCity");
    match &args_of(&projected)[2] {
        JavaValue::List(relays) => assert_eq!(class_of(&relays[0]), "net/mullvad/mullvadvpn/model/Relay"),
        other => panic!("not a list: {:?}", other),
    }
}

#[test]
fn too_many_keys_is_failure_without_key() {
    let projected = KeygenEvent::TooManyKeys.into_java();
    assert_eq!(
        projected,
        object(
            "net/mullvad/mullvadvpn/model/KeygenEvent$Failure",
            "(Lnet/mullvad/mullvadvpn/model/KeygenFailure;)V",
            vec![unit("net/mullvad/mullvadvpn/model/KeygenFailure$TooManyKeys")],
        )
    );
}

#[test]
fn generation_failure_has_own_failure_kind() {
    let projected = KeygenEvent::GenerationFailure.into_java();
    assert_eq!(class_of(&projected), "net/mullvad/mullvadvpn/model/KeygenEvent$Failure");
    assert_eq!(
        class_of(&args_of(&projected)[0]),
        "net/mullvad/mullvadvpn/model/KeygenFailure$GenerationFailure"
    );
}

#[test]
fn new_key_carries_key_and_nulls() {
    let key = PublicKey { key: [7; 32], created: "2019-12-01 10:00:00 UTC".to_string() };
    let projected = KeygenEvent::NewKey(key).into_java();
    assert_eq!(class_of(&projected), "net/mullvad/mullvadvpn/model/KeygenEvent$NewKey");
    let args = args_of(&projected);
    assert_eq!(
        args[0],
        object(
            "net/mullvad/mullvadvpn/model/PublicKey",
            "([BLjava/lang/String;)V",
            vec![JavaValue::Bytes(vec![7; 32]), text("2019-12-01 10:00:00 UTC")],
        )
    );
    assert_eq!(args[1], JavaValue::Null);
    assert_eq!(args[2], JavaValue::Null);
}

#[test]
fn connecting_holds_endpoint_and_location() {
    let state = TunnelState::Connecting { endpoint: endpoint(), location: Some(location()) };
    let projected = state.into_java();
    assert_eq!(class_of(&projected), "net/mullvad/mullvadvpn/model/TunnelState$Connecting");
    let args = args_of(&projected);
    assert_eq!(args.len(), 2);
    assert_eq!(args[0], endpoint().into_java());
    assert_eq!(args[1], location().into_java());
}

#[test]
fn connected_without_location_passes_null() {
    let state = TunnelState::Connected { endpoint: endpoint(), location: None };
    let projected = state.into_java();
    assert_eq!(class_of(&projected), "net/mullvad/mullvadvpn/model/TunnelState$Connected");
    assert_eq!(args_of(&projected)[1], JavaValue::Null);
}

#[test]
fn tunnel_states_select_their_classes() {
    assert_eq!(
        TunnelState::Disconnected.into_java(),
        unit("net/mullvad/mullvadvpn/model/TunnelState$Disconnected")
    );
    let disconnecting = TunnelState::Disconnecting(ActionAfterDisconnect::Reconnect).into_java();
    assert_eq!(
        disconnecting,
        object(
            "net/mullvad/mullvadvpn/model/TunnelState$Disconnecting",
            "(Lnet/mullvad/talpid/tunnel/ActionAfterDisconnect;)V",
            vec![unit("net/mullvad/talpid/tunnel/ActionAfterDisconnect$Reconnect")],
        )
    );
    let blocked = TunnelState::Blocked(BlockReason::IsOffline).into_java();
    assert_eq!(class_of(&blocked), "net/mullvad/mullvadvpn/model/TunnelState$Blocked");
    assert_eq!(args_of(&blocked)[0], unit("net/mullvad/talpid/tunnel/BlockReason$IsOffline"));
}

#[test]
fn block_reasons_with_payload() {
    assert_eq!(
        BlockReason::AuthFailed(Some("expired".to_string())).into_java(),
        object(
            "net/mullvad/talpid/tunnel/BlockReason$AuthFailed",
            "(Ljava/lang/String;)V",
            vec![text("expired")],
        )
    );
    assert_eq!(
        BlockReason::TunnelParameterError(ParameterGenerationError::NoMatchingBridgeRelay).into_java(),
        object(
            "net/mullvad/talpid/tunnel/BlockReason$ParameterGeneration",
            "(Lnet/mullvad/talpid/tunnel/ParameterGenerationError;)V",
            vec![unit("net/mullvad/talpid/tunnel/ParameterGenerationError$NoMatchingBridgeRelay")],
        )
    );
}

#[test]
fn action_after_disconnect_classes() {
    assert_eq!(
        ActionAfterDisconnect::Nothing.into_java(),
        unit("net/mullvad/talpid/tunnel/ActionAfterDisconnect$Nothing")
    );
    assert_eq!(
        ActionAfterDisconnect::Block.into_java(),
        unit("net/mullvad/talpid/tunnel/ActionAfterDisconnect$Block")
    );
}

#[test]
fn constraints_and_locations() {
    let any: Constraint<LocationConstraint> = Constraint::Any;
    assert_eq!(any.into_java(), unit("net/mullvad/mullvadvpn/model/Constraint$Any"));
    let only = Constraint::Only(LocationConstraint::City("se".to_string(), "got".to_string()));
    assert_eq!(
        only.into_java(),
        object(
            "net/mullvad/mullvadvpn/model/Constraint$Only",
            "(Ljava/lang/Object;)V",
            vec![object(
                "net/mullvad/mullvadvpn/model/LocationConstraint$City",
                "(Ljava/lang/String;Ljava/lang/String;)V",
                vec![text("se"), text("got")],
            )],
        )
    );
    let host = LocationConstraint::Hostname("se".to_string(), "got".to_string(), "se3".to_string());
    assert_eq!(args_of(&host.into_java()).len(), 3);
}

#[test]
fn settings_with_relay_constraints() {
    let settings = Settings {
        account_token: Some("1234567890".to_string()),
        relay_settings: RelaySettings::Normal(RelayConstraints {
            location: Constraint::Only(LocationConstraint::Country("se".to_string())),
        }),
    };
    let projected = settings.into_java();
    assert_eq!(class_of(&projected), "net/mullvad/mullvadvpn/model/Settings");
    let args = args_of(&projected);
    assert_eq!(args[0], text("1234567890"));
    assert_eq!(class_of(&args[1]), "net/mullvad/mullvadvpn/model/RelaySettings$RelayConstraints");
}

#[test]
fn custom_endpoint_is_passed_through() {
    let settings = RelaySettings::CustomTunnelEndpoint(CustomTunnelEndpoint { host: "vpn.example".to_string() });
    assert_eq!(
        settings.into_java(),
        unit("net/mullvad/mullvadvpn/model/RelaySettings$CustomTunnelEndpoint")
    );
}

#[test]
fn account_data_ok_result() {
    let ok: Result<AccountData, DaemonError> = Ok(AccountData { expiry: "2030-01-01".to_string() });
    assert_eq!(
        ok.into_java(),
        object(
            "net/mullvad/mullvadvpn/model/GetAccountDataResult$Ok",
            "(Lnet/mullvad/mullvadvpn/model/AccountData;)V",
            vec![object(
                "net/mullvad/mullvadvpn/model/AccountData",
                "(Ljava/lang/String;)V",
                vec![text("2030-01-01")],
            )],
        )
    );
}

#[test]
fn invalid_account_code_selects_invalid_account() {
    let error = DaemonError::RpcError(RpcErrorKind::JsonRpcError(ErrorCode::ServerError(-200)));
    assert_eq!(INVALID_ACCOUNT_CODE, -200);
    assert_eq!(classify_error(&error), AccountErrorClass::InvalidAccount);
    assert_eq!(classify_error(&error), classify_error(&error.clone()));
    let result: Result<AccountData, DaemonError> = Err(error);
    assert_eq!(result.into_java(), unit("net/mullvad/mullvadvpn/model/GetAccountDataResult$InvalidAccount"));
}

#[test]
fn other_rpc_errors_select_rpc_error() {
    for error in [
        DaemonError::RpcError(RpcErrorKind::JsonRpcError(ErrorCode::ServerError(-201))),
        DaemonError::RpcError(RpcErrorKind::JsonRpcError(ErrorCode::InternalError)),
        DaemonError::RpcError(RpcErrorKind::Other("transport".to_string())),
    ] {
        assert_eq!(classify_error(&error), AccountErrorClass::RpcError);
        let result: Result<AccountData, DaemonError> = Err(error);
        assert_eq!(result.into_java(), unit("net/mullvad/mullvadvpn/model/GetAccountDataResult$RpcError"));
    }
}

#[test]
fn non_rpc_error_selects_other_error() {
    let error = DaemonError::Other("no daemon".to_string());
    assert_eq!(classify_error(&error), AccountErrorClass::OtherError);
    let result: Result<AccountData, DaemonError> = Err(error);
    assert_eq!(result.into_java(), unit("net/mullvad/mullvadvpn/model/GetAccountDataResult$OtherError"));
}

#[test]
fn app_version_info_fields_in_order() {
    let info = mullvad_jni::model::AppVersionInfo {
        current_is_supported: true,
        current_is_outdated: false,
        latest_stable: "2019.10".to_string(),
        latest: "2019.11-beta1".to_string(),
    };
    assert_eq!(
        info.into_java(),
        object(
            "net/mullvad/mullvadvpn/model/AppVersionInfo",
            "(ZZLjava/lang/String;Ljava/lang/String;)V",
            vec![JavaValue::Bool(true), JavaValue::Bool(false), text("2019.10"), text("2019.11-beta1")],
        )
    );
}
