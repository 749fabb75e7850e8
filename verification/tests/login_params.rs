use shvlogin::client::{LoginParams, LoginType, Scheme};
use shvlogin::value::{RpcMap, RpcValue};

fn text(s: &str) -> RpcValue {
    RpcValue::String(s.to_string())
}

fn options_of(value: &RpcValue) -> &RpcValue {
    value.get("options").expect("options is always there")
}

#[test]
fn login_type_names() {
    assert_eq!(LoginType::PLAIN.to_str(), "PLAIN");
    assert_eq!(LoginType::SHA1.to_str(), "SHA1");
}

#[test]
fn scheme_variants_are_distinct() {
    assert_ne!(Scheme::Tcp, Scheme::LocalSocket);
}

#[test]
fn default_params() {
    let params = LoginParams::default();
    assert_eq!(params.user, "");
    assert_eq!(params.password, "");
    assert_eq!(params.login_type, LoginType::SHA1);
    assert_eq!(params.device_id, "");
    assert_eq!(params.mount_point, "");
    assert_eq!(params.heartbeat_interval, Some(60));
}

#[test]
fn default_params_wire_value() {
    let mut login = RpcMap::new();
    login.insert("user".to_string(), text(""));
    login.insert("password".to_string(), text(""));
    login.insert("type".to_string(), text("SHA1"));
    let mut options = RpcMap::new();
    options.insert("idleWatchDogTimeOut".to_string(), RpcValue::Int(180));
    let mut expected = RpcMap::new();
    expected.insert("login".to_string(), RpcValue::Mapping(login));
    expected.insert("options".to_string(), RpcValue::Mapping(options));
    assert_eq!(LoginParams::default().to_rpcvalue(), RpcValue::Mapping(expected));
}

#[test]
fn watchdog_is_three_heartbeats() {
    let params = LoginParams { heartbeat_interval: Some(7), ..LoginParams::default() };
    let value = params.to_rpcvalue();
    assert_eq!(options_of(&value).get("idleWatchDogTimeOut"), Some(&RpcValue::Int(21)));
}

#[test]
fn watchdog_of_zero_heartbeat_is_zero() {
    let params = LoginParams { heartbeat_interval: Some(0), ..LoginParams::default() };
    let value = params.to_rpcvalue();
    assert_eq!(options_of(&value).get("idleWatchDogTimeOut"), Some(&RpcValue::Int(0)));
}

#[test]
fn watchdog_of_longest_heartbeat_does_not_wrap() {
    let params = LoginParams { heartbeat_interval: Some(u64::MAX), ..LoginParams::default() };
    let value = params.to_rpcvalue();
    assert_eq!(
        options_of(&value).get("idleWatchDogTimeOut"),
        Some(&RpcValue::Int(3 * (u64::MAX as i128)))
    );
}

#[test]
fn no_heartbeat_no_watchdog() {
    let params = LoginParams { heartbeat_interval: None, ..LoginParams::default() };
    let value = params.to_rpcvalue();
    assert_eq!(options_of(&value).get("idleWatchDogTimeOut"), None);
}

#[test]
fn options_are_present_even_when_empty() {
    let params = LoginParams { heartbeat_interval: None, ..LoginParams::default() };
    let value = params.to_rpcvalue();
    assert_eq!(value.get("options"), Some(&RpcValue::Mapping(RpcMap::new())));
    match &value {
        RpcValue::Mapping(map) => assert_eq!(map.len(), 2),
        other => panic!("not a mapping: {:?}", other),
    }
}

#[test]
fn device_id_wins_over_mount_point() {
    let params = LoginParams {
        device_id: "dev-1".to_string(),
        mount_point: "test/mount".to_string(),
        ..LoginParams::default()
    };
    let value = params.to_rpcvalue();
    let device = options_of(&value).get("device").expect("device is there");
    assert_eq!(device.get("deviceId"), Some(&text("dev-1")));
    assert_eq!(device.get("mountPoint"), None);
}

#[test]
fn device_id_alone() {
    let params = LoginParams { device_id: "dev-1".to_string(), ..LoginParams::default() };
    let value = params.to_rpcvalue();
    let device = options_of(&value).get("device").expect("device is there");
    assert_eq!(device.get("deviceId"), Some(&text("dev-1")));
    assert_eq!(device.get("mountPoint"), None);
}

#[test]
fn mount_point_without_device_id() {
    let params = LoginParams { mount_point: "test/mount".to_string(), ..LoginParams::default() };
    let value = params.to_rpcvalue();
    let device = options_of(&value).get("device").expect("device is there");
    assert_eq!(device.get("mountPoint"), Some(&text("test/mount")));
    assert_eq!(device.get("deviceId"), None);
}

#[test]
fn neither_device_id_nor_mount_point() {
    let value = LoginParams::default().to_rpcvalue();
    assert_eq!(options_of(&value).get("device"), None);
}

#[test]
fn login_section_holds_the_given_values() {
    let params = LoginParams {
        user: "alice".to_string(),
        password: "s3cret".to_string(),
        login_type: LoginType::PLAIN,
        ..LoginParams::default()
    };
    let value = params.to_rpcvalue();
    let mut expected = RpcMap::new();
    expected.insert("user".to_string(), text("alice"));
    expected.insert("password".to_string(), text("s3cret"));
    expected.insert("type".to_string(), text("PLAIN"));
    assert_eq!(value.get("login"), Some(&RpcValue::Mapping(expected)));
}

#[test]
fn login_section_keeps_empty_values() {
    let value = LoginParams::default().to_rpcvalue();
    let login = value.get("login").expect("login is always there");
    assert_eq!(login.get("user"), Some(&text("")));
    assert_eq!(login.get("password"), Some(&text("")));
    assert_eq!(login.get("type"), Some(&text("SHA1")));
}

#[test]
fn full_params_wire_value() {
    let params = LoginParams {
        user: "bob".to_string(),
        password: "pw".to_string(),
        login_type: LoginType::SHA1,
        device_id: String::new(),
        mount_point: "mnt".to_string(),
        heartbeat_interval: Some(10),
    };
    let mut login = RpcMap::new();
    login.insert("user".to_string(), text("bob"));
    login.insert("password".to_string(), text("pw"));
    login.insert("type".to_string(), text("SHA1"));
    let mut device = RpcMap::new();
    device.insert("mountPoint".to_string(), text("mnt"));
    let mut options = RpcMap::new();
    options.insert("idleWatchDogTimeOut".to_string(), RpcValue::Int(30));
    options.insert("device".to_string(), RpcValue::Mapping(device));
    let mut expected = RpcMap::new();
    expected.insert("login".to_string(), RpcValue::Mapping(login));
    expected.insert("options".to_string(), RpcValue::Mapping(options));
    assert_eq!(params.to_rpcvalue(), RpcValue::Mapping(expected));
}
