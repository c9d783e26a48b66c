use mqtt_device::conn::{obtain_device_info, ConnConf, ConnParam, ConnParamType, REQUEST_CAPACITY};
use mqtt_device::error::DeviceErr;

fn param(name: &str, value: &str) -> ConnParam {
    ConnParam { name: name.as_bytes().to_vec(), value: Some(value.as_bytes().to_vec()) }
}

fn full() -> Vec<ConnParam> {
    vec![
        param("IP Address", "192.168.0.10"),
        param("Port", "1883"),
        param("Client ID", "reader"),
        param("Username", "user"),
        param("Password", "pass"),
    ]
}

fn conf_with_ip(ip: &str) -> ConnConf {
    ConnConf { ip: ip.to_string(), port: 1883, ..ConnConf::default() }
}

#[test]
fn all_parameters_are_collected() {
    let conf = ConnConf::new(Some(&full())).unwrap();
    assert_eq!(conf.ip, "192.168.0.10");
    assert_eq!(conf.port, 1883);
    assert_eq!(conf.client_id, "reader");
    assert_eq!(conf.username, "user");
    assert_eq!(conf.password, "pass");
}

#[test]
fn address_and_port_are_enough() {
    let conf = ConnConf::new(Some(&vec![param("Port", "1"), param("IP Address", "1.2.3.4")])).unwrap();
    assert_eq!(conf.ip, "1.2.3.4");
    assert_eq!(conf.port, 1);
    assert_eq!(conf.client_id, "");
    assert_eq!(conf.username, "");
    assert_eq!(conf.password, "");
}

#[test]
fn the_last_parameter_of_a_name_counts() {
    let mut params = full();
    params.push(param("Port", "8883"));
    params.push(param("Client ID", "other"));
    let conf = ConnConf::new(Some(&params)).unwrap();
    assert_eq!(conf.port, 8883);
    assert_eq!(conf.client_id, "other");
    assert_eq!(conf.ip, "192.168.0.10");
    assert_eq!(conf.username, "user");
}

#[test]
fn missing_parameters_are_refused() {
    assert_eq!(ConnConf::new(None).err(), Some(DeviceErr::DeviceErrParams));
    assert_eq!(ConnConf::new(Some(&vec![])).err(), Some(DeviceErr::DeviceErrParams));
    assert_eq!(ConnConf::new(Some(&vec![param("IP Address", "1.2.3.4")])).err(), Some(DeviceErr::DeviceErrParams));
    assert_eq!(ConnConf::new(Some(&vec![param("Port", "1")])).err(), Some(DeviceErr::DeviceErrParams));
}

#[test]
fn one_bad_parameter_refuses_all() {
    let bad = vec![
        param("Topic", "x"),
        param("port", "1"),
        param("", "x"),
        param("Port", ""),
        param("Port", "-1"),
        param("Port", "65536"),
        param("Port", "0"),
        param("IP Address", "localhost"),
        ConnParam { name: vec![0xff], value: Some(b"x".to_vec()) },
        ConnParam { name: b"Username".to_vec(), value: None },
        ConnParam { name: b"Password".to_vec(), value: Some(vec![0xff]) },
    ];
    for last in bad {
        let mut params = full();
        params.push(last);
        assert_eq!(ConnConf::new(Some(&params)).err(), Some(DeviceErr::DeviceErrParams));
    }
}

#[test]
fn default_conf_is_invalid() {
    assert!(!ConnConf::default().validate());
}

#[test]
fn valid_addresses() {
    for ip in ["0.0.0.0", "1.2.3.4", "127.0.0.1", "192.168.0.10", "255.255.255.255", "249.250.199.200", "00.000.01.099"] {
        assert!(conf_with_ip(ip).validate(), "{ip}");
    }
}

#[test]
fn invalid_addresses() {
    for ip in [
        "", "1.2.3", "1.2.3.4.5", "1.2.3.", ".1.2.3", "1..2.3", "256.1.1.1", "1.1.1.256", "299.1.1.1", "1.1.300.1",
        "0001.1.1.1", "1.2.3.4 ", " 1.2.3.4", "1.2.3.4\n", "1,2,3,4", "a.b.c.d", "1.2.3.-4", "+1.2.3.4", "1.2.3.\u{0664}",
    ] {
        assert!(!conf_with_ip(ip).validate(), "{ip:?}");
    }
}

#[test]
fn every_octet_is_accepted_and_nothing_above() {
    for n in 0..1100 {
        let conf = conf_with_ip(&format!("10.{n}.0.1"));
        assert_eq!(conf.validate(), n <= 255, "{n}");
    }
}

#[test]
fn port_zero_is_invalid() {
    let conf = ConnConf { port: 0, ..conf_with_ip("1.2.3.4") };
    assert!(!conf.validate());
}

#[test]
fn the_module_asks_for_five_parameters() {
    let info = obtain_device_info();
    let asked: Vec<(&str, ConnParamType)> =
        info.connection_params.iter().map(|p| (p.name.as_str(), p.typ)).collect();
    assert_eq!(
        asked,
        vec![
            ("IP Address", ConnParamType::ConnParamString),
            ("Port", ConnParamType::ConnParamInt),
            ("Client ID", ConnParamType::ConnParamString),
            ("Username", ConnParamType::ConnParamString),
            ("Password", ConnParamType::ConnParamString),
        ]
    );
}

#[test]
fn what_is_asked_for_is_accepted() {
    let info = obtain_device_info();
    let mut params = Vec::new();
    for asked in &info.connection_params {
        let value = match asked.typ {
            ConnParamType::ConnParamInt => "1883",
            ConnParamType::ConnParamString => "10.0.0.1",
        };
        params.push(param(&asked.name, value));
    }
    let conf = ConnConf::new(Some(&params)).unwrap();
    assert_eq!(conf.ip, "10.0.0.1");
    assert_eq!(conf.port, 1883);
}

#[test]
fn client_options_follow_the_configuration() {
    let conf = ConnConf::new(Some(&full())).unwrap();
    let options = conf.client_options();
    assert_eq!(options.client_id(), "reader");
    assert_eq!(options.broker_address(), ("192.168.0.10".to_string(), 1883));
    let login = options.credentials().unwrap();
    assert_eq!(login.username, "user");
    assert_eq!(login.password, "pass");
    assert_eq!(REQUEST_CAPACITY, 5);
}
