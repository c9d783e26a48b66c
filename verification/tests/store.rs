use mqtt_device::conn::ConnConf;
use mqtt_device::device::DeviceConf;
use mqtt_device::store::{conn_conf_path, device_conf_path};

fn conn() -> ConnConf {
    ConnConf {
        ip: "1.2.3.4".to_string(),
        port: 0x1234,
        client_id: "c".to_string(),
        username: "\u{e9}".to_string(),
        password: String::new(),
    }
}

fn assert_same_conn(a: &ConnConf, b: &ConnConf) {
    assert_eq!(a.ip, b.ip);
    assert_eq!(a.port, b.port);
    assert_eq!(a.client_id, b.client_id);
    assert_eq!(a.username, b.username);
    assert_eq!(a.password, b.password);
}

#[test]
fn stored_form_of_a_connection() {
    let mut expected: Vec<u8> = Vec::new();
    expected.extend([7, 0, 0, 0, 0, 0, 0, 0]);
    expected.extend(b"1.2.3.4");
    expected.extend([0x34, 0x12]);
    expected.extend([1, 0, 0, 0, 0, 0, 0, 0]);
    expected.extend(b"c");
    expected.extend([2, 0, 0, 0, 0, 0, 0, 0]);
    expected.extend([0xc3, 0xa9]);
    expected.extend([0, 0, 0, 0, 0, 0, 0, 0]);
    assert_eq!(conn().to_bytes(), expected);
}

#[test]
fn stored_form_of_a_device() {
    let conf = DeviceConf { topic: "a/b".to_string(), qos: 2 };
    assert_eq!(conf.to_bytes(), vec![3, 0, 0, 0, 0, 0, 0, 0, b'a', b'/', b'b', 2]);
}

#[test]
fn a_stored_connection_is_read_back() {
    let read = ConnConf::from_bytes(&conn().to_bytes()).unwrap();
    assert_same_conn(&read, &conn());
    let read = ConnConf::from_bytes(&ConnConf::default().to_bytes()).unwrap();
    assert_same_conn(&read, &ConnConf::default());
}

#[test]
fn a_stored_device_is_read_back() {
    let conf = DeviceConf { topic: "\u{1f4a1}/light".to_string(), qos: 200 };
    let read = DeviceConf::from_bytes(&conf.to_bytes()).unwrap();
    assert_eq!(read.topic, conf.topic);
    assert_eq!(read.qos, 200);
}

#[test]
fn bytes_behind_the_stored_form_make_no_difference() {
    let mut bytes = conn().to_bytes();
    bytes.extend([1, 2, 3]);
    assert_same_conn(&ConnConf::from_bytes(&bytes).unwrap(), &conn());
    let mut bytes = DeviceConf { topic: "t".to_string(), qos: 1 }.to_bytes();
    bytes.push(9);
    let read = DeviceConf::from_bytes(&bytes).unwrap();
    assert_eq!(read.topic, "t");
    assert_eq!(read.qos, 1);
}

#[test]
fn a_stored_form_that_ends_too_soon_is_refused() {
    let bytes = conn().to_bytes();
    for len in 0..bytes.len() {
        assert!(ConnConf::from_bytes(&bytes[..len].to_vec()).is_none(), "{len}");
    }
    let bytes = DeviceConf { topic: "abc".to_string(), qos: 1 }.to_bytes();
    for len in 0..bytes.len() {
        assert!(DeviceConf::from_bytes(&bytes[..len].to_vec()).is_none(), "{len}");
    }
}

#[test]
fn a_stored_text_that_is_not_utf8_is_refused() {
    assert!(DeviceConf::from_bytes(&vec![1, 0, 0, 0, 0, 0, 0, 0, 0xff, 1]).is_none());
    let mut bytes = conn().to_bytes();
    bytes[8] = 0xff;
    assert!(ConnConf::from_bytes(&bytes).is_none());
}

#[test]
fn a_huge_length_is_refused() {
    assert!(DeviceConf::from_bytes(&vec![255, 255, 255, 255, 255, 255, 255, 255, b'a', 1]).is_none());
}

#[test]
fn the_files_lie_in_the_directory() {
    let dir = "/var/lib/module/".to_string();
    assert_eq!(conn_conf_path(&dir), "/var/lib/module/conn_conf.bin");
    assert_eq!(device_conf_path(&dir), "/var/lib/module/device_conf.bin");
    assert_eq!(conn_conf_path(&String::new()), "conn_conf.bin");
}
