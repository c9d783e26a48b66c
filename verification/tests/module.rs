use mqtt_device::conn::ConnConf;
use mqtt_device::device::{DeviceConfEntry, EntryData};
use mqtt_device::error::DeviceErr;
use mqtt_device::module::{init, mod_version, InitErr, InitPlan, Module, StartPlan};

type TestModule = Module<&'static str, &'static str, u32, u64>;

fn conn() -> ConnConf {
    ConnConf {
        ip: "10.0.0.1".to_string(),
        port: 1883,
        client_id: "id".to_string(),
        username: "u".to_string(),
        password: "p".to_string(),
    }
}

fn entries(qos: i32) -> Vec<DeviceConfEntry> {
    vec![
        DeviceConfEntry { id: 1, data: EntryData::Text("topic".to_string()) },
        DeviceConfEntry { id: 2, data: EntryData::Int(qos) },
    ]
}

fn fresh() -> TestModule {
    Module::new("dir/".to_string())
}

fn connected() -> TestModule {
    let mut module = fresh();
    assert!(module.connect_device_impl(conn(), Some(("client", "loop"))).is_ok());
    module
}

fn configured() -> TestModule {
    let mut module = connected();
    assert!(module.configure_device_impl(&entries(1)).is_ok());
    module
}

#[test]
fn version() {
    assert_eq!(mod_version(), 1);
}

#[test]
fn a_fresh_module_is_not_ready() {
    let mut module = fresh();
    assert!(!module.is_ready_for_start());
    assert!(module.client().is_none());
    assert!(module.eventloop().is_none());
    assert!(matches!(module.start_plan(), StartPlan::NotReady));
    assert!(module.stop().is_none());
}

#[test]
fn connecting_makes_ready_and_saves() {
    let mut module = fresh();
    let saved = module.connect_device_impl(conn(), Some(("client", "loop"))).unwrap();
    assert_eq!(saved.path, "dir/conn_conf.bin");
    assert_eq!(saved.bytes, conn().to_bytes());
    assert!(module.is_ready_for_start());
    assert_eq!(module.client(), Some(&"client"));
    assert_eq!(module.eventloop(), Some(&"loop"));
    assert!(matches!(module.start_plan(), StartPlan::NotConfigured));
}

#[test]
fn a_failed_connection_leaves_the_module_alone() {
    let mut module = fresh();
    assert_eq!(module.connect_device_impl(conn(), None).err(), Some(DeviceErr::DeviceErrConn));
    assert!(!module.is_ready_for_start());
    let mut module = connected();
    assert_eq!(module.connect_device_impl(conn(), None).err(), Some(DeviceErr::DeviceErrConn));
    assert_eq!(module.client(), Some(&"client"));
}

#[test]
fn a_new_connection_replaces_the_old_one() {
    let mut module = configured();
    assert!(module.connect_device_impl(conn(), Some(("client2", "loop2"))).is_ok());
    assert_eq!(module.client(), Some(&"client2"));
    assert_eq!(module.eventloop(), Some(&"loop2"));
    assert!(matches!(module.start_plan(), StartPlan::Subscribe { .. }));
}

#[test]
fn configuring_saves_and_says_what_to_listen_on() {
    let mut module = connected();
    let saved = module.configure_device_impl(&entries(2)).unwrap();
    assert_eq!(saved.path, "dir/device_conf.bin");
    assert_eq!(saved.bytes, b"\x05\0\0\0\0\0\0\0topic\x02".to_vec());
    match module.start_plan() {
        StartPlan::Subscribe { topic, qos } => {
            assert_eq!(topic, "topic");
            assert_eq!(qos, 2);
        }
        _ => panic!("the module is configured"),
    }
}

#[test]
fn configuring_without_a_connection_fails() {
    let mut module = fresh();
    assert_eq!(module.configure_device_impl(&entries(1)).err(), Some(DeviceErr::DeviceErrConn));
    assert!(matches!(module.start_plan(), StartPlan::NotReady));
}

#[test]
fn bad_entries_fail_first_and_leave_the_module_alone() {
    let mut module = fresh();
    assert_eq!(module.configure_device_impl(&entries(3)).err(), Some(DeviceErr::DeviceErrParams));
    let mut module = configured();
    assert_eq!(module.configure_device_impl(&entries(-1)).err(), Some(DeviceErr::DeviceErrParams));
    match module.start_plan() {
        StartPlan::Subscribe { qos, .. } => assert_eq!(qos, 1),
        _ => panic!("the module is configured"),
    }
}

#[test]
fn stopping_undoes_starting() {
    let mut module = configured();
    module.set_started(7, 8);
    assert!(module.is_ready_for_start());
    assert_eq!(module.stop(), Some((7, 8)));
    assert_eq!(module.stop(), None);
    assert!(matches!(module.start_plan(), StartPlan::Subscribe { .. }));
}

#[test]
fn the_last_start_counts() {
    let mut module = configured();
    module.set_started(1, 2);
    module.set_started(3, 4);
    assert_eq!(module.stop(), Some((3, 4)));
}

#[test]
fn without_a_stored_connection_a_module_begins_anew() {
    assert!(matches!(init(&None, &None), Ok(InitPlan::Fresh)));
    assert!(matches!(init(&None, &Some(vec![1, 2])), Ok(InitPlan::Fresh)));
}

#[test]
fn what_cannot_be_restored() {
    let good_conn = conn().to_bytes();
    let good_device = b"\x01\0\0\0\0\0\0\0t\x00".to_vec();
    assert_eq!(init(&Some(good_conn.clone()), &None).err(), Some(InitErr::NoDeviceConf));
    assert_eq!(init(&Some(vec![]), &None).err(), Some(InitErr::NoDeviceConf));
    assert_eq!(init(&Some(vec![1]), &Some(good_device)).err(), Some(InitErr::BadConnConf));
    assert_eq!(init(&Some(vec![1]), &Some(vec![])).err(), Some(InitErr::BadConnConf));
    assert_eq!(init(&Some(good_conn), &Some(vec![])).err(), Some(InitErr::BadDeviceConf));
}

#[test]
fn a_module_comes_up_again_as_it_was() {
    let mut module = fresh();
    let conn_file = module.connect_device_impl(conn(), Some(("client", "loop"))).unwrap();
    let device_file = module.configure_device_impl(&entries(1)).unwrap();
    match init(&Some(conn_file.bytes), &Some(device_file.bytes)) {
        Ok(InitPlan::Reconnect { conn_conf, device_conf }) => {
            assert_eq!(conn_conf.ip, "10.0.0.1");
            assert_eq!(conn_conf.port, 1883);
            assert_eq!(conn_conf.client_id, "id");
            assert_eq!(conn_conf.username, "u");
            assert_eq!(conn_conf.password, "p");
            let mut again: TestModule =
                Module::restored("dir/".to_string(), conn_conf, device_conf, "client2", "loop2");
            assert!(again.is_ready_for_start());
            assert_eq!(again.client(), Some(&"client2"));
            assert_eq!(again.eventloop(), Some(&"loop2"));
            match again.start_plan() {
                StartPlan::Subscribe { topic, qos } => assert_eq!((topic.as_str(), qos), ("topic", 1)),
                _ => panic!("the module was configured"),
            }
            assert!(again.stop().is_none());
        }
        _ => panic!("the configurations were stored"),
    }
}
