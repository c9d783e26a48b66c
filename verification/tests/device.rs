use mqtt_device::device::{
    entry_type, obtain_device_conf_info, qos_from_u8, DeviceConf, DeviceConfEntry, DeviceConfInfoData,
    DeviceConfInfoEntryType, EntryData, QoS, DEV_CONF_ID_QOS, DEV_CONF_ID_TOPIC,
};
use mqtt_device::error::{status, DeviceErr, DEVICE_ERROR_NONE};

fn topic(text: &str) -> DeviceConfEntry {
    DeviceConfEntry { id: DEV_CONF_ID_TOPIC, data: EntryData::Text(text.to_string()) }
}

fn qos(level: i32) -> DeviceConfEntry {
    DeviceConfEntry { id: DEV_CONF_ID_QOS, data: EntryData::Int(level) }
}

#[test]
fn entries_are_collected() {
    let conf = DeviceConf::new(&vec![topic("home/light"), qos(2)]).unwrap();
    assert_eq!(conf.topic, "home/light");
    assert_eq!(conf.qos, 2);
}

#[test]
fn the_last_entry_of_a_number_counts() {
    let conf = DeviceConf::new(&vec![qos(2), topic("a"), topic("b"), qos(1)]).unwrap();
    assert_eq!(conf.topic, "b");
    assert_eq!(conf.qos, 1);
}

#[test]
fn without_entries_the_defaults_hold() {
    let conf = DeviceConf::new(&vec![]).unwrap();
    assert_eq!(conf.topic, "");
    assert_eq!(conf.qos, 0);
    let conf = DeviceConf::default();
    assert_eq!(conf.topic, "");
    assert_eq!(conf.qos, 0);
}

#[test]
fn a_qos_outside_zero_to_two_is_refused() {
    for level in [-1, 3, 255, 256, 258, i32::MIN, i32::MAX] {
        assert_eq!(DeviceConf::new(&vec![topic("t"), qos(level)]).err(), Some(DeviceErr::DeviceErrParams), "{level}");
    }
    for level in 0..3 {
        assert_eq!(DeviceConf::new(&vec![qos(level)]).unwrap().qos as i32, level);
    }
}

#[test]
fn an_unknown_entry_is_refused() {
    for id in [0, 3, -1, i32::MAX] {
        let unknown = DeviceConfEntry { id, data: EntryData::Unknown };
        assert_eq!(DeviceConf::new(&vec![topic("t"), unknown]).err(), Some(DeviceErr::DeviceErrParams));
        assert_eq!(entry_type(id), None);
    }
}

#[test]
fn entries_are_read_as_their_number_asks() {
    assert_eq!(entry_type(1), Some(DeviceConfInfoEntryType::DeviceConfInfoEntryTypeString));
    assert_eq!(entry_type(2), Some(DeviceConfInfoEntryType::DeviceConfInfoEntryTypeInt));
}

#[test]
fn qos_levels() {
    assert_eq!(qos_from_u8(0), Some(QoS::AtMostOnce));
    assert_eq!(qos_from_u8(1), Some(QoS::AtLeastOnce));
    assert_eq!(qos_from_u8(2), Some(QoS::ExactlyOnce));
    assert_eq!(qos_from_u8(3), None);
    assert_eq!(qos_from_u8(255), None);
}

#[test]
fn a_configured_qos_is_known() {
    for level in 0..3 {
        let conf = DeviceConf::new(&vec![qos(level)]).unwrap();
        assert!(qos_from_u8(conf.qos).is_some());
    }
}

#[test]
fn the_module_asks_for_topic_and_qos() {
    let info = obtain_device_conf_info();
    assert_eq!(info.device_confs.len(), 2);
    assert_eq!(info.device_confs[0].id, 1);
    assert_eq!(info.device_confs[0].name, "MQTT topic");
    match &info.device_confs[0].data {
        DeviceConfInfoData::String(text) => {
            assert!(text.required);
            assert_eq!(text.def, None);
            assert_eq!(text.min_len, Some(1));
            assert_eq!(text.max_len, Some(65535));
            assert_eq!(text.match_regex, None);
        }
        DeviceConfInfoData::Int(_) => panic!("the topic is a text"),
    }
    assert_eq!(info.device_confs[1].id, 2);
    assert_eq!(info.device_confs[1].name, "MQTT QoS");
    match &info.device_confs[1].data {
        DeviceConfInfoData::Int(number) => {
            assert!(number.required);
            assert_eq!(number.def, Some(0));
            assert_eq!(number.lt, Some(3));
            assert_eq!(number.gt, Some(-1));
            assert_eq!(number.neq, None);
        }
        DeviceConfInfoData::String(_) => panic!("the quality of service is a number"),
    }
}

#[test]
fn numbers_within_the_limits_are_accepted() {
    let info = obtain_device_conf_info();
    let limits = match &info.device_confs[1].data {
        DeviceConfInfoData::Int(number) => *number,
        DeviceConfInfoData::String(_) => panic!("the quality of service is a number"),
    };
    for level in -5..10 {
        let within = level < limits.lt.unwrap() && level > limits.gt.unwrap();
        assert_eq!(DeviceConf::new(&vec![qos(level)]).is_ok(), within, "{level}");
    }
}

#[test]
fn status_bytes() {
    assert_eq!(DEVICE_ERROR_NONE, 0);
    assert_eq!(status(&Ok::<(), DeviceErr>(())), 0);
    assert_eq!(status(&Err::<(), DeviceErr>(DeviceErr::DeviceErrConn)), 1);
    assert_eq!(status(&Err::<(), DeviceErr>(DeviceErr::DeviceErrParams)), 2);
    assert_eq!(DeviceErr::DeviceErrConn.code(), 1);
    assert_eq!(DeviceErr::DeviceErrParams.code(), 2);
}
