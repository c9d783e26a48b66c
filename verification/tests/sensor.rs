use mqtt_device::sensor::{
    obtain_sensor_type_infos, sensor_message, MessageType, SensorData, SensorDataType, SensorValue,
};

fn data() -> SensorData {
    SensorData { light: -3, temp: 21.5f32.to_bits(), humidity: 40.25f32.to_bits() }
}

#[test]
fn the_sensor_is_described() {
    let infos = obtain_sensor_type_infos();
    assert_eq!(infos.sensor_type_infos.len(), 1);
    let sensor = &infos.sensor_type_infos[0];
    assert_eq!(sensor.name, "light_temp_humidity");
    let values: Vec<(&str, SensorDataType)> =
        sensor.data_type_infos.iter().map(|v| (v.name.as_str(), v.typ)).collect();
    assert_eq!(
        values,
        vec![
            ("light", SensorDataType::SensorDataTypeInt16),
            ("temperature", SensorDataType::SensorDataTypeFloat32),
            ("humidity", SensorDataType::SensorDataTypeFloat32),
            ("timestamp", SensorDataType::SensorDataTypeTimestamp),
        ]
    );
}

#[test]
fn a_measurement_is_reported() {
    let message = sensor_message(&data(), 1_700_000_000);
    assert_eq!(message.typ, MessageType::MessageTypeSensor);
    assert_eq!(message.data.name, "light_temp_humidity");
    let values: Vec<SensorValue> = message.data.data.iter().map(|v| v.data).collect();
    assert_eq!(
        values,
        vec![
            SensorValue::Int16(-3),
            SensorValue::Float32(0x41ac0000),
            SensorValue::Float32(0x42210000),
            SensorValue::Timestamp(1_700_000_000),
        ]
    );
}

#[test]
fn messages_keep_to_the_description() {
    let infos = obtain_sensor_type_infos();
    let sensor = &infos.sensor_type_infos[0];
    let message = sensor_message(&data(), 0);
    assert_eq!(message.data.name, sensor.name);
    assert_eq!(message.data.data.len(), sensor.data_type_infos.len());
    for (value, info) in message.data.data.iter().zip(&sensor.data_type_infos) {
        assert_eq!(value.name, info.name);
        assert_eq!(value.typ, info.typ);
    }
}

#[test]
fn a_time_beyond_the_range_wraps() {
    let message = sensor_message(&data(), u64::MAX);
    assert_eq!(message.data.data[3].data, SensorValue::Timestamp(-1));
    let message = sensor_message(&data(), i64::MAX as u64);
    assert_eq!(message.data.data[3].data, SensorValue::Timestamp(i64::MAX));
}
