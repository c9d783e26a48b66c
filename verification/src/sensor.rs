//! The sensor: what it measures, and the messages that report a measurement.

use vstd::prelude::*;

verus! {

pub const SENSOR_NAME: &'static str = "light_temp_humidity";

pub const SENSOR_DATA_LIGHT: &'static str = "light";

pub const SENSOR_DATA_TEMP: &'static str = "temperature";

pub const SENSOR_DATA_HUMIDITY: &'static str = "humidity";

pub const SENSOR_DATA_TIMESTAMP: &'static str = "timestamp";

/// A measurement. The temperature and the humidity are the bits of a 32-bit floating-point number.
#[derive(Debug, Clone, Copy, PartialEq, Eq, Structural)]
pub struct SensorData {
    pub light: i16,
    pub temp: u32,
    pub humidity: u32,
}

/// The kind of a measured value.
#[derive(Debug, Clone, Copy, PartialEq, Eq, Structural)]
pub enum SensorDataType {
    SensorDataTypeInt16,
    SensorDataTypeFloat32,
    SensorDataTypeTimestamp,
}

/// A measured value. A floating-point number is given by its bits.
#[derive(Debug, Clone, Copy, PartialEq, Eq, Structural)]
pub enum SensorValue {
    Int16(i16),
    Float32(u32),
    Timestamp(i64),
}

impl SensorValue {
    /// The kind of the value.
    pub open spec fn kind(self) -> SensorDataType {
        match self {
            SensorValue::Int16(_) => SensorDataType::SensorDataTypeInt16,
            SensorValue::Float32(_) => SensorDataType::SensorDataTypeFloat32,
            SensorValue::Timestamp(_) => SensorDataType::SensorDataTypeTimestamp,
        }
    }
}

/// The description of one value of a sensor.
pub struct SensorDataTypeInfo {
    pub name: String,
    pub typ: SensorDataType,
}

/// The description of a sensor.
pub struct SensorTypeInfo {
    pub name: String,
    pub data_type_infos: Vec<SensorDataTypeInfo>,
}

/// The description of all sensors of the device.
pub struct SensorTypeInfos {
    pub sensor_type_infos: Vec<SensorTypeInfo>,
}

/// The contents of a value's description.
pub ghost struct SensorDataTypeInfoView {
    pub name: Seq<char>,
    pub typ: SensorDataType,
}

/// The contents of a sensor's description.
pub ghost struct SensorTypeInfoView {
    pub name: Seq<char>,
    pub data_type_infos: Seq<SensorDataTypeInfoView>,
}

impl View for SensorDataTypeInfo {
    type V = SensorDataTypeInfoView;

    open spec fn view(&self) -> SensorDataTypeInfoView {
        SensorDataTypeInfoView { name: self.name@, typ: self.typ }
    }
}

impl View for SensorTypeInfo {
    type V = SensorTypeInfoView;

    open spec fn view(&self) -> SensorTypeInfoView {
        SensorTypeInfoView {
            name: self.name@,
            data_type_infos: self.data_type_infos@.map_values(|d: SensorDataTypeInfo| d@),
        }
    }
}

impl View for SensorTypeInfos {
    type V = Seq<SensorTypeInfoView>;

    open spec fn view(&self) -> Seq<SensorTypeInfoView> {
        self.sensor_type_infos@.map_values(|s: SensorTypeInfo| s@)
    }
}

/// The values of the one sensor of the device.
pub open spec fn sensor_values() -> Seq<SensorDataTypeInfoView> {
    seq![
        SensorDataTypeInfoView { name: SENSOR_DATA_LIGHT@, typ: SensorDataType::SensorDataTypeInt16 },
        SensorDataTypeInfoView { name: SENSOR_DATA_TEMP@, typ: SensorDataType::SensorDataTypeFloat32 },
        SensorDataTypeInfoView { name: SENSOR_DATA_HUMIDITY@, typ: SensorDataType::SensorDataTypeFloat32 },
        SensorDataTypeInfoView { name: SENSOR_DATA_TIMESTAMP@, typ: SensorDataType::SensorDataTypeTimestamp },
    ]
}

/// The one sensor of the device.
pub open spec fn sensor_types() -> Seq<SensorTypeInfoView> {
    seq![SensorTypeInfoView { name: SENSOR_NAME@, data_type_infos: sensor_values() }]
}

/// Describes the sensors of the device.
pub fn obtain_sensor_type_infos() -> (infos: SensorTypeInfos)
    ensures
        infos@ == sensor_types(),
{
    let mut values: Vec<SensorDataTypeInfo> = Vec::new();
    values.push(
        SensorDataTypeInfo { name: SENSOR_DATA_LIGHT.to_owned(), typ: SensorDataType::SensorDataTypeInt16 },
    );
    values.push(
        SensorDataTypeInfo { name: SENSOR_DATA_TEMP.to_owned(), typ: SensorDataType::SensorDataTypeFloat32 },
    );
    values.push(
        SensorDataTypeInfo { name: SENSOR_DATA_HUMIDITY.to_owned(), typ: SensorDataType::SensorDataTypeFloat32 },
    );
    values.push(
        SensorDataTypeInfo { name: SENSOR_DATA_TIMESTAMP.to_owned(), typ: SensorDataType::SensorDataTypeTimestamp },
    );
    let sensor = SensorTypeInfo { name: SENSOR_NAME.to_owned(), data_type_infos: values };
    assert(sensor@.data_type_infos =~= sensor_values());
    let mut sensors: Vec<SensorTypeInfo> = Vec::new();
    sensors.push(sensor);
    let infos = SensorTypeInfos { sensor_type_infos: sensors };
    assert(infos@ =~= sensor_types());
    infos
}

/// One value in a message.
pub struct SensorMsgData {
    pub name: String,
    pub typ: SensorDataType,
    pub data: SensorValue,
}

/// A message that reports a measurement of a sensor.
pub struct SensorMsg {
    pub name: String,
    pub data: Vec<SensorMsgData>,
}

/// The kind of a message.
#[derive(Debug, Clone, Copy, PartialEq, Eq, Structural)]
pub enum MessageType {
    MessageTypeSensor,
}

/// A message of the device.
pub struct Message {
    pub typ: MessageType,
    pub data: SensorMsg,
}

/// The contents of one value in a message.
pub ghost struct SensorMsgDataView {
    pub name: Seq<char>,
    pub typ: SensorDataType,
    pub data: SensorValue,
}

/// The contents of a message that reports a measurement.
pub ghost struct SensorMsgView {
    pub name: Seq<char>,
    pub data: Seq<SensorMsgDataView>,
}

impl View for SensorMsgData {
    type V = SensorMsgDataView;

    open spec fn view(&self) -> SensorMsgDataView {
        SensorMsgDataView { name: self.name@, typ: self.typ, data: self.data }
    }
}

impl View for SensorMsg {
    type V = SensorMsgView;

    open spec fn view(&self) -> SensorMsgView {
        SensorMsgView { name: self.name@, data: self.data@.map_values(|d: SensorMsgData| d@) }
    }
}

/// The message that reports a measurement taken `secs` seconds after the beginning of 1970.
pub open spec fn measurement_msg(data: SensorData, secs: u64) -> SensorMsgView {
    SensorMsgView {
        name: SENSOR_NAME@,
        data: seq![
            SensorMsgDataView {
                name: SENSOR_DATA_LIGHT@,
                typ: SensorDataType::SensorDataTypeInt16,
                data: SensorValue::Int16(data.light),
            },
            SensorMsgDataView {
                name: SENSOR_DATA_TEMP@,
                typ: SensorDataType::SensorDataTypeFloat32,
                data: SensorValue::Float32(data.temp),
            },
            SensorMsgDataView {
                name: SENSOR_DATA_HUMIDITY@,
                typ: SensorDataType::SensorDataTypeFloat32,
                data: SensorValue::Float32(data.humidity),
            },
            SensorMsgDataView {
                name: SENSOR_DATA_TIMESTAMP@,
                typ: SensorDataType::SensorDataTypeTimestamp,
                data: SensorValue::Timestamp(secs as i64),
            },
        ],
    }
}

/// Makes the message that reports a measurement taken `secs` seconds after the beginning of 1970.
pub fn sensor_message(data: &SensorData, secs: u64) -> (msg: Message)
    ensures
        msg.typ == MessageType::MessageTypeSensor,
        msg.data@ == measurement_msg(*data, secs),
{
    let sensor_timestamp: i64 = #[verifier::truncate] (secs as i64);
    let mut values: Vec<SensorMsgData> = Vec::new();
    values.push(
        SensorMsgData {
            name: SENSOR_DATA_LIGHT.to_owned(),
            typ: SensorDataType::SensorDataTypeInt16,
            data: SensorValue::Int16(data.light),
        },
    );
    values.push(
        SensorMsgData {
            name: SENSOR_DATA_TEMP.to_owned(),
            typ: SensorDataType::SensorDataTypeFloat32,
            data: SensorValue::Float32(data.temp),
        },
    );
    values.push(
        SensorMsgData {
            name: SENSOR_DATA_HUMIDITY.to_owned(),
            typ: SensorDataType::SensorDataTypeFloat32,
            data: SensorValue::Float32(data.humidity),
        },
    );
    values.push(
        SensorMsgData {
            name: SENSOR_DATA_TIMESTAMP.to_owned(),
            typ: SensorDataType::SensorDataTypeTimestamp,
            data: SensorValue::Timestamp(sensor_timestamp),
        },
    );
    let msg = SensorMsg { name: SENSOR_NAME.to_owned(), data: values };
    assert(msg@.data =~= measurement_msg(*data, secs).data);
    Message { typ: MessageType::MessageTypeSensor, data: msg }
}

/// Every message keeps to the description of the sensor: it names the sensor, and holds the values
/// that the description lists, in its order, under its names and of its kinds.
pub proof fn law_messages_fit_description(data: SensorData, secs: u64, i: int)
    ensures
        measurement_msg(data, secs).name == sensor_types()[0].name,
        measurement_msg(data, secs).data.len() == sensor_types()[0].data_type_infos.len(),
        0 <= i < measurement_msg(data, secs).data.len() ==> {
            let value = measurement_msg(data, secs).data[i];
            let info = sensor_types()[0].data_type_infos[i];
            value.name == info.name && value.typ == info.typ && value.data.kind() == info.typ
        },
{
}

/// Whether the message holds exactly one value under this name, and this value.
pub open spec fn holds(msg: SensorMsgView, name: Seq<char>, value: SensorValue) -> bool {
    exists|i: int| #![trigger msg.data[i]]
        0 <= i < msg.data.len() && msg.data[i].name == name && msg.data[i].data == value && forall|j: int|
            0 <= j < msg.data.len() && (#[trigger] msg.data[j]).name == name ==> j == i
}

/// The names of the values differ from each other.
proof fn lemma_value_names_differ()
    ensures
        SENSOR_DATA_LIGHT@.len() == 5,
        SENSOR_DATA_TEMP@.len() == 11,
        SENSOR_DATA_HUMIDITY@.len() == 8,
        SENSOR_DATA_TIMESTAMP@.len() == 9,
{
    reveal_strlit("light");
    reveal_strlit("temperature");
    reveal_strlit("humidity");
    reveal_strlit("timestamp");
}

/// The seconds of a time fit a signed number up to its maximum, and beyond it they wrap around.
proof fn lemma_timestamp(secs: u64)
    ensures
        secs <= i64::MAX ==> (secs as i64) as int == secs as int,
        secs > i64::MAX ==> (secs as i64) as int == secs - 0x1_0000_0000_0000_0000,
{
    assert(secs > 0x7fff_ffff_ffff_ffffu64 ==> (secs as i64) == secs - 0x1_0000_0000_0000_0000) by (bit_vector);
}

/// A message reports the measurement: under "light" it holds the light, under "temperature" the
/// temperature, under "humidity" the humidity, each as it was measured and each once, and under
/// "timestamp" the time, which wraps around beyond the range of a signed number. It holds nothing
/// else and names the sensor.
pub proof fn law_message_reports_measurement(data: SensorData, secs: u64, time: i64)
    requires
        secs <= i64::MAX ==> time as int == secs as int,
        secs > i64::MAX ==> time as int == secs - 0x1_0000_0000_0000_0000,
    ensures
        measurement_msg(data, secs).name == "light_temp_humidity"@,
        measurement_msg(data, secs).data.len() == 4,
        holds(measurement_msg(data, secs), "light"@, SensorValue::Int16(data.light)),
        holds(measurement_msg(data, secs), "temperature"@, SensorValue::Float32(data.temp)),
        holds(measurement_msg(data, secs), "humidity"@, SensorValue::Float32(data.humidity)),
        holds(measurement_msg(data, secs), "timestamp"@, SensorValue::Timestamp(time)),
{
    lemma_value_names_differ();
    lemma_timestamp(secs);
    let msg = measurement_msg(data, secs);
    assert(msg.data[0].name == "light"@ && msg.data[0].data == SensorValue::Int16(data.light));
    assert(msg.data[1].name == "temperature"@ && msg.data[1].data == SensorValue::Float32(data.temp));
    assert(msg.data[2].name == "humidity"@ && msg.data[2].data == SensorValue::Float32(data.humidity));
    assert(msg.data[3].name == "timestamp"@ && msg.data[3].data == SensorValue::Timestamp(time));
}

/// Two messages are alike only where the measurements and the times are.
pub proof fn law_messages_tell_measurements_apart(a: SensorData, a_secs: u64, b: SensorData, b_secs: u64)
    requires
        measurement_msg(a, a_secs) == measurement_msg(b, b_secs),
    ensures
        a == b,
        a_secs == b_secs,
{
    lemma_timestamp(a_secs);
    lemma_timestamp(b_secs);
    let x = measurement_msg(a, a_secs).data;
    let y = measurement_msg(b, b_secs).data;
    assert(x[0].data == SensorValue::Int16(a.light) && y[0].data == SensorValue::Int16(b.light));
    assert(x[1].data == SensorValue::Float32(a.temp) && y[1].data == SensorValue::Float32(b.temp));
    assert(x[2].data == SensorValue::Float32(a.humidity) && y[2].data == SensorValue::Float32(b.humidity));
    assert(x[3].data == SensorValue::Timestamp(a_secs as i64) && y[3].data == SensorValue::Timestamp(b_secs as i64));
}

/// The contents of a message are its parts: its name, and in their order its values with their
/// names, kinds and data.
pub proof fn law_message_contents(msg: SensorMsg, i: int)
    ensures
        msg@.name == msg.name@,
        msg@.data.len() == msg.data@.len(),
        0 <= i < msg.data@.len() ==> msg@.data[i].name == msg.data@[i].name@ && msg@.data[i].typ == msg.data@[i].typ
            && msg@.data[i].data == msg.data@[i].data,
{
}

/// The device has one sensor, whose values are the light as a 16-bit integer, the temperature and
/// the humidity as floating-point numbers, and a time.
pub proof fn law_sensor_description()
    ensures
        sensor_types().len() == 1,
        sensor_types()[0].name == "light_temp_humidity"@,
        sensor_types()[0].data_type_infos.len() == 4,
        sensor_types()[0].data_type_infos[0] == (SensorDataTypeInfoView {
            name: "light"@,
            typ: SensorDataType::SensorDataTypeInt16,
        }),
        sensor_types()[0].data_type_infos[1] == (SensorDataTypeInfoView {
            name: "temperature"@,
            typ: SensorDataType::SensorDataTypeFloat32,
        }),
        sensor_types()[0].data_type_infos[2] == (SensorDataTypeInfoView {
            name: "humidity"@,
            typ: SensorDataType::SensorDataTypeFloat32,
        }),
        sensor_types()[0].data_type_infos[3] == (SensorDataTypeInfoView {
            name: "timestamp"@,
            typ: SensorDataType::SensorDataTypeTimestamp,
        }),
{
}

} // verus!
