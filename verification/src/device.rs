//! The configuration of the device: the topic to listen on and the quality of service.

use crate::error::DeviceErr;
use vstd::prelude::*;

verus! {

/// The number of the entry that holds the topic.
pub const DEV_CONF_ID_TOPIC: i32 = 1;

/// The number of the entry that holds the quality of service.
pub const DEV_CONF_ID_QOS: i32 = 2;

/// The name under which the topic is asked for.
pub const TOPIC_NAME: &'static str = "MQTT topic";

/// The name under which the quality of service is asked for.
pub const QOS_NAME: &'static str = "MQTT QoS";

/// How often a message may arrive.
#[derive(Debug, Clone, Copy, PartialEq, Eq, Structural)]
pub enum QoS {
    AtMostOnce,
    AtLeastOnce,
    ExactlyOnce,
}

impl QoS {
    /// The number that stands for a quality of service.
    pub open spec fn level(self) -> u8 {
        match self {
            QoS::AtMostOnce => 0,
            QoS::AtLeastOnce => 1,
            QoS::ExactlyOnce => 2,
        }
    }
}

/// The quality of service that a number stands for, if it stands for one.
pub fn qos_from_u8(qos: u8) -> (quality: Option<QoS>)
    ensures
        quality is Some <==> qos <= 2,
        quality matches Some(q) ==> q.level() == qos,
        quality == Some(QoS::AtMostOnce) <==> qos == 0,
        quality == Some(QoS::AtLeastOnce) <==> qos == 1,
        quality == Some(QoS::ExactlyOnce) <==> qos == 2,
{
    match qos {
        0 => Some(QoS::AtMostOnce),
        1 => Some(QoS::AtLeastOnce),
        2 => Some(QoS::ExactlyOnce),
        _ => None,
    }
}

/// The kind of value that an entry of the device configuration holds.
#[derive(Debug, Clone, Copy, PartialEq, Eq, Structural)]
pub enum DeviceConfInfoEntryType {
    DeviceConfInfoEntryTypeInt,
    DeviceConfInfoEntryTypeString,
}

/// The value of an entry of the device configuration.
pub enum EntryData {
    Text(String),
    Int(i32),
    /// The value of an entry with an unknown number, whose kind is not known either.
    Unknown,
}

/// One entry of the device configuration, as it was entered.
pub struct DeviceConfEntry {
    pub id: i32,
    pub data: EntryData,
}

/// The kind of value that the entry with this number holds, if the number is known.
pub open spec fn entry_type_of(id: i32) -> Option<DeviceConfInfoEntryType> {
    if id == DEV_CONF_ID_TOPIC {
        Some(DeviceConfInfoEntryType::DeviceConfInfoEntryTypeString)
    } else if id == DEV_CONF_ID_QOS {
        Some(DeviceConfInfoEntryType::DeviceConfInfoEntryTypeInt)
    } else {
        None
    }
}

/// The kind of value that the entry with this number holds, if the number is known.
pub fn entry_type(id: i32) -> (typ: Option<DeviceConfInfoEntryType>)
    ensures
        typ == entry_type_of(id),
{
    match id {
        DEV_CONF_ID_TOPIC => Some(DeviceConfInfoEntryType::DeviceConfInfoEntryTypeString),
        DEV_CONF_ID_QOS => Some(DeviceConfInfoEntryType::DeviceConfInfoEntryTypeInt),
        _ => None,
    }
}

impl DeviceConfEntry {
    /// Whether the value is of the kind that the number asks for.
    pub open spec fn wf(self) -> bool {
        match entry_type_of(self.id) {
            Some(DeviceConfInfoEntryType::DeviceConfInfoEntryTypeString) => self.data is Text,
            Some(DeviceConfInfoEntryType::DeviceConfInfoEntryTypeInt) => self.data is Int,
            None => true,
        }
    }

    /// Whether the entry is one that a device has, with a value that it can take: any topic, but
    /// for the quality of service a number from 0 to 2.
    pub open spec fn acceptable(self) -> bool {
        ||| self.id == DEV_CONF_ID_TOPIC
        ||| self.id == DEV_CONF_ID_QOS && 0 <= self.data->Int_0 <= 2
    }
}

/// The topic in the last entry that holds one, or the empty text if there is none.
pub open spec fn last_topic(entries: Seq<DeviceConfEntry>) -> Seq<char>
    decreases entries.len(),
{
    if entries.len() == 0 {
        Seq::empty()
    } else if entries.last().id == DEV_CONF_ID_TOPIC {
        entries.last().data->Text_0@
    } else {
        last_topic(entries.drop_last())
    }
}

/// The quality of service in the last entry that holds one, or zero if there is none.
pub open spec fn last_qos(entries: Seq<DeviceConfEntry>) -> u8
    decreases entries.len(),
{
    if entries.len() == 0 {
        0
    } else if entries.last().id == DEV_CONF_ID_QOS {
        entries.last().data->Int_0 as u8
    } else {
        last_qos(entries.drop_last())
    }
}

/// What the device listens on.
#[derive(Debug)]
pub struct DeviceConf {
    pub topic: String,
    pub qos: u8,
}

/// The contents of a device configuration.
pub ghost struct DeviceConfView {
    pub topic: Seq<char>,
    pub qos: u8,
}

impl View for DeviceConf {
    type V = DeviceConfView;

    open spec fn view(&self) -> DeviceConfView {
        DeviceConfView { topic: self.topic@, qos: self.qos }
    }
}

/// The configuration that the entries describe. Of several entries of one number the last counts.
pub open spec fn described_device(entries: Seq<DeviceConfEntry>) -> DeviceConfView {
    DeviceConfView { topic: last_topic(entries), qos: last_qos(entries) }
}

impl Default for DeviceConf {
    fn default() -> (conf: Self)
        ensures
            conf@ == described_device(Seq::empty()),
    {
        DeviceConf { topic: String::new(), qos: 0 }
    }
}

impl DeviceConf {
    /// Collects the configuration from the entries, and refuses it where one of them is not
    /// acceptable.
    pub fn new(raw: &Vec<DeviceConfEntry>) -> (conf: Result<DeviceConf, DeviceErr>)
        requires
            forall|i: int| 0 <= i < raw@.len() ==> (#[trigger] raw@[i]).wf(),
        ensures
            conf is Ok <==> forall|i: int| 0 <= i < raw@.len() ==> (#[trigger] raw@[i]).acceptable(),
            conf matches Ok(c) ==> c@ == described_device(raw@),
            conf matches Err(err) ==> err == DeviceErr::DeviceErrParams,
    {
        let mut res_conf = DeviceConf::default();
        let mut i: usize = 0;
        assert(raw@.take(0) =~= Seq::empty());
        while i < raw.len()
            invariant
                i <= raw@.len(),
                forall|k: int| 0 <= k < raw@.len() ==> (#[trigger] raw@[k]).wf(),
                forall|k: int| 0 <= k < i ==> (#[trigger] raw@[k]).acceptable(),
                res_conf@ == described_device(raw@.take(i as int)),
            decreases raw@.len() - i,
        {
            let conf = &raw[i];
            assert(raw@.take(i + 1).drop_last() =~= raw@.take(i as int));
            assert(raw@.take(i + 1).last() == *conf);
            assert(conf.wf());
            match (conf.id, &conf.data) {
                (DEV_CONF_ID_TOPIC, EntryData::Text(text)) => {
                    res_conf.topic = text.clone();
                },
                (DEV_CONF_ID_QOS, EntryData::Int(raw_qos)) => {
                    if *raw_qos < 0 || *raw_qos > 2 {
                        return Err(DeviceErr::DeviceErrParams);
                    }
                    res_conf.qos = *raw_qos as u8;
                },
                _ => {
                    return Err(DeviceErr::DeviceErrParams);
                },
            }
            i = i + 1;
        }
        assert(raw@.take(i as int) =~= raw@);
        Ok(res_conf)
    }
}

/// How a text of the device configuration is asked for. What is `None` is left open.
pub struct DeviceConfInfoEntryString {
    pub required: bool,
    pub def: Option<String>,
    pub min_len: Option<i32>,
    pub max_len: Option<i32>,
    pub match_regex: Option<String>,
}

/// How a number of the device configuration is asked for: the number stays below `lt`, above `gt`
/// and apart from `neq`. What is `None` is left open.
#[derive(Debug, Clone, Copy, PartialEq, Eq, Structural)]
pub struct DeviceConfInfoEntryInt {
    pub required: bool,
    pub def: Option<i32>,
    pub lt: Option<i32>,
    pub gt: Option<i32>,
    pub neq: Option<i32>,
}

/// How the value of an entry is asked for.
pub enum DeviceConfInfoData {
    String(DeviceConfInfoEntryString),
    Int(DeviceConfInfoEntryInt),
}

/// An entry of the device configuration that the module asks for.
pub struct DeviceConfInfoEntry {
    pub id: i32,
    pub name: String,
    pub data: DeviceConfInfoData,
}

/// What is said of the value of an entry.
pub ghost enum DeviceConfInfoDataView {
    String {
        required: bool,
        def: Option<Seq<char>>,
        min_len: Option<i32>,
        max_len: Option<i32>,
        match_regex: Option<Seq<char>>,
    },
    Int(DeviceConfInfoEntryInt),
}

/// The contents of an entry's description.
pub ghost struct DeviceConfInfoEntryView {
    pub id: i32,
    pub name: Seq<char>,
    pub data: DeviceConfInfoDataView,
}

/// The text that a string holds, if it is there.
pub open spec fn optional_view(text: Option<String>) -> Option<Seq<char>> {
    match text {
        Some(s) => Some(s@),
        None => None,
    }
}

impl View for DeviceConfInfoData {
    type V = DeviceConfInfoDataView;

    open spec fn view(&self) -> DeviceConfInfoDataView {
        match *self {
            DeviceConfInfoData::String(s) => DeviceConfInfoDataView::String {
                required: s.required,
                def: optional_view(s.def),
                min_len: s.min_len,
                max_len: s.max_len,
                match_regex: optional_view(s.match_regex),
            },
            DeviceConfInfoData::Int(n) => DeviceConfInfoDataView::Int(n),
        }
    }
}

impl View for DeviceConfInfoEntry {
    type V = DeviceConfInfoEntryView;

    open spec fn view(&self) -> DeviceConfInfoEntryView {
        DeviceConfInfoEntryView { id: self.id, name: self.name@, data: self.data@ }
    }
}

/// The entries of the device configuration that the module asks for.
pub struct DeviceConfInfo {
    pub device_confs: Vec<DeviceConfInfoEntry>,
}

impl View for DeviceConfInfo {
    type V = Seq<DeviceConfInfoEntryView>;

    open spec fn view(&self) -> Seq<DeviceConfInfoEntryView> {
        self.device_confs@.map_values(|e: DeviceConfInfoEntry| e@)
    }
}

/// The entries of the device configuration: a topic of 1 to 65535 characters, and a quality of
/// service from 0 to 2, by default 0.
pub open spec fn conf_info() -> Seq<DeviceConfInfoEntryView> {
    seq![
        DeviceConfInfoEntryView {
            id: DEV_CONF_ID_TOPIC,
            name: TOPIC_NAME@,
            data: DeviceConfInfoDataView::String {
                required: true,
                def: None,
                min_len: Some(1),
                max_len: Some(65535),
                match_regex: None,
            },
        },
        DeviceConfInfoEntryView {
            id: DEV_CONF_ID_QOS,
            name: QOS_NAME@,
            data: DeviceConfInfoDataView::Int(
                DeviceConfInfoEntryInt {
                    required: true,
                    def: Some(0),
                    lt: Some(3),
                    gt: Some((-1) as i32),
                    neq: None,
                },
            ),
        },
    ]
}

/// Describes the entries of the device configuration that the module asks for.
pub fn obtain_device_conf_info() -> (info: DeviceConfInfo)
    ensures
        info@ == conf_info(),
{
    let mut entries: Vec<DeviceConfInfoEntry> = Vec::with_capacity(2);
    entries.push(
        DeviceConfInfoEntry {
            id: DEV_CONF_ID_TOPIC,
            name: TOPIC_NAME.to_owned(),
            data: DeviceConfInfoData::String(
                DeviceConfInfoEntryString {
                    required: true,
                    def: None,
                    min_len: Some(1),
                    max_len: Some(65535),
                    match_regex: None,
                },
            ),
        },
    );
    entries.push(
        DeviceConfInfoEntry {
            id: DEV_CONF_ID_QOS,
            name: QOS_NAME.to_owned(),
            data: DeviceConfInfoData::Int(
                DeviceConfInfoEntryInt {
                    required: true,
                    def: Some(0),
                    lt: Some(3),
                    gt: Some(-1),
                    neq: None,
                },
            ),
        },
    );
    let info = DeviceConfInfo { device_confs: entries };
    assert(info@ =~= conf_info());
    info
}

/// Whether `value` is within the limits that are set for a number.
pub open spec fn within_limits(limits: DeviceConfInfoEntryInt, value: i32) -> bool {
    &&& limits.lt matches Some(lt) ==> value < lt
    &&& limits.gt matches Some(gt) ==> value > gt
    &&& limits.neq matches Some(neq) ==> value != neq
}

/// Whether the module asks for the entry, with a number such as this one where it asks for a
/// number.
pub open spec fn entry_asked_for(entry: DeviceConfEntry) -> bool {
    exists|i: int| 0 <= i < conf_info().len() && {
        &&& (#[trigger] conf_info()[i]).id == entry.id
        &&& conf_info()[i].data matches DeviceConfInfoDataView::Int(limits) ==> within_limits(
            limits,
            entry.data->Int_0,
        )
    }
}

/// The module accepts exactly the entries that it asks for, and the numbers within the limits that
/// it sets. (The lengths that it sets for the topic are for the one who enters it to keep.)
pub proof fn law_asked_entries_are_accepted(entry: DeviceConfEntry)
    requires
        entry.wf(),
    ensures
        entry.acceptable() <==> entry_asked_for(entry),
{
    if entry.acceptable() {
        let i: int = if entry.id == DEV_CONF_ID_TOPIC {
            0
        } else {
            1
        };
        assert(conf_info()[i].id == entry.id);
    }
}

/// The kind of value that an entry is read as is the kind that is asked for under its number.
pub proof fn law_entry_type_is_asked_type(i: int)
    requires
        0 <= i < conf_info().len(),
    ensures
        entry_type_of(conf_info()[i].id) == Some(
            match conf_info()[i].data {
                DeviceConfInfoDataView::String { .. } => DeviceConfInfoEntryType::DeviceConfInfoEntryTypeString,
                DeviceConfInfoDataView::Int(_) => DeviceConfInfoEntryType::DeviceConfInfoEntryTypeInt,
            },
        ),
{
}

/// Where no entry sets the quality of service, it is the default that the module names.
pub proof fn law_default_qos(entries: Seq<DeviceConfEntry>)
    requires
        forall|i: int| 0 <= i < entries.len() ==> (#[trigger] entries[i]).id != DEV_CONF_ID_QOS,
    ensures
        conf_info()[1].id == DEV_CONF_ID_QOS,
        conf_info()[1].data->Int_0.def == Some(described_device(entries).qos as i32),
    decreases entries.len(),
{
    if entries.len() > 0 {
        assert(entries.last().id != DEV_CONF_ID_QOS);
        law_default_qos(entries.drop_last());
    }
}

/// A configuration made from acceptable entries has a quality of service that `qos_from_u8` knows.
pub proof fn law_configured_qos_is_known(entries: Seq<DeviceConfEntry>)
    requires
        forall|i: int| 0 <= i < entries.len() ==> (#[trigger] entries[i]).acceptable(),
    ensures
        described_device(entries).qos <= 2,
    decreases entries.len(),
{
    if entries.len() > 0 {
        assert(entries.last().acceptable());
        assert forall|i: int| 0 <= i < entries.drop_last().len() implies (#[trigger] entries.drop_last()[i]).acceptable() by {
            assert(entries[i].acceptable());
        }
        law_configured_qos_is_known(entries.drop_last());
    }
}

/// The levels are numbered from zero, each above the one before: at most once, at least once,
/// exactly once.
pub proof fn law_qos_levels(qos: QoS)
    ensures
        qos.level() <= 2,
        qos.level() == 0 <==> qos is AtMostOnce,
        qos.level() == 2 <==> qos is ExactlyOnce,
{
}

/// Every text is acceptable as a topic, the numbers from 0 to 2 and no others as a quality of
/// service, and nothing under any other number; a topic is read as a text, a quality of service as
/// a number, and anything else is not read at all.
pub proof fn law_acceptable_entries(id: i32, text: String, number: i32, data: EntryData)
    ensures
        (DeviceConfEntry { id: 1, data: EntryData::Text(text) }).wf(),
        (DeviceConfEntry { id: 1, data: EntryData::Text(text) }).acceptable(),
        (DeviceConfEntry { id: 2, data: EntryData::Int(number) }).wf(),
        (DeviceConfEntry { id: 2, data: EntryData::Int(number) }).acceptable() <==> number == 0 || number == 1
            || number == 2,
        id != 1 && id != 2 ==> (DeviceConfEntry { id, data }).wf() && !(DeviceConfEntry { id, data }).acceptable(),
        entry_type_of(1) == Some(DeviceConfInfoEntryType::DeviceConfInfoEntryTypeString),
        entry_type_of(2) == Some(DeviceConfInfoEntryType::DeviceConfInfoEntryTypeInt),
        id != 1 && id != 2 ==> entry_type_of(id) is None,
        (DeviceConfEntry { id: 1, data: EntryData::Int(number) }).wf() == false,
        (DeviceConfEntry { id: 2, data: EntryData::Text(text) }).wf() == false,
{
}

/// Without entries there is no topic, and the quality of service is zero.
pub proof fn law_no_entries_describe_nothing()
    ensures
        described_device(Seq::empty()) == (DeviceConfView { topic: Seq::empty(), qos: 0 }),
{
}

/// A topic behind other entries is the topic, exactly as it was entered, and leaves the quality of
/// service as it was.
pub proof fn law_topic_entry_sets_topic(entries: Seq<DeviceConfEntry>, text: String)
    ensures
        described_device(entries.push(DeviceConfEntry { id: 1, data: EntryData::Text(text) })) == (DeviceConfView {
            topic: text@,
            qos: described_device(entries).qos,
        }),
{
    let entry = DeviceConfEntry { id: 1, data: EntryData::Text(text) };
    assert(entries.push(entry).drop_last() =~= entries);
}

/// A quality of service behind other entries is the quality of service, and leaves the topic as it
/// was.
pub proof fn law_qos_entry_sets_qos(entries: Seq<DeviceConfEntry>, qos: i32)
    requires
        0 <= qos <= 2,
    ensures
        described_device(entries.push(DeviceConfEntry { id: 2, data: EntryData::Int(qos) })).qos as int == qos as int,
        described_device(entries.push(DeviceConfEntry { id: 2, data: EntryData::Int(qos) })).topic
            == described_device(entries).topic,
{
    let entry = DeviceConfEntry { id: 2, data: EntryData::Int(qos) };
    assert(entries.push(entry).drop_last() =~= entries);
}

/// Every topic and every quality of service can be entered, in either order: the two entries are
/// acceptable, and they describe exactly these.
pub proof fn law_every_device_can_be_entered(topic: String, qos: i32)
    requires
        0 <= qos <= 2,
    ensures
        ({
            let topic_entry = DeviceConfEntry { id: 1, data: EntryData::Text(topic) };
            let qos_entry = DeviceConfEntry { id: 2, data: EntryData::Int(qos) };
            &&& topic_entry.wf() && topic_entry.acceptable()
            &&& qos_entry.wf() && qos_entry.acceptable()
            &&& described_device(seq![topic_entry, qos_entry]).topic == topic@
            &&& described_device(seq![topic_entry, qos_entry]).qos as int == qos as int
            &&& described_device(seq![qos_entry, topic_entry]).topic == topic@
            &&& described_device(seq![qos_entry, topic_entry]).qos as int == qos as int
        }),
{
    let topic_entry = DeviceConfEntry { id: 1, data: EntryData::Text(topic) };
    let qos_entry = DeviceConfEntry { id: 2, data: EntryData::Int(qos) };
    let one = Seq::<DeviceConfEntry>::empty().push(topic_entry);
    let other = Seq::<DeviceConfEntry>::empty().push(qos_entry);
    law_topic_entry_sets_topic(Seq::empty(), topic);
    law_qos_entry_sets_qos(one, qos);
    law_qos_entry_sets_qos(Seq::empty(), qos);
    law_topic_entry_sets_topic(other, topic);
    assert(one.push(qos_entry) =~= seq![topic_entry, qos_entry]);
    assert(other.push(topic_entry) =~= seq![qos_entry, topic_entry]);
}

/// The contents of a configuration are its fields.
pub proof fn law_device_contents(conf: DeviceConf)
    ensures
        conf@.topic == conf.topic@,
        conf@.qos == conf.qos,
{
}

/// The module asks for two entries: under number 1 for a topic of 1 to 65535 characters, and under
/// number 2 for a number that is within its limits exactly where it is 0, 1 or 2.
pub proof fn law_what_entries_are_asked_for(value: i32)
    ensures
        conf_info().len() == 2,
        conf_info()[0].id == 1,
        conf_info()[0].name == "MQTT topic"@,
        conf_info()[0].data matches DeviceConfInfoDataView::String { required, def, min_len, max_len, match_regex }
            && required && def is None && min_len == Some(1i32) && max_len == Some(65535i32) && match_regex is None,
        conf_info()[1].id == 2,
        conf_info()[1].name == "MQTT QoS"@,
        conf_info()[1].data matches DeviceConfInfoDataView::Int(limits) && limits.required && limits.def == Some(0i32)
            && (within_limits(limits, value) <==> value == 0 || value == 1 || value == 2),
{
}

} // verus!
