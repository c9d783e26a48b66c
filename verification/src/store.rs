//! The stored form of the configurations.
//!
//! A text is stored as the number of its bytes, a little-endian `u64`, and then its UTF-8 bytes; an
//! integer as its little-endian bytes. A configuration is its fields, one behind the other.

use crate::conn::{ConnConf, ConnConfView};
use crate::device::{DeviceConf, DeviceConfView};
use vstd::bytes::{lemma_auto_spec_u16_to_from_le_bytes, lemma_auto_spec_u64_to_from_le_bytes, spec_u16_from_le_bytes, spec_u16_to_le_bytes, spec_u64_from_le_bytes, spec_u64_to_le_bytes};
use vstd::prelude::*;
use vstd::utf8::{encode_utf8, encode_utf8_decode_utf8};

verus! {

/// The name of the file that holds the connection configuration.
pub const CONN_CONF_FILE_NAME: &'static str = "conn_conf.bin";

/// The name of the file that holds the device configuration.
pub const DEVICE_CONF_FILE_NAME: &'static str = "device_conf.bin";

/// The stored form of a text.
pub open spec fn text_bytes(text: Seq<char>) -> Seq<u8> {
    spec_u64_to_le_bytes(encode_utf8(text).len() as u64) + encode_utf8(text)
}

/// The stored form of a connection configuration.
pub open spec fn conn_bytes(conf: ConnConfView) -> Seq<u8> {
    text_bytes(conf.ip) + spec_u16_to_le_bytes(conf.port) + text_bytes(conf.client_id) + text_bytes(
        conf.username,
    ) + text_bytes(conf.password)
}

/// The stored form of a device configuration.
pub open spec fn device_bytes(conf: DeviceConfView) -> Seq<u8> {
    text_bytes(conf.topic) + seq![conf.qos]
}

/// Calls `bincode::serialize` on the tuple of the fields, which writes each field in turn: a string
/// as its byte length in eight little-endian bytes and then its bytes, a `u16` as its two
/// little-endian bytes. Nothing is written for the tuple itself, and without a size limit no
/// string or integer is refused (memory permitting, as wherever a vector is made).
#[verifier::external_body]
fn serialize_conn(ip: &str, port: u16, client_id: &str, username: &str, password: &str) -> (bytes: Vec<u8>)
    ensures
        bytes@ == conn_bytes(
            (ConnConfView { ip: ip@, port, client_id: client_id@, username: username@, password: password@ }),
        ),
{
    bincode::serialize(&(ip, port, client_id, username, password)).unwrap()
}

/// Calls `bincode::deserialize` for the tuple of the fields, which reads each field in turn, accepts
/// bytes behind the last one, and fails where the bytes end too soon or a string is not UTF-8: it
/// succeeds exactly where the bytes begin with the stored form of some fields, and returns such
/// fields.
#[verifier::external_body]
fn deserialize_conn(bytes: &Vec<u8>) -> (fields: Option<(String, u16, String, String, String)>)
    ensures
        fields matches Some(f) ==> conn_bytes(
            (ConnConfView { ip: f.0@, port: f.1, client_id: f.2@, username: f.3@, password: f.4@ }),
        ).is_prefix_of(bytes@),
        fields is None ==> forall|conf: ConnConfView| !(#[trigger] conn_bytes(conf)).is_prefix_of(bytes@),
{
    bincode::deserialize(bytes).ok()
}

/// Calls `bincode::serialize` on the pair of the fields, which writes the string as its byte length
/// in eight little-endian bytes and then its bytes, and behind it the byte. Nothing is written for
/// the pair itself, and without a size limit no string or byte is refused (memory permitting, as
/// wherever a vector is made).
#[verifier::external_body]
fn serialize_device(topic: &str, qos: u8) -> (bytes: Vec<u8>)
    ensures
        bytes@ == device_bytes((DeviceConfView { topic: topic@, qos })),
{
    bincode::serialize(&(topic, qos)).unwrap()
}

/// Calls `bincode::deserialize` for the pair of the fields, which reads each field in turn, accepts
/// bytes behind the last one, and fails where the bytes end too soon or the string is not UTF-8: it
/// succeeds exactly where the bytes begin with the stored form of some fields, and returns such
/// fields.
#[verifier::external_body]
fn deserialize_device(bytes: &Vec<u8>) -> (fields: Option<(String, u8)>)
    ensures
        fields matches Some(f) ==> device_bytes((DeviceConfView { topic: f.0@, qos: f.1 })).is_prefix_of(bytes@),
        fields is None ==> forall|conf: DeviceConfView| !(#[trigger] device_bytes(conf)).is_prefix_of(bytes@),
{
    bincode::deserialize(bytes).ok()
}

/// At most one text is stored at the beginning of `bytes`.
proof fn lemma_text_unique(a: Seq<char>, b: Seq<char>, bytes: Seq<u8>)
    requires
        bytes.len() <= u64::MAX,
        text_bytes(a).is_prefix_of(bytes),
        text_bytes(b).is_prefix_of(bytes),
    ensures
        a == b,
{
    lemma_auto_spec_u64_to_from_le_bytes();
    let n = encode_utf8(a).len();
    let m = encode_utf8(b).len();
    assert(spec_u64_to_le_bytes(n as u64).len() == 8);
    assert(spec_u64_to_le_bytes(m as u64).len() == 8);
    assert(text_bytes(a).subrange(0, 8) =~= spec_u64_to_le_bytes(n as u64));
    assert(text_bytes(b).subrange(0, 8) =~= spec_u64_to_le_bytes(m as u64));
    assert(text_bytes(a).subrange(0, 8) =~= bytes.subrange(0, 8));
    assert(text_bytes(b).subrange(0, 8) =~= bytes.subrange(0, 8));
    assert(spec_u64_from_le_bytes(spec_u64_to_le_bytes(n as u64)) == n);
    assert(spec_u64_from_le_bytes(spec_u64_to_le_bytes(m as u64)) == m);
    assert(n == m);
    assert(encode_utf8(a) =~= text_bytes(a).subrange(8, 8 + n as int));
    assert(encode_utf8(b) =~= text_bytes(b).subrange(8, 8 + n as int));
    assert(text_bytes(a) =~= text_bytes(b));
    encode_utf8_decode_utf8(a);
    encode_utf8_decode_utf8(b);
}

/// What stands behind a prefix begins with what stood behind it before.
proof fn lemma_behind_prefix(front: Seq<u8>, back: Seq<u8>, bytes: Seq<u8>)
    requires
        (front + back).is_prefix_of(bytes),
    ensures
        front.is_prefix_of(bytes),
        back.is_prefix_of(bytes.skip(front.len() as int)),
{
    let whole = front + back;
    assert(front =~= whole.subrange(0, front.len() as int));
    assert(back =~= whole.subrange(front.len() as int, whole.len() as int));
    assert(front =~= bytes.subrange(0, front.len() as int));
    assert(back =~= bytes.skip(front.len() as int).subrange(0, back.len() as int));
}

/// At most one connection configuration is stored at the beginning of `bytes`.
pub proof fn law_stored_conn_is_unique(a: ConnConfView, b: ConnConfView, bytes: Seq<u8>)
    requires
        bytes.len() <= u64::MAX,
        conn_bytes(a).is_prefix_of(bytes),
        conn_bytes(b).is_prefix_of(bytes),
    ensures
        a == b,
{
    lemma_auto_spec_u16_to_from_le_bytes();
    let a3 = text_bytes(a.username) + text_bytes(a.password);
    let a2 = text_bytes(a.client_id) + a3;
    let a1 = spec_u16_to_le_bytes(a.port) + a2;
    let b3 = text_bytes(b.username) + text_bytes(b.password);
    let b2 = text_bytes(b.client_id) + b3;
    let b1 = spec_u16_to_le_bytes(b.port) + b2;
    assert(conn_bytes(a) =~= text_bytes(a.ip) + a1);
    assert(conn_bytes(b) =~= text_bytes(b.ip) + b1);
    lemma_behind_prefix(text_bytes(a.ip), a1, bytes);
    lemma_behind_prefix(text_bytes(b.ip), b1, bytes);
    lemma_text_unique(a.ip, b.ip, bytes);
    let rest = bytes.skip(text_bytes(a.ip).len() as int);
    lemma_behind_prefix(spec_u16_to_le_bytes(a.port), a2, rest);
    lemma_behind_prefix(spec_u16_to_le_bytes(b.port), b2, rest);
    assert(spec_u16_to_le_bytes(a.port).len() == 2);
    assert(spec_u16_to_le_bytes(b.port).len() == 2);
    assert(spec_u16_to_le_bytes(a.port) =~= spec_u16_to_le_bytes(b.port));
    assert(spec_u16_from_le_bytes(spec_u16_to_le_bytes(a.port)) == a.port);
    let rest = rest.skip(2);
    lemma_behind_prefix(text_bytes(a.client_id), a3, rest);
    lemma_behind_prefix(text_bytes(b.client_id), b3, rest);
    lemma_text_unique(a.client_id, b.client_id, rest);
    let rest = rest.skip(text_bytes(a.client_id).len() as int);
    lemma_behind_prefix(text_bytes(a.username), text_bytes(a.password), rest);
    lemma_behind_prefix(text_bytes(b.username), text_bytes(b.password), rest);
    lemma_text_unique(a.username, b.username, rest);
    let rest = rest.skip(text_bytes(a.username).len() as int);
    lemma_text_unique(a.password, b.password, rest);
}

/// At most one device configuration is stored at the beginning of `bytes`.
pub proof fn law_stored_device_is_unique(a: DeviceConfView, b: DeviceConfView, bytes: Seq<u8>)
    requires
        bytes.len() <= u64::MAX,
        device_bytes(a).is_prefix_of(bytes),
        device_bytes(b).is_prefix_of(bytes),
    ensures
        a == b,
{
    lemma_behind_prefix(text_bytes(a.topic), seq![a.qos], bytes);
    lemma_behind_prefix(text_bytes(b.topic), seq![b.qos], bytes);
    lemma_text_unique(a.topic, b.topic, bytes);
    let n = text_bytes(a.topic).len() as int;
    assert(device_bytes(a)[n] == bytes[n]);
    assert(device_bytes(b)[n] == bytes[n]);
}

/// The connection configuration that is stored at the beginning of `bytes`, if there is one.
pub open spec fn stored_conn(bytes: Seq<u8>) -> Option<ConnConfView> {
    if exists|conf: ConnConfView| (#[trigger] conn_bytes(conf)).is_prefix_of(bytes) {
        Some(choose|conf: ConnConfView| (#[trigger] conn_bytes(conf)).is_prefix_of(bytes))
    } else {
        None
    }
}

/// The device configuration that is stored at the beginning of `bytes`, if there is one.
pub open spec fn stored_device(bytes: Seq<u8>) -> Option<DeviceConfView> {
    if exists|conf: DeviceConfView| (#[trigger] device_bytes(conf)).is_prefix_of(bytes) {
        Some(choose|conf: DeviceConfView| (#[trigger] device_bytes(conf)).is_prefix_of(bytes))
    } else {
        None
    }
}

/// Reading the stored form of a connection configuration gives the configuration back, whatever
/// stands behind it.
pub proof fn law_conn_roundtrip(conf: ConnConfView, tail: Seq<u8>)
    requires
        conn_bytes(conf).len() + tail.len() <= u64::MAX,
    ensures
        stored_conn(conn_bytes(conf) + tail) == Some(conf),
{
    let bytes = conn_bytes(conf) + tail;
    assert(conn_bytes(conf) =~= bytes.subrange(0, conn_bytes(conf).len() as int));
    assert(conn_bytes(conf).is_prefix_of(bytes));
    law_stored_conn_is_unique(stored_conn(bytes)->0, conf, bytes);
}

/// Reading the stored form of a device configuration gives the configuration back, whatever stands
/// behind it.
pub proof fn law_device_roundtrip(conf: DeviceConfView, tail: Seq<u8>)
    requires
        device_bytes(conf).len() + tail.len() <= u64::MAX,
    ensures
        stored_device(device_bytes(conf) + tail) == Some(conf),
{
    let bytes = device_bytes(conf) + tail;
    assert(device_bytes(conf) =~= bytes.subrange(0, device_bytes(conf).len() as int));
    assert(device_bytes(conf).is_prefix_of(bytes));
    law_stored_device_is_unique(stored_device(bytes)->0, conf, bytes);
}

impl ConnConf {
    /// The stored form of the configuration.
    pub fn to_bytes(&self) -> (bytes: Vec<u8>)
        ensures
            bytes@ == conn_bytes(self@),
    {
        serialize_conn(
            self.ip.as_str(),
            self.port,
            self.client_id.as_str(),
            self.username.as_str(),
            self.password.as_str(),
        )
    }

    /// The configuration whose stored form `bytes` begin with, if there is one.
    pub fn from_bytes(bytes: &Vec<u8>) -> (conf: Option<ConnConf>)
        ensures
            conf is Some <==> stored_conn(bytes@) is Some,
            conf matches Some(c) ==> stored_conn(bytes@) == Some(c@),
    {
        match deserialize_conn(bytes) {
            Some((ip, port, client_id, username, password)) => {
                let conf = ConnConf { ip, port, client_id, username, password };
                proof {
                    assert(conn_bytes(conf@).is_prefix_of(bytes@));
                    assert(bytes@.len() == bytes.len());
                    law_stored_conn_is_unique(stored_conn(bytes@)->0, conf@, bytes@);
                }
                Some(conf)
            },
            None => None,
        }
    }
}

impl DeviceConf {
    /// The stored form of the configuration.
    pub fn to_bytes(&self) -> (bytes: Vec<u8>)
        ensures
            bytes@ == device_bytes(self@),
    {
        serialize_device(self.topic.as_str(), self.qos)
    }

    /// The configuration whose stored form `bytes` begin with, if there is one.
    pub fn from_bytes(bytes: &Vec<u8>) -> (conf: Option<DeviceConf>)
        ensures
            conf is Some <==> stored_device(bytes@) is Some,
            conf matches Some(c) ==> stored_device(bytes@) == Some(c@),
    {
        match deserialize_device(bytes) {
            Some((topic, qos)) => {
                let conf = DeviceConf { topic, qos };
                proof {
                    assert(device_bytes(conf@).is_prefix_of(bytes@));
                    assert(bytes@.len() == bytes.len());
                    law_stored_device_is_unique(stored_device(bytes@)->0, conf@, bytes@);
                }
                Some(conf)
            },
            None => None,
        }
    }
}

/// The file in the directory `data_dir` that holds the connection configuration.
pub fn conn_conf_path(data_dir: &String) -> (path: String)
    ensures
        path@ == data_dir@ + CONN_CONF_FILE_NAME@,
{
    data_dir.clone().concat(CONN_CONF_FILE_NAME)
}

/// The file in the directory `data_dir` that holds the device configuration.
pub fn device_conf_path(data_dir: &String) -> (path: String)
    ensures
        path@ == data_dir@ + DEVICE_CONF_FILE_NAME@,
{
    data_dir.clone().concat(DEVICE_CONF_FILE_NAME)
}

/// The configurations never share a file.
pub proof fn law_files_differ(data_dir: Seq<char>)
    ensures
        data_dir + CONN_CONF_FILE_NAME@ != data_dir + DEVICE_CONF_FILE_NAME@,
{
    reveal_strlit("conn_conf.bin");
    reveal_strlit("device_conf.bin");
    assert((data_dir + CONN_CONF_FILE_NAME@).len() != (data_dir + DEVICE_CONF_FILE_NAME@).len());
}

/// The stored form of a text begins with the number of its bytes, the lowest byte first, and goes
/// on with the bytes of its UTF-8 encoding.
pub proof fn law_text_layout(text: Seq<char>)
    requires
        encode_utf8(text).len() <= u64::MAX,
    ensures
        text_bytes(text).len() == 8 + encode_utf8(text).len(),
        spec_u64_from_le_bytes(text_bytes(text).take(8)) == encode_utf8(text).len(),
        text_bytes(text).skip(8) == encode_utf8(text),
{
    lemma_auto_spec_u64_to_from_le_bytes();
    let n = encode_utf8(text).len() as u64;
    assert(spec_u64_to_le_bytes(n).len() == 8);
    assert(text_bytes(text).take(8) =~= spec_u64_to_le_bytes(n));
    assert(text_bytes(text).skip(8) =~= encode_utf8(text));
}

/// The stored form of a connection configuration is made of the address, the two bytes of the port,
/// the client id, the user name and the password, in this order and with nothing between them: each
/// begins where the one before it ends, and the last ends the whole.
pub proof fn law_conn_layout(conf: ConnConfView)
    ensures
        ({
            let bytes = conn_bytes(conf);
            let a = text_bytes(conf.ip).len() as int;
            let b = a + 2;
            let c = b + text_bytes(conf.client_id).len();
            let d = c + text_bytes(conf.username).len();
            let e = d + text_bytes(conf.password).len();
            &&& bytes.len() == e
            &&& bytes.subrange(0, a) == text_bytes(conf.ip)
            &&& spec_u16_from_le_bytes(bytes.subrange(a, b)) == conf.port
            &&& bytes.subrange(b, c) == text_bytes(conf.client_id)
            &&& bytes.subrange(c, d) == text_bytes(conf.username)
            &&& bytes.subrange(d, e) == text_bytes(conf.password)
        }),
{
    lemma_auto_spec_u16_to_from_le_bytes();
    let bytes = conn_bytes(conf);
    let a = text_bytes(conf.ip).len() as int;
    let b = a + 2;
    let c = b + text_bytes(conf.client_id).len();
    let d = c + text_bytes(conf.username).len();
    let e = d + text_bytes(conf.password).len();
    assert(spec_u16_to_le_bytes(conf.port).len() == 2);
    assert(bytes.subrange(0, a) =~= text_bytes(conf.ip));
    assert(bytes.subrange(a, b) =~= spec_u16_to_le_bytes(conf.port));
    assert(bytes.subrange(b, c) =~= text_bytes(conf.client_id));
    assert(bytes.subrange(c, d) =~= text_bytes(conf.username));
    assert(bytes.subrange(d, e) =~= text_bytes(conf.password));
}

/// The stored form of a device configuration is made of the topic and, as its last byte, the quality
/// of service.
pub proof fn law_device_layout(conf: DeviceConfView)
    ensures
        device_bytes(conf).len() == text_bytes(conf.topic).len() + 1,
        device_bytes(conf).drop_last() == text_bytes(conf.topic),
        device_bytes(conf).last() == conf.qos,
{
    assert(device_bytes(conf).drop_last() =~= text_bytes(conf.topic));
}

/// What is read from bytes is what is stored there: reading gives a configuration exactly where the
/// bytes begin with its stored form.
pub proof fn law_reading_finds_what_is_stored(
    bytes: Seq<u8>,
    conn_conf: ConnConfView,
    device_conf: DeviceConfView,
)
    requires
        bytes.len() <= u64::MAX,
    ensures
        stored_conn(bytes) == Some(conn_conf) <==> conn_bytes(conn_conf).is_prefix_of(bytes),
        stored_device(bytes) == Some(device_conf) <==> device_bytes(device_conf).is_prefix_of(bytes),
{
    if conn_bytes(conn_conf).is_prefix_of(bytes) {
        law_stored_conn_is_unique(stored_conn(bytes)->0, conn_conf, bytes);
    }
    if device_bytes(device_conf).is_prefix_of(bytes) {
        law_stored_device_is_unique(stored_device(bytes)->0, device_conf, bytes);
    }
}

/// The configurations are kept in the files `conn_conf.bin` and `device_conf.bin`.
pub proof fn law_file_names()
    ensures
        CONN_CONF_FILE_NAME@ == "conn_conf.bin"@,
        DEVICE_CONF_FILE_NAME@ == "device_conf.bin"@,
{
}

} // verus!
