//! The configuration of the connection to the broker.

use crate::error::DeviceErr;
use crate::text::{as_string, decimal_value, digits_of, is_decimal, is_digit, join_text, law_bytes_are_their_text, law_digits_are_notation, law_optional_bytes_are_their_text, law_split_concat, law_split_join, law_split_single, law_u16_reads_what_is_written, optional_text, padded, parse_u16, split_text, str_from_utf8, text_eq, u16_text, utf8_text, writes};
use vstd::prelude::*;
use vstd::utf8::encode_utf8;

verus! {

pub const CONN_PARAM_IP: &'static str = "IP Address";

pub const CONN_PARAM_PORT: &'static str = "Port";

pub const CONN_PARAM_CLIENT_ID: &'static str = "Client ID";

pub const CONN_PARAM_USERNAME: &'static str = "Username";

pub const CONN_PARAM_PASSWORD: &'static str = "Password";

/// The pattern that the address of the broker has to match.
pub const IP_PATTERN: &'static str = r"^(25[0-5]|2[0-4][0-9]|[01]?[0-9][0-9]?)\.(25[0-5]|2[0-4][0-9]|[01]?[0-9][0-9]?)\.(25[0-5]|2[0-4][0-9]|[01]?[0-9][0-9]?)\.(25[0-5]|2[0-4][0-9]|[01]?[0-9][0-9]?)$";

/// How the value of a connection parameter is to be entered.
#[derive(Debug, Clone, Copy, PartialEq, Eq, Structural)]
pub enum ConnParamType {
    ConnParamInt,
    ConnParamString,
}

/// One connection parameter as it was entered: its name, and its value unless it is missing, both
/// as bytes.
pub struct ConnParam {
    pub name: Vec<u8>,
    pub value: Option<Vec<u8>>,
}

/// What a connection parameter says: its name and its value, each if it is text.
pub ghost struct ConnParamView {
    pub name: Option<Seq<char>>,
    pub value: Option<Seq<char>>,
}

impl View for ConnParam {
    type V = ConnParamView;

    open spec fn view(&self) -> ConnParamView {
        ConnParamView { name: utf8_text(self.name@), value: optional_text(self.value) }
    }
}

impl ConnParamView {
    /// Whether the parameter is one that a connection has, with a value that it can take: any text,
    /// but for the port a `u16`.
    pub open spec fn acceptable(self) -> bool {
        match (self.name, self.value) {
            (Some(name), Some(value)) => {
                ||| name == CONN_PARAM_IP@
                ||| name == CONN_PARAM_PORT@ && u16_text(value) is Some
                ||| name == CONN_PARAM_CLIENT_ID@
                ||| name == CONN_PARAM_USERNAME@
                ||| name == CONN_PARAM_PASSWORD@
            },
            _ => false,
        }
    }
}

/// What the parameters say.
pub open spec fn param_views(params: Seq<ConnParam>) -> Seq<ConnParamView> {
    params.map_values(|p: ConnParam| p@)
}

/// The value of the last parameter of this name, or the empty text if there is none.
pub open spec fn last_value(params: Seq<ConnParamView>, name: Seq<char>) -> Seq<char>
    decreases params.len(),
{
    if params.len() == 0 {
        Seq::empty()
    } else if params.last().name == Some(name) && params.last().value is Some {
        params.last().value->0
    } else {
        last_value(params.drop_last(), name)
    }
}

/// How to connect to the broker.
#[derive(Debug)]
pub struct ConnConf {
    pub ip: String,
    pub port: u16,
    pub client_id: String,
    pub username: String,
    pub password: String,
}

/// The contents of a connection configuration.
pub ghost struct ConnConfView {
    pub ip: Seq<char>,
    pub port: u16,
    pub client_id: Seq<char>,
    pub username: Seq<char>,
    pub password: Seq<char>,
}

impl View for ConnConf {
    type V = ConnConfView;

    open spec fn view(&self) -> ConnConfView {
        ConnConfView {
            ip: self.ip@,
            port: self.port,
            client_id: self.client_id@,
            username: self.username@,
            password: self.password@,
        }
    }
}

/// The configuration that the parameters describe. Of several parameters of one name the last
/// counts; a text without a parameter is empty, and the port zero.
pub open spec fn described_conf(params: Seq<ConnParamView>) -> ConnConfView {
    ConnConfView {
        ip: last_value(params, CONN_PARAM_IP@),
        port: match u16_text(last_value(params, CONN_PARAM_PORT@)) {
            Some(port) => port,
            None => 0,
        },
        client_id: last_value(params, CONN_PARAM_CLIENT_ID@),
        username: last_value(params, CONN_PARAM_USERNAME@),
        password: last_value(params, CONN_PARAM_PASSWORD@),
    }
}

/// Whether `s` is a byte in decimal notation, of one to three digits.
pub open spec fn is_octet(s: Seq<char>) -> bool {
    is_decimal(s) && s.len() <= 3 && decimal_value(s) <= 255
}

/// Four texts with dots between them.
pub open spec fn dotted(a: Seq<char>, b: Seq<char>, c: Seq<char>, d: Seq<char>) -> Seq<char> {
    a + seq!['.'] + b + seq!['.'] + c + seq!['.'] + d
}

/// Whether `s` is an IPv4 address in dotted decimal notation.
pub open spec fn is_ipv4(s: Seq<char>) -> bool {
    exists|a: Seq<char>, b: Seq<char>, c: Seq<char>, d: Seq<char>|
        s == #[trigger] dotted(a, b, c, d) && is_octet(a) && is_octet(b) && is_octet(c) && is_octet(d)
}

impl ConnConfView {
    /// Whether a connection can be tried: to an IPv4 address, at a port that is not zero.
    pub open spec fn valid(self) -> bool {
        is_ipv4(self.ip) && self.port > 0
    }
}

/// Calls `regex::Regex::new` on the pattern and `is_match` on the text. The pattern compiles. It is
/// anchored at both ends, and each of its four groups matches the decimal notation of a byte in
/// one to three digits, so it matches exactly the four bytes with dots between them.
#[verifier::external_body]
fn regex_is_match(pattern: &str, text: &str) -> (matched: bool)
    requires
        pattern@ == IP_PATTERN@,
    ensures
        matched == is_ipv4(text@),
{
    regex::Regex::new(pattern).unwrap().is_match(text)
}

/// No two parameters share a name.
proof fn lemma_names_differ()
    ensures
        CONN_PARAM_IP@.len() == 10,
        CONN_PARAM_PORT@.len() == 4,
        CONN_PARAM_CLIENT_ID@.len() == 9,
        CONN_PARAM_USERNAME@.len() == 8,
        CONN_PARAM_PASSWORD@.len() == 8,
        CONN_PARAM_USERNAME@ != CONN_PARAM_PASSWORD@,
{
    reveal_strlit("IP Address");
    reveal_strlit("Port");
    reveal_strlit("Client ID");
    reveal_strlit("Username");
    reveal_strlit("Password");
    assert(CONN_PARAM_USERNAME@[0] == 'U');
    assert(CONN_PARAM_PASSWORD@[0] == 'P');
}

impl Default for ConnConf {
    fn default() -> (conf: Self)
        ensures
            conf@ == described_conf(Seq::empty()),
    {
        ConnConf {
            ip: String::new(),
            port: 0,
            client_id: String::new(),
            username: String::new(),
            password: String::new(),
        }
    }
}

impl ConnConf {
    /// Collects the configuration from the parameters, and refuses it where the parameters are
    /// missing, one of them is not acceptable, or no connection can be tried with what they
    /// describe.
    pub fn new(confs: Option<&Vec<ConnParam>>) -> (conf: Result<ConnConf, DeviceErr>)
        ensures
            conf is Ok <==> {
                &&& confs is Some
                &&& forall|i: int|
                    0 <= i < confs->0@.len() ==> (#[trigger] confs->0@[i])@.acceptable()
                &&& described_conf(param_views(confs->0@)).valid()
            },
            conf matches Ok(c) ==> c@ == described_conf(param_views(confs->0@)),
            conf matches Err(err) ==> err == DeviceErr::DeviceErrParams,
    {
        let params = match confs {
            Some(params) => params,
            None => {
                return Err(DeviceErr::DeviceErrParams);
            },
        };
        let ghost views = param_views(params@);
        let mut res_conf = ConnConf::default();
        let mut i: usize = 0;
        assert(views.take(0) =~= Seq::empty());
        while i < params.len()
            invariant
                confs == Some(params),
                i <= params@.len(),
                views == param_views(params@),
                forall|k: int| 0 <= k < i ==> (#[trigger] params@[k])@.acceptable(),
                res_conf@ == described_conf(views.take(i as int)),
            decreases params@.len() - i,
        {
            let conf = &params[i];
            proof {
                lemma_names_differ();
                assert(views.take(i + 1).drop_last() =~= views.take(i as int));
                assert(views.take(i + 1).last() == params@[i as int]@);
            }
            let name = match str_from_utf8(conf.name.as_slice()) {
                Some(name) => name.to_owned(),
                None => {
                    return Err(DeviceErr::DeviceErrParams);
                },
            };
            let value = match as_string(&conf.value) {
                Some(value) => value,
                None => {
                    return Err(DeviceErr::DeviceErrParams);
                },
            };
            if text_eq(&name, CONN_PARAM_IP) {
                res_conf.ip = value;
            } else if text_eq(&name, CONN_PARAM_PORT) {
                match parse_u16(value.as_str()) {
                    Some(port) => {
                        res_conf.port = port;
                    },
                    None => {
                        return Err(DeviceErr::DeviceErrParams);
                    },
                }
            } else if text_eq(&name, CONN_PARAM_CLIENT_ID) {
                res_conf.client_id = value;
            } else if text_eq(&name, CONN_PARAM_USERNAME) {
                res_conf.username = value;
            } else if text_eq(&name, CONN_PARAM_PASSWORD) {
                res_conf.password = value;
            } else {
                return Err(DeviceErr::DeviceErrParams);
            }
            i = i + 1;
        }
        assert(views.take(i as int) =~= views);
        if !res_conf.validate() {
            return Err(DeviceErr::DeviceErrParams);
        }
        Ok(res_conf)
    }

    /// Whether a connection can be tried with this configuration.
    pub fn validate(&self) -> (valid: bool)
        ensures
            valid == self@.valid(),
    {
        regex_is_match(IP_PATTERN, self.ip.as_str()) && self.port > 0
    }
}


/// A connection parameter that the module asks for.
pub struct ConnParamInfo {
    pub name: String,
    pub typ: ConnParamType,
}

/// The contents of a connection parameter's description.
pub ghost struct ConnParamInfoView {
    pub name: Seq<char>,
    pub typ: ConnParamType,
}

impl View for ConnParamInfo {
    type V = ConnParamInfoView;

    open spec fn view(&self) -> ConnParamInfoView {
        ConnParamInfoView { name: self.name@, typ: self.typ }
    }
}

/// The connection parameters that the module asks for.
pub struct DeviceConnectInfo {
    pub connection_params: Vec<ConnParamInfo>,
}

impl View for DeviceConnectInfo {
    type V = Seq<ConnParamInfoView>;

    open spec fn view(&self) -> Seq<ConnParamInfoView> {
        self.connection_params@.map_values(|p: ConnParamInfo| p@)
    }
}

/// The parameters of a connection: a number for the port, a text for each of the others.
pub open spec fn connect_info() -> Seq<ConnParamInfoView> {
    seq![
        ConnParamInfoView { name: CONN_PARAM_IP@, typ: ConnParamType::ConnParamString },
        ConnParamInfoView { name: CONN_PARAM_PORT@, typ: ConnParamType::ConnParamInt },
        ConnParamInfoView { name: CONN_PARAM_CLIENT_ID@, typ: ConnParamType::ConnParamString },
        ConnParamInfoView { name: CONN_PARAM_USERNAME@, typ: ConnParamType::ConnParamString },
        ConnParamInfoView { name: CONN_PARAM_PASSWORD@, typ: ConnParamType::ConnParamString },
    ]
}

/// Describes the connection parameters that the module asks for.
pub fn obtain_device_info() -> (info: DeviceConnectInfo)
    ensures
        info@ == connect_info(),
{
    let mut params: Vec<ConnParamInfo> = Vec::new();
    params.push(ConnParamInfo { name: CONN_PARAM_IP.to_owned(), typ: ConnParamType::ConnParamString });
    params.push(ConnParamInfo { name: CONN_PARAM_PORT.to_owned(), typ: ConnParamType::ConnParamInt });
    params.push(
        ConnParamInfo { name: CONN_PARAM_CLIENT_ID.to_owned(), typ: ConnParamType::ConnParamString },
    );
    params.push(
        ConnParamInfo { name: CONN_PARAM_USERNAME.to_owned(), typ: ConnParamType::ConnParamString },
    );
    params.push(
        ConnParamInfo { name: CONN_PARAM_PASSWORD.to_owned(), typ: ConnParamType::ConnParamString },
    );
    let info = DeviceConnectInfo { connection_params: params };
    assert(info@ =~= connect_info());
    info
}

/// Whether the module asks for a parameter of this name, with values such as this one: where it
/// asks for a number, a `u16`.
pub open spec fn asked_for(name: Seq<char>, value: Seq<char>) -> bool {
    exists|i: int| 0 <= i < connect_info().len() && {
        &&& (#[trigger] connect_info()[i]).name == name
        &&& connect_info()[i].typ == ConnParamType::ConnParamInt ==> u16_text(value) is Some
    }
}

/// The module accepts exactly the parameters that it asks for.
pub proof fn law_asked_params_are_accepted(param: ConnParamView)
    ensures
        param.acceptable() <==> param.name is Some && param.value is Some && asked_for(
            param.name->0,
            param.value->0,
        ),
{
    lemma_names_differ();
    if param.acceptable() {
        let name = param.name->0;
        let i: int = if name == CONN_PARAM_IP@ {
            0
        } else if name == CONN_PARAM_PORT@ {
            1
        } else if name == CONN_PARAM_CLIENT_ID@ {
            2
        } else if name == CONN_PARAM_USERNAME@ {
            3
        } else {
            4
        };
        assert(connect_info()[i].name == name);
    }
}

/// One more parameter behind the others replaces the value of its name and leaves the values of
/// the other names as they were.
pub proof fn law_last_param_counts(params: Seq<ConnParamView>, param: ConnParamView, name: Seq<char>)
    requires
        param.value is Some,
    ensures
        last_value(params.push(param), name) == if param.name == Some(name) {
            param.value->0
        } else {
            last_value(params, name)
        },
{
    assert(params.push(param).drop_last() =~= params);
}

/// The five parameters that spell out a configuration whose port is written as `port`.
pub open spec fn spelled_out(conf: ConnConfView, port: Seq<char>) -> Seq<ConnParamView> {
    seq![
        ConnParamView { name: Some(CONN_PARAM_IP@), value: Some(conf.ip) },
        ConnParamView { name: Some(CONN_PARAM_PORT@), value: Some(port) },
        ConnParamView { name: Some(CONN_PARAM_CLIENT_ID@), value: Some(conf.client_id) },
        ConnParamView { name: Some(CONN_PARAM_USERNAME@), value: Some(conf.username) },
        ConnParamView { name: Some(CONN_PARAM_PASSWORD@), value: Some(conf.password) },
    ]
}

/// Every configuration can be entered: the parameters that spell it out are acceptable, and they
/// describe it.
pub proof fn law_every_conf_can_be_entered(conf: ConnConfView, port: Seq<char>)
    requires
        u16_text(port) == Some(conf.port),
    ensures
        forall|i: int|
            0 <= i < spelled_out(conf, port).len() ==> (#[trigger] spelled_out(conf, port)[i]).acceptable(),
        described_conf(spelled_out(conf, port)) == conf,
{
    lemma_names_differ();
    let all = spelled_out(conf, port);
    let four = all.drop_last();
    let three = four.drop_last();
    let two = three.drop_last();
    let one = two.drop_last();
    reveal_with_fuel(last_value, 6);
    assert(one.len() == 1);
    assert(four.last() == all[3] && three.last() == all[2] && two.last() == all[1] && one.last() == all[0]);
}

/// An IPv4 address is a text whose pieces between dots are four bytes in decimal notation.
pub proof fn law_address_is_four_octets(s: Seq<char>)
    ensures
        is_ipv4(s) <==> split_text(s, '.').len() == 4 && forall|i: int|
            0 <= i < 4 ==> is_octet(#[trigger] split_text(s, '.')[i]),
{
    let parts = split_text(s, '.');
    if is_ipv4(s) {
        let (a, b, c, d) = choose|a: Seq<char>, b: Seq<char>, c: Seq<char>, d: Seq<char>|
            s == #[trigger] dotted(a, b, c, d) && is_octet(a) && is_octet(b) && is_octet(c) && is_octet(d);
        let cd = c.push('.') + d;
        let bcd = b.push('.') + cd;
        assert(s =~= a.push('.') + bcd);
        law_split_concat(a, bcd, '.');
        law_split_concat(b, cd, '.');
        law_split_concat(c, d, '.');
        lemma_octet_has_no_dot(a);
        lemma_octet_has_no_dot(b);
        lemma_octet_has_no_dot(c);
        lemma_octet_has_no_dot(d);
        assert(parts =~= seq![a, b, c, d]);
    }
    if parts.len() == 4 && forall|i: int| 0 <= i < 4 ==> is_octet(#[trigger] parts[i]) {
        law_split_join(s, '.');
        reveal_with_fuel(join_text, 4);
        let three = parts.drop_last();
        let two = three.drop_last();
        let one = two.drop_last();
        assert(one.len() == 1 && one[0] == parts[0] && two.last() == parts[1] && three.last() == parts[2]);
        assert(s =~= dotted(parts[0], parts[1], parts[2], parts[3]));
    }
}

/// A byte in decimal notation is its one piece.
proof fn lemma_octet_has_no_dot(s: Seq<char>)
    requires
        is_octet(s),
    ensures
        split_text(s, '.') == seq![s],
{
    assert(!s.contains('.')) by {
        if s.contains('.') {
            let k = choose|k: int| 0 <= k < s.len() && s[k] == '.';
            assert(is_digit(s[k]));
        }
    }
    law_split_single(s, '.');
}

/// Whether `s` is the decimal notation of a number up to 255, behind zeros or not, in at most three
/// characters.
pub open spec fn written_byte(s: Seq<char>) -> bool {
    s.len() <= 3 && exists|n: nat, k: nat| n <= 255 && s == #[trigger] padded(n, k)
}

/// Whether `s` is four numbers up to 255 in decimal notation, with dots between them.
pub open spec fn written_address(s: Seq<char>) -> bool {
    exists|a: Seq<char>, b: Seq<char>, c: Seq<char>, d: Seq<char>|
        s == #[trigger] dotted(a, b, c, d) && written_byte(a) && written_byte(b) && written_byte(c)
            && written_byte(d)
}

/// An octet is a written byte.
proof fn lemma_octet_is_written_byte(s: Seq<char>)
    ensures
        is_octet(s) <==> written_byte(s),
{
    if is_octet(s) {
        law_digits_are_notation(s, decimal_value(s));
        let k = choose|k: nat| s == #[trigger] padded(decimal_value(s), k);
        assert(s == padded(decimal_value(s), k));
    }
    if written_byte(s) {
        let (n, k) = choose|n: nat, k: nat| n <= 255 && s == #[trigger] padded(n, k);
        assert(s == padded(n, k));
        law_digits_are_notation(s, n);
    }
}

/// A configuration is valid exactly where its address is four bytes in decimal notation with dots
/// between them and its port is not zero; nothing else counts.
pub proof fn law_valid_means_address_and_port(conf: ConnConfView)
    ensures
        conf.valid() <==> written_address(conf.ip) && 1 <= conf.port <= 65535,
{
    if is_ipv4(conf.ip) {
        let (a, b, c, d) = choose|a: Seq<char>, b: Seq<char>, c: Seq<char>, d: Seq<char>|
            conf.ip == #[trigger] dotted(a, b, c, d) && is_octet(a) && is_octet(b) && is_octet(c) && is_octet(d);
        lemma_octet_is_written_byte(a);
        lemma_octet_is_written_byte(b);
        lemma_octet_is_written_byte(c);
        lemma_octet_is_written_byte(d);
        assert(conf.ip == dotted(a, b, c, d));
    }
    if written_address(conf.ip) {
        let (a, b, c, d) = choose|a: Seq<char>, b: Seq<char>, c: Seq<char>, d: Seq<char>|
            conf.ip == #[trigger] dotted(a, b, c, d) && written_byte(a) && written_byte(b) && written_byte(c)
                && written_byte(d);
        lemma_octet_is_written_byte(a);
        lemma_octet_is_written_byte(b);
        lemma_octet_is_written_byte(c);
        lemma_octet_is_written_byte(d);
        assert(conf.ip == dotted(a, b, c, d));
    }
}

/// The usual decimal notation of a byte is short enough.
proof fn lemma_byte_is_written(n: u8)
    ensures
        written_byte(digits_of(n as nat)),
{
    let m: nat = n as nat;
    reveal_with_fuel(digits_of, 4);
    assert(digits_of(m).len() <= 3);
    assert(digits_of(m) =~= padded(m, 0));
}

/// For every four bytes, every port but zero and every client id, user name and password, the
/// configuration of these is valid.
pub proof fn law_every_address_is_valid(
    a: u8,
    b: u8,
    c: u8,
    d: u8,
    port: u16,
    client_id: Seq<char>,
    username: Seq<char>,
    password: Seq<char>,
)
    requires
        port != 0,
    ensures
        (ConnConfView {
            ip: digits_of(a as nat) + seq!['.'] + digits_of(b as nat) + seq!['.'] + digits_of(c as nat)
                + seq!['.'] + digits_of(d as nat),
            port,
            client_id,
            username,
            password,
        }).valid(),
{
    let ip = dotted(digits_of(a as nat), digits_of(b as nat), digits_of(c as nat), digits_of(d as nat));
    lemma_byte_is_written(a);
    lemma_byte_is_written(b);
    lemma_byte_is_written(c);
    lemma_byte_is_written(d);
    assert(written_address(ip));
    law_valid_means_address_and_port(ConnConfView { ip, port, client_id, username, password });
}

/// Whether `t` is a way to write some port.
pub open spec fn writes_port(t: Seq<char>) -> bool {
    exists|port: u16| #[trigger] writes(t, port as int, false)
}

/// A text reads as a port exactly where it is a way to write one.
proof fn lemma_port_text(t: Seq<char>)
    ensures
        u16_text(t) is Some <==> writes_port(t),
{
    if u16_text(t) is Some {
        law_u16_reads_what_is_written(t, u16_text(t)->0);
    }
    if writes_port(t) {
        let port = choose|port: u16| #[trigger] writes(t, port as int, false);
        law_u16_reads_what_is_written(t, port);
    }
}

/// A parameter is acceptable exactly where its value is there and is the encoding of a text, and
/// its name is the encoding of one of the names of texts, or of the name of the port and the text
/// is a way to write a port.
pub proof fn law_acceptable_params(param: ConnParam)
    ensures
        param@.acceptable() <==> exists|t: Seq<char>| {
            &&& param.value is Some
            &&& param.value->0@ == #[trigger] encode_utf8(t)
            &&& {
                ||| param.name@ == encode_utf8("IP Address"@)
                ||| param.name@ == encode_utf8("Client ID"@)
                ||| param.name@ == encode_utf8("Username"@)
                ||| param.name@ == encode_utf8("Password"@)
                ||| param.name@ == encode_utf8("Port"@) && writes_port(t)
            }
        },
{
    law_bytes_are_their_text(param.name@, "IP Address"@);
    law_bytes_are_their_text(param.name@, "Port"@);
    law_bytes_are_their_text(param.name@, "Client ID"@);
    law_bytes_are_their_text(param.name@, "Username"@);
    law_bytes_are_their_text(param.name@, "Password"@);
    if param.value is Some {
        assert forall|t: Seq<char>| param.value->0@ == #[trigger] encode_utf8(t) implies param@.value == Some(t) by {
            law_optional_bytes_are_their_text(param.value->0, t);
        }
    }
    if param@.acceptable() {
        let t = param@.value->0;
        law_optional_bytes_are_their_text(param.value->0, t);
        assert(param.value->0@ == encode_utf8(t));
        lemma_port_text(t);
    }
    if exists|t: Seq<char>| param.value is Some && param.value->0@ == #[trigger] encode_utf8(t) {
        let t = choose|t: Seq<char>| param.value is Some && param.value->0@ == #[trigger] encode_utf8(t);
        lemma_port_text(t);
        assert forall|u: Seq<char>| param.value->0@ == #[trigger] encode_utf8(u) implies u == t by {
            law_optional_bytes_are_their_text(param.value->0, u);
            law_optional_bytes_are_their_text(param.value->0, t);
        }
    }
}

/// Without parameters nothing is described: no text, and no port.
pub proof fn law_no_params_describe_nothing()
    ensures
        described_conf(Seq::empty()) == (ConnConfView {
            ip: Seq::empty(),
            port: 0,
            client_id: Seq::empty(),
            username: Seq::empty(),
            password: Seq::empty(),
        }),
{
}

/// One more parameter behind the others sets the field that it names to the text of its value, the
/// port to the number that the text writes, and leaves every other field as the parameters before
/// it have it.
pub proof fn law_param_sets_its_field(params: Seq<ConnParam>, param: ConnParam, value: Seq<char>, port: u16)
    requires
        param.value is Some,
        param.value->0@ == encode_utf8(value),
        param.name@ == encode_utf8("Port"@) ==> writes(value, port as int, false),
    ensures
        ({
            let before = described_conf(param_views(params));
            described_conf(param_views(params.push(param))) == ConnConfView {
                ip: if param.name@ == encode_utf8("IP Address"@) { value } else { before.ip },
                port: if param.name@ == encode_utf8("Port"@) { port } else { before.port },
                client_id: if param.name@ == encode_utf8("Client ID"@) { value } else { before.client_id },
                username: if param.name@ == encode_utf8("Username"@) { value } else { before.username },
                password: if param.name@ == encode_utf8("Password"@) { value } else { before.password },
            }
        }),
{
    law_bytes_are_their_text(param.name@, "IP Address"@);
    law_bytes_are_their_text(param.name@, "Port"@);
    law_bytes_are_their_text(param.name@, "Client ID"@);
    law_bytes_are_their_text(param.name@, "Username"@);
    law_bytes_are_their_text(param.name@, "Password"@);
    law_optional_bytes_are_their_text(param.value->0, value);
    law_u16_reads_what_is_written(value, port);
    let views = param_views(params);
    assert(param_views(params.push(param)) =~= views.push(param@));
    law_last_param_counts(views, param@, "IP Address"@);
    law_last_param_counts(views, param@, "Port"@);
    law_last_param_counts(views, param@, "Client ID"@);
    law_last_param_counts(views, param@, "Username"@);
    law_last_param_counts(views, param@, "Password"@);
}

/// Whether a parameter is the encoding of this name and this value.
pub open spec fn spells(param: ConnParam, name: Seq<char>, value: Seq<char>) -> bool {
    param.name@ == encode_utf8(name) && param.value is Some && param.value->0@ == encode_utf8(value)
}

/// A configuration that is spelled out is accepted as it is: where the five parameters are the
/// encodings of the names and of the values of a configuration, with an address of four bytes and a
/// port that is not zero, each is acceptable, what they describe is valid, and it is the
/// configuration.
pub proof fn law_spelled_out_conf_is_accepted(params: Seq<ConnParam>, conf: ConnConfView, port: Seq<char>)
    requires
        params.len() == 5,
        spells(params[0], "IP Address"@, conf.ip),
        spells(params[1], "Port"@, port),
        spells(params[2], "Client ID"@, conf.client_id),
        spells(params[3], "Username"@, conf.username),
        spells(params[4], "Password"@, conf.password),
        writes(port, conf.port as int, false),
        written_address(conf.ip),
        conf.port != 0,
    ensures
        forall|i: int| 0 <= i < params.len() ==> (#[trigger] params[i])@.acceptable(),
        described_conf(param_views(params)) == conf,
        described_conf(param_views(params)).valid(),
{
    law_u16_reads_what_is_written(port, conf.port);
    law_every_conf_can_be_entered(conf, port);
    law_valid_means_address_and_port(conf);
    let all = spelled_out(conf, port);
    assert forall|i: int| 0 <= i < 5 implies (#[trigger] params[i])@ == all[i] by {
        law_bytes_are_their_text(params[i].name@, all[i].name->0);
        law_optional_bytes_are_their_text(params[i].value->0, all[i].value->0);
    }
    assert(param_views(params) =~= all);
    assert forall|i: int| 0 <= i < params.len() implies (#[trigger] params[i])@.acceptable() by {
        assert(all[i].acceptable());
    }
}

/// The contents of a configuration are its fields.
pub proof fn law_conf_contents(conf: ConnConf)
    ensures
        conf@.ip == conf.ip@,
        conf@.port == conf.port,
        conf@.client_id == conf.client_id@,
        conf@.username == conf.username@,
        conf@.password == conf.password@,
{
}

/// The module asks for the address, the port, the client id, the user name and the password, each
/// once: for the port as a number and for each of the others as a text.
pub proof fn law_what_is_asked_for(name: Seq<char>)
    ensures
        connect_info().len() == 5,
        (exists|i: int| 0 <= i < 5 && (#[trigger] connect_info()[i]).name == name) <==> name == "IP Address"@
            || name == "Port"@ || name == "Client ID"@ || name == "Username"@ || name == "Password"@,
        forall|i: int|
            0 <= i < 5 ==> ((#[trigger] connect_info()[i]).typ == ConnParamType::ConnParamInt
                <==> connect_info()[i].name == "Port"@),
{
    lemma_names_differ();
    assert(connect_info()[0].name == "IP Address"@);
    assert(connect_info()[1].name == "Port"@);
    assert(connect_info()[2].name == "Client ID"@);
    assert(connect_info()[3].name == "Username"@);
    assert(connect_info()[4].name == "Password"@);
}

/// The options of an MQTT client.
#[verifier::external_type_specification]
#[verifier::external_body]
pub struct ExMqttOptions(rumqttc::MqttOptions);

/// What `MqttOptions::client_id` returns.
pub uninterp spec fn options_client_id(options: rumqttc::MqttOptions) -> Seq<char>;

/// What `MqttOptions::broker_address` returns.
pub uninterp spec fn options_broker(options: rumqttc::MqttOptions) -> (Seq<char>, u16);

/// The user name and the password that `MqttOptions::credentials` returns.
pub uninterp spec fn options_login(options: rumqttc::MqttOptions) -> Option<(Seq<char>, Seq<char>)>;

/// Calls `rumqttc::MqttOptions::new`, which keeps the client's name and the broker's address and
/// port, and sets no credentials.
#[verifier::external_body]
fn mqtt_options(client_id: String, host: String, port: u16) -> (options: rumqttc::MqttOptions)
    ensures
        options_client_id(options) == client_id@,
        options_broker(options) == (host@, port),
        options_login(options) is None,
{
    rumqttc::MqttOptions::new(client_id, host, port)
}

/// Calls `rumqttc::MqttOptions::set_credentials`, which replaces the credentials and leaves the
/// client's name and the broker's address alone.
#[verifier::external_body]
fn set_credentials(options: &mut rumqttc::MqttOptions, username: String, password: String)
    ensures
        options_client_id(*final(options)) == options_client_id(*old(options)),
        options_broker(*final(options)) == options_broker(*old(options)),
        options_login(*final(options)) == Some((username@, password@)),
{
    options.set_credentials(username, password);
}

/// How many requests may wait to be sent to the broker.
pub const REQUEST_CAPACITY: usize = 5;

impl ConnConf {
    /// The options of the client that connects as this configuration says.
    pub fn client_options(&self) -> (options: rumqttc::MqttOptions)
        ensures
            options_client_id(options) == self@.client_id,
            options_broker(options) == (self@.ip, self@.port),
            options_login(options) == Some((self@.username, self@.password)),
    {
        let mut options = mqtt_options(self.client_id.clone(), self.ip.clone(), self.port);
        set_credentials(&mut options, self.username.clone(), self.password.clone());
        options
    }
}

} // verus!
