//! The messages that the device sends: finding one in the bytes that arrive, and taking it apart.

use crate::sensor::SensorData;
use crate::text::{digits_of, i16_text, is_digit, join_text, law_bytes_are_their_text, law_i16_notation_is_read, law_i16_reads_what_is_written, law_join_split, law_split_concat, law_split_single, parse_i16, split, split_text, str_from_utf8, utf8_text, writes};
use vstd::prelude::*;
use vstd::utf8::{decode_utf8, encode_scalar, encode_utf8, encode_utf8_decode_utf8, encode_utf8_valid_utf8, valid_utf8};

verus! {

/// Whether a message can begin with this byte: a colon in front of data, or an angle bracket.
pub open spec fn is_msg_type(byte: u8) -> bool {
    byte == ':' as u8 || byte == '>' as u8
}

/// The message in the bytes that arrived: the text from the first byte on that a message can begin
/// with, if there is one and the rest is text.
pub open spec fn sanitized(msg: Seq<u8>) -> Option<Seq<char>>
    decreases msg.len(),
{
    if msg.len() == 0 {
        None
    } else if is_msg_type(msg[0]) {
        utf8_text(msg)
    } else {
        sanitized(msg.drop_first())
    }
}

/// The values of a data message: the light as a number, the others as they were written.
pub struct DataFields {
    pub light: i16,
    pub temp: String,
    pub humidity: String,
}

/// The contents of the values of a data message.
pub ghost struct DataFieldsView {
    pub light: i16,
    pub temp: Seq<char>,
    pub humidity: Seq<char>,
}

impl View for DataFields {
    type V = DataFieldsView;

    open spec fn view(&self) -> DataFieldsView {
        DataFieldsView { light: self.light, temp: self.temp@, humidity: self.humidity@ }
    }
}

/// The values in the text of a data message: the first three of the pieces between semicolons, of
/// which the first is a number. Further pieces are left aside.
pub open spec fn data_fields(data: Seq<char>) -> Option<DataFieldsView> {
    let parts = split_text(data, ';');
    if parts.len() >= 3 && i16_text(parts[0]) is Some {
        Some(DataFieldsView { light: i16_text(parts[0])->0, temp: parts[1], humidity: parts[2] })
    } else {
        None
    }
}

/// What the bytes that arrived come to.
pub enum Outcome {
    /// There is no message in the bytes.
    Ignored,
    /// The values of a data message.
    Data(DataFields),
    /// A data message without the values that it should hold.
    Malformed,
    /// The text of a message of another kind.
    Unexpected(String),
}

/// The contents of an outcome.
pub ghost enum OutcomeView {
    Ignored,
    Data(DataFieldsView),
    Malformed,
    Unexpected(Seq<char>),
}

impl View for Outcome {
    type V = OutcomeView;

    open spec fn view(&self) -> OutcomeView {
        match *self {
            Outcome::Ignored => OutcomeView::Ignored,
            Outcome::Data(fields) => OutcomeView::Data(fields@),
            Outcome::Malformed => OutcomeView::Malformed,
            Outcome::Unexpected(text) => OutcomeView::Unexpected(text@),
        }
    }
}

/// What the bytes that arrived come to: nothing without a message, else by its first character the
/// values of a data message or an unexpected message.
pub open spec fn processed(msg: Seq<u8>) -> OutcomeView {
    match sanitized(msg) {
        None => OutcomeView::Ignored,
        Some(text) => if text[0] == ':' {
            match data_fields(text.skip(1)) {
                Some(fields) => OutcomeView::Data(fields),
                None => OutcomeView::Malformed,
            }
        } else {
            OutcomeView::Unexpected(text.skip(1))
        },
    }
}

/// The first character of text that begins with an ASCII byte.
proof fn lemma_first_ascii(bytes: Seq<u8>)
    requires
        bytes.len() > 0,
        bytes[0] <= 0x7f,
        valid_utf8(bytes),
    ensures
        decode_utf8(bytes).len() > 0,
        decode_utf8(bytes)[0] == bytes[0] as char,
{
    let byte = bytes[0];
    assert(byte & 0x7F == byte) by (bit_vector)
        requires
            byte <= 0x7f,
    ;
}

/// A message is never empty, and begins with a colon or an angle bracket.
pub proof fn law_message_has_type(msg: Seq<u8>)
    ensures
        sanitized(msg) matches Some(text) ==> text.len() > 0 && (text[0] == ':' || text[0] == '>'),
    decreases msg.len(),
{
    if msg.len() > 0 {
        if is_msg_type(msg[0]) {
            if valid_utf8(msg) {
                lemma_first_ascii(msg);
            }
        } else {
            law_message_has_type(msg.drop_first());
        }
    }
}

/// Bytes in front of a message that no message can begin with make no difference.
pub proof fn law_noise_is_skipped(noise: Seq<u8>, msg: Seq<u8>)
    requires
        forall|i: int| 0 <= i < noise.len() ==> !is_msg_type(#[trigger] noise[i]),
    ensures
        sanitized(noise + msg) == sanitized(msg),
        processed(noise + msg) == processed(msg),
    decreases noise.len(),
{
    if noise.len() == 0 {
        assert(noise + msg =~= msg);
    } else {
        let rest = noise.drop_first();
        assert((noise + msg).drop_first() =~= rest + msg);
        assert(!is_msg_type(noise[0]));
        assert forall|i: int| 0 <= i < rest.len() implies !is_msg_type(#[trigger] rest[i]) by {
            assert(rest[i] == noise[i + 1]);
        }
        law_noise_is_skipped(rest, msg);
    }
}

/// The text of a data message: a colon, and the values with semicolons between them.
pub open spec fn data_message(
    light: Seq<char>,
    temp: Seq<char>,
    humidity: Seq<char>,
    rest: Seq<char>,
) -> Seq<char> {
    seq![':'] + light + seq![';'] + temp + seq![';'] + humidity + rest
}

/// A text that begins with a colon is stored as bytes that begin with a colon.
proof fn lemma_colon_first(text: Seq<char>)
    requires
        text.len() > 0,
        text[0] == ':',
    ensures
        encode_utf8(text).len() > 0,
        encode_utf8(text)[0] == ':' as u8,
{
    assert(58u32 & 0x7F == 58u32) by (bit_vector);
    assert(encode_scalar(58u32) == seq![58u8]);
    assert(encode_utf8(text) == encode_scalar(text[0] as u32) + encode_utf8(text.drop_first()));
}

/// A data message is understood: its values come out as they went in, whatever bytes stood in front
/// of it, unless a message can begin with one of them, and whatever further pieces follow the
/// values.
pub proof fn law_data_message_is_understood(
    noise: Seq<u8>,
    light: Seq<char>,
    temp: Seq<char>,
    humidity: Seq<char>,
    rest: Seq<char>,
)
    requires
        forall|i: int| 0 <= i < noise.len() ==> !is_msg_type(#[trigger] noise[i]),
        i16_text(light) is Some,
        !temp.contains(';'),
        !humidity.contains(';'),
        rest.len() > 0 ==> rest[0] == ';',
    ensures
        processed(noise + encode_utf8(data_message(light, temp, humidity, rest))) == OutcomeView::Data(
            DataFieldsView { light: i16_text(light)->0, temp, humidity },
        ),
{
    let text = data_message(light, temp, humidity, rest);
    let bytes = encode_utf8(text);
    law_noise_is_skipped(noise, bytes);
    lemma_colon_first(text);
    encode_utf8_valid_utf8(text);
    encode_utf8_decode_utf8(text);
    assert(sanitized(bytes) == Some(text));
    let data = text.skip(1);
    let after_temp = humidity + rest;
    let after_light = temp.push(';') + after_temp;
    assert(data =~= light.push(';') + after_light);
    law_split_concat(light, after_light, ';');
    law_split_concat(temp, after_temp, ';');
    assert(!light.contains(';')) by {
        if light.contains(';') {
            let k = choose|k: int| 0 <= k < light.len() && light[k] == ';';
            assert(!is_digit(light[k]));
            assert(k > 0 ==> light.skip(1)[k - 1] == ';');
        }
    }
    law_split_single(light, ';');
    law_split_single(temp, ';');
    law_split_single(humidity, ';');
    if rest.len() > 0 {
        let further = rest.drop_first();
        assert(after_temp =~= humidity.push(';') + further);
        law_split_concat(humidity, further, ';');
    } else {
        assert(after_temp =~= humidity);
    }
    let parts = split_text(data, ';');
    assert(parts[0] == light && parts[1] == temp && parts[2] == humidity);
}

impl DataFields {
    /// The measurement, where the temperature and the humidity could be read as floating-point
    /// numbers, whose bits are given.
    pub fn sensor_data(&self, temp: Option<u32>, humidity: Option<u32>) -> (data: Result<SensorData, ()>)
        ensures
            data is Ok <==> temp is Some && humidity is Some,
            data matches Ok(d) ==> d == (SensorData {
                light: self.light,
                temp: temp->0,
                humidity: humidity->0,
            }),
    {
        match (temp, humidity) {
            (Some(temp), Some(humidity)) => Ok(SensorData { light: self.light, temp, humidity }),
            _ => Err(()),
        }
    }
}

/// Takes the messages of the device apart.
pub struct MsgProcessor;

impl MsgProcessor {
    /// Finds the message in the bytes that arrived.
    pub fn sanitize_serial_msg(msg: &Vec<u8>) -> (text: Option<String>)
        ensures
            text is Some <==> sanitized(msg@) is Some,
            text matches Some(t) ==> sanitized(msg@) == Some(t@),
    {
        let mut i: usize = 0;
        assert(msg@.skip(0) =~= msg@);
        while i < msg.len()
            invariant
                i <= msg@.len(),
                sanitized(msg@) == sanitized(msg@.skip(i as int)),
            decreases msg@.len() - i,
        {
            let byte: u8 = msg[i];
            assert(msg@.skip(i as int)[0] == byte);
            if byte == ':' as u8 || byte == '>' as u8 {
                let rest = vstd::slice::slice_subrange(msg.as_slice(), i, msg.len());
                assert(rest@ =~= msg@.skip(i as int));
                return match str_from_utf8(rest) {
                    Some(text) => Some(text.to_owned()),
                    None => None,
                };
            }
            assert(msg@.skip(i as int).drop_first() =~= msg@.skip(i + 1));
            i = i + 1;
        }
        None
    }

    /// Takes the text of a data message apart.
    pub fn format_data_msg(data: &str) -> (fields: Result<DataFields, ()>)
        ensures
            fields is Ok <==> data_fields(data@) is Some,
            fields matches Ok(f) ==> data_fields(data@) == Some(f@),
    {
        let parts = split(data, ';');
        let ghost pieces = split_text(data@, ';');
        assert(pieces.len() == parts@.len());
        if parts.len() < 3 {
            return Err(());
        }
        assert(pieces[0] == parts@[0]@ && pieces[1] == parts@[1]@ && pieces[2] == parts@[2]@);
        match parse_i16(parts[0].as_str()) {
            Some(light) => Ok(
                DataFields { light, temp: parts[1].clone(), humidity: parts[2].clone() },
            ),
            None => Err(()),
        }
    }

    /// Says what the bytes that arrived come to.
    pub fn process(msg: &Vec<u8>) -> (outcome: Outcome)
        ensures
            outcome@ == processed(msg@),
    {
        let text = match Self::sanitize_serial_msg(msg) {
            Some(text) => text,
            None => {
                return Outcome::Ignored;
            },
        };
        proof {
            law_message_has_type(msg@);
        }
        let text = text.as_str();
        let len: usize = text.unicode_len();
        let typ: char = text.get_char(0);
        let body = text.substring_char(1, len);
        assert(body@ =~= text@.skip(1));
        match typ {
            ':' => match Self::format_data_msg(body) {
                Ok(fields) => Outcome::Data(fields),
                Err(_) => Outcome::Malformed,
            },
            _ => Outcome::Unexpected(body.to_owned()),
        }
    }
}

/// What happened while the device was waited for.
pub enum LoopEvent {
    /// The module was told to stop.
    Stop,
    /// A message was published; these are its bytes.
    Publish(Vec<u8>),
    /// The connection had something else to tell.
    Other,
    /// The connection failed.
    Failed,
}

/// What to do about an event before waiting for the next one.
pub enum LoopAction {
    /// Wait no more.
    Exit,
    /// Act on the message that was published.
    Handle(Outcome),
    /// Nothing.
    Skip,
    /// Report that the connection failed.
    Report,
}

/// The contents of an action.
pub ghost enum LoopActionView {
    Exit,
    Handle(OutcomeView),
    Skip,
    Report,
}

impl View for LoopAction {
    type V = LoopActionView;

    open spec fn view(&self) -> LoopActionView {
        match *self {
            LoopAction::Exit => LoopActionView::Exit,
            LoopAction::Handle(outcome) => LoopActionView::Handle(outcome@),
            LoopAction::Skip => LoopActionView::Skip,
            LoopAction::Report => LoopActionView::Report,
        }
    }
}

/// What to do about an event.
pub open spec fn action_for(event: LoopEvent) -> LoopActionView {
    match event {
        LoopEvent::Stop => LoopActionView::Exit,
        LoopEvent::Publish(payload) => LoopActionView::Handle(processed(payload@)),
        LoopEvent::Other => LoopActionView::Skip,
        LoopEvent::Failed => LoopActionView::Report,
    }
}

impl MsgProcessor {
    /// Decides what to do about an event.
    pub fn on_event(event: &LoopEvent) -> (action: LoopAction)
        ensures
            action@ == action_for(*event),
    {
        match event {
            LoopEvent::Stop => LoopAction::Exit,
            LoopEvent::Publish(payload) => LoopAction::Handle(Self::process(payload)),
            LoopEvent::Other => LoopAction::Skip,
            LoopEvent::Failed => LoopAction::Report,
        }
    }
}

/// Whether there is neither a colon nor an angle bracket among the bytes.
pub open spec fn is_noise(bytes: Seq<u8>) -> bool {
    forall|i: int| 0 <= i < bytes.len() ==> #[trigger] bytes[i] != 58 && bytes[i] != 62
}

/// Noise alone holds no message and is ignored.
pub proof fn law_noise_is_ignored(noise: Seq<u8>)
    requires
        is_noise(noise),
    ensures
        sanitized(noise) is None,
        processed(noise) is Ignored,
{
    assert forall|i: int| 0 <= i < noise.len() implies !is_msg_type(#[trigger] noise[i]) by {
        assert(noise[i] != 58 && noise[i] != 62);
    }
    law_noise_is_skipped(noise, Seq::empty());
    assert(noise + Seq::empty() =~= noise);
}

/// Behind noise, what begins with a colon or an angle bracket is the message: it is a text exactly
/// where it is the encoding of that text, and is ignored where it is the encoding of none.
pub proof fn law_message_is_what_follows_noise(noise: Seq<u8>, rest: Seq<u8>, text: Seq<char>)
    requires
        is_noise(noise),
        rest.len() > 0,
        rest[0] == 58 || rest[0] == 62,
    ensures
        sanitized(noise + rest) == Some(text) <==> encode_utf8(text) == rest,
        (forall|t: Seq<char>| #[trigger] encode_utf8(t) != rest) ==> processed(noise + rest) is Ignored,
{
    assert forall|i: int| 0 <= i < noise.len() implies !is_msg_type(#[trigger] noise[i]) by {
        assert(noise[i] != 58 && noise[i] != 62);
    }
    law_noise_is_skipped(noise, rest);
    law_bytes_are_their_text(rest, text);
    assert(is_msg_type(rest[0]));
    if utf8_text(rest) is Some {
        law_bytes_are_their_text(rest, utf8_text(rest)->0);
    }
}

/// A text that begins with a colon or an angle bracket is encoded as bytes that do, and is found as
/// it is behind noise.
proof fn lemma_text_is_found(noise: Seq<u8>, text: Seq<char>)
    requires
        is_noise(noise),
        text.len() > 0,
        text[0] == ':' || text[0] == '>',
    ensures
        sanitized(noise + encode_utf8(text)) == Some(text),
{
    assert(58u32 & 0x7F == 58u32) by (bit_vector);
    assert(62u32 & 0x7F == 62u32) by (bit_vector);
    assert(encode_scalar(58u32) == seq![58u8]);
    assert(encode_scalar(62u32) == seq![62u8]);
    assert(encode_utf8(text) == encode_scalar(text[0] as u32) + encode_utf8(text.drop_first()));
    law_message_is_what_follows_noise(noise, encode_utf8(text), text);
}

/// Whether `s` is a way to write some light.
pub open spec fn writes_light(s: Seq<char>) -> bool {
    exists|v: i16| #[trigger] writes(s, v as int, true)
}

/// The encoding, behind noise, of a colon and of pieces with semicolons between them is a data
/// message. Where there are three pieces or more and the first is a way to write a number, its
/// light is that number and its other values are the second and the third piece as they are;
/// without three pieces, or where the first writes no number, it is malformed.
pub proof fn law_data_message_is_taken_apart(noise: Seq<u8>, pieces: Seq<Seq<char>>, light: i16)
    requires
        is_noise(noise),
        pieces.len() > 0,
        forall|i: int| 0 <= i < pieces.len() ==> !(#[trigger] pieces[i]).contains(';'),
    ensures
        pieces.len() >= 3 && writes(pieces[0], light as int, true) ==> processed(
            noise + encode_utf8(seq![':'] + join_text(pieces, ';')),
        ) == OutcomeView::Data(DataFieldsView { light, temp: pieces[1], humidity: pieces[2] }),
        pieces.len() < 3 || !writes_light(pieces[0]) ==> processed(
            noise + encode_utf8(seq![':'] + join_text(pieces, ';')),
        ) is Malformed,
{
    let body = join_text(pieces, ';');
    let text = seq![':'] + body;
    lemma_text_is_found(noise, text);
    assert(text.skip(1) =~= body);
    law_join_split(pieces, ';');
    law_i16_reads_what_is_written(pieces[0], light);
    if i16_text(pieces[0]) is Some {
        law_i16_reads_what_is_written(pieces[0], i16_text(pieces[0])->0);
    }
}

/// Every light, temperature and humidity that are written down in a data message come out of it:
/// the light as the number whose decimal notation was written, with a minus where it is negative,
/// and the others as they were written.
pub proof fn law_written_measurement_is_read(noise: Seq<u8>, light: i16, temp: Seq<char>, humidity: Seq<char>)
    requires
        is_noise(noise),
        !temp.contains(';'),
        !humidity.contains(';'),
    ensures
        light >= 0 ==> processed(
            noise + encode_utf8(
                seq![':'] + digits_of(light as nat) + seq![';'] + temp + seq![';'] + humidity,
            ),
        ) == OutcomeView::Data(DataFieldsView { light, temp, humidity }),
        light < 0 ==> processed(
            noise + encode_utf8(
                seq![':', '-'] + digits_of((-light) as nat) + seq![';'] + temp + seq![';'] + humidity,
            ),
        ) == OutcomeView::Data(DataFieldsView { light, temp, humidity }),
{
    assert forall|i: int| 0 <= i < noise.len() implies !is_msg_type(#[trigger] noise[i]) by {
        assert(noise[i] != 58 && noise[i] != 62);
    }
    law_i16_notation_is_read(light);
    if light >= 0 {
        let written = digits_of(light as nat);
        law_data_message_is_understood(noise, written, temp, humidity, Seq::empty());
        assert(data_message(written, temp, humidity, Seq::empty()) =~= seq![':'] + written + seq![';'] + temp
            + seq![';'] + humidity);
    } else {
        let written = seq!['-'] + digits_of((-light) as nat);
        law_data_message_is_understood(noise, written, temp, humidity, Seq::empty());
        assert(data_message(written, temp, humidity, Seq::empty()) =~= seq![':', '-'] + digits_of(
            (-light) as nat,
        ) + seq![';'] + temp + seq![';'] + humidity);
    }
}

/// The encoding, behind noise, of an angle bracket and of any text is an unexpected message with
/// that text.
pub proof fn law_other_message_is_unexpected(noise: Seq<u8>, body: Seq<char>)
    requires
        is_noise(noise),
    ensures
        processed(noise + encode_utf8(seq!['>'] + body)) == OutcomeView::Unexpected(body),
{
    let text = seq!['>'] + body;
    lemma_text_is_found(noise, text);
    assert(text.skip(1) =~= body);
}

/// No published payload is passed over: every one is handled as what processing its bytes gives, so
/// that a data message behind noise is handled as its values, and two payloads of the same bytes
/// are handled alike.
pub proof fn law_every_payload_is_handled(
    payload: Vec<u8>,
    noise: Seq<u8>,
    pieces: Seq<Seq<char>>,
    light: i16,
)
    requires
        is_noise(noise),
        pieces.len() > 0,
        forall|i: int| 0 <= i < pieces.len() ==> !(#[trigger] pieces[i]).contains(';'),
    ensures
        action_for(LoopEvent::Publish(payload)) == LoopActionView::Handle(processed(payload@)),
        payload@ == noise + encode_utf8(seq![':'] + join_text(pieces, ';')) && pieces.len() >= 3 && writes(
            pieces[0],
            light as int,
            true,
        ) ==> action_for(LoopEvent::Publish(payload)) == LoopActionView::Handle(
            OutcomeView::Data(DataFieldsView { light, temp: pieces[1], humidity: pieces[2] }),
        ),
{
    law_data_message_is_taken_apart(noise, pieces, light);
}

/// Waiting ends exactly where the module was told to stop, a failure is reported exactly where the
/// connection failed, and nothing is done exactly where there was nothing to do.
pub proof fn law_events_and_actions(event: LoopEvent)
    ensures
        action_for(event) is Exit <==> event is Stop,
        action_for(event) is Handle <==> event is Publish,
        action_for(event) is Skip <==> event is Other,
        action_for(event) is Report <==> event is Failed,
{
}

/// The contents of the values of a data message are its fields.
pub proof fn law_fields_contents(fields: DataFields)
    ensures
        fields@.light == fields.light,
        fields@.temp == fields.temp@,
        fields@.humidity == fields.humidity@,
{
}

/// The contents of an outcome are of its kind and hold what it holds, and so are those of an
/// action.
pub proof fn law_outcome_contents(outcome: Outcome, fields: DataFields, text: String)
    ensures
        Outcome::Data(fields)@ == OutcomeView::Data(fields@),
        Outcome::Unexpected(text)@ == OutcomeView::Unexpected(text@),
        outcome is Ignored <==> outcome@ is Ignored,
        outcome is Data <==> outcome@ is Data,
        outcome is Malformed <==> outcome@ is Malformed,
        outcome is Unexpected <==> outcome@ is Unexpected,
        LoopAction::Handle(outcome)@ == LoopActionView::Handle(outcome@),
        LoopAction::Exit@ is Exit,
        LoopAction::Skip@ is Skip,
        LoopAction::Report@ is Report,
{
}

} // verus!
