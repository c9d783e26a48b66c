//! Text: decoding bytes, comparing, splitting into fields and reading decimal integers.

use vstd::prelude::*;
use vstd::utf8::{decode_utf8, decode_utf8_encode_utf8, encode_utf8, encode_utf8_decode_utf8, encode_utf8_valid_utf8, valid_utf8};

verus! {

/// The text that `bytes` encode in UTF-8, if they do.
pub open spec fn utf8_text(bytes: Seq<u8>) -> Option<Seq<char>> {
    if valid_utf8(bytes) {
        Some(decode_utf8(bytes))
    } else {
        None
    }
}

/// Calls `std::str::from_utf8`, which accepts exactly the byte slices that are valid UTF-8 and
/// returns the text that they encode.
#[verifier::external_body]
pub(crate) fn str_from_utf8(bytes: &[u8]) -> (text: Option<&str>)
    ensures
        text is Some <==> utf8_text(bytes@) is Some,
        text matches Some(s) ==> utf8_text(bytes@) == Some(s@),
{
    std::str::from_utf8(bytes).ok()
}

/// The text that an optional byte string encodes, if it is there and encodes one.
pub open spec fn optional_text(bytes: Option<Vec<u8>>) -> Option<Seq<char>> {
    match bytes {
        Some(b) => utf8_text(b@),
        None => None,
    }
}

/// The text of a byte string that may be missing.
pub fn as_string(bytes: &Option<Vec<u8>>) -> (text: Option<String>)
    ensures
        text is Some <==> optional_text(*bytes) is Some,
        text matches Some(s) ==> optional_text(*bytes) == Some(s@),
{
    match bytes {
        Some(b) => match str_from_utf8(b.as_slice()) {
            Some(s) => Some(s.to_owned()),
            None => None,
        },
        None => None,
    }
}

/// Whether two texts are the same.
pub(crate) fn text_eq(a: &String, b: &str) -> (same: bool)
    ensures
        same == (a@ == b@),
{
    *a == b.to_owned()
}

/// Whether `c` is a decimal digit of ASCII.
pub open spec fn is_digit(c: char) -> bool {
    '0' <= c <= '9'
}

/// Whether `s` is made of decimal digits only, and at least one.
pub open spec fn is_decimal(s: Seq<char>) -> bool {
    s.len() > 0 && forall|i: int| 0 <= i < s.len() ==> is_digit(#[trigger] s[i])
}

/// The number that the digits of `s` write in base ten.
pub open spec fn decimal_value(s: Seq<char>) -> nat
    decreases s.len(),
{
    if s.len() == 0 {
        0
    } else {
        10 * decimal_value(s.drop_last()) + (s.last() as nat - '0' as nat) as nat
    }
}

/// The integer that `s` writes: decimal digits behind an optional `+`, or an optional `-` where
/// `signed`.
pub open spec fn integer_text(s: Seq<char>, signed: bool) -> Option<int> {
    if is_decimal(s) {
        Some(decimal_value(s) as int)
    } else if s.len() > 0 && s[0] == '+' && is_decimal(s.skip(1)) {
        Some(decimal_value(s.skip(1)) as int)
    } else if signed && s.len() > 0 && s[0] == '-' && is_decimal(s.skip(1)) {
        Some(-(decimal_value(s.skip(1)) as int))
    } else {
        None
    }
}

/// The `u16` that `s` writes, if it writes one.
pub open spec fn u16_text(s: Seq<char>) -> Option<u16> {
    match integer_text(s, false) {
        Some(v) => if v <= u16::MAX {
            Some(v as u16)
        } else {
            None
        },
        None => None,
    }
}

/// The `i16` that `s` writes, if it writes one.
pub open spec fn i16_text(s: Seq<char>) -> Option<i16> {
    match integer_text(s, true) {
        Some(v) => if i16::MIN <= v <= i16::MAX {
            Some(v as i16)
        } else {
            None
        },
        None => None,
    }
}

/// A number does not shrink when digits are appended to it.
proof fn lemma_decimal_prefix(s: Seq<char>, n: int)
    requires
        0 <= n <= s.len(),
    ensures
        decimal_value(s.take(n)) <= decimal_value(s),
    decreases s.len() - n,
{
    if n < s.len() {
        let longer = s.take(n + 1);
        assert(longer.drop_last() =~= s.take(n));
        lemma_decimal_prefix(s, n + 1);
    } else {
        assert(s.take(n) =~= s);
    }
}

/// Reads the digits of `s` from the position `from` on as a number of at most `limit`.
fn parse_digits(s: &str, from: usize, limit: u32) -> (value: Option<u32>)
    requires
        from <= s@.len(),
        limit <= 65535,
    ensures
        value == (if is_decimal(s@.skip(from as int)) && decimal_value(s@.skip(from as int)) <= limit {
            Some(decimal_value(s@.skip(from as int)) as u32)
        } else {
            None
        }),
{
    let ghost digits = s@.skip(from as int);
    let len: usize = s.unicode_len();
    if from == len {
        return None;
    }
    let mut acc: u32 = 0;
    let mut i: usize = from;
    assert(digits.take(0).len() == 0);
    while i < len
        invariant
            from <= i <= len,
            from < len,
            len == s@.len(),
            digits == s@.skip(from as int),
            limit <= 65535,
            acc <= limit,
            forall|k: int| 0 <= k < i - from ==> is_digit(#[trigger] digits[k]),
            acc == decimal_value(digits.take(i - from)),
        decreases len - i,
    {
        let c: char = s.get_char(i);
        assert(digits[i - from] == c);
        if c < '0' || c > '9' {
            return None;
        }
        let digit: u32 = c as u32 - '0' as u32;
        acc = acc * 10 + digit;
        proof {
            let longer = digits.take(i - from + 1);
            assert(longer.drop_last() =~= digits.take(i - from));
            assert(longer.last() == c);
            lemma_decimal_prefix(digits, i - from + 1);
        }
        if acc > limit {
            return None;
        }
        i = i + 1;
    }
    assert(digits.take(len - from) =~= digits);
    Some(acc)
}

/// Reads a `u16` as `u16::from_str` does: decimal digits behind an optional `+`.
pub fn parse_u16(s: &str) -> (value: Option<u16>)
    ensures
        value == u16_text(s@),
{
    let len: usize = s.unicode_len();
    if len > 0 && s.get_char(0) == '+' {
        assert(!is_digit(s@[0]));
        match parse_digits(s, 1, 65535) {
            Some(v) => Some(v as u16),
            None => None,
        }
    } else {
        assert(s@.skip(0) =~= s@);
        match parse_digits(s, 0, 65535) {
            Some(v) => Some(v as u16),
            None => None,
        }
    }
}

/// Reads an `i16` as `i16::from_str` does: decimal digits behind an optional `+` or `-`.
pub fn parse_i16(s: &str) -> (value: Option<i16>)
    ensures
        value == i16_text(s@),
{
    let len: usize = s.unicode_len();
    if len > 0 && s.get_char(0) == '-' {
        assert(!is_digit(s@[0]));
        match parse_digits(s, 1, 32768) {
            Some(v) => Some((0 - v as i32) as i16),
            None => None,
        }
    } else if len > 0 && s.get_char(0) == '+' {
        assert(!is_digit(s@[0]));
        match parse_digits(s, 1, 32767) {
            Some(v) => Some(v as i16),
            None => None,
        }
    } else {
        assert(s@.skip(0) =~= s@);
        match parse_digits(s, 0, 32767) {
            Some(v) => Some(v as i16),
            None => None,
        }
    }
}

/// The pieces of `s` between the occurrences of `sep`: one more than there are occurrences.
pub open spec fn split_text(s: Seq<char>, sep: char) -> Seq<Seq<char>>
    decreases s.len(),
{
    if s.len() == 0 {
        seq![Seq::empty()]
    } else {
        let before = split_text(s.drop_last(), sep);
        if s.last() == sep {
            before.push(Seq::empty())
        } else {
            before.drop_last().push(before.last().push(s.last()))
        }
    }
}

/// The pieces put one behind the other, with `sep` between each and the next.
pub open spec fn join_text(pieces: Seq<Seq<char>>, sep: char) -> Seq<char>
    decreases pieces.len(),
{
    if pieces.len() == 0 {
        Seq::empty()
    } else if pieces.len() == 1 {
        pieces[0]
    } else {
        join_text(pieces.drop_last(), sep).push(sep) + pieces.last()
    }
}

/// Splitting loses nothing and leaves no separator behind: there is at least one piece, none holds
/// the separator, and joining the pieces gives the text back.
pub proof fn law_split_join(s: Seq<char>, sep: char)
    ensures
        split_text(s, sep).len() > 0,
        forall|i: int| 0 <= i < split_text(s, sep).len() ==> !(#[trigger] split_text(s, sep)[i]).contains(sep),
        join_text(split_text(s, sep), sep) == s,
    decreases s.len(),
{
    let pieces = split_text(s, sep);
    if s.len() == 0 {
        assert(pieces.len() == 1);
        assert(pieces[0] =~= s);
    } else {
        let front = s.drop_last();
        let before = split_text(front, sep);
        law_split_join(front, sep);
        if s.last() == sep {
            assert(pieces.drop_last() =~= before);
            assert(join_text(pieces, sep) =~= s);
        } else {
            assert(pieces.drop_last() =~= before.drop_last());
            assert(pieces.last() =~= before.last().push(s.last()));
            assert(join_text(pieces, sep) =~= join_text(before, sep).push(s.last()));
            assert(join_text(pieces, sep) =~= s);
            assert forall|i: int| 0 <= i < pieces.len() implies !(#[trigger] pieces[i]).contains(sep) by {
                if i < before.len() - 1 {
                    assert(pieces[i] == before[i]);
                } else {
                    let last = before[before.len() - 1];
                    assert(pieces[i] == last.push(s.last()));
                    if pieces[i].contains(sep) {
                        let k = choose|k: int| 0 <= k < pieces[i].len() && pieces[i][k] == sep;
                        assert(k < last.len());
                        assert(last[k] == sep);
                    }
                }
            }
        }
    }
}

/// A text without the separator is its one piece.
pub proof fn law_split_single(s: Seq<char>, sep: char)
    requires
        !s.contains(sep),
    ensures
        split_text(s, sep) == seq![s],
    decreases s.len(),
{
    if s.len() == 0 {
        assert(s =~= Seq::empty());
    } else {
        let front = s.drop_last();
        assert(s[s.len() - 1] == s.last());
        assert(s.last() != sep);
        assert(!front.contains(sep)) by {
            if front.contains(sep) {
                let k = choose|k: int| 0 <= k < front.len() && front[k] == sep;
                assert(s[k] == sep);
            }
        }
        law_split_single(front, sep);
        assert(front.push(s.last()) =~= s);
        assert(split_text(s, sep) =~= seq![s]);
    }
}

/// The pieces of two texts with a separator between them are the pieces of the first and then the
/// pieces of the second.
pub proof fn law_split_concat(a: Seq<char>, b: Seq<char>, sep: char)
    ensures
        split_text(a.push(sep) + b, sep) == split_text(a, sep) + split_text(b, sep),
    decreases b.len(),
{
    let whole = a.push(sep) + b;
    if b.len() == 0 {
        assert(whole =~= a.push(sep));
        assert(whole.drop_last() =~= a);
        assert(split_text(whole, sep) =~= split_text(a, sep) + split_text(b, sep));
    } else {
        let front = b.drop_last();
        assert(whole.drop_last() =~= a.push(sep) + front);
        assert(whole.last() == b.last());
        law_split_concat(a, front, sep);
        law_split_join(front, sep);
        let before = split_text(a, sep) + split_text(front, sep);
        assert(before.last() == split_text(front, sep).last());
        assert(before.drop_last() =~= split_text(a, sep) + split_text(front, sep).drop_last());
        assert(split_text(whole, sep) =~= split_text(a, sep) + split_text(b, sep));
    }
}

/// The texts that a vector of strings holds.
pub open spec fn texts(strings: Seq<String>) -> Seq<Seq<char>> {
    strings.map_values(|s: String| s@)
}

/// Splits `s` at each `sep`.
pub(crate) fn split(s: &str, sep: char) -> (pieces: Vec<String>)
    ensures
        texts(pieces@) == split_text(s@, sep),
{
    let len: usize = s.unicode_len();
    let mut pieces: Vec<String> = Vec::new();
    let mut start: usize = 0;
    let mut i: usize = 0;
    assert(s@.take(0) =~= Seq::<char>::empty());
    assert(texts(pieces@).push(s@.subrange(0, 0)) =~= split_text(s@.take(0), sep));
    while i < len
        invariant
            start <= i <= len,
            len == s@.len(),
            split_text(s@.take(i as int), sep) == texts(pieces@).push(s@.subrange(start as int, i as int)),
        decreases len - i,
    {
        let ghost done = texts(pieces@);
        let ghost piece = s@.subrange(start as int, i as int);
        let c: char = s.get_char(i);
        assert(s@.take(i + 1).drop_last() =~= s@.take(i as int));
        assert(s@.take(i + 1).last() == c);
        assert(done.push(piece).drop_last() =~= done);
        if c == sep {
            pieces.push(s.substring_char(start, i).to_owned());
            start = i + 1;
            assert(texts(pieces@) =~= done.push(piece));
            assert(s@.subrange(start as int, i + 1) =~= Seq::<char>::empty());
        } else {
            assert(s@.subrange(start as int, i + 1) =~= piece.push(c));
        }
        i = i + 1;
    }
    let ghost done = texts(pieces@);
    pieces.push(s.substring_char(start, len).to_owned());
    assert(texts(pieces@) =~= done.push(s@.subrange(start as int, len as int)));
    assert(s@.take(len as int) =~= s@);
    pieces
}

/// Bytes are text exactly where some text has them for its UTF-8 encoding, and then they are that
/// text.
pub proof fn law_bytes_are_their_text(bytes: Seq<u8>, text: Seq<char>)
    ensures
        utf8_text(bytes) == Some(text) <==> encode_utf8(text) == bytes,
        optional_text(None) is None,
{
    encode_utf8_valid_utf8(text);
    encode_utf8_decode_utf8(text);
    if valid_utf8(bytes) {
        decode_utf8_encode_utf8(bytes);
    }
}

/// A byte string that is there is text exactly where some text has it for its UTF-8 encoding, and
/// then it is that text.
pub proof fn law_optional_bytes_are_their_text(bytes: Vec<u8>, text: Seq<char>)
    ensures
        optional_text(Some(bytes)) == Some(text) <==> encode_utf8(text) == bytes@,
{
    law_bytes_are_their_text(bytes@, text);
}

/// The character that writes a number below ten.
pub open spec fn digit_char(d: nat) -> char {
    (48 + d) as char
}

/// The usual decimal notation of a number: the notation of its tens, if there are any, and then
/// its ones.
pub open spec fn digits_of(n: nat) -> Seq<char>
    decreases n,
{
    if n < 10 {
        seq![digit_char(n)]
    } else {
        digits_of(n / 10).push(digit_char(n % 10))
    }
}

/// As many zeros.
pub open spec fn zeros(count: nat) -> Seq<char> {
    Seq::new(count, |i: int| '0')
}

/// The decimal notation of a number behind `count` further zeros.
pub open spec fn padded(n: nat, count: nat) -> Seq<char> {
    zeros(count) + digits_of(n)
}

/// Whether `s` is a way to write the integer `v`: its decimal notation, behind zeros or not, with
/// an optional plus in front unless it is negative, and with a minus in front where `signed` and
/// it is not positive.
pub open spec fn writes(s: Seq<char>, v: int, signed: bool) -> bool {
    ||| v >= 0 && exists|k: nat| s == #[trigger] padded(v as nat, k)
    ||| v >= 0 && exists|k: nat| s == seq!['+'] + #[trigger] padded(v as nat, k)
    ||| signed && v <= 0 && exists|k: nat| s == seq!['-'] + #[trigger] padded((-v) as nat, k)
}

/// The decimal notation of a number is made of digits and has the number for its value.
proof fn lemma_digits_of(n: nat)
    ensures
        is_decimal(digits_of(n)),
        decimal_value(digits_of(n)) == n,
    decreases n,
{
    let s = digits_of(n);
    reveal_with_fuel(decimal_value, 2);
    if n < 10 {
        assert(s.len() == 1);
        assert(s.drop_last() =~= Seq::empty());
        assert(s[0] == digit_char(n));
    } else {
        let front = digits_of(n / 10);
        lemma_digits_of(n / 10);
        assert(s.drop_last() =~= front);
        assert(s.last() == digit_char(n % 10));
        assert forall|i: int| 0 <= i < s.len() implies is_digit(#[trigger] s[i]) by {
            if i < front.len() {
                assert(s[i] == front[i]);
            }
        }
    }
}

/// Zeros in front of a number leave it made of digits and leave its value alone.
proof fn lemma_leading_zeros(count: nat, s: Seq<char>)
    requires
        is_decimal(s),
    ensures
        is_decimal(zeros(count) + s),
        decimal_value(zeros(count) + s) == decimal_value(s),
    decreases s.len(),
{
    let front = zeros(count);
    let whole = front + s;
    assert forall|i: int| 0 <= i < whole.len() implies is_digit(#[trigger] whole[i]) by {
        if i >= count {
            assert(whole[i] == s[i - count]);
        }
    }
    assert(whole.drop_last() =~= front + s.drop_last());
    assert(whole.last() == s.last());
    if s.len() == 1 {
        assert(s.drop_last() =~= Seq::empty());
        assert(decimal_value(s.drop_last()) == 0);
        assert(front + s.drop_last() =~= front);
        lemma_zeros_are_zero(count);
    } else {
        assert forall|i: int| 0 <= i < s.drop_last().len() implies is_digit(#[trigger] s.drop_last()[i]) by {
            assert(s.drop_last()[i] == s[i]);
        }
        lemma_leading_zeros(count, s.drop_last());
    }
}

/// Zeros alone are worth nothing.
proof fn lemma_zeros_are_zero(count: nat)
    ensures
        decimal_value(zeros(count)) == 0,
    decreases count,
{
    if count > 0 {
        let s = zeros(count);
        assert(s.drop_last() =~= zeros((count - 1) as nat));
        lemma_zeros_are_zero((count - 1) as nat);
    }
}

/// Digits are the decimal notation of their value, behind some zeros or none.
proof fn lemma_decimal_is_padded(s: Seq<char>)
    requires
        is_decimal(s),
    ensures
        exists|k: nat| s == #[trigger] padded(decimal_value(s), k),
    decreases s.len(),
{
    let front = s.drop_last();
    let c = s.last();
    assert(is_digit(s[s.len() - 1]));
    let d = (c as nat - '0' as nat) as nat;
    assert(digit_char(d) == c);
    assert(s =~= front.push(c));
    reveal_with_fuel(decimal_value, 2);
    if front.len() == 0 {
        assert(front =~= Seq::empty());
        assert(s =~= padded(d, 0));
        assert(decimal_value(s) == d);
    } else {
        assert forall|i: int| 0 <= i < front.len() implies is_digit(#[trigger] front[i]) by {
            assert(front[i] == s[i]);
        }
        lemma_decimal_is_padded(front);
        let m = decimal_value(front);
        let k = choose|k: nat| front == #[trigger] padded(m, k);
        assert(decimal_value(s) == 10 * m + d);
        if m == 0 {
            assert(s =~= padded(d, k + 1));
        } else {
            assert((10 * m + d) / 10 == m && (10 * m + d) % 10 == d);
            assert(s =~= padded(10 * m + d, k));
        }
    }
}

/// Digits have a value exactly where they are its decimal notation, behind some zeros or none.
pub proof fn law_digits_are_notation(s: Seq<char>, n: nat)
    ensures
        is_decimal(s) && decimal_value(s) == n <==> exists|k: nat| s == #[trigger] padded(n, k),
{
    if is_decimal(s) && decimal_value(s) == n {
        lemma_decimal_is_padded(s);
    }
    if exists|k: nat| s == #[trigger] padded(n, k) {
        let k = choose|k: nat| s == #[trigger] padded(n, k);
        lemma_digits_of(n);
        lemma_leading_zeros(k, digits_of(n));
    }
}

/// A text reads as an integer exactly where it is a way to write it.
proof fn lemma_integer_text(s: Seq<char>, v: int, signed: bool)
    ensures
        integer_text(s, signed) == Some(v) <==> writes(s, v, signed),
{
    if integer_text(s, signed) == Some(v) {
        if is_decimal(s) {
            lemma_decimal_is_padded(s);
        } else {
            let rest = s.skip(1);
            lemma_decimal_is_padded(rest);
            let k = choose|k: nat| rest == #[trigger] padded(decimal_value(rest), k);
            assert(s =~= seq![s[0]] + padded(decimal_value(rest), k));
        }
    }
    if writes(s, v, signed) {
        let n: nat = if v >= 0 {
            v as nat
        } else {
            (-v) as nat
        };
        lemma_digits_of(n);
        assert forall|k: nat| is_decimal(#[trigger] padded(n, k)) && decimal_value(padded(n, k)) == n by {
            lemma_leading_zeros(k, digits_of(n));
        }
        if v >= 0 && exists|k: nat| s == #[trigger] padded(n, k) {
        } else if v >= 0 && exists|k: nat| s == seq!['+'] + #[trigger] padded(n, k) {
            let k = choose|k: nat| s == seq!['+'] + #[trigger] padded(n, k);
            assert(s.skip(1) =~= padded(n, k));
            assert(!is_digit(s[0]));
        } else {
            let k = choose|k: nat| s == seq!['-'] + #[trigger] padded(n, k);
            assert(s.skip(1) =~= padded(n, k));
            assert(!is_digit(s[0]));
        }
    }
}

/// Reading a signed number inverts writing it: a text reads as `v` exactly where it is a way to
/// write `v`.
pub proof fn law_i16_reads_what_is_written(s: Seq<char>, v: i16)
    ensures
        i16_text(s) == Some(v) <==> writes(s, v as int, true),
{
    lemma_integer_text(s, v as int, true);
}

/// Reading an unsigned number inverts writing it: a text reads as `v` exactly where it is a way to
/// write `v`, and no way to write it has a minus.
pub proof fn law_u16_reads_what_is_written(s: Seq<char>, v: u16)
    ensures
        u16_text(s) == Some(v) <==> writes(s, v as int, false),
{
    lemma_integer_text(s, v as int, false);
}

/// The decimal notation of a number is a way to write it, and with a minus in front a way to write
/// its negative.
proof fn lemma_notation_is_written(n: nat, signed: bool)
    ensures
        writes(digits_of(n), n as int, signed),
        signed ==> writes(seq!['-'] + digits_of(n), -(n as int), signed),
{
    let v: int = n as int;
    let w: int = -v;
    let s = digits_of(n);
    assert(v as nat == n);
    assert((-w) as nat == n);
    assert(s =~= padded(n, 0));
    assert(s == padded(v as nat, 0));
    assert(exists|k: nat| s == #[trigger] padded(v as nat, k));
    assert(writes(s, v, signed));
    if signed {
        let t = seq!['-'] + s;
        assert(t == seq!['-'] + padded((-w) as nat, 0));
        assert(exists|k: nat| t == seq!['-'] + #[trigger] padded((-w) as nat, k));
        assert(writes(t, w, signed));
    }
}

/// The decimal notation of every `i16`, with a minus where it is negative, reads as that number.
pub proof fn law_i16_notation_is_read(v: i16)
    ensures
        v >= 0 ==> i16_text(digits_of(v as nat)) == Some(v),
        v < 0 ==> i16_text(seq!['-'] + digits_of((-v) as nat)) == Some(v),
{
    if v >= 0 {
        let n: nat = v as nat;
        lemma_notation_is_written(n, true);
        assert(n as int == v as int);
        law_i16_reads_what_is_written(digits_of(n), v);
    } else {
        let n: nat = (-v) as nat;
        lemma_notation_is_written(n, true);
        assert(-(n as int) == v as int);
        law_i16_reads_what_is_written(seq!['-'] + digits_of(n), v);
    }
}

/// The decimal notation of every `u16` reads as that number.
pub proof fn law_u16_notation_is_read(v: u16)
    ensures
        u16_text(digits_of(v as nat)) == Some(v),
{
    let n: nat = v as nat;
    lemma_notation_is_written(n, false);
    assert(n as int == v as int);
    law_u16_reads_what_is_written(digits_of(n), v);
}

/// Splitting inverts joining: pieces without the separator, at least one, come out as they went in.
pub proof fn law_join_split(pieces: Seq<Seq<char>>, sep: char)
    requires
        pieces.len() > 0,
        forall|i: int| 0 <= i < pieces.len() ==> !(#[trigger] pieces[i]).contains(sep),
    ensures
        split_text(join_text(pieces, sep), sep) == pieces,
    decreases pieces.len(),
{
    let last = pieces[pieces.len() - 1];
    assert(!last.contains(sep));
    law_split_single(last, sep);
    if pieces.len() == 1 {
        assert(pieces =~= seq![last]);
    } else {
        let front = pieces.drop_last();
        assert forall|i: int| 0 <= i < front.len() implies !(#[trigger] front[i]).contains(sep) by {
            assert(front[i] == pieces[i]);
        }
        law_join_split(front, sep);
        law_split_concat(join_text(front, sep), last, sep);
        assert(front + seq![last] =~= pieces);
    }
}

} // verus!
