//! Reading a discovery reply into a descriptor.
//!
//! A reply is framed like an HTTP response: a status line, then header lines
//! `key: value`. The keys `id`, `model`, `fw_ver`, `power`, `bright`,
//! `color_mode`, `ct`, `rgb`, `hue`, `sat` and `name` fill the descriptor;
//! every other key is passed over. Where a key comes twice, the later line
//! counts.

use vstd::prelude::*;
use vstd::string::StringSliceAdditionalSpecFns;
use vstd::utf8::*;

use crate::modules::yeelight::headers::{
    fields_of, read_response, response_headers, HeaderField, N_HEADERS,
};
use crate::modules::yeelight::{BulbView, ColorMode, Model, Power, YeelightBulb, MAX_NAME_BYTES};
use crate::modules::Device;
use crate::text::{
    bytes_eq, decimal_value, is_decimal, parse_decimal, text_of, word, NumberError,
};

verus! {

/// The fields of a reply that can be wrong.
#[derive(Debug, Clone, Copy, PartialEq, Eq, Structural)]
pub enum Field {
    Id,
    FwVer,
    Bright,
    Ct,
    Rgb,
    Hue,
    Sat,
    Name,
}

/// Why a reply gave no descriptor.
#[derive(Debug, Clone, Copy, PartialEq, Eq, Structural)]
pub enum ProtocolError {
    /// The reply is not framed as a status line and header lines, or holds
    /// more header lines than a reply may.
    Malformed,
    /// The value of a text field is not well-formed UTF-8.
    NotText(Field),
    /// The value of a numeric field is not an unsigned decimal number.
    NotANumber(Field),
    /// The value of a numeric field is a number outside the field's range.
    OutOfRange(Field),
    /// The value of a text field is longer than the field allows.
    TooLong(Field),
}

/// The product line that the text of a `model` line names.
pub open spec fn model_of(value: Seq<u8>) -> Model {
    if value == word("mono") {
        Model::White
    } else if value == word("color") {
        Model::Color
    } else {
        Model::Unknown
    }
}

/// The state that the text of a `power` line names.
pub open spec fn power_of(value: Seq<u8>) -> Power {
    if value == word("on") {
        Power::On
    } else if value == word("off") {
        Power::Off
    } else {
        Power::Unknown
    }
}

/// The light mode that the text of a `color_mode` line names.
pub open spec fn color_mode_of(value: Seq<u8>) -> ColorMode {
    if value == word("1") {
        ColorMode::Color
    } else if value == word("2") {
        ColorMode::Temperature
    } else if value == word("3") {
        ColorMode::HSV
    } else {
        ColorMode::Unknown
    }
}

/// The number that a numeric field holds, which must lie in `low..=high`.
pub open spec fn number_in(value: Seq<u8>, field: Field, low: nat, high: nat) -> Result<
    nat,
    ProtocolError,
> {
    if !is_decimal(value) {
        Err(ProtocolError::NotANumber(field))
    } else if low <= decimal_value(value) <= high {
        Ok(decimal_value(value))
    } else {
        Err(ProtocolError::OutOfRange(field))
    }
}

/// The text that a text field holds.
pub open spec fn text_in(value: Seq<u8>, field: Field) -> Result<Seq<char>, ProtocolError> {
    if valid_utf8(value) {
        Ok(decode_utf8(value))
    } else {
        Err(ProtocolError::NotText(field))
    }
}

/// The name that a `name` line holds, of at most 64 bytes.
pub open spec fn name_in(value: Seq<u8>) -> Result<Seq<char>, ProtocolError> {
    if value.len() > MAX_NAME_BYTES {
        Err(ProtocolError::TooLong(Field::Name))
    } else {
        text_in(value, Field::Name)
    }
}

/// The descriptor after one more header line, or the error that the line
/// holds.
pub open spec fn absorb(bulb: BulbView, name: Seq<char>, value: Seq<u8>) -> Result<
    BulbView,
    ProtocolError,
> {
    if name == "id"@ {
        match text_in(value, Field::Id) {
            Ok(id) => Ok(BulbView { id, ..bulb }),
            Err(e) => Err(e),
        }
    } else if name == "model"@ {
        Ok(BulbView { model: model_of(value), ..bulb })
    } else if name == "fw_ver"@ {
        match text_in(value, Field::FwVer) {
            Ok(fw_version) => Ok(BulbView { fw_version, ..bulb }),
            Err(e) => Err(e),
        }
    } else if name == "power"@ {
        Ok(BulbView { power: power_of(value), ..bulb })
    } else if name == "bright"@ {
        match number_in(value, Field::Bright, 1, 100) {
            Ok(n) => Ok(BulbView { bright: n as u8, ..bulb }),
            Err(e) => Err(e),
        }
    } else if name == "color_mode"@ {
        Ok(BulbView { color_mode: color_mode_of(value), ..bulb })
    } else if name == "ct"@ {
        match number_in(value, Field::Ct, 0, u16::MAX as nat) {
            Ok(n) => Ok(BulbView { ct: n as u16, ..bulb }),
            Err(e) => Err(e),
        }
    } else if name == "rgb"@ {
        match number_in(value, Field::Rgb, 0, u32::MAX as nat) {
            Ok(n) => Ok(BulbView { rgb: n as u32, ..bulb }),
            Err(e) => Err(e),
        }
    } else if name == "hue"@ {
        match number_in(value, Field::Hue, 0, 359) {
            Ok(n) => Ok(BulbView { hue: n as u16, ..bulb }),
            Err(e) => Err(e),
        }
    } else if name == "sat"@ {
        match number_in(value, Field::Sat, 0, 100) {
            Ok(n) => Ok(BulbView { sat: n as u8, ..bulb }),
            Err(e) => Err(e),
        }
    } else if name == "name"@ {
        match name_in(value) {
            Ok(name) => Ok(BulbView { name, ..bulb }),
            Err(e) => Err(e),
        }
    } else {
        Ok(bulb)
    }
}

/// The descriptor after a list of header lines, taken in order, or the error
/// of the first line that holds one.
pub open spec fn absorb_all(bulb: BulbView, fields: Seq<(Seq<char>, Seq<u8>)>) -> Result<
    BulbView,
    ProtocolError,
>
    decreases fields.len(),
{
    if fields.len() == 0 {
        Ok(bulb)
    } else {
        match absorb(bulb, fields[0].0, fields[0].1) {
            Ok(next) => absorb_all(next, fields.drop_first()),
            Err(e) => Err(e),
        }
    }
}

/// The descriptor that a list of header lines gives.
pub open spec fn describe(fields: Seq<(Seq<char>, Seq<u8>)>) -> Result<BulbView, ProtocolError> {
    absorb_all(BulbView::blank(), fields)
}

/// What reading a datagram gives: the descriptor that its header lines give,
/// or `Malformed` where it has no readable header lines.
pub open spec fn reading(datagram: Seq<u8>) -> Result<BulbView, ProtocolError> {
    match response_headers(datagram, N_HEADERS as nat) {
        Some(fields) => describe(fields),
        None => Err(ProtocolError::Malformed),
    }
}

/// Whether a result is the given outcome: the same error, or a descriptor
/// that holds what the outcome holds.
pub open spec fn agrees(
    got: Result<YeelightBulb, ProtocolError>,
    want: Result<BulbView, ProtocolError>,
) -> bool {
    match got {
        Ok(bulb) => want == Ok::<BulbView, ProtocolError>(bulb@),
        Err(e) => want == Err::<BulbView, ProtocolError>(e),
    }
}

/// Whether a name is one of the keys that fill a descriptor.
pub open spec fn is_known_key(name: Seq<char>) -> bool {
    ||| name == "id"@
    ||| name == "model"@
    ||| name == "fw_ver"@
    ||| name == "power"@
    ||| name == "bright"@
    ||| name == "color_mode"@
    ||| name == "ct"@
    ||| name == "rgb"@
    ||| name == "hue"@
    ||| name == "sat"@
    ||| name == "name"@
}

/// The keys that fill a descriptor are eleven different names.
pub proof fn lemma_keys_differ()
    ensures
        "id"@ != "model"@,
        "id"@ != "fw_ver"@,
        "id"@ != "power"@,
        "id"@ != "bright"@,
        "id"@ != "color_mode"@,
        "id"@ != "ct"@,
        "id"@ != "rgb"@,
        "id"@ != "hue"@,
        "id"@ != "sat"@,
        "id"@ != "name"@,
        "model"@ != "fw_ver"@,
        "model"@ != "power"@,
        "model"@ != "bright"@,
        "model"@ != "color_mode"@,
        "model"@ != "ct"@,
        "model"@ != "rgb"@,
        "model"@ != "hue"@,
        "model"@ != "sat"@,
        "model"@ != "name"@,
        "fw_ver"@ != "power"@,
        "fw_ver"@ != "bright"@,
        "fw_ver"@ != "color_mode"@,
        "fw_ver"@ != "ct"@,
        "fw_ver"@ != "rgb"@,
        "fw_ver"@ != "hue"@,
        "fw_ver"@ != "sat"@,
        "fw_ver"@ != "name"@,
        "power"@ != "bright"@,
        "power"@ != "color_mode"@,
        "power"@ != "ct"@,
        "power"@ != "rgb"@,
        "power"@ != "hue"@,
        "power"@ != "sat"@,
        "power"@ != "name"@,
        "bright"@ != "color_mode"@,
        "bright"@ != "ct"@,
        "bright"@ != "rgb"@,
        "bright"@ != "hue"@,
        "bright"@ != "sat"@,
        "bright"@ != "name"@,
        "color_mode"@ != "ct"@,
        "color_mode"@ != "rgb"@,
        "color_mode"@ != "hue"@,
        "color_mode"@ != "sat"@,
        "color_mode"@ != "name"@,
        "ct"@ != "rgb"@,
        "ct"@ != "hue"@,
        "ct"@ != "sat"@,
        "ct"@ != "name"@,
        "rgb"@ != "hue"@,
        "rgb"@ != "sat"@,
        "rgb"@ != "name"@,
        "hue"@ != "sat"@,
        "hue"@ != "name"@,
        "sat"@ != "name"@,
{
    reveal_strlit("id");
    reveal_strlit("model");
    reveal_strlit("fw_ver");
    reveal_strlit("power");
    reveal_strlit("bright");
    reveal_strlit("color_mode");
    reveal_strlit("ct");
    reveal_strlit("rgb");
    reveal_strlit("hue");
    reveal_strlit("sat");
    reveal_strlit("name");
    assert("id"@.len() != "model"@.len());
    assert("id"@.len() != "fw_ver"@.len());
    assert("id"@.len() != "power"@.len());
    assert("id"@.len() != "bright"@.len());
    assert("id"@.len() != "color_mode"@.len());
    assert("id"@[0] != "ct"@[0]);
    assert("id"@.len() != "rgb"@.len());
    assert("id"@.len() != "hue"@.len());
    assert("id"@.len() != "sat"@.len());
    assert("id"@.len() != "name"@.len());
    assert("model"@.len() != "fw_ver"@.len());
    assert("model"@[0] != "power"@[0]);
    assert("model"@.len() != "bright"@.len());
    assert("model"@.len() != "color_mode"@.len());
    assert("model"@.len() != "ct"@.len());
    assert("model"@.len() != "rgb"@.len());
    assert("model"@.len() != "hue"@.len());
    assert("model"@.len() != "sat"@.len());
    assert("model"@.len() != "name"@.len());
    assert("fw_ver"@.len() != "power"@.len());
    assert("fw_ver"@[0] != "bright"@[0]);
    assert("fw_ver"@.len() != "color_mode"@.len());
    assert("fw_ver"@.len() != "ct"@.len());
    assert("fw_ver"@.len() != "rgb"@.len());
    assert("fw_ver"@.len() != "hue"@.len());
    assert("fw_ver"@.len() != "sat"@.len());
    assert("fw_ver"@.len() != "name"@.len());
    assert("power"@.len() != "bright"@.len());
    assert("power"@.len() != "color_mode"@.len());
    assert("power"@.len() != "ct"@.len());
    assert("power"@.len() != "rgb"@.len());
    assert("power"@.len() != "hue"@.len());
    assert("power"@.len() != "sat"@.len());
    assert("power"@.len() != "name"@.len());
    assert("bright"@.len() != "color_mode"@.len());
    assert("bright"@.len() != "ct"@.len());
    assert("bright"@.len() != "rgb"@.len());
    assert("bright"@.len() != "hue"@.len());
    assert("bright"@.len() != "sat"@.len());
    assert("bright"@.len() != "name"@.len());
    assert("color_mode"@.len() != "ct"@.len());
    assert("color_mode"@.len() != "rgb"@.len());
    assert("color_mode"@.len() != "hue"@.len());
    assert("color_mode"@.len() != "sat"@.len());
    assert("color_mode"@.len() != "name"@.len());
    assert("ct"@.len() != "rgb"@.len());
    assert("ct"@.len() != "hue"@.len());
    assert("ct"@.len() != "sat"@.len());
    assert("ct"@.len() != "name"@.len());
    assert("rgb"@[0] != "hue"@[0]);
    assert("rgb"@[0] != "sat"@[0]);
    assert("rgb"@.len() != "name"@.len());
    assert("hue"@[0] != "sat"@[0]);
    assert("hue"@.len() != "name"@.len());
    assert("sat"@.len() != "name"@.len());
}

/// A line with a key that is none of the known ones changes nothing and is
/// no error, whatever its value.
pub proof fn lemma_unknown_key_is_passed_over(bulb: BulbView, name: Seq<char>, value: Seq<u8>)
    requires
        !is_known_key(name),
    ensures
        absorb(bulb, name, value) == Ok::<BulbView, ProtocolError>(bulb),
{
}

/// A `model`, `power` or `color_mode` line is never an error: it sets its
/// field to what its text names, and text that names nothing reads as
/// `Unknown`.
pub proof fn lemma_unknown_text_reads_as_unknown(bulb: BulbView, value: Seq<u8>)
    ensures
        absorb(bulb, "model"@, value) == Ok::<BulbView, ProtocolError>(
            BulbView { model: model_of(value), ..bulb },
        ),
        absorb(bulb, "power"@, value) == Ok::<BulbView, ProtocolError>(
            BulbView { power: power_of(value), ..bulb },
        ),
        absorb(bulb, "color_mode"@, value) == Ok::<BulbView, ProtocolError>(
            BulbView { color_mode: color_mode_of(value), ..bulb },
        ),
        value != word("mono") && value != word("color") ==> model_of(value) == Model::Unknown,
        value != word("on") && value != word("off") ==> power_of(value) == Power::Unknown,
        value != word("1") && value != word("2") && value != word("3") ==> color_mode_of(value)
            == ColorMode::Unknown,
{
    lemma_keys_differ();
}

/// A `bright`, `ct`, `rgb`, `hue` or `sat` line whose value is not an
/// unsigned decimal number is an error, and the error names the field.
pub proof fn lemma_bad_number_is_refused(bulb: BulbView, value: Seq<u8>)
    requires
        !is_decimal(value),
    ensures
        absorb(bulb, "bright"@, value) == Err::<BulbView, ProtocolError>(
            ProtocolError::NotANumber(Field::Bright),
        ),
        absorb(bulb, "ct"@, value) == Err::<BulbView, ProtocolError>(
            ProtocolError::NotANumber(Field::Ct),
        ),
        absorb(bulb, "rgb"@, value) == Err::<BulbView, ProtocolError>(
            ProtocolError::NotANumber(Field::Rgb),
        ),
        absorb(bulb, "hue"@, value) == Err::<BulbView, ProtocolError>(
            ProtocolError::NotANumber(Field::Hue),
        ),
        absorb(bulb, "sat"@, value) == Err::<BulbView, ProtocolError>(
            ProtocolError::NotANumber(Field::Sat),
        ),
{
    lemma_keys_differ();
}

/// Reading stops at the first line in error: where the lines before line
/// `k` are read without error and line `k` is in error, reading the list
/// gives the error of line `k`, whatever follows it.
pub proof fn lemma_first_error_ends_the_reading(
    bulb: BulbView,
    fields: Seq<(Seq<char>, Seq<u8>)>,
    k: int,
)
    requires
        0 <= k < fields.len(),
        absorb_all(bulb, fields.take(k)) is Ok,
        absorb(absorb_all(bulb, fields.take(k))->Ok_0, fields[k].0, fields[k].1) is Err,
    ensures
        absorb_all(bulb, fields) == Err::<BulbView, ProtocolError>(
            absorb(absorb_all(bulb, fields.take(k))->Ok_0, fields[k].0, fields[k].1)->Err_0,
        ),
    decreases k,
{
    if k > 0 {
        let front = fields.take(k);
        assert(front[0] == fields[0]);
        assert(front.drop_first() =~= fields.drop_first().take(k - 1));
        let next = absorb(bulb, fields[0].0, fields[0].1)->Ok_0;
        assert(fields.drop_first()[k - 1] == fields[k]);
        lemma_first_error_ends_the_reading(next, fields.drop_first(), k - 1);
    } else {
        assert(fields.take(0) =~= Seq::<(Seq<char>, Seq<u8>)>::empty());
    }
}

/// Lines are taken one after the other: reading a list is reading its
/// first `k` lines, and then the rest into what they gave.
pub proof fn lemma_lines_are_taken_in_order(
    bulb: BulbView,
    fields: Seq<(Seq<char>, Seq<u8>)>,
    k: int,
)
    requires
        0 <= k <= fields.len(),
    ensures
        absorb_all(bulb, fields) == match absorb_all(bulb, fields.take(k)) {
            Ok(mid) => absorb_all(mid, fields.skip(k)),
            Err(e) => Err(e),
        },
    decreases k,
{
    if k > 0 {
        let front = fields.take(k);
        assert(front[0] == fields[0]);
        assert(front.drop_first() =~= fields.drop_first().take(k - 1));
        assert(fields.drop_first().skip(k - 1) =~= fields.skip(k));
        match absorb(bulb, fields[0].0, fields[0].1) {
            Ok(next) => lemma_lines_are_taken_in_order(next, fields.drop_first(), k - 1),
            Err(_) => {},
        }
    } else {
        assert(fields.take(0) =~= Seq::<(Seq<char>, Seq<u8>)>::empty());
        assert(fields.skip(0) =~= fields);
    }
}

/// One line keeps a descriptor in range.
proof fn lemma_absorb_well_formed(bulb: BulbView, name: Seq<char>, value: Seq<u8>)
    requires
        bulb.well_formed(),
    ensures
        absorb(bulb, name, value) matches Ok(next) ==> next.well_formed(),
{
    if name == "name"@ && valid_utf8(value) {
        decode_utf8_encode_utf8(value);
    }
}

/// The lines of a list keep a descriptor in range.
proof fn lemma_absorb_all_well_formed(bulb: BulbView, fields: Seq<(Seq<char>, Seq<u8>)>)
    requires
        bulb.well_formed(),
    ensures
        absorb_all(bulb, fields) matches Ok(last) ==> last.well_formed(),
    decreases fields.len(),
{
    if fields.len() > 0 {
        lemma_absorb_well_formed(bulb, fields[0].0, fields[0].1);
        match absorb(bulb, fields[0].0, fields[0].1) {
            Ok(next) => lemma_absorb_all_well_formed(next, fields.drop_first()),
            Err(_) => {},
        }
    }
}

/// Every descriptor that a reply gives has its fields in range: a
/// brightness of at most 100, a hue of at most 359, a saturation of at most
/// 100 and a name of at most 64 bytes.
pub proof fn lemma_described_bulb_is_well_formed(fields: Seq<(Seq<char>, Seq<u8>)>)
    ensures
        describe(fields) matches Ok(bulb) ==> bulb.well_formed(),
{
    assert(encode_utf8(Seq::<char>::empty()) =~= Seq::<u8>::empty());
    lemma_absorb_all_well_formed(BulbView::blank(), fields);
}

/// Fields that a reply does not mention keep their defaults: a list of
/// lines of which none has a known key gives the blank descriptor.
pub proof fn lemma_unmentioned_fields_keep_defaults(fields: Seq<(Seq<char>, Seq<u8>)>)
    requires
        forall|i: int| 0 <= i < fields.len() ==> !is_known_key(#[trigger] fields[i].0),
    ensures
        describe(fields) == Ok::<BulbView, ProtocolError>(BulbView::blank()),
{
    lemma_passed_over(BulbView::blank(), fields);
}

/// A list of lines of which none has a known key changes nothing.
proof fn lemma_passed_over(bulb: BulbView, fields: Seq<(Seq<char>, Seq<u8>)>)
    requires
        forall|i: int| 0 <= i < fields.len() ==> !is_known_key(#[trigger] fields[i].0),
    ensures
        absorb_all(bulb, fields) == Ok::<BulbView, ProtocolError>(bulb),
    decreases fields.len(),
{
    if fields.len() > 0 {
        assert(!is_known_key(fields[0].0));
        let rest = fields.drop_first();
        assert forall|i: int| 0 <= i < rest.len() implies !is_known_key(#[trigger] rest[i].0) by {
            assert(rest[i] == fields[i + 1]);
        }
        lemma_passed_over(bulb, rest);
    }
}

/// Reads the value of a numeric field.
pub(crate) fn read_number(value: &[u8], field: Field, low: u32, high: u32) -> (r: Result<
    u32,
    ProtocolError,
>)
    ensures
        match r {
            Ok(n) => number_in(value@, field, low as nat, high as nat) == Ok::<nat, ProtocolError>(
                n as nat,
            ),
            Err(e) => number_in(value@, field, low as nat, high as nat) == Err::<
                nat,
                ProtocolError,
            >(e),
        },
{
    match parse_decimal(value, high) {
        Ok(n) => if n >= low {
            Ok(n)
        } else {
            Err(ProtocolError::OutOfRange(field))
        },
        Err(NumberError::TooLarge) => Err(ProtocolError::OutOfRange(field)),
        Err(NumberError::NotDecimal) => Err(ProtocolError::NotANumber(field)),
    }
}

/// Reads the value of a text field.
pub(crate) fn read_text(value: &[u8], field: Field) -> (r: Result<String, ProtocolError>)
    ensures
        match r {
            Ok(t) => text_in(value@, field) == Ok::<Seq<char>, ProtocolError>(t@),
            Err(e) => text_in(value@, field) == Err::<Seq<char>, ProtocolError>(e),
        },
{
    match text_of(value) {
        Some(t) => Ok(t),
        None => Err(ProtocolError::NotText(field)),
    }
}

/// Reads the value of a `name` line.
pub(crate) fn read_name(value: &[u8]) -> (r: Result<String, ProtocolError>)
    ensures
        match r {
            Ok(t) => name_in(value@) == Ok::<Seq<char>, ProtocolError>(t@) && encode_utf8(t@).len()
                <= MAX_NAME_BYTES,
            Err(e) => name_in(value@) == Err::<Seq<char>, ProtocolError>(e),
        },
{
    if value.len() > MAX_NAME_BYTES {
        return Err(ProtocolError::TooLong(Field::Name));
    }
    proof {
        if valid_utf8(value@) {
            decode_utf8_encode_utf8(value@);
        }
    }
    read_text(value, Field::Name)
}

/// Reads the value of a `model` line.
pub(crate) fn read_model(value: &[u8]) -> (model: Model)
    ensures
        model == model_of(value@),
{
    if bytes_eq(value, "mono".as_bytes()) {
        Model::White
    } else if bytes_eq(value, "color".as_bytes()) {
        Model::Color
    } else {
        Model::Unknown
    }
}

/// Reads the value of a `power` line.
pub(crate) fn read_power(value: &[u8]) -> (power: Power)
    ensures
        power == power_of(value@),
{
    if bytes_eq(value, "on".as_bytes()) {
        Power::On
    } else if bytes_eq(value, "off".as_bytes()) {
        Power::Off
    } else {
        Power::Unknown
    }
}

/// Reads the value of a `color_mode` line.
pub(crate) fn read_color_mode(value: &[u8]) -> (mode: ColorMode)
    ensures
        mode == color_mode_of(value@),
{
    if bytes_eq(value, "1".as_bytes()) {
        ColorMode::Color
    } else if bytes_eq(value, "2".as_bytes()) {
        ColorMode::Temperature
    } else if bytes_eq(value, "3".as_bytes()) {
        ColorMode::HSV
    } else {
        ColorMode::Unknown
    }
}

impl YeelightBulb {
    /// The descriptor that a list of header lines gives: the lines are taken
    /// in order into a blank descriptor, and the first line in error ends the
    /// reading with that error.
    pub fn from_headers(headers: &[HeaderField]) -> (r: Result<YeelightBulb, ProtocolError>)
        ensures
            agrees(r, describe(fields_of(headers@))),
    {
        let ghost fields = fields_of(headers@);
        let mut bulb = YeelightBulb::blank();
        let mut i: usize = 0;
        assert(fields.skip(0) =~= fields);
        while i < headers.len()
            invariant
                i <= headers@.len(),
                fields == fields_of(headers@),
                absorb_all(bulb@, fields.skip(i as int)) == describe(fields),
            decreases headers@.len() - i,
        {
            proof {
                let rest = fields.skip(i as int);
                assert(rest[0] == headers@[i as int]@);
                assert(rest.drop_first() =~= fields.skip(i + 1));
            }
            match bulb.with_line(&headers[i]) {
                Ok(next) => {
                    bulb = next;
                },
                Err(e) => {
                    return Err(e);
                },
            }
            i += 1;
        }
        Ok(bulb)
    }

    /// Reads a discovery reply. A reply that breaks off before its closing
    /// blank line is read as far as its header lines are whole; unknown text
    /// in `model`, `power` or `color_mode` reads as `Unknown`.
    pub fn parse(buf: &[u8]) -> (r: Result<YeelightBulb, ProtocolError>)
        ensures
            agrees(r, reading(buf@)),
    {
        match read_response(buf, N_HEADERS) {
            Ok(headers) => YeelightBulb::from_headers(headers.as_slice()),
            Err(_) => Err(ProtocolError::Malformed),
        }
    }

    /// The device that a discovery reply describes, or `Absent` where the
    /// reply cannot be read.
    pub fn new(buf: Vec<u8>) -> (device: Device)
        ensures
            match device {
                Device::YeelightBulb(bulb) => reading(buf@) == Ok::<BulbView, ProtocolError>(
                    bulb@,
                ),
                Device::Absent => reading(buf@) is Err,
            },
    {
        match YeelightBulb::parse(buf.as_slice()) {
            Ok(bulb) => Device::YeelightBulb(bulb),
            Err(_) => Device::Absent,
        }
    }
}

} // verus!
