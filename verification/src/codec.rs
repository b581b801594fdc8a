//! How each kind of field value is written as JSON, recognised in JSON and
//! read back.
//!
//! For every kind there are three things: the JSON value that stands for a
//! field value, the fault that a JSON value has when the kind does not
//! accept it, and the field value that a JSON value stands for. Reading is
//! total: on a value that its kind does not accept it yields a fixed filler.
//! The decoder reads only after it has found no fault, so no filler ever
//! reaches a message.

use crate::adsb_json::{
    maybe_modes_model, maybe_number_model, maybe_text_model, Altitude, NavModes, SilType,
};
use crate::error::{DecodeError, DecodeErrorModel, Expected};
use crate::json::{found_model, items_model, same_text, shape_of, Json, JsonModel};
use crate::number::{int32_of, int8_of, JsonNumber, NumberModel};
use crate::schema::{Field, Kind};
use vstd::prelude::*;

verus! {

/// What a list of strings denotes.
pub open spec fn texts_model(list: Seq<String>) -> Seq<Seq<char>> {
    Seq::new(list.len(), |i: int| list[i]@)
}

/// What an error that may be there denotes.
pub open spec fn fault_model(fault: Option<DecodeError>) -> Option<DecodeErrorModel> {
    match fault {
        Some(error) => Some(error@),
        None => None,
    }
}

/// A copy of a list of strings.
pub fn copy_texts(list: &Vec<String>) -> (copy: Vec<String>)
    ensures
        texts_model(copy@) == texts_model(list@),
{
    let mut copy: Vec<String> = Vec::new();
    let mut i: usize = 0;
    while i < list.len()
        invariant
            i <= list.len(),
            copy.len() == i,
            forall|k: int| 0 <= k < i ==> (#[trigger] copy@[k])@ == list@[k]@,
        decreases list.len() - i,
    {
        copy.push(list[i].clone());
        i = i + 1;
    }
    assert(texts_model(copy@) =~= texts_model(list@));
    copy
}

/// A copy of a string that may be there.
pub fn copy_text_if(text: &Option<String>) -> (copy: Option<String>)
    ensures
        maybe_text_model(copy) == maybe_text_model(*text),
{
    match text {
        Some(t) => Some(t.clone()),
        None => None,
    }
}

/// A copy of a number that may be there.
pub fn copy_number_if(number: &Option<JsonNumber>) -> (copy: Option<JsonNumber>)
    ensures
        maybe_number_model(copy) == maybe_number_model(*number),
{
    match number {
        Some(n) => Some(n.duplicate()),
        None => None,
    }
}

/// A copy of a list of navigation modes that may be there.
pub fn copy_modes_if(modes: &Option<Vec<NavModes>>) -> (copy: Option<Vec<NavModes>>)
    ensures
        maybe_modes_model(copy) == maybe_modes_model(*modes),
{
    match modes {
        Some(list) => {
            let mut copy: Vec<NavModes> = Vec::new();
            let mut i: usize = 0;
            while i < list.len()
                invariant
                    i <= list.len(),
                    copy.len() == i,
                    forall|k: int| 0 <= k < i ==> #[trigger] copy@[k] == list@[k],
                decreases list.len() - i,
            {
                copy.push(list[i]);
                i = i + 1;
            }
            assert(copy@ =~= list@);
            Some(copy)
        },
        None => None,
    }
}

// Writing.
/// The JSON value of an integer.
pub open spec fn int_json(i: int) -> JsonModel {
    JsonModel::Number(NumberModel::Integer(i))
}

/// The JSON value of a list of strings.
pub open spec fn texts_json(list: Seq<Seq<char>>) -> JsonModel {
    JsonModel::Array(Seq::new(list.len(), |i: int| JsonModel::Text(list[i])))
}

/// The JSON value of an altitude: the number of feet, or the string
/// `ground`.
pub open spec fn altitude_json(altitude: Altitude) -> JsonModel {
    match altitude {
        Altitude::Numeric(feet) => int_json(feet as int),
        Altitude::OnGround => JsonModel::Text("ground"@),
    }
}

/// The JSON value of a list of navigation modes: the array of their tokens.
pub open spec fn modes_json(modes: Seq<NavModes>) -> JsonModel {
    JsonModel::Array(Seq::new(modes.len(), |i: int| JsonModel::Text(modes[i].token())))
}

// Recognising.
/// The altitude that a JSON value stands for. An integer that fits 32 bits
/// is a number of feet; a value that is no number is the ground if it is
/// the string `ground`; nothing else is an altitude.
pub open spec fn altitude_of(value: JsonModel) -> Option<Altitude> {
    match value {
        JsonModel::Number(n) => match int32_of(n) {
            Some(feet) => Some(Altitude::Numeric(feet)),
            None => None,
        },
        JsonModel::Text(t) => if t == "ground"@ {
            Some(Altitude::OnGround)
        } else {
            None
        },
        _ => None,
    }
}

/// The fault of the first item from `from` on that is no string.
pub open spec fn texts_fault(field: Seq<char>, items: Seq<JsonModel>, from: nat) -> Option<
    DecodeErrorModel,
>
    decreases items.len() - from,
{
    if from >= items.len() {
        None
    } else if items[from as int] is Text {
        texts_fault(field, items, from + 1)
    } else {
        Some(DecodeErrorModel::TypeMismatch(field, Expected::TextList, shape_of(items[from as int])))
    }
}

/// The fault of the first item from `from` on that is no navigation-mode
/// token: a mismatch if it is no string, an invalid value if it is a string
/// that names no mode.
pub open spec fn modes_fault(field: Seq<char>, items: Seq<JsonModel>, from: nat) -> Option<
    DecodeErrorModel,
>
    decreases items.len() - from,
{
    if from >= items.len() {
        None
    } else {
        match items[from as int] {
            JsonModel::Text(t) => if NavModes::of_token(t) is Some {
                modes_fault(field, items, from + 1)
            } else {
                Some(DecodeErrorModel::InvalidEnumValue(field, items[from as int]))
            },
            _ => Some(
                DecodeErrorModel::TypeMismatch(
                    field,
                    Expected::TextList,
                    shape_of(items[from as int]),
                ),
            ),
        }
    }
}

/// What is wrong with `value` as the value of a field of the given kind;
/// `None` when the kind accepts it. A value of the wrong shape is a
/// mismatch that names the shape found, in a list the shape of the first
/// item that does not belong there. A value of the right shape that is none
/// of the allowed ones is an invalid value; for an altitude every value that
/// is none is reported so, whatever its shape.
pub open spec fn fault(field: Seq<char>, kind: Kind, value: JsonModel) -> Option<DecodeErrorModel> {
    match kind {
        Kind::Number => if value is Number {
            None
        } else {
            Some(DecodeErrorModel::TypeMismatch(field, Expected::Number, shape_of(value)))
        },
        Kind::Int32 => if value is Number && int32_of(value->Number_0) is Some {
            None
        } else {
            Some(DecodeErrorModel::TypeMismatch(field, Expected::Int32, shape_of(value)))
        },
        Kind::Int8 => if value is Number && int8_of(value->Number_0) is Some {
            None
        } else {
            Some(DecodeErrorModel::TypeMismatch(field, Expected::Int8, shape_of(value)))
        },
        Kind::Text => if value is Text {
            None
        } else {
            Some(DecodeErrorModel::TypeMismatch(field, Expected::Text, shape_of(value)))
        },
        Kind::TextList => match value {
            JsonModel::Array(items) => texts_fault(field, items, 0),
            _ => Some(DecodeErrorModel::TypeMismatch(field, Expected::TextList, shape_of(value))),
        },
        Kind::Altitude => if altitude_of(value) is Some {
            None
        } else {
            Some(DecodeErrorModel::InvalidEnumValue(field, value))
        },
        Kind::SilType => match value {
            JsonModel::Text(t) => if SilType::of_token(t) is Some {
                None
            } else {
                Some(DecodeErrorModel::InvalidEnumValue(field, value))
            },
            _ => Some(DecodeErrorModel::TypeMismatch(field, Expected::Text, shape_of(value))),
        },
        Kind::NavModes => match value {
            JsonModel::Array(items) => modes_fault(field, items, 0),
            _ => Some(DecodeErrorModel::TypeMismatch(field, Expected::TextList, shape_of(value))),
        },
    }
}

// Reading.
/// The number that a value stands for; zero for one that is none.
pub open spec fn number_in(found: Option<JsonModel>) -> NumberModel {
    match found {
        Some(JsonModel::Number(n)) => n,
        _ => NumberModel::Integer(0),
    }
}

/// The 32-bit integer that a value stands for; zero for one that is none.
pub open spec fn int32_in(found: Option<JsonModel>) -> i32 {
    match int32_of(number_in(found)) {
        Some(i) => i,
        None => 0,
    }
}

/// The 8-bit integer that a value stands for; zero for one that is none.
pub open spec fn int8_in(found: Option<JsonModel>) -> i8 {
    match int8_of(number_in(found)) {
        Some(i) => i,
        None => 0,
    }
}

/// The string that a value stands for; the empty one for one that is none.
pub open spec fn text_in(found: Option<JsonModel>) -> Seq<char> {
    match found {
        Some(JsonModel::Text(t)) => t,
        _ => Seq::empty(),
    }
}

/// The list of strings that a value stands for.
pub open spec fn texts_in(found: Option<JsonModel>) -> Seq<Seq<char>> {
    match found {
        Some(JsonModel::Array(items)) => Seq::new(items.len(), |i: int| text_in(Some(items[i]))),
        _ => Seq::empty(),
    }
}

/// The altitude that a value stands for; zero feet for one that is none.
pub open spec fn altitude_in(found: Option<JsonModel>) -> Altitude {
    match found {
        Some(value) => match altitude_of(value) {
            Some(altitude) => altitude,
            None => Altitude::Numeric(0),
        },
        None => Altitude::Numeric(0),
    }
}

/// The integrity-level type that a value stands for; `Unknown` for one that
/// is none.
pub open spec fn sil_type_in(found: Option<JsonModel>) -> SilType {
    match SilType::of_token(text_in(found)) {
        Some(value) => value,
        None => SilType::Unknown,
    }
}

/// The navigation mode that a value stands for; `AltHold` for one that is
/// none.
pub open spec fn mode_in(value: JsonModel) -> NavModes {
    match NavModes::of_token(text_in(Some(value))) {
        Some(mode) => mode,
        None => NavModes::AltHold,
    }
}

/// The list of navigation modes that a value stands for.
pub open spec fn modes_in(found: Option<JsonModel>) -> Seq<NavModes> {
    match found {
        Some(JsonModel::Array(items)) => Seq::new(items.len(), |i: int| mode_in(items[i])),
        _ => Seq::empty(),
    }
}

/// The number behind an optional field: absent when the key is.
pub open spec fn number_if(found: Option<JsonModel>) -> Option<NumberModel> {
    if found is Some {
        Some(number_in(found))
    } else {
        None
    }
}

/// The 32-bit integer behind an optional field: absent when the key is.
pub open spec fn int32_if(found: Option<JsonModel>) -> Option<i32> {
    if found is Some {
        Some(int32_in(found))
    } else {
        None
    }
}

/// The 8-bit integer behind an optional field: absent when the key is.
pub open spec fn int8_if(found: Option<JsonModel>) -> Option<i8> {
    if found is Some {
        Some(int8_in(found))
    } else {
        None
    }
}

/// The string behind an optional field: absent when the key is.
pub open spec fn text_if(found: Option<JsonModel>) -> Option<Seq<char>> {
    if found is Some {
        Some(text_in(found))
    } else {
        None
    }
}

/// The navigation modes behind an optional field: absent when the key is.
pub open spec fn modes_if(found: Option<JsonModel>) -> Option<Seq<NavModes>> {
    if found is Some {
        Some(modes_in(found))
    } else {
        None
    }
}

// The same in executable form.
/// The JSON value of a number.
pub fn write_number(n: &JsonNumber) -> (value: Json)
    ensures
        value@ == JsonModel::Number(n@),
{
    Json::Number(n.duplicate())
}

/// The JSON value of a 32-bit integer.
pub fn write_int32(i: i32) -> (value: Json)
    ensures
        value@ == int_json(i as int),
{
    Json::Number(JsonNumber::from_i32(i))
}

/// The JSON value of an 8-bit integer.
pub fn write_int8(i: i8) -> (value: Json)
    ensures
        value@ == int_json(i as int),
{
    Json::Number(JsonNumber::from_i8(i))
}

/// The JSON value of a string.
pub fn write_text(text: &str) -> (value: Json)
    ensures
        value@ == JsonModel::Text(text@),
{
    Json::Text(text.to_owned())
}

/// The JSON value of a list of strings.
pub fn write_texts(list: &Vec<String>) -> (value: Json)
    ensures
        value@ == texts_json(texts_model(list@)),
{
    let mut items: Vec<Json> = Vec::new();
    let mut i: usize = 0;
    while i < list.len()
        invariant
            i <= list.len(),
            items.len() == i,
            forall|k: int| 0 <= k < i ==> (#[trigger] items@[k])@ == JsonModel::Text(list@[k]@),
        decreases list.len() - i,
    {
        items.push(write_text(list[i].as_str()));
        i = i + 1;
    }
    proof {
        Json::array_view(items);
        assert(items_model(items@) =~= texts_json(texts_model(list@))->Array_0);
    }
    Json::Array(items)
}

/// The JSON value of an altitude.
pub fn write_altitude(altitude: Altitude) -> (value: Json)
    ensures
        value@ == altitude_json(altitude),
{
    match altitude {
        Altitude::Numeric(feet) => write_int32(feet),
        Altitude::OnGround => write_text("ground"),
    }
}

/// The JSON value of an integrity-level type: its token.
pub fn write_sil_type(sil_type: SilType) -> (value: Json)
    ensures
        value@ == JsonModel::Text(sil_type.token()),
{
    write_text(sil_type.wire_token())
}

/// The JSON value of a list of navigation modes.
pub fn write_modes(modes: &Vec<NavModes>) -> (value: Json)
    ensures
        value@ == modes_json(modes@),
{
    let mut items: Vec<Json> = Vec::new();
    let mut i: usize = 0;
    while i < modes.len()
        invariant
            i <= modes.len(),
            items.len() == i,
            forall|k: int|
                0 <= k < i ==> (#[trigger] items@[k])@ == JsonModel::Text(modes@[k].token()),
        decreases modes.len() - i,
    {
        items.push(write_text(modes[i].wire_token()));
        i = i + 1;
    }
    proof {
        Json::array_view(items);
        assert(items_model(items@) =~= modes_json(modes@)->Array_0);
    }
    Json::Array(items)
}

/// The altitude that a JSON value stands for, if it stands for one.
pub fn altitude_from(value: &Json) -> (altitude: Option<Altitude>)
    ensures
        altitude == altitude_of(value@),
{
    match value {
        Json::Number(n) => match n.as_i32() {
            Some(feet) => Some(Altitude::Numeric(feet)),
            None => None,
        },
        Json::Text(t) => if same_text(t.as_str(), "ground") {
            Some(Altitude::OnGround)
        } else {
            None
        },
        _ => None,
    }
}

/// A mismatch at `field`: `expected` wanted, the shape of `value` found.
fn mismatch(field: Field, expected: Expected, value: &Json) -> (error: DecodeError)
    ensures
        error@ == DecodeErrorModel::TypeMismatch(field.wire(), expected, shape_of(value@)),
{
    DecodeError::TypeMismatch(field.wire_name().to_owned(), expected, value.shape())
}

/// An invalid value at `field`.
fn invalid(field: Field, value: &Json) -> (error: DecodeError)
    ensures
        error@ == DecodeErrorModel::InvalidEnumValue(field.wire(), value@),
{
    DecodeError::InvalidEnumValue(field.wire_name().to_owned(), value.duplicate())
}

/// What is wrong with the items of a list of strings, if anything.
fn check_texts(field: Field, items: &Vec<Json>) -> (found: Option<DecodeError>)
    ensures
        fault_model(found) == texts_fault(field.wire(), items_model(items@), 0),
{
    let ghost model = items_model(items@);
    let mut i: usize = 0;
    while i < items.len()
        invariant
            i <= items.len(),
            model == items_model(items@),
            texts_fault(field.wire(), model, 0) == texts_fault(field.wire(), model, i as nat),
        decreases items.len() - i,
    {
        assert(model[i as int] == items@[i as int]@);
        match &items[i] {
            Json::Text(_) => {},
            other => {
                return Some(mismatch(field, Expected::TextList, other));
            },
        }
        i = i + 1;
    }
    None
}

/// What is wrong with the items of a list of navigation modes, if anything.
fn check_modes(field: Field, items: &Vec<Json>) -> (found: Option<DecodeError>)
    ensures
        fault_model(found) == modes_fault(field.wire(), items_model(items@), 0),
{
    let ghost model = items_model(items@);
    let mut i: usize = 0;
    while i < items.len()
        invariant
            i <= items.len(),
            model == items_model(items@),
            modes_fault(field.wire(), model, 0) == modes_fault(field.wire(), model, i as nat),
        decreases items.len() - i,
    {
        assert(model[i as int] == items@[i as int]@);
        match &items[i] {
            Json::Text(t) => {
                if NavModes::from_token(t.as_str()).is_none() {
                    return Some(invalid(field, &items[i]));
                }
            },
            other => {
                return Some(mismatch(field, Expected::TextList, other));
            },
        }
        i = i + 1;
    }
    None
}

/// What is wrong with `value` as the value of `field`, if anything.
pub fn check(field: Field, value: &Json) -> (found: Option<DecodeError>)
    ensures
        fault_model(found) == fault(field.wire(), field.kind(), value@),
{
    match field.value_kind() {
        Kind::Number => match value {
            Json::Number(_) => None,
            _ => Some(mismatch(field, Expected::Number, value)),
        },
        Kind::Int32 => match value {
            Json::Number(n) => if n.as_i32().is_some() {
                None
            } else {
                Some(mismatch(field, Expected::Int32, value))
            },
            _ => Some(mismatch(field, Expected::Int32, value)),
        },
        Kind::Int8 => match value {
            Json::Number(n) => if n.as_i8().is_some() {
                None
            } else {
                Some(mismatch(field, Expected::Int8, value))
            },
            _ => Some(mismatch(field, Expected::Int8, value)),
        },
        Kind::Text => match value {
            Json::Text(_) => None,
            _ => Some(mismatch(field, Expected::Text, value)),
        },
        Kind::TextList => match value {
            Json::Array(items) => {
                proof {
                    Json::array_view(*items);
                }
                check_texts(field, items)
            },
            _ => Some(mismatch(field, Expected::TextList, value)),
        },
        Kind::Altitude => if altitude_from(value).is_some() {
            None
        } else {
            Some(invalid(field, value))
        },
        Kind::SilType => match value {
            Json::Text(t) => if SilType::from_token(t.as_str()).is_some() {
                None
            } else {
                Some(invalid(field, value))
            },
            _ => Some(mismatch(field, Expected::Text, value)),
        },
        Kind::NavModes => match value {
            Json::Array(items) => {
                proof {
                    Json::array_view(*items);
                }
                check_modes(field, items)
            },
            _ => Some(mismatch(field, Expected::TextList, value)),
        },
    }
}

/// The number that a value stands for.
pub fn read_number(found: Option<&Json>) -> (n: JsonNumber)
    ensures
        n@ == number_in(found_model(found)),
{
    match found {
        Some(Json::Number(n)) => n.duplicate(),
        _ => JsonNumber::PosInt(0),
    }
}

/// The 32-bit integer that a value stands for.
pub fn read_int32(found: Option<&Json>) -> (i: i32)
    ensures
        i == int32_in(found_model(found)),
{
    match found {
        Some(Json::Number(n)) => match n.as_i32() {
            Some(i) => i,
            None => 0,
        },
        _ => 0,
    }
}

/// The 8-bit integer that a value stands for.
pub fn read_int8(found: Option<&Json>) -> (i: i8)
    ensures
        i == int8_in(found_model(found)),
{
    match found {
        Some(Json::Number(n)) => match n.as_i8() {
            Some(i) => i,
            None => 0,
        },
        _ => 0,
    }
}

/// The string that a value stands for.
pub fn read_text(found: Option<&Json>) -> (text: String)
    ensures
        text@ == text_in(found_model(found)),
{
    match found {
        Some(Json::Text(t)) => t.clone(),
        _ => String::new(),
    }
}

/// The list of strings that a value stands for.
pub fn read_texts(found: Option<&Json>) -> (list: Vec<String>)
    ensures
        texts_model(list@) == texts_in(found_model(found)),
{
    let mut list: Vec<String> = Vec::new();
    match found {
        Some(Json::Array(items)) => {
            proof {
                Json::array_view(*items);
            }
            let mut i: usize = 0;
            while i < items.len()
                invariant
                    i <= items.len(),
                    list.len() == i,
                    forall|k: int|
                        0 <= k < i ==> (#[trigger] list@[k])@ == text_in(Some(items@[k]@)),
                decreases items.len() - i,
            {
                list.push(read_text(Some(&items[i])));
                i = i + 1;
            }
            assert(texts_model(list@) =~= texts_in(found_model(found)));
        },
        _ => {
            assert(texts_model(list@) =~= texts_in(found_model(found)));
        },
    }
    list
}

/// The altitude that a value stands for.
pub fn read_altitude(found: Option<&Json>) -> (altitude: Altitude)
    ensures
        altitude == altitude_in(found_model(found)),
{
    match found {
        Some(value) => match altitude_from(value) {
            Some(altitude) => altitude,
            None => Altitude::Numeric(0),
        },
        None => Altitude::Numeric(0),
    }
}

/// The integrity-level type that a value stands for.
pub fn read_sil_type(found: Option<&Json>) -> (sil_type: SilType)
    ensures
        sil_type == sil_type_in(found_model(found)),
{
    let token = read_text(found);
    match SilType::from_token(token.as_str()) {
        Some(value) => value,
        None => SilType::Unknown,
    }
}

/// The list of navigation modes that a value stands for.
pub fn read_modes(found: Option<&Json>) -> (modes: Vec<NavModes>)
    ensures
        modes@ == modes_in(found_model(found)),
{
    let mut modes: Vec<NavModes> = Vec::new();
    match found {
        Some(Json::Array(items)) => {
            proof {
                Json::array_view(*items);
            }
            let mut i: usize = 0;
            while i < items.len()
                invariant
                    i <= items.len(),
                    modes.len() == i,
                    forall|k: int| 0 <= k < i ==> #[trigger] modes@[k] == mode_in(items@[k]@),
                decreases items.len() - i,
            {
                let token = read_text(Some(&items[i]));
                let mode = match NavModes::from_token(token.as_str()) {
                    Some(mode) => mode,
                    None => NavModes::AltHold,
                };
                modes.push(mode);
                i = i + 1;
            }
            assert(modes@ =~= modes_in(found_model(found)));
        },
        _ => {
            assert(modes@ =~= modes_in(found_model(found)));
        },
    }
    modes
}

/// The number behind an optional field.
pub fn read_number_if(found: Option<&Json>) -> (n: Option<JsonNumber>)
    ensures
        match n {
            Some(n) => number_if(found_model(found)) == Some(n@),
            None => number_if(found_model(found)) is None,
        },
{
    match found {
        Some(_) => Some(read_number(found)),
        None => None,
    }
}

/// The 32-bit integer behind an optional field.
pub fn read_int32_if(found: Option<&Json>) -> (i: Option<i32>)
    ensures
        i == int32_if(found_model(found)),
{
    match found {
        Some(_) => Some(read_int32(found)),
        None => None,
    }
}

/// The 8-bit integer behind an optional field.
pub fn read_int8_if(found: Option<&Json>) -> (i: Option<i8>)
    ensures
        i == int8_if(found_model(found)),
{
    match found {
        Some(_) => Some(read_int8(found)),
        None => None,
    }
}

/// The string behind an optional field.
pub fn read_text_if(found: Option<&Json>) -> (text: Option<String>)
    ensures
        match text {
            Some(t) => text_if(found_model(found)) == Some(t@),
            None => text_if(found_model(found)) is None,
        },
{
    match found {
        Some(_) => Some(read_text(found)),
        None => None,
    }
}

/// The navigation modes behind an optional field.
pub fn read_modes_if(found: Option<&Json>) -> (modes: Option<Vec<NavModes>>)
    ensures
        match modes {
            Some(m) => modes_if(found_model(found)) == Some(m@),
            None => modes_if(found_model(found)) is None,
        },
{
    match found {
        Some(_) => Some(read_modes(found)),
        None => None,
    }
}

} // verus!
