//! What holds of the codec as a whole.
//!
//! Each law is a proof over the functions that say what decoding and
//! encoding yield: `outcome_of_text`, `outcome_of_doc` and
//! `outcome_of_members` for the one, `doc_of` and `members_of` for the other.
//! The executable functions are proved to compute exactly those, so the laws
//! hold of them.

use crate::adsb_json::{MessageModel, NavModes, SilType};
use crate::codec::{
    fault, mode_in, modes_fault, modes_in, modes_json, text_in, texts_fault, texts_in, texts_json,
};
use crate::decode::{
    assemble, fault_from, field_fault, missing_from, outcome_of_doc, outcome_of_members,
    outcome_of_text, unknown_from,
};
use crate::encode::{doc_of, members_of, upto_members, value_of};
use crate::error::DecodeErrorModel;
use crate::json::{has_key, lookup, lookup_finds, without, without_keeps, JsonModel};
use crate::schema::{Field, FIELD_COUNT};
use crate::text::parsed;
use vstd::prelude::*;

verus! {

/// Where every key from member `from` on is a wire name, none is unknown.
proof fn all_known(members: Seq<(Seq<char>, JsonModel)>, from: nat)
    requires
        forall|i: int|
            from <= i < members.len() ==> Field::of_wire((#[trigger] members[i]).0) is Some,
    ensures
        unknown_from(members, from) is None,
    decreases members.len() - from,
{
    if from < members.len() {
        assert(Field::of_wire(members[from as int].0) is Some);
        all_known(members, from + 1);
    }
}

/// Where no key from member `from` on is unknown, every one is a wire name.
proof fn none_unknown(members: Seq<(Seq<char>, JsonModel)>, from: nat)
    requires
        unknown_from(members, from) is None,
    ensures
        forall|i: int|
            from <= i < members.len() ==> Field::of_wire((#[trigger] members[i]).0) is Some,
    decreases members.len() - from,
{
    if from < members.len() {
        none_unknown(members, from + 1);
    }
}

/// Where some key from member `from` on is no wire name, the first such key
/// is the unknown one.
proof fn some_unknown(members: Seq<(Seq<char>, JsonModel)>, from: nat, stray: int)
    requires
        from <= stray < members.len(),
        Field::of_wire(members[stray].0) is None,
    ensures
        unknown_from(members, from) matches Some(key) && Field::of_wire(key) is None && has_key(
            members,
            key,
        ),
    decreases members.len() - from,
{
    if Field::of_wire(members[from as int].0) is None {
        assert(members[from as int].0 == unknown_from(members, from)->Some_0);
    } else {
        some_unknown(members, from + 1, stray);
    }
}

/// Where every required field from place `from` on is there, none is
/// missing.
proof fn all_present(members: Seq<(Seq<char>, JsonModel)>, from: nat)
    requires
        forall|field: Field|
            field.required() && from <= field.ordinal() ==> lookup(
                members,
                #[trigger] field.wire(),
            ) is Some,
    ensures
        missing_from(members, from) is None,
    decreases FIELD_COUNT - from,
{
    Field::places();
    if from < FIELD_COUNT {
        let field = Field::at(from);
        assert(field.required() ==> lookup(members, field.wire()) is Some);
        all_present(members, from + 1);
    }
}

/// Where no required field from place `from` on is missing, every one is
/// there.
proof fn none_missing(members: Seq<(Seq<char>, JsonModel)>, from: nat)
    requires
        missing_from(members, from) is None,
    ensures
        forall|field: Field|
            field.required() && from <= field.ordinal() ==> lookup(
                members,
                #[trigger] field.wire(),
            ) is Some,
    decreases FIELD_COUNT - from,
{
    Field::places();
    if from < FIELD_COUNT {
        none_missing(members, from + 1);
        assert forall|field: Field| field.required() && from <= field.ordinal() implies lookup(
            members,
            #[trigger] field.wire(),
        ) is Some by {
            if field.ordinal() == from {
                assert(Field::at(from) == field);
            }
        }
    }
}

/// Where a required field is not there and every required field before it
/// is, it is the one reported missing.
proof fn first_missing(members: Seq<(Seq<char>, JsonModel)>, from: nat, field: Field)
    requires
        field.required(),
        lookup(members, field.wire()) is None,
        from <= field.ordinal(),
        forall|other: Field|
            other.required() && from <= other.ordinal() < field.ordinal() ==> lookup(
                members,
                #[trigger] other.wire(),
            ) is Some,
    ensures
        missing_from(members, from) == Some(field),
    decreases FIELD_COUNT - from,
{
    Field::places();
    if from == field.ordinal() {
        assert(Field::at(from) == field);
    } else {
        let other = Field::at(from);
        assert(other.ordinal() == from);
        assert(other.required() ==> lookup(members, other.wire()) is Some);
        first_missing(members, from + 1, field);
    }
}

/// Where no field from place `from` on has an ill-shaped value, no fault is
/// found.
proof fn all_sound(members: Seq<(Seq<char>, JsonModel)>, from: nat)
    requires
        forall|field: Field|
            from <= field.ordinal() ==> #[trigger] field_fault(members, field) is None,
    ensures
        fault_from(members, from) is None,
    decreases FIELD_COUNT - from,
{
    Field::places();
    if from < FIELD_COUNT {
        assert(field_fault(members, Field::at(from)) is None);
        all_sound(members, from + 1);
    }
}

/// A list of strings has no fault as a list of strings.
proof fn texts_are_sound(field: Seq<char>, list: Seq<Seq<char>>, from: nat)
    ensures
        texts_fault(field, texts_json(list)->Array_0, from) is None,
    decreases list.len() - from,
{
    let items = texts_json(list)->Array_0;
    if from < items.len() {
        assert(items[from as int] is Text);
        texts_are_sound(field, list, from + 1);
    }
}

/// A list of navigation modes has no fault as one.
proof fn modes_are_sound(field: Seq<char>, modes: Seq<NavModes>, from: nat)
    ensures
        modes_fault(field, modes_json(modes)->Array_0, from) is None,
    decreases modes.len() - from,
{
    NavModes::tokens();
    let items = modes_json(modes)->Array_0;
    if from < items.len() {
        assert(items[from as int] == JsonModel::Text(modes[from as int].token()));
        modes_are_sound(field, modes, from + 1);
    }
}

/// The value that a message is written with for a field is one that the
/// field accepts.
proof fn written_values_are_sound(message: MessageModel, field: Field)
    ensures
        value_of(message, field) matches Some(value) ==> fault(field.wire(), field.kind(), value)
            is None,
{
    SilType::tokens();
    texts_are_sound(field.wire(), message.mlat, 0);
    texts_are_sound(field.wire(), message.tisb, 0);
    if message.nav_modes is Some {
        modes_are_sound(field.wire(), message.nav_modes->Some_0, 0);
    }
}

/// A list of strings is read back from its JSON value as it was.
proof fn texts_read_back(list: Seq<Seq<char>>)
    ensures
        texts_in(Some(texts_json(list))) == list,
{
    assert(texts_in(Some(texts_json(list))) =~= list);
}

/// A list of navigation modes is read back from its JSON value as it was.
proof fn modes_read_back(modes: Seq<NavModes>)
    ensures
        modes_in(Some(modes_json(modes))) == modes,
{
    NavModes::tokens();
    let items = modes_json(modes)->Array_0;
    assert forall|i: int| 0 <= i < modes.len() implies mode_in(#[trigger] items[i]) == modes[i] by {
        assert(items[i] == JsonModel::Text(modes[i].token()));
        assert(text_in(Some(items[i])) == modes[i].token());
    }
    assert(modes_in(Some(modes_json(modes))) =~= modes);
}

/// Round trip. Decoding the document that a message is written as gives the
/// message back, attribute for attribute. This holds of every message, and
/// so of every one that a decoder has produced.
pub proof fn round_trip(message: MessageModel)
    ensures
        outcome_of_doc(doc_of(message)) == Ok::<MessageModel, DecodeErrorModel>(message),
{
    let members = members_of(message);
    upto_members(message, FIELD_COUNT as nat);
    Field::places();
    all_known(members, 0);
    assert forall|field: Field| field.required() implies lookup(members, #[trigger] field.wire())
        is Some by {
        assert(lookup(members, field.wire()) == value_of(message, field));
    }
    all_present(members, 0);
    assert forall|field: Field| #[trigger] field_fault(members, field) is None by {
        assert(lookup(members, field.wire()) == value_of(message, field));
        written_values_are_sound(message, field);
    }
    all_sound(members, 0);
    reads_back(message);
}

/// Reading every attribute from the document of a message gives the message.
proof fn reads_back(message: MessageModel)
    ensures
        assemble(members_of(message)) == message,
{
    let members = members_of(message);
    upto_members(message, FIELD_COUNT as nat);
    Field::places();
    SilType::tokens();
    texts_read_back(message.mlat);
    texts_read_back(message.tisb);
    if message.nav_modes is Some {
        modes_read_back(message.nav_modes->Some_0);
    }
    assert forall|field: Field| #[trigger]
        lookup(members, field.wire()) == value_of(message, field) by {
        assert(field.ordinal() < FIELD_COUNT);
    }
    let back = assemble(members);
    assert(back.now == message.now);
    assert(back.mlat == message.mlat);
    assert(back.nav_modes == message.nav_modes);
    assert(back.sil_type == message.sil_type);
    assert(back.altitude == message.altitude);
    assert(back == message);
}

/// Round trip through text. Where the parser reads from a text the document
/// that a message is written as, decoding the text gives the message back.
pub proof fn round_trip_of_text(message: MessageModel, text: Seq<char>)
    requires
        parsed(text) == Ok::<JsonModel, Seq<char>>(doc_of(message)),
    ensures
        outcome_of_text(text) == Ok::<MessageModel, DecodeErrorModel>(message),
{
    round_trip(message);
}

/// Strict rejection. An object with a key that is no wire name of the schema
/// is rejected as having an unknown field, whatever else it holds; the key
/// reported is one of the object's and is no wire name.
pub proof fn strict_rejection(members: Seq<(Seq<char>, JsonModel)>, stray: int)
    requires
        0 <= stray < members.len(),
        Field::of_wire(members[stray].0) is None,
    ensures
        outcome_of_members(members) matches Err(DecodeErrorModel::UnknownField(key))
            && Field::of_wire(key) is None && has_key(members, key),
{
    some_unknown(members, 0, stray);
}

/// Strict rejection of text. A text that parses to an object with a key that
/// is no wire name of the schema is rejected as having an unknown field.
pub proof fn strict_rejection_of_text(
    text: Seq<char>,
    members: Seq<(Seq<char>, JsonModel)>,
    stray: int,
)
    requires
        parsed(text) == Ok::<JsonModel, Seq<char>>(JsonModel::Object(members)),
        0 <= stray < members.len(),
        Field::of_wire(members[stray].0) is None,
    ensures
        outcome_of_text(text) matches Err(DecodeErrorModel::UnknownField(key)) && Field::of_wire(
            key,
        ) is None && has_key(members, key),
{
    strict_rejection(members, stray);
}

/// Required fields are enforced. Taking a required field away from an
/// object that decodes makes it fail with that field reported missing.
pub proof fn required_field_enforced(members: Seq<(Seq<char>, JsonModel)>, field: Field)
    requires
        outcome_of_members(members) is Ok,
        field.required(),
    ensures
        outcome_of_members(without(members, field.wire())) == Err::<
            MessageModel,
            DecodeErrorModel,
        >(DecodeErrorModel::MissingField(field.wire())),
{
    let left = without(members, field.wire());
    Field::wire_names();
    without_keeps(members, field.wire());
    none_unknown(members, 0);
    assert forall|i: int| 0 <= i < left.len() implies Field::of_wire((#[trigger] left[i]).0)
        is Some by {
        let j = choose|j: int| 0 <= j < members.len() && members[j] == left[i];
        assert(Field::of_wire(members[j].0) is Some);
    }
    all_known(left, 0);
    none_missing(members, 0);
    assert forall|other: Field|
        other.required() && 0 <= other.ordinal() < field.ordinal() implies lookup(
        left,
        #[trigger] other.wire(),
    ) is Some by {
        assert(Field::of_wire(other.wire()) == Some(other));
        assert(Field::of_wire(field.wire()) == Some(field));
        assert(other.wire() != field.wire());
        assert(lookup(left, other.wire()) == lookup(members, other.wire()));
    }
    first_missing(left, 0, field);
}

/// Required fields are always written. The document of a message has a
/// member for every required field, the two lists among them, empty or not.
pub proof fn required_fields_written(message: MessageModel, field: Field)
    requires
        field.required(),
    ensures
        value_of(message, field) is Some,
        lookup(members_of(message), field.wire()) == value_of(message, field),
        has_key(members_of(message), field.wire()),
{
    upto_members(message, FIELD_COUNT as nat);
    Field::places();
    assert(field.ordinal() < FIELD_COUNT);
    lookup_finds(members_of(message), field.wire());
}

/// Optional omission. A field for which a message has no value gets no
/// member in its document, and decoding that document gives a message that
/// has no value for it either. No member of the document is `null`.
pub proof fn optional_omission(message: MessageModel, field: Field)
    requires
        value_of(message, field) is None,
    ensures
        !has_key(members_of(message), field.wire()),
        outcome_of_doc(doc_of(message)) matches Ok(back) && value_of(back, field) is None,
        forall|i: int|
            0 <= i < members_of(message).len() ==> !((#[trigger] members_of(message)[i]).1 is Null),
{
    let members = members_of(message);
    upto_members(message, FIELD_COUNT as nat);
    Field::places();
    assert(field.ordinal() < FIELD_COUNT);
    assert(lookup(members, field.wire()) == value_of(message, field));
    lookup_finds(members, field.wire());
    round_trip(message);
    assert forall|i: int| 0 <= i < members.len() implies !((#[trigger] members[i]).1 is Null) by {
        let owner = Field::of_wire(members[i].0)->Some_0;
        assert(value_of(message, owner) == Some(members[i].1));
    }
}

/// A fault of a value is never a complaint about the text.
proof fn faults_are_of_the_schema(field: Seq<char>, items: Seq<JsonModel>, from: nat)
    ensures
        !(texts_fault(field, items, from) matches Some(DecodeErrorModel::MalformedJson(_))),
        !(modes_fault(field, items, from) matches Some(DecodeErrorModel::MalformedJson(_))),
    decreases items.len() - from,
{
    if from < items.len() {
        faults_are_of_the_schema(field, items, from + 1);
    }
}

/// No fault found in the members is a complaint about the text.
proof fn found_faults_are_of_the_schema(members: Seq<(Seq<char>, JsonModel)>, from: nat)
    ensures
        !(fault_from(members, from) matches Some(DecodeErrorModel::MalformedJson(_))),
    decreases FIELD_COUNT - from,
{
    if from < FIELD_COUNT {
        let field = Field::at(from);
        match lookup(members, field.wire()) {
            Some(value) => {
                match value {
                    JsonModel::Array(items) => {
                        faults_are_of_the_schema(field.wire(), items, 0);
                    },
                    _ => {},
                }
            },
            None => {},
        }
        found_faults_are_of_the_schema(members, from + 1);
    }
}

/// Error parity. A text is rejected as malformed exactly when the parser
/// rejects it, and then with the parser's own message; every other failure
/// is of a text that the parser accepts.
pub proof fn error_parity(text: Seq<char>)
    ensures
        match parsed(text) {
            Err(message) => outcome_of_text(text) == Err::<MessageModel, DecodeErrorModel>(
                DecodeErrorModel::MalformedJson(message),
            ),
            Ok(_) => !(outcome_of_text(text) matches Err(DecodeErrorModel::MalformedJson(_))),
        },
{
    match parsed(text) {
        Ok(JsonModel::Object(members)) => {
            found_faults_are_of_the_schema(members, 0);
        },
        _ => {},
    }
}

} // verus!
