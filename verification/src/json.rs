//! A generic structured document: the key-value tree that a drive-health
//! inspection tool emits, already parsed out of its raw byte form.
//!
//! Only the shapes that the extractor actually reads are distinguished:
//! objects, strings, booleans, unsigned integers and explicit nulls. Every
//! other kind of node (arrays, negative or fractional numbers) is collapsed
//! into [`JsonValue::Other`], which no decoder accepts.

use vstd::prelude::*;

verus! {

broadcast use vstd::std_specs::vec::group_vec_axioms;

/// One node of a generic document tree.
///
/// An object keeps its fields in insertion order; a lookup takes the first
/// field with a matching name.
#[derive(Debug, PartialEq, Eq)]
pub enum JsonValue {
    /// An explicit null, which optional fields treat as "absent".
    Null,
    /// A boolean scalar.
    Bool(bool),
    /// A non-negative integer scalar.
    UInt(u64),
    /// A string scalar.
    Text(String),
    /// An object: named fields in insertion order.
    Object(Vec<(String, JsonValue)>),
    /// Any node shape the extractor never reads (an array, a negative or
    /// fractional number).
    Other,
}

/// The mathematical model of a document node: the same tree with strings as
/// character sequences and objects as field sequences.
#[verifier::ext_equal]
pub enum JsonModel {
    Null,
    Bool(bool),
    UInt(u64),
    Text(Seq<char>),
    Object(Seq<(Seq<char>, JsonModel)>),
    Other,
}

/// The model of a document node.
pub open spec fn json_model(v: JsonValue) -> JsonModel
    decreases v,
{
    match v {
        JsonValue::Null => JsonModel::Null,
        JsonValue::Bool(b) => JsonModel::Bool(b),
        JsonValue::UInt(n) => JsonModel::UInt(n),
        JsonValue::Text(s) => JsonModel::Text(s@),
        JsonValue::Object(fields) => JsonModel::Object(fields_model(fields@)),
        JsonValue::Other => JsonModel::Other,
    }
}

/// The model of an object's field list, field by field.
pub open spec fn fields_model(fields: Seq<(String, JsonValue)>) -> Seq<(Seq<char>, JsonModel)>
    decreases fields,
{
    if fields.len() == 0 {
        Seq::empty()
    } else {
        seq![(fields[0].0@, json_model(fields[0].1))] + fields_model(fields.drop_first())
    }
}

/// What one position of a field list's model holds.
pub proof fn lemma_fields_model(fields: Seq<(String, JsonValue)>)
    ensures
        fields_model(fields).len() == fields.len(),
        forall|i: int|
            0 <= i < fields.len() ==> fields_model(fields)[i] == ((
            fields[i].0@,
            json_model(fields[i].1),
            )),
    decreases fields.len(),
{
    if fields.len() > 0 {
        lemma_fields_model(fields.drop_first());
    }
}

impl View for JsonValue {
    type V = JsonModel;

    open spec fn view(&self) -> JsonModel {
        json_model(*self)
    }
}

/// First-match lookup of `key` among `fields`, starting at position `from`.
pub open spec fn lookup_from(
    fields: Seq<(Seq<char>, JsonModel)>,
    key: Seq<char>,
    from: int,
) -> Option<JsonModel>
    decreases fields.len() - from,
{
    if from < 0 || from >= fields.len() {
        None
    } else if fields[from].0 == key {
        Some(fields[from].1)
    } else {
        lookup_from(fields, key, from + 1)
    }
}

/// First-match lookup of `key` among `fields`.
pub open spec fn lookup(fields: Seq<(Seq<char>, JsonModel)>, key: Seq<char>) -> Option<JsonModel> {
    lookup_from(fields, key, 0)
}

/// Lookup of `key` in a document node: the first field of that name if the
/// node is an object that has one, and nothing at all otherwise.
pub open spec fn get_field(v: JsonModel, key: Seq<char>) -> Option<JsonModel> {
    match v {
        JsonModel::Object(fields) => lookup(fields, key),
        _ => None,
    }
}

/// A scan that has not yet passed position `i` finds the field at `i` when
/// it is the first one named `key` from the scan's start.
pub proof fn lemma_lookup_from_found(
    fields: Seq<(Seq<char>, JsonModel)>,
    key: Seq<char>,
    from: int,
    i: int,
)
    requires
        0 <= from <= i < fields.len(),
        fields[i].0 == key,
        forall|j: int| from <= j < i ==> fields[j].0 != key,
    ensures
        lookup_from(fields, key, from) == Some(fields[i].1),
    decreases i - from,
{
    if from < i {
        lemma_lookup_from_found(fields, key, from + 1, i);
    }
}

/// A scan finds nothing when no field from its start onwards is named `key`.
pub proof fn lemma_lookup_from_none(fields: Seq<(Seq<char>, JsonModel)>, key: Seq<char>, from: int)
    requires
        forall|j: int| from <= j < fields.len() ==> fields[j].0 != key,
    ensures
        lookup_from(fields, key, from) is None,
    decreases fields.len() - from,
{
    if 0 <= from < fields.len() {
        lemma_lookup_from_none(fields, key, from + 1);
    }
}

/// Position of the first field named `key`, if any.
pub fn find_key(fields: &Vec<(String, JsonValue)>, key: &String) -> (r: Option<usize>)
    ensures
        match r {
            Some(i) => {
                &&& i < fields@.len()
                &&& lookup(fields_model(fields@), key@) == Some(json_model(fields@[i as int].1))
                &&& fields@[i as int].0@ == key@
            },
            None => lookup(fields_model(fields@), key@) is None,
        },
{
    proof {
        lemma_fields_model(fields@);
    }
    let n = fields.len();
    let mut i: usize = 0;
    while i < n
        invariant
            n == fields@.len(),
            i <= n,
            fields_model(fields@).len() == fields@.len(),
            forall|j: int|
                0 <= j < fields@.len() ==> fields_model(fields@)[j] == ((
                fields@[j].0@,
                json_model(fields@[j].1),
                )),
            lookup_from(fields_model(fields@), key@, 0) == lookup_from(
                fields_model(fields@),
                key@,
                i as int,
            ),
        decreases n - i,
    {
        if fields[i].0 == *key {
            assert(lookup_from(fields_model(fields@), key@, i as int) == Some(
                json_model(fields@[i as int].1),
            ));
            return Some(i);
        }
        assert(fields_model(fields@)[i as int].0 != key@);
        i = i + 1;
    }
    None
}

} // verus!
