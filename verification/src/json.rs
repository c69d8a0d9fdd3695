//! An untyped JSON-like document, as the handler receives and returns it.
//!
//! `JsonDoc` is the executable tree; `JsonModel` is its mathematical view,
//! built from `int`, `Seq<char>` and `Seq`, which the contracts speak of.

use vstd::prelude::*;

verus! {

/// The mathematical shape of a document: what a `JsonDoc` means.
#[verifier::ext_equal]
pub enum JsonModel {
    Null,
    Bool(bool),
    Int(int),
    Text(Seq<char>),
    Arr(Seq<JsonModel>),
    Obj(Seq<(Seq<char>, JsonModel)>),
}

/// An untyped structured document. No schema is enforced: any tree of
/// nulls, booleans, integers, strings, arrays and keyed objects is a
/// well-formed document.
#[derive(Debug, PartialEq, Eq)]
pub enum JsonDoc {
    Null,
    Bool(bool),
    Int(i64),
    Text(String),
    Arr(Vec<JsonDoc>),
    Obj(Vec<(String, JsonDoc)>),
}

/// The meaning of a document: each node mapped to its model, children in order.
pub open spec fn doc_model(d: JsonDoc) -> JsonModel
    decreases d,
{
    match d {
        JsonDoc::Null => JsonModel::Null,
        JsonDoc::Bool(b) => JsonModel::Bool(b),
        JsonDoc::Int(i) => JsonModel::Int(i as int),
        JsonDoc::Text(s) => JsonModel::Text(s@),
        JsonDoc::Arr(items) => JsonModel::Arr(items_model(items@)),
        JsonDoc::Obj(fields) => JsonModel::Obj(fields_model(fields@)),
    }
}

/// The meaning of a run of array elements, in order.
pub open spec fn items_model(items: Seq<JsonDoc>) -> Seq<JsonModel>
    decreases items,
{
    if items.len() == 0 {
        Seq::empty()
    } else {
        items_model(items.subrange(0, items.len() - 1)).push(doc_model(items[items.len() - 1]))
    }
}

/// The meaning of a run of object fields, keys kept in order.
pub open spec fn fields_model(fields: Seq<(String, JsonDoc)>) -> Seq<(Seq<char>, JsonModel)>
    decreases fields,
{
    if fields.len() == 0 {
        Seq::empty()
    } else {
        fields_model(fields.subrange(0, fields.len() - 1)).push(
            (fields[fields.len() - 1].0@, doc_model(fields[fields.len() - 1].1)),
        )
    }
}

impl View for JsonDoc {
    type V = JsonModel;

    open spec fn view(&self) -> JsonModel {
        doc_model(*self)
    }
}

} // verus!
