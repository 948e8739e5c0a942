//! One cell of a result row, and the JSON value that it becomes.

use crate::json::{
    array_value, items_of, json_of, null_value, signed_value, single, string_value, unsigned_value,
    Json,
};
use serde_json::Value;
use vstd::prelude::*;

verus! {

/// One cell of a result row.
#[derive(Debug)]
pub enum SqlValue {
    Null,
    Integer(i64),
    /// A floating-point number, as the JSON value that stands for it: the
    /// number itself, or null where it is not finite.
    Float(Value),
    Text(String),
    Blob(Vec<u8>),
}

/// What a [`SqlValue`] is.
pub enum SqlView {
    Null,
    Integer(int),
    Float(Json),
    Text(Seq<char>),
    Blob(Seq<u8>),
}

impl View for SqlValue {
    type V = SqlView;

    open spec fn view(&self) -> SqlView {
        match self {
            SqlValue::Null => SqlView::Null,
            SqlValue::Integer(integer) => SqlView::Integer(*integer as int),
            SqlValue::Float(number) => SqlView::Float(json_of(*number)),
            SqlValue::Text(text) => SqlView::Text(text@),
            SqlValue::Blob(bytes) => SqlView::Blob(bytes@),
        }
    }
}

/// The JSON value that a cell becomes. Only the length of a blob is kept.
pub open spec fn cell_json(cell: SqlView) -> Json {
    match cell {
        SqlView::Null => Json::Null,
        SqlView::Integer(integer) => Json::Int(integer),
        SqlView::Float(number) => number,
        SqlView::Text(text) => Json::Str(text),
        SqlView::Blob(bytes) => Json::Object(map!["blob"@ => Json::Int(bytes.len() as int)]),
    }
}

/// The JSON array that a row becomes.
pub open spec fn row_json(cells: Seq<SqlView>) -> Json {
    Json::Array(cells.map_values(|cell: SqlView| cell_json(cell)))
}

/// What a list of cells is.
pub open spec fn cells_view(cells: Seq<SqlValue>) -> Seq<SqlView> {
    cells.map_values(|cell: SqlValue| cell@)
}

/// The JSON value that `value` becomes.
pub fn sql_to_json(value: SqlValue) -> (json: Value)
    ensures
        json_of(json) == cell_json(value@),
        match value {
            SqlValue::Null => json_of(json) == Json::Null,
            SqlValue::Integer(integer) => json_of(json) == Json::Int(integer as int),
            SqlValue::Float(number) => json == number,
            SqlValue::Text(text) => json_of(json) == Json::Str(text@),
            SqlValue::Blob(bytes) => json_of(json) == Json::Object(
                map!["blob"@ => Json::Int(bytes@.len() as int)],
            ),
        },
{
    match value {
        SqlValue::Null => null_value(),
        SqlValue::Integer(integer) => signed_value(integer),
        SqlValue::Float(number) => number,
        SqlValue::Text(text) => string_value(text),
        SqlValue::Blob(bytes) => single("blob", unsigned_value(bytes.len() as u64)),
    }
}

/// The JSON array that a row becomes.
pub fn row_to_json(cells: Vec<SqlValue>) -> (json: Value)
    ensures
        json_of(json) == row_json(cells_view(cells@)),
{
    let ghost all = cells@;
    let mut items: Vec<Value> = Vec::new();
    for cell in iter: cells
        invariant
            iter.seq() == all,
            items_of(items@) == cells_view(all.take(iter.index() as int)).map_values(
                |cell: SqlView| cell_json(cell),
            ),
    {
        let ghost before = items@;
        items.push(sql_to_json(cell));
        assert(items_of(items@) == items_of(before).push(cell_json(cell@)));
        assert(all.take(iter.index() + 1) == all.take(iter.index() as int).push(cell));
    }
    assert(all.take(all.len() as int) == all);
    array_value(items)
}

/// A blob keeps its length and nothing else.
pub proof fn blob_keeps_only_its_length(one: Seq<u8>, other: Seq<u8>)
    ensures
        cell_json(SqlView::Blob(one)) == cell_json(SqlView::Blob(other)) <==> one.len()
            == other.len(),
{
    let first = map!["blob"@ => Json::Int(one.len() as int)];
    let second = map!["blob"@ => Json::Int(other.len() as int)];
    assert(first["blob"@] == Json::Int(one.len() as int));
    assert(second["blob"@] == Json::Int(other.len() as int));
}

/// A cell is what its view says: the same number, characters or bytes.
pub proof fn cell_is_its_view(
    integer: i64,
    number: Value,
    text: String,
    bytes: Vec<u8>,
)
    ensures
        SqlValue::Null@ == SqlView::Null,
        SqlValue::Integer(integer)@ == SqlView::Integer(integer as int),
        SqlValue::Float(number)@ == SqlView::Float(json_of(number)),
        SqlValue::Text(text)@ == SqlView::Text(text@),
        SqlValue::Blob(bytes)@ == SqlView::Blob(bytes@),
{
}

/// An integer becomes the number of the same value, however large, a text the
/// string of the same characters, a floating-point number the value that stands
/// for it, null becomes null, and a blob an object that holds its length and
/// nothing else.
pub proof fn cell_becomes_its_value(integer: int, number: Json, text: Seq<char>, bytes: Seq<u8>)
    ensures
        cell_json(SqlView::Null) == Json::Null,
        cell_json(SqlView::Integer(integer)) == Json::Int(integer),
        cell_json(SqlView::Float(number)) == number,
        cell_json(SqlView::Text(text)) == Json::Str(text),
        cell_json(SqlView::Blob(bytes)) matches Json::Object(entries) && entries.dom()
            == set!["blob"@] && entries["blob"@] == Json::Int(bytes.len() as int),
{
    let entries = map!["blob"@ => Json::Int(bytes.len() as int)];
    assert(entries.dom() =~= set!["blob"@]);
    assert(entries["blob"@] == Json::Int(bytes.len() as int));
}

/// Two cells that are integers, or two that are texts, become the same JSON
/// value only where they are the same cell, and an integer never becomes what a
/// text or null becomes.
pub proof fn cells_stay_apart(one: SqlView, other: SqlView)
    requires
        one is Null || one is Integer || one is Text,
        other is Null || other is Integer || other is Text,
        cell_json(one) == cell_json(other),
    ensures
        one == other,
{
}

/// A row becomes an array with one item for each cell, in order: item `i` is
/// what cell `i` becomes.
pub proof fn row_keeps_every_cell(cells: Seq<SqlView>)
    ensures
        row_json(cells) matches Json::Array(items) && items.len() == cells.len() && forall|i: int|
            0 <= i < cells.len() ==> #[trigger] items[i] == cell_json(cells[i]),
{
}

/// What a list of cells is keeps every cell, in order.
pub proof fn cells_are_kept(cells: Seq<SqlValue>)
    ensures
        cells_view(cells).len() == cells.len(),
        forall|i: int| 0 <= i < cells.len() ==> #[trigger] cells_view(cells)[i] == cells[i]@,
{
}

} // verus!
