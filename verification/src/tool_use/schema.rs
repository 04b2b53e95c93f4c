//! The shape of a table: its columns, and the rows and metadata that go with them.

use vstd::prelude::*;
use crate::error::{Error, ErrorView};
use crate::json::{items_view, option_view, Json, JsonValue, Member};
use crate::text::str_eq;

verus! {

/// One column of a table.
#[derive(Debug, PartialEq)]
pub struct ColumnDef {
    /// The key under which every row holds this column's value.
    pub name: String,
    /// The label to display; may be empty.
    pub alias: String,
    /// How to read the values: `"string"` or `"number"`.
    pub dtype: String,
}

/// The columns of a table, in display order.
pub type Schema = Vec<ColumnDef>;

/// The mathematical value of a [`ColumnDef`].
pub struct ColumnView {
    pub name: Seq<char>,
    pub alias: Seq<char>,
    pub dtype: Seq<char>,
}

impl View for ColumnDef {
    type V = ColumnView;

    open spec fn view(&self) -> ColumnView {
        ColumnView { name: self.name@, alias: self.alias@, dtype: self.dtype@ }
    }
}

/// The values of a list of columns.
pub open spec fn schema_view(schema: Seq<ColumnDef>) -> Seq<ColumnView> {
    Seq::new(schema.len(), |i: int| schema[i]@)
}

/// The names of a list of columns, in order.
pub open spec fn column_names(schema: Seq<ColumnView>) -> Seq<Seq<char>> {
    Seq::new(schema.len(), |i: int| schema[i].name)
}

/// The keys of an object's members, in order; no keys for any other value.
pub open spec fn row_keys(row: JsonValue) -> Seq<Seq<char>> {
    match row {
        JsonValue::Object(members) => Seq::new(members.len(), |i: int| members[i].0),
        _ => Seq::empty(),
    }
}

/// A column that holds strings.
pub open spec fn string_column(name: Seq<char>, alias: Seq<char>) -> ColumnView {
    ColumnView { name, alias, dtype: "string"@ }
}

/// A column that holds numbers.
pub open spec fn number_column(name: Seq<char>, alias: Seq<char>) -> ColumnView {
    ColumnView { name, alias, dtype: "number"@ }
}

/// What a response becomes: rows, the columns that describe them, and what the
/// response said about itself.
#[derive(Debug, PartialEq)]
pub struct TransformResult {
    pub rows: Vec<Json>,
    pub schema: Schema,
    pub metadata: Option<Json>,
}

/// The mathematical value of a [`TransformResult`].
pub struct TableView {
    pub rows: Seq<JsonValue>,
    pub schema: Seq<ColumnView>,
    pub metadata: Option<JsonValue>,
}

impl View for TransformResult {
    type V = TableView;

    open spec fn view(&self) -> TableView {
        TableView {
            rows: items_view(self.rows@),
            schema: schema_view(self.schema@),
            metadata: option_view(self.metadata),
        }
    }
}

/// The value of what a transformation returns.
pub open spec fn outcome_view(outcome: Result<TransformResult, Error>) -> Result<
    TableView,
    ErrorView,
> {
    match outcome {
        Ok(table) => Ok(table@),
        Err(e) => Err(e@),
    }
}

/// Makes a column that holds strings.
pub fn make_string_column(name: &str, alias: &str) -> (r: ColumnDef)
    ensures
        r@ == string_column(name@, alias@),
{
    ColumnDef { name: name.to_owned(), alias: alias.to_owned(), dtype: "string".to_owned() }
}

/// Makes a column that holds numbers.
pub fn make_number_column(name: &str, alias: &str) -> (r: ColumnDef)
    ensures
        r@ == number_column(name@, alias@),
{
    ColumnDef { name: name.to_owned(), alias: alias.to_owned(), dtype: "number".to_owned() }
}

/// The value that `values` holds under `key`, and null where it holds none.
pub open spec fn field_or_null(values: JsonValue, key: Seq<char>) -> JsonValue {
    match values.get(key) {
        Some(v) => v,
        None => JsonValue::Null,
    }
}

/// A member `name` that holds what `source` holds under `key`, or null.
pub fn copied_member(name: &str, source: &Json, key: &str) -> (r: Member)
    ensures
        r.key@ == name@,
        r.value@ == field_or_null(source@, key@),
{
    let value = match source.get(key) {
        Some(v) => v.clone(),
        None => Json::Null,
    };
    Member { key: name.to_owned(), value }
}

/// Whether no name occurs twice.
pub open spec fn names_distinct(names: Seq<Seq<char>>) -> bool {
    forall|i: int, j: int| 0 <= i < j < names.len() ==> names[i] != names[j]
}

/// Whether no two columns of `schema` have the same name.
pub fn has_distinct_names(schema: &Schema) -> (r: bool)
    ensures
        r == names_distinct(column_names(schema_view(schema@))),
{
    let ghost names = column_names(schema_view(schema@));
    let mut j: usize = 0;
    while j < schema.len()
        invariant
            j <= schema.len(),
            names == column_names(schema_view(schema@)),
            forall|a: int, b: int| 0 <= a < b < j ==> names[a] != names[b],
        decreases schema.len() - j,
    {
        let mut i: usize = 0;
        while i < j
            invariant
                i <= j < schema.len(),
                names == column_names(schema_view(schema@)),
                forall|a: int| 0 <= a < i ==> names[a] != names[j as int],
            decreases j - i,
        {
            if str_eq(schema[i].name.as_str(), schema[j].name.as_str()) {
                assert(names[i as int] == names[j as int]);
                return false;
            }
            i += 1;
        }
        j += 1;
    }
    true
}

} // verus!
