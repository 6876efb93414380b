//! The schema emitter: table name, column list, argument binding and row
//! reconstruction of a record.
use crate::dialect::Dialect;
use crate::model::{FieldDescriptor, FieldView, TableDescriptor, TableView};
use crate::text::{concat_all, escape, escaped, flat, join, joined, views};
use vstd::prelude::*;

verus! {

/// The column names of a table, in declaration order.
pub open spec fn column_names_of(t: TableView) -> Seq<Seq<char>> {
    t.fields.map_values(|f: FieldView| f.column_name)
}

/// The text of the function that yields the table name.
pub open spec fn name_text(t: TableView) -> Seq<char> {
    "fn table() -> &'static str { \""@ + escaped(t.table_name) + "\" }"@
}

/// One entry of the column list.
pub open spec fn column_item(column: Seq<char>) -> Seq<char> {
    " \""@ + escaped(column) + "\""@
}

/// The text of the function that yields the column list.
pub open spec fn columns_text(t: TableView) -> Seq<char> {
    "fn columns() -> Vec<&'static str> { vec!["@ + joined(
        column_names_of(t).map_values(|c: Seq<char>| column_item(c)),
        ", "@,
    ) + "] }"@
}

/// The statement that binds one field of an instance.
pub open spec fn bind_item(d: Dialect, f: FieldView) -> Seq<char> {
    d.bind_text("&self."@ + f.name)
}

/// The text of the procedure that binds every field into an argument collector.
pub open spec fn arguments_text(t: TableView, d: Dialect) -> Seq<char> {
    "fn arguments<'a>(&'a self, arguments: &mut cherry::types::Arguments<'a>) { use cherry::sqlx::Arguments as OtherArguments;"@
        + flat(t.fields.map_values(|f: FieldView| bind_item(d, f))) + "}"@
}

/// The initialiser that reads one field back from a row. A custom type with a
/// storage type recorded is read as that type.
pub open spec fn read_item(f: FieldView) -> Seq<char> {
    if f.custom_type && f.type_override is Some {
        " "@ + f.name + ": row.try_get::<"@ + f.type_override->Some_0 + ", _>(\""@ + escaped(f.column_name)
            + "\")?"@
    } else {
        " "@ + f.name + ": row.try_get(\""@ + escaped(f.column_name) + "\")?"@
    }
}

/// The text of the constructor that rebuilds an instance from a row.
pub open spec fn from_row_text(t: TableView) -> Seq<char> {
    "fn from_row(row: &cherry::types::Row) -> Result<Self, cherry::error::Error> { use cherry::sqlx::Row as OtherRow; Ok( Self {"@
        + joined(t.fields.map_values(|f: FieldView| read_item(f)), ", "@) + " } ) }"@
}

/// The text of the whole schema implementation of a record.
pub open spec fn schema_text(t: TableView, d: Dialect) -> Seq<char> {
    "impl cherry::Schema for "@ + t.ident + " { "@ + name_text(t) + " "@ + columns_text(t) + " "@
        + arguments_text(t, d) + " "@ + from_row_text(t) + " }"@
}

/// The column names of the table: one per field, in declaration order.
pub fn column_names(table: &TableDescriptor) -> (r: Vec<String>)
    ensures
        r@.len() == table@.fields.len(),
        forall|i: int| 0 <= i < r@.len() ==> (#[trigger] r@[i])@ == table@.fields[i].column_name,
        views(r@) == column_names_of(table@),
{
    let mut out: Vec<String> = Vec::new();
    let mut i: usize = 0;
    while i < table.fields.len()
        invariant
            i <= table.fields.len(),
            out@.len() == i,
            forall|k: int| 0 <= k < i ==> (#[trigger] out@[k])@ == table.fields@[k].column_name@,
        decreases table.fields.len() - i,
    {
        out.push(table.fields[i].column_name.clone());
        i += 1;
    }
    assert(views(out@) =~= column_names_of(table@));
    out
}

/// Emits the function that yields the table name.
pub fn name(table: &TableDescriptor) -> (r: String)
    ensures
        r@ == name_text(table@),
{
    let mut out = String::from_str("fn table() -> &'static str { \"");
    out.append(escape(table.table_name.as_str()).as_str());
    out.append("\" }");
    out
}

/// Emits the function that yields the column list.
pub fn columns(table: &TableDescriptor) -> (r: String)
    ensures
        r@ == columns_text(table@),
{
    let names = column_names(table);
    let mut items: Vec<String> = Vec::new();
    let mut i: usize = 0;
    while i < names.len()
        invariant
            i <= names.len(),
            items@.len() == i,
            forall|k: int| 0 <= k < i ==> (#[trigger] items@[k])@ == column_item(names@[k]@),
        decreases names.len() - i,
    {
        let mut item = String::from_str(" \"");
        item.append(escape(names[i].as_str()).as_str());
        item.append("\"");
        items.push(item);
        i += 1;
    }
    assert(views(items@) =~= column_names_of(table@).map_values(|c: Seq<char>| column_item(c)));
    let list = join(&items, ", ");
    let mut out = String::from_str("fn columns() -> Vec<&'static str> { vec![");
    out.append(list.as_str());
    out.append("] }");
    out
}

/// Emits the procedure that binds every field of an instance into an
/// argument collector, in column order.
pub fn arguments(table: &TableDescriptor, dialect: Dialect) -> (r: String)
    ensures
        r@ == arguments_text(table@, dialect),
{
    let mut items: Vec<String> = Vec::new();
    let mut i: usize = 0;
    while i < table.fields.len()
        invariant
            i <= table.fields.len(),
            items@.len() == i,
            forall|k: int|
                0 <= k < i ==> (#[trigger] items@[k])@ == bind_item(dialect, table.fields@[k]@),
        decreases table.fields.len() - i,
    {
        let mut value = String::from_str("&self.");
        value.append(table.fields[i].name.as_str());
        items.push(dialect.bind_call(value.as_str()));
        i += 1;
    }
    assert(views(items@) =~= table@.fields.map_values(|f: FieldView| bind_item(dialect, f)));
    let mut out = String::from_str(
        "fn arguments<'a>(&'a self, arguments: &mut cherry::types::Arguments<'a>) { use cherry::sqlx::Arguments as OtherArguments;",
    );
    out.append(concat_all(&items).as_str());
    out.append("}");
    out
}

/// Emits the initialiser that reads one field back from a row.
pub fn read_field(field: &FieldDescriptor) -> (r: String)
    ensures
        r@ == read_item(field@),
{
    let mut out = String::from_str(" ");
    out.append(field.name.as_str());
    match &field.type_override {
        Some(storage) if field.custom_type => {
            out.append(": row.try_get::<");
            out.append(storage.as_str());
            out.append(", _>(\"");
        },
        _ => {
            out.append(": row.try_get(\"");
        },
    }
    out.append(escape(field.column_name.as_str()).as_str());
    out.append("\")?");
    out
}

/// Emits the constructor that rebuilds an instance from a row, reading each
/// column by name and handing a read failure on to the caller.
pub fn from_row(table: &TableDescriptor) -> (r: String)
    ensures
        r@ == from_row_text(table@),
{
    let mut items: Vec<String> = Vec::new();
    let mut i: usize = 0;
    while i < table.fields.len()
        invariant
            i <= table.fields.len(),
            items@.len() == i,
            forall|k: int| 0 <= k < i ==> (#[trigger] items@[k])@ == read_item(table.fields@[k]@),
        decreases table.fields.len() - i,
    {
        items.push(read_field(&table.fields[i]));
        i += 1;
    }
    assert(views(items@) =~= table@.fields.map_values(|f: FieldView| read_item(f)));
    let list = join(&items, ", ");
    let mut out = String::from_str(
        "fn from_row(row: &cherry::types::Row) -> Result<Self, cherry::error::Error> { use cherry::sqlx::Row as OtherRow; Ok( Self {",
    );
    out.append(list.as_str());
    out.append(" } ) }");
    out
}

/// Emits the schema implementation of a record: table name, column list,
/// argument binding and row reconstruction.
pub fn impl_schema(table: &TableDescriptor, dialect: Dialect) -> (r: String)
    ensures
        r@ == schema_text(table@, dialect),
{
    let mut out = String::from_str("impl cherry::Schema for ");
    out.append(table.ident.as_str());
    out.append(" { ");
    out.append(name(table).as_str());
    out.append(" ");
    out.append(columns(table).as_str());
    out.append(" ");
    out.append(arguments(table, dialect).as_str());
    out.append(" ");
    out.append(from_row(table).as_str());
    out.append(" }");
    out
}

} // verus!
