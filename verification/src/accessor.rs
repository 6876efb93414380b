//! The accessor emitter: query-by-field and update-one-field operations, and
//! the delete operation keyed by the id.
//!
//! A single-row getter whose query matches several rows takes the first row.
use crate::builder::ResolvedModel;
use crate::dialect::Dialect;
use crate::model::{AccessorDirective, AccessorKind, AccessorView, FieldView, TableDescriptor, TableView};
use crate::schema::{column_names, column_names_of};
use crate::text::{concat_all, escape, escaped, flat, join, joined, views};
use vstd::prelude::*;

verus! {

/// The position of the first field of this name at or after `from`.
pub open spec fn field_position(fields: Seq<FieldView>, name: Seq<char>, from: int) -> Option<int>
    decreases fields.len() - from,
{
    if from < 0 || from >= fields.len() {
        None
    } else if fields[from].name == name {
        Some(from)
    } else {
        field_position(fields, name, from + 1)
    }
}

/// The query that selects every column of the rows where `column` has a given value.
pub open spec fn select_sql_text(t: TableView, d: Dialect, column: Seq<char>) -> Seq<char> {
    "SELECT "@ + joined(column_names_of(t), ", "@) + " FROM "@ + t.table_name + " WHERE "@ + column
        + " = "@ + d.placeholder_text(1)
}

/// The statement that sets one column of the row with a given id.
pub open spec fn update_sql_text(t: TableView, d: Dialect, column: Seq<char>, id: FieldView) -> Seq<
    char,
> {
    "UPDATE "@ + t.table_name + " SET "@ + column + " = "@ + d.placeholder_text(1) + " WHERE "@
        + id.column_name + " = "@ + d.placeholder_text(2)
}

/// The statement that removes the row with a given id.
pub open spec fn delete_sql_text(t: TableView, d: Dialect, id: FieldView) -> Seq<char> {
    "DELETE FROM "@ + t.table_name + " WHERE "@ + id.column_name + " = "@ + d.placeholder_text(1)
}

/// What a getter returns.
pub open spec fn getter_result_text(kind: AccessorKind) -> Seq<char> {
    match kind {
        AccessorKind::GetOptional => "Result<Option<Self>, cherry::error::Error>"@,
        AccessorKind::GetMany => "Result<Vec<Self>, cherry::error::Error>"@,
        _ => "Result<Self, cherry::error::Error>"@,
    }
}

/// How the rows that a query matched become the result: one record or a
/// not-found error, one record or nothing, or every record in order.
pub open spec fn rows_text(kind: AccessorKind) -> Seq<char> {
    match kind {
        AccessorKind::GetOptional => " match rows.first() { Some(row) => Ok(Some(<Self as cherry::Schema>::from_row(row)?)), None => Ok(None) } }"@,
        AccessorKind::GetMany => " rows.iter().map(<Self as cherry::Schema>::from_row).collect() }"@,
        _ => " match rows.first() { Some(row) => <Self as cherry::Schema>::from_row(row), None => Err(cherry::error::Error::NotFound) } }"@,
    }
}

/// The start of an operation's body: a fresh argument collector.
pub open spec fn collector_text() -> Seq<char> {
    " use cherry::sqlx::Arguments as OtherArguments; let mut arguments = cherry::types::Arguments::default();"@
}

/// A getter: the rows where the field's column equals the argument.
pub open spec fn getter_text(t: TableView, d: Dialect, f: FieldView, a: AccessorView) -> Seq<char> {
    "pub async fn "@ + a.generated_name + "(db: &mut cherry::Connection, value: "@ + a.argument_type
        + ") -> "@ + getter_result_text(a.kind) + " {"@ + collector_text() + d.bind_text("value"@)
        + " let rows = db.fetch_all(\""@ + escaped(select_sql_text(t, d, f.column_name))
        + "\", arguments).await?;"@ + rows_text(a.kind)
}

/// A setter: updates the field's column of the row with this record's id,
/// then reads the row back.
pub open spec fn setter_text(
    t: TableView,
    d: Dialect,
    f: FieldView,
    a: AccessorView,
    id: FieldView,
) -> Seq<char> {
    "pub async fn "@ + a.generated_name + "(&mut self, db: &mut cherry::Connection, value: "@
        + a.argument_type + ") -> Result<Self, cherry::error::Error> {"@ + collector_text()
        + d.bind_text("value"@) + d.bind_text("&self."@ + id.name) + " db.execute(\""@
        + escaped(update_sql_text(t, d, f.column_name, id)) + "\", arguments).await?;"@ + collector_text()
        + d.bind_text("&self."@ + id.name) + " let rows = db.fetch_all(\""@ + escaped(
        select_sql_text(t, d, id.column_name),
    ) + "\", arguments).await?;"@ + rows_text(AccessorKind::GetOne)
}

/// The operation of one directive on the field that it names.
pub open spec fn accessor_text(
    t: TableView,
    d: Dialect,
    f: FieldView,
    a: AccessorView,
    id: FieldView,
) -> Seq<char> {
    if a.kind.is_getter() {
        getter_text(t, d, f, a)
    } else {
        setter_text(t, d, f, a, id)
    }
}

/// The operation of one directive, or nothing where it names no field.
pub open spec fn directive_text(t: TableView, d: Dialect, a: AccessorView, id: FieldView) -> Seq<
    char,
> {
    match field_position(t.fields, a.field, 0) {
        Some(p) => " "@ + accessor_text(t, d, t.fields[p], a, id),
        None => Seq::<char>::empty(),
    }
}

/// The operations of the directives of field `i`, in order.
pub open spec fn field_accessors_text(t: TableView, d: Dialect, i: int, id: FieldView) -> Seq<char> {
    flat(t.fields[i].accessors.map_values(|a: AccessorView| directive_text(t, d, a, id)))
}

/// The operations of every directive, by field and then by directive.
pub open spec fn accessors_text(t: TableView, d: Dialect, id: FieldView) -> Seq<char> {
    "impl "@ + t.ident + " {"@ + flat(
        Seq::new(t.fields.len(), |i: int| field_accessors_text(t, d, i, id)),
    ) + " }"@
}

/// The delete artifact: nothing unless the record is deletable.
pub open spec fn delete_text(t: TableView, d: Dialect, id: FieldView) -> Seq<char> {
    if t.deletable {
        "impl "@ + t.ident
            + " { pub async fn delete(self, db: &mut cherry::Connection) -> Result<(), cherry::error::Error> {"@
            + collector_text() + d.bind_text("&self."@ + id.name) + " db.execute(\""@
            + escaped(delete_sql_text(t, d, id)) + "\", arguments).await?; Ok(()) } }"@
    } else {
        Seq::<char>::empty()
    }
}

/// Finds the first field of a name.
pub fn find_field(table: &TableDescriptor, name: &String) -> (r: Option<usize>)
    ensures
        r is Some ==> r->Some_0 < table@.fields.len(),
        match r {
            Some(p) => field_position(table@.fields, name@, 0) == Some(p as int),
            None => field_position(table@.fields, name@, 0) is None,
        },
{
    let mut i: usize = 0;
    while i < table.fields.len()
        invariant
            i <= table.fields.len(),
            field_position(table@.fields, name@, 0) == field_position(table@.fields, name@, i as int),
        decreases table.fields.len() - i,
    {
        assert(table@.fields[i as int] == table.fields@[i as int]@);
        if table.fields[i].name == *name {
            return Some(i);
        }
        i += 1;
    }
    None
}

/// Emits the start of an operation's body.
fn collector() -> (r: String)
    ensures
        r@ == collector_text(),
{
    String::from_str(
        " use cherry::sqlx::Arguments as OtherArguments; let mut arguments = cherry::types::Arguments::default();",
    )
}

/// Emits the conversion of matched rows into a getter's result.
pub fn rows_to_result(kind: AccessorKind) -> (r: String)
    ensures
        r@ == rows_text(kind),
{
    match kind {
        AccessorKind::GetOptional => String::from_str(
            " match rows.first() { Some(row) => Ok(Some(<Self as cherry::Schema>::from_row(row)?)), None => Ok(None) } }",
        ),
        AccessorKind::GetMany => String::from_str(
            " rows.iter().map(<Self as cherry::Schema>::from_row).collect() }",
        ),
        _ => String::from_str(
            " match rows.first() { Some(row) => <Self as cherry::Schema>::from_row(row), None => Err(cherry::error::Error::NotFound) } }",
        ),
    }
}

/// Emits the query that selects the rows where a column has a given value.
pub fn select_sql(table: &TableDescriptor, dialect: Dialect, column: &str) -> (r: String)
    ensures
        r@ == select_sql_text(table@, dialect, column@),
{
    let names = column_names(table);
    let mut out = String::from_str("SELECT ");
    out.append(join(&names, ", ").as_str());
    out.append(" FROM ");
    out.append(table.table_name.as_str());
    out.append(" WHERE ");
    out.append(column);
    out.append(" = ");
    out.append(dialect.placeholder(1).as_str());
    out
}

/// Emits the statement that sets one column of the row with the record's id.
pub fn update_sql(model: &ResolvedModel, dialect: Dialect, column: &str) -> (r: String)
    requires
        model.wf(),
    ensures
        r@ == update_sql_text(
            model.table@,
            dialect,
            column@,
            model.table@.fields[model.id_index as int],
        ),
{
    let mut out = String::from_str("UPDATE ");
    out.append(model.table.table_name.as_str());
    out.append(" SET ");
    out.append(column);
    out.append(" = ");
    out.append(dialect.placeholder(1).as_str());
    out.append(" WHERE ");
    out.append(model.id_field().column_name.as_str());
    out.append(" = ");
    out.append(dialect.placeholder(2).as_str());
    out
}

/// Emits the statement that removes the row with the record's id.
pub fn delete_sql(model: &ResolvedModel, dialect: Dialect) -> (r: String)
    requires
        model.wf(),
    ensures
        r@ == delete_sql_text(model.table@, dialect, model.table@.fields[model.id_index as int]),
{
    let mut out = String::from_str("DELETE FROM ");
    out.append(model.table.table_name.as_str());
    out.append(" WHERE ");
    out.append(model.id_field().column_name.as_str());
    out.append(" = ");
    out.append(dialect.placeholder(1).as_str());
    out
}

/// Emits the statement that binds the id of the record at hand.
fn bind_own_id(model: &ResolvedModel, dialect: Dialect) -> (r: String)
    requires
        model.wf(),
    ensures
        r@ == dialect.bind_text("&self."@ + model.table@.fields[model.id_index as int].name),
{
    let mut value = String::from_str("&self.");
    value.append(model.id_field().name.as_str());
    dialect.bind_call(value.as_str())
}

/// Emits the operation of one directive on the field at `position`.
pub fn impl_accessor(
    model: &ResolvedModel,
    dialect: Dialect,
    position: usize,
    directive: &AccessorDirective,
) -> (r: String)
    requires
        model.wf(),
        position < model.table@.fields.len(),
    ensures
        r@ == accessor_text(
            model.table@,
            dialect,
            model.table@.fields[position as int],
            directive@,
            model.table@.fields[model.id_index as int],
        ),
{
    let field = &model.table.fields[position];
    assert(model.table@.fields[position as int] == field@);
    let mut out = String::from_str("pub async fn ");
    out.append(directive.generated_name.as_str());
    match directive.kind {
        AccessorKind::SetField => {
            out.append("(&mut self, db: &mut cherry::Connection, value: ");
            out.append(directive.argument_type.as_str());
            out.append(") -> Result<Self, cherry::error::Error> {");
            out.append(collector().as_str());
            out.append(dialect.bind_call("value").as_str());
            out.append(bind_own_id(model, dialect).as_str());
            out.append(" db.execute(\"");
            out.append(escape(update_sql(model, dialect, field.column_name.as_str()).as_str()).as_str());
            out.append("\", arguments).await?;");
            out.append(collector().as_str());
            out.append(bind_own_id(model, dialect).as_str());
            out.append(" let rows = db.fetch_all(\"");
            let reload = select_sql(&model.table, dialect, model.id_field().column_name.as_str());
            out.append(escape(reload.as_str()).as_str());
            out.append("\", arguments).await?;");
            out.append(rows_to_result(AccessorKind::GetOne).as_str());
        },
        _ => {
            out.append("(db: &mut cherry::Connection, value: ");
            out.append(directive.argument_type.as_str());
            out.append(") -> ");
            match directive.kind {
                AccessorKind::GetOptional => out.append(
                    "Result<Option<Self>, cherry::error::Error>",
                ),
                AccessorKind::GetMany => out.append("Result<Vec<Self>, cherry::error::Error>"),
                _ => out.append("Result<Self, cherry::error::Error>"),
            }
            out.append(" {");
            out.append(collector().as_str());
            out.append(dialect.bind_call("value").as_str());
            out.append(" let rows = db.fetch_all(\"");
            out.append(escape(select_sql(&model.table, dialect, field.column_name.as_str()).as_str()).as_str());
            out.append("\", arguments).await?;");
            out.append(rows_to_result(directive.kind).as_str());
        },
    }
    out
}

/// Emits the operations of every accessor directive of a record, by field and
/// then by directive. A directive is resolved by the name of the field that it
/// refers to.
pub fn impl_accessors(model: &ResolvedModel, dialect: Dialect) -> (r: String)
    requires
        model.wf(),
    ensures
        r@ == accessors_text(model.table@, dialect, model.table@.fields[model.id_index as int]),
{
    let ghost t = model.table@;
    let ghost id = t.fields[model.id_index as int];
    let mut per_field: Vec<String> = Vec::new();
    let mut i: usize = 0;
    while i < model.table.fields.len()
        invariant
            i <= model.table.fields.len(),
            model.wf(),
            t == model.table@,
            id == t.fields[model.id_index as int],
            per_field@.len() == i,
            forall|k: int|
                0 <= k < i ==> (#[trigger] per_field@[k])@ == field_accessors_text(t, dialect, k, id),
        decreases model.table.fields.len() - i,
    {
        let field = &model.table.fields[i];
        assert(t.fields[i as int] == field@);
        let mut items: Vec<String> = Vec::new();
        let mut j: usize = 0;
        while j < field.accessors.len()
            invariant
                j <= field.accessors.len(),
                model.wf(),
                t == model.table@,
                id == t.fields[model.id_index as int],
                items@.len() == j,
                forall|k: int|
                    0 <= k < j ==> (#[trigger] items@[k])@ == directive_text(
                        t,
                        dialect,
                        field.accessors@[k]@,
                        id,
                    ),
            decreases field.accessors.len() - j,
        {
            let directive = &field.accessors[j];
            match find_field(&model.table, &directive.field) {
                Some(p) => {
                    let mut item = String::from_str(" ");
                    item.append(impl_accessor(model, dialect, p, directive).as_str());
                    items.push(item);
                },
                None => {
                    items.push(String::new());
                },
            }
            j += 1;
        }
        assert(views(items@) =~= field@.accessors.map_values(
            |a: AccessorView| directive_text(t, dialect, a, id),
        ));
        per_field.push(concat_all(&items));
        i += 1;
    }
    assert(views(per_field@) =~= Seq::new(
        t.fields.len(),
        |i: int| field_accessors_text(t, dialect, i, id),
    ));
    let mut out = String::from_str("impl ");
    out.append(model.table.ident.as_str());
    out.append(" {");
    out.append(concat_all(&per_field).as_str());
    out.append(" }");
    out
}

/// Emits the delete artifact of a record; it is empty unless the record is
/// deletable.
pub fn impl_delete(model: &ResolvedModel, dialect: Dialect) -> (r: String)
    requires
        model.wf(),
    ensures
        r@ == delete_text(model.table@, dialect, model.table@.fields[model.id_index as int]),
{
    if model.table.deletable {
        let mut out = String::from_str("impl ");
        out.append(model.table.ident.as_str());
        out.append(
            " { pub async fn delete(self, db: &mut cherry::Connection) -> Result<(), cherry::error::Error> {",
        );
        out.append(collector().as_str());
        out.append(bind_own_id(model, dialect).as_str());
        out.append(" db.execute(\"");
        out.append(escape(delete_sql(model, dialect).as_str()).as_str());
        out.append("\", arguments).await?; Ok(()) } }");
        out
    } else {
        String::new()
    }
}

} // verus!
