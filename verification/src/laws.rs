//! What holds of every descriptor.
use crate::builder::{
    accessor_errors, accessor_valid, accessors_errors, field_errors, field_valid, fields_errors,
    has_field, has_id_before, model_errors, role_errors, valid, ModelError,
};
use crate::dialect::Dialect;
use crate::insert::{insert_field, insert_fields_of};
use crate::model::{FieldView, Role, TableDescriptor, TableView};
use crate::compile::record_errors;
use crate::parse::{
    directives, parse_errors, table_of, RawFieldView, RawRecord, RawRecordView,
};
use crate::schema::{bind_item, column_item, column_names_of, read_item};
use crate::text::{escaped, escaped_char, literal_value, unescaped_char};
use vstd::prelude::*;

verus! {

/// The column list has one entry per field, and the entry at each position is
/// the column of the field declared at that position.
pub proof fn column_list_follows_fields(t: TableView)
    ensures
        column_names_of(t).len() == t.fields.len(),
        forall|i: int| 0 <= i < t.fields.len() ==> column_names_of(t)[i] == t.fields[i].column_name,
{
}

/// A violation of one of the first `n` fields is among the violations of
/// those fields together.
pub proof fn field_violation_is_reported(t: TableView, i: int, n: nat, e: ModelError)
    requires
        0 <= i < n,
        field_errors(t, i).contains(e),
    ensures
        fields_errors(t, n).contains(e),
    decreases n,
{
    let head = fields_errors(t, (n - 1) as nat);
    let tail = field_errors(t, n - 1);
    if i == n - 1 {
        let k = choose|k: int| 0 <= k < tail.len() && tail[k] == e;
        assert((head + tail)[head.len() + k] == e);
    } else {
        field_violation_is_reported(t, i, (n - 1) as nat, e);
        let k = choose|k: int| 0 <= k < head.len() && head[k] == e;
        assert((head + tail)[k] == e);
    }
}

/// A violation of a field is among the violations of the descriptor.
pub proof fn field_violation_fails_model(t: TableView, i: int, e: ModelError)
    requires
        0 <= i < t.fields.len(),
        field_errors(t, i).contains(e),
    ensures
        model_errors(t).contains(e),
        model_errors(t).len() > 0,
{
    field_violation_is_reported(t, i, t.fields.len(), e);
    let all = fields_errors(t, t.fields.len());
    let k = choose|k: int| 0 <= k < all.len() && all[k] == e;
    assert(model_errors(t)[k] == e);
}

/// A descriptor without an id field has the missing-id violation, so it is
/// never accepted.
pub proof fn missing_id_is_reported(t: TableView)
    requires
        forall|i: int| 0 <= i < t.fields.len() ==> (#[trigger] t.fields[i]).role != Role::Id,
    ensures
        model_errors(t).contains(ModelError::MissingId),
        model_errors(t).len() > 0,
{
    let all = fields_errors(t, t.fields.len());
    assert(!has_id_before(t.fields, t.fields.len() as int));
    assert(model_errors(t)[all.len() as int] == ModelError::MissingId);
}

/// A descriptor with two id fields has the duplicate-id violation at the
/// later of them, so it is never accepted.
pub proof fn duplicate_id_is_reported(t: TableView, i: int, j: int)
    requires
        0 <= i < j < t.fields.len(),
        t.fields[i].role == Role::Id,
        t.fields[j].role == Role::Id,
    ensures
        model_errors(t).contains(ModelError::DuplicateId { field: j as usize }),
        model_errors(t).len() > 0,
{
    let e = ModelError::DuplicateId { field: j as usize };
    assert(has_id_before(t.fields, j));
    assert(role_errors(t, j)[0] == e);
    assert(field_errors(t, j)[0] == e);
    field_violation_fails_model(t, j, e);
}

/// A descriptor without violations has exactly one id field.
pub proof fn accepted_model_has_one_id(t: TableView)
    requires
        model_errors(t).len() == 0,
    ensures
        exists|i: int|
            0 <= i < t.fields.len() && (#[trigger] t.fields[i]).role == Role::Id && forall|j: int|
                0 <= j < t.fields.len() && (#[trigger] t.fields[j]).role == Role::Id ==> j == i,
{
    assert(has_id_before(t.fields, t.fields.len() as int));
    let i = choose|k: int| 0 <= k < t.fields.len() && (#[trigger] t.fields[k]).role == Role::Id;
    assert forall|j: int| 0 <= j < t.fields.len() && (#[trigger] t.fields[j]).role
        == Role::Id implies j == i by {
        if j < i {
            duplicate_id_is_reported(t, j, i);
        } else if i < j {
            duplicate_id_is_reported(t, i, j);
        }
    }
}

/// A field of a custom type that records no storage type is a violation, so
/// its descriptor is never accepted.
pub proof fn missing_override_is_reported(t: TableView, i: int)
    requires
        0 <= i < t.fields.len(),
        t.fields[i].custom_type,
        t.fields[i].type_override is None,
    ensures
        model_errors(t).contains(ModelError::MissingTypeOverride { field: i as usize }),
        model_errors(t).len() > 0,
{
    let e = ModelError::MissingTypeOverride { field: i as usize };
    let r = role_errors(t, i);
    assert(r[r.len() - 1] == e);
    assert(field_errors(t, i)[r.len() - 1] == e);
    field_violation_fails_model(t, i, e);
}

/// The first `n` accessors of a field have no violation exactly when each of
/// them is valid.
pub proof fn accessors_clean_iff_valid(t: TableView, i: int, n: nat)
    ensures
        accessors_errors(t, i, n).len() == 0 <==> (forall|j: int|
            0 <= j < n ==> accessor_valid(t, i, j)),
    decreases n,
{
    if n > 0 {
        accessors_clean_iff_valid(t, i, (n - 1) as nat);
        assert(accessor_errors(t, i, n - 1).len() == 0 <==> accessor_valid(t, i, n - 1));
        if accessors_errors(t, i, n).len() == 0 {
            assert forall|j: int| 0 <= j < n implies accessor_valid(t, i, j) by {
                if j < n - 1 {
                    assert(accessor_valid(t, i, j));
                }
            }
        }
    }
}

/// The first `n` fields have no violation exactly when each of them is valid.
pub proof fn fields_clean_iff_valid(t: TableView, n: nat)
    ensures
        fields_errors(t, n).len() == 0 <==> (forall|i: int| 0 <= i < n ==> field_valid(t, i)),
    decreases n,
{
    if n > 0 {
        fields_clean_iff_valid(t, (n - 1) as nat);
        accessors_clean_iff_valid(t, n - 1, t.fields[n - 1].accessors.len());
        assert(field_errors(t, n - 1).len() == 0 <==> field_valid(t, n - 1));
        if fields_errors(t, n).len() == 0 {
            assert forall|i: int| 0 <= i < n implies field_valid(t, i) by {
                if i < n - 1 {
                    assert(field_valid(t, i));
                }
            }
        }
    }
}

/// A descriptor has no violation, and so is accepted, exactly when it is
/// valid.
pub proof fn accepted_iff_valid(t: TableView)
    ensures
        model_errors(t).len() == 0 <==> valid(t),
{
    fields_clean_iff_valid(t, t.fields.len());
}

/// A descriptor that is not valid is never emitted: it compiles to its
/// violations, of which there is at least one.
pub proof fn invalid_model_is_not_emitted(t: TableView, d: Dialect)
    requires
        !valid(t),
    ensures
        model_errors(t).len() > 0,
        crate::compile::compiled(t, d) == Err::<Seq<char>, Seq<ModelError>>(model_errors(t)),
{
    accepted_iff_valid(t);
}

/// A field of a custom type is read back from a row as the storage type that
/// it records.
pub proof fn override_is_read(f: FieldView, storage: Seq<char>)
    requires
        f.custom_type,
        f.type_override == Some(storage),
    ensures
        read_item(f) == " "@ + f.name + ": row.try_get::<"@ + storage + ", _>(\""@ + escaped(f.column_name)
            + "\")?"@,
{
}

/// Binding and reading back go through the fields in the order of the column
/// list: at each position the bind statement takes the value of the field
/// declared there, and the initialiser reads the column listed there into
/// that same field.
pub proof fn bind_and_read_follow_columns(t: TableView, d: Dialect, i: int)
    requires
        0 <= i < t.fields.len(),
        !t.fields[i].custom_type,
    ensures
        t.fields.map_values(|f: FieldView| bind_item(d, f)).len() == column_names_of(t).len(),
        t.fields.map_values(|f: FieldView| read_item(f)).len() == column_names_of(t).len(),
        t.fields.map_values(|f: FieldView| bind_item(d, f))[i] == d.bind_text(
            "&self."@ + t.fields[i].name,
        ),
        t.fields.map_values(|f: FieldView| read_item(f))[i] == " "@ + t.fields[i].name
            + ": row.try_get(\""@ + escaped(column_names_of(t)[i]) + "\")?"@,
{
}

/// Escaping goes character by character: a text in two parts is escaped part
/// by part.
pub proof fn escaped_distributes(a: Seq<char>, b: Seq<char>)
    ensures
        escaped(a + b) == escaped(a) + escaped(b),
    decreases b.len(),
{
    if b.len() == 0 {
        assert(a + b =~= a);
        assert(escaped(a) + escaped(b) =~= escaped(a));
    } else {
        escaped_distributes(a, b.drop_last());
        assert((a + b).drop_last() =~= a + b.drop_last());
        assert((a + b).last() == b.last());
        assert(escaped(a + b) =~= escaped(a) + escaped(b));
    }
}

/// A string literal that holds an escaped text between its quotes has the
/// text itself as its value: no character of the text ends the literal or
/// is read as another.
pub proof fn literal_keeps_its_text(s: Seq<char>)
    ensures
        literal_value(escaped(s)) == Some(s),
    decreases s.len(),
{
    if s.len() > 0 {
        let c = s[0];
        let tail = s.skip(1);
        literal_keeps_its_text(tail);
        assert(s =~= seq![c] + tail);
        escaped_distributes(seq![c], tail);
        reveal_with_fuel(escaped, 2);
        assert(seq![c].drop_last() =~= Seq::<char>::empty());
        assert(seq![c].last() == c);
        assert(escaped(seq![c]) =~= escaped_char(c));
        let e = escaped(s);
        assert(e =~= escaped_char(c) + escaped(tail));
        if escaped_char(c).len() == 2 {
            assert(e[0] == '\\');
            assert(unescaped_char(e[1]) == Some(c));
            assert(e.skip(2) =~= escaped(tail));
        } else {
            assert(e[0] == c);
            assert(e.skip(1) =~= escaped(tail));
        }
        assert(literal_value(e) == Some(seq![c] + tail));
    } else {
        assert(escaped(s) =~= Seq::<char>::empty());
    }
}

/// Each entry of the column list is one string literal whose value is the
/// column's name, whatever characters the name holds.
pub proof fn column_entry_is_one_literal(column: Seq<char>)
    ensures
        column_item(column) == " \""@ + escaped(column) + "\""@,
        literal_value(escaped(column)) == Some(column),
{
    literal_keeps_its_text(column);
}

/// The insert companion holds a field exactly when the record declares it and
/// it is neither the id nor produced by the database.
pub proof fn insert_fields_are_the_rest(t: TableView, f: FieldView)
    ensures
        insert_fields_of(t).contains(f) <==> (t.fields.contains(f) && f.role != Role::Id && f.role
            != Role::Default),
{
    broadcast use vstd::seq_lib::group_filter_ensures;
    let kept = insert_fields_of(t);
    if t.fields.contains(f) && insert_field()(f) {
        let k = choose|k: int| 0 <= k < t.fields.len() && t.fields[k] == f;
        assert(kept.contains(t.fields[k]));
    }
    if kept.contains(f) {
        let k = choose|k: int| 0 <= k < kept.len() && kept[k] == f;
        assert(insert_field()(kept[k]));
        t.fields.lemma_filter_contains_rev(insert_field(), f);
    }
}

/// Every directive that the annotations of a field ask for names that field.
pub proof fn parsed_directives_name_their_field(f: RawFieldView, n: nat)
    ensures
        forall|k: int|
            0 <= k < directives(f, n).len() ==> (#[trigger] directives(f, n)[k]).field == f.name,
    decreases n,
{
    if n > 0 {
        parsed_directives_name_their_field(f, (n - 1) as nat);
    }
}

/// In a descriptor built from annotations no accessor names a field that the
/// table does not have.
pub proof fn parsed_accessors_are_not_dangling(r: RawRecordView, i: int, j: int)
    requires
        0 <= i < r.fields.len(),
        0 <= j < table_of(r).fields[i].accessors.len(),
    ensures
        has_field(table_of(r).fields, table_of(r).fields[i].accessors[j].field),
{
    let f = r.fields[i];
    parsed_directives_name_their_field(f, f.annotations.len());
    assert(table_of(r).fields[i].name == f.name);
}

/// A record is emitted only if it has neither an annotation that cannot be
/// taken nor a violation; otherwise each of either kind is among the reasons
/// that one compilation reports.
pub proof fn every_reason_is_reported(r: RawRecordView, d: Dialect, e: ModelError)
    requires
        parse_errors(r).contains(e) || model_errors(table_of(r)).contains(e),
    ensures
        crate::compile::derived(r, d) == Err::<Seq<char>, Seq<ModelError>>(record_errors(r)),
        record_errors(r).contains(e),
{
    let first = parse_errors(r);
    let second = model_errors(table_of(r));
    if first.contains(e) {
        let k = choose|k: int| 0 <= k < first.len() && first[k] == e;
        assert(record_errors(r)[k] == e);
    } else {
        let k = choose|k: int| 0 <= k < second.len() && second[k] == e;
        assert(record_errors(r)[first.len() + k] == e);
    }
}

/// Two records written alike compile alike: to the same text, or to the same
/// errors in the same order.
pub proof fn same_record_same_outcome(a: RawRecord, b: RawRecord, d: Dialect)
    requires
        a@ == b@,
    ensures
        crate::compile::derived(a@, d) == crate::compile::derived(b@, d),
{
}

/// Two descriptors that describe the same record compile alike.
pub proof fn same_descriptor_same_outcome(a: TableDescriptor, b: TableDescriptor, d: Dialect)
    requires
        a@ == b@,
    ensures
        crate::compile::compiled(a@, d) == crate::compile::compiled(b@, d),
{
}

} // verus!
