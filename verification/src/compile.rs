//! The whole pipeline: annotations to descriptor, descriptor to model, model
//! to the text of every artifact.
use crate::accessor::{accessors_text, delete_text, impl_accessors, impl_delete};
use crate::builder::{model_errors, validate, ModelError, ResolvedModel};
use crate::dialect::Dialect;
use crate::insert::{impl_insert, insert_text};
use crate::laws::accepted_model_has_one_id;
use crate::model::{FieldView, Role, TableDescriptor, TableView};
use crate::parse::{parse_errors, read_table, table_of, RawRecord, RawRecordView};
use crate::schema::{impl_schema, schema_text};
use vstd::prelude::*;

verus! {

/// The position of an id field of the table.
pub open spec fn id_position(t: TableView) -> int {
    choose|i: int| 0 <= i < t.fields.len() && (#[trigger] t.fields[i]).role == Role::Id
}

/// The artifacts of a record, one after another: schema, insert, accessors
/// and delete.
pub open spec fn table_text(t: TableView, d: Dialect, id: FieldView) -> Seq<char> {
    schema_text(t, d) + " "@ + insert_text(t, d, id) + " "@ + accessors_text(t, d, id) + " "@
        + delete_text(t, d, id)
}

/// What a descriptor compiles to: the text of its artifacts, or every
/// violation where it has one.
pub open spec fn compiled(t: TableView, d: Dialect) -> Result<Seq<char>, Seq<ModelError>> {
    if model_errors(t).len() == 0 {
        Ok(table_text(t, d, t.fields[id_position(t)]))
    } else {
        Err(model_errors(t))
    }
}

/// Every reason why a record as written is rejected: the annotations that
/// cannot be taken, then the violations of the descriptor that the others
/// describe.
pub open spec fn record_errors(r: RawRecordView) -> Seq<ModelError> {
    parse_errors(r) + model_errors(table_of(r))
}

/// What a record as written compiles to: the text of its artifacts, or every
/// reason why it is rejected, where there is one.
pub open spec fn derived(r: RawRecordView, d: Dialect) -> Result<Seq<char>, Seq<ModelError>> {
    if record_errors(r).len() == 0 {
        Ok(table_text(table_of(r), d, table_of(r).fields[id_position(table_of(r))]))
    } else {
        Err(record_errors(r))
    }
}

/// The view of a compilation's outcome.
pub open spec fn outcome(r: Result<String, Vec<ModelError>>) -> Result<Seq<char>, Seq<ModelError>> {
    match r {
        Ok(text) => Ok(text@),
        Err(errors) => Err(errors@),
    }
}

/// Emits the artifacts of a model, one after another. Emission never fails.
pub fn emit(model: &ResolvedModel, dialect: Dialect) -> (r: String)
    requires
        model.wf(),
    ensures
        r@ == table_text(model.table@, dialect, model.table@.fields[model.id_index as int]),
{
    let mut out = impl_schema(&model.table, dialect);
    out.append(" ");
    out.append(impl_insert(model, dialect).as_str());
    out.append(" ");
    out.append(impl_accessors(model, dialect).as_str());
    out.append(" ");
    out.append(impl_delete(model, dialect).as_str());
    out
}

/// Validates a descriptor and emits its artifacts: the only errors are the
/// violations of the descriptor, all of them.
pub fn compile(table: TableDescriptor, dialect: Dialect) -> (r: Result<String, Vec<ModelError>>)
    ensures
        outcome(r) == compiled(table@, dialect),
{
    let ghost t = table@;
    match validate(table) {
        Err(errors) => Err(errors),
        Ok(model) => {
            proof {
                accepted_model_has_one_id(t);
                assert(model.id_index as int == id_position(t));
            }
            Ok(emit(&model, dialect))
        },
    }
}

/// Compiles a record as written: reads its annotations, validates the
/// descriptor that they describe and emits its artifacts. A record that is
/// rejected yields every reason at once, those of its annotations before
/// those of its descriptor.
pub fn derive_table(raw: &RawRecord, dialect: Dialect) -> (r: Result<String, Vec<ModelError>>)
    ensures
        outcome(r) == derived(raw@, dialect),
{
    let (table, mut errors) = read_table(raw);
    let ghost t = table@;
    let ghost head = errors@;
    match validate(table) {
        Err(found) => {
            let mut k: usize = 0;
            while k < found.len()
                invariant
                    k <= found.len(),
                    errors@ == head + found@.take(k as int),
                decreases found.len() - k,
            {
                errors.push(found[k]);
                proof {
                    assert(errors@ =~= head + found@.take(k + 1));
                }
                k += 1;
            }
            proof {
                assert(found@.take(k as int) =~= found@);
            }
            Err(errors)
        },
        Ok(model) => {
            proof {
                assert(errors@ =~= record_errors(raw@));
            }
            if errors.len() > 0 {
                Err(errors)
            } else {
                proof {
                    accepted_model_has_one_id(t);
                    assert(model.id_index as int == id_position(t));
                }
                Ok(emit(&model, dialect))
            }
        },
    }
}

} // verus!
