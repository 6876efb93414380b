//! What is said to the author of a record about each violation.
use crate::builder::ModelError;
use crate::text::{decimal, decimal_string};
use vstd::prelude::*;

verus! {

/// The message of a violation: what is wrong, and the position of the field,
/// accessor or annotation that it is about.
pub open spec fn message_text(e: ModelError) -> Seq<char> {
    match e {
        ModelError::MissingId => "no field is the id of the table"@,
        ModelError::MissingTableName => "the table is not named"@,
        ModelError::MissingRecordType => "the record type is not named"@,
        ModelError::DuplicateId { field } => "field "@ + decimal(field as nat)
            + ": the table already has an id"@,
        ModelError::MissingTypeOverride { field } => "field "@ + decimal(field as nat)
            + ": a custom type needs a storage type"@,
        ModelError::UnknownAnnotationKey { location } => "annotation "@ + decimal(location as nat)
            + ": unknown key"@,
        ModelError::MalformedAnnotationValue { location } => "annotation "@ + decimal(
            location as nat,
        ) + ": malformed value"@,
        ModelError::DuplicateAccessorKind { field, accessor } => "field "@ + decimal(field as nat)
            + ", accessor "@ + decimal(accessor as nat) + ": clashes with an earlier accessor"@,
        ModelError::DanglingAccessorReference { field, accessor } => "field "@ + decimal(
            field as nat,
        ) + ", accessor "@ + decimal(accessor as nat) + ": names a field that does not exist"@,
    }
}

/// Writes a position behind a word.
fn located(word: &str, position: usize) -> (r: String)
    ensures
        r@ == word@ + decimal(position as nat),
{
    let mut out = String::from_str(word);
    out.append(decimal_string(position).as_str());
    out
}

/// The message of a violation.
pub fn message(e: ModelError) -> (r: String)
    ensures
        r@ == message_text(e),
{
    match e {
        ModelError::MissingId => String::from_str("no field is the id of the table"),
        ModelError::MissingTableName => String::from_str("the table is not named"),
        ModelError::MissingRecordType => String::from_str("the record type is not named"),
        ModelError::DuplicateId { field } => {
            let mut out = located("field ", field);
            out.append(": the table already has an id");
            out
        },
        ModelError::MissingTypeOverride { field } => {
            let mut out = located("field ", field);
            out.append(": a custom type needs a storage type");
            out
        },
        ModelError::UnknownAnnotationKey { location } => {
            let mut out = located("annotation ", location);
            out.append(": unknown key");
            out
        },
        ModelError::MalformedAnnotationValue { location } => {
            let mut out = located("annotation ", location);
            out.append(": malformed value");
            out
        },
        ModelError::DuplicateAccessorKind { field, accessor } => {
            let mut out = located("field ", field);
            out.append(located(", accessor ", accessor).as_str());
            out.append(": clashes with an earlier accessor");
            out
        },
        ModelError::DanglingAccessorReference { field, accessor } => {
            let mut out = located("field ", field);
            out.append(located(", accessor ", accessor).as_str());
            out.append(": names a field that does not exist");
            out
        },
    }
}

} // verus!
