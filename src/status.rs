//! The status of a record: the cell of its designated status field,
//! independent of column selection.
use vstd::prelude::*;
use crate::config::{lower_of, lowercase};
use crate::field::{cell_text, render_value, FieldDescriptor, FieldValue};
use crate::table::{fields_of, record_fields, value_at, StructTable};

verus! {

/// Position of the last field flagged as the status field.
pub open spec fn flagged_status(fields: Seq<FieldDescriptor>) -> Option<int>
    decreases fields.len(),
{
    if fields.len() == 0 {
        None
    } else if fields.last().status {
        Some(fields.len() - 1)
    } else {
        flagged_status(fields.drop_last())
    }
}

/// Position of the last field titled "status", ignoring case.
pub open spec fn titled_status(fields: Seq<FieldDescriptor>) -> Option<int>
    decreases fields.len(),
{
    if fields.len() == 0 {
        None
    } else if lower_of(fields.last().title@) == "status"@ {
        Some(fields.len() - 1)
    } else {
        titled_status(fields.drop_last())
    }
}

/// The designated status field: the flagged one, else the one titled
/// "status".
pub open spec fn status_field(fields: Seq<FieldDescriptor>) -> Option<int> {
    match flagged_status(fields) {
        Some(i) => Some(i),
        None => titled_status(fields),
    }
}

/// The status text: the compact cell of the designated status field, absent
/// when there is none.
pub open spec fn status_text(fields: Seq<FieldDescriptor>, values: Seq<FieldValue>) -> Option<
    Seq<char>,
> {
    match status_field(fields) {
        Some(i) => cell_text(value_at(values, i), fields[i], None, false),
        None => None,
    }
}

/// A found status position lies inside the list and carries the flag.
pub proof fn lemma_flagged_status_in_range(fields: Seq<FieldDescriptor>)
    ensures
        flagged_status(fields) matches Some(i) ==> 0 <= i < fields.len() && fields[i].status,
        flagged_status(fields) is None ==> forall|i: int|
            0 <= i < fields.len() ==> !(#[trigger] fields[i]).status,
    decreases fields.len(),
{
    if fields.len() > 0 {
        lemma_flagged_status_in_range(fields.drop_last());
        if flagged_status(fields) is None {
            assert forall|i: int| 0 <= i < fields.len() implies !(#[trigger] fields[i]).status by {
                if i < fields.len() - 1 {
                    assert(fields[i] == fields.drop_last()[i]);
                }
            }
        }
    }
}

/// A found title position lies inside the list.
pub proof fn lemma_titled_status_in_range(fields: Seq<FieldDescriptor>)
    ensures
        titled_status(fields) matches Some(i) ==> 0 <= i < fields.len() && lower_of(fields[i].title@)
            == "status"@,
    decreases fields.len(),
{
    if fields.len() > 0 {
        lemma_titled_status_in_range(fields.drop_last());
    }
}

/// An explicitly flagged status field wins over a field that is only titled
/// "status": whenever some field carries the flag, the status comes from a
/// flagged field.
pub proof fn lemma_flag_preferred(fields: Seq<FieldDescriptor>, k: int)
    requires
        0 <= k < fields.len(),
        fields[k].status,
    ensures
        status_field(fields) matches Some(i) && 0 <= i < fields.len() && fields[i].status,
{
    lemma_flagged_status_in_range(fields);
}

/// The status of a record laid out by `fields`, with the values in the same
/// order.
pub fn record_status(fields: &Vec<FieldDescriptor>, values: &Vec<FieldValue>) -> (r: Option<String>)
    ensures
        crate::field::opt_text(r) == status_text(fields@, values@),
{
    let status_word = String::from_str("status");
    let mut flagged: Option<usize> = None;
    let mut titled: Option<usize> = None;
    let mut i: usize = 0;
    while i < fields.len()
        invariant
            i <= fields@.len(),
            status_word@ == "status"@,
            flagged matches Some(k) ==> flagged_status(fields@.take(i as int)) == Some(k as int),
            flagged is None ==> flagged_status(fields@.take(i as int)) is None,
            titled matches Some(k) ==> titled_status(fields@.take(i as int)) == Some(k as int),
            titled is None ==> titled_status(fields@.take(i as int)) is None,
        decreases fields@.len() - i,
    {
        assert(fields@.take(i + 1).drop_last() =~= fields@.take(i as int));
        if fields[i].status {
            flagged = Some(i);
        }
        if lowercase(fields[i].title.as_str()) == status_word {
            titled = Some(i);
        }
        i = i + 1;
    }
    assert(fields@.take(fields@.len() as int) =~= fields@);
    proof {
        lemma_flagged_status_in_range(fields@);
        lemma_titled_status_in_range(fields@);
    }
    let found = match flagged {
        Some(k) => Some(k),
        None => titled,
    };
    match found {
        Some(k) => {
            if k < values.len() {
                render_value(&values[k], &fields[k], &None, false)
            } else {
                None
            }
        },
        None => None,
    }
}

/// The status of a record: the cell of its designated status field (see
/// `record_status`), the record laid out by its descriptors (the type-level
/// list first, the record's own list only where the type gives none);
/// absent when there are none.
pub fn status<T: StructTable>(record: &T) -> (r: Option<String>)
    ensures
        crate::field::opt_text(r) == match record_fields(*record) {
            Some(fs) => status_text(fs, record.spec_values()),
            None => None,
        },
{
    match fields_of(record) {
        Some(fields) => {
            let values = record.values();
            record_status(&fields, &values)
        },
        None => None,
    }
}

} // verus!
