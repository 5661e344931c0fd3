//! Laws of the record store that relate several operations.

use crate::error::ApiError;
use crate::models::{
    patient_row, text_view, ChildRecord, Encounter, NewEncounter, NewPatient, Patient, Record,
};
use crate::store::{ext_id_taken, StoreView};
use crate::table::{
    contains_key, has_child, lemma_key_index, lemma_table_push,
};
use crate::time::Timestamp;
use vstd::prelude::*;

verus! {

/// Creating a valid patient and then reading it back by the identifier it
/// was given yields exactly the input's fields, with that identifier and
/// both timestamps set to the creation time. Creation succeeds unless the
/// external identifier is taken or the identifiers are used up.
pub proof fn create_then_get_patient(s: StoreView, input: NewPatient, now: Timestamp)
    requires
        s.wf(),
        input.valid(),
    ensures
        ({
            let (r, after) = s.create_patient_result(input, now);
            &&& (r is Ok <==> !ext_id_taken(s.patients, text_view(input.fhir_id), 0)
                && s.next_patient_id < i32::MAX)
            &&& r matches Ok(p) ==> after.get_patient_result(p.id) == Ok::<Patient, ApiError>(p)
                && p == patient_row(input, p.id, now, now)
        }),
{
    let (r, after) = s.create_patient_result(input, now);
    if let Ok(p) = r {
        lemma_table_push(s.patients, s.next_patient_id, p);
        let last = after.patients.len() - 1;
        assert(after.patients[last] == p);
        assert(after.patients[last].key() == p.id);
        lemma_key_index(after.patients, p.id, last);
    }
}

/// Creating an encounter for a patient that does not exist fails with
/// `NotFound` and leaves the store as it was (for inputs that are otherwise
/// valid: a malformed input is reported as such first).
pub proof fn encounter_for_missing_patient(s: StoreView, input: NewEncounter, now: Timestamp)
    requires
        s.wf(),
        input.valid(),
        !contains_key(s.patients, input.patient_id),
    ensures
        s.create_encounter_result(input, now) == (Err::<Encounter, ApiError>(
            ApiError::NotFound,
        ), s),
{
}

/// An encounter that ends before it starts is refused with
/// `ValidationError`, on create and on update alike, and the store is left
/// as it was.
pub proof fn encounter_ending_before_start(
    s: StoreView,
    id: i32,
    input: NewEncounter,
    now: Timestamp,
)
    requires
        input.end_time matches Some(end) && end.secs < input.start_time.secs,
    ensures
        s.create_encounter_result(input, now) == (Err::<Encounter, ApiError>(
            ApiError::ValidationError,
        ), s),
        s.update_encounter_result(id, input, now) == (Err::<Encounter, ApiError>(
            ApiError::ValidationError,
        ), s),
{
}

/// When a patient is created with an external identifier, a second valid
/// patient with the same external identifier is refused with `Conflict`;
/// the store is unchanged and the first patient still reads back as created.
pub proof fn duplicate_external_id(
    s: StoreView,
    first: NewPatient,
    second: NewPatient,
    t1: Timestamp,
    t2: Timestamp,
)
    requires
        s.wf(),
        first.fhir_id is Some,
        second.valid(),
        text_view(second.fhir_id) == text_view(first.fhir_id),
    ensures
        ({
            let (r1, s1) = s.create_patient_result(first, t1);
            r1 matches Ok(p) ==> {
                let (r2, s2) = s1.create_patient_result(second, t2);
                &&& r2 == Err::<Patient, ApiError>(ApiError::Conflict)
                &&& s2 == s1
                &&& s2.get_patient_result(p.id) == Ok::<Patient, ApiError>(p)
            }
        }),
{
    let (r1, s1) = s.create_patient_result(first, t1);
    if let Ok(p) = r1 {
        lemma_table_push(s.patients, s.next_patient_id, p);
        let last = s1.patients.len() - 1;
        assert(s1.patients[last] == p);
        assert(s1.patients[last].key() == p.id);
        assert(p.id > 0);
        assert(text_view(s1.patients[last].fhir_id) == text_view(second.fhir_id));
        assert(ext_id_taken(s1.patients, text_view(second.fhir_id), 0));
        lemma_key_index(s1.patients, p.id, last);
    }
}

/// Deleting a patient that owns encounters is refused with `Conflict` and
/// removes nothing: no descendant is ever deleted along with its parent.
pub proof fn delete_patient_with_encounters(s: StoreView, id: i32)
    requires
        s.wf(),
        has_child(s.encounters, id),
    ensures
        s.delete_patient_result(id) == (Err::<(), ApiError>(ApiError::Conflict), s),
{
    let i = choose|i: int| 0 <= i < s.encounters.len() && #[trigger] s.encounters[i].parent_key() == id;
    assert(contains_key(s.patients, s.encounters[i].parent_key()));
}

/// Deleting an encounter that owns a vital sign, diagnosis or treatment is
/// refused with `Conflict` and removes nothing.
pub proof fn delete_encounter_with_children(s: StoreView, id: i32)
    requires
        s.wf(),
        has_child(s.vital_signs, id) || has_child(s.diagnoses, id) || has_child(s.treatments, id),
    ensures
        s.delete_encounter_result(id) == (Err::<(), ApiError>(ApiError::Conflict), s),
{
    if has_child(s.vital_signs, id) {
        let i = choose|i: int| 0 <= i < s.vital_signs.len() && #[trigger] s.vital_signs[i].parent_key() == id;
        assert(contains_key(s.encounters, s.vital_signs[i].parent_key()));
    } else if has_child(s.diagnoses, id) {
        let i = choose|i: int| 0 <= i < s.diagnoses.len() && #[trigger] s.diagnoses[i].parent_key() == id;
        assert(contains_key(s.encounters, s.diagnoses[i].parent_key()));
    } else {
        let i = choose|i: int| 0 <= i < s.treatments.len() && #[trigger] s.treatments[i].parent_key() == id;
        assert(contains_key(s.encounters, s.treatments[i].parent_key()));
    }
}

} // verus!
