//! The clinical record store: five tables linked by parent keys, with
//! server-issued identifiers that are never reused.
//!
//! Deletion policy: a patient or an encounter that still owns children is
//! not deleted; the delete fails with `Conflict` and nothing is removed.

use crate::error::ApiError;
use crate::models::{
    diagnosis_row, encounter_row, patient_row, text_view, treatment_row, vital_sign_row,
    Diagnosis, Encounter, NewDiagnosis, NewEncounter, NewPatient, NewTreatment,
    NewVitalSign, Patient, Record, Treatment, VitalSign,
};
use crate::table::{
    any_child, collect_children, children_of, contains_key, find_index, has_child, key_index,
    keys_ordered, lemma_refs_child_push, lemma_refs_child_remove, lemma_refs_child_update,
    lemma_refs_parent_push, lemma_refs_parent_remove, lemma_refs_parent_update, lemma_table_push,
    lemma_table_remove, lemma_table_update, refs_ok, table_ok,
};
use crate::time::Timestamp;
use vstd::prelude::*;

verus! {

/// The abstract state of a store: each table in order of creation, and the
/// next identifier each table will issue.
pub struct StoreView {
    pub patients: Seq<Patient>,
    pub encounters: Seq<Encounter>,
    pub vital_signs: Seq<VitalSign>,
    pub diagnoses: Seq<Diagnosis>,
    pub treatments: Seq<Treatment>,
    pub next_patient_id: int,
    pub next_encounter_id: int,
    pub next_vital_sign_id: int,
    pub next_diagnosis_id: int,
    pub next_treatment_id: int,
}

/// Another patient than the one with key `except` already carries the
/// external identifier `ext`.
pub open spec fn ext_id_taken(s: Seq<Patient>, ext: Option<Seq<char>>, except: i32) -> bool {
    &&& ext is Some
    &&& exists|i: int|
        0 <= i < s.len() && s[i].id != except && #[trigger] text_view(s[i].fhir_id) == ext
}

/// No two patients carry the same external identifier.
pub open spec fn ext_ids_unique(s: Seq<Patient>) -> bool {
    forall|i: int, j: int|
        0 <= i < s.len() && 0 <= j < s.len() && i != j && s[i].fhir_id is Some
            ==> #[trigger] text_view(s[i].fhir_id) != #[trigger] text_view(s[j].fhir_id)
}

/// How far outside its encounter's span a vital sign may be recorded.
pub const RECORDING_SLACK_SECS: i64 = 3600;

/// `t` lies within encounter `e`'s span, widened by the recording slack on
/// both sides; an open encounter has no upper bound.
pub open spec fn recorded_near(t: Timestamp, e: Encounter) -> bool {
    &&& t.secs >= e.start_time.secs - RECORDING_SLACK_SECS
    &&& match e.end_time {
        Some(end) => t.secs <= end.secs + RECORDING_SLACK_SECS,
        None => true,
    }
}

/// Whether a reading taken at `t` may be recorded against encounter `e`.
pub fn recorded_near_check(t: &Timestamp, e: &Encounter) -> (r: bool)
    ensures
        r == recorded_near(*t, *e),
{
    let slack = RECORDING_SLACK_SECS as i128;
    let after_start = t.secs as i128 >= e.start_time.secs as i128 - slack;
    match &e.end_time {
        Some(end) => after_start && t.secs as i128 <= end.secs as i128 + slack,
        None => after_start,
    }
}

pub open spec fn next_ok(n: int) -> bool {
    1 <= n <= i32::MAX
}

impl StoreView {
    /// The store's invariant: keys ordered and below the next identifier,
    /// rows well formed, every child's parent present, external patient
    /// identifiers unique.
    pub open spec fn wf(self) -> bool {
        &&& next_ok(self.next_patient_id)
        &&& next_ok(self.next_encounter_id)
        &&& next_ok(self.next_vital_sign_id)
        &&& next_ok(self.next_diagnosis_id)
        &&& next_ok(self.next_treatment_id)
        &&& table_ok(self.patients, self.next_patient_id)
        &&& table_ok(self.encounters, self.next_encounter_id)
        &&& table_ok(self.vital_signs, self.next_vital_sign_id)
        &&& table_ok(self.diagnoses, self.next_diagnosis_id)
        &&& table_ok(self.treatments, self.next_treatment_id)
        &&& refs_ok(self.encounters, self.patients)
        &&& refs_ok(self.vital_signs, self.encounters)
        &&& refs_ok(self.diagnoses, self.encounters)
        &&& refs_ok(self.treatments, self.encounters)
        &&& ext_ids_unique(self.patients)
    }

    pub open spec fn with_patients(self, s: Seq<Patient>, next: int) -> StoreView {
        StoreView { patients: s, next_patient_id: next, ..self }
    }

    /// Result and new state of creating a patient from `input` at time `now`.
    pub open spec fn create_patient_result(self, input: NewPatient, now: Timestamp) -> (
        Result<Patient, ApiError>,
        StoreView,
    ) {
        if !input.valid() {
            (Err(ApiError::ValidationError), self)
        } else if ext_id_taken(self.patients, text_view(input.fhir_id), 0) {
            (Err(ApiError::Conflict), self)
        } else if self.next_patient_id >= i32::MAX {
            (Err(ApiError::CapacityExhausted), self)
        } else {
            let p = patient_row(input, self.next_patient_id as i32, now, now);
            (Ok(p), self.with_patients(self.patients.push(p), self.next_patient_id + 1))
        }
    }

    /// The patient with identifier `id`.
    pub open spec fn get_patient_result(self, id: i32) -> Result<Patient, ApiError> {
        if contains_key(self.patients, id) {
            Ok(self.patients[key_index(self.patients, id)])
        } else {
            Err(ApiError::NotFound)
        }
    }

    /// Result and new state of replacing patient `id` by `input` at time `now`.
    pub open spec fn update_patient_result(self, id: i32, input: NewPatient, now: Timestamp) -> (
        Result<Patient, ApiError>,
        StoreView,
    ) {
        if !input.valid() {
            (Err(ApiError::ValidationError), self)
        } else if !contains_key(self.patients, id) {
            (Err(ApiError::NotFound), self)
        } else if ext_id_taken(self.patients, text_view(input.fhir_id), id) {
            (Err(ApiError::Conflict), self)
        } else {
            let k = key_index(self.patients, id);
            let p = patient_row(input, id, self.patients[k].created_at, now);
            (Ok(p), self.with_patients(self.patients.update(k, p), self.next_patient_id))
        }
    }

    /// Result and new state of deleting patient `id`.
    pub open spec fn delete_patient_result(self, id: i32) -> (Result<(), ApiError>, StoreView) {
        if !contains_key(self.patients, id) {
            (Err(ApiError::NotFound), self)
        } else if has_child(self.encounters, id) {
            (Err(ApiError::Conflict), self)
        } else {
            (
                Ok(()),
                self.with_patients(
                    self.patients.remove(key_index(self.patients, id)),
                    self.next_patient_id,
                ),
            )
        }
    }

    pub open spec fn with_encounters(self, s: Seq<Encounter>, next: int) -> StoreView {
        StoreView { encounters: s, next_encounter_id: next, ..self }
    }

    pub open spec fn with_vital_signs(self, s: Seq<VitalSign>, next: int) -> StoreView {
        StoreView { vital_signs: s, next_vital_sign_id: next, ..self }
    }

    pub open spec fn with_diagnoses(self, s: Seq<Diagnosis>, next: int) -> StoreView {
        StoreView { diagnoses: s, next_diagnosis_id: next, ..self }
    }

    pub open spec fn with_treatments(self, s: Seq<Treatment>, next: int) -> StoreView {
        StoreView { treatments: s, next_treatment_id: next, ..self }
    }

    /// Result and new state of creating an encounter from `input` at time `now`.
    pub open spec fn create_encounter_result(self, input: NewEncounter, now: Timestamp) -> (
        Result<Encounter, ApiError>,
        StoreView,
    ) {
        if !input.valid() {
            (Err(ApiError::ValidationError), self)
        } else if !contains_key(self.patients, input.patient_id) {
            (Err(ApiError::NotFound), self)
        } else if self.next_encounter_id >= i32::MAX {
            (Err(ApiError::CapacityExhausted), self)
        } else {
            let e = encounter_row(input, self.next_encounter_id as i32, now, now);
            (Ok(e), self.with_encounters(self.encounters.push(e), self.next_encounter_id + 1))
        }
    }

    /// The encounter with identifier `id`.
    pub open spec fn get_encounter_result(self, id: i32) -> Result<Encounter, ApiError> {
        if contains_key(self.encounters, id) {
            Ok(self.encounters[key_index(self.encounters, id)])
        } else {
            Err(ApiError::NotFound)
        }
    }

    /// The encounters of patient `patient_id`, in order of creation.
    pub open spec fn list_encounters_result(self, patient_id: i32) -> Result<Seq<Encounter>, ApiError> {
        if contains_key(self.patients, patient_id) {
            Ok(children_of(self.encounters, patient_id))
        } else {
            Err(ApiError::NotFound)
        }
    }

    /// Result and new state of replacing encounter `id` by `input` at time `now`.
    pub open spec fn update_encounter_result(self, id: i32, input: NewEncounter, now: Timestamp) -> (
        Result<Encounter, ApiError>,
        StoreView,
    ) {
        if !input.valid() {
            (Err(ApiError::ValidationError), self)
        } else if !contains_key(self.encounters, id) {
            (Err(ApiError::NotFound), self)
        } else if !contains_key(self.patients, input.patient_id) {
            (Err(ApiError::NotFound), self)
        } else {
            let k = key_index(self.encounters, id);
            let e = encounter_row(input, id, self.encounters[k].created_at, now);
            (Ok(e), self.with_encounters(self.encounters.update(k, e), self.next_encounter_id))
        }
    }

    /// Result and new state of deleting encounter `id`.
    pub open spec fn delete_encounter_result(self, id: i32) -> (Result<(), ApiError>, StoreView) {
        if !contains_key(self.encounters, id) {
            (Err(ApiError::NotFound), self)
        } else if has_child(self.vital_signs, id) || has_child(self.diagnoses, id) || has_child(
            self.treatments,
            id,
        ) {
            (Err(ApiError::Conflict), self)
        } else {
            (
                Ok(()),
                self.with_encounters(
                    self.encounters.remove(key_index(self.encounters, id)),
                    self.next_encounter_id,
                ),
            )
        }
    }

    /// Result and new state of creating a vital sign from `input` at time `now`.
    pub open spec fn create_vital_sign_result(self, input: NewVitalSign, now: Timestamp) -> (
        Result<VitalSign, ApiError>,
        StoreView,
    ) {
        if !input.valid() {
            (Err(ApiError::ValidationError), self)
        } else if !contains_key(self.encounters, input.encounter_id) {
            (Err(ApiError::NotFound), self)
        } else if !recorded_near(
            input.recorded_at,
            self.encounters[key_index(self.encounters, input.encounter_id)],
        ) {
            (Err(ApiError::ValidationError), self)
        } else if self.next_vital_sign_id >= i32::MAX {
            (Err(ApiError::CapacityExhausted), self)
        } else {
            let x = vital_sign_row(input, self.next_vital_sign_id as i32, now);
            (Ok(x), self.with_vital_signs(self.vital_signs.push(x), self.next_vital_sign_id + 1))
        }
    }

    /// The vital sign with identifier `id`.
    pub open spec fn get_vital_sign_result(self, id: i32) -> Result<VitalSign, ApiError> {
        if contains_key(self.vital_signs, id) {
            Ok(self.vital_signs[key_index(self.vital_signs, id)])
        } else {
            Err(ApiError::NotFound)
        }
    }

    /// The vital signs of encounter `encounter_id`, in order of creation.
    pub open spec fn list_vital_signs_result(self, encounter_id: i32) -> Result<Seq<VitalSign>, ApiError> {
        if contains_key(self.encounters, encounter_id) {
            Ok(children_of(self.vital_signs, encounter_id))
        } else {
            Err(ApiError::NotFound)
        }
    }

    /// Result and new state of replacing vital sign `id` by `input`; its creation
    /// time is kept.
    pub open spec fn update_vital_sign_result(self, id: i32, input: NewVitalSign) -> (
        Result<VitalSign, ApiError>,
        StoreView,
    ) {
        if !input.valid() {
            (Err(ApiError::ValidationError), self)
        } else if !contains_key(self.vital_signs, id) {
            (Err(ApiError::NotFound), self)
        } else if !contains_key(self.encounters, input.encounter_id) {
            (Err(ApiError::NotFound), self)
        } else if !recorded_near(
            input.recorded_at,
            self.encounters[key_index(self.encounters, input.encounter_id)],
        ) {
            (Err(ApiError::ValidationError), self)
        } else {
            let k = key_index(self.vital_signs, id);
            let x = vital_sign_row(input, id, self.vital_signs[k].created_at);
            (Ok(x), self.with_vital_signs(self.vital_signs.update(k, x), self.next_vital_sign_id))
        }
    }

    /// Result and new state of deleting vital sign `id`.
    pub open spec fn delete_vital_sign_result(self, id: i32) -> (Result<(), ApiError>, StoreView) {
        if !contains_key(self.vital_signs, id) {
            (Err(ApiError::NotFound), self)
        } else {
            (Ok(()), self.with_vital_signs(self.vital_signs.remove(key_index(self.vital_signs, id)), self.next_vital_sign_id))
        }
    }

    /// Result and new state of creating a diagnosis from `input` at time `now`.
    pub open spec fn create_diagnosis_result(self, input: NewDiagnosis, now: Timestamp) -> (
        Result<Diagnosis, ApiError>,
        StoreView,
    ) {
        if !input.valid() {
            (Err(ApiError::ValidationError), self)
        } else if !contains_key(self.encounters, input.encounter_id) {
            (Err(ApiError::NotFound), self)
        } else if self.next_diagnosis_id >= i32::MAX {
            (Err(ApiError::CapacityExhausted), self)
        } else {
            let x = diagnosis_row(input, self.next_diagnosis_id as i32, now);
            (Ok(x), self.with_diagnoses(self.diagnoses.push(x), self.next_diagnosis_id + 1))
        }
    }

    /// The diagnosis with identifier `id`.
    pub open spec fn get_diagnosis_result(self, id: i32) -> Result<Diagnosis, ApiError> {
        if contains_key(self.diagnoses, id) {
            Ok(self.diagnoses[key_index(self.diagnoses, id)])
        } else {
            Err(ApiError::NotFound)
        }
    }

    /// The diagnoses of encounter `encounter_id`, in order of creation.
    pub open spec fn list_diagnoses_result(self, encounter_id: i32) -> Result<Seq<Diagnosis>, ApiError> {
        if contains_key(self.encounters, encounter_id) {
            Ok(children_of(self.diagnoses, encounter_id))
        } else {
            Err(ApiError::NotFound)
        }
    }

    /// Result and new state of replacing diagnosis `id` by `input`; its creation
    /// time is kept.
    pub open spec fn update_diagnosis_result(self, id: i32, input: NewDiagnosis) -> (
        Result<Diagnosis, ApiError>,
        StoreView,
    ) {
        if !input.valid() {
            (Err(ApiError::ValidationError), self)
        } else if !contains_key(self.diagnoses, id) {
            (Err(ApiError::NotFound), self)
        } else if !contains_key(self.encounters, input.encounter_id) {
            (Err(ApiError::NotFound), self)
        } else {
            let k = key_index(self.diagnoses, id);
            let x = diagnosis_row(input, id, self.diagnoses[k].created_at);
            (Ok(x), self.with_diagnoses(self.diagnoses.update(k, x), self.next_diagnosis_id))
        }
    }

    /// Result and new state of deleting diagnosis `id`.
    pub open spec fn delete_diagnosis_result(self, id: i32) -> (Result<(), ApiError>, StoreView) {
        if !contains_key(self.diagnoses, id) {
            (Err(ApiError::NotFound), self)
        } else {
            (Ok(()), self.with_diagnoses(self.diagnoses.remove(key_index(self.diagnoses, id)), self.next_diagnosis_id))
        }
    }

    /// Result and new state of creating a treatment from `input` at time `now`.
    pub open spec fn create_treatment_result(self, input: NewTreatment, now: Timestamp) -> (
        Result<Treatment, ApiError>,
        StoreView,
    ) {
        if !input.valid() {
            (Err(ApiError::ValidationError), self)
        } else if !contains_key(self.encounters, input.encounter_id) {
            (Err(ApiError::NotFound), self)
        } else if self.next_treatment_id >= i32::MAX {
            (Err(ApiError::CapacityExhausted), self)
        } else {
            let x = treatment_row(input, self.next_treatment_id as i32, now);
            (Ok(x), self.with_treatments(self.treatments.push(x), self.next_treatment_id + 1))
        }
    }

    /// The treatment with identifier `id`.
    pub open spec fn get_treatment_result(self, id: i32) -> Result<Treatment, ApiError> {
        if contains_key(self.treatments, id) {
            Ok(self.treatments[key_index(self.treatments, id)])
        } else {
            Err(ApiError::NotFound)
        }
    }

    /// The treatments of encounter `encounter_id`, in order of creation.
    pub open spec fn list_treatments_result(self, encounter_id: i32) -> Result<Seq<Treatment>, ApiError> {
        if contains_key(self.encounters, encounter_id) {
            Ok(children_of(self.treatments, encounter_id))
        } else {
            Err(ApiError::NotFound)
        }
    }

    /// Result and new state of replacing treatment `id` by `input`; its creation
    /// time is kept.
    pub open spec fn update_treatment_result(self, id: i32, input: NewTreatment) -> (
        Result<Treatment, ApiError>,
        StoreView,
    ) {
        if !input.valid() {
            (Err(ApiError::ValidationError), self)
        } else if !contains_key(self.treatments, id) {
            (Err(ApiError::NotFound), self)
        } else if !contains_key(self.encounters, input.encounter_id) {
            (Err(ApiError::NotFound), self)
        } else {
            let k = key_index(self.treatments, id);
            let x = treatment_row(input, id, self.treatments[k].created_at);
            (Ok(x), self.with_treatments(self.treatments.update(k, x), self.next_treatment_id))
        }
    }

    /// Result and new state of deleting treatment `id`.
    pub open spec fn delete_treatment_result(self, id: i32) -> (Result<(), ApiError>, StoreView) {
        if !contains_key(self.treatments, id) {
            (Err(ApiError::NotFound), self)
        } else {
            (Ok(()), self.with_treatments(self.treatments.remove(key_index(self.treatments, id)), self.next_treatment_id))
        }
    }
}

/// The store. Each table is kept in order of creation.
pub struct RecordStore {
    patients: Vec<Patient>,
    encounters: Vec<Encounter>,
    vital_signs: Vec<VitalSign>,
    diagnoses: Vec<Diagnosis>,
    treatments: Vec<Treatment>,
    next_patient_id: i32,
    next_encounter_id: i32,
    next_vital_sign_id: i32,
    next_diagnosis_id: i32,
    next_treatment_id: i32,
}

impl View for RecordStore {
    type V = StoreView;

    closed spec fn view(&self) -> StoreView {
        StoreView {
            patients: self.patients@,
            encounters: self.encounters@,
            vital_signs: self.vital_signs@,
            diagnoses: self.diagnoses@,
            treatments: self.treatments@,
            next_patient_id: self.next_patient_id as int,
            next_encounter_id: self.next_encounter_id as int,
            next_vital_sign_id: self.next_vital_sign_id as int,
            next_diagnosis_id: self.next_diagnosis_id as int,
            next_treatment_id: self.next_treatment_id as int,
        }
    }
}

proof fn lemma_ext_unique_push(s: Seq<Patient>, next: int, p: Patient)
    requires
        ext_ids_unique(s),
        table_ok(s, next),
        !ext_id_taken(s, text_view(p.fhir_id), 0),
    ensures
        ext_ids_unique(s.push(p)),
{
    let t = s.push(p);
    assert forall|i: int, j: int|
        0 <= i < t.len() && 0 <= j < t.len() && i != j && t[i].fhir_id is Some implies
        #[trigger] text_view(t[i].fhir_id) != #[trigger] text_view(t[j].fhir_id) by {
        if i < s.len() && j < s.len() {
            assert(t[i] == s[i] && t[j] == s[j]);
        } else if i < s.len() {
            assert(t[i] == s[i] && s[i].key() > 0);
        } else {
            assert(t[j] == s[j] && s[j].key() > 0);
        }
    }
}

proof fn lemma_ext_unique_update(s: Seq<Patient>, k: int, p: Patient)
    requires
        ext_ids_unique(s),
        keys_ordered(s),
        0 <= k < s.len(),
        p.id == s[k].id,
        !ext_id_taken(s, text_view(p.fhir_id), p.id),
    ensures
        ext_ids_unique(s.update(k, p)),
{
    let t = s.update(k, p);
    assert forall|i: int, j: int|
        0 <= i < t.len() && 0 <= j < t.len() && i != j && t[i].fhir_id is Some implies
        #[trigger] text_view(t[i].fhir_id) != #[trigger] text_view(t[j].fhir_id) by {
        if i != k && j != k {
            assert(t[i] == s[i] && t[j] == s[j]);
        } else if i != k {
            assert(t[i] == s[i]);
            assert(s[i].key() != s[k].key());
        } else {
            assert(t[j] == s[j]);
            assert(s[j].key() != s[k].key());
        }
    }
}

proof fn lemma_ext_unique_remove(s: Seq<Patient>, k: int)
    requires
        ext_ids_unique(s),
        0 <= k < s.len(),
    ensures
        ext_ids_unique(s.remove(k)),
{
    let t = s.remove(k);
    assert forall|i: int, j: int|
        0 <= i < t.len() && 0 <= j < t.len() && i != j && t[i].fhir_id is Some implies
        #[trigger] text_view(t[i].fhir_id) != #[trigger] text_view(t[j].fhir_id) by {
        let a = if i < k { i } else { i + 1 };
        let b = if j < k { j } else { j + 1 };
        assert(t[i] == s[a]);
        assert(t[j] == s[b]);
    }
}

impl RecordStore {
    /// An empty store.
    pub fn new() -> (r: RecordStore)
        ensures
            r@.wf(),
            r@.patients.len() == 0,
            r@.encounters.len() == 0,
            r@.vital_signs.len() == 0,
            r@.diagnoses.len() == 0,
            r@.treatments.len() == 0,
    {
        RecordStore {
            patients: Vec::new(),
            encounters: Vec::new(),
            vital_signs: Vec::new(),
            diagnoses: Vec::new(),
            treatments: Vec::new(),
            next_patient_id: 1,
            next_encounter_id: 1,
            next_vital_sign_id: 1,
            next_diagnosis_id: 1,
            next_treatment_id: 1,
        }
    }

    /// Whether a patient other than `except` carries the external identifier `ext`.
    fn ext_id_in_use(&self, ext: &Option<String>, except: i32) -> (r: bool)
        ensures
            r == ext_id_taken(self@.patients, text_view(*ext), except),
    {
        match ext {
            None => false,
            Some(e) => {
                let mut i: usize = 0;
                while i < self.patients.len()
                    invariant
                        0 <= i <= self.patients@.len(),
                        *ext == Some(*e),
                        forall|k: int|
                            0 <= k < i ==> !(self.patients@[k].id != except && #[trigger] text_view(
                                self.patients@[k].fhir_id,
                            ) == Some(e@)),
                    decreases self.patients@.len() - i,
                {
                    let p = &self.patients[i];
                    if p.id != except {
                        match &p.fhir_id {
                            Some(f) => {
                                if *f == *e {
                                    assert(text_view(self.patients@[i as int].fhir_id) == text_view(
                                        *ext,
                                    ));
                                    return true;
                                }
                            },
                            None => {},
                        }
                    }
                    i += 1;
                }
                false
            },
        }
    }

    /// Stores a new patient made from `input`, created and updated at `now`.
    pub fn create_patient(&mut self, input: NewPatient, now: Timestamp) -> (r: Result<
        Patient,
        ApiError,
    >)
        requires
            old(self)@.wf(),
        ensures
            final(self)@.wf(),
            (r, final(self)@) == old(self)@.create_patient_result(input, now),
    {
        if !input.check() {
            return Err(ApiError::ValidationError);
        }
        if self.ext_id_in_use(&input.fhir_id, 0) {
            return Err(ApiError::Conflict);
        }
        if self.next_patient_id == i32::MAX {
            return Err(ApiError::CapacityExhausted);
        }
        let id = self.next_patient_id;
        let row = Patient::from_input(input, id, now, now);
        let out = row.duplicate();
        proof {
            lemma_table_push(self@.patients, self@.next_patient_id, row);
            lemma_refs_parent_push(self@.encounters, self@.patients, row);
            lemma_ext_unique_push(self@.patients, self@.next_patient_id, row);
        }
        self.patients.push(row);
        self.next_patient_id = id + 1;
        Ok(out)
    }

    /// The patient with identifier `id`.
    pub fn get_patient(&self, id: i32) -> (r: Result<Patient, ApiError>)
        requires
            self@.wf(),
        ensures
            r == self@.get_patient_result(id),
    {
        match find_index(&self.patients, id) {
            Some(k) => Ok(self.patients[k].duplicate()),
            None => Err(ApiError::NotFound),
        }
    }

    /// Replaces the mutable fields of patient `id` by `input`; the creation
    /// time is kept and the update time becomes `now`.
    pub fn update_patient(&mut self, id: i32, input: NewPatient, now: Timestamp) -> (r: Result<
        Patient,
        ApiError,
    >)
        requires
            old(self)@.wf(),
        ensures
            final(self)@.wf(),
            (r, final(self)@) == old(self)@.update_patient_result(id, input, now),
    {
        if !input.check() {
            return Err(ApiError::ValidationError);
        }
        let k = match find_index(&self.patients, id) {
            Some(k) => k,
            None => {
                return Err(ApiError::NotFound);
            },
        };
        if self.ext_id_in_use(&input.fhir_id, id) {
            return Err(ApiError::Conflict);
        }
        let created_at = self.patients[k].created_at;
        let row = Patient::from_input(input, id, created_at, now);
        let out = row.duplicate();
        proof {
            lemma_table_update(self@.patients, self@.next_patient_id, k as int, row);
            lemma_refs_parent_update(self@.encounters, self@.patients, k as int, row);
            lemma_ext_unique_update(self@.patients, k as int, row);
        }
        self.patients.set(k, row);
        Ok(out)
    }

    /// Deletes patient `id`, which must own no encounter.
    pub fn delete_patient(&mut self, id: i32) -> (r: Result<(), ApiError>)
        requires
            old(self)@.wf(),
        ensures
            final(self)@.wf(),
            (r, final(self)@) == old(self)@.delete_patient_result(id),
    {
        let k = match find_index(&self.patients, id) {
            Some(k) => k,
            None => {
                return Err(ApiError::NotFound);
            },
        };
        if any_child(&self.encounters, id) {
            return Err(ApiError::Conflict);
        }
        proof {
            lemma_table_remove(self@.patients, self@.next_patient_id, k as int);
            lemma_refs_parent_remove(self@.encounters, self@.patients, k as int);
            lemma_ext_unique_remove(self@.patients, k as int);
        }
        self.patients.remove(k);
        Ok(())
    }

    /// Stores a new encounter made from `input`, created and updated at `now`.
    pub fn create_encounter(&mut self, input: NewEncounter, now: Timestamp) -> (r: Result<
        Encounter,
        ApiError,
    >)
        requires
            old(self)@.wf(),
        ensures
            final(self)@.wf(),
            (r, final(self)@) == old(self)@.create_encounter_result(input, now),
    {
        if !input.check() {
            return Err(ApiError::ValidationError);
        }
        if find_index(&self.patients, input.patient_id).is_none() {
            return Err(ApiError::NotFound);
        }
        if self.next_encounter_id == i32::MAX {
            return Err(ApiError::CapacityExhausted);
        }
        let id = self.next_encounter_id;
        let row = Encounter::from_input(input, id, now, now);
        let out = row.duplicate();
        proof {
            lemma_table_push(self@.encounters, self@.next_encounter_id, row);
            lemma_refs_child_push(self@.encounters, self@.patients, row);
            lemma_refs_parent_push(self@.vital_signs, self@.encounters, row);
            lemma_refs_parent_push(self@.diagnoses, self@.encounters, row);
            lemma_refs_parent_push(self@.treatments, self@.encounters, row);
        }
        self.encounters.push(row);
        self.next_encounter_id = id + 1;
        Ok(out)
    }

    /// The encounter with identifier `id`.
    pub fn get_encounter(&self, id: i32) -> (r: Result<Encounter, ApiError>)
        requires
            self@.wf(),
        ensures
            r == self@.get_encounter_result(id),
    {
        match find_index(&self.encounters, id) {
            Some(k) => Ok(self.encounters[k].duplicate()),
            None => Err(ApiError::NotFound),
        }
    }

    /// The encounters of patient `patient_id`, in order of creation.
    pub fn list_encounters(&self, patient_id: i32) -> (r: Result<Vec<Encounter>, ApiError>)
        requires
            self@.wf(),
        ensures
            match r {
                Ok(v) => self@.list_encounters_result(patient_id) == Ok::<Seq<Encounter>, ApiError>(v@),
                Err(e) => self@.list_encounters_result(patient_id) == Err::<Seq<Encounter>, ApiError>(e),
            },
    {
        if find_index(&self.patients, patient_id).is_none() {
            return Err(ApiError::NotFound);
        }
        Ok(collect_children(&self.encounters, patient_id))
    }

    /// Replaces the mutable fields of encounter `id` by `input`; the creation
    /// time is kept and the update time becomes `now`.
    pub fn update_encounter(&mut self, id: i32, input: NewEncounter, now: Timestamp) -> (r: Result<
        Encounter,
        ApiError,
    >)
        requires
            old(self)@.wf(),
        ensures
            final(self)@.wf(),
            (r, final(self)@) == old(self)@.update_encounter_result(id, input, now),
    {
        if !input.check() {
            return Err(ApiError::ValidationError);
        }
        let k = match find_index(&self.encounters, id) {
            Some(k) => k,
            None => {
                return Err(ApiError::NotFound);
            },
        };
        if find_index(&self.patients, input.patient_id).is_none() {
            return Err(ApiError::NotFound);
        }
        let created_at = self.encounters[k].created_at;
        let row = Encounter::from_input(input, id, created_at, now);
        let out = row.duplicate();
        proof {
            lemma_table_update(self@.encounters, self@.next_encounter_id, k as int, row);
            lemma_refs_child_update(self@.encounters, self@.patients, k as int, row);
            lemma_refs_parent_update(self@.vital_signs, self@.encounters, k as int, row);
            lemma_refs_parent_update(self@.diagnoses, self@.encounters, k as int, row);
            lemma_refs_parent_update(self@.treatments, self@.encounters, k as int, row);
        }
        self.encounters.set(k, row);
        Ok(out)
    }

    /// Deletes encounter `id`, which must own no vital sign, diagnosis or treatment.
    pub fn delete_encounter(&mut self, id: i32) -> (r: Result<(), ApiError>)
        requires
            old(self)@.wf(),
        ensures
            final(self)@.wf(),
            (r, final(self)@) == old(self)@.delete_encounter_result(id),
    {
        let k = match find_index(&self.encounters, id) {
            Some(k) => k,
            None => {
                return Err(ApiError::NotFound);
            },
        };
        if any_child(&self.vital_signs, id) || any_child(&self.diagnoses, id) || any_child(
            &self.treatments,
            id,
        ) {
            return Err(ApiError::Conflict);
        }
        proof {
            lemma_table_remove(self@.encounters, self@.next_encounter_id, k as int);
            lemma_refs_child_remove(self@.encounters, self@.patients, k as int);
            lemma_refs_parent_remove(self@.vital_signs, self@.encounters, k as int);
            lemma_refs_parent_remove(self@.diagnoses, self@.encounters, k as int);
            lemma_refs_parent_remove(self@.treatments, self@.encounters, k as int);
        }
        self.encounters.remove(k);
        Ok(())
    }

    /// Stores a new vital sign made from `input`, created at `now`.
    pub fn create_vital_sign(&mut self, input: NewVitalSign, now: Timestamp) -> (r: Result<VitalSign, ApiError>)
        requires
            old(self)@.wf(),
        ensures
            final(self)@.wf(),
            (r, final(self)@) == old(self)@.create_vital_sign_result(input, now),
    {
        if !input.check() {
            return Err(ApiError::ValidationError);
        }
        let ek = match find_index(&self.encounters, input.encounter_id) {
            Some(ek) => ek,
            None => {
                return Err(ApiError::NotFound);
            },
        };
        if !recorded_near_check(&input.recorded_at, &self.encounters[ek]) {
            return Err(ApiError::ValidationError);
        }
        if self.next_vital_sign_id == i32::MAX {
            return Err(ApiError::CapacityExhausted);
        }
        let id = self.next_vital_sign_id;
        let row = VitalSign::from_input(input, id, now);
        let out = row.duplicate();
        proof {
            lemma_table_push(self@.vital_signs, self@.next_vital_sign_id, row);
            lemma_refs_child_push(self@.vital_signs, self@.encounters, row);
        }
        self.vital_signs.push(row);
        self.next_vital_sign_id = id + 1;
        Ok(out)
    }

    /// The vital sign with identifier `id`.
    pub fn get_vital_sign(&self, id: i32) -> (r: Result<VitalSign, ApiError>)
        requires
            self@.wf(),
        ensures
            r == self@.get_vital_sign_result(id),
    {
        match find_index(&self.vital_signs, id) {
            Some(k) => Ok(self.vital_signs[k].duplicate()),
            None => Err(ApiError::NotFound),
        }
    }

    /// The vital signs of encounter `encounter_id`, in order of creation.
    pub fn list_vital_signs(&self, encounter_id: i32) -> (r: Result<Vec<VitalSign>, ApiError>)
        requires
            self@.wf(),
        ensures
            match r {
                Ok(v) => self@.list_vital_signs_result(encounter_id) == Ok::<Seq<VitalSign>, ApiError>(v@),
                Err(e) => self@.list_vital_signs_result(encounter_id) == Err::<Seq<VitalSign>, ApiError>(e),
            },
    {
        if find_index(&self.encounters, encounter_id).is_none() {
            return Err(ApiError::NotFound);
        }
        Ok(collect_children(&self.vital_signs, encounter_id))
    }

    /// Replaces the fields of vital sign `id` by `input`; the creation time is kept.
    pub fn update_vital_sign(&mut self, id: i32, input: NewVitalSign) -> (r: Result<VitalSign, ApiError>)
        requires
            old(self)@.wf(),
        ensures
            final(self)@.wf(),
            (r, final(self)@) == old(self)@.update_vital_sign_result(id, input),
    {
        if !input.check() {
            return Err(ApiError::ValidationError);
        }
        let k = match find_index(&self.vital_signs, id) {
            Some(k) => k,
            None => {
                return Err(ApiError::NotFound);
            },
        };
        let ek = match find_index(&self.encounters, input.encounter_id) {
            Some(ek) => ek,
            None => {
                return Err(ApiError::NotFound);
            },
        };
        if !recorded_near_check(&input.recorded_at, &self.encounters[ek]) {
            return Err(ApiError::ValidationError);
        }
        let created_at = self.vital_signs[k].created_at;
        let row = VitalSign::from_input(input, id, created_at);
        let out = row.duplicate();
        proof {
            lemma_table_update(self@.vital_signs, self@.next_vital_sign_id, k as int, row);
            lemma_refs_child_update(self@.vital_signs, self@.encounters, k as int, row);
        }
        self.vital_signs.set(k, row);
        Ok(out)
    }

    /// Deletes vital sign `id`.
    pub fn delete_vital_sign(&mut self, id: i32) -> (r: Result<(), ApiError>)
        requires
            old(self)@.wf(),
        ensures
            final(self)@.wf(),
            (r, final(self)@) == old(self)@.delete_vital_sign_result(id),
    {
        let k = match find_index(&self.vital_signs, id) {
            Some(k) => k,
            None => {
                return Err(ApiError::NotFound);
            },
        };
        proof {
            lemma_table_remove(self@.vital_signs, self@.next_vital_sign_id, k as int);
            lemma_refs_child_remove(self@.vital_signs, self@.encounters, k as int);
        }
        self.vital_signs.remove(k);
        Ok(())
    }

    /// Stores a new diagnosis made from `input`, created at `now`.
    pub fn create_diagnosis(&mut self, input: NewDiagnosis, now: Timestamp) -> (r: Result<Diagnosis, ApiError>)
        requires
            old(self)@.wf(),
        ensures
            final(self)@.wf(),
            (r, final(self)@) == old(self)@.create_diagnosis_result(input, now),
    {
        if !input.check() {
            return Err(ApiError::ValidationError);
        }
        if find_index(&self.encounters, input.encounter_id).is_none() {
            return Err(ApiError::NotFound);
        }
        if self.next_diagnosis_id == i32::MAX {
            return Err(ApiError::CapacityExhausted);
        }
        let id = self.next_diagnosis_id;
        let row = Diagnosis::from_input(input, id, now);
        let out = row.duplicate();
        proof {
            lemma_table_push(self@.diagnoses, self@.next_diagnosis_id, row);
            lemma_refs_child_push(self@.diagnoses, self@.encounters, row);
        }
        self.diagnoses.push(row);
        self.next_diagnosis_id = id + 1;
        Ok(out)
    }

    /// The diagnosis with identifier `id`.
    pub fn get_diagnosis(&self, id: i32) -> (r: Result<Diagnosis, ApiError>)
        requires
            self@.wf(),
        ensures
            r == self@.get_diagnosis_result(id),
    {
        match find_index(&self.diagnoses, id) {
            Some(k) => Ok(self.diagnoses[k].duplicate()),
            None => Err(ApiError::NotFound),
        }
    }

    /// The diagnoses of encounter `encounter_id`, in order of creation.
    pub fn list_diagnoses(&self, encounter_id: i32) -> (r: Result<Vec<Diagnosis>, ApiError>)
        requires
            self@.wf(),
        ensures
            match r {
                Ok(v) => self@.list_diagnoses_result(encounter_id) == Ok::<Seq<Diagnosis>, ApiError>(v@),
                Err(e) => self@.list_diagnoses_result(encounter_id) == Err::<Seq<Diagnosis>, ApiError>(e),
            },
    {
        if find_index(&self.encounters, encounter_id).is_none() {
            return Err(ApiError::NotFound);
        }
        Ok(collect_children(&self.diagnoses, encounter_id))
    }

    /// Replaces the fields of diagnosis `id` by `input`; the creation time is kept.
    pub fn update_diagnosis(&mut self, id: i32, input: NewDiagnosis) -> (r: Result<Diagnosis, ApiError>)
        requires
            old(self)@.wf(),
        ensures
            final(self)@.wf(),
            (r, final(self)@) == old(self)@.update_diagnosis_result(id, input),
    {
        if !input.check() {
            return Err(ApiError::ValidationError);
        }
        let k = match find_index(&self.diagnoses, id) {
            Some(k) => k,
            None => {
                return Err(ApiError::NotFound);
            },
        };
        if find_index(&self.encounters, input.encounter_id).is_none() {
            return Err(ApiError::NotFound);
        }
        let created_at = self.diagnoses[k].created_at;
        let row = Diagnosis::from_input(input, id, created_at);
        let out = row.duplicate();
        proof {
            lemma_table_update(self@.diagnoses, self@.next_diagnosis_id, k as int, row);
            lemma_refs_child_update(self@.diagnoses, self@.encounters, k as int, row);
        }
        self.diagnoses.set(k, row);
        Ok(out)
    }

    /// Deletes diagnosis `id`.
    pub fn delete_diagnosis(&mut self, id: i32) -> (r: Result<(), ApiError>)
        requires
            old(self)@.wf(),
        ensures
            final(self)@.wf(),
            (r, final(self)@) == old(self)@.delete_diagnosis_result(id),
    {
        let k = match find_index(&self.diagnoses, id) {
            Some(k) => k,
            None => {
                return Err(ApiError::NotFound);
            },
        };
        proof {
            lemma_table_remove(self@.diagnoses, self@.next_diagnosis_id, k as int);
            lemma_refs_child_remove(self@.diagnoses, self@.encounters, k as int);
        }
        self.diagnoses.remove(k);
        Ok(())
    }

    /// Stores a new treatment made from `input`, created at `now`.
    pub fn create_treatment(&mut self, input: NewTreatment, now: Timestamp) -> (r: Result<Treatment, ApiError>)
        requires
            old(self)@.wf(),
        ensures
            final(self)@.wf(),
            (r, final(self)@) == old(self)@.create_treatment_result(input, now),
    {
        if !input.check() {
            return Err(ApiError::ValidationError);
        }
        if find_index(&self.encounters, input.encounter_id).is_none() {
            return Err(ApiError::NotFound);
        }
        if self.next_treatment_id == i32::MAX {
            return Err(ApiError::CapacityExhausted);
        }
        let id = self.next_treatment_id;
        let row = Treatment::from_input(input, id, now);
        let out = row.duplicate();
        proof {
            lemma_table_push(self@.treatments, self@.next_treatment_id, row);
            lemma_refs_child_push(self@.treatments, self@.encounters, row);
        }
        self.treatments.push(row);
        self.next_treatment_id = id + 1;
        Ok(out)
    }

    /// The treatment with identifier `id`.
    pub fn get_treatment(&self, id: i32) -> (r: Result<Treatment, ApiError>)
        requires
            self@.wf(),
        ensures
            r == self@.get_treatment_result(id),
    {
        match find_index(&self.treatments, id) {
            Some(k) => Ok(self.treatments[k].duplicate()),
            None => Err(ApiError::NotFound),
        }
    }

    /// The treatments of encounter `encounter_id`, in order of creation.
    pub fn list_treatments(&self, encounter_id: i32) -> (r: Result<Vec<Treatment>, ApiError>)
        requires
            self@.wf(),
        ensures
            match r {
                Ok(v) => self@.list_treatments_result(encounter_id) == Ok::<Seq<Treatment>, ApiError>(v@),
                Err(e) => self@.list_treatments_result(encounter_id) == Err::<Seq<Treatment>, ApiError>(e),
            },
    {
        if find_index(&self.encounters, encounter_id).is_none() {
            return Err(ApiError::NotFound);
        }
        Ok(collect_children(&self.treatments, encounter_id))
    }

    /// Replaces the fields of treatment `id` by `input`; the creation time is kept.
    pub fn update_treatment(&mut self, id: i32, input: NewTreatment) -> (r: Result<Treatment, ApiError>)
        requires
            old(self)@.wf(),
        ensures
            final(self)@.wf(),
            (r, final(self)@) == old(self)@.update_treatment_result(id, input),
    {
        if !input.check() {
            return Err(ApiError::ValidationError);
        }
        let k = match find_index(&self.treatments, id) {
            Some(k) => k,
            None => {
                return Err(ApiError::NotFound);
            },
        };
        if find_index(&self.encounters, input.encounter_id).is_none() {
            return Err(ApiError::NotFound);
        }
        let created_at = self.treatments[k].created_at;
        let row = Treatment::from_input(input, id, created_at);
        let out = row.duplicate();
        proof {
            lemma_table_update(self@.treatments, self@.next_treatment_id, k as int, row);
            lemma_refs_child_update(self@.treatments, self@.encounters, k as int, row);
        }
        self.treatments.set(k, row);
        Ok(out)
    }

    /// Deletes treatment `id`.
    pub fn delete_treatment(&mut self, id: i32) -> (r: Result<(), ApiError>)
        requires
            old(self)@.wf(),
        ensures
            final(self)@.wf(),
            (r, final(self)@) == old(self)@.delete_treatment_result(id),
    {
        let k = match find_index(&self.treatments, id) {
            Some(k) => k,
            None => {
                return Err(ApiError::NotFound);
            },
        };
        proof {
            lemma_table_remove(self@.treatments, self@.next_treatment_id, k as int);
            lemma_refs_child_remove(self@.treatments, self@.encounters, k as int);
        }
        self.treatments.remove(k);
        Ok(())
    }
}

} // verus!
