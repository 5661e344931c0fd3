//! The clinical entities: a patient owns encounters, and each encounter owns
//! its vital signs, diagnoses and treatments.

use crate::time::{Date, Timestamp};
use vstd::prelude::*;

verus! {

/// A stored row: it has a server-assigned key and can be copied out exactly.
pub trait Record: Sized {
    /// The row's internal identifier.
    spec fn key(&self) -> i32;

    /// The field constraints every stored row of this kind satisfies.
    spec fn well_formed(&self) -> bool;

    fn record_id(&self) -> (r: i32)
        ensures
            r == self.key(),
    ;

    fn duplicate(&self) -> (r: Self)
        ensures
            r == *self,
    ;
}

/// A row that is owned by exactly one parent row.
pub trait ChildRecord: Record {
    /// The identifier of the owning row.
    spec fn parent_key(&self) -> i32;

    fn parent_record_id(&self) -> (r: i32)
        ensures
            r == self.parent_key(),
    ;
}

/// An exact copy of an optional text field.
pub fn copy_text(o: &Option<String>) -> (r: Option<String>)
    ensures
        r == *o,
{
    match o {
        Some(s) => Some(s.clone()),
        None => None,
    }
}

/// Whether the text holds at least one character.
pub fn is_present(s: &String) -> (r: bool)
    ensures
        r == (s@.len() > 0),
{
    !s.as_str().is_empty()
}

/// What an optional text field holds, as characters.
pub open spec fn text_view(o: Option<String>) -> Option<Seq<char>> {
    match o {
        Some(s) => Some(s@),
        None => None,
    }
}

/// A patient's identity record.
#[derive(Debug)]
pub struct Patient {
    pub id: i32,
    /// External interoperability identifier; unique among patients when present.
    pub fhir_id: Option<String>,
    pub first_name: String,
    pub last_name: String,
    pub dob: Date,
    pub gender: Option<String>,
    pub address: Option<String>,
    pub phone: Option<String>,
    pub email: Option<String>,
    pub created_at: Timestamp,
    pub updated_at: Timestamp,
}

/// The caller-supplied fields of a patient.
#[derive(Debug)]
pub struct NewPatient {
    pub fhir_id: Option<String>,
    pub first_name: String,
    pub last_name: String,
    pub dob: Date,
    pub gender: Option<String>,
    pub address: Option<String>,
    pub phone: Option<String>,
    pub email: Option<String>,
}

impl NewPatient {
    /// First and last name are mandatory.
    pub open spec fn valid(&self) -> bool {
        self.first_name@.len() > 0 && self.last_name@.len() > 0
    }

    pub fn check(&self) -> (r: bool)
        ensures
            r == self.valid(),
    {
        is_present(&self.first_name) && is_present(&self.last_name)
    }
}

/// The patient row made from `input`, with its identifier and timestamps.
pub open spec fn patient_row(
    input: NewPatient,
    id: i32,
    created_at: Timestamp,
    updated_at: Timestamp,
) -> Patient {
    Patient {
        id,
        fhir_id: input.fhir_id,
        first_name: input.first_name,
        last_name: input.last_name,
        dob: input.dob,
        gender: input.gender,
        address: input.address,
        phone: input.phone,
        email: input.email,
        created_at,
        updated_at,
    }
}

impl Patient {
    pub fn from_input(input: NewPatient, id: i32, created_at: Timestamp, updated_at: Timestamp) -> (r: Patient)
        ensures
            r == patient_row(input, id, created_at, updated_at),
    {
        Patient {
            id,
            fhir_id: input.fhir_id,
            first_name: input.first_name,
            last_name: input.last_name,
            dob: input.dob,
            gender: input.gender,
            address: input.address,
            phone: input.phone,
            email: input.email,
            created_at,
            updated_at,
        }
    }
}

impl Record for Patient {
    open spec fn key(&self) -> i32 {
        self.id
    }

    open spec fn well_formed(&self) -> bool {
        self.first_name@.len() > 0 && self.last_name@.len() > 0
    }

    fn record_id(&self) -> (r: i32) {
        self.id
    }

    fn duplicate(&self) -> (r: Patient) {
        Patient {
            id: self.id,
            fhir_id: copy_text(&self.fhir_id),
            first_name: self.first_name.clone(),
            last_name: self.last_name.clone(),
            dob: self.dob,
            gender: copy_text(&self.gender),
            address: copy_text(&self.address),
            phone: copy_text(&self.phone),
            email: copy_text(&self.email),
            created_at: self.created_at,
            updated_at: self.updated_at,
        }
    }
}

/// A bounded clinical interaction of one patient.
#[derive(Debug)]
pub struct Encounter {
    pub id: i32,
    pub fhir_id: Option<String>,
    pub patient_id: i32,
    pub encounter_type: Option<String>,
    pub start_time: Timestamp,
    /// When present, at or after `start_time`.
    pub end_time: Option<Timestamp>,
    pub created_at: Timestamp,
    pub updated_at: Timestamp,
}

/// The caller-supplied fields of an encounter.
#[derive(Debug)]
pub struct NewEncounter {
    pub fhir_id: Option<String>,
    pub patient_id: i32,
    pub encounter_type: Option<String>,
    pub start_time: Timestamp,
    pub end_time: Option<Timestamp>,
}

/// An encounter's span is ordered: it does not end before it starts.
pub open spec fn span_ordered(start: Timestamp, end: Option<Timestamp>) -> bool {
    match end {
        Some(e) => e.secs >= start.secs,
        None => true,
    }
}

impl NewEncounter {
    pub open spec fn valid(&self) -> bool {
        span_ordered(self.start_time, self.end_time)
    }

    pub fn check(&self) -> (r: bool)
        ensures
            r == self.valid(),
    {
        match &self.end_time {
            Some(e) => e.at_or_after(&self.start_time),
            None => true,
        }
    }
}

pub open spec fn encounter_row(
    input: NewEncounter,
    id: i32,
    created_at: Timestamp,
    updated_at: Timestamp,
) -> Encounter {
    Encounter {
        id,
        fhir_id: input.fhir_id,
        patient_id: input.patient_id,
        encounter_type: input.encounter_type,
        start_time: input.start_time,
        end_time: input.end_time,
        created_at,
        updated_at,
    }
}

impl Encounter {
    pub fn from_input(input: NewEncounter, id: i32, created_at: Timestamp, updated_at: Timestamp) -> (r: Encounter)
        ensures
            r == encounter_row(input, id, created_at, updated_at),
    {
        Encounter {
            id,
            fhir_id: input.fhir_id,
            patient_id: input.patient_id,
            encounter_type: input.encounter_type,
            start_time: input.start_time,
            end_time: input.end_time,
            created_at,
            updated_at,
        }
    }
}

impl Record for Encounter {
    open spec fn key(&self) -> i32 {
        self.id
    }

    open spec fn well_formed(&self) -> bool {
        span_ordered(self.start_time, self.end_time)
    }

    fn record_id(&self) -> (r: i32) {
        self.id
    }

    fn duplicate(&self) -> (r: Encounter) {
        Encounter {
            id: self.id,
            fhir_id: copy_text(&self.fhir_id),
            patient_id: self.patient_id,
            encounter_type: copy_text(&self.encounter_type),
            start_time: self.start_time,
            end_time: self.end_time,
            created_at: self.created_at,
            updated_at: self.updated_at,
        }
    }
}

impl ChildRecord for Encounter {
    open spec fn parent_key(&self) -> i32 {
        self.patient_id
    }

    fn parent_record_id(&self) -> (r: i32) {
        self.patient_id
    }
}

/// One observation taken during an encounter.
#[derive(Debug)]
pub struct VitalSign {
    pub id: i32,
    pub encounter_id: i32,
    pub recorded_at: Timestamp,
    /// The kind of reading, such as heart rate or blood pressure.
    pub vital_type: String,
    /// The reading as text, so that composite readings such as "120/80" fit.
    pub value: String,
    pub unit: Option<String>,
    pub created_at: Timestamp,
}

/// The caller-supplied fields of a vital sign.
#[derive(Debug)]
pub struct NewVitalSign {
    pub encounter_id: i32,
    pub recorded_at: Timestamp,
    pub vital_type: String,
    pub value: String,
    pub unit: Option<String>,
}

impl NewVitalSign {
    /// The type code and the value are mandatory.
    pub open spec fn valid(&self) -> bool {
        self.vital_type@.len() > 0 && self.value@.len() > 0
    }

    pub fn check(&self) -> (r: bool)
        ensures
            r == self.valid(),
    {
        is_present(&self.vital_type) && is_present(&self.value)
    }
}

pub open spec fn vital_sign_row(input: NewVitalSign, id: i32, created_at: Timestamp) -> VitalSign {
    VitalSign {
        id,
        encounter_id: input.encounter_id,
        recorded_at: input.recorded_at,
        vital_type: input.vital_type,
        value: input.value,
        unit: input.unit,
        created_at,
    }
}

impl VitalSign {
    pub fn from_input(input: NewVitalSign, id: i32, created_at: Timestamp) -> (r: VitalSign)
        ensures
            r == vital_sign_row(input, id, created_at),
    {
        VitalSign {
            id,
            encounter_id: input.encounter_id,
            recorded_at: input.recorded_at,
            vital_type: input.vital_type,
            value: input.value,
            unit: input.unit,
            created_at,
        }
    }
}

impl Record for VitalSign {
    open spec fn key(&self) -> i32 {
        self.id
    }

    open spec fn well_formed(&self) -> bool {
        self.vital_type@.len() > 0 && self.value@.len() > 0
    }

    fn record_id(&self) -> (r: i32) {
        self.id
    }

    fn duplicate(&self) -> (r: VitalSign) {
        VitalSign {
            id: self.id,
            encounter_id: self.encounter_id,
            recorded_at: self.recorded_at,
            vital_type: self.vital_type.clone(),
            value: self.value.clone(),
            unit: copy_text(&self.unit),
            created_at: self.created_at,
        }
    }
}

impl ChildRecord for VitalSign {
    open spec fn parent_key(&self) -> i32 {
        self.encounter_id
    }

    fn parent_record_id(&self) -> (r: i32) {
        self.encounter_id
    }
}

/// A coded finding attached to an encounter.
#[derive(Debug)]
pub struct Diagnosis {
    pub id: i32,
    pub encounter_id: i32,
    /// ICD (or equivalent) code; mandatory.
    pub icd_code: String,
    pub description: Option<String>,
    pub diagnosed_at: Timestamp,
    pub created_at: Timestamp,
}

/// The caller-supplied fields of a diagnosis.
#[derive(Debug)]
pub struct NewDiagnosis {
    pub encounter_id: i32,
    pub icd_code: String,
    pub description: Option<String>,
    pub diagnosed_at: Timestamp,
}

impl NewDiagnosis {
    pub open spec fn valid(&self) -> bool {
        self.icd_code@.len() > 0
    }

    pub fn check(&self) -> (r: bool)
        ensures
            r == self.valid(),
    {
        is_present(&self.icd_code)
    }
}

pub open spec fn diagnosis_row(input: NewDiagnosis, id: i32, created_at: Timestamp) -> Diagnosis {
    Diagnosis {
        id,
        encounter_id: input.encounter_id,
        icd_code: input.icd_code,
        description: input.description,
        diagnosed_at: input.diagnosed_at,
        created_at,
    }
}

impl Diagnosis {
    pub fn from_input(input: NewDiagnosis, id: i32, created_at: Timestamp) -> (r: Diagnosis)
        ensures
            r == diagnosis_row(input, id, created_at),
    {
        Diagnosis {
            id,
            encounter_id: input.encounter_id,
            icd_code: input.icd_code,
            description: input.description,
            diagnosed_at: input.diagnosed_at,
            created_at,
        }
    }
}

impl Record for Diagnosis {
    open spec fn key(&self) -> i32 {
        self.id
    }

    open spec fn well_formed(&self) -> bool {
        self.icd_code@.len() > 0
    }

    fn record_id(&self) -> (r: i32) {
        self.id
    }

    fn duplicate(&self) -> (r: Diagnosis) {
        Diagnosis {
            id: self.id,
            encounter_id: self.encounter_id,
            icd_code: self.icd_code.clone(),
            description: copy_text(&self.description),
            diagnosed_at: self.diagnosed_at,
            created_at: self.created_at,
        }
    }
}

impl ChildRecord for Diagnosis {
    open spec fn parent_key(&self) -> i32 {
        self.encounter_id
    }

    fn parent_record_id(&self) -> (r: i32) {
        self.encounter_id
    }
}

/// A coded procedure or intervention attached to an encounter.
#[derive(Debug)]
pub struct Treatment {
    pub id: i32,
    pub encounter_id: i32,
    /// Procedure code; mandatory.
    pub procedure_code: String,
    pub description: Option<String>,
    pub performed_at: Timestamp,
    pub created_at: Timestamp,
}

/// The caller-supplied fields of a treatment.
#[derive(Debug)]
pub struct NewTreatment {
    pub encounter_id: i32,
    pub procedure_code: String,
    pub description: Option<String>,
    pub performed_at: Timestamp,
}

impl NewTreatment {
    pub open spec fn valid(&self) -> bool {
        self.procedure_code@.len() > 0
    }

    pub fn check(&self) -> (r: bool)
        ensures
            r == self.valid(),
    {
        is_present(&self.procedure_code)
    }
}

pub open spec fn treatment_row(input: NewTreatment, id: i32, created_at: Timestamp) -> Treatment {
    Treatment {
        id,
        encounter_id: input.encounter_id,
        procedure_code: input.procedure_code,
        description: input.description,
        performed_at: input.performed_at,
        created_at,
    }
}

impl Treatment {
    pub fn from_input(input: NewTreatment, id: i32, created_at: Timestamp) -> (r: Treatment)
        ensures
            r == treatment_row(input, id, created_at),
    {
        Treatment {
            id,
            encounter_id: input.encounter_id,
            procedure_code: input.procedure_code,
            description: input.description,
            performed_at: input.performed_at,
            created_at,
        }
    }
}

impl Record for Treatment {
    open spec fn key(&self) -> i32 {
        self.id
    }

    open spec fn well_formed(&self) -> bool {
        self.procedure_code@.len() > 0
    }

    fn record_id(&self) -> (r: i32) {
        self.id
    }

    fn duplicate(&self) -> (r: Treatment) {
        Treatment {
            id: self.id,
            encounter_id: self.encounter_id,
            procedure_code: self.procedure_code.clone(),
            description: copy_text(&self.description),
            performed_at: self.performed_at,
            created_at: self.created_at,
        }
    }
}

impl ChildRecord for Treatment {
    open spec fn parent_key(&self) -> i32 {
        self.encounter_id
    }

    fn parent_record_id(&self) -> (r: i32) {
        self.encounter_id
    }
}

} // verus!
