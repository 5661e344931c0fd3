use rust_emr::error::ApiError;
use rust_emr::models::{NewDiagnosis, NewEncounter, NewPatient, NewTreatment, NewVitalSign};
use rust_emr::store::RecordStore;
use rust_emr::time::{Date, Timestamp};

fn ts(secs: i64) -> Timestamp {
    Timestamp { secs }
}

fn patient(first: &str, last: &str, fhir: Option<&str>) -> NewPatient {
    NewPatient {
        fhir_id: fhir.map(|s| s.to_string()),
        first_name: first.to_string(),
        last_name: last.to_string(),
        dob: Date { days_from_ce: 726_000 },
        gender: Some("female".to_string()),
        address: Some("1 Main St".to_string()),
        phone: None,
        email: Some("ada@example.org".to_string()),
    }
}

fn encounter(patient_id: i32, start: i64, end: Option<i64>) -> NewEncounter {
    NewEncounter {
        fhir_id: None,
        patient_id,
        encounter_type: Some("outpatient".to_string()),
        start_time: ts(start),
        end_time: end.map(ts),
    }
}

fn vital(encounter_id: i32, at: i64, value: &str) -> NewVitalSign {
    NewVitalSign {
        encounter_id,
        recorded_at: ts(at),
        vital_type: "blood_pressure".to_string(),
        value: value.to_string(),
        unit: Some("mmHg".to_string()),
    }
}

#[test]
fn create_then_get_patient_returns_same_fields() {
    let mut store = RecordStore::new();
    let created = store.create_patient(patient("Ada", "Lovelace", Some("fhir-1")), ts(1000)).unwrap();
    assert_eq!(created.id, 1);
    let got = store.get_patient(created.id).unwrap();
    assert_eq!(got.id, 1);
    assert_eq!(got.fhir_id.as_deref(), Some("fhir-1"));
    assert_eq!(got.first_name, "Ada");
    assert_eq!(got.last_name, "Lovelace");
    assert_eq!(got.dob, Date { days_from_ce: 726_000 });
    assert_eq!(got.gender.as_deref(), Some("female"));
    assert_eq!(got.address.as_deref(), Some("1 Main St"));
    assert_eq!(got.phone, None);
    assert_eq!(got.email.as_deref(), Some("ada@example.org"));
    assert_eq!(got.created_at, ts(1000));
    assert_eq!(got.updated_at, ts(1000));
}

#[test]
fn patient_without_names_is_rejected() {
    let mut store = RecordStore::new();
    let r = store.create_patient(patient("", "Lovelace", None), ts(0));
    assert_eq!(r.unwrap_err(), ApiError::ValidationError);
    let r = store.create_patient(patient("Ada", "", None), ts(0));
    assert_eq!(r.unwrap_err(), ApiError::ValidationError);
    assert_eq!(store.get_patient(1).unwrap_err(), ApiError::NotFound);
}

#[test]
fn get_missing_patient_is_not_found() {
    let store = RecordStore::new();
    assert_eq!(store.get_patient(7).unwrap_err(), ApiError::NotFound);
}

#[test]
fn encounter_for_missing_patient_is_not_found_and_leaves_nothing() {
    let mut store = RecordStore::new();
    let p = store.create_patient(patient("Ada", "Lovelace", None), ts(0)).unwrap();
    let r = store.create_encounter(encounter(p.id + 5, 100, Some(200)), ts(300));
    assert_eq!(r.unwrap_err(), ApiError::NotFound);
    assert_eq!(store.get_encounter(1).unwrap_err(), ApiError::NotFound);
    assert_eq!(store.list_encounters(p.id).unwrap().len(), 0);
    let e = store.create_encounter(encounter(p.id, 100, Some(200)), ts(300)).unwrap();
    assert_eq!(e.id, 1);
}

#[test]
fn encounter_ending_before_start_is_rejected() {
    let mut store = RecordStore::new();
    let p = store.create_patient(patient("Ada", "Lovelace", None), ts(0)).unwrap();
    let r = store.create_encounter(encounter(p.id, 100, Some(99)), ts(300));
    assert_eq!(r.unwrap_err(), ApiError::ValidationError);
    let e = store.create_encounter(encounter(p.id, 100, None), ts(300)).unwrap();
    let r = store.update_encounter(e.id, encounter(p.id, 100, Some(50)), ts(400));
    assert_eq!(r.unwrap_err(), ApiError::ValidationError);
    let kept = store.get_encounter(e.id).unwrap();
    assert_eq!(kept.end_time, None);
    assert_eq!(kept.updated_at, ts(300));
}

#[test]
fn encounter_may_end_when_it_starts() {
    let mut store = RecordStore::new();
    let p = store.create_patient(patient("Ada", "Lovelace", None), ts(0)).unwrap();
    let e = store.create_encounter(encounter(p.id, 100, Some(100)), ts(300)).unwrap();
    assert_eq!(e.end_time, Some(ts(100)));
    assert_eq!(e.patient_id, p.id);
}

#[test]
fn duplicate_external_id_conflicts_and_first_is_kept() {
    let mut store = RecordStore::new();
    let first = store.create_patient(patient("Ada", "Lovelace", Some("ext-9")), ts(10)).unwrap();
    let r = store.create_patient(patient("Grace", "Hopper", Some("ext-9")), ts(20));
    assert_eq!(r.unwrap_err(), ApiError::Conflict);
    let got = store.get_patient(first.id).unwrap();
    assert_eq!(got.first_name, "Ada");
    assert_eq!(got.created_at, ts(10));
    assert_eq!(store.get_patient(first.id + 1).unwrap_err(), ApiError::NotFound);
    let other = store.create_patient(patient("Grace", "Hopper", None), ts(30)).unwrap();
    let r = store.update_patient(other.id, patient("Grace", "Hopper", Some("ext-9")), ts(40));
    assert_eq!(r.unwrap_err(), ApiError::Conflict);
}

#[test]
fn patients_without_external_id_do_not_conflict() {
    let mut store = RecordStore::new();
    store.create_patient(patient("Ada", "Lovelace", None), ts(10)).unwrap();
    let second = store.create_patient(patient("Grace", "Hopper", None), ts(20)).unwrap();
    assert_eq!(second.id, 2);
}

#[test]
fn update_patient_keeps_creation_time_and_own_external_id() {
    let mut store = RecordStore::new();
    let p = store.create_patient(patient("Ada", "Lovelace", Some("ext-1")), ts(10)).unwrap();
    let u = store.update_patient(p.id, patient("Ada", "King", Some("ext-1")), ts(50)).unwrap();
    assert_eq!(u.id, p.id);
    assert_eq!(u.last_name, "King");
    assert_eq!(u.created_at, ts(10));
    assert_eq!(u.updated_at, ts(50));
    assert_eq!(store.get_patient(p.id).unwrap().last_name, "King");
    let r = store.update_patient(99, patient("Ada", "King", None), ts(60));
    assert_eq!(r.unwrap_err(), ApiError::NotFound);
}

#[test]
fn delete_patient_with_encounters_is_refused() {
    let mut store = RecordStore::new();
    let p = store.create_patient(patient("Ada", "Lovelace", None), ts(0)).unwrap();
    let e = store.create_encounter(encounter(p.id, 100, Some(200)), ts(300)).unwrap();
    let v = store.create_vital_sign(vital(e.id, 150, "120/80"), ts(310)).unwrap();
    assert_eq!(store.delete_patient(p.id).unwrap_err(), ApiError::Conflict);
    assert_eq!(store.delete_encounter(e.id).unwrap_err(), ApiError::Conflict);
    assert!(store.get_patient(p.id).is_ok());
    assert!(store.get_encounter(e.id).is_ok());
    assert!(store.get_vital_sign(v.id).is_ok());
    store.delete_vital_sign(v.id).unwrap();
    store.delete_encounter(e.id).unwrap();
    store.delete_patient(p.id).unwrap();
    assert_eq!(store.get_patient(p.id).unwrap_err(), ApiError::NotFound);
    assert_eq!(store.delete_patient(p.id).unwrap_err(), ApiError::NotFound);
}

#[test]
fn identifiers_are_never_reused() {
    let mut store = RecordStore::new();
    let a = store.create_patient(patient("Ada", "Lovelace", None), ts(0)).unwrap();
    store.delete_patient(a.id).unwrap();
    let b = store.create_patient(patient("Grace", "Hopper", None), ts(1)).unwrap();
    assert_eq!(b.id, 2);
    assert_eq!(store.get_patient(1).unwrap_err(), ApiError::NotFound);
}

#[test]
fn list_encounters_in_creation_order() {
    let mut store = RecordStore::new();
    let a = store.create_patient(patient("Ada", "Lovelace", None), ts(0)).unwrap();
    let b = store.create_patient(patient("Grace", "Hopper", None), ts(0)).unwrap();
    assert_eq!(store.list_encounters(a.id).unwrap().len(), 0);
    store.create_encounter(encounter(a.id, 10, None), ts(1)).unwrap();
    store.create_encounter(encounter(b.id, 20, None), ts(2)).unwrap();
    store.create_encounter(encounter(a.id, 30, None), ts(3)).unwrap();
    let list = store.list_encounters(a.id).unwrap();
    assert_eq!(list.len(), 2);
    assert_eq!(list[0].id, 1);
    assert_eq!(list[1].id, 3);
    assert_eq!(list[1].start_time, ts(30));
    assert_eq!(store.list_encounters(b.id + 1).unwrap_err(), ApiError::NotFound);
}

#[test]
fn vital_sign_must_be_near_its_encounter() {
    let mut store = RecordStore::new();
    let p = store.create_patient(patient("Ada", "Lovelace", None), ts(0)).unwrap();
    let e = store.create_encounter(encounter(p.id, 10_000, Some(20_000)), ts(0)).unwrap();
    let r = store.create_vital_sign(vital(e.id, 10_000 - 3601, "72"), ts(1));
    assert_eq!(r.unwrap_err(), ApiError::ValidationError);
    let r = store.create_vital_sign(vital(e.id, 20_000 + 3601, "72"), ts(1));
    assert_eq!(r.unwrap_err(), ApiError::ValidationError);
    let v = store.create_vital_sign(vital(e.id, 10_000 - 3600, "120/80"), ts(1)).unwrap();
    assert_eq!(v.value, "120/80");
    assert!(store.create_vital_sign(vital(e.id, 20_000 + 3600, "72"), ts(1)).is_ok());
    let r = store.create_vital_sign(vital(e.id + 1, 15_000, "72"), ts(1));
    assert_eq!(r.unwrap_err(), ApiError::NotFound);
    let r = store.create_vital_sign(vital(e.id, 15_000, ""), ts(1));
    assert_eq!(r.unwrap_err(), ApiError::ValidationError);
    let list = store.list_vital_signs(e.id).unwrap();
    assert_eq!(list.len(), 2);
    assert_eq!(list[0].id, v.id);
}

#[test]
fn open_encounter_accepts_later_vitals() {
    let mut store = RecordStore::new();
    let p = store.create_patient(patient("Ada", "Lovelace", None), ts(0)).unwrap();
    let e = store.create_encounter(encounter(p.id, 100, None), ts(0)).unwrap();
    let v = store.create_vital_sign(vital(e.id, 1_000_000, "98"), ts(1)).unwrap();
    let u = store.update_vital_sign(v.id, vital(e.id, 200, "99")).unwrap();
    assert_eq!(u.value, "99");
    assert_eq!(u.created_at, ts(1));
}

#[test]
fn diagnoses_need_a_code() {
    let mut store = RecordStore::new();
    let p = store.create_patient(patient("Ada", "Lovelace", None), ts(0)).unwrap();
    let e = store.create_encounter(encounter(p.id, 100, None), ts(0)).unwrap();
    let bad = NewDiagnosis {
        encounter_id: e.id,
        icd_code: String::new(),
        description: None,
        diagnosed_at: ts(150),
    };
    assert_eq!(store.create_diagnosis(bad, ts(1)).unwrap_err(), ApiError::ValidationError);
    let good = NewDiagnosis {
        encounter_id: e.id,
        icd_code: "J45.909".to_string(),
        description: Some("asthma".to_string()),
        diagnosed_at: ts(150),
    };
    let d = store.create_diagnosis(good, ts(2)).unwrap();
    assert_eq!(store.get_diagnosis(d.id).unwrap().icd_code, "J45.909");
    assert_eq!(store.list_diagnoses(e.id).unwrap().len(), 1);
    assert_eq!(store.delete_encounter(e.id).unwrap_err(), ApiError::Conflict);
    store.delete_diagnosis(d.id).unwrap();
    assert_eq!(store.get_diagnosis(d.id).unwrap_err(), ApiError::NotFound);
    assert!(store.delete_encounter(e.id).is_ok());
}

#[test]
fn treatment_update_keeps_creation_time() {
    let mut store = RecordStore::new();
    let p = store.create_patient(patient("Ada", "Lovelace", None), ts(0)).unwrap();
    let e = store.create_encounter(encounter(p.id, 100, None), ts(0)).unwrap();
    let t = store
        .create_treatment(
            NewTreatment {
                encounter_id: e.id,
                procedure_code: "99213".to_string(),
                description: None,
                performed_at: ts(120),
            },
            ts(5),
        )
        .unwrap();
    let u = store
        .update_treatment(
            t.id,
            NewTreatment {
                encounter_id: e.id,
                procedure_code: "99214".to_string(),
                description: Some("follow-up".to_string()),
                performed_at: ts(130),
            },
        )
        .unwrap();
    assert_eq!(u.created_at, ts(5));
    assert_eq!(store.list_treatments(e.id).unwrap()[0].procedure_code, "99214");
    let r = store.update_treatment(
        t.id,
        NewTreatment {
            encounter_id: e.id + 3,
            procedure_code: "99214".to_string(),
            description: None,
            performed_at: ts(130),
        },
    );
    assert_eq!(r.unwrap_err(), ApiError::NotFound);
    let r = store.create_treatment(
        NewTreatment { encounter_id: e.id, procedure_code: String::new(), description: None, performed_at: ts(1) },
        ts(6),
    );
    assert_eq!(r.unwrap_err(), ApiError::ValidationError);
}

#[test]
fn errors_map_to_http_status() {
    assert_eq!(ApiError::ValidationError.status_code(), 400);
    assert_eq!(ApiError::NotFound.status_code(), 404);
    assert_eq!(ApiError::Conflict.status_code(), 409);
    assert_eq!(ApiError::Unauthorized.status_code(), 401);
    assert_eq!(ApiError::TokenExpired.status_code(), 401);
    assert_eq!(ApiError::CapacityExhausted.status_code(), 507);
    assert_eq!(ApiError::ClockOutOfRange.status_code(), 500);
    assert_eq!(ApiError::SigningFailed.status_code(), 500);
}
