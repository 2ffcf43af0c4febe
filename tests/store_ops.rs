use meditracker::record::Patient;
use meditracker::store::{first_medication, RecordStore, StoreError};

fn s(text: &str) -> String {
    text.to_string()
}

fn add(store: &mut RecordStore, id: &str, name: &str, age: u32) {
    store.add_patient(s(id), s(name), age, s("F"), s("Flu"));
}

fn ids(store: &RecordStore) -> Vec<String> {
    store.patients().iter().map(|p| p.id.clone()).collect()
}

fn meds(p: &Patient) -> Vec<(String, String)> {
    p.medications.iter().map(|m| (m.name.clone(), m.schedule.clone())).collect()
}

#[test]
fn added_patient_is_listed_once_with_its_fields() {
    let mut store = RecordStore::new();
    add(&mut store, "P1", "Ann", 30);
    store.add_patient(s("P2"), s("Bob"), 42, s("M"), s("Asthma"));
    let listed = store.patients();
    assert_eq!(listed.len(), 2);
    let found: Vec<&Patient> = listed.iter().filter(|p| p.id == "P2").collect();
    assert_eq!(found.len(), 1);
    let p = found[0];
    assert_eq!(p.name, "Bob");
    assert_eq!(p.age, 42);
    assert_eq!(p.gender, "M");
    assert_eq!(p.disease, "Asthma");
    assert!(p.medications.is_empty());
    assert_eq!(ids(&store), vec![s("P1"), s("P2")]);
}

#[test]
fn new_store_is_empty() {
    let store = RecordStore::new();
    assert!(store.patients().is_empty());
}

#[test]
fn removing_unknown_patient_is_not_found_and_changes_nothing() {
    let mut store = RecordStore::new();
    add(&mut store, "P1", "Ann", 30);
    add(&mut store, "P2", "Bob", 40);
    assert_eq!(store.remove_patient(&s("P9")), Err(StoreError::PatientNotFound));
    assert_eq!(ids(&store), vec![s("P1"), s("P2")]);
}

#[test]
fn removing_patient_keeps_order_of_the_rest() {
    let mut store = RecordStore::new();
    add(&mut store, "P1", "Ann", 30);
    add(&mut store, "P2", "Bob", 40);
    add(&mut store, "P3", "Cid", 50);
    assert_eq!(store.remove_patient(&s("P2")), Ok(()));
    assert_eq!(ids(&store), vec![s("P1"), s("P3")]);
}

#[test]
fn medication_for_unknown_patient_is_not_found() {
    let mut store = RecordStore::new();
    add(&mut store, "P1", "Ann", 30);
    assert_eq!(
        store.add_medication(&s("P9"), s("A"), s("8 AM")),
        Err(StoreError::PatientNotFound)
    );
    assert_eq!(ids(&store), vec![s("P1")]);
    assert!(store.patients()[0].medications.is_empty());
}

#[test]
fn add_then_remove_medication_leaves_none() {
    let mut store = RecordStore::new();
    add(&mut store, "P1", "Ann", 30);
    assert_eq!(store.add_medication(&s("P1"), s("A"), s("8 AM")), Ok(()));
    assert_eq!(meds(&store.patients()[0]), vec![(s("A"), s("8 AM"))]);
    assert_eq!(store.remove_medication(&s("P1"), &s("A")), Ok(()));
    assert!(store.patients()[0].medications.is_empty());
}

#[test]
fn removing_medication_takes_the_first_of_that_name() {
    let mut store = RecordStore::new();
    add(&mut store, "P1", "Ann", 30);
    store.add_medication(&s("P1"), s("A"), s("1")).unwrap();
    store.add_medication(&s("P1"), s("B"), s("2")).unwrap();
    store.add_medication(&s("P1"), s("A"), s("3")).unwrap();
    assert_eq!(store.remove_medication(&s("P1"), &s("A")), Ok(()));
    assert_eq!(meds(&store.patients()[0]), vec![(s("B"), s("2")), (s("A"), s("3"))]);
}

#[test]
fn removing_unknown_medication_is_not_found() {
    let mut store = RecordStore::new();
    add(&mut store, "P1", "Ann", 30);
    store.add_medication(&s("P1"), s("A"), s("8 AM")).unwrap();
    assert_eq!(
        store.remove_medication(&s("P1"), &s("Z")),
        Err(StoreError::MedicationNotFound)
    );
    assert_eq!(
        store.remove_medication(&s("P9"), &s("A")),
        Err(StoreError::PatientNotFound)
    );
    assert_eq!(meds(&store.patients()[0]), vec![(s("A"), s("8 AM"))]);
}

#[test]
fn update_changes_only_the_schedule() {
    let mut store = RecordStore::new();
    add(&mut store, "P1", "Ann", 30);
    store.add_medication(&s("P1"), s("A"), s("8 AM")).unwrap();
    store.add_medication(&s("P1"), s("B"), s("2 PM")).unwrap();
    assert_eq!(store.update_medication(&s("P1"), &s("B"), s("9 PM")), Ok(()));
    let p = &store.patients()[0];
    assert_eq!(meds(p), vec![(s("A"), s("8 AM")), (s("B"), s("9 PM"))]);
    assert_eq!(p.id, "P1");
    assert_eq!(p.name, "Ann");
    assert_eq!(p.age, 30);
    assert_eq!(p.gender, "F");
    assert_eq!(p.disease, "Flu");
}

#[test]
fn update_of_unknown_names_is_not_found() {
    let mut store = RecordStore::new();
    add(&mut store, "P1", "Ann", 30);
    store.add_medication(&s("P1"), s("A"), s("8 AM")).unwrap();
    assert_eq!(
        store.update_medication(&s("P1"), &s("Z"), s("x")),
        Err(StoreError::MedicationNotFound)
    );
    assert_eq!(
        store.update_medication(&s("P9"), &s("A"), s("x")),
        Err(StoreError::PatientNotFound)
    );
    assert_eq!(meds(&store.patients()[0]), vec![(s("A"), s("8 AM"))]);
}

#[test]
fn duplicate_ids_affect_only_the_first() {
    let mut store = RecordStore::new();
    add(&mut store, "X", "First", 1);
    add(&mut store, "X", "Second", 2);
    assert_eq!(store.find_patient(&s("X")), Some(0));

    store.add_medication(&s("X"), s("A"), s("8 AM")).unwrap();
    store.add_medication(&s("X"), s("B"), s("2 PM")).unwrap();
    assert_eq!(meds(&store.patients()[0]).len(), 2);
    assert!(store.patients()[1].medications.is_empty());

    store.update_medication(&s("X"), &s("A"), s("noon")).unwrap();
    assert_eq!(meds(&store.patients()[0])[0], (s("A"), s("noon")));
    assert!(store.patients()[1].medications.is_empty());

    store.remove_medication(&s("X"), &s("B")).unwrap();
    assert_eq!(meds(&store.patients()[0]), vec![(s("A"), s("noon"))]);
    assert!(store.patients()[1].medications.is_empty());

    store.remove_patient(&s("X")).unwrap();
    assert_eq!(store.patients().len(), 1);
    assert_eq!(store.patients()[0].name, "Second");
}

#[test]
fn find_patient_misses_unknown_id() {
    let mut store = RecordStore::new();
    add(&mut store, "P1", "Ann", 30);
    assert_eq!(store.find_patient(&s("P2")), None);
    assert_eq!(store.find_patient(&s("P1")), Some(0));
}

#[test]
fn first_medication_finds_the_earliest_match() {
    let mut store = RecordStore::new();
    add(&mut store, "P1", "Ann", 30);
    store.add_medication(&s("P1"), s("B"), s("1")).unwrap();
    store.add_medication(&s("P1"), s("A"), s("2")).unwrap();
    store.add_medication(&s("P1"), s("A"), s("3")).unwrap();
    let ms = &store.patients()[0].medications;
    assert_eq!(first_medication(ms, &s("A")), Some(1));
    assert_eq!(first_medication(ms, &s("C")), None);
}
