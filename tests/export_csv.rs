use meditracker::export::{
    decimal_text, export_csv, header_row, join_records, medications_text, patient_row,
};
use meditracker::record::{Medication, Patient};

fn s(text: &str) -> String {
    text.to_string()
}

fn med(name: &str, schedule: &str) -> Medication {
    Medication { name: s(name), schedule: s(schedule) }
}

fn patient(id: &str, meds: Vec<Medication>) -> Patient {
    Patient {
        id: s(id),
        name: s("Ann"),
        age: 42,
        gender: s("F"),
        disease: s("Flu"),
        medications: meds,
    }
}

fn text(bytes: Vec<u8>) -> String {
    String::from_utf8(bytes).unwrap()
}

#[test]
fn empty_export_is_header_only() {
    assert_eq!(
        text(export_csv(&Vec::new())),
        "Patient ID,Name,Age,Gender,Disease,Medications\n"
    );
}

#[test]
fn two_medications_are_joined() {
    let meds = vec![med("A", "8 AM"), med("B", "2 PM")];
    assert_eq!(medications_text(&meds), "A (8 AM); B (2 PM)");
    let row = patient_row(&patient("P1", meds));
    assert_eq!(row[5], "A (8 AM); B (2 PM)");
}

#[test]
fn no_medications_give_an_empty_field() {
    assert_eq!(medications_text(&Vec::new()), "");
}

#[test]
fn one_medication_has_no_separator() {
    assert_eq!(medications_text(&vec![med("Aspirin", "daily")]), "Aspirin (daily)");
}

#[test]
fn export_writes_one_row_per_patient() {
    let ps = vec![
        patient("P1", vec![med("A", "8 AM"), med("B", "2 PM")]),
        patient("P2", Vec::new()),
    ];
    assert_eq!(
        text(export_csv(&ps)),
        "Patient ID,Name,Age,Gender,Disease,Medications\n\
         P1,Ann,42,F,Flu,A (8 AM); B (2 PM)\n\
         P2,Ann,42,F,Flu,\n"
    );
}

#[test]
fn export_quotes_fields_with_commas_and_quotes() {
    let mut p = patient("P1", vec![med("A", "8 AM, 2 PM")]);
    p.name = s("Ann \"Jr\"");
    assert_eq!(
        text(export_csv(&vec![p])),
        "Patient ID,Name,Age,Gender,Disease,Medications\n\
         P1,\"Ann \"\"Jr\"\"\",42,F,Flu,\"A (8 AM, 2 PM)\"\n"
    );
}

#[test]
fn header_row_names_the_columns() {
    assert_eq!(
        header_row(),
        vec![s("Patient ID"), s("Name"), s("Age"), s("Gender"), s("Disease"), s("Medications")]
    );
}

#[test]
fn patient_row_renders_each_field() {
    let row = patient_row(&patient("P7", Vec::new()));
    assert_eq!(row, vec![s("P7"), s("Ann"), s("42"), s("F"), s("Flu"), s("")]);
}

#[test]
fn decimal_text_of_edge_values() {
    assert_eq!(decimal_text(0), "0");
    assert_eq!(decimal_text(7), "7");
    assert_eq!(decimal_text(10), "10");
    assert_eq!(decimal_text(42), "42");
    assert_eq!(decimal_text(4294967295), "4294967295");
}

#[test]
fn join_records_lays_records_end_to_end() {
    assert_eq!(join_records(Vec::new()), Vec::<u8>::new());
    assert_eq!(
        join_records(vec![b"a,b\n".to_vec(), Vec::new(), b"c\n".to_vec()]),
        b"a,b\nc\n".to_vec()
    );
}

#[test]
fn patient_without_medications_ends_with_an_empty_field() {
    let mut p = patient("p1", Vec::new());
    p.age = 7;
    p.gender = s("M");
    assert_eq!(
        text(export_csv(&vec![p])),
        "Patient ID,Name,Age,Gender,Disease,Medications\np1,Ann,7,M,Flu,\n"
    );
}
