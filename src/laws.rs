//! Facts that relate several operations of the store and of the export.
use vstd::prelude::*;

use crate::export::{
    all_rows_plain, csv_document, csv_record, header_fields, patient_fields, plain_document,
    plain_record,
};
use crate::record::{
    is_first_medication, is_first_patient, medication_added, medication_removed, new_patient,
    schedule_updated, PatientView,
};

verus! {

/// After a patient is added, the list of patients holds that record, with
/// the fields given, at exactly one position (the last), provided no record
/// equal to it was there before; the earlier patients are untouched.
pub proof fn lemma_added_patient_listed_once(
    ps: Seq<PatientView>,
    id: Seq<char>,
    name: Seq<char>,
    age: nat,
    gender: Seq<char>,
    disease: Seq<char>,
)
    requires
        !ps.contains(new_patient(id, name, age, gender, disease)),
    ensures
        ({
            let p = new_patient(id, name, age, gender, disease);
            let after = ps.push(p);
            &&& after[ps.len() as int] == p
            &&& p.id == id && p.name == name && p.age == age && p.gender == gender
            &&& p.disease == disease && p.medications.len() == 0
            &&& forall|j: int| 0 <= j < after.len() && after[j] == p ==> j == ps.len()
            &&& after.take(ps.len() as int) == ps
        }),
{
    let p = new_patient(id, name, age, gender, disease);
    let after = ps.push(p);
    assert forall|j: int| 0 <= j < after.len() && after[j] == p implies j == ps.len() by {
        if j < ps.len() {
            assert(ps[j] == p);
        }
    }
    assert(after.take(ps.len() as int) =~= ps);
}

/// Adding a medication to a patient that has none, then removing the
/// medication of the same name, leaves that patient with no medications and
/// the whole list as it was.
pub proof fn lemma_add_then_remove_medication(
    ps: Seq<PatientView>,
    id: Seq<char>,
    i: int,
    name: Seq<char>,
    schedule: Seq<char>,
)
    requires
        is_first_patient(ps, id, i),
        ps[i].medications.len() == 0,
    ensures
        ({
            let added = medication_added(ps, i, name, schedule);
            &&& is_first_patient(added, id, i)
            &&& is_first_medication(added[i].medications, name, 0)
            &&& medication_removed(added, i, 0)[i].medications.len() == 0
            &&& medication_removed(added, i, 0) == ps
        }),
{
    let added = medication_added(ps, i, name, schedule);
    let removed = medication_removed(added, i, 0);
    assert(removed[i].medications =~= ps[i].medications);
    assert(removed[i] == ps[i]);
    assert(removed =~= ps);
}

/// A schedule update changes the schedule of that one medication: its name,
/// the patient's other fields and medications, and the other patients stay.
pub proof fn lemma_update_changes_only_schedule(
    ps: Seq<PatientView>,
    id: Seq<char>,
    i: int,
    name: Seq<char>,
    k: int,
    schedule: Seq<char>,
)
    requires
        is_first_patient(ps, id, i),
        is_first_medication(ps[i].medications, name, k),
    ensures
        ({
            let after = schedule_updated(ps, i, k, schedule);
            &&& after.len() == ps.len()
            &&& after[i].medications[k].schedule == schedule
            &&& after[i].medications[k].name == ps[i].medications[k].name
            &&& after[i].id == ps[i].id && after[i].name == ps[i].name
            &&& after[i].age == ps[i].age && after[i].gender == ps[i].gender
            &&& after[i].disease == ps[i].disease
            &&& after[i].medications.len() == ps[i].medications.len()
            &&& forall|m: int|
                0 <= m < ps[i].medications.len() && m != k ==> after[i].medications[m]
                    == ps[i].medications[m]
            &&& forall|j: int| 0 <= j < ps.len() && j != i ==> after[j] == ps[j]
        }),
{
}

/// With two patients of the same ID, every operation that looks a patient up
/// by that ID changes the first of them only: the later one stays as it was
/// (after a removal it moves up one place).
pub proof fn lemma_duplicate_ids_first_wins(
    ps: Seq<PatientView>,
    id: Seq<char>,
    i: int,
    j: int,
    name: Seq<char>,
    schedule: Seq<char>,
    k: int,
)
    requires
        is_first_patient(ps, id, i),
        0 <= j < ps.len(),
        ps[j].id == id,
        j != i,
        0 <= k < ps[i].medications.len(),
    ensures
        i < j,
        medication_added(ps, i, name, schedule)[j] == ps[j],
        medication_removed(ps, i, k)[j] == ps[j],
        schedule_updated(ps, i, k, schedule)[j] == ps[j],
        ps.remove(i)[j - 1] == ps[j],
{
}

/// The export of an empty list of patients is the header record alone, and
/// that record is the column names unquoted, separated by commas.
pub proof fn lemma_empty_export_is_header_only()
    ensures
        csv_document(Seq::<PatientView>::empty()) == csv_record(header_fields()),
        all_rows_plain(Seq::<PatientView>::empty()),
        plain_document(Seq::<PatientView>::empty()) == plain_record(header_fields()),
{
    let table = seq![header_fields()] + Seq::<PatientView>::empty().map_values(
        |p: PatientView| patient_fields(p),
    );
    let encoded = table.map_values(|row: Seq<Seq<char>>| csv_record(row));
    assert(encoded =~= seq![csv_record(header_fields())]);
    seq![csv_record(header_fields())].lemma_flatten_one_element();
    let plain = table.map_values(|row: Seq<Seq<char>>| plain_record(row));
    assert(plain =~= seq![plain_record(header_fields())]);
    seq![plain_record(header_fields())].lemma_flatten_one_element();
}

} // verus!
