use vstd::prelude::*;

verus! {

/// One medication that a patient takes, with a free-text schedule.
pub struct Medication {
    pub name: String,
    pub schedule: String,
}

/// A patient record; it owns its medications.
pub struct Patient {
    pub id: String,
    pub name: String,
    pub age: u32,
    pub gender: String,
    pub disease: String,
    pub medications: Vec<Medication>,
}

/// The mathematical value of a [`Medication`].
pub struct MedicationView {
    pub name: Seq<char>,
    pub schedule: Seq<char>,
}

/// The mathematical value of a [`Patient`].
pub struct PatientView {
    pub id: Seq<char>,
    pub name: Seq<char>,
    pub age: nat,
    pub gender: Seq<char>,
    pub disease: Seq<char>,
    pub medications: Seq<MedicationView>,
}

impl View for Medication {
    type V = MedicationView;

    open spec fn view(&self) -> MedicationView {
        MedicationView { name: self.name@, schedule: self.schedule@ }
    }
}

impl View for Patient {
    type V = PatientView;

    open spec fn view(&self) -> PatientView {
        PatientView {
            id: self.id@,
            name: self.name@,
            age: self.age as nat,
            gender: self.gender@,
            disease: self.disease@,
            medications: self.medications@.map_values(|m: Medication| m@),
        }
    }
}

/// `i` is the position of the first patient in `ps` whose ID is `id`.
pub open spec fn is_first_patient(ps: Seq<PatientView>, id: Seq<char>, i: int) -> bool {
    &&& 0 <= i < ps.len()
    &&& ps[i].id == id
    &&& forall|j: int| 0 <= j < i ==> ps[j].id != id
}

/// No patient in `ps` has the ID `id`.
pub open spec fn no_patient(ps: Seq<PatientView>, id: Seq<char>) -> bool {
    forall|j: int| 0 <= j < ps.len() ==> ps[j].id != id
}

/// `k` is the position of the first medication in `ms` named `name`.
pub open spec fn is_first_medication(ms: Seq<MedicationView>, name: Seq<char>, k: int) -> bool {
    &&& 0 <= k < ms.len()
    &&& ms[k].name == name
    &&& forall|j: int| 0 <= j < k ==> ms[j].name != name
}

/// No medication in `ms` is named `name`.
pub open spec fn no_medication(ms: Seq<MedicationView>, name: Seq<char>) -> bool {
    forall|j: int| 0 <= j < ms.len() ==> ms[j].name != name
}

/// A new patient record, with no medications.
pub open spec fn new_patient(
    id: Seq<char>,
    name: Seq<char>,
    age: nat,
    gender: Seq<char>,
    disease: Seq<char>,
) -> PatientView {
    PatientView { id, name, age, gender, disease, medications: Seq::empty() }
}

/// `p` with `ms` in place of its medications.
pub open spec fn with_medications(p: PatientView, ms: Seq<MedicationView>) -> PatientView {
    PatientView { medications: ms, ..p }
}

/// `ps` after a medication named `name` with schedule `schedule` is appended
/// to the patient at position `i`.
pub open spec fn medication_added(
    ps: Seq<PatientView>,
    i: int,
    name: Seq<char>,
    schedule: Seq<char>,
) -> Seq<PatientView> {
    ps.update(
        i,
        with_medications(ps[i], ps[i].medications.push(MedicationView { name, schedule })),
    )
}

/// `ps` after the medication at position `k` of the patient at position `i`
/// is removed.
pub open spec fn medication_removed(ps: Seq<PatientView>, i: int, k: int) -> Seq<PatientView> {
    ps.update(i, with_medications(ps[i], ps[i].medications.remove(k)))
}

/// `ps` after the medication at position `k` of the patient at position `i`
/// gets the schedule `schedule`.
pub open spec fn schedule_updated(
    ps: Seq<PatientView>,
    i: int,
    k: int,
    schedule: Seq<char>,
) -> Seq<PatientView> {
    ps.update(
        i,
        with_medications(
            ps[i],
            ps[i].medications.update(k, MedicationView { schedule, ..ps[i].medications[k] }),
        ),
    )
}

} // verus!
