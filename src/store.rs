use vstd::prelude::*;

use crate::record::{
    is_first_medication, is_first_patient, medication_added, medication_removed, new_patient,
    no_medication, no_patient, schedule_updated, with_medications, Medication, MedicationView,
    Patient, PatientView,
};

verus! {

/// Why a lookup by patient ID or medication name failed.
#[derive(Debug, PartialEq, Eq, Structural, Clone, Copy)]
pub enum StoreError {
    PatientNotFound,
    MedicationNotFound,
}

/// The ordered collection of patient records, in insertion order.
pub struct RecordStore {
    patients: Vec<Patient>,
}

impl View for RecordStore {
    type V = Seq<PatientView>;

    closed spec fn view(&self) -> Seq<PatientView> {
        self.patients@.map_values(|p: Patient| p@)
    }
}

/// The position of the first medication in `ms` named `name`, if any.
pub fn first_medication(ms: &Vec<Medication>, name: &String) -> (r: Option<usize>)
    ensures
        r matches Some(k) ==> is_first_medication(ms@.map_values(|m: Medication| m@), name@, k as int),
        r is None ==> no_medication(ms@.map_values(|m: Medication| m@), name@),
{
    let ghost view = ms@.map_values(|m: Medication| m@);
    let mut k: usize = 0;
    while k < ms.len()
        invariant
            0 <= k <= ms@.len(),
            view == ms@.map_values(|m: Medication| m@),
            forall|j: int| 0 <= j < k ==> (#[trigger] view[j]).name != name@,
        decreases ms@.len() - k,
    {
        if ms[k].name == *name {
            return Some(k);
        }
        k = k + 1;
    }
    None
}

impl RecordStore {
    /// A store with no patients.
    pub fn new() -> (r: RecordStore)
        ensures
            r@ == Seq::<PatientView>::empty(),
    {
        let r = RecordStore { patients: Vec::new() };
        assert(r@ =~= Seq::<PatientView>::empty());
        r
    }

    /// Appends a new patient with no medications. IDs need not be unique.
    pub fn add_patient(
        &mut self,
        id: String,
        name: String,
        age: u32,
        gender: String,
        disease: String,
    )
        ensures
            final(self)@ == old(self)@.push(new_patient(id@, name@, age as nat, gender@, disease@)),
    {
        let p = Patient { id, name, age, gender, disease, medications: Vec::new() };
        assert(p@.medications =~= Seq::<MedicationView>::empty());
        self.patients.push(p);
        assert(self@ =~= old(self)@.push(new_patient(id@, name@, age as nat, gender@, disease@)));
    }

    /// The patients, in store order.
    pub fn patients(&self) -> (r: &Vec<Patient>)
        ensures
            r@.map_values(|p: Patient| p@) == self@,
    {
        &self.patients
    }

    /// The position of the first patient whose ID is `id`, if any.
    pub fn find_patient(&self, id: &String) -> (r: Option<usize>)
        ensures
            r matches Some(i) ==> is_first_patient(self@, id@, i as int),
            r is None ==> no_patient(self@, id@),
    {
        let mut i: usize = 0;
        while i < self.patients.len()
            invariant
                0 <= i <= self.patients@.len(),
                forall|j: int| 0 <= j < i ==> (#[trigger] self@[j]).id != id@,
            decreases self.patients@.len() - i,
        {
            if self.patients[i].id == *id {
                return Some(i);
            }
            i = i + 1;
        }
        None
    }

    /// Appends a medication to the first patient whose ID is `patient_id`.
    pub fn add_medication(&mut self, patient_id: &String, name: String, schedule: String) -> (r:
        Result<(), StoreError>)
        ensures
            no_patient(old(self)@, patient_id@) ==> r == Err::<(), StoreError>(
                StoreError::PatientNotFound,
            ) && final(self)@ == old(self)@,
            forall|i: int|
                #[trigger] is_first_patient(old(self)@, patient_id@, i) ==> r is Ok && final(self)@
                    == medication_added(old(self)@, i, name@, schedule@),
    {
        match self.find_patient(patient_id) {
            None => Err(StoreError::PatientNotFound),
            Some(i) => {
                let m = Medication { name, schedule };
                let ghost mv = m@;
                self.patients[i].medications.push(m);
                assert(self.patients@[i as int].medications@.map_values(|m: Medication| m@)
                    =~= old(self).patients@[i as int].medications@.map_values(|m: Medication| m@).push(mv));
                assert(forall|j: int| 0 <= j < self.patients@.len() && j != i ==> self.patients@[j]
                    == old(self).patients@[j]);
                assert(self@ =~= old(self)@.update(
                    i as int,
                    with_medications(old(self)@[i as int], old(self)@[i as int].medications.push(m@)),
                ));
                Ok(())
            },
        }
    }

    /// Removes the first medication named `med_name` from the first patient
    /// whose ID is `patient_id`; the other medications keep their order.
    pub fn remove_medication(&mut self, patient_id: &String, med_name: &String) -> (r: Result<
        (),
        StoreError,
    >)
        ensures
            no_patient(old(self)@, patient_id@) ==> r == Err::<(), StoreError>(
                StoreError::PatientNotFound,
            ) && final(self)@ == old(self)@,
            forall|i: int|
                #[trigger] is_first_patient(old(self)@, patient_id@, i) ==> {
                    &&& no_medication(old(self)@[i].medications, med_name@) ==> r == Err::<
                        (),
                        StoreError,
                    >(StoreError::MedicationNotFound) && final(self)@ == old(self)@
                    &&& forall|k: int|
                        #[trigger] is_first_medication(old(self)@[i].medications, med_name@, k)
                            ==> r is Ok && final(self)@ == medication_removed(old(self)@, i, k)
                },
    {
        match self.find_patient(patient_id) {
            None => Err(StoreError::PatientNotFound),
            Some(i) => match first_medication(&self.patients[i].medications, med_name) {
                None => Err(StoreError::MedicationNotFound),
                Some(k) => {
                    let ghost before = self.patients@[i as int].medications@.map_values(
                        |m: Medication| m@,
                    );
                    let _gone = self.patients[i].medications.remove(k);
                    assert(self.patients@[i as int].medications@.map_values(|m: Medication| m@)
                        =~= before.remove(k as int));
                    assert(forall|j: int|
                        0 <= j < self.patients@.len() && j != i ==> self.patients@[j]
                            == old(self).patients@[j]);
                    assert(self@ =~= old(self)@.update(
                        i as int,
                        with_medications(old(self)@[i as int], before.remove(k as int)),
                    ));
                    Ok(())
                },
            },
        }
    }

    /// Sets the schedule of the first medication named `med_name` of the
    /// first patient whose ID is `patient_id`; nothing else changes.
    pub fn update_medication(
        &mut self,
        patient_id: &String,
        med_name: &String,
        new_schedule: String,
    ) -> (r: Result<(), StoreError>)
        ensures
            no_patient(old(self)@, patient_id@) ==> r == Err::<(), StoreError>(
                StoreError::PatientNotFound,
            ) && final(self)@ == old(self)@,
            forall|i: int|
                #[trigger] is_first_patient(old(self)@, patient_id@, i) ==> {
                    &&& no_medication(old(self)@[i].medications, med_name@) ==> r == Err::<
                        (),
                        StoreError,
                    >(StoreError::MedicationNotFound) && final(self)@ == old(self)@
                    &&& forall|k: int|
                        #[trigger] is_first_medication(old(self)@[i].medications, med_name@, k)
                            ==> r is Ok && final(self)@ == schedule_updated(
                            old(self)@,
                            i,
                            k,
                            new_schedule@,
                        )
                },
    {
        match self.find_patient(patient_id) {
            None => Err(StoreError::PatientNotFound),
            Some(i) => match first_medication(&self.patients[i].medications, med_name) {
                None => Err(StoreError::MedicationNotFound),
                Some(k) => {
                    let ghost before = self.patients@[i as int].medications@.map_values(
                        |m: Medication| m@,
                    );
                    let ghost nm = MedicationView { schedule: new_schedule@, ..before[k as int] };
                    self.patients[i].medications[k].schedule = new_schedule;
                    assert(self.patients@[i as int].medications@.map_values(|m: Medication| m@)
                        =~= before.update(k as int, nm));
                    assert(forall|j: int|
                        0 <= j < self.patients@.len() && j != i ==> self.patients@[j]
                            == old(self).patients@[j]);
                    assert(self@ =~= old(self)@.update(
                        i as int,
                        with_medications(old(self)@[i as int], before.update(k as int, nm)),
                    ));
                    Ok(())
                },
            },
        }
    }

    /// Removes the first patient whose ID is `id`, with its medications; the
    /// other patients keep their order.
    pub fn remove_patient(&mut self, id: &String) -> (r: Result<(), StoreError>)
        ensures
            no_patient(old(self)@, id@) ==> r == Err::<(), StoreError>(StoreError::PatientNotFound)
                && final(self)@ == old(self)@,
            forall|i: int|
                #[trigger] is_first_patient(old(self)@, id@, i) ==> r is Ok && final(self)@ == old(
                    self,
                )@.remove(i),
    {
        match self.find_patient(id) {
            None => Err(StoreError::PatientNotFound),
            Some(i) => {
                let _gone = self.patients.remove(i);
                assert(self@ =~= old(self)@.remove(i as int));
                Ok(())
            },
        }
    }
}

} // verus!
