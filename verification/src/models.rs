//! The domain model: identifiers, roles, user records, medical folders and
//! medical reports.
//!
//! A medical folder is present exactly for patients; it holds the personal
//! data and the set of doctors currently assigned to the patient. The
//! doctor set has unique members and no meaningful order; it is kept as a
//! vector whose well-formedness predicate states the uniqueness.

use vstd::prelude::*;
use crate::utils::input_validation::AVSNumber;
use crate::utils::input_validation::Username;
use crate::utils::password_utils::PWHash;

verus! {

/// An opaque unique identifier of a user, fixed at account creation.
#[derive(Clone, Copy, PartialEq, Eq, Structural, Debug, Hash)]
pub struct UserID(pub u64);

/// An opaque unique identifier of a medical report, fixed at creation.
#[derive(Clone, Copy, PartialEq, Eq, Structural, Debug, Hash)]
pub struct ReportID(pub u64);

/// The role of a user; it decides which rule group applies to a subject.
#[derive(Clone, Copy, PartialEq, Eq, Structural, Debug)]
pub enum Role {
    Admin,
    Doctor,
    Patient,
}

/// A blood type recorded in a patient's personal data.
#[derive(Clone, Copy, PartialEq, Eq, Structural, Debug)]
pub enum BloodType {
    A,
    B,
    AB,
    O,
}

/// The personal medical data held in a patient's folder.
#[derive(Debug)]
pub struct PersonalData {
    pub avs_number: AVSNumber,
    pub blood_type: BloodType,
}

/// A patient's medical folder: personal data and the set of user ids of
/// the doctors currently assigned to this patient.
#[derive(Debug)]
pub struct MedicalFolder {
    pub personal_data: PersonalData,
    pub doctors: Vec<UserID>,
}

/// A user record. The folder is present exactly when the role is Patient.
#[derive(Debug)]
pub struct UserData {
    pub id: UserID,
    pub role: Role,
    pub username: Username,
    pub password: PWHash,
    pub medical_folder: Option<MedicalFolder>,
}

/// A medical report. The author and the patient are fixed at creation and
/// never reassigned; access to a report is derived from these relations,
/// not from ownership.
#[derive(Debug)]
pub struct MedicalReport {
    pub id: ReportID,
    pub title: String,
    pub author: UserID,
    pub patient: UserID,
    pub content: String,
}

impl UserData {
    /// The record invariant: a medical folder is present exactly when the
    /// role is Patient, and the folder's doctor set holds no member twice.
    pub open spec fn wf(&self) -> bool {
        &&& self.role == Role::Patient <==> self.medical_folder is Some
        &&& match self.medical_folder {
            Option::Some(folder) => folder.wf(),
            Option::None => true,
        }
    }
}

impl MedicalFolder {
    /// The doctor set holds no member twice.
    pub open spec fn wf(&self) -> bool {
        forall|i: int, j: int|
            0 <= i < j < self.doctors@.len() ==> self.doctors@[i] != self.doctors@[j]
    }

    /// Whether the given doctor is currently assigned to this folder.
    pub fn has_doctor(&self, doctor: UserID) -> (r: bool)
        ensures
            r == self.doctors@.contains(doctor),
    {
        let mut i: usize = 0;
        while i < self.doctors.len()
            invariant
                i <= self.doctors@.len(),
                forall|j: int| 0 <= j < i ==> self.doctors@[j] != doctor,
            decreases self.doctors@.len() - i,
        {
            if self.doctors[i] == doctor {
                return true;
            }
            i = i + 1;
        }
        false
    }

    /// Assigns a doctor to this folder; a doctor already assigned is not
    /// added twice.
    pub fn add_doctor(&mut self, doctor: UserID)
        ensures
            final(self).doctors@.contains(doctor),
            forall|d: UserID|
                #[trigger] final(self).doctors@.contains(d) <==> (old(
                    self,
                ).doctors@.contains(d) || d == doctor),
            old(self).wf() ==> final(self).wf(),
            final(self).personal_data == old(self).personal_data,
    {
        proof {
            broadcast use vstd::seq_lib::group_seq_properties;

        }
        if !self.has_doctor(doctor) {
            self.doctors.push(doctor);
        }
    }

    /// Withdraws a doctor from this folder.
    pub fn remove_doctor(&mut self, doctor: UserID)
        requires
            old(self).wf(),
        ensures
            final(self).wf(),
            !final(self).doctors@.contains(doctor),
            forall|d: UserID|
                #[trigger] final(self).doctors@.contains(d) <==> (old(
                    self,
                ).doctors@.contains(d) && d != doctor),
            final(self).personal_data == old(self).personal_data,
    {
        proof {
            broadcast use vstd::seq_lib::group_seq_properties;

        }
        let mut kept: Vec<UserID> = Vec::new();
        let mut i: usize = 0;
        while i < self.doctors.len()
            invariant
                old(self) == self,
                old(self).wf(),
                i <= self.doctors@.len(),
                forall|d: UserID|
                    #[trigger] kept@.contains(d) <==> (self.doctors@.subrange(
                        0,
                        i as int,
                    ).contains(d) && d != doctor),
                forall|k: int, l: int| 0 <= k < l < kept@.len() ==> kept@[k] != kept@[l],
            decreases self.doctors@.len() - i,
        {
            broadcast use vstd::seq_lib::group_seq_properties;

            let c = self.doctors[i];
            proof {
                assert(self.doctors@.subrange(0, i as int + 1) =~= self.doctors@.subrange(
                    0,
                    i as int,
                ).push(c));
                if kept@.contains(c) {
                    let k = choose|k: int|
                        0 <= k < i && self.doctors@.subrange(0, i as int)[k] == c;
                    assert(self.doctors@[k] == c && self.doctors@[i as int] == c);
                }
            }
            if c != doctor {
                kept.push(c);
            }
            i = i + 1;
        }
        proof {
            assert(self.doctors@.subrange(0, self.doctors@.len() as int) =~= self.doctors@);
        }
        self.doctors = kept;
    }
}

} // verus!
