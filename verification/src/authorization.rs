//! The authorization decision engine and the request facade.
//!
//! The rule table of the engine is the spec function [`allowed`]: a closed,
//! statically-typed mapping from the subject's role and the requested
//! action to the granting condition, falling through to deny when no rule
//! matches. The evaluator [`decide`] is proved to return `Allow` exactly
//! when a rule grants the request, so the engine is total, deterministic
//! and fail-closed: a malformed relationship (such as a missing folder on
//! a patient-shaped object) resolves to deny, never to an error.
//!
//! The facade [`Context`] binds one engine reference and one subject
//! reference and exposes one method per action; each builds the action,
//! asks the engine, and surfaces `Ok(())` on allow or the detail-free
//! [`AccessDenied`] error on deny.

use vstd::prelude::*;
use crate::models::MedicalReport;
use crate::models::Role;
use crate::models::UserData;
use crate::models::UserID;

verus! {

/// The engine's verdict on one request.
#[derive(Clone, Copy, PartialEq, Eq, Structural, Debug)]
pub enum Decision {
    Allow,
    Deny,
}

/// An action together with the object references it concerns.
#[derive(Clone, Copy)]
pub enum Action<'a> {
    ReadData(&'a UserData),
    UpdateData(&'a UserData),
    DeleteData(&'a UserData),
    AddReport(&'a UserData, &'a MedicalReport),
    ReadReport(&'a MedicalReport, &'a UserData),
    UpdateReport(&'a MedicalReport),
    UpdateRole(&'a UserData, Role),
    AddDoctor(&'a UserData, &'a UserData),
    RemoveDoctor(&'a UserData, &'a UserData),
}

/// Whether the doctor with the given id is assigned in the patient's
/// folder; a missing folder resolves to not assigned (fail closed).
pub open spec fn assigned(doctor: UserID, patient: UserData) -> bool {
    match patient.medical_folder {
        Option::Some(folder) => folder.doctors@.contains(doctor),
        Option::None => false,
    }
}

/// The rule table: the condition under which a subject is granted an
/// action. An admin may do anything; a patient may act on their own record
/// and read reports in their own context; a doctor's access is derived
/// from assignment and authorship; everything else is denied.
pub open spec fn allowed(subject: UserData, action: Action) -> bool {
    match subject.role {
        Role::Admin => true,
        Role::Patient => match action {
            Action::ReadData(t) => t.id == subject.id,
            Action::UpdateData(t) => t.id == subject.id,
            Action::DeleteData(t) => t.id == subject.id,
            Action::AddDoctor(p, _) => p.id == subject.id,
            Action::RemoveDoctor(p, _) => p.id == subject.id,
            Action::ReadReport(_, p) => p.id == subject.id,
            _ => false,
        },
        Role::Doctor => match action {
            Action::ReadData(t) => assigned(subject.id, *t),
            Action::AddReport(p, _) => p.medical_folder is Some,
            Action::ReadReport(r, p) => r.author == subject.id || assigned(subject.id, *p),
            Action::UpdateReport(r) => r.author == subject.id,
            _ => false,
        },
    }
}

/// Whether the doctor with the given id is assigned in the patient's
/// folder.
fn is_assigned(doctor: UserID, patient: &UserData) -> (r: bool)
    ensures
        r == assigned(doctor, *patient),
{
    match &patient.medical_folder {
        Some(folder) => folder.has_doctor(doctor),
        None => false,
    }
}

/// Evaluates one request against the rule table. Total and fail-closed:
/// every request yields `Allow` or `Deny`, and `Allow` comes exactly when
/// a rule grants it. The result is a function of the inputs alone, so
/// repeated calls with identical arguments return identical results.
pub fn decide(subject: &UserData, action: Action) -> (d: Decision)
    ensures
        d == (if allowed(*subject, action) {
            Decision::Allow
        } else {
            Decision::Deny
        }),
        d == Decision::Allow <==> allowed(*subject, action),
{
    let granted = match subject.role {
        Role::Admin => true,
        Role::Patient => match action {
            Action::ReadData(t) => t.id == subject.id,
            Action::UpdateData(t) => t.id == subject.id,
            Action::DeleteData(t) => t.id == subject.id,
            Action::AddDoctor(p, _) => p.id == subject.id,
            Action::RemoveDoctor(p, _) => p.id == subject.id,
            Action::ReadReport(_, p) => p.id == subject.id,
            _ => false,
        },
        Role::Doctor => match action {
            Action::ReadData(t) => is_assigned(subject.id, t),
            Action::AddReport(p, _) => p.medical_folder.is_some(),
            Action::ReadReport(r, p) => r.author == subject.id || is_assigned(subject.id, p),
            Action::UpdateReport(r) => r.author == subject.id,
            _ => false,
        },
    };
    if granted {
        Decision::Allow
    } else {
        Decision::Deny
    }
}

/// The error surfaced on denial; it carries no detail of which rule
/// failed, so a caller learns nothing of the policy or the relationships.
#[derive(Clone, Copy, PartialEq, Eq, Structural, Debug)]
pub struct AccessDenied;

/// The decision engine. Its rule table is fixed, statically-typed data
/// (the spec function [`allowed`]), so one instance can be shared
/// read-only across any number of evaluations.
pub struct Enforcer;

/// A context binding a reference to an enforcer and to a subject.
pub struct Context<'ctx> {
    pub enforcer: &'ctx Enforcer,
    pub subject: &'ctx UserData,
}

impl Enforcer {
    /// Constructs the engine with its fixed rule table.
    pub fn load() -> Enforcer {
        Enforcer
    }

    /// Binds this engine to one acting subject.
    pub fn with_subject<'ctx>(&'ctx self, subject: &'ctx UserData) -> (c: Context<'ctx>)
        ensures
            c.subject == subject,
            c.enforcer == self,
    {
        Context { enforcer: self, subject }
    }
}

impl Context<'_> {
    /// Asks the engine for a verdict and converts it into a result: `Ok`
    /// on allow, the detail-free denial error on deny.
    fn enforce(&self, action: Action) -> (r: Result<(), AccessDenied>)
        ensures
            r is Ok <==> allowed(*self.subject, action),
    {
        match decide(self.subject, action) {
            Decision::Allow => Ok(()),
            Decision::Deny => Err(AccessDenied),
        }
    }

    /// May the subject read the target user's data?
    pub fn read_data(&self, patient: &UserData) -> (r: Result<(), AccessDenied>)
        ensures
            r is Ok <==> allowed(*self.subject, Action::ReadData(patient)),
    {
        self.enforce(Action::ReadData(patient))
    }

    /// May the subject update the target user's data?
    pub fn update_data(&self, target: &UserData) -> (r: Result<(), AccessDenied>)
        ensures
            r is Ok <==> allowed(*self.subject, Action::UpdateData(target)),
    {
        self.enforce(Action::UpdateData(target))
    }

    /// May the subject delete the target user's data?
    pub fn delete_data(&self, target: &UserData) -> (r: Result<(), AccessDenied>)
        ensures
            r is Ok <==> allowed(*self.subject, Action::DeleteData(target)),
    {
        self.enforce(Action::DeleteData(target))
    }

    /// May the subject add the report to the patient's record?
    pub fn add_report(&self, patient: &UserData, report: &MedicalReport) -> (r: Result<
        (),
        AccessDenied,
    >)
        ensures
            r is Ok <==> allowed(*self.subject, Action::AddReport(patient, report)),
    {
        self.enforce(Action::AddReport(patient, report))
    }

    /// May the subject read the report in the given patient's context?
    pub fn read_report(&self, report: &MedicalReport, patient: &UserData) -> (r: Result<
        (),
        AccessDenied,
    >)
        ensures
            r is Ok <==> allowed(*self.subject, Action::ReadReport(report, patient)),
    {
        self.enforce(Action::ReadReport(report, patient))
    }

    /// May the subject update the report?
    pub fn update_report(&self, report: &MedicalReport) -> (r: Result<(), AccessDenied>)
        ensures
            r is Ok <==> allowed(*self.subject, Action::UpdateReport(report)),
    {
        self.enforce(Action::UpdateReport(report))
    }

    /// May the subject change the target user's role?
    pub fn update_role(&self, target: &UserData, role: Role) -> (r: Result<(), AccessDenied>)
        ensures
            r is Ok <==> allowed(*self.subject, Action::UpdateRole(target, role)),
    {
        self.enforce(Action::UpdateRole(target, role))
    }

    /// May the subject assign the doctor to the target patient?
    pub fn add_doctor(&self, target: &UserData, doctor: &UserData) -> (r: Result<
        (),
        AccessDenied,
    >)
        ensures
            r is Ok <==> allowed(*self.subject, Action::AddDoctor(target, doctor)),
    {
        self.enforce(Action::AddDoctor(target, doctor))
    }

    /// May the subject withdraw the doctor from the target patient?
    pub fn remove_doctor(&self, target: &UserData, doctor: &UserData) -> (r: Result<
        (),
        AccessDenied,
    >)
        ensures
            r is Ok <==> allowed(*self.subject, Action::RemoveDoctor(target, doctor)),
    {
        self.enforce(Action::RemoveDoctor(target, doctor))
    }
}

/// The object part of an audit record: the identifiers the action
/// concerned, as plain values.
#[derive(Clone, Copy, PartialEq, Eq, Structural, Debug)]
pub enum ObjectSummary {
    User(UserID),
    PatientReport(UserID, crate::models::ReportID),
    Report(crate::models::ReportID),
    UserRole(UserID, Role),
    PatientDoctor(UserID, UserID),
}

/// One structured audit record: who asked for what on which object, and
/// the verdict. The facade's caller emits one such record per call; the
/// decision path never waits on that emission.
#[derive(Clone, Copy, Debug)]
pub struct AuditRecord {
    pub subject_id: UserID,
    pub subject_role: Role,
    pub action: &'static str,
    pub object_summary: ObjectSummary,
    pub decision: Decision,
}

/// The name under which an action is audited.
pub open spec fn action_label(action: Action) -> Seq<char> {
    match action {
        Action::ReadData(_) => "read-data"@,
        Action::UpdateData(_) => "update-data"@,
        Action::DeleteData(_) => "delete-data"@,
        Action::AddReport(_, _) => "add-report"@,
        Action::ReadReport(_, _) => "read-report"@,
        Action::UpdateReport(_) => "update-report"@,
        Action::UpdateRole(_, _) => "update-role"@,
        Action::AddDoctor(_, _) => "add-doctor"@,
        Action::RemoveDoctor(_, _) => "remove-doctor"@,
    }
}

/// The object summary under which an action is audited.
pub open spec fn object_summary_of(action: Action) -> ObjectSummary {
    match action {
        Action::ReadData(t) => ObjectSummary::User(t.id),
        Action::UpdateData(t) => ObjectSummary::User(t.id),
        Action::DeleteData(t) => ObjectSummary::User(t.id),
        Action::AddReport(p, r) => ObjectSummary::PatientReport(p.id, r.id),
        Action::ReadReport(r, p) => ObjectSummary::PatientReport(p.id, r.id),
        Action::UpdateReport(r) => ObjectSummary::Report(r.id),
        Action::UpdateRole(t, role) => ObjectSummary::UserRole(t.id, role),
        Action::AddDoctor(p, d) => ObjectSummary::PatientDoctor(p.id, d.id),
        Action::RemoveDoctor(p, d) => ObjectSummary::PatientDoctor(p.id, d.id),
    }
}

/// Builds the audit record for one decided call.
pub fn audit_record(subject: &UserData, action: Action, decision: Decision) -> (r: AuditRecord)
    ensures
        r.subject_id == subject.id,
        r.subject_role == subject.role,
        r.action@ == action_label(action),
        r.object_summary == object_summary_of(action),
        r.decision == decision,
{
    let (name, object_summary): (&'static str, ObjectSummary) = match action {
        Action::ReadData(t) => ("read-data", ObjectSummary::User(t.id)),
        Action::UpdateData(t) => ("update-data", ObjectSummary::User(t.id)),
        Action::DeleteData(t) => ("delete-data", ObjectSummary::User(t.id)),
        Action::AddReport(p, r) => ("add-report", ObjectSummary::PatientReport(p.id, r.id)),
        Action::ReadReport(r, p) => ("read-report", ObjectSummary::PatientReport(p.id, r.id)),
        Action::UpdateReport(r) => ("update-report", ObjectSummary::Report(r.id)),
        Action::UpdateRole(t, role) => ("update-role", ObjectSummary::UserRole(t.id, role)),
        Action::AddDoctor(p, d) => ("add-doctor", ObjectSummary::PatientDoctor(p.id, d.id)),
        Action::RemoveDoctor(p, d) => ("remove-doctor", ObjectSummary::PatientDoctor(p.id, d.id)),
    };
    AuditRecord {
        subject_id: subject.id,
        subject_role: subject.role,
        action: name,
        object_summary,
        decision,
    }
}

/// Admin universality: a subject whose role is Admin is granted every
/// action on every object.
pub proof fn lemma_admin_universality(subject: &UserData, action: Action)
    requires
        subject.role == Role::Admin,
    ensures
        allowed(*subject, action),
{
}

/// Self-access: a patient is granted reading, updating and deleting their
/// own record.
pub proof fn lemma_patient_self_access(p: &UserData)
    requires
        p.role == Role::Patient,
    ensures
        allowed(*p, Action::ReadData(p)),
        allowed(*p, Action::UpdateData(p)),
        allowed(*p, Action::DeleteData(p)),
{
}

/// Cross-patient denial: a patient is denied reading another patient's
/// record.
pub proof fn lemma_cross_patient_denial(p1: &UserData, p2: &UserData)
    requires
        p1.role == Role::Patient,
        p2.role == Role::Patient,
        p1.id != p2.id,
    ensures
        !allowed(*p1, Action::ReadData(p2)),
{
}

/// Assignment monotonicity: a doctor's right to read a patient's data
/// tracks the patient's doctor set exactly — denied while the doctor is
/// not in the set, granted as soon as the doctor is inserted, and denied
/// again once the doctor is removed.
pub proof fn lemma_assignment_monotonicity(d: &UserData, p: &UserData)
    requires
        d.role == Role::Doctor,
    ensures
        allowed(*d, Action::ReadData(p)) <==> (p.medical_folder is Some
            && p.medical_folder->0.doctors@.contains(d.id)),
{
}

/// Determinism: the rule table is fixed data, so the verdict is a function
/// of the subject and the action alone — any two verdicts that the
/// contract of [`decide`] admits for identical arguments are equal.
pub proof fn lemma_decide_deterministic(
    subject: &UserData,
    action: Action,
    d1: Decision,
    d2: Decision,
)
    requires
        d1 == (if allowed(*subject, action) {
            Decision::Allow
        } else {
            Decision::Deny
        }),
        d2 == (if allowed(*subject, action) {
            Decision::Allow
        } else {
            Decision::Deny
        }),
    ensures
        d1 == d2,
{
}

/// Authorship gate: a doctor is granted updating a report exactly when the
/// doctor authored it, independent of any assignment relation.
pub proof fn lemma_authorship_gate(d: &UserData, r: &MedicalReport)
    requires
        d.role == Role::Doctor,
    ensures
        allowed(*d, Action::UpdateReport(r)) <==> r.author == d.id,
{
}

} // verus!
