//! Record-type demo: a student record with five named fields, a positional
//! triple of signed integers, a constructor function, an accessor method, and
//! a clone-with-overrides derivation that builds one record from another.

use vstd::prelude::*;

verus! {

/// A positional record of exactly three signed integers: an unlabeled triple
/// whose components are accessed by position (0, 1, 2).
pub struct Vector(pub i32, pub i32, pub i32);

/// A student record. Every field is populated at construction; there is no
/// partial or default state, and no field changes after construction.
#[derive(Debug)]
pub struct Student {
    pub name: String,
    pub email: String,
    pub age: u8,
    pub marks: u8,
    pub favourite_subject: String,
}

/// Replacement values for a clone-with-overrides derivation: a field that is
/// `Some` is overridden with the value it holds, a field that is `None` is
/// carried over unchanged from the source record.
pub struct StudentOverrides {
    pub name: Option<String>,
    pub email: Option<String>,
    pub age: Option<u8>,
    pub marks: Option<u8>,
    pub favourite_subject: Option<String>,
}

/// The override value where one is given, the base value otherwise.
pub open spec fn override_or<T>(over: Option<T>, base: T) -> T {
    match over {
        Some(v) => v,
        None => base,
    }
}

/// The record that a clone-with-overrides derivation from `source` under `o`
/// denotes: field by field, the override value where `o` gives one, the
/// source's value otherwise.
pub open spec fn overridden_student(source: Student, o: StudentOverrides) -> Student {
    Student {
        name: override_or(o.name, source.name),
        email: override_or(o.email, source.email),
        age: override_or(o.age, source.age),
        marks: override_or(o.marks, source.marks),
        favourite_subject: override_or(o.favourite_subject, source.favourite_subject),
    }
}

impl Student {
    /// Build a student from all five field values, given positionally.
    /// The result holds exactly the given values: construction through this
    /// function and direct field-literal construction produce the same record.
    pub fn new(name: String, email: String, age: u8, marks: u8, favourite_subject: String) -> (s:
        Student)
        ensures
            s.name == name,
            s.email == email,
            s.age == age,
            s.marks == marks,
            s.favourite_subject == favourite_subject,
    {
        Student { name, email, age, marks, favourite_subject }
    }

    /// Read the stored `marks` field.
    #[allow(non_snake_case)]
    pub fn getMarks(&self) -> (m: u8)
        ensures
            m == self.marks,
    {
        self.marks
    }

    /// Clone-with-overrides: derive a new student from `self`, taking each
    /// field that `o` overrides from `o` and every other field unchanged from
    /// `self`. The source is consumed: ownership of its carried-over text
    /// fields moves into the derived record.
    pub fn with_overrides(self, o: StudentOverrides) -> (s: Student)
        ensures
            s == overridden_student(self, o),
    {
        let Student { name, email, age, marks, favourite_subject } = self;
        let name: String = match o.name {
            Some(v) => v,
            None => name,
        };
        let email: String = match o.email {
            Some(v) => v,
            None => email,
        };
        let age: u8 = match o.age {
            Some(v) => v,
            None => age,
        };
        let marks: u8 = match o.marks {
            Some(v) => v,
            None => marks,
        };
        let favourite_subject: String = match o.favourite_subject {
            Some(v) => v,
            None => favourite_subject,
        };
        Student { name, email, age, marks, favourite_subject }
    }
}

/// A clone-with-overrides derivation preserves every non-overridden field
/// unchanged from the source, and every overridden field holds exactly its
/// override value.
pub proof fn lemma_clone_with_overrides(source: Student, o: StudentOverrides)
    ensures
        o.name is None ==> overridden_student(source, o).name == source.name,
        o.email is None ==> overridden_student(source, o).email == source.email,
        o.age is None ==> overridden_student(source, o).age == source.age,
        o.marks is None ==> overridden_student(source, o).marks == source.marks,
        o.favourite_subject is None ==> overridden_student(source, o).favourite_subject
            == source.favourite_subject,
        o.name matches Some(v) ==> overridden_student(source, o).name == v,
        o.email matches Some(v) ==> overridden_student(source, o).email == v,
        o.age matches Some(v) ==> overridden_student(source, o).age == v,
        o.marks matches Some(v) ==> overridden_student(source, o).marks == v,
        o.favourite_subject matches Some(v) ==> overridden_student(source, o).favourite_subject
            == v,
{
}

/// Two students whose five fields hold equal values are the same record: an
/// instance built by the constructor function and one built as a field
/// literal from the same values are observably identical.
pub proof fn lemma_equal_fields_same_student(s1: Student, s2: Student)
    requires
        s1.name == s2.name,
        s1.email == s2.email,
        s1.age == s2.age,
        s1.marks == s2.marks,
        s1.favourite_subject == s2.favourite_subject,
    ensures
        s1 == s2,
{
}

} // verus!
