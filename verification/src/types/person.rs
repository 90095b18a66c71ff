//! People and classes of the directory, and the identities that timeline
//! items are addressed to.

use vstd::prelude::*;

use super::dbi::Gender;
use super::time::Date;

verus! {

#[derive(Debug, PartialEq, Eq)]
pub struct Student {
    pub id: Option<i64>,
    pub class_id: Option<i64>,
    pub first_name: String,
    pub last_name: String,
    pub first_parent_id: Option<i64>,
    pub second_parent_id: Option<i64>,
    pub third_parent_id: Option<i64>,
    pub gender: Option<Gender>,
    pub date_from: Option<Date>,
    pub date_to: Option<Date>,
    pub number_in_class: Option<i64>,
}

#[derive(Debug, PartialEq, Eq)]
pub struct Parent {
    pub id: Option<i64>,
    pub first_name: String,
    pub last_name: String,
    pub gender: Option<Gender>,
}

#[derive(Debug, PartialEq, Eq)]
pub struct Teacher {
    pub id: Option<i64>,
    pub first_name: String,
    pub last_name: String,
    pub short: String,
    pub gender: Option<Gender>,
    pub classroom_id: Option<i64>,
    pub is_out: bool,
    pub date_from: Option<Date>,
    pub date_to: Option<Date>,
}

#[derive(Debug, PartialEq, Eq)]
pub struct Class {
    pub id: Option<i64>,
    pub name: String,
    pub short: String,
    pub grade: Option<i64>,
    pub first_teacher_id: Option<i64>,
    pub second_teacher_id: Option<i64>,
    pub classroom_id: Option<i64>,
}

/// Whom a timeline item comes from or goes to: one person or group by its
/// number, or everyone of a kind.
#[derive(Clone, Copy, Debug, PartialEq, Eq, Structural)]
pub enum UserID {
    Teacher(i64),
    Student(i64),
    Parent(i64),
    Class(i64),
    Plan(i64),
    CustomPlan(i64),
    StudentClass(i64),
    StudentPlan(i64),
    OnlyStudent(i64),
    AllStudents,
    OnlyAllStudents,
    AllTeachers,
    Everyone,
}

impl Clone for Student {
    fn clone(&self) -> (r: Self)
        ensures
            r == *self,
    {
        Student {
            id: self.id,
            class_id: self.class_id,
            first_name: self.first_name.clone(),
            last_name: self.last_name.clone(),
            first_parent_id: self.first_parent_id,
            second_parent_id: self.second_parent_id,
            third_parent_id: self.third_parent_id,
            gender: self.gender,
            date_from: self.date_from,
            date_to: self.date_to,
            number_in_class: self.number_in_class,
        }
    }
}

impl Clone for Parent {
    fn clone(&self) -> (r: Self)
        ensures
            r == *self,
    {
        Parent {
            id: self.id,
            first_name: self.first_name.clone(),
            last_name: self.last_name.clone(),
            gender: self.gender,
        }
    }
}

impl Clone for Teacher {
    fn clone(&self) -> (r: Self)
        ensures
            r == *self,
    {
        Teacher {
            id: self.id,
            first_name: self.first_name.clone(),
            last_name: self.last_name.clone(),
            short: self.short.clone(),
            gender: self.gender,
            classroom_id: self.classroom_id,
            is_out: self.is_out,
            date_from: self.date_from,
            date_to: self.date_to,
        }
    }
}

impl Clone for Class {
    fn clone(&self) -> (r: Self)
        ensures
            r == *self,
    {
        Class {
            id: self.id,
            name: self.name.clone(),
            short: self.short.clone(),
            grade: self.grade,
            first_teacher_id: self.first_teacher_id,
            second_teacher_id: self.second_teacher_id,
            classroom_id: self.classroom_id,
        }
    }
}

} // verus!
