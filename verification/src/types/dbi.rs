//! The directory of a school: its people, rooms and subjects.

use vstd::prelude::*;

use super::person::Class;
use super::person::Parent;
use super::person::Student;
use super::person::Teacher;

verus! {

#[derive(Clone, Copy, Debug, PartialEq, Eq, Structural)]
pub enum Gender {
    Male,
    Female,
}

/// The six collections of the directory. An entry without an `id` is kept
/// and found by no lookup.
#[derive(Clone, Debug, PartialEq, Eq)]
pub struct DBI {
    pub teachers: Vec<Teacher>,
    pub classes: Vec<Class>,
    pub subjects: Vec<DBIBase>,
    pub classrooms: Vec<DBIBase>,
    pub students: Vec<Student>,
    pub parents: Vec<Parent>,
    pub is_art_school: bool,
}

/// What subjects and classrooms have in common with most directory entries.
#[derive(Debug, PartialEq, Eq)]
pub struct DBIBase {
    pub id: Option<i64>,
    pub name: String,
    pub short: String,
}

impl Clone for DBIBase {
    fn clone(&self) -> (r: Self)
        ensures
            r == *self,
    {
        DBIBase { id: self.id, name: self.name.clone(), short: self.short.clone() }
    }
}

} // verus!
