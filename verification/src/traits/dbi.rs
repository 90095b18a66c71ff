//! Looking up the directory of a session.

use vstd::prelude::*;

use crate::edupage::{Edupage, EdupageError};
use crate::types::dbi::DBIBase;
use crate::types::person::{Class, Parent, Student, Teacher};
use crate::types::timetable::{copy_bases, copy_teachers};

verus! {

/// A directory entry with its number, which may be missing.
pub trait Identified {
    /// The number of the entry.
    spec fn ident(&self) -> Option<i64>;

    fn entry_id(&self) -> (r: Option<i64>)
        ensures
            r == self.ident(),
    ;
}

impl Identified for Teacher {
    open spec fn ident(&self) -> Option<i64> {
        self.id
    }

    fn entry_id(&self) -> (r: Option<i64>) {
        self.id
    }
}

impl Identified for Student {
    open spec fn ident(&self) -> Option<i64> {
        self.id
    }

    fn entry_id(&self) -> (r: Option<i64>) {
        self.id
    }
}

impl Identified for Parent {
    open spec fn ident(&self) -> Option<i64> {
        self.id
    }

    fn entry_id(&self) -> (r: Option<i64>) {
        self.id
    }
}

impl Identified for Class {
    open spec fn ident(&self) -> Option<i64> {
        self.id
    }

    fn entry_id(&self) -> (r: Option<i64>) {
        self.id
    }
}

impl Identified for DBIBase {
    open spec fn ident(&self) -> Option<i64> {
        self.id
    }

    fn entry_id(&self) -> (r: Option<i64>) {
        self.id
    }
}

/// The first of `entries` whose number is `id`. An entry without a number
/// is never the one.
pub open spec fn first_with_id<T: Identified>(entries: Seq<T>, id: i64) -> Option<T>
    decreases entries.len(),
{
    if entries.len() == 0 {
        None
    } else if entries[0].ident() == Some(id) {
        Some(entries[0])
    } else {
        first_with_id(entries.skip(1), id)
    }
}

/// What `first_with_id` finds has the number asked for, stands in the list,
/// and nothing before it has that number; where it finds nothing, no entry
/// has the number.
pub proof fn lemma_first_with_id<T: Identified>(entries: Seq<T>, id: i64)
    ensures
        match first_with_id(entries, id) {
            Some(e) => exists|i: int|
                0 <= i < entries.len() && entries[i] == e && e.ident() == Some(id) && forall|
                    j: int,
                |
                    0 <= j < i ==> (#[trigger] entries[j]).ident() != Some(id),
            None => forall|j: int|
                0 <= j < entries.len() ==> (#[trigger] entries[j]).ident() != Some(id),
        },
    decreases entries.len(),
{
    if entries.len() == 0 {
    } else if entries[0].ident() == Some(id) {
        assert(entries[0] == first_with_id(entries, id)->0);
    } else {
        let rest = entries.skip(1);
        lemma_first_with_id(rest, id);
        match first_with_id(rest, id) {
            Some(e) => {
                let i = choose|i: int|
                    0 <= i < rest.len() && rest[i] == e && e.ident() == Some(id) && forall|j: int|
                        0 <= j < i ==> (#[trigger] rest[j]).ident() != Some(id);
                assert(entries[i + 1] == rest[i]);
                assert forall|j: int| 0 <= j < i + 1 implies (#[trigger] entries[j]).ident()
                    != Some(id) by {
                    if j > 0 {
                        assert(entries[j] == rest[j - 1]);
                    }
                }
            },
            None => {
                assert forall|j: int| 0 <= j < entries.len() implies (#[trigger] entries[j]).ident()
                    != Some(id) by {
                    if j > 0 {
                        assert(entries[j] == rest[j - 1]);
                    }
                }
            },
        }
    }
}

/// The first of `entries` whose number is `id`.
pub fn find_by_id<T: Identified>(entries: &Vec<T>, id: i64) -> (r: Option<&T>)
    ensures
        match r {
            Some(e) => first_with_id(entries@, id) == Some(*e),
            None => first_with_id(entries@, id) is None,
        },
{
    let mut i: usize = 0;
    assert(entries@.skip(0) =~= entries@);
    while i < entries.len()
        invariant
            i <= entries.len(),
            first_with_id(entries@, id) == first_with_id(entries@.skip(i as int), id),
        decreases entries.len() - i,
    {
        proof {
            let rest = entries@.skip(i as int);
            assert(rest[0] == entries@[i as int]);
            assert(rest.skip(1) =~= entries@.skip(i + 1));
        }
        match entries[i].entry_id() {
            Some(found) => {
                if found == id {
                    return Some(&entries[i]);
                }
            },
            None => {},
        }
        i += 1;
    }
    None
}

/// A copy of a list of students.
pub fn copy_students(v: &Vec<Student>) -> (r: Vec<Student>)
    ensures
        r@ == v@,
{
    let mut out: Vec<Student> = Vec::new();
    let mut i: usize = 0;
    while i < v.len()
        invariant
            i <= v.len(),
            out@ == v@.take(i as int),
        decreases v.len() - i,
    {
        out.push(v[i].clone());
        assert(out@ =~= v@.take(i + 1));
        i += 1;
    }
    assert(v@.take(i as int) =~= v@);
    out
}

/// The lists of a session's directory, and its entries by number.
pub trait DBI {
    fn get_teachers(&self) -> Result<Vec<Teacher>, EdupageError>;

    fn get_teacher_by_id(&self, id: i64) -> Result<Option<Teacher>, EdupageError>;

    fn get_students(&self) -> Result<Vec<Student>, EdupageError>;

    fn get_student_by_id(&self, id: i64) -> Result<Option<Student>, EdupageError>;

    fn get_subjects(&self) -> Result<Vec<DBIBase>, EdupageError>;

    fn get_subject_by_id(&self, id: i64) -> Result<Option<DBIBase>, EdupageError>;

    fn get_classrooms(&self) -> Result<Vec<DBIBase>, EdupageError>;

    fn get_classroom_by_id(&self, id: i64) -> Result<Option<DBIBase>, EdupageError>;
}

impl DBI for Edupage {
    fn get_teachers(&self) -> (r: Result<Vec<Teacher>, EdupageError>)
        ensures
            match self.snapshot() {
                Some(data) => r matches Ok(v) && v@ == data.dbi.teachers@,
                None => r == Err::<Vec<Teacher>, EdupageError>(EdupageError::NotLoggedIn),
            },
    {
        proof {
            use_type_invariant(self);
        }
        if !self.is_logged_in {
            return Err(EdupageError::NotLoggedIn);
        }
        match &self.data {
            Some(data) => Ok(copy_teachers(&data.dbi.teachers)),
            None => Err(EdupageError::NotLoggedIn),
        }
    }

    fn get_teacher_by_id(&self, id: i64) -> (r: Result<Option<Teacher>, EdupageError>)
        ensures
            match self.snapshot() {
                Some(data) => r == Ok::<Option<Teacher>, EdupageError>(
                    first_with_id(data.dbi.teachers@, id),
                ),
                None => r == Err::<Option<Teacher>, EdupageError>(EdupageError::NotLoggedIn),
            },
    {
        proof {
            use_type_invariant(self);
        }
        if !self.is_logged_in {
            return Err(EdupageError::NotLoggedIn);
        }
        match &self.data {
            Some(data) => match find_by_id(&data.dbi.teachers, id) {
                Some(t) => Ok(Some(t.clone())),
                None => Ok(None),
            },
            None => Err(EdupageError::NotLoggedIn),
        }
    }

    fn get_students(&self) -> (r: Result<Vec<Student>, EdupageError>)
        ensures
            match self.snapshot() {
                Some(data) => r matches Ok(v) && v@ == data.dbi.students@,
                None => r == Err::<Vec<Student>, EdupageError>(EdupageError::NotLoggedIn),
            },
    {
        proof {
            use_type_invariant(self);
        }
        if !self.is_logged_in {
            return Err(EdupageError::NotLoggedIn);
        }
        match &self.data {
            Some(data) => Ok(copy_students(&data.dbi.students)),
            None => Err(EdupageError::NotLoggedIn),
        }
    }

    fn get_student_by_id(&self, id: i64) -> (r: Result<Option<Student>, EdupageError>)
        ensures
            match self.snapshot() {
                Some(data) => r == Ok::<Option<Student>, EdupageError>(
                    first_with_id(data.dbi.students@, id),
                ),
                None => r == Err::<Option<Student>, EdupageError>(EdupageError::NotLoggedIn),
            },
    {
        proof {
            use_type_invariant(self);
        }
        if !self.is_logged_in {
            return Err(EdupageError::NotLoggedIn);
        }
        match &self.data {
            Some(data) => match find_by_id(&data.dbi.students, id) {
                Some(t) => Ok(Some(t.clone())),
                None => Ok(None),
            },
            None => Err(EdupageError::NotLoggedIn),
        }
    }

    fn get_subjects(&self) -> (r: Result<Vec<DBIBase>, EdupageError>)
        ensures
            match self.snapshot() {
                Some(data) => r matches Ok(v) && v@ == data.dbi.subjects@,
                None => r == Err::<Vec<DBIBase>, EdupageError>(EdupageError::NotLoggedIn),
            },
    {
        proof {
            use_type_invariant(self);
        }
        if !self.is_logged_in {
            return Err(EdupageError::NotLoggedIn);
        }
        match &self.data {
            Some(data) => Ok(copy_bases(&data.dbi.subjects)),
            None => Err(EdupageError::NotLoggedIn),
        }
    }

    fn get_subject_by_id(&self, id: i64) -> (r: Result<Option<DBIBase>, EdupageError>)
        ensures
            match self.snapshot() {
                Some(data) => r == Ok::<Option<DBIBase>, EdupageError>(
                    first_with_id(data.dbi.subjects@, id),
                ),
                None => r == Err::<Option<DBIBase>, EdupageError>(EdupageError::NotLoggedIn),
            },
    {
        proof {
            use_type_invariant(self);
        }
        if !self.is_logged_in {
            return Err(EdupageError::NotLoggedIn);
        }
        match &self.data {
            Some(data) => match find_by_id(&data.dbi.subjects, id) {
                Some(t) => Ok(Some(t.clone())),
                None => Ok(None),
            },
            None => Err(EdupageError::NotLoggedIn),
        }
    }

    fn get_classrooms(&self) -> (r: Result<Vec<DBIBase>, EdupageError>)
        ensures
            match self.snapshot() {
                Some(data) => r matches Ok(v) && v@ == data.dbi.classrooms@,
                None => r == Err::<Vec<DBIBase>, EdupageError>(EdupageError::NotLoggedIn),
            },
    {
        proof {
            use_type_invariant(self);
        }
        if !self.is_logged_in {
            return Err(EdupageError::NotLoggedIn);
        }
        match &self.data {
            Some(data) => Ok(copy_bases(&data.dbi.classrooms)),
            None => Err(EdupageError::NotLoggedIn),
        }
    }

    fn get_classroom_by_id(&self, id: i64) -> (r: Result<Option<DBIBase>, EdupageError>)
        ensures
            match self.snapshot() {
                Some(data) => r == Ok::<Option<DBIBase>, EdupageError>(
                    first_with_id(data.dbi.classrooms@, id),
                ),
                None => r == Err::<Option<DBIBase>, EdupageError>(EdupageError::NotLoggedIn),
            },
    {
        proof {
            use_type_invariant(self);
        }
        if !self.is_logged_in {
            return Err(EdupageError::NotLoggedIn);
        }
        match &self.data {
            Some(data) => match find_by_id(&data.dbi.classrooms, id) {
                Some(t) => Ok(Some(t.clone())),
                None => Ok(None),
            },
            None => Err(EdupageError::NotLoggedIn),
        }
    }
}

} // verus!
