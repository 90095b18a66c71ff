//! How a `UserID` is written: a tag and a number, or one of four fixed
//! texts for the groups that take no number.

use vstd::prelude::*;
use vstd::string::StringExecFns;

use crate::numeral::{
    int_text, is_digit, lemma_nat_text, lemma_parse_i64_text, nat_text, parse_i64_in,
    parse_i64_spec, push_i64,
};
use crate::text::{chars_of, range_is, text_is};
use crate::types::person::UserID;

verus! {

/// `c` is one of the letters `A` to `Z` or `a` to `z`.
pub open spec fn is_letter(c: char) -> bool {
    65 <= c as u32 <= 90 || 97 <= c as u32 <= 122
}

/// The number of letters that `s` begins with.
pub open spec fn letter_run(s: Seq<char>) -> nat
    decreases s.len(),
{
    if s.len() > 0 && is_letter(s[0]) {
        1 + letter_run(s.skip(1))
    } else {
        0
    }
}

/// The identity that the tag `tag` makes of the number `id`.
pub open spec fn tagged(tag: Seq<char>, id: i64) -> Option<UserID> {
    if tag == "Ucitel"@ {
        Some(UserID::Teacher(id))
    } else if tag == "Student"@ {
        Some(UserID::Student(id))
    } else if tag == "Rodic"@ {
        Some(UserID::Parent(id))
    } else if tag == "Trieda"@ {
        Some(UserID::Class(id))
    } else if tag == "Plan"@ {
        Some(UserID::Plan(id))
    } else if tag == "CustPlan"@ {
        Some(UserID::CustomPlan(id))
    } else if tag == "StudTrieda"@ {
        Some(UserID::StudentClass(id))
    } else if tag == "StudentOnly"@ {
        Some(UserID::OnlyStudent(id))
    } else if tag == "StudPlan"@ {
        Some(UserID::StudentPlan(id))
    } else {
        None
    }
}

/// The text of an identity.
pub open spec fn user_id_text(v: UserID) -> Seq<char> {
    match v {
        UserID::Teacher(id) => "Ucitel"@ + int_text(id as int),
        UserID::Student(id) => "Student"@ + int_text(id as int),
        UserID::Parent(id) => "Rodic"@ + int_text(id as int),
        UserID::Class(id) => "Trieda"@ + int_text(id as int),
        UserID::Plan(id) => "Plan"@ + int_text(id as int),
        UserID::CustomPlan(id) => "CustPlan"@ + int_text(id as int),
        UserID::StudentClass(id) => "StudTrieda"@ + int_text(id as int),
        UserID::OnlyStudent(id) => "StudentOnly"@ + int_text(id as int),
        UserID::StudentPlan(id) => "StudPlan"@ + int_text(id as int),
        UserID::OnlyAllStudents => "StudentOnly*"@,
        UserID::AllStudents => "Student*"@,
        UserID::AllTeachers => "Ucitel*"@,
        UserID::Everyone => "*"@,
    }
}

/// The identity that a text names: one of the four group texts, or the
/// letters it begins with as a tag and all that follows as a signed decimal
/// numeral that fits an `i64`. `None` for any other text.
pub open spec fn parse_userid_spec(s: Seq<char>) -> Option<UserID> {
    if s == "*"@ {
        Some(UserID::Everyone)
    } else if s == "Student*"@ {
        Some(UserID::AllStudents)
    } else if s == "Ucitel*"@ {
        Some(UserID::AllTeachers)
    } else if s == "StudentOnly*"@ {
        Some(UserID::OnlyAllStudents)
    } else {
        let n = letter_run(s) as int;
        match parse_i64_spec(s.skip(n)) {
            None => None,
            Some(id) => tagged(s.take(n), id),
        }
    }
}

/// The tag of an identity that carries a number; the whole text of one that
/// does not.
pub open spec fn tag_of(v: UserID) -> Seq<char> {
    match v {
        UserID::Teacher(_) => "Ucitel"@,
        UserID::Student(_) => "Student"@,
        UserID::Parent(_) => "Rodic"@,
        UserID::Class(_) => "Trieda"@,
        UserID::Plan(_) => "Plan"@,
        UserID::CustomPlan(_) => "CustPlan"@,
        UserID::StudentClass(_) => "StudTrieda"@,
        UserID::OnlyStudent(_) => "StudentOnly"@,
        UserID::StudentPlan(_) => "StudPlan"@,
        UserID::OnlyAllStudents => "StudentOnly*"@,
        UserID::AllStudents => "Student*"@,
        UserID::AllTeachers => "Ucitel*"@,
        UserID::Everyone => "*"@,
    }
}

/// The number that an identity carries, if it carries one.
pub open spec fn number_of(v: UserID) -> Option<i64> {
    match v {
        UserID::Teacher(id) => Some(id),
        UserID::Student(id) => Some(id),
        UserID::Parent(id) => Some(id),
        UserID::Class(id) => Some(id),
        UserID::Plan(id) => Some(id),
        UserID::CustomPlan(id) => Some(id),
        UserID::StudentClass(id) => Some(id),
        UserID::OnlyStudent(id) => Some(id),
        UserID::StudentPlan(id) => Some(id),
        _ => None,
    }
}

proof fn lemma_letter_run_concat(a: Seq<char>, b: Seq<char>)
    requires
        forall|i: int| 0 <= i < a.len() ==> is_letter(#[trigger] a[i]),
        b.len() == 0 || !is_letter(b[0]),
    ensures
        letter_run(a + b) == a.len(),
    decreases a.len(),
{
    if a.len() == 0 {
        assert(a + b =~= b);
    } else {
        assert((a + b)[0] == a[0]);
        assert((a + b).skip(1) =~= a.skip(1) + b);
        assert forall|i: int| 0 <= i < a.skip(1).len() implies is_letter(
            #[trigger] a.skip(1)[i],
        ) by {
            assert(a.skip(1)[i] == a[i + 1]);
        }
        lemma_letter_run_concat(a.skip(1), b);
    }
}

/// A tag of letters followed by the numeral of `id` is cut where the tag
/// ends, reads back as `id`, and ends in a digit.
proof fn lemma_tag_then_number(tag: Seq<char>, id: i64)
    requires
        forall|i: int| 0 <= i < tag.len() ==> is_letter(#[trigger] tag[i]),
    ensures
        ({
            let s = tag + int_text(id as int);
            let n = letter_run(s) as int;
            &&& n == tag.len()
            &&& s.take(n) == tag
            &&& parse_i64_spec(s.skip(n)) == Some(id)
            &&& s.len() > 0
            &&& is_digit(s.last())
        }),
{
    let num = int_text(id as int);
    let s = tag + num;
    if id < 0 {
        lemma_nat_text((-id) as nat);
        let digits = nat_text((-id) as nat);
        assert(num[0] == '-');
        assert(num.last() == digits.last());
        assert(is_digit(digits[digits.len() - 1]));
    } else {
        lemma_nat_text(id as nat);
        assert(is_digit(num[0]));
        assert(is_digit(num[num.len() - 1]));
    }
    lemma_letter_run_concat(tag, num);
    assert(s.take(tag.len() as int) =~= tag);
    assert(s.skip(tag.len() as int) =~= num);
    lemma_parse_i64_text(id);
    assert(s.last() == num.last());
}

/// Every identity reads back from its own text.
pub proof fn lemma_userid_round_trip(v: UserID)
    ensures
        parse_userid_spec(user_id_text(v)) == Some(v),
{
    reveal_strlit("*");
    reveal_strlit("Student*");
    reveal_strlit("Ucitel*");
    reveal_strlit("StudentOnly*");
    reveal_strlit("Ucitel");
    reveal_strlit("Student");
    reveal_strlit("Rodic");
    reveal_strlit("Trieda");
    reveal_strlit("Plan");
    reveal_strlit("CustPlan");
    reveal_strlit("StudTrieda");
    reveal_strlit("StudentOnly");
    reveal_strlit("StudPlan");
    let s = user_id_text(v);
    match number_of(v) {
        Some(id) => {
            let tag = tag_of(v);
            assert(s == tag + int_text(id as int));
            lemma_tag_then_number(tag, id);
            assert("*"@.last() == '*');
            assert("Student*"@.last() == '*');
            assert("Ucitel*"@.last() == '*');
            assert("StudentOnly*"@.last() == '*');
            assert(tagged(tag, id) == Some(v)) by {
                assert("Ucitel"@[0] == 'U');
                assert("Student"@[0] == 'S');
                assert("Rodic"@[0] == 'R');
                assert("Trieda"@[0] == 'T');
                assert("Plan"@[0] == 'P');
                assert("CustPlan"@[0] == 'C');
                assert("StudTrieda"@[4] == 'T');
                assert("StudentOnly"@[4] == 'e');
                assert("StudPlan"@[4] == 'P');
            }
        },
        None => {
            assert("*"@[0] == '*');
            assert("Student*"@[0] == 'S');
            assert("Ucitel*"@[0] == 'U');
            assert("StudentOnly*"@[7] == 'O');
            assert("Student*"@[7] == '*');
        },
    }
}

/// A text that reads as an identity is that identity's group text, or its
/// tag followed by a numeral of its number: no other text is accepted.
pub proof fn lemma_parse_userid_shape(s: Seq<char>, v: UserID)
    requires
        parse_userid_spec(s) == Some(v),
    ensures
        match number_of(v) {
            None => s == user_id_text(v),
            Some(id) => exists|numeral: Seq<char>|
                s == tag_of(v) + numeral && parse_i64_spec(numeral) == Some(id),
        },
{
    if s == "*"@ || s == "Student*"@ || s == "Ucitel*"@ || s == "StudentOnly*"@ {
    } else {
        let n = letter_run(s) as int;
        lemma_letter_run_bound(s);
        let numeral = s.skip(n);
        assert(s =~= s.take(n) + numeral);
        let id = parse_i64_spec(numeral)->0;
        assert(tagged(s.take(n), id) == Some(v));
        assert(s == tag_of(v) + numeral && parse_i64_spec(numeral) == Some(id));
    }
}

proof fn lemma_letter_run_bound(s: Seq<char>)
    ensures
        letter_run(s) <= s.len(),
    decreases s.len(),
{
    if s.len() > 0 && is_letter(s[0]) {
        lemma_letter_run_bound(s.skip(1));
    }
}

/// Writes an identity as the portal does.
pub fn get_string_representation(item_type: &UserID) -> (r: String)
    ensures
        r@ == user_id_text(*item_type),
{
    match item_type {
        UserID::Teacher(id) => write_tagged("Ucitel", *id),
        UserID::Student(id) => write_tagged("Student", *id),
        UserID::Parent(id) => write_tagged("Rodic", *id),
        UserID::Class(id) => write_tagged("Trieda", *id),
        UserID::Plan(id) => write_tagged("Plan", *id),
        UserID::CustomPlan(id) => write_tagged("CustPlan", *id),
        UserID::StudentClass(id) => write_tagged("StudTrieda", *id),
        UserID::OnlyStudent(id) => write_tagged("StudentOnly", *id),
        UserID::StudentPlan(id) => write_tagged("StudPlan", *id),
        UserID::OnlyAllStudents => String::from_str("StudentOnly*"),
        UserID::AllStudents => String::from_str("Student*"),
        UserID::AllTeachers => String::from_str("Ucitel*"),
        UserID::Everyone => String::from_str("*"),
    }
}

fn write_tagged(tag: &str, id: i64) -> (r: String)
    ensures
        r@ == tag@ + int_text(id as int),
{
    let mut out = String::from_str(tag);
    push_i64(&mut out, id);
    out
}

/// The number of letters that `v` begins with.
fn leading_letters(v: &Vec<char>) -> (n: usize)
    ensures
        n == letter_run(v@),
        n <= v.len(),
{
    let mut i: usize = 0;
    assert(v@.skip(0) =~= v@);
    while i < v.len()
        invariant
            i <= v.len(),
            letter_run(v@) == i + letter_run(v@.skip(i as int)),
        decreases v.len() - i,
    {
        let c: u32 = v[i] as u32;
        let letter = (65 <= c && c <= 90) || (97 <= c && c <= 122);
        proof {
            let rest = v@.skip(i as int);
            assert(rest[0] == v@[i as int]);
            assert(rest.skip(1) =~= v@.skip(i + 1));
        }
        if !letter {
            return i;
        }
        i += 1;
    }
    assert(v@.skip(i as int).len() == 0);
    i
}

/// Reads an identity as the portal writes it. `None` for a text of any
/// other shape.
pub fn parse_userid(s: &str) -> (r: Option<UserID>)
    ensures
        r == parse_userid_spec(s@),
{
    let v = chars_of(s);
    if text_is(&v, "*") {
        return Some(UserID::Everyone);
    }
    if text_is(&v, "Student*") {
        return Some(UserID::AllStudents);
    }
    if text_is(&v, "Ucitel*") {
        return Some(UserID::AllTeachers);
    }
    if text_is(&v, "StudentOnly*") {
        return Some(UserID::OnlyAllStudents);
    }
    let n = leading_letters(&v);
    assert(v@.skip(n as int) =~= v@.subrange(n as int, v@.len() as int));
    assert(v@.take(n as int) =~= v@.subrange(0, n as int));
    let id = match parse_i64_in(&v, n, v.len()) {
        Some(id) => id,
        None => {
            return None;
        },
    };
    if range_is(&v, 0, n, "Ucitel") {
        Some(UserID::Teacher(id))
    } else if range_is(&v, 0, n, "Student") {
        Some(UserID::Student(id))
    } else if range_is(&v, 0, n, "Rodic") {
        Some(UserID::Parent(id))
    } else if range_is(&v, 0, n, "Trieda") {
        Some(UserID::Class(id))
    } else if range_is(&v, 0, n, "Plan") {
        Some(UserID::Plan(id))
    } else if range_is(&v, 0, n, "CustPlan") {
        Some(UserID::CustomPlan(id))
    } else if range_is(&v, 0, n, "StudTrieda") {
        Some(UserID::StudentClass(id))
    } else if range_is(&v, 0, n, "StudentOnly") {
        Some(UserID::OnlyStudent(id))
    } else if range_is(&v, 0, n, "StudPlan") {
        Some(UserID::StudentPlan(id))
    } else {
        None
    }
}

} // verus!
