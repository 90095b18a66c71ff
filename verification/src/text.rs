//! Searching and cutting character sequences.
//!
//! Portal pages are scanned by literal markers. Everything here works on the
//! characters of a text, so that an index always names a whole character.

use vstd::prelude::*;

verus! {

/// `pat` stands in `s` at index `i`.
pub open spec fn occurs_at(s: Seq<char>, pat: Seq<char>, i: int) -> bool {
    0 <= i && i + pat.len() <= s.len() && s.subrange(i, i + pat.len()) == pat
}

/// The least index at or after `from` at which `pat` stands in `s`.
pub open spec fn first_from(s: Seq<char>, pat: Seq<char>, from: int) -> Option<int>
    decreases s.len() - from,
{
    if from < 0 || from + pat.len() > s.len() {
        None
    } else if occurs_at(s, pat, from) {
        Some(from)
    } else if from >= s.len() {
        None
    } else {
        first_from(s, pat, from + 1)
    }
}

/// The greatest index at which `pat` stands in `s` and ends at or before `end`.
pub open spec fn last_before(s: Seq<char>, pat: Seq<char>, end: int) -> Option<int>
    decreases end,
{
    if end < pat.len() || end > s.len() {
        None
    } else if occurs_at(s, pat, end - pat.len()) {
        Some(end - pat.len())
    } else if end <= 0 {
        None
    } else {
        last_before(s, pat, end - 1)
    }
}

/// `pat` stands somewhere in `s`.
pub open spec fn contains(s: Seq<char>, pat: Seq<char>) -> bool {
    first_from(s, pat, 0) is Some
}

/// What follows the first `pat` in `s`, up to the next `pat` or the end.
/// `None` where `s` holds no `pat`.
pub open spec fn after_first(s: Seq<char>, pat: Seq<char>) -> Option<Seq<char>> {
    match first_from(s, pat, 0) {
        None => None,
        Some(i) => {
            let rest = s.skip(i + pat.len());
            Some(before_first(rest, pat))
        },
    }
}

/// What precedes the first `pat` in `s`; all of `s` where it holds none.
pub open spec fn before_first(s: Seq<char>, pat: Seq<char>) -> Seq<char> {
    match first_from(s, pat, 0) {
        None => s,
        Some(i) => s.take(i),
    }
}

/// What precedes the last but one `pat` in `s`, counted from the right
/// without overlap. `None` where `s` holds fewer than two.
pub open spec fn before_last_two(s: Seq<char>, pat: Seq<char>) -> Option<Seq<char>> {
    match last_before(s, pat, s.len() as int) {
        None => None,
        Some(last) => match last_before(s, pat, last) {
            None => None,
            Some(cut) => Some(s.take(cut)),
        },
    }
}

/// `first_from` finds an occurrence, and none stands before it.
pub proof fn lemma_first_from(s: Seq<char>, pat: Seq<char>, from: int)
    requires
        0 <= from,
    ensures
        match first_from(s, pat, from) {
            Some(i) => from <= i && occurs_at(s, pat, i) && forall|j: int|
                from <= j < i ==> !occurs_at(s, pat, j),
            None => forall|j: int| from <= j ==> !occurs_at(s, pat, j),
        },
    decreases s.len() - from,
{
    if from + pat.len() > s.len() {
    } else if occurs_at(s, pat, from) {
    } else if from >= s.len() {
        assert(s.subrange(from, from + pat.len()) =~= pat);
    } else {
        lemma_first_from(s, pat, from + 1);
    }
}

/// `last_before` finds an occurrence, and none between it and `end`.
pub proof fn lemma_last_before(s: Seq<char>, pat: Seq<char>, end: int)
    requires
        end <= s.len(),
    ensures
        match last_before(s, pat, end) {
            Some(i) => i + pat.len() <= end && occurs_at(s, pat, i) && forall|j: int|
                i < j && j + pat.len() <= end ==> !occurs_at(s, pat, j),
            None => forall|j: int| j + pat.len() <= end ==> !occurs_at(s, pat, j),
        },
    decreases end,
{
    if end < pat.len() {
    } else if occurs_at(s, pat, end - pat.len()) {
    } else if end <= 0 {
        assert(s.subrange(0, 0) =~= pat);
    } else {
        lemma_last_before(s, pat, end - 1);
    }
}

/// The first place where `pat` stands in `s` is `i`, where it stands there
/// and nowhere before.
pub proof fn lemma_first_is(s: Seq<char>, pat: Seq<char>, i: int)
    requires
        occurs_at(s, pat, i),
        forall|j: int| 0 <= j < i ==> !occurs_at(s, pat, j),
    ensures
        first_from(s, pat, 0) == Some(i),
{
    lemma_first_from(s, pat, 0);
}

/// A text in which `pat` stands nowhere has no first place for it.
pub proof fn lemma_first_is_none(s: Seq<char>, pat: Seq<char>)
    requires
        forall|j: int| 0 <= j ==> !occurs_at(s, pat, j),
    ensures
        first_from(s, pat, 0) is None,
{
    lemma_first_from(s, pat, 0);
}

/// `c` is a tab, a line feed or a carriage return.
pub open spec fn is_break(c: char) -> bool {
    c == '\t' || c == '\n' || c == '\r'
}

/// `s` without its tabs, line feeds and carriage returns.
pub open spec fn without_breaks(s: Seq<char>) -> Seq<char>
    decreases s.len(),
{
    if s.len() == 0 {
        Seq::empty()
    } else if is_break(s.last()) {
        without_breaks(s.drop_last())
    } else {
        without_breaks(s.drop_last()).push(s.last())
    }
}

/// What stands between the first `marker` of `s` and the `stop` that
/// follows it: the text after that `marker`, cut at the next `marker` and
/// then at the first `stop`, where there is one. `None` where `s` holds no
/// `marker`.
pub open spec fn between(s: Seq<char>, marker: Seq<char>, stop: Seq<char>) -> Option<Seq<char>> {
    match after_first(s, marker) {
        Some(segment) => Some(before_first(segment, stop)),
        None => None,
    }
}

/// Within a stretch of `s`, `pat` stands where it stands in `s`.
pub proof fn lemma_occurs_in_range(s: Seq<char>, pat: Seq<char>, from: int, to: int, i: int)
    requires
        0 <= from <= i,
        i + pat.len() <= to <= s.len(),
    ensures
        occurs_at(s.subrange(from, to), pat, i - from) == occurs_at(s, pat, i),
{
    assert(s.subrange(from, to).subrange(i - from, i - from + pat.len()) =~= s.subrange(
        i,
        i + pat.len(),
    ));
}

/// Whether `pat` stands in `s` at `i`.
pub fn matches_at(s: &Vec<char>, pat: &Vec<char>, i: usize) -> (r: bool)
    ensures
        r == occurs_at(s@, pat@, i as int),
{
    if pat.len() > s.len() || i > s.len() - pat.len() {
        return false;
    }
    let mut k: usize = 0;
    while k < pat.len()
        invariant
            k <= pat.len(),
            i + pat.len() <= s.len(),
            forall|j: int| 0 <= j < k ==> s@[i + j] == pat@[j],
        decreases pat.len() - k,
    {
        if s[i + k] != pat[k] {
            proof {
                let sub = s@.subrange(i as int, i + pat.len());
                assert(sub[k as int] == s@[i + k]);
            }
            return false;
        }
        k += 1;
    }
    assert(s@.subrange(i as int, i + pat.len()) =~= pat@);
    true
}

/// Whether `s[start..end]` is the text `lit`.
pub fn range_is(s: &Vec<char>, start: usize, end: usize, lit: &str) -> (r: bool)
    requires
        start <= end <= s.len(),
    ensures
        r == (s@.subrange(start as int, end as int) == lit@),
{
    let pat = chars_of(lit);
    if pat.len() != end - start {
        return false;
    }
    let r = matches_at(s, &pat, start);
    assert(start + pat@.len() == end);
    r
}

/// Whether `s` is the text `lit`.
pub fn text_is(s: &Vec<char>, lit: &str) -> (r: bool)
    ensures
        r == (s@ == lit@),
{
    assert(s@.subrange(0, s@.len() as int) =~= s@);
    range_is(s, 0, s.len(), lit)
}

/// The first place in `s[from..to]` where `pat` stands, as an index of `s`.
pub fn find_in(s: &Vec<char>, pat: &Vec<char>, from: usize, to: usize) -> (r: Option<usize>)
    requires
        from <= to <= s.len(),
    ensures
        match r {
            Some(i) => from <= i && i + pat.len() <= to && first_from(
                s@.subrange(from as int, to as int),
                pat@,
                0,
            ) == Some(i - from),
            None => first_from(s@.subrange(from as int, to as int), pat@, 0) is None,
        },
{
    let ghost sub = s@.subrange(from as int, to as int);
    if pat.len() > to - from {
        return None;
    }
    let last: usize = to - pat.len();
    let mut i: usize = from;
    loop
        invariant
            from <= i <= last,
            last == to - pat.len(),
            to <= s.len(),
            sub == s@.subrange(from as int, to as int),
            first_from(sub, pat@, 0) == first_from(sub, pat@, i - from),
        decreases last - i,
    {
        proof {
            lemma_occurs_in_range(s@, pat@, from as int, to as int, i as int);
        }
        if matches_at(s, pat, i) {
            return Some(i);
        }
        if i == last {
            assert(first_from(sub, pat@, i - from + 1) is None);
            return None;
        }
        i += 1;
    }
}

/// The last place in `s[from..to]` where `pat` stands and ends at or
/// before `end`, as an index of `s`.
pub fn rfind_in(s: &Vec<char>, pat: &Vec<char>, from: usize, to: usize, end: usize) -> (r: Option<
    usize,
>)
    requires
        from <= end <= to <= s.len(),
    ensures
        match r {
            Some(i) => from <= i && i + pat.len() <= end && last_before(
                s@.subrange(from as int, to as int),
                pat@,
                end - from,
            ) == Some(i - from),
            None => last_before(s@.subrange(from as int, to as int), pat@, end - from) is None,
        },
{
    let ghost sub = s@.subrange(from as int, to as int);
    let mut e: usize = end;
    while e - from >= pat.len()
        invariant
            from <= e <= end <= to <= s.len(),
            sub == s@.subrange(from as int, to as int),
            last_before(sub, pat@, end - from) == last_before(sub, pat@, e - from),
        decreases e,
    {
        proof {
            lemma_occurs_in_range(s@, pat@, from as int, to as int, e - pat.len());
        }
        if matches_at(s, pat, e - pat.len()) {
            return Some(e - pat.len());
        }
        if e == from {
            return None;
        }
        e -= 1;
    }
    None
}

/// The text `s[from..to]`.
pub fn string_of(s: &Vec<char>, from: usize, to: usize) -> (r: String)
    requires
        from <= to <= s.len(),
    ensures
        r@ == s@.subrange(from as int, to as int),
{
    let mut out = String::new();
    let mut i: usize = from;
    while i < to
        invariant
            from <= i <= to <= s.len(),
            out@ == s@.subrange(from as int, i as int),
        decreases to - i,
    {
        out.push(s[i]);
        assert(out@ =~= s@.subrange(from as int, i + 1));
        i += 1;
    }
    out
}

/// Whether `needle` stands somewhere in `hay`.
pub fn contains_text(hay: &str, needle: &str) -> (r: bool)
    ensures
        r == contains(hay@, needle@),
{
    let v = chars_of(hay);
    let pat = chars_of(needle);
    assert(v@.subrange(0, v@.len() as int) =~= v@);
    find_in(&v, &pat, 0, v.len()).is_some()
}

/// What follows the first `marker` of `page`, up to the next `marker` or
/// the end.
pub fn cut_after(page: &str, marker: &str) -> (r: Option<String>)
    ensures
        match r {
            Some(found) => after_first(page@, marker@) == Some(found@),
            None => after_first(page@, marker@) is None,
        },
{
    let v = chars_of(page);
    let m = chars_of(marker);
    assert(v@.subrange(0, v@.len() as int) =~= v@);
    let start = match find_in(&v, &m, 0, v.len()) {
        Some(i) => i + m.len(),
        None => {
            return None;
        },
    };
    assert(v@.skip(start as int) =~= v@.subrange(start as int, v@.len() as int));
    let segment_end = match find_in(&v, &m, start, v.len()) {
        Some(j) => j,
        None => v.len(),
    };
    assert(before_first(v@.skip(start as int), m@) =~= v@.subrange(
        start as int,
        segment_end as int,
    ));
    Some(string_of(&v, start, segment_end))
}

/// The text between the first `marker` of `page` and the `stop` after it.
pub fn cut_between(page: &str, marker: &str, stop: &str) -> (r: Option<String>)
    ensures
        match r {
            Some(found) => between(page@, marker@, stop@) == Some(found@),
            None => between(page@, marker@, stop@) is None,
        },
{
    let v = chars_of(page);
    let m = chars_of(marker);
    let q = chars_of(stop);
    assert(v@.subrange(0, v@.len() as int) =~= v@);
    let start = match find_in(&v, &m, 0, v.len()) {
        Some(i) => i + m.len(),
        None => {
            return None;
        },
    };
    let ghost rest = v@.skip(start as int);
    assert(rest =~= v@.subrange(start as int, v@.len() as int));
    let segment_end = match find_in(&v, &m, start, v.len()) {
        Some(j) => j,
        None => v.len(),
    };
    let ghost segment = before_first(rest, m@);
    assert(segment =~= v@.subrange(start as int, segment_end as int));
    let stop_at = match find_in(&v, &q, start, segment_end) {
        Some(k) => k,
        None => segment_end,
    };
    assert(before_first(segment, q@) =~= v@.subrange(start as int, stop_at as int));
    Some(string_of(&v, start, stop_at))
}

/// `String::push` of std: the character is appended, and nothing else changes.
pub assume_specification[ String::push ](s: &mut String, c: char)
    ensures
        final(s)@ == old(s)@.push(c),
;

/// The characters of `s`, in order.
pub fn chars_of(s: &str) -> (v: Vec<char>)
    ensures
        v@ == s@,
{
    let mut v: Vec<char> = Vec::new();
    for c in it: s.chars()
        invariant
            v@ == it.seq().take(it.index() as int),
            it.seq() == s@,
    {
        v.push(c);
    }
    v
}

} // verus!
