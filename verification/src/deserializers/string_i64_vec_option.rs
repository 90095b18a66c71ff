//! A list of numbers that the portal sends as texts, or not at all.

use vstd::prelude::*;

use crate::numeral::{parse_i64, parse_i64_spec};

verus! {

/// The numbers that `texts` stand for, in their order. A text that is no
/// numeral of an `i64` stands for none.
pub open spec fn numbers_of(texts: Seq<String>) -> Seq<i64>
    decreases texts.len(),
{
    if texts.len() == 0 {
        Seq::empty()
    } else {
        match parse_i64_spec(texts.last()@) {
            Some(n) => numbers_of(texts.drop_last()).push(n),
            None => numbers_of(texts.drop_last()),
        }
    }
}

/// Reads the list. A missing list stays missing; an empty one is read as an
/// empty list, which is not the same.
pub fn deserialize(value: Option<&Vec<String>>) -> (r: Option<Vec<i64>>)
    ensures
        match value {
            Some(texts) => r matches Some(numbers) && numbers@ == numbers_of(texts@),
            None => r is None,
        },
{
    let texts = match value {
        Some(texts) => texts,
        None => {
            return None;
        },
    };
    let mut out: Vec<i64> = Vec::new();
    let mut i: usize = 0;
    while i < texts.len()
        invariant
            i <= texts.len(),
            out@ == numbers_of(texts@.take(i as int)),
        decreases texts.len() - i,
    {
        proof {
            assert(texts@.take(i + 1).drop_last() =~= texts@.take(i as int));
        }
        match parse_i64(texts[i].as_str()) {
            Some(n) => {
                out.push(n);
            },
            None => {},
        }
        i += 1;
    }
    assert(texts@.take(i as int) =~= texts@);
    Some(out)
}

} // verus!
