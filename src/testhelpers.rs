//! Comparison of decisions, as the situations' tests need it.
use vstd::prelude::*;

use crate::situation::alt_view;
use crate::situation::fits;
use crate::situation::Sit;
use crate::situation::Transition;
use crate::situation::WhatNow;

verus! {

/// Two situations count as the same when they share a presentation tag.
pub open spec fn same_sit(a: Sit, b: Sit) -> bool {
    a.color() == b.color()
}

/// Two transitions are of the same kind, and any situations they carry are
/// the same.
pub open spec fn same_transition(a: Transition, b: Transition) -> bool {
    match a {
        Transition::Flush => b is Flush,
        Transition::FlushPopOnEof => b is FlushPopOnEof,
        Transition::Replace(x) => match b {
            Transition::Replace(y) => same_sit(*x, *y),
            _ => false,
        },
        Transition::Push(x) => match b {
            Transition::Push(y) => same_sit(*x, *y),
            _ => false,
        },
        Transition::Pop => b is Pop,
        Transition::Abort(_) => b is Abort,
    }
}

/// `actual` makes the same edit and the same transition as `expected`.
pub open spec fn same_whatnow(actual: WhatNow, expected: WhatNow) -> bool {
    &&& actual.transform.0 == expected.transform.0
    &&& actual.transform.1 == expected.transform.1
    &&& alt_view(actual.transform.2) == alt_view(expected.transform.2)
    &&& same_transition(actual.transition, expected.transition)
}

fn bytes_eq(a: &Vec<u8>, b: &Vec<u8>) -> (r: bool)
    ensures
        r == (a@ == b@),
{
    if a.len() != b.len() {
        return false;
    }
    let mut i: usize = 0;
    while i < a.len()
        invariant
            a@.len() == b@.len(),
            i <= a@.len(),
            forall|j: int| 0 <= j < i ==> a@[j] == b@[j],
        decreases a@.len() - i,
    {
        if a[i] != b[i] {
            return false;
        }
        i = i + 1;
    }
    assert(a@ =~= b@);
    true
}

fn alt_eq(a: &Option<Vec<u8>>, b: &Option<Vec<u8>>) -> (r: bool)
    ensures
        r == (alt_view(*a) == alt_view(*b)),
{
    match (a, b) {
        (Some(x), Some(y)) => bytes_eq(x, y),
        (None, None) => true,
        _ => false,
    }
}

pub fn sit_eq(a: &Sit, b: &Sit) -> (r: bool)
    ensures
        r == same_sit(*a, *b),
{
    a.get_color() == b.get_color()
}

pub fn transition_eq(a: &Transition, b: &Transition) -> (r: bool)
    ensures
        r == same_transition(*a, *b),
{
    match a {
        Transition::Flush => matches!(b, Transition::Flush),
        Transition::FlushPopOnEof => matches!(b, Transition::FlushPopOnEof),
        Transition::Replace(x) => match b {
            Transition::Replace(y) => sit_eq(x, y),
            _ => false,
        },
        Transition::Push(x) => match b {
            Transition::Push(y) => sit_eq(x, y),
            _ => false,
        },
        Transition::Pop => matches!(b, Transition::Pop),
        Transition::Abort(_) => matches!(b, Transition::Abort(_)),
    }
}

/// Whether `actual`, a decision that stays within a window of
/// `horizon_len` bytes, matches `expected`.
pub fn whatnow_eq(horizon_len: usize, actual: &WhatNow, expected: &WhatNow) -> (r: bool)
    requires
        fits(*actual, horizon_len as int),
    ensures
        r == same_whatnow(*actual, *expected),
{
    let eq = actual.transform.0 == expected.transform.0 && actual.transform.1
        == expected.transform.1 && alt_eq(&actual.transform.2, &expected.transform.2);
    transition_eq(&actual.transition, &expected.transition) && eq
}

} // verus!
