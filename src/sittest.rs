//! The test-expression situations: the entry point that recognises the
//! `-z`/`-n` and `x`-guard idioms, the wrapper that appends the comparison
//! suffix, and the situation that strips the guard's right-hand `x`.
use vstd::prelude::*;
use vstd::slice::slice_subrange;

use crate::microparsers::is_word;
use crate::microparsers::prefixlen;
use crate::microparsers::word_byte;
use crate::situation::alt_view;
use crate::situation::flush;
use crate::situation::flush_or_pop;
use crate::situation::is_edit;
use crate::situation::is_flush;
use crate::situation::is_flush_or_pop;
use crate::situation::push;
use crate::situation::fits;
use crate::situation::Horizon;
use crate::situation::Sit;
use crate::situation::SitArg;
use crate::situation::Transition;
use crate::situation::WhatNow;
use crate::situation::COLOR_CMD;
use crate::situation::COLOR_NORMAL;

verus! {

pub const SPACE: u8 = 0x20;

pub const BANG: u8 = 0x21;

pub const QUOTE: u8 = 0x22;

pub const DASH: u8 = 0x2d;

pub const EQUALS: u8 = 0x3d;

pub const LETTER_N: u8 = 0x6e;

pub const LETTER_X: u8 = 0x78;

pub const LETTER_Z: u8 = 0x7a;

/// `s` starts with the flag `-<letter> `.
pub open spec fn starts_with_flag(s: Seq<u8>, letter: u8) -> bool {
    s.len() >= 3 && s[0] == DASH && s[1] == letter && s[2] == SPACE
}

/// ` = ""`, appended after the operand of `-z`.
pub open spec fn empty_suffix() -> Seq<u8> {
    seq![SPACE, EQUALS, SPACE, QUOTE, QUOTE]
}

/// ` != ""`, appended after the operand of `-n`.
pub open spec fn nonempty_suffix() -> Seq<u8> {
    seq![SPACE, BANG, EQUALS, SPACE, QUOTE, QUOTE]
}

/// `""`, the empty-string token.
pub open spec fn empty_string_token() -> Seq<u8> {
    seq![QUOTE, QUOTE]
}

/// The bytes after a guard's left operand read: one space, `=`, `==` or `!=`,
/// one space, and `x`.
pub open spec fn rhs_is_x(s: Seq<u8>) -> bool {
    ||| s.len() >= 4 && s[0] == SPACE && s[1] == EQUALS && s[2] == SPACE && s[3] == LETTER_X
    ||| s.len() >= 5 && s[0] == SPACE && (s[1] == EQUALS || s[1] == BANG) && s[2] == EQUALS
        && s[3] == SPACE && s[4] == LETTER_X
}

/// `w` applies the edit (`pre`, `len`, `alt`) and hands over to the generic
/// argument situation.
pub open spec fn regular_with(w: WhatNow, pre: int, len: int, alt: Option<Seq<u8>>, end_trigger: u16) -> bool {
    &&& is_edit(w, pre, len, alt)
    &&& match w.transition {
        Transition::Replace(s) => *s == Sit::Arg(SitArg { end_trigger }),
        _ => false,
    }
}

/// `w` consumes nothing and hands over to the generic argument situation.
pub open spec fn fallback(w: WhatNow, end_trigger: u16) -> bool {
    regular_with(w, 0, 0, None, end_trigger)
}

/// `w` deletes a three-byte flag and pushes the wrapper that replays `inner`
/// and then appends `suffix`.
pub open spec fn pushed_hiddentest(w: WhatNow, inner: Option<WhatNow>, suffix: Seq<u8>, end_trigger: u16) -> bool {
    &&& is_edit(w, 0, 3, Some(Seq::empty()))
    &&& match w.transition {
        Transition::Push(s) => match *s {
            Sit::HiddenTest(h) => h.inner == inner && h.end_replace@ == suffix && h.end_trigger == end_trigger,
            _ => false,
        },
        _ => false,
    }
}

/// `w` deletes the leading `x` of a guard and pushes the guard stripper.
pub open spec fn pushed_xyes(w: WhatNow, end_trigger: u16) -> bool {
    &&& is_edit(w, 0, 1, Some(Seq::empty()))
    &&& match w.transition {
        Transition::Push(s) => *s == Sit::Xyes(SitXyes { end_trigger }),
        _ => false,
    }
}

/// What the guard finder reports, given the bytes after the leading `x`'s
/// token and the expression probe's answer on them.
pub open spec fn xyes_comparison(s: Seq<u8>, probe: Result<(bool, usize), ()>) -> Result<bool, ()> {
    match probe {
        Ok((found, n)) => Ok(found && rhs_is_x(s.subrange(n as int, s.len() as int))),
        Err(_) => Err(()),
    }
}

/// Where the token that the entry situation classifies begins: after the
/// flag of `-z`/`-n`, or after a leading `x`.
pub open spec fn test_token_offset(s: Seq<u8>) -> Option<int> {
    if s.len() < 4 {
        None
    } else if starts_with_flag(s, LETTER_Z) || starts_with_flag(s, LETTER_N) {
        Some(3)
    } else if s[0] == LETTER_X {
        Some(1)
    } else {
        None
    }
}

/// The entry situation's decision `w` on the window `s`, given the token
/// classifier's answer `token` at `test_token_offset(s)` and the expression
/// probe's answer `probe` on the bytes after that token.
pub open spec fn test_outcome(
    end_trigger: u16,
    s: Seq<u8>,
    open: bool,
    token: Option<WhatNow>,
    probe: Result<(bool, usize), ()>,
    w: WhatNow,
) -> bool {
    if s.len() < 4 {
        if open {
            is_flush(w, 0)
        } else {
            fallback(w, end_trigger)
        }
    } else if starts_with_flag(s, LETTER_Z) || starts_with_flag(s, LETTER_N) {
        let suffix = if starts_with_flag(s, LETTER_Z) {
            empty_suffix()
        } else {
            nonempty_suffix()
        };
        match token {
            Some(t) => if t.transition is Push {
                pushed_hiddentest(w, token, suffix, end_trigger)
            } else if open {
                is_flush(w, 0)
            } else {
                fallback(w, end_trigger)
            },
            None => fallback(w, end_trigger),
        }
    } else if s[0] == LETTER_X {
        match token {
            Some(t) => if t.transition is Push {
                let rest = s.subrange(t.transform.0 + t.transform.1, s.len() as int);
                match xyes_comparison(rest, probe) {
                    Ok(true) => pushed_xyes(w, end_trigger),
                    Ok(false) => if open {
                        is_flush(w, 0)
                    } else {
                        fallback(w, end_trigger)
                    },
                    Err(_) => fallback(w, end_trigger),
                }
            } else {
                w == t
            },
            None => fallback(w, end_trigger),
        }
    } else {
        fallback(w, end_trigger)
    }
}

/// The entry situation of a test expression.
#[derive(Clone, Copy, Debug, PartialEq, Eq)]
pub struct SitTest {
    pub end_trigger: u16,
}

impl SitTest {
    /// Where the token that `whatnow` needs classified begins in `input`,
    /// if it needs one.
    pub fn token_offset(&self, input: &[u8]) -> (r: Option<usize>)
        ensures
            match r {
                Some(k) => test_token_offset(input@) == Some(k as int),
                None => test_token_offset(input@) is None,
            },
    {
        if input.len() < 4 {
            return None;
        }
        let z = vec![DASH, LETTER_Z, SPACE];
        let n = vec![DASH, LETTER_N, SPACE];
        if prefixlen(input, z.as_slice()) == 3 || prefixlen(input, n.as_slice()) == 3 {
            Some(3)
        } else if input[0] == LETTER_X {
            Some(1)
        } else {
            None
        }
    }

    /// Decides on the next test-expression token. `token` is what the
    /// generic token classifier said at `token_offset`, and `probe` what the
    /// expression-boundary probe said of the nested situation that `token`
    /// pushes, over the bytes after that token (it is read only for the
    /// `x`-guard).
    pub fn whatnow(&self, horizon: &Horizon, token: Option<WhatNow>, probe: Result<(bool, usize), ()>) -> (r: WhatNow)
        requires
            token matches Some(t) ==> fits(t, horizon.input@.len() as int),
            token matches Some(t) ==> (probe matches Ok(p) ==> t.transform.0 + t.transform.1 + p.1
                <= horizon.input@.len()),
        ensures
            test_outcome(self.end_trigger, horizon.input@, horizon.is_lengthenable, token, probe, r),
    {
        let input = horizon.input;
        if input.len() >= 4 {
            let z = vec![DASH, LETTER_Z, SPACE];
            let n = vec![DASH, LETTER_N, SPACE];
            let is_emptystringtest = prefixlen(input, z.as_slice()) == 3;
            let is_nonemptystringtest = prefixlen(input, n.as_slice()) == 3;
            if is_emptystringtest || is_nonemptystringtest {
                let pushes = match &token {
                    Some(t) => matches!(t.transition, Transition::Push(_)),
                    None => false,
                };
                if pushes {
                    let end_replace = if is_emptystringtest {
                        vec![SPACE, EQUALS, SPACE, QUOTE, QUOTE]
                    } else {
                        vec![SPACE, BANG, EQUALS, SPACE, QUOTE, QUOTE]
                    };
                    return push_hiddentest(token, end_replace, self.end_trigger);
                } else if token.is_some() && horizon.is_lengthenable {
                    return flush(0);
                }
            } else if input[0] == LETTER_X {
                match token {
                    Some(t) => {
                        if matches!(t.transition, Transition::Push(_)) {
                            let progress = t.transform.0 + t.transform.1;
                            let rest = slice_subrange(input, progress, input.len());
                            match find_xyes_comparison(rest, probe) {
                                Ok(found) => {
                                    if found {
                                        return push_xyes(self.end_trigger);
                                    }
                                    if horizon.is_lengthenable {
                                        return flush(0);
                                    }
                                },
                                Err(_) => {},
                            }
                        } else {
                            return t;
                        }
                    },
                    None => {},
                }
            }
        } else if horizon.is_lengthenable {
            return flush(0);
        }
        become_regular(self.end_trigger)
    }

    pub fn get_color(&self) -> (r: u32)
        ensures
            r == COLOR_CMD,
    {
        COLOR_CMD
    }
}

/// Hand over to the generic argument situation, consuming nothing.
pub fn become_regular(end_trigger: u16) -> (r: WhatNow)
    ensures
        fallback(r, end_trigger),
{
    become_regular_with((0, 0, None), end_trigger)
}

/// Apply `transform`, then hand over to the generic argument situation.
pub fn become_regular_with(transform: (usize, usize, Option<Vec<u8>>), end_trigger: u16) -> (r: WhatNow)
    ensures
        r.transform == transform,
        regular_with(r, transform.0 as int, transform.1 as int, alt_view(transform.2), end_trigger),
{
    WhatNow { transform, transition: Transition::Replace(Box::new(Sit::Arg(SitArg { end_trigger }))) }
}

/// Delete the three-byte flag and push the wrapper that replays `inner`,
/// then appends `end_replace`.
pub fn push_hiddentest(inner: Option<WhatNow>, end_replace: Vec<u8>, end_trigger: u16) -> (r: WhatNow)
    ensures
        pushed_hiddentest(r, inner, end_replace@, end_trigger),
{
    let sit = SitHiddenTest { inner, end_replace, end_trigger };
    push((0, 3, Some(Vec::new())), Box::new(Sit::HiddenTest(sit)))
}

/// Delete the guard's leading `x` and push the guard stripper.
pub fn push_xyes(end_trigger: u16) -> (r: WhatNow)
    ensures
        pushed_xyes(r, end_trigger),
{
    push((0, 1, Some(Vec::new())), Box::new(Sit::Xyes(SitXyes { end_trigger })))
}

/// The wrapper that replays a captured decision once, then appends its
/// suffix and hands over to the generic argument situation.
#[derive(Debug)]
pub struct SitHiddenTest {
    pub inner: Option<WhatNow>,
    pub end_replace: Vec<u8>,
    pub end_trigger: u16,
}

impl SitHiddenTest {
    /// On the first call, the captured decision with its skip set to zero,
    /// which is then cleared; on a later call, an insertion of `end_replace`
    /// at the start of the window.
    pub fn whatnow(&mut self, _horizon: &Horizon) -> (r: WhatNow)
        ensures
            final(self).end_replace == old(self).end_replace,
            final(self).end_trigger == old(self).end_trigger,
            final(self).inner is None,
            match old(self).inner {
                Some(w) => r.transform == (0usize, w.transform.1, w.transform.2) && r.transition
                    == w.transition,
                None => regular_with(r, 0, 0, Some(old(self).end_replace@), old(self).end_trigger),
            },
    {
        let initial_adventure = self.inner.take();
        match initial_adventure {
            Some(exciting) => {
                let mut exciting = exciting;
                exciting.transform.0 = 0;
                exciting
            },
            None => {
                let alt = self.end_replace.clone();
                assert(alt@ =~= self.end_replace@);
                become_regular_with((0, 0, Some(alt)), self.end_trigger)
            },
        }
    }

    pub fn get_color(&self) -> (r: u32)
        ensures
            r == COLOR_NORMAL,
    {
        COLOR_NORMAL
    }
}

/// The first index from `i` on at which the guard stripper stops: an `x`, or
/// a byte that the generic argument scanner claims; `s.len()` if none.
pub open spec fn xyes_stop(s: Seq<u8>, args: Seq<Option<WhatNow>>, i: int) -> int
    decreases s.len() - i,
{
    if i >= s.len() || i < 0 {
        s.len() as int
    } else if s[i] == LETTER_X || args[i] is Some {
        i
    } else {
        xyes_stop(s, args, i + 1)
    }
}

/// The guard stripper's decision `w` on the window `s`, where `args[i]` is
/// what the generic argument scanner says at byte `i`. The right-hand `x`
/// is passed through unchanged when a word byte follows it, waits for the
/// next byte while it ends an open window, and becomes `""` otherwise.
pub open spec fn xyes_outcome(
    end_trigger: u16,
    s: Seq<u8>,
    open: bool,
    args: Seq<Option<WhatNow>>,
    w: WhatNow,
) -> bool {
    let k = xyes_stop(s, args, 0);
    if k >= s.len() {
        is_flush_or_pop(w, s.len() as int)
    } else if s[k] == LETTER_X {
        if k + 1 < s.len() && word_byte(s[k + 1]) {
            regular_with(w, k, 1, None, end_trigger)
        } else if k + 1 >= s.len() && open {
            is_flush(w, k)
        } else {
            regular_with(w, k, 1, Some(empty_string_token()), end_trigger)
        }
    } else {
        Some(w) == args[k]
    }
}

/// The situation that consumes a confirmed guard's left operand and strips
/// its right-hand `x`.
#[derive(Clone, Copy, Debug, PartialEq, Eq)]
pub struct SitXyes {
    pub end_trigger: u16,
}

impl SitXyes {
    /// Scans the window; `args[i]` is what the generic argument scanner says
    /// at byte `i` (it is read only up to the first `x`).
    pub fn whatnow(&self, horizon: &Horizon, args: Vec<Option<WhatNow>>) -> (r: WhatNow)
        requires
            args@.len() == horizon.input@.len(),
        ensures
            xyes_outcome(self.end_trigger, horizon.input@, horizon.is_lengthenable, args@, r),
    {
        let input = horizon.input;
        let ghost args0 = args@;
        let mut pending = args;
        let mut i: usize = 0;
        while i < input.len()
            invariant
                i <= input@.len(),
                input@ == horizon.input@,
                pending@ == args0,
                args@ == args0,
                args0.len() == input@.len(),
                xyes_stop(input@, args0, 0) == xyes_stop(input@, args0, i as int),
            decreases input@.len() - i,
        {
            if input[i] == LETTER_X {
                assert(xyes_stop(input@, args0, i as int) == i);
                if i + 1 < input.len() && is_word(input[i + 1]) {
                    return become_regular_with((i, 1, None), self.end_trigger);
                }
                if i + 1 >= input.len() && horizon.is_lengthenable {
                    return flush(i);
                }
                let replacement = vec![QUOTE, QUOTE];
                assert(replacement@ =~= empty_string_token());
                return become_regular_with((i, 1, Some(replacement)), self.end_trigger);
            }
            if pending[i].is_some() {
                let res = pending.remove(i);
                return res.unwrap();
            }
            i = i + 1;
        }
        flush_or_pop(input.len())
    }

    pub fn get_color(&self) -> (r: u32)
        ensures
            r == COLOR_NORMAL,
    {
        COLOR_NORMAL
    }
}

/// Decides whether the guard `x<expr> <op> x` stands at `horizon`, the bytes
/// after the leading `x`'s token, given what the expression-boundary probe
/// said of them: `Err` where the probe failed, else whether it found an
/// expression followed by a bare `x` on the right-hand side.
pub fn find_xyes_comparison(horizon: &[u8], probe: Result<(bool, usize), ()>) -> (r: Result<bool, ()>)
    requires
        probe matches Ok(p) ==> p.1 <= horizon@.len(),
    ensures
        r == xyes_comparison(horizon@, probe),
{
    match probe {
        Ok((found, exprlen)) => {
            let after = slice_subrange(horizon, exprlen, horizon.len());
            Ok(found && has_rhs_xyes(after))
        },
        Err(_) => Err(()),
    }
}

enum Lex {
    Start,
    FirstSpace,
    Negation,
    FirstEq,
    SecondEq,
    SecondSpace,
}

/// The lexer has read the first `i` bytes of `s` and is in `state`.
spec fn lex_reached(state: Lex, s: Seq<u8>, i: int) -> bool {
    match state {
        Lex::Start => i == 0,
        Lex::FirstSpace => i == 1 && s[0] == SPACE,
        Lex::FirstEq => i == 2 && s[0] == SPACE && s[1] == EQUALS,
        Lex::Negation => i == 2 && s[0] == SPACE && s[1] == BANG,
        Lex::SecondEq => i == 3 && s[0] == SPACE && (s[1] == EQUALS || s[1] == BANG) && s[2] == EQUALS,
        Lex::SecondSpace => s[0] == SPACE && ((i == 3 && s[1] == EQUALS && s[2] == SPACE) || (i == 4
            && (s[1] == EQUALS || s[1] == BANG) && s[2] == EQUALS && s[3] == SPACE)),
    }
}

/// The lookahead oracle: reads one space, `=`, `==` or `!=`, one space and
/// `x`, accepting as soon as the `x` is read and rejecting at the first byte
/// that does not fit.
pub fn has_rhs_xyes(horizon: &[u8]) -> (r: bool)
    ensures
        r == rhs_is_x(horizon@),
{
    let mut state = Lex::Start;
    let mut i: usize = 0;
    while i < horizon.len()
        invariant
            i <= horizon@.len(),
            lex_reached(state, horizon@, i as int),
        decreases horizon@.len() - i,
    {
        let byte = horizon[i];
        let next = match state {
            Lex::Start => if byte == SPACE {
                Some(Lex::FirstSpace)
            } else {
                None
            },
            Lex::FirstSpace => if byte == EQUALS {
                Some(Lex::FirstEq)
            } else if byte == BANG {
                Some(Lex::Negation)
            } else {
                None
            },
            Lex::Negation => if byte == EQUALS {
                Some(Lex::SecondEq)
            } else {
                None
            },
            Lex::FirstEq => if byte == EQUALS {
                Some(Lex::SecondEq)
            } else if byte == SPACE {
                Some(Lex::SecondSpace)
            } else {
                None
            },
            Lex::SecondEq => if byte == SPACE {
                Some(Lex::SecondSpace)
            } else {
                None
            },
            Lex::SecondSpace => {
                if byte == LETTER_X {
                    return true;
                }
                None
            },
        };
        match next {
            Some(s) => {
                state = s;
            },
            None => {
                return false;
            },
        }
        i = i + 1;
    }
    false
}

/// Every decision of the entry situation stays within its window, as long
/// as the token classifier's answer does.
pub proof fn lemma_test_outcome_fits(
    end_trigger: u16,
    s: Seq<u8>,
    open: bool,
    token: Option<WhatNow>,
    probe: Result<(bool, usize), ()>,
    w: WhatNow,
)
    requires
        token matches Some(t) ==> fits(t, s.len() as int),
        test_outcome(end_trigger, s, open, token, probe, w),
    ensures
        fits(w, s.len() as int),
{
}

/// Every decision of the guard stripper stays within its window, as long as
/// the generic argument scanner's answers do.
pub proof fn lemma_xyes_outcome_fits(
    end_trigger: u16,
    s: Seq<u8>,
    open: bool,
    args: Seq<Option<WhatNow>>,
    w: WhatNow,
)
    requires
        args.len() == s.len(),
        forall|i: int| 0 <= i < args.len() ==> (#[trigger] args[i] matches Some(a) ==> fits(a, s.len() as int)),
        xyes_outcome(end_trigger, s, open, args, w),
    ensures
        fits(w, s.len() as int),
{
    lemma_xyes_stop_bounds(s, args, 0);
}

proof fn lemma_xyes_stop_bounds(s: Seq<u8>, args: Seq<Option<WhatNow>>, i: int)
    requires
        0 <= i,
    ensures
        0 <= xyes_stop(s, args, i) <= s.len(),
    decreases s.len() - i,
{
    if i < s.len() && !(s[i] == LETTER_X || args[i] is Some) {
        lemma_xyes_stop_bounds(s, args, i + 1);
    }
}

/// Already hardened text is left alone: a window that opens with a quote, as
/// in `"$x" = ""`, is handed to the generic argument situation untouched,
/// whatever the collaborators answer.
pub proof fn lemma_hardened_untouched(
    end_trigger: u16,
    s: Seq<u8>,
    open: bool,
    token: Option<WhatNow>,
    probe: Result<(bool, usize), ()>,
    w: WhatNow,
)
    requires
        s.len() >= 4,
        s[0] == QUOTE,
        test_outcome(end_trigger, s, open, token, probe, w),
    ensures
        fallback(w, end_trigger),
{
}

} // verus!
