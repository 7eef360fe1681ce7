//! The incremental decision protocol shared by every situation: a lookahead
//! window in, an edit instruction and a stack transition out.
use vstd::prelude::*;

use crate::sittest::SitHiddenTest;
use crate::sittest::SitTest;
use crate::sittest::SitXyes;

verus! {

/// Presentation tag of ordinary content.
pub const COLOR_NORMAL: u32 = 0x0000_0000;

/// Presentation tag of a command-like position.
pub const COLOR_CMD: u32 = 0x0300_00c0;

/// The buffered, not yet consumed input, and whether more bytes may still
/// arrive after it.
pub struct Horizon<'a> {
    pub input: &'a [u8],
    pub is_lengthenable: bool,
}

/// A fatal parse error, carried unchanged up to the driver.
#[derive(Clone, Copy, Debug, PartialEq, Eq)]
pub struct UnsupportedSyntax {
    pub code: u32,
    pub at: usize,
}

/// What to do with the situation stack after an edit.
#[derive(Debug)]
pub enum Transition {
    /// Keep this situation and wait for a larger window.
    Flush,
    /// As `Flush`, and pop this situation if the window is final.
    FlushPopOnEof,
    /// Put another situation in place of this one.
    Replace(Box<Sit>),
    /// Put another situation above this one.
    Push(Box<Sit>),
    /// Remove this situation.
    Pop,
    /// Stop with a fatal parse error.
    Abort(UnsupportedSyntax),
}

/// One decision: `transform` is (skip, span, replacement). The first `skip`
/// bytes pass through verbatim, the next `span` bytes are kept if the
/// replacement is `None` and replaced by it otherwise.
#[derive(Debug)]
pub struct WhatNow {
    pub transform: (usize, usize, Option<Vec<u8>>),
    pub transition: Transition,
}

/// The generic argument situation, which every idiom hands over to.
#[derive(Clone, Copy, Debug, PartialEq, Eq)]
pub struct SitArg {
    pub end_trigger: u16,
}

/// A situation of the surrounding parser (a quote, a command substitution,
/// an expansion), carried by this core without being looked into.
#[derive(Clone, Copy, Debug, PartialEq, Eq)]
pub struct OuterSit {
    pub id: u32,
    pub color: u32,
}

/// The situations that can stand on the stack.
#[derive(Debug)]
pub enum Sit {
    Test(SitTest),
    HiddenTest(SitHiddenTest),
    Xyes(SitXyes),
    Arg(SitArg),
    Outer(OuterSit),
}

impl Sit {
    pub open spec fn color(&self) -> u32 {
        match self {
            Sit::Test(_) => COLOR_CMD,
            Sit::HiddenTest(_) => COLOR_NORMAL,
            Sit::Xyes(_) => COLOR_NORMAL,
            Sit::Arg(_) => COLOR_NORMAL,
            Sit::Outer(o) => o.color,
        }
    }

    /// The presentation tag, which has no effect on rewriting.
    pub fn get_color(&self) -> (r: u32)
        ensures
            r == self.color(),
    {
        match self {
            Sit::Test(s) => s.get_color(),
            Sit::HiddenTest(s) => s.get_color(),
            Sit::Xyes(s) => s.get_color(),
            Sit::Arg(_) => COLOR_NORMAL,
            Sit::Outer(o) => o.color,
        }
    }
}

/// The replacement of an edit, as bytes.
pub open spec fn alt_view(alt: Option<Vec<u8>>) -> Option<Seq<u8>> {
    match alt {
        Some(v) => Some(v@),
        None => None,
    }
}

/// `w` skips `pre` bytes and governs the `len` bytes after them, putting
/// `alt` in their place when it is `Some`.
pub open spec fn is_edit(w: WhatNow, pre: int, len: int, alt: Option<Seq<u8>>) -> bool {
    &&& w.transform.0 == pre
    &&& w.transform.1 == len
    &&& alt_view(w.transform.2) == alt
}

/// `w` stays within a window of `n` bytes.
pub open spec fn fits(w: WhatNow, n: int) -> bool {
    w.transform.0 + w.transform.1 <= n
}

pub open spec fn is_flush(w: WhatNow, pre: int) -> bool {
    is_edit(w, pre, 0, None) && w.transition is Flush
}

pub open spec fn is_flush_or_pop(w: WhatNow, pre: int) -> bool {
    is_edit(w, pre, 0, None) && w.transition is FlushPopOnEof
}

/// Emit the first `pre` bytes unchanged and wait for more input.
pub fn flush(pre: usize) -> (r: WhatNow)
    ensures
        is_flush(r, pre as int),
{
    WhatNow { transform: (pre, 0, None), transition: Transition::Flush }
}

/// Emit the first `pre` bytes unchanged, wait for more input, and pop if
/// there is none.
pub fn flush_or_pop(pre: usize) -> (r: WhatNow)
    ensures
        is_flush_or_pop(r, pre as int),
{
    WhatNow { transform: (pre, 0, None), transition: Transition::FlushPopOnEof }
}

/// Apply `transform`, then push `sit`.
pub fn push(transform: (usize, usize, Option<Vec<u8>>), sit: Box<Sit>) -> (r: WhatNow)
    ensures
        r.transform == transform,
        r.transition == Transition::Push(sit),
{
    WhatNow { transform, transition: Transition::Push(sit) }
}

/// Apply the edit (`pre`, `len`, `alt`), then pop.
pub fn pop(pre: usize, len: usize, alt: Option<Vec<u8>>) -> (r: WhatNow)
    ensures
        r.transform == (pre, len, alt),
        r.transition is Pop,
{
    WhatNow { transform: (pre, len, alt), transition: Transition::Pop }
}

} // verus!
