//! The options of a pseudo-terminal request.

use vstd::prelude::*;
use vstd::string::StringExecFns;

verus! {

/// The width, in character cells, assumed when the local terminal does not
/// tell its size.
pub const FALLBACK_WIDTH: u32 = 80;

/// The height, in character cells, assumed when the local terminal does not
/// tell its size.
pub const FALLBACK_HEIGHT: u32 = 24;

/// The terminal type that an interactive session asks for.
pub const DEFAULT_TERM: &'static str = "xterm";

/// The dimensions to ask for, given what a query of the local terminal
/// returned: the reported size where it is usable, else 80 by 24. A size
/// with an empty dimension is no size.
pub open spec fn usable_size(probe: Option<(u16, u16)>) -> (u32, u32) {
    match probe {
        Some((width, height)) => if width > 0 && height > 0 {
            (width as u32, height as u32)
        } else {
            (FALLBACK_WIDTH, FALLBACK_HEIGHT)
        },
        None => (FALLBACK_WIDTH, FALLBACK_HEIGHT),
    }
}

/// Computes [`usable_size`]. A failed query never fails the caller.
pub fn local_size(probe: Option<(u16, u16)>) -> (size: (u32, u32))
    ensures
        size == usable_size(probe),
        size.0 > 0,
        size.1 > 0,
{
    match probe {
        Some((width, height)) => {
            if width > 0 && height > 0 {
                (width as u32, height as u32)
            } else {
                (FALLBACK_WIDTH, FALLBACK_HEIGHT)
            }
        },
        None => (FALLBACK_WIDTH, FALLBACK_HEIGHT),
    }
}

/// The mathematical value of [`PtyOptions`].
pub struct PtyOptionsView {
    pub term: Seq<char>,
    pub width: u32,
    pub height: u32,
}

impl PtyOptionsView {
    /// Both dimensions are positive.
    pub open spec fn wf(self) -> bool {
        self.width > 0 && self.height > 0
    }

    /// The options of an interactive session on a local terminal of which a
    /// size query returned `probe`.
    pub open spec fn for_terminal(probe: Option<(u16, u16)>) -> PtyOptionsView {
        PtyOptionsView {
            term: DEFAULT_TERM@,
            width: usable_size(probe).0,
            height: usable_size(probe).1,
        }
    }
}

/// Terminal type and dimensions of a pseudo-terminal request. Both
/// dimensions are positive.
#[derive(Debug, PartialEq, Eq)]
pub struct PtyOptions {
    term: String,
    width: u32,
    height: u32,
}

impl View for PtyOptions {
    type V = PtyOptionsView;

    closed spec fn view(&self) -> PtyOptionsView {
        PtyOptionsView { term: self.term@, width: self.width, height: self.height }
    }
}

impl Clone for PtyOptions {
    fn clone(&self) -> (copy: PtyOptions)
        ensures
            copy@ == self@,
            copy@.wf(),
    {
        proof {
            use_type_invariant(self);
        }
        PtyOptions { term: self.term.clone(), width: self.width, height: self.height }
    }
}

impl PtyOptions {
    #[verifier::type_invariant]
    spec fn inv(self) -> bool {
        self@.wf()
    }

    /// Options with the given terminal type and dimensions, or nothing if a
    /// dimension is zero.
    pub fn new(term: &str, width: u32, height: u32) -> (options: Option<PtyOptions>)
        ensures
            options is Some <==> width > 0 && height > 0,
            options matches Some(o) ==> o@ == (PtyOptionsView { term: term@, width, height }),
    {
        if width > 0 && height > 0 {
            Some(PtyOptions { term: String::from_str(term), width, height })
        } else {
            None
        }
    }

    /// The options of an interactive session: terminal type `xterm`, and the
    /// size that the local terminal reported, or 80 by 24 without one.
    pub fn for_terminal(probe: Option<(u16, u16)>) -> (options: PtyOptions)
        ensures
            options@ == PtyOptionsView::for_terminal(probe),
            options@.wf(),
    {
        let (width, height) = local_size(probe);
        PtyOptions { term: String::from_str(DEFAULT_TERM), width, height }
    }

    /// The terminal type, such as `xterm`.
    pub fn term(&self) -> (term: &str)
        ensures
            term@ == self@.term,
    {
        self.term.as_str()
    }

    /// The width in character cells.
    pub fn width(&self) -> (width: u32)
        ensures
            width == self@.width,
            width > 0,
    {
        proof {
            use_type_invariant(self);
        }
        self.width
    }

    /// The height in character cells.
    pub fn height(&self) -> (height: u32)
        ensures
            height == self@.height,
            height > 0,
    {
        proof {
            use_type_invariant(self);
        }
        self.height
    }
}

} // verus!
