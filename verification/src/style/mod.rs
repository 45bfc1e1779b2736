//! Styles and the control sequences that switch them on.

pub mod align;
pub mod color;
pub mod line;
pub mod orientation;
pub mod text;

use vstd::prelude::*;

verus! {

/// A style that is switched on by a control sequence.
pub trait PrintableStyle {
    /// The control sequence that switches the style on.
    spec fn sequence(&self) -> Seq<char>;

    fn print(&self) -> (sequence: String)
        ensures
            sequence@ == self.sequence(),
    ;
}

/// The control sequence that resets every style.
pub open spec fn reset_sequence() -> Seq<char> {
    "\x1b[0m"@
}

/// The control sequence to send to switch the style `s` on.
pub fn set_style<S: PrintableStyle>(s: S) -> (sequence: String)
    ensures
        sequence@ == s.sequence(),
{
    s.print()
}

/// The control sequence to send to reset every style.
pub fn reset() -> (sequence: String)
    ensures
        sequence@ == reset_sequence(),
{
    String::from_str("\x1b[0m")
}

} // verus!
