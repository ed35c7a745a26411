use vstd::prelude::*;

verus! {

/// The direction of a message between the two windows.
#[derive(Clone, Copy, Debug, PartialEq, Eq, Structural)]
pub enum Request {
    Send,
    Recieve,
}

/// A message between the two windows.
#[derive(Clone, Copy, Debug, PartialEq, Eq, Structural)]
pub enum Message {
    Next(Request, usize),
    Prev(Request, usize),
    Clear(Request),
    Show(Request),
    Hide(Request),
    Index(Request, usize),
    IsVisible(Request, bool),
}

} // verus!
