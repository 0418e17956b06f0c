//! Fresh identifiers: lock tokens and entry and waiter ids are version 4 UUIDs
//! drawn from the random source, one draw for each.
use vstd::prelude::*;
use crate::platform::{is_uuid_v4_text, new_uuid_v4};

verus! {

/// The text of a UUID drawn from the random source. Only `draw_uuid` makes one,
/// so a text that is the text of a `DrawnUuid` came from a draw.
pub struct DrawnUuid {
    text: String,
}

impl DrawnUuid {
    /// The drawn UUID's text.
    pub closed spec fn drawn_text(&self) -> Seq<char> {
        self.text@
    }

    /// The drawn UUID's text, handed out.
    pub fn into_text(self) -> (r: String)
        ensures
            r@ == self.drawn_text(),
    {
        self.text
    }
}

/// `t` is the text of a UUID drawn from the random source (not one written out).
pub open spec fn is_drawn_uuid(t: Seq<char>) -> bool {
    exists|d: DrawnUuid| #[trigger] d.drawn_text() == t
}

/// Draws a fresh version 4 UUID.
pub fn draw_uuid() -> (r: DrawnUuid)
    ensures
        is_uuid_v4_text(r.drawn_text()),
{
    DrawnUuid { text: new_uuid_v4() }
}

/// Draws a fresh version 4 UUID and gives its text, which is marked as drawn.
pub fn fresh_uuid_text() -> (r: String)
    ensures
        is_uuid_v4_text(r@),
        is_drawn_uuid(r@),
{
    let d = draw_uuid();
    let ghost g = d;
    let r = d.into_text();
    assert(g.drawn_text() == r@);
    r
}

} // verus!
