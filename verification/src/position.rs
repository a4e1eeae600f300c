//! Placement of content along one axis of the screen.

use vstd::prelude::*;

verus! {

/// Where content goes along one axis of the screen.
#[derive(Clone, Copy, Debug, PartialEq, Eq, Structural)]
pub enum Position {
    Start,
    Center,
    End,
}

impl Position {
    /// The offset at which content of half-length `offset` starts on an axis
    /// of length `len`, as a mathematical integer.
    ///
    /// `Start` puts the content one cell in, `Center` puts its middle on the
    /// middle of the axis, and `End` leaves a margin of two cells after it.
    /// Content that does not fit is put at offset zero.
    pub open spec fn offset_of(self, len: int, offset: int) -> int {
        match self {
            Position::Start => 1,
            Position::Center => if len / 2 >= offset { len / 2 - offset } else { 0 },
            Position::End => if len >= 2 * offset + 2 { len - (2 * offset + 2) } else { 0 },
        }
    }

    /// Computes the offset of content with half-length `offset` on an axis of
    /// length `len`. Never underflows: content longer than the axis yields 0.
    pub fn calculate(&self, len: u16, offset: u16) -> (r: u16)
        ensures
            r == self.offset_of(len as int, offset as int),
            *self is Start ==> r == 1,
            !(*self is Start) ==> r <= len,
    {
        match self {
            Position::Start => 1,
            Position::Center => (len / 2).saturating_sub(offset),
            Position::End => {
                let needed: u32 = offset as u32 * 2 + 2;
                if len as u32 >= needed {
                    (len as u32 - needed) as u16
                } else {
                    0
                }
            },
        }
    }
}

/// No offset is negative, whatever the lengths, also where the content is
/// longer than the axis: `Start` gives one, and `Center` and `End` give an
/// offset within the axis, which is zero where the content does not fit.
pub proof fn law_offset_is_never_negative(position: Position, len: int, half: int)
    requires
        0 <= len,
        0 <= half,
    ensures
        0 <= position.offset_of(len, half),
        position is Start ==> position.offset_of(len, half) == 1,
        !(position is Start) ==> position.offset_of(len, half) <= len,
        position is Center && half > len / 2 ==> position.offset_of(len, half) == 0,
        position is End && 2 * half + 2 > len ==> position.offset_of(len, half) == 0,
{
}

impl Default for Position {
    fn default() -> (r: Self)
        ensures
            r == Position::Center,
    {
        Position::Center
    }
}

} // verus!
