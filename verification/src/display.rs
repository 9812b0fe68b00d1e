//! The display driver's pure half: decoding a digit pair into the 14
//! segment lines of the two-digit display. The host applies a frame to the
//! output pins with exactly one write per line, so re-rendering an equal
//! frame repeats the same writes.

use vstd::prelude::*;

use crate::controller::CountdownController;
use crate::controller::spec_display_digits;
use crate::segments::decode;
use crate::segments::segment_table;

verus! {

/// One refresh of the display: the seven segment states of each digit
/// group, in the canonical order a through g.
#[derive(Clone, Copy, Debug, PartialEq, Eq)]
pub struct Frame {
    /// Segment states of the tens digit group.
    pub tens: [bool; 7],
    /// Segment states of the ones digit group.
    pub ones: [bool; 7],
}

/// Decodes both digits of a pair into their segment states.
pub fn render(tens_digit: u8, ones_digit: u8) -> (frame: Frame)
    requires
        tens_digit <= 9,
        ones_digit <= 9,
    ensures
        frame.tens@ == segment_table(tens_digit as int),
        frame.ones@ == segment_table(ones_digit as int),
{
    Frame { tens: decode(tens_digit), ones: decode(ones_digit) }
}

/// The frame to show for the controller's current state: the base-10 split
/// of the remaining minutes, or the terminal indicator pair once the
/// countdown has elapsed, each digit decoded to its segment states.
pub fn render_state(controller: &CountdownController) -> (frame: Frame)
    requires
        controller.wf(),
    ensures
        frame.tens@ == segment_table(spec_display_digits(controller.minutes_remaining as int).0),
        frame.ones@ == segment_table(spec_display_digits(controller.minutes_remaining as int).1),
{
    let (tens_digit, ones_digit) = controller.display_digits();
    render(tens_digit, ones_digit)
}

} // verus!
