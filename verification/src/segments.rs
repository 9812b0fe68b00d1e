//! Seven-segment decoding: a digit in [0, 9] to the seven boolean segment
//! states, in the canonical order a, b, c, d, e, f, g.

use vstd::prelude::*;

verus! {

/// The canonical seven-segment encoding of the digits 0 through 9, one
/// boolean per segment in the order a, b, c, d, e, f, g (`true` means the
/// segment is lit). For example, 0 lights every segment except g, and 1
/// lights only b and c.
pub open spec fn segment_table(digit: int) -> Seq<bool> {
    if digit == 0 {
        seq![true, true, true, true, true, true, false]
    } else if digit == 1 {
        seq![false, true, true, false, false, false, false]
    } else if digit == 2 {
        seq![true, true, false, true, true, false, true]
    } else if digit == 3 {
        seq![true, true, true, true, false, false, true]
    } else if digit == 4 {
        seq![false, true, true, false, false, true, true]
    } else if digit == 5 {
        seq![true, false, true, true, false, true, true]
    } else if digit == 6 {
        seq![true, false, true, true, true, true, true]
    } else if digit == 7 {
        seq![true, true, true, false, false, false, false]
    } else if digit == 8 {
        seq![true, true, true, true, true, true, true]
    } else {
        seq![true, true, true, true, false, true, true]
    }
}

/// Decoder totality: every digit in [0, 9] decodes to exactly seven segment
/// states.
pub proof fn lemma_decoder_total(digit: int)
    requires
        0 <= digit <= 9,
    ensures
        segment_table(digit).len() == 7,
{
}

/// Decodes a digit to its seven segment states. Total on [0, 9]; a value
/// outside that range is a contract violation of the caller, so it is ruled
/// out here rather than handled at run time.
pub fn decode(digit: u8) -> (segments: [bool; 7])
    requires
        digit <= 9,
    ensures
        segments@ == segment_table(digit as int),
{
    let segments: [bool; 7] = match digit {
        0 => [true, true, true, true, true, true, false],
        1 => [false, true, true, false, false, false, false],
        2 => [true, true, false, true, true, false, true],
        3 => [true, true, true, true, false, false, true],
        4 => [false, true, true, false, false, true, true],
        5 => [true, false, true, true, false, true, true],
        6 => [true, false, true, true, true, true, true],
        7 => [true, true, true, false, false, false, false],
        8 => [true, true, true, true, true, true, true],
        _ => [true, true, true, true, false, true, true],
    };
    proof {
        assert(segments@ =~= segment_table(digit as int));
    }
    segments
}

} // verus!
