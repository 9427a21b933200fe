//! The closed set of action targets and their textual codec.

use vstd::prelude::*;

verus! {

/// Which physical button the scheduled action presses.
#[derive(Clone, Copy, PartialEq, Eq, Structural, Debug)]
pub enum MouseTarget {
    Primary,
    Middle,
    Secondary,
}

/// Rejection of a textual encoding that names no target.
#[derive(Clone, Copy, PartialEq, Eq, Structural, Debug)]
pub enum DecodeError {
    UnrecognizedLabel,
}

/// The textual encoding of a target, named after the physical button.
pub open spec fn target_label(t: MouseTarget) -> Seq<char> {
    match t {
        MouseTarget::Primary => "Left"@,
        MouseTarget::Middle => "Middle"@,
        MouseTarget::Secondary => "Right"@,
    }
}

/// Total decoding relation: every string either names exactly one target or
/// is rejected.
pub open spec fn decoded_target(s: Seq<char>) -> Result<MouseTarget, DecodeError> {
    if s == target_label(MouseTarget::Primary) {
        Ok(MouseTarget::Primary)
    } else if s == target_label(MouseTarget::Middle) {
        Ok(MouseTarget::Middle)
    } else if s == target_label(MouseTarget::Secondary) {
        Ok(MouseTarget::Secondary)
    } else {
        Err(DecodeError::UnrecognizedLabel)
    }
}

/// Encode a target as its label.
pub fn encode_target(t: MouseTarget) -> (r: &'static str)
    ensures
        r@ == target_label(t),
{
    match t {
        MouseTarget::Primary => "Left",
        MouseTarget::Middle => "Middle",
        MouseTarget::Secondary => "Right",
    }
}

/// Decode a label back into a target; unrecognized labels are rejected,
/// never defaulted.
pub fn decode_target(s: &String) -> (r: Result<MouseTarget, DecodeError>)
    ensures
        r == decoded_target(s@),
{
    let primary = String::from_str(encode_target(MouseTarget::Primary));
    let middle = String::from_str(encode_target(MouseTarget::Middle));
    let secondary = String::from_str(encode_target(MouseTarget::Secondary));
    if *s == primary {
        Ok(MouseTarget::Primary)
    } else if *s == middle {
        Ok(MouseTarget::Middle)
    } else if *s == secondary {
        Ok(MouseTarget::Secondary)
    } else {
        Err(DecodeError::UnrecognizedLabel)
    }
}

/// The codec is lossless: decoding an encoded target yields that target.
pub proof fn lemma_codec_round_trip(t: MouseTarget)
    ensures
        decoded_target(target_label(t)) == Ok::<MouseTarget, DecodeError>(t),
{
    reveal_strlit("Left");
    reveal_strlit("Middle");
    reveal_strlit("Right");
    match t {
        MouseTarget::Primary => {
            assert(decoded_target(target_label(t)) == Ok::<MouseTarget, DecodeError>(t));
        },
        MouseTarget::Middle => {
            assert("Middle"@.len() == 6 && "Left"@.len() == 4);
            assert(decoded_target(target_label(t)) == Ok::<MouseTarget, DecodeError>(t));
        },
        MouseTarget::Secondary => {
            assert("Right"@.len() == 5 && "Left"@.len() == 4 && "Middle"@.len() == 6);
            assert(decoded_target(target_label(t)) == Ok::<MouseTarget, DecodeError>(t));
        },
    }
}

/// The codec is unambiguous: a string that decodes successfully is the label
/// of the decoded target, so re-encoding reproduces it.
pub proof fn lemma_codec_unambiguous(s: Seq<char>, t: MouseTarget)
    requires
        decoded_target(s) == Ok::<MouseTarget, DecodeError>(t),
    ensures
        target_label(t) == s,
{
    reveal_strlit("Left");
    reveal_strlit("Middle");
    reveal_strlit("Right");
}

} // verus!
