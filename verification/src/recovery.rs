//! What tells that the decoder has lost its references.
//!
//! The encoder sends a single key picture and then only differences, so a packet
//! that is lost corrupts the picture for good, until a fresh key picture is asked
//! for.
use vstd::prelude::*;

use crate::text::{contains, law_a_part_occurs_anywhere, occurs_in};

verus! {

/// Whether a line of the decoder's diagnostics speaks of a picture that it could
/// not decode.
pub open spec fn tells_of_loss(line: Seq<char>) -> bool {
    ||| occurs_in("Could not find ref"@, line)
    ||| occurs_in("Error constructing"@, line)
    ||| occurs_in("error while decoding"@, line)
}

/// Whether a line of the decoder's diagnostics calls for a fresh key picture.
pub fn is_decode_error(line: &str) -> (r: bool)
    ensures
        r == tells_of_loss(line@),
{
    contains(line, "Could not find ref") || contains(line, "Error constructing") || contains(
        line,
        "error while decoding",
    )
}

/// Three phrases tell of a loss, wherever in a line they stand, and nothing else
/// does.
pub proof fn law_a_phrase_tells_of_loss(before: Seq<char>, after: Seq<char>, line: Seq<char>)
    ensures
        tells_of_loss(before + "Could not find ref"@ + after),
        tells_of_loss(before + "Error constructing"@ + after),
        tells_of_loss(before + "error while decoding"@ + after),
        tells_of_loss(line) ==> exists|head: Seq<char>, phrase: Seq<char>, tail: Seq<char>|
            line == #[trigger] (head + phrase + tail) && (phrase == "Could not find ref"@ || phrase
                == "Error constructing"@ || phrase == "error while decoding"@),
{
    law_a_part_occurs_anywhere(before, "Could not find ref"@, after, line);
    law_a_part_occurs_anywhere(before, "Error constructing"@, after, line);
    law_a_part_occurs_anywhere(before, "error while decoding"@, after, line);
}

} // verus!
