//! Producer-native fields: data a file carries under its producer's own name,
//! which no modeled product stands for.

use vstd::prelude::*;

verus! {

/// The sentence of [`source_field_2d_only_message`].
pub open spec fn two_dimensional_only_sentence(tool: Seq<char>, producer_name: Seq<char>) -> Seq<
    char,
> {
    tool + " is unavailable for exact source field "@ + producer_name
        + ". Exact source fields are currently 2D only; "@ + producer_name
        + " remains selected and no modeled product was substituted."@
}

/// What a tool backed only by modeled products says when the active pane
/// carries an exact producer-native field instead.
pub fn source_field_2d_only_message(tool: &str, producer_name: &str) -> (message: String)
    ensures
        message@ == two_dimensional_only_sentence(tool@, producer_name@),
{
    let mut message = tool.to_owned();
    message.append(" is unavailable for exact source field ");
    message.append(producer_name);
    message.append(". Exact source fields are currently 2D only; ");
    message.append(producer_name);
    message.append(" remains selected and no modeled product was substituted.");
    message
}

} // verus!
