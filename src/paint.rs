use colored::Colorize;
use vstd::prelude::*;

verus! {

/// The escape sequence that switches the terminal's foreground to yellow.
pub open spec fn yellow_on() -> Seq<char> {
    seq!['\x1B', '[', '3', '3', 'm']
}

/// The escape sequence that resets every terminal attribute.
pub open spec fn attr_reset() -> Seq<char> {
    seq!['\x1B', '[', '0', 'm']
}

/// How a text may come out of yellow painting: untouched when colouring is
/// switched off, otherwise framed by the yellow and reset sequences. Only a
/// text that itself holds an escape character can have its inside re-styled.
pub open spec fn painted_yellow(s: Seq<char>, r: Seq<char>) -> bool {
    r == s || (r.len() >= 9 && r.take(5) == yellow_on() && r.skip(r.len() - 4) == attr_reset() && (
    !s.contains('\x1B') ==> r == yellow_on() + s + attr_reset()))
}

/// Relies on colored's `Colorize::yellow` and the `Display` of its
/// `ColoredString`: the text itself when colouring is off (by the environment
/// or an override), else the yellow sequence, the text with any inner reset
/// followed by the yellow sequence again, and the reset sequence.
#[verifier::external_body]
pub(crate) fn yellow(s: &str) -> (r: String)
    ensures
        painted_yellow(s@, r@),
{
    s.yellow().to_string()
}

} // verus!
