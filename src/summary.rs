use vstd::prelude::*;

verus! {

/// The text that `default_summary` gives wherever an implementor keeps the
/// provided body.
pub open spec fn read_more_text() -> Seq<char> {
    "(Read more...)"@
}

/// A type that can describe itself in one line of text.
pub trait Summary {
    /// The line that `summarize` produces for this value.
    spec fn summary_of(&self) -> Seq<char>;

    /// Describes the value; the result is exactly `summary_of`.
    fn summarize(&self) -> (r: String)
        ensures
            r@ == self.summary_of(),
    ;

    /// A fixed teaser line, which implementors may replace.
    fn default_summary(&self) -> (r: String)
        default_ensures
            r@ == read_more_text(),
    {
        String::from_str("(Read more...)")
    }
}

} // verus!
