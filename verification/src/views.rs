//! Plain content types of panels: titles and the loading indicator.

use vstd::prelude::*;

verus! {

/// Title content type, can be single title or with animated subtitle.
pub enum TitleContentType {
    /// Single text.
    Title(String),
    /// With optionally animated subtitle text.
    WithSubTitle(String, String, bool),
}

/// Title type, can be single or dual title in the row.
pub enum TitleType {
    /// Single title content.
    Single(TitleContentType),
    /// Dual title content, will align first content for default panel size width.
    Dual(TitleContentType, TitleContentType),
}

/// Loading indicator with a text below it.
pub struct ProgressLoading {
    text: String,
}

impl ProgressLoading {
    /// Text shown below the indicator.
    pub closed spec fn spec_text(self) -> Seq<char> {
        self.text@
    }

    /// Create the indicator with the text.
    pub fn new(text: String) -> (r: Self)
        ensures
            r.spec_text() == text@,
    {
        ProgressLoading { text }
    }

    /// Text shown below the indicator.
    pub fn text(&self) -> (r: &String)
        ensures
            r@ == self.spec_text(),
    {
        &self.text
    }
}

} // verus!
