//! Accounts content.

use vstd::prelude::*;

verus! {

/// Accounts content.
pub struct Accounts {
    /// List of accounts.
    list: Vec<String>,
}

impl Default for Accounts {
    /// Content with no accounts listed.
    fn default() -> (r: Self)
        ensures
            r.names() == Seq::<Seq<char>>::empty(),
    {
        let r = Accounts { list: Vec::new() };
        assert(r.names() =~= Seq::<Seq<char>>::empty());
        r
    }
}

impl Accounts {
    /// Names of the listed accounts.
    pub closed spec fn names(self) -> Seq<Seq<char>> {
        self.list@.map_values(|a: String| a@)
    }

}

} // verus!
