//! Screen identifiers and the stack of screens that navigation has visited, in visit
//! order with each screen once.

use vstd::prelude::*;

verus! {

/// Screen identifier.
#[derive(PartialEq, Eq, Structural, Clone, Copy)]
pub enum ScreenId {
    Root,
    Accounts,
    Account,
}

/// The screens of `s` without `id`, in the same order.
pub open spec fn without(s: Seq<ScreenId>, id: ScreenId) -> Seq<ScreenId>
    decreases s.len(),
{
    if s.len() == 0 {
        Seq::empty()
    } else {
        without(s.drop_last(), id) + if s.last() == id {
            Seq::<ScreenId>::empty()
        } else {
            seq![s.last()]
        }
    }
}

/// Stack after navigating to `id`: `id` is moved to the top, or put there when it was
/// not visited.
pub open spec fn pushed(s: Seq<ScreenId>, id: ScreenId) -> Seq<ScreenId> {
    without(s, id).push(id)
}

/// Stack after going back: the top screen is removed unless it is the only one.
pub open spec fn popped(s: Seq<ScreenId>) -> Seq<ScreenId> {
    if s.len() > 1 {
        s.drop_last()
    } else {
        s
    }
}

/// Removing a screen that is not in the stack keeps the stack.
pub proof fn lemma_without_absent(s: Seq<ScreenId>, id: ScreenId)
    requires
        !s.contains(id),
    ensures
        without(s, id) == s,
    decreases s.len(),
{
    if s.len() > 0 {
        assert(!s.drop_last().contains(id)) by {
            if s.drop_last().contains(id) {
                let k = choose|k: int| 0 <= k < s.drop_last().len() && s.drop_last()[k] == id;
                assert(s[k] == id);
            }
        }
        lemma_without_absent(s.drop_last(), id);
        assert(s.last() != id) by {
            assert(s[s.len() - 1] == s.last());
        }
        assert(s.drop_last() + seq![s.last()] =~= s);
    }
}

/// Stack of visited screen identifiers, in visit order.
pub struct ScreenStack {
    screens: Vec<ScreenId>,
}

impl ScreenStack {
    /// Identifiers in the stack, from the bottom.
    pub closed spec fn stack(&self) -> Seq<ScreenId> {
        self.screens@
    }

    /// Empty stack.
    pub fn new() -> (s: Self)
        ensures
            s.stack() == Seq::<ScreenId>::empty(),
    {
        ScreenStack { screens: Vec::new() }
    }

    /// Keep the one provided identifier.
    pub fn reset(&mut self, id: ScreenId)
        ensures
            final(self).stack() == seq![id],
    {
        let mut v: Vec<ScreenId> = Vec::new();
        v.push(id);
        self.screens = v;
        assert(self.stack() =~= seq![id]);
    }

    /// Put an identifier on top, removing it from below.
    pub fn push(&mut self, id: ScreenId)
        ensures
            final(self).stack() == pushed(old(self).stack(), id),
    {
        let ghost s = self.screens@;
        let mut v: Vec<ScreenId> = Vec::new();
        let mut i: usize = 0;
        while i < self.screens.len()
            invariant
                s == self.screens@,
                i <= s.len(),
                v@ == without(s.take(i as int), id),
            decreases s.len() - i,
        {
            let x = self.screens[i];
            assert(s.take(i + 1).drop_last() =~= s.take(i as int));
            assert(s.take(i + 1).last() == x);
            if x != id {
                v.push(x);
                assert(v@ =~= without(s.take(i + 1), id));
            } else {
                assert(without(s.take(i + 1), id) =~= without(s.take(i as int), id));
            }
            i = i + 1;
        }
        assert(s.take(s.len() as int) =~= s);
        v.push(id);
        self.screens = v;
    }

    /// The top identifier, `None` for an empty stack.
    pub fn last(&self) -> (r: Option<ScreenId>)
        ensures
            r == (if self.stack().len() == 0 {
                None
            } else {
                Some(self.stack().last())
            }),
    {
        let n = self.screens.len();
        if n == 0 {
            None
        } else {
            Some(self.screens[n - 1])
        }
    }

    /// Check if the stack holds at least two identifiers.
    pub fn has_several(&self) -> (r: bool)
        ensures
            r == (self.stack().len() > 1),
    {
        self.screens.len() > 1
    }

    /// Remove the top identifier unless it is the only one.
    pub fn pop_last(&mut self)
        ensures
            final(self).stack() == popped(old(self).stack()),
    {
        if self.screens.len() > 1 {
            self.screens.pop();
        }
    }
}

/// Side panel state after `k` toggles from state `open`.
pub open spec fn toggled(open: bool, k: nat) -> bool
    decreases k,
{
    if k == 0 {
        open
    } else {
        !toggled(open, (k - 1) as nat)
    }
}

/// Navigation over screens with a side panel state.
pub struct Navigator {
    /// Screen identifiers in navigation stack.
    screens_stack: ScreenStack,
    /// Indicator if side panel is open.
    side_panel_open: bool,
}

impl Default for Navigator {
    /// Empty navigation with closed side panel.
    fn default() -> (n: Self)
        ensures
            n.stack() == Seq::<ScreenId>::empty(),
            !n.side_panel(),
    {
        Navigator { screens_stack: ScreenStack::new(), side_panel_open: false }
    }
}

impl Navigator {
    /// Identifiers in the navigation stack, from the bottom.
    pub closed spec fn stack(&self) -> Seq<ScreenId> {
        self.screens_stack.stack()
    }

    /// Side panel state.
    pub closed spec fn side_panel(&self) -> bool {
        self.side_panel_open
    }

    /// Initialize navigation from provided [`ScreenId`].
    pub fn init(&mut self, from: ScreenId)
        ensures
            final(self).stack() == seq![from],
            final(self).side_panel() == old(self).side_panel(),
    {
        self.screens_stack.reset(from);
    }

    /// Check if provided [`ScreenId`] is current: the top of the stack.
    pub fn is_current(&self, id: &ScreenId) -> (r: bool)
        requires
            self.stack().len() > 0,
        ensures
            r == (self.stack().last() == *id),
    {
        match self.screens_stack.last() {
            Some(last) => last == *id,
            None => false,
        }
    }

    /// Navigate to screen with provided [`ScreenId`]: it becomes the top of the stack.
    pub fn to(&mut self, id: ScreenId)
        ensures
            final(self).stack() == pushed(old(self).stack(), id),
            final(self).side_panel() == old(self).side_panel(),
    {
        self.screens_stack.push(id);
    }

    /// Go back at navigation stack: remove the current screen unless it is the only one.
    pub fn back(&mut self)
        ensures
            final(self).stack() == popped(old(self).stack()),
            final(self).side_panel() == old(self).side_panel(),
    {
        self.screens_stack.pop_last();
    }

    /// Change state of side panel to opposite.
    pub fn toggle_side_panel(&mut self)
        ensures
            final(self).side_panel() == !old(self).side_panel(),
            final(self).stack() == old(self).stack(),
    {
        self.side_panel_open = !self.side_panel_open;
    }

    /// Check if side panel is open.
    pub fn is_side_panel_open(&self) -> (r: bool)
        ensures
            r == self.side_panel(),
    {
        self.side_panel_open
    }
}

/// Navigation started from a screen has that screen as the current one.
pub proof fn law_init_is_current(from: ScreenId)
    ensures
        seq![from].len() > 0,
        seq![from].last() == from,
{
}

/// Navigating to a screen makes it the current screen, and keeps each screen once.
pub proof fn law_to_makes_current(s: Seq<ScreenId>, id: ScreenId)
    ensures
        pushed(s, id).len() > 0,
        pushed(s, id).last() == id,
        !without(s, id).contains(id),
    decreases s.len(),
{
    if s.len() > 0 {
        law_to_makes_current(s.drop_last(), id);
        let w = without(s.drop_last(), id);
        assert(!(without(s, id)).contains(id)) by {
            if without(s, id).contains(id) {
                let k = choose|k: int| 0 <= k < without(s, id).len() && without(s, id)[k] == id;
                if k < w.len() {
                    assert(w[k] == id);
                }
            }
        }
    }
}

/// Going back after navigating from a non-empty stack to a screen not yet visited gives
/// back the stack before navigation.
pub proof fn law_back_undoes_to(s: Seq<ScreenId>, id: ScreenId)
    requires
        s.len() > 0,
        !s.contains(id),
    ensures
        popped(pushed(s, id)) == s,
{
    lemma_without_absent(s, id);
    assert(pushed(s, id).drop_last() =~= s);
}

/// Starting closed, the side panel is open after `k` toggles exactly when `k` is odd.
pub proof fn law_side_panel_parity(k: nat)
    ensures
        toggled(false, k) == (k % 2 == 1),
    decreases k,
{
    if k > 0 {
        law_side_panel_parity((k - 1) as nat);
    }
}

/// Accounts screen.
pub struct Accounts;

impl Accounts {
    /// Identifier of the screen.
    pub fn id(&self) -> (r: ScreenId)
        ensures
            r == ScreenId::Accounts,
    {
        ScreenId::Accounts
    }
}

/// Wallets screen.
pub struct Wallets;

impl Wallets {
    /// Localization key of the screen name.
    pub fn name(&self) -> (r: &'static str)
        ensures
            r@ == "wallets"@,
    {
        "wallets"
    }
}

} // verus!
