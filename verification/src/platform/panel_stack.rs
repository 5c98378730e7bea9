//! Panel navigation: the open panel and the back-stack of the panels under
//! it.

use vstd::prelude::*;

verus! {

/// A panel of the UI; `Home` is the home screen, with no panel open.
#[derive(Clone, Copy, Debug, PartialEq, Eq, Structural)]
pub enum Panel {
    Home,
    Settings,
    Audio,
    Camera,
    MediaBackend,
}

/// The back-stack: the most recently covered panel first. The home screen
/// is never stacked.
pub struct PanelStack {
    panels: Vec<Panel>,
}

impl View for PanelStack {
    type V = Seq<Panel>;

    closed spec fn view(&self) -> Seq<Panel> {
        self.panels@
    }
}

/// No entry of a stack is the home screen.
pub open spec fn no_home(s: Seq<Panel>) -> bool {
    forall|i: int| 0 <= i < s.len() ==> s[i] != Panel::Home
}

impl PanelStack {
    #[verifier::type_invariant]
    closed spec fn inv(self) -> bool {
        no_home(self.panels@)
    }

    /// An empty back-stack.
    pub fn new() -> (s: PanelStack)
        ensures
            s@ == Seq::<Panel>::empty(),
    {
        PanelStack { panels: Vec::new() }
    }

    /// Covers `current`: it goes on top of the stack, unless it is the home
    /// screen.
    pub fn push_panel(&mut self, current: Panel)
        ensures
            final(self)@ == (if current == Panel::Home {
                old(self)@
            } else {
                seq![current] + old(self)@
            }),
            no_home(final(self)@),
    {
        proof { use_type_invariant(&*self); }
        if current != Panel::Home {
            let mut panels: Vec<Panel> = Vec::new();
            std::mem::swap(&mut panels, &mut self.panels);
            let ghost before = panels@;
            panels.insert(0, current);
            proof {
                assert(panels@ =~= seq![current] + before);
            }
            self.panels = panels;
        }
    }

    /// Uncovers the top panel: it leaves the stack and is returned; the
    /// home screen when the stack is empty.
    pub fn pop_panel(&mut self) -> (p: Panel)
        ensures
            old(self)@.len() == 0 ==> p == Panel::Home && final(self)@ == old(self)@,
            old(self)@.len() > 0 ==> p == old(self)@[0] && final(self)@ == old(self)@.drop_first(),
            no_home(final(self)@),
    {
        proof { use_type_invariant(&*self); }
        if self.panels.len() == 0 {
            return Panel::Home;
        }
        let mut panels: Vec<Panel> = Vec::new();
        std::mem::swap(&mut panels, &mut self.panels);
        let ghost before = panels@;
        let p = panels.remove(0);
        proof {
            assert(panels@ =~= before.drop_first());
        }
        self.panels = panels;
        p
    }

    /// Empties the stack.
    pub fn clear(&mut self)
        ensures
            final(self)@ == Seq::<Panel>::empty(),
    {
        self.panels = Vec::new();
    }

    /// The stack, top first, as the UI lists it.
    pub fn as_model(&self) -> (r: Vec<Panel>)
        ensures
            r@ == self@,
    {
        let mut r: Vec<Panel> = Vec::new();
        let mut i: usize = 0;
        while i < self.panels.len()
            invariant
                i <= self.panels.len(),
                r@ == self.panels@.take(i as int),
            decreases self.panels.len() - i,
        {
            r.push(self.panels[i]);
            proof {
                assert(self.panels@.take(i + 1) =~= self.panels@.take(i as int).push(self.panels@[i as int]));
            }
            i = i + 1;
        }
        proof {
            assert(self.panels@.take(self.panels.len() as int) =~= self.panels@);
        }
        r
    }
}

/// The open panel together with its back-stack.
pub struct PanelNavigator {
    pub active: Panel,
    pub stack: PanelStack,
}

/// What a navigator is: the open panel and the back-stack, top first.
pub ghost struct NavigatorView {
    pub active: Panel,
    pub stack: Seq<Panel>,
}

impl View for PanelNavigator {
    type V = NavigatorView;

    open spec fn view(&self) -> NavigatorView {
        NavigatorView { active: self.active, stack: self.stack@ }
    }
}

/// Opening `p` over `n`: nothing changes when `p` is already open;
/// otherwise the open panel is stacked (unless it is the home screen) and
/// `p` opens.
pub open spec fn pushed(n: NavigatorView, p: Panel) -> NavigatorView {
    if n.active == p {
        n
    } else {
        NavigatorView {
            active: p,
            stack: if n.active == Panel::Home { n.stack } else { seq![n.active] + n.stack },
        }
    }
}

/// Going back: the top of the stack opens (the home screen when the stack
/// is empty).
pub open spec fn popped(n: NavigatorView) -> NavigatorView {
    if n.stack.len() == 0 {
        NavigatorView { active: Panel::Home, stack: n.stack }
    } else {
        NavigatorView { active: n.stack[0], stack: n.stack.drop_first() }
    }
}

impl PanelNavigator {
    /// The home screen with an empty back-stack.
    pub fn new() -> (n: PanelNavigator)
        ensures
            n@ == (NavigatorView { active: Panel::Home, stack: Seq::empty() }),
    {
        PanelNavigator { active: Panel::Home, stack: PanelStack::new() }
    }

    /// Opens `p` (see [`pushed`]).
    pub fn push(&mut self, p: Panel)
        ensures
            final(self)@ == pushed(old(self)@, p),
    {
        if self.active == p {
            return;
        }
        let current = self.active;
        self.stack.push_panel(current);
        self.active = p;
    }

    /// Goes back (see [`popped`]).
    pub fn pop(&mut self)
        ensures
            final(self)@ == popped(old(self)@),
    {
        let p = self.stack.pop_panel();
        self.active = p;
    }

    /// Opens `p` in place of the open panel; the stack is unchanged.
    pub fn replace(&mut self, p: Panel)
        ensures
            final(self)@ == (NavigatorView { active: p, stack: old(self)@.stack }),
    {
        self.active = p;
    }

    /// Closes every panel: the home screen with an empty stack.
    pub fn close_all(&mut self)
        ensures
            final(self)@ == (NavigatorView { active: Panel::Home, stack: Seq::empty() }),
    {
        self.stack.clear();
        self.active = Panel::Home;
    }
}

/// Going back after opening a panel other than the open one undoes the
/// opening: the panel that was open is open again over the same stack. From
/// the home screen, going back after opening a panel goes where going back
/// would have gone before (the home screen, when nothing is stacked).
pub proof fn law_push_then_pop(n: NavigatorView, p: Panel)
    requires
        p != n.active,
    ensures
        n.active != Panel::Home ==> popped(pushed(n, p)) == n,
        n.active == Panel::Home ==> popped(pushed(n, p)) == popped(n),
{
    if n.active != Panel::Home {
        assert((seq![n.active] + n.stack).drop_first() =~= n.stack);
    }
}

/// Opening the panel that is already open changes nothing.
pub proof fn law_push_same_is_noop(n: NavigatorView)
    ensures
        pushed(n, n.active) == n,
{
}

} // verus!
