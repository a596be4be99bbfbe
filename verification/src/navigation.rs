//! A stack of screens: the last one pushed is on show.
use vstd::prelude::*;

verus! {

/// The screens of the front end.
#[derive(Debug, Clone, Copy, PartialEq, Eq, Structural, Hash)]
pub enum ScreenId {
    Waiting,
    Requests,
}

/// How a screen is brought on show.
#[derive(Debug, Clone, Copy, PartialEq, Eq, Structural)]
pub enum NavigationPolicy {
    /// On top of the others.
    Push,
    /// By taking the top one off.
    Pop,
    /// By taking off everything above it, or pushing it when it is not
    /// there.
    PopTo,
    /// As the only one.
    Clear,
}

/// The position of the first `id` in `s`, or `s.len()`.
pub open spec fn position_of(s: Seq<ScreenId>, id: ScreenId) -> nat
    decreases s.len(),
{
    if s.len() == 0 {
        0
    } else if s[0] == id {
        0
    } else {
        1 + position_of(s.drop_first(), id)
    }
}

/// The stack without its top.
pub open spec fn popped(s: Seq<ScreenId>) -> Seq<ScreenId> {
    if s.len() == 0 {
        s
    } else {
        s.drop_last()
    }
}

/// The stack cut just above the first `id`, or with `id` pushed when it is
/// not there.
pub open spec fn popped_to(s: Seq<ScreenId>, id: ScreenId) -> Seq<ScreenId> {
    let p = position_of(s, id);
    if p < s.len() {
        s.take((p + 1) as int)
    } else {
        s.push(id)
    }
}

/// The stack after `id` is brought on show by `policy`.
pub open spec fn navigated(s: Seq<ScreenId>, id: ScreenId, policy: NavigationPolicy) -> Seq<ScreenId> {
    match policy {
        NavigationPolicy::Push => s.push(id),
        NavigationPolicy::Pop => popped(s),
        NavigationPolicy::Clear => seq![id],
        NavigationPolicy::PopTo => popped_to(s, id),
    }
}

pub proof fn lemma_position_of(s: Seq<ScreenId>, id: ScreenId)
    ensures
        position_of(s, id) <= s.len(),
        position_of(s, id) < s.len() ==> s[position_of(s, id) as int] == id,
        forall|i: int| 0 <= i < position_of(s, id) ==> s[i] != id,
    decreases s.len(),
{
    if s.len() > 0 && s[0] != id {
        lemma_position_of(s.drop_first(), id);
        assert forall|i: int| 0 <= i < position_of(s, id) implies s[i] != id by {
            if i > 0 {
                assert(s[i] == s.drop_first()[i - 1]);
            }
        }
    }
}

/// After `pop_to(id)` the screen on show is `id`, and what was below the
/// first `id` stays as it was.
pub proof fn law_pop_to_shows_screen(s: Seq<ScreenId>, id: ScreenId)
    ensures
        popped_to(s, id).len() > 0,
        popped_to(s, id).last() == id,
        popped_to(s, id).drop_last() == s.take(position_of(s, id) as int),
{
    lemma_position_of(s, id);
    let p = position_of(s, id);
    if p >= s.len() {
        assert(s.take(p as int) == s);
    }
}

/// Bringing a screen on show twice by `pop_to` is the same as once.
pub proof fn law_pop_to_idempotent(s: Seq<ScreenId>, id: ScreenId)
    ensures
        popped_to(popped_to(s, id), id) == popped_to(s, id),
{
    lemma_position_of(s, id);
    let t = popped_to(s, id);
    lemma_position_of(t, id);
    let p = position_of(s, id) as int;
    let q = position_of(t, id) as int;
    if q < p {
        assert(t[q] == s[q]);
    }
    if q > p && p < t.len() {
        assert(t[p] == id);
    }
    if p == s.len() && q < p {
        assert(t[q] == s[q]);
    }
}

/// Pushing a screen and popping it leaves the stack as it was.
pub proof fn law_push_then_pop(s: Seq<ScreenId>, id: ScreenId)
    ensures
        popped(s.push(id)) == s,
{
    assert(s.push(id).drop_last() == s);
}

/// The screens on the stack, the last on show.
#[derive(Debug)]
pub struct Navigator {
    stack: Vec<ScreenId>,
}

impl View for Navigator {
    type V = Seq<ScreenId>;

    closed spec fn view(&self) -> Seq<ScreenId> {
        self.stack@
    }
}

impl Navigator {
    pub fn new() -> (r: Self)
        ensures
            r@ == Seq::<ScreenId>::empty(),
    {
        Navigator { stack: Vec::new() }
    }

    pub fn push(&mut self, screen: ScreenId)
        ensures
            final(self)@ == old(self)@.push(screen),
    {
        self.stack.push(screen);
    }

    /// Takes the top screen off, if there is one.
    pub fn pop(&mut self)
        ensures
            final(self)@ == popped(old(self)@),
    {
        let _ = self.stack.pop();
    }

    /// Takes off the screens above the first `screen`, or pushes it when it
    /// is not on the stack.
    pub fn pop_to(&mut self, screen: ScreenId)
        ensures
            final(self)@ == popped_to(old(self)@, screen),
    {
        proof {
            lemma_position_of(self@, screen);
        }
        let mut i: usize = 0;
        while i < self.stack.len() && self.stack[i] != screen
            invariant
                i <= self.stack.len(),
                forall|j: int| 0 <= j < i ==> self.stack@[j] != screen,
            decreases self.stack.len() - i,
        {
            i += 1;
        }
        proof {
            lemma_position_of(self@, screen);
            let p = position_of(self@, screen) as int;
            if p < i {
                assert(self.stack@[p] == screen);
            } else if p > i {
                assert(self.stack@[i as int] == screen);
            }
        }
        if i < self.stack.len() {
            self.stack.truncate(i + 1);
        } else {
            self.stack.push(screen);
        }
    }

    /// Brings `screen` on show as `pop_to` does.
    pub fn show_screen(&mut self, screen: ScreenId)
        ensures
            final(self)@ == popped_to(old(self)@, screen),
    {
        self.pop_to(screen);
    }

    pub fn clear(&mut self)
        ensures
            final(self)@ == Seq::<ScreenId>::empty(),
    {
        self.stack.clear();
    }

    /// The screen on show.
    pub fn current(&self) -> (r: Option<ScreenId>)
        ensures
            r == (if self@.len() > 0 {
                Some(self@.last())
            } else {
                None
            }),
    {
        if self.stack.len() > 0 {
            Some(self.stack[self.stack.len() - 1])
        } else {
            None
        }
    }

    pub fn has_screen(&self) -> (r: bool)
        ensures
            r == (self@.len() > 0),
    {
        self.stack.len() > 0
    }

    /// Brings `screen` on show by `policy`.
    pub fn change_screen(&mut self, screen: ScreenId, policy: NavigationPolicy)
        ensures
            final(self)@ == navigated(old(self)@, screen, policy),
    {
        match policy {
            NavigationPolicy::Push => self.push(screen),
            NavigationPolicy::Pop => self.pop(),
            NavigationPolicy::Clear => {
                self.clear();
                self.push(screen);
            },
            NavigationPolicy::PopTo => self.pop_to(screen),
        }
    }

    /// Carries out what a screen asked for. Navigation happens here; what
    /// is left for the event loop (stopping, or handing `event` to the
    /// screen now on show) is returned.
    pub fn handle_action<E>(&mut self, action: Action<E>) -> (r: ActionOutcome<E>)
        ensures
            match action {
                Action::ShowScreen(id, policy) => final(self)@ == navigated(old(self)@, id, policy)
                    && r is Continue,
                Action::ForwardToScreen(id, event, policy) => final(self)@ == navigated(
                    old(self)@,
                    id,
                    policy,
                ) && r == ActionOutcome::Forward(event),
                Action::GoBack => final(self)@ == popped(old(self)@) && r is Continue,
                Action::Exit => final(self)@ == old(self)@ && r is Exit,
                Action::ExitWithError(e) => final(self)@ == old(self)@ && r
                    == ActionOutcome::<E>::ExitWithError(e),
            },
    {
        match action {
            Action::ShowScreen(id, policy) => {
                self.change_screen(id, policy);
                ActionOutcome::Continue
            },
            Action::ForwardToScreen(id, event, policy) => {
                self.change_screen(id, policy);
                ActionOutcome::Forward(event)
            },
            Action::GoBack => {
                self.pop();
                ActionOutcome::Continue
            },
            Action::Exit => ActionOutcome::Exit,
            Action::ExitWithError(e) => ActionOutcome::ExitWithError(e),
        }
    }
}

/// What a screen asks for in answer to an event of type `E`.
pub enum Action<E> {
    ShowScreen(ScreenId, NavigationPolicy),
    /// Bring a screen on show and hand it the event.
    ForwardToScreen(ScreenId, E, NavigationPolicy),
    GoBack,
    Exit,
    ExitWithError(String),
}

/// What the event loop does after an action.
#[derive(Debug, PartialEq)]
pub enum ActionOutcome<E> {
    /// Go on with the next event.
    Continue,
    /// Hand this event to the screen on show.
    Forward(E),
    /// Stop.
    Exit,
    /// Stop, and report the error.
    ExitWithError(String),
}

} // verus!
