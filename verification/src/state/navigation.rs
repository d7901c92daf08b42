//! Screen stack of the TUI; the root screen is never popped.
use vstd::prelude::*;

verus! {

/// Screens available in the TUI navigation stack.
#[derive(Debug, PartialEq, Eq, Hash, Clone)]
pub enum Screen {
    /// Saved connections.
    Connect,
    /// New connection form.
    AddConnection,
    /// Schemas and tables of a database.
    Database,
    /// Structure of one table.
    Inspect,
    /// Rows of a table or query.
    Records,
}

/// The stack after going back once: the top screen leaves unless it is the
/// only one.
pub open spec fn popped(stack: Seq<Screen>) -> Seq<Screen> {
    if stack.len() > 1 {
        stack.drop_last()
    } else {
        stack
    }
}

/// Navigation stack; the last screen is the one shown.
#[derive(Debug)]
pub struct Router {
    stack: Vec<Screen>,
}

impl From<Vec<Screen>> for Router {
    fn from(stack: Vec<Screen>) -> (r: Self) {
        Router { stack }
    }
}

impl vstd::std_specs::convert::FromSpecImpl<Vec<Screen>> for Router {
    open spec fn obeys_from_spec() -> bool {
        true
    }

    closed spec fn from_spec(stack: Vec<Screen>) -> Self {
        Router { stack }
    }
}

impl Router {
    /// The screens from bottom to top.
    pub closed spec fn stack(&self) -> Seq<Screen> {
        self.stack@
    }

    /// A stack holding only the Connect screen.
    pub fn new() -> (r: Self)
        ensures
            r.stack() == seq![Screen::Connect],
    {
        let mut stack = Vec::new();
        stack.push(Screen::Connect);
        Router { stack }
    }

    /// Shows `screen` on top of the current one.
    pub fn push(&mut self, screen: Screen)
        ensures
            final(self).stack() == old(self).stack().push(screen),
            old(self).stack().len() >= 1 ==> final(self).stack()[0] == old(self).stack()[0],
    {
        self.stack.push(screen);
    }

    /// Goes back one screen; the bottom screen stays.
    pub fn pop(&mut self)
        ensures
            final(self).stack() == popped(old(self).stack()),
            old(self).stack().len() >= 1 ==> final(self).stack().len() >= 1
                && final(self).stack()[0] == old(self).stack()[0],
    {
        if self.stack.len() > 1 {
            self.stack.pop();
        }
    }

    /// The screen on top, if any.
    pub fn current(&self) -> (s: Option<&Screen>)
        ensures
            self.stack().len() == 0 ==> s.is_none(),
            self.stack().len() > 0 ==> s == Some(&self.stack().last()),
    {
        if self.stack.len() == 0 {
            None
        } else {
            Some(&self.stack[self.stack.len() - 1])
        }
    }
}

/// Going back right after opening a screen returns to the stack as it was,
/// whichever screen was opened, as long as the stack held a screen.
pub proof fn law_pop_undoes_push(stack: Seq<Screen>, screen: Screen)
    requires
        stack.len() >= 1,
    ensures
        popped(stack.push(screen)) == stack,
{
    assert(stack.push(screen).drop_last() =~= stack);
}

/// Going back never removes the bottom screen: a stack that holds a screen
/// keeps at least one, and keeps the same one at the bottom.
pub proof fn law_pop_keeps_root(stack: Seq<Screen>)
    requires
        stack.len() >= 1,
    ensures
        popped(stack).len() >= 1,
        popped(stack)[0] == stack[0],
{
}

/// The stack after the moves `ops` from `stack`: `Some(s)` opens `s`, `None`
/// goes back.
pub open spec fn replayed(stack: Seq<Screen>, ops: Seq<Option<Screen>>) -> Seq<Screen>
    decreases ops.len(),
{
    if ops.len() == 0 {
        stack
    } else {
        let s = replayed(stack, ops.drop_last());
        match ops.last() {
            Some(x) => s.push(x),
            None => popped(s),
        }
    }
}

/// From the stack a new router holds, any moves leave the stack non-empty
/// with the Connect screen at the bottom, so there is always a current screen.
pub proof fn law_stack_never_empty(ops: Seq<Option<Screen>>)
    ensures
        replayed(seq![Screen::Connect], ops).len() >= 1,
        replayed(seq![Screen::Connect], ops)[0] == Screen::Connect,
    decreases ops.len(),
{
    if ops.len() > 0 {
        law_stack_never_empty(ops.drop_last());
    }
}

} // verus!
