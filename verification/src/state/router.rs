//! Screen stack of the earlier screen layout; popping may empty it.
use vstd::prelude::*;

verus! {

/// Screens of the earlier screen layout.
#[derive(Debug)]
pub enum Screen {
    /// Saved connections.
    Connect,
    /// New connection form.
    AddConnection,
    /// Schemas of a database.
    Schemas,
    /// Tables of a schema.
    Tables,
    /// Rows of a table.
    TableView,
}

/// The stack after going back once: the top screen leaves, if there is one.
pub open spec fn popped(stack: Seq<Screen>) -> Seq<Screen> {
    if stack.len() > 0 {
        stack.drop_last()
    } else {
        stack
    }
}

/// Navigation stack; the last screen is the one shown.
#[derive(Debug)]
pub struct Router {
    stack: Vec<Screen>,
}

impl From<Vec<Screen>> for Router {
    fn from(stack: Vec<Screen>) -> (r: Self) {
        Router { stack }
    }
}

impl vstd::std_specs::convert::FromSpecImpl<Vec<Screen>> for Router {
    open spec fn obeys_from_spec() -> bool {
        true
    }

    closed spec fn from_spec(stack: Vec<Screen>) -> Self {
        Router { stack }
    }
}

impl Router {
    /// The screens from bottom to top.
    pub closed spec fn stack(&self) -> Seq<Screen> {
        self.stack@
    }

    /// A stack holding only the Connect screen.
    pub fn new() -> (r: Self)
        ensures
            r.stack() == seq![Screen::Connect],
    {
        let mut stack = Vec::new();
        stack.push(Screen::Connect);
        Router { stack }
    }

    /// Shows `screen` on top of the current one.
    pub fn push(&mut self, screen: Screen)
        ensures
            final(self).stack() == old(self).stack().push(screen),
    {
        self.stack.push(screen);
    }

    /// Goes back one screen; an empty stack stays empty.
    pub fn pop(&mut self)
        ensures
            final(self).stack() == popped(old(self).stack()),
    {
        self.stack.pop();
    }

    /// The screen on top, if any.
    pub fn current(&self) -> (s: Option<&Screen>)
        ensures
            self.stack().len() == 0 ==> s.is_none(),
            self.stack().len() > 0 ==> s == Some(&self.stack().last()),
    {
        if self.stack.len() == 0 {
            None
        } else {
            Some(&self.stack[self.stack.len() - 1])
        }
    }
}

/// Going back right after opening a screen returns to the stack as it was,
/// whichever screen was opened.
pub proof fn law_pop_undoes_push(stack: Seq<Screen>, screen: Screen)
    ensures
        popped(stack.push(screen)) == stack,
{
    assert(stack.push(screen).drop_last() =~= stack);
}

} // verus!
