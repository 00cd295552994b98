//! Draw commands and lazily produced sequences of them.
use vstd::prelude::*;

verus! {

/// A simple draw command: clear the screen with the parameters `C`, or draw
/// a batch `B` that the command borrows.
pub enum Command<'a, C, B: ?Sized> {
    /// Clear the screen as specified
    Clear(C),
    /// Draw a batch held by reference
    Draw(&'a B),
}

/// A sequence of draw commands, produced one at a time.
///
/// Each item is yielded once: the sequence is drained by `next` and cannot be
/// restarted.
pub enum Commands<'a, C, B: ?Sized> {
    /// No commands
    Empty,
    /// Exactly one command
    Single(Command<'a, C, B>),
    /// All commands of the first sequence, then all of the second
    Chain(Box<Commands<'a, C, B>>, Box<Commands<'a, C, B>>),
}

impl<'a, C, B: ?Sized> Commands<'a, C, B> {
    /// The commands that are still to come, in order.
    pub open spec fn items(&self) -> Seq<Command<'a, C, B>>
        decreases self,
    {
        match self {
            Commands::Empty => Seq::empty(),
            Commands::Single(c) => seq![*c],
            Commands::Chain(first, second) => first.items() + second.items(),
        }
    }

    /// A measure that shrinks toward the leaves of a chain.
    pub open spec fn size(&self) -> nat
        decreases self,
    {
        match self {
            Commands::Empty => 0,
            Commands::Single(_) => 1,
            Commands::Chain(first, second) => 1 + first.size() + second.size(),
        }
    }

    /// Yields the next command, or `None` once the sequence is drained.
    pub fn next(&mut self) -> (r: Option<Command<'a, C, B>>)
        ensures
            old(self).items().len() == 0 ==> r is None && final(self).items() == old(self).items(),
            old(self).items().len() > 0 ==> r == Some(old(self).items()[0])
                && final(self).items() == old(self).items().drop_first(),
            *old(self) is Empty ==> *final(self) is Empty,
            *old(self) is Single ==> *final(self) is Empty,
        decreases old(self).size(),
    {
        let mut tmp = Commands::Empty;
        std::mem::swap(self, &mut tmp);
        match tmp {
            Commands::Empty => None,
            Commands::Single(cmd) => {
                assert(self.items() =~= old(self).items().drop_first());
                Some(cmd)
            },
            Commands::Chain(mut first, second) => {
                let ghost f = first.items();
                let ghost s = second.items();
                let r = first.next();
                match r {
                    Some(cmd) => {
                        *self = Commands::Chain(first, second);
                        assert(self.items() =~= old(self).items().drop_first());
                        Some(cmd)
                    },
                    None => {
                        assert(f.len() == 0);
                        assert(old(self).items() =~= s);
                        *self = *second;
                        self.next()
                    },
                }
            },
        }
    }
}

impl<'a, C, B: ?Sized> Commands<'a, C, B> {
    /// Drains the whole sequence into a vector, in order.
    pub fn collect(self) -> (r: Vec<Command<'a, C, B>>)
        ensures
            r@ == self.items(),
    {
        let mut rest = self;
        let mut out: Vec<Command<'a, C, B>> = Vec::new();
        loop
            invariant
                self.items() == out@ + rest.items(),
            decreases rest.items().len(),
        {
            match rest.next() {
                Some(cmd) => {
                    out.push(cmd);
                },
                None => {
                    assert(out@ =~= self.items());
                    return out;
                },
            }
        }
    }
}

} // verus!
