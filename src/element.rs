//! Drawable elements and the decisions of drawing one frame.
use vstd::prelude::*;
use crate::command::{Command, Commands};

verus! {

/// Abstraction of a drawable element.
pub trait Element<C, B: ?Sized> {
    /// The commands that one frame of this element consists of, in order.
    spec fn command_items(&self) -> Seq<Command<'_, C, B>>;

    /// A fresh sequence of this element's draw commands.
    fn commands(&self) -> (r: Commands<'_, C, B>)
        ensures
            r.items() == self.command_items(),
    ;
}

/// A single batch.
#[derive(Clone)]
pub struct Batch<B>(pub B);

impl<C, B> Element<C, B> for Batch<B> {
    open spec fn command_items(&self) -> Seq<Command<'_, C, B>> {
        seq![Command::Draw(&self.0)]
    }

    fn commands(&self) -> (r: Commands<'_, C, B>) {
        Commands::Single(Command::Draw(&self.0))
    }
}

/// An element preceded by clearing the screen.
#[derive(Clone)]
pub struct Cleared<C, E> {
    clear: C,
    element: E,
}

impl<C, E> Cleared<C, E> {
    /// The parameters the screen is cleared with.
    pub closed spec fn clear_data(&self) -> C {
        self.clear
    }

    /// The element drawn after clearing.
    pub closed spec fn inner(&self) -> E {
        self.element
    }

    pub fn new(clear: C, element: E) -> (r: Cleared<C, E>)
        ensures
            r.clear_data() == clear,
            r.inner() == element,
    {
        Cleared { clear: clear, element: element }
    }
}

impl<C: Copy, B: ?Sized, E: Element<C, B>> Element<C, B> for Cleared<C, E> {
    open spec fn command_items(&self) -> Seq<Command<'_, C, B>> {
        seq![Command::Clear(self.clear_data())] + self.inner().command_items()
    }

    fn commands(&self) -> (r: Commands<'_, C, B>) {
        let rest = self.element.commands();
        let head: Commands<'_, C, B> = Commands::Single(Command::Clear(self.clear));
        assert(head.items() =~= seq![Command::Clear(self.clear)]);
        Commands::Chain(Box::new(head), Box::new(rest))
    }
}

/// A `Cleared` element around a single batch yields the clear command and
/// then the draw of that batch, and nothing else.
pub proof fn lemma_cleared_batch<C: Copy, B>(e: Cleared<C, Batch<B>>)
    ensures
        <Cleared<C, Batch<B>> as Element<C, B>>::command_items(&e) == seq![
            Command::<C, B>::Clear(e.clear_data()),
            Command::Draw(&e.inner().0),
        ],
{
    assert(<Cleared<C, Batch<B>> as Element<C, B>>::command_items(&e) =~= seq![
        Command::<C, B>::Clear(e.clear_data()),
        Command::Draw(&e.inner().0),
    ]);
}

/// What drawing a frame does next.
pub enum Action<'a, C, B: ?Sized, E> {
    /// Hand this command to the rendering stream
    Dispatch(Command<'a, C, B>),
    /// Stop: with `Ok` once every command was dispatched, or with the error of
    /// the batch submission that failed
    Finish(Result<(), E>),
}

/// One decision of drawing a frame. `outcome` is the result of dispatching
/// the previous command (`Ok` at the start and after a clear). A failure ends
/// the frame at once: no further command is taken from `commands`.
pub fn draw_step<'a, C, B: ?Sized, E>(commands: &mut Commands<'a, C, B>, outcome: Result<(), E>) -> (r:
    Action<'a, C, B, E>)
    ensures
        outcome is Err ==> r == Action::<C, B, E>::Finish(outcome) && final(commands).items()
            == old(commands).items(),
        outcome is Ok && old(commands).items().len() == 0 ==> r == Action::<C, B, E>::Finish(
            Ok(()),
        ) && final(commands).items() == old(commands).items(),
        outcome is Ok && old(commands).items().len() > 0 ==> r == Action::<C, B, E>::Dispatch(
            old(commands).items()[0],
        ) && final(commands).items() == old(commands).items().drop_first(),
{
    match outcome {
        Err(e) => Action::Finish(Err(e)),
        Ok(()) => match commands.next() {
            Some(cmd) => Action::Dispatch(cmd),
            None => Action::Finish(Ok(())),
        },
    }
}

} // verus!
