//! Queues between the units of a node. A unit owns its queue; whoever stands
//! at the other end puts items in or takes them out in its turn.

use vstd::prelude::*;
use crate::error::MeshError;

verus! {

/// The mathematical value of a [`Channel`].
pub ghost struct ChannelView<A> {
    pub items: Seq<A>,
    pub closed: bool,
}

/// A queue of items in the order they were sent, which can be closed.
#[derive(Debug, PartialEq, Eq)]
pub struct Channel<T> {
    pub items: Vec<T>,
    pub closed: bool,
}

/// What an attempt to receive found.
#[derive(Debug, PartialEq, Eq)]
pub enum Received<T> {
    /// The item at the head of the queue.
    Item(T),
    /// Nothing has arrived yet.
    Empty,
    /// Nothing has arrived and nothing will.
    Closed,
}

impl<T: DeepView> View for Channel<T> {
    type V = ChannelView<T::V>;

    open spec fn view(&self) -> ChannelView<T::V> {
        ChannelView { items: self.items.deep_view(), closed: self.closed }
    }
}

impl<T: DeepView> DeepView for Channel<T> {
    type V = ChannelView<T::V>;

    open spec fn deep_view(&self) -> ChannelView<T::V> {
        self@
    }
}

impl<T: DeepView> Channel<T> {
    /// An open, empty queue.
    pub fn new() -> (r: Self)
        ensures
            r@ == (ChannelView::<T::V> { items: Seq::empty(), closed: false }),
    {
        let r = Channel { items: Vec::new(), closed: false };
        assert(r.items.deep_view() =~= Seq::<T::V>::empty());
        r
    }

    /// Puts `item` at the end of the queue. A closed queue takes nothing and
    /// says so.
    pub fn send(&mut self, item: T) -> (r: Result<(), MeshError>)
        ensures
            old(self).closed ==> r == Err::<(), MeshError>(MeshError::ChannelClosed) && final(self)@
                == old(self)@,
            !old(self).closed ==> r == Ok::<(), MeshError>(()) && final(self)@ == (ChannelView {
                items: old(self)@.items.push(item.deep_view()),
                closed: false,
            }),
    {
        if self.closed {
            Err(MeshError::ChannelClosed)
        } else {
            self.items.push(item);
            assert(self.items.deep_view() =~= old(self).items.deep_view().push(item.deep_view()));
            Ok(())
        }
    }

    /// Takes the item at the head of the queue, if there is one. What was
    /// sent before the queue was closed can still be received.
    pub fn try_recv(&mut self) -> (r: Received<T>)
        ensures
            old(self)@.items.len() > 0 ==> (r matches Received::Item(item) && item.deep_view() == old(
                self,
            )@.items[0] && final(self)@ == (ChannelView {
                items: old(self)@.items.drop_first(),
                closed: old(self).closed,
            })),
            old(self)@.items.len() == 0 ==> final(self)@ == old(self)@ && (if old(self).closed {
                r is Closed
            } else {
                r is Empty
            }),
    {
        if self.items.len() > 0 {
            let item = self.items.remove(0);
            assert(self.items.deep_view() =~= old(self).items.deep_view().drop_first());
            Received::Item(item)
        } else if self.closed {
            Received::Closed
        } else {
            Received::Empty
        }
    }

    /// Closes the queue: what is in it stays, nothing more goes in.
    pub fn close(&mut self)
        ensures
            final(self)@ == (ChannelView { items: old(self)@.items, closed: true }),
    {
        self.closed = true;
    }

    /// The number of items that wait in the queue.
    pub fn len(&self) -> (r: usize)
        ensures
            r == self@.items.len(),
    {
        self.items.len()
    }

    /// Whether nothing waits in the queue.
    pub fn is_empty(&self) -> (r: bool)
        ensures
            r == (self@.items.len() == 0),
    {
        self.items.len() == 0
    }

    /// Whether the queue was closed.
    pub fn is_closed(&self) -> (r: bool)
        ensures
            r == self@.closed,
    {
        self.closed
    }
}

} // verus!
