//! Deferred reclamation: resources the device may still reference are posted
//! to a channel instead of being torn down at once.

use vstd::prelude::*;

verus! {

/// A resource whose teardown goes through a [`Terminal`].
#[derive(Debug)]
pub struct Escape<T> {
    value: T,
}

impl<T> View for Escape<T> {
    type V = T;

    closed spec fn view(&self) -> T {
        self.value
    }
}

impl<T> Escape<T> {
    /// Wrap `value` for deferred reclamation.
    pub fn escape(value: T) -> (r: Escape<T>)
        ensures
            r@ == value,
    {
        Escape { value }
    }

    /// Shared access to the wrapped resource.
    pub fn inner_ref(&self) -> (r: &T)
        ensures
            *r == self@,
    {
        &self.value
    }

    /// End of life: post the resource to `terminal`. Never blocks, always succeeds.
    pub fn release(self, terminal: &mut Terminal<T>)
        ensures
            final(terminal)@ == old(terminal)@.push(self@),
    {
        terminal.post(self.value);
    }
}

/// The reclamation channel: collects escaped resources until a collaborator
/// that knows the device is done with them drains it.
#[derive(Debug)]
pub struct Terminal<T> {
    posts: Vec<T>,
}

impl<T> View for Terminal<T> {
    type V = Seq<T>;

    closed spec fn view(&self) -> Seq<T> {
        self.posts@
    }
}

impl<T> Terminal<T> {
    /// An empty channel.
    pub fn new() -> (r: Terminal<T>)
        ensures
            r@ == Seq::<T>::empty(),
    {
        Terminal { posts: Vec::new() }
    }

    /// Number of posts waiting to be drained.
    pub fn len(&self) -> (r: usize)
        ensures
            r == self@.len(),
    {
        self.posts.len()
    }

    fn post(&mut self, value: T)
        ensures
            final(self)@ == old(self)@.push(value),
    {
        self.posts.push(value);
    }

    /// Take every waiting post, oldest first, leaving the channel empty.
    pub fn drain(&mut self) -> (r: Vec<T>)
        ensures
            r@ == old(self)@,
            final(self)@ == Seq::<T>::empty(),
    {
        let mut out: Vec<T> = Vec::new();
        std::mem::swap(&mut out, &mut self.posts);
        out
    }
}

} // verus!
