use vstd::prelude::*;

verus! {

/// The messages that a coalescing channel took from its receiver while
/// coalescing and has not handed out yet, oldest first.
pub struct PendingMessages<T> {
    pub messages: Vec<T>,
}

impl<T> PendingMessages<T> {
    /// Nothing waiting.
    pub fn new() -> (p: PendingMessages<T>)
        ensures
            p.messages@.len() == 0,
    {
        PendingMessages { messages: Vec::new() }
    }

    /// Hands out the oldest waiting message, if any.
    pub fn pop_front(&mut self) -> (r: Option<T>)
        ensures
            old(self).messages@.len() == 0 ==> r is None && final(self).messages@ == old(self).messages@,
            old(self).messages@.len() > 0 ==> r == Some(old(self).messages@[0]) && final(self).messages@
                == old(self).messages@.drop_first(),
    {
        if self.messages.len() == 0 {
            None
        } else {
            let m = self.messages.remove(0);
            assert(old(self).messages@.remove(0) =~= old(self).messages@.drop_first());
            Some(m)
        }
    }

    /// Takes one more message from the receiver while coalescing: a message
    /// that the predicate accepts takes the place of the coalesced one, any
    /// other waits after those already waiting. Returns the coalesced message.
    pub fn absorb<F: Fn(&T) -> bool>(&mut self, coalesced: T, message: T, predicate: &F) -> (r: T)
        requires
            predicate.requires((&message,)),
        ensures
            exists|accepted: bool|
                #![trigger predicate.ensures((&message,), accepted)]
                predicate.ensures((&message,), accepted) && (accepted ==> r == message && final(self).messages@
                    == old(self).messages@) && (!accepted ==> r == coalesced && final(self).messages@
                    == old(self).messages@.push(message)),
    {
        let accepted = predicate(&message);
        if accepted {
            message
        } else {
            self.messages.push(message);
            coalesced
        }
    }
}

} // verus!
