//! Work that alternates with the outside world.
//!
//! A script is a function of what the outside has answered so far: it either names the next
//! effect that it needs, or finishes. It is run by calling it again with one more answer, so
//! that everything it decides is decided here, and the effects are performed elsewhere.

use vstd::prelude::*;

verus! {

/// A place in the list of answers: those before it have been used.
pub struct Cursor<'a, R> {
    replies: &'a Vec<R>,
    pos: usize,
}

/// What a part of a script comes to: a value, with the answers that are left, or a stop.
pub enum Ask<T, R, S> {
    Got(T, Seq<R>),
    Stop(S),
}

impl<'a, R> Cursor<'a, R> {
    #[verifier::type_invariant]
    closed spec fn well_formed(self) -> bool {
        self.pos <= self.replies@.len()
    }
}

impl<'a, R: DeepView> Cursor<'a, R> {
    /// The answers that have not been used.
    pub closed spec fn rest(self) -> Seq<R::V> {
        self.replies.deep_view().skip(self.pos as int)
    }

    /// The place before the first answer.
    pub fn new(replies: &'a Vec<R>) -> (r: Cursor<'a, R>)
        ensures
            r.rest() == replies.deep_view(),
    {
        let r = Cursor { replies, pos: 0 };
        assert(r.rest() =~= replies.deep_view());
        r
    }

    /// Uses the next answer, if there is one.
    pub fn next(&mut self) -> (r: Option<&'a R>)
        ensures
            match r {
                Some(reply) => old(self).rest().len() > 0 && reply.deep_view() == old(
                    self,
                ).rest()[0] && final(self).rest() == old(self).rest().skip(1),
                None => old(self).rest().len() == 0 && final(self).rest() == old(self).rest(),
            },
    {
        proof {
            use_type_invariant(&*self);
        }
        if self.pos < self.replies.len() {
            let reply = &self.replies[self.pos];
            let ghost before = self.rest();
            self.pos = self.pos + 1;
            assert(self.rest() =~= before.skip(1));
            Some(reply)
        } else {
            None
        }
    }
}

/// Whether an executed part of a script came to what its description says.
pub open spec fn answers<T: DeepView, R, S: DeepView>(
    result: Result<T, S>,
    rest: Seq<R>,
    ask: Ask<T::V, R, S::V>,
) -> bool {
    match ask {
        Ask::Got(value, left) => result matches Ok(x) && x.deep_view() == value && rest == left,
        Ask::Stop(stop) => result matches Err(s) && s.deep_view() == stop,
    }
}

} // verus!
