//! Staging-output lifecycle of one attempt: content is appended to a staging
//! area, and on success the whole of it is published to the destination in a
//! single step. A destination is therefore never observable in a partial
//! state: until `commit` it does not exist, after `commit` it holds the
//! complete content. An attempt that does not commit discards its staging
//! area.

use vstd::prelude::*;
use crate::stream::flatten_deltas;

verus! {

/// Staging output owned by one attempt of one job.
pub struct StagingOutput {
    staged: Vec<u8>,
    committed: bool,
    discarded: bool,
    history: Ghost<Seq<Seq<u8>>>,
}

impl StagingOutput {
    /// Bytes appended to the staging area so far.
    pub closed spec fn content(self) -> Seq<u8> {
        self.staged@
    }

    /// The deltas appended so far, in arrival order.
    pub closed spec fn history(self) -> Seq<Seq<u8>> {
        self.history@
    }

    pub closed spec fn is_committed(self) -> bool {
        self.committed
    }

    pub closed spec fn is_discarded(self) -> bool {
        self.discarded
    }

    /// Still open: neither published nor thrown away.
    pub open spec fn is_open(self) -> bool {
        !self.is_committed() && !self.is_discarded()
    }

    /// The staged bytes are exactly the concatenation of the appended deltas,
    /// in arrival order, and the output is never both committed and
    /// discarded.
    pub open spec fn wf(self) -> bool {
        &&& self.content() == flatten_deltas(self.history())
        &&& !(self.is_committed() && self.is_discarded())
    }

    /// What an observer of the destination sees: nothing until commit, and
    /// the complete content afterwards.
    pub open spec fn published(self) -> Option<Seq<u8>> {
        if self.is_committed() {
            Some(self.content())
        } else {
            None
        }
    }

    /// Open a fresh staging area for one attempt.
    pub fn open() -> (r: Self)
        ensures
            r.wf(),
            r.is_open(),
            r.content() == Seq::<u8>::empty(),
            r.history() == Seq::<Seq<u8>>::empty(),
    {
        StagingOutput {
            staged: Vec::new(),
            committed: false,
            discarded: false,
            history: Ghost(Seq::empty()),
        }
    }

    /// Append one decoded content delta to the staging area.
    pub fn append_delta(&mut self, delta: &Vec<u8>)
        requires
            old(self).wf(),
            old(self).is_open(),
        ensures
            final(self).wf(),
            final(self).is_open(),
            final(self).content() == old(self).content() + delta@,
            final(self).history() == old(self).history().push(delta@),
    {
        let mut k: usize = 0;
        let ghost pre = self.staged@;
        while k < delta.len()
            invariant
                0 <= k <= delta@.len(),
                self.staged@ == pre + delta@.take(k as int),
                self.committed == old(self).committed,
                self.discarded == old(self).discarded,
                self.history@ == old(self).history@,
            decreases delta@.len() - k,
        {
            self.staged.push(delta[k]);
            proof {
                assert(self.staged@ =~= pre + delta@.take(k + 1));
            }
            k = k + 1;
        }
        proof {
            assert(self.staged@ =~= pre + delta@);
        }
        self.history = Ghost(self.history@.push(delta@));
        proof {
            assert(flatten_deltas(self.history@) == flatten_deltas(old(self).history@) + delta@)
                by {
                assert(self.history@.drop_last() =~= old(self).history@);
            }
        }
    }

    /// Publish the complete staged content to the destination in one atomic
    /// step. Only a stream that terminated normally commits.
    pub fn commit(&mut self)
        requires
            old(self).wf(),
            old(self).is_open(),
        ensures
            final(self).wf(),
            final(self).is_committed(),
            !final(self).is_discarded(),
            final(self).content() == old(self).content(),
            final(self).history() == old(self).history(),
            final(self).published() == Some(old(self).content()),
    {
        self.committed = true;
    }

    /// The committed content, handed to whoever publishes it.
    pub fn into_content(self) -> (r: Vec<u8>)
        ensures
            r@ == self.content(),
    {
        self.staged
    }

    /// Throw the staging area away; runs on every exit path that did not
    /// commit.
    pub fn discard(&mut self)
        requires
            old(self).wf(),
            !old(self).is_committed(),
        ensures
            final(self).wf(),
            final(self).is_discarded(),
            !final(self).is_committed(),
            final(self).published() is None,
    {
        self.discarded = true;
    }
}

/// The staging file placed beside its destination: the destination's file
/// name with a per-attempt unique suffix attached.
pub open spec fn staging_name_spec(file_name: Seq<char>, suffix: Seq<char>) -> Seq<char> {
    file_name + ".tmp-"@ + suffix
}

/// The name of the staging file for a destination file name and a
/// collision-avoiding suffix (process id and timestamp of the caller).
pub fn staging_file_name(file_name: &str, suffix: &str) -> (r: String)
    ensures
        r@ == staging_name_spec(file_name@, suffix@),
{
    let mut r = String::new();
    r.append(file_name);
    r.append(".tmp-");
    r.append(suffix);
    r
}

} // verus!
