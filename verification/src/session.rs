//! Streams session: the set of substreams belonging to one service
//! invocation, with a pull side (substreams the remote opened) and a push
//! side (opening new outbound substreams).
//!
//! The transport hands each newly accepted substream of the session to
//! `deliver`; the service implementation drains them with `poll_incoming`
//! and they come out in delivery order. When the parent connection closes,
//! `close` ends the session: the pull side then reports the end, and
//! opening a further substream is refused.

use vstd::prelude::*;

use crate::error::Error;

verus! {

/// A token for one substream of the session, assigned by the transport.
pub type SubstreamId = u64;

/// What one poll of the session's pull side yields.
#[derive(Clone, Copy, Debug, PartialEq, Eq, Structural)]
pub enum SessionPoll {
    /// The next substream the remote opened for this session.
    Ready { substream: SubstreamId },
    /// Nothing has arrived yet; the session is still live.
    Pending,
    /// The session ended and every delivered substream was taken.
    Ended,
}

/// The substream bookkeeping of one service invocation.
pub struct StreamsSession {
    queued: Vec<SubstreamId>,
    ended: bool,
}

impl StreamsSession {
    /// The substreams delivered by the transport and not yet taken, in
    /// delivery order.
    pub closed spec fn spec_queued(&self) -> Seq<SubstreamId> {
        self.queued@
    }

    /// Whether the parent connection has closed the session.
    pub closed spec fn spec_ended(&self) -> bool {
        self.ended
    }

    /// A live session with nothing delivered yet.
    pub fn new() -> (r: StreamsSession)
        ensures
            r.spec_queued() == Seq::<SubstreamId>::empty(),
            !r.spec_ended(),
    {
        StreamsSession { queued: Vec::new(), ended: false }
    }

    /// The transport delivers a substream the remote opened for this
    /// session. Substreams queue in arrival order behind the ones already
    /// waiting. The parent connection is still open, so the session has
    /// not ended.
    pub fn deliver(&mut self, substream: SubstreamId)
        requires
            !old(self).spec_ended(),
        ensures
            final(self).spec_queued() == old(self).spec_queued().push(substream),
            !final(self).spec_ended(),
    {
        self.queued.push(substream);
    }

    /// Takes the next incoming substream: the one delivered first among
    /// those still waiting. With nothing waiting, reports `Ended` when the
    /// session has ended and `Pending` otherwise; in both cases nothing
    /// changes.
    pub fn poll_incoming(&mut self) -> (r: SessionPoll)
        ensures
            old(self).spec_queued().len() > 0 ==> r == (SessionPoll::Ready {
                substream: old(self).spec_queued()[0],
            }) && final(self).spec_queued() == old(self).spec_queued().subrange(
                1,
                old(self).spec_queued().len() as int,
            ),
            old(self).spec_queued().len() == 0 ==> *final(self) == *old(self) && r == (
            if old(self).spec_ended() {
                SessionPoll::Ended
            } else {
                SessionPoll::Pending
            }),
            final(self).spec_ended() == old(self).spec_ended(),
    {
        if self.queued.len() > 0 {
            let substream = self.queued.remove(0);
            SessionPoll::Ready { substream }
        } else if self.ended {
            SessionPoll::Ended
        } else {
            SessionPoll::Pending
        }
    }

    /// The parent connection closed: the session ends. Substreams already
    /// delivered stay available to `poll_incoming`.
    pub fn close(&mut self)
        ensures
            final(self).spec_ended(),
            final(self).spec_queued() == old(self).spec_queued(),
    {
        self.ended = true;
    }

    /// Checks the push side: a new outbound substream may be opened only
    /// while the session has not ended; afterwards the attempt fails with
    /// `ConnectionClosed`.
    pub fn check_open(&self) -> (r: Result<(), Error>)
        ensures
            r is Ok <==> !self.spec_ended(),
            r matches Err(e) ==> e == Error::ConnectionClosed,
    {
        if self.ended {
            Err(Error::ConnectionClosed)
        } else {
            Ok(())
        }
    }
}

/// Substreams come out in the order they were delivered: taking from a
/// session with substreams waiting yields the earliest-delivered one, and
/// leaves the rest in order.
pub proof fn lemma_session_fifo(s: Seq<SubstreamId>, first: SubstreamId)
    ensures
        (seq![first] + s).len() > 0,
        (seq![first] + s)[0] == first,
        (seq![first] + s).subrange(1, (seq![first] + s).len() as int) =~= s,
{
}

} // verus!
