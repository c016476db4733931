use vstd::prelude::*;

use crate::bytes::copy_from;

verus! {

/// One unit of protocol traffic: its round, its sender's participant index
/// and its encoded body.
#[derive(Debug)]
pub struct RoundMessage {
    pub round: u16,
    pub sender: u16,
    pub body: Vec<u8>,
}

/// A message as plain values: round, sender, body.
pub type MsgView = (u16, u16, Seq<u8>);

impl View for RoundMessage {
    type V = MsgView;

    open spec fn view(&self) -> MsgView {
        (self.round, self.sender, self.body@)
    }
}

/// What became of a routed message.
#[derive(Debug)]
pub enum RouteOutcome {
    /// Kept until the rest of its round arrives.
    Buffered,
    /// It completed its round: the whole round, one message per expected
    /// sender, in the order of the expected senders.
    Released(Vec<RoundMessage>),
    /// Not from an expected sender, for a round already released, or a
    /// second copy from the same sender for the same round.
    Dropped,
}

/// Views of a list of messages.
pub open spec fn views(s: Seq<RoundMessage>) -> Seq<MsgView> {
    s.map_values(|m: RoundMessage| m@)
}

/// Whether a message from `sender` for `round` is held.
pub open spec fn has_msg(p: Seq<MsgView>, round: u16, sender: u16) -> bool {
    exists|i: int| 0 <= i < p.len() && (#[trigger] p[i]).0 == round && p[i].1 == sender
}

/// Whether every expected sender has a message for `round`.
pub open spec fn round_complete(expected: Seq<u16>, p: Seq<MsgView>, round: u16) -> bool {
    forall|j: int| 0 <= j < expected.len() ==> has_msg(p, round, #[trigger] expected[j])
}

/// The held messages without those of `round`, in their order.
pub open spec fn without_round(p: Seq<MsgView>, round: u16) -> Seq<MsgView>
    decreases p.len(),
{
    if p.len() == 0 {
        p
    } else if p.last().0 == round {
        without_round(p.drop_last(), round)
    } else {
        without_round(p.drop_last(), round).push(p.last())
    }
}

/// Whether a message from `sender` for `round` may be accepted.
pub open spec fn accepts(
    expected: Seq<u16>,
    pending: Seq<MsgView>,
    released: Seq<u16>,
    m: MsgView,
) -> bool {
    &&& expected.contains(m.1)
    &&& !released.contains(m.0)
    &&& !has_msg(pending, m.0, m.1)
}

/// Held messages after routing `m`.
pub open spec fn route_pending(
    expected: Seq<u16>,
    pending: Seq<MsgView>,
    released: Seq<u16>,
    m: MsgView,
) -> Seq<MsgView> {
    if !accepts(expected, pending, released, m) {
        pending
    } else if !round_complete(expected, pending.push(m), m.0) {
        pending.push(m)
    } else {
        without_round(pending.push(m), m.0)
    }
}

/// Released rounds after routing `m`.
pub open spec fn route_released(
    expected: Seq<u16>,
    pending: Seq<MsgView>,
    released: Seq<u16>,
    m: MsgView,
) -> Seq<u16> {
    if accepts(expected, pending, released, m) && round_complete(expected, pending.push(m), m.0) {
        released.push(m.0)
    } else {
        released
    }
}

/// Buffers round messages until every expected sender's message for the
/// round has arrived, then releases the round once.
pub struct Router {
    expected: Vec<u16>,
    pending: Vec<RoundMessage>,
    released: Vec<u16>,
}

impl Router {
    /// Senders whose messages make a round complete.
    pub closed spec fn spec_expected(&self) -> Seq<u16> {
        self.expected@
    }

    /// Messages held for rounds not yet complete.
    pub closed spec fn spec_pending(&self) -> Seq<MsgView> {
        views(self.pending@)
    }

    /// Rounds already released, in order of release.
    pub closed spec fn spec_released(&self) -> Seq<u16> {
        self.released@
    }

    /// A router expecting one message per round from each of `expected`
    /// (the session's participants other than the local one).
    pub fn new(expected: Vec<u16>) -> (r: Router)
        ensures
            r.spec_expected() == expected@,
            r.spec_pending() == Seq::<MsgView>::empty(),
            r.spec_released() == Seq::<u16>::empty(),
    {
        let r = Router { expected, pending: Vec::new(), released: Vec::new() };
        proof {
            assert(views(r.pending@) =~= Seq::<MsgView>::empty());
        }
        r
    }

    fn is_expected(&self, sender: u16) -> (r: bool)
        ensures
            r == self.expected@.contains(sender),
    {
        let mut i: usize = 0;
        while i < self.expected.len()
            invariant
                i <= self.expected@.len(),
                forall|k: int| 0 <= k < i ==> self.expected@[k] != sender,
            decreases self.expected@.len() - i,
        {
            if self.expected[i] == sender {
                return true;
            }
            i = i + 1;
        }
        false
    }

    fn is_released(&self, round: u16) -> (r: bool)
        ensures
            r == self.released@.contains(round),
    {
        let mut i: usize = 0;
        while i < self.released.len()
            invariant
                i <= self.released@.len(),
                forall|k: int| 0 <= k < i ==> self.released@[k] != round,
            decreases self.released@.len() - i,
        {
            if self.released[i] == round {
                return true;
            }
            i = i + 1;
        }
        false
    }

    fn find(&self, round: u16, sender: u16) -> (r: Option<usize>)
        ensures
            r matches Some(i) ==> i < self.pending@.len() && self.pending@[i as int].round == round
                && self.pending@[i as int].sender == sender,
            r is None ==> !has_msg(views(self.pending@), round, sender),
    {
        let mut i: usize = 0;
        while i < self.pending.len()
            invariant
                i <= self.pending@.len(),
                forall|k: int|
                    0 <= k < i ==> !(self.pending@[k].round == round && self.pending@[k].sender
                        == sender),
            decreases self.pending@.len() - i,
        {
            if self.pending[i].round == round && self.pending[i].sender == sender {
                return Some(i);
            }
            i = i + 1;
        }
        proof {
            if has_msg(views(self.pending@), round, sender) {
                let k = choose|k: int|
                    0 <= k < views(self.pending@).len() && (#[trigger] views(self.pending@)[k]).0
                        == round && views(self.pending@)[k].1 == sender;
                assert(views(self.pending@)[k] == self.pending@[k]@);
            }
        }
        None
    }

    fn complete(&self, round: u16) -> (r: bool)
        ensures
            r == round_complete(self.expected@, views(self.pending@), round),
    {
        let mut j: usize = 0;
        while j < self.expected.len()
            invariant
                j <= self.expected@.len(),
                forall|k: int|
                    0 <= k < j ==> has_msg(views(self.pending@), round, #[trigger] self.expected@[k]),
            decreases self.expected@.len() - j,
        {
            match self.find(round, self.expected[j]) {
                None => {
                    return false;
                },
                Some(i) => {
                    proof {
                        assert(views(self.pending@)[i as int] == self.pending@[i as int]@);
                    }
                },
            }
            j = j + 1;
        }
        true
    }

    /// Copies of the messages of `round`, one per expected sender, in the
    /// order of the expected senders.
    fn collect(&self, round: u16) -> (r: Vec<RoundMessage>)
        requires
            round_complete(self.expected@, views(self.pending@), round),
        ensures
            r@.len() == self.expected@.len(),
            forall|j: int|
                0 <= j < r@.len() ==> (#[trigger] r@[j]).round == round && r@[j].sender
                    == self.expected@[j] && views(self.pending@).contains(r@[j]@),
    {
        let mut out: Vec<RoundMessage> = Vec::new();
        let mut j: usize = 0;
        while j < self.expected.len()
            invariant
                j <= self.expected@.len(),
                round_complete(self.expected@, views(self.pending@), round),
                out@.len() == j,
                forall|k: int|
                    0 <= k < j ==> (#[trigger] out@[k]).round == round && out@[k].sender
                        == self.expected@[k] && views(self.pending@).contains(out@[k]@),
            decreases self.expected@.len() - j,
        {
            let sender = self.expected[j];
            proof {
                assert(has_msg(views(self.pending@), round, self.expected@[j as int]));
            }
            match self.find(round, sender) {
                None => {
                    proof {
                        assert(false);
                    }
                },
                Some(i) => {
                    let m = RoundMessage {
                        round,
                        sender,
                        body: copy_from(self.pending[i].body.as_slice(), 0),
                    };
                    proof {
                        let s = self.pending@[i as int].body@;
                        assert(s.subrange(0, s.len() as int) =~= s);
                        assert(views(self.pending@)[i as int] == m@);
                    }
                    out.push(m);
                },
            }
            j = j + 1;
        }
        out
    }

    fn drop_round(&mut self, round: u16)
        ensures
            final(self).expected@ == old(self).expected@,
            final(self).released@ == old(self).released@,
            views(final(self).pending@) == without_round(views(old(self).pending@), round),
    {
        let mut kept: Vec<RoundMessage> = Vec::new();
        let mut i: usize = 0;
        while i < self.pending.len()
            invariant
                i <= self.pending@.len(),
                views(kept@) == without_round(views(self.pending@).subrange(0, i as int), round),
            decreases self.pending@.len() - i,
        {
            proof {
                let pre = views(self.pending@).subrange(0, i + 1);
                assert(pre.drop_last() =~= views(self.pending@).subrange(0, i as int));
                assert(pre.last() == self.pending@[i as int]@);
            }
            if self.pending[i].round != round {
                let ghost before = kept@;
                let m = RoundMessage {
                    round: self.pending[i].round,
                    sender: self.pending[i].sender,
                    body: copy_from(self.pending[i].body.as_slice(), 0),
                };
                kept.push(m);
                proof {
                    let s = self.pending@[i as int].body@;
                    assert(s.subrange(0, s.len() as int) =~= s);
                    assert(views(kept@) =~= views(before).push(m@));
                }
            }
            i = i + 1;
        }
        proof {
            assert(views(self.pending@).subrange(0, self.pending@.len() as int) =~= views(
                self.pending@,
            ));
        }
        self.pending = kept;
    }

    /// Discards every held message, as when the session is cancelled;
    /// released rounds stay released.
    pub fn clear(&mut self)
        ensures
            final(self).spec_expected() == old(self).spec_expected(),
            final(self).spec_pending() == Seq::<MsgView>::empty(),
            final(self).spec_released() == old(self).spec_released(),
    {
        self.pending = Vec::new();
        proof {
            assert(views(self.pending@) =~= Seq::<MsgView>::empty());
        }
    }

    /// Routes one message. It is dropped, changing nothing, unless it comes
    /// from an expected sender, for a round not yet released, and no message
    /// of that sender for that round is held. Otherwise it is held; if that
    /// completes its round, the round's messages are released in the order
    /// of the expected senders, no longer held, and the round is recorded as
    /// released.
    pub fn route(&mut self, message: RoundMessage) -> (r: RouteOutcome)
        ensures
            final(self).spec_expected() == old(self).spec_expected(),
            final(self).spec_pending() == route_pending(old(self).spec_expected(), old(self).spec_pending(), old(self).spec_released(), message@),
            final(self).spec_released() == route_released(old(self).spec_expected(), old(self).spec_pending(), old(self).spec_released(), message@),
            !accepts(old(self).spec_expected(), old(self).spec_pending(), old(self).spec_released(), message@)
                ==> r is Dropped && final(self).spec_pending() == old(self).spec_pending()
                && final(self).spec_released() == old(self).spec_released(),
            accepts(old(self).spec_expected(), old(self).spec_pending(), old(self).spec_released(), message@)
                && !round_complete(old(self).spec_expected(), old(self).spec_pending().push(message@), message.round)
                ==> r is Buffered && final(self).spec_pending() == old(self).spec_pending().push(message@)
                && final(self).spec_released() == old(self).spec_released(),
            accepts(old(self).spec_expected(), old(self).spec_pending(), old(self).spec_released(), message@)
                && round_complete(old(self).spec_expected(), old(self).spec_pending().push(message@), message.round)
                ==> r is Released && final(self).spec_pending() == without_round(old(self).spec_pending().push(message@), message.round)
                && final(self).spec_released() == old(self).spec_released().push(message.round),
            r matches RouteOutcome::Released(batch) ==> batch@.len() == old(self).spec_expected().len()
                && forall|j: int| 0 <= j < batch@.len() ==> (#[trigger] batch@[j]).round == message.round
                    && batch@[j].sender == old(self).spec_expected()[j]
                    && old(self).spec_pending().push(message@).contains(batch@[j]@),
    {
        let round = message.round;
        if !self.is_expected(message.sender) || self.is_released(round) {
            return RouteOutcome::Dropped;
        }
        match self.find(round, message.sender) {
            Some(i) => {
                proof {
                    assert(views(self.pending@)[i as int] == self.pending@[i as int]@);
                }
                return RouteOutcome::Dropped;
            },
            None => {},
        }
        let ghost before = self.pending@;
        self.pending.push(message);
        proof {
            assert(views(self.pending@) =~= views(before).push(self.pending@.last()@));
        }
        if !self.complete(round) {
            return RouteOutcome::Buffered;
        }
        let batch = self.collect(round);
        self.drop_round(round);
        self.released.push(round);
        RouteOutcome::Released(batch)
    }
}

/// At most one message per sender and round reaches the driver: once a
/// message has been accepted, whether it was held or completed its round,
/// any later message from the same sender for the same round is dropped.
pub proof fn lemma_duplicate_dropped(
    expected: Seq<u16>,
    pending: Seq<MsgView>,
    released: Seq<u16>,
    m: MsgView,
    again: MsgView,
)
    requires
        accepts(expected, pending, released, m),
        again.0 == m.0,
        again.1 == m.1,
    ensures
        !accepts(expected, pending.push(m), released, again),
        !accepts(expected, without_round(pending.push(m), m.0), released.push(m.0), again),
{
    let p = pending.push(m);
    assert(p[pending.len() as int] == m);
    assert(released.push(m.0)[released.len() as int] == m.0);
}

} // verus!
