//! Where a command comes from, and the stamp its record gets.

use vstd::prelude::*;
use vstd::string::*;
use crate::clock::{observed, ticked, LamportClock};

verus! {

/// The logical time and the node under which a record was first made. The pair
/// is the record's identity on every node.
#[derive(Debug, PartialEq, Eq)]
pub struct Stamp {
    pub lamport_time: i64,
    pub origin_node: String,
}

/// A stamp as a mathematical value.
pub struct StampView {
    pub lamport_time: int,
    pub origin_node: Seq<char>,
}

impl View for Stamp {
    type V = StampView;

    open spec fn view(&self) -> StampView {
        StampView { lamport_time: self.lamport_time as int, origin_node: self.origin_node@ }
    }
}

impl Clone for Stamp {
    fn clone(&self) -> (copy: Stamp)
        ensures
            copy@ == self@,
    {
        Stamp { lamport_time: self.lamport_time, origin_node: self.origin_node.clone() }
    }
}

impl Stamp {
    pub fn new(lamport_time: i64, origin_node: &str) -> (stamp: Stamp)
        ensures
            stamp@ == (StampView { lamport_time: lamport_time as int, origin_node: origin_node@ }),
    {
        Stamp { lamport_time, origin_node: String::from_str(origin_node) }
    }
}

/// Whether a command was typed at this node or came in a peer's message, and
/// in that case the stamp that the message carried.
#[derive(Debug, PartialEq, Eq)]
pub enum Origin {
    Local,
    Network(Stamp),
}

/// An origin as a mathematical value.
pub enum OriginView {
    Local,
    Network(StampView),
}

impl View for Origin {
    type V = OriginView;

    open spec fn view(&self) -> OriginView {
        match self {
            Origin::Local => OriginView::Local,
            Origin::Network(stamp) => OriginView::Network(stamp@),
        }
    }
}

impl OriginView {
    /// Whether the command came from a peer.
    pub open spec fn from_network(self) -> bool {
        self is Network
    }

    /// Whether a clock at `clock` can take the step that this origin asks
    /// for without leaving the range of a 64-bit counter.
    pub open spec fn admits(self, clock: int) -> bool {
        match self {
            OriginView::Local => clock < i64::MAX,
            OriginView::Network(stamp) => clock < i64::MAX && stamp.lamport_time < i64::MAX,
        }
    }

    /// The stamp of the record: the next tick of this node's clock for a
    /// local command, the stamp that came with it for a replayed one.
    pub open spec fn stamp(self, clock: int, node: Seq<char>) -> StampView {
        match self {
            OriginView::Local => StampView { lamport_time: ticked(clock), origin_node: node },
            OriginView::Network(stamp) => stamp,
        }
    }

    /// The clock once the command has been applied: ticked for a local
    /// command, moved past the stamp's time for a replayed one.
    pub open spec fn clock_after(self, clock: int) -> int {
        match self {
            OriginView::Local => ticked(clock),
            OriginView::Network(stamp) => observed(clock, stamp.lamport_time),
        }
    }

    /// The clock once the command has been refused: a refused local command
    /// leaves no trace, a message has been seen all the same.
    pub open spec fn clock_after_refusal(self, clock: int) -> int {
        match self {
            OriginView::Local => clock,
            OriginView::Network(stamp) => observed(clock, stamp.lamport_time),
        }
    }

    /// The clock once the command has been applied or refused.
    pub open spec fn clock_outcome(self, clock: int, applied: bool) -> int {
        if applied {
            self.clock_after(clock)
        } else {
            self.clock_after_refusal(clock)
        }
    }
}

impl Origin {
    /// Whether the command came from a peer.
    pub fn from_network(&self) -> (yes: bool)
        ensures
            yes == self@.from_network(),
    {
        match self {
            Origin::Local => false,
            Origin::Network(_) => true,
        }
    }

    /// Whether `clock` can take the step that this origin asks for.
    pub fn admits(&self, clock: &LamportClock) -> (yes: bool)
        ensures
            yes == self@.admits(clock@),
    {
        match self {
            Origin::Local => clock.can_advance(),
            Origin::Network(stamp) => clock.can_advance() && stamp.lamport_time < i64::MAX,
        }
    }

    /// The stamp that a record made now gets.
    pub fn stamp(&self, clock: &LamportClock, node: &str) -> (stamp: Stamp)
        requires
            self@.admits(clock@),
        ensures
            stamp@ == self@.stamp(clock@, node@),
    {
        match self {
            Origin::Local => Stamp::new(clock.value() + 1, node),
            Origin::Network(stamp) => stamp.clone(),
        }
    }

    /// Moves the clock as this origin asks once a command has been applied
    /// or refused.
    pub fn advance(&self, clock: &mut LamportClock, applied: bool)
        requires
            self@.admits(old(clock)@),
        ensures
            final(clock)@ == self@.clock_outcome(old(clock)@, applied),
    {
        match self {
            Origin::Local => {
                if applied {
                    clock.tick();
                }
            },
            Origin::Network(stamp) => {
                clock.observe(stamp.lamport_time);
            },
        }
    }
}

} // verus!
