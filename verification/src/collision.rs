//! Collision events, and what they cost the player.

use vstd::prelude::*;

verus! {

/// Whether two sprites have begun or ceased to overlap.
#[derive(Clone, Copy, Debug, PartialEq, Eq)]
pub enum CollisionState {
    Begin,
    End,
}

/// One collision event: two sprites began or ceased to overlap, and one of
/// them was, or neither was, the player.
#[derive(Clone, Copy, Debug, PartialEq, Eq)]
pub struct Collision {
    pub state: CollisionState,
    pub involves_player: bool,
}

impl Collision {
    /// An event costs health when the player is part of it and the overlap
    /// begins.
    pub open spec fn hurts(&self) -> bool {
        self.involves_player && self.state == CollisionState::Begin
    }

    /// Whether the event costs health.
    pub fn is_hit(&self) -> (b: bool)
        ensures
            b == self.hurts(),
    {
        match self.state {
            CollisionState::Begin => self.involves_player,
            CollisionState::End => false,
        }
    }
}

/// Number of events that cost health.
pub open spec fn hits(events: Seq<Collision>) -> nat
    decreases events.len(),
{
    if events.len() == 0 {
        0
    } else {
        hits(events.drop_last()) + (if events.last().hurts() { 1nat } else { 0nat })
    }
}

/// Health that the events take from a player with the given health: one per
/// hit, until none is left.
pub open spec fn damage(health: u8, events: Seq<Collision>) -> nat {
    if hits(events) < health {
        hits(events)
    } else {
        health as nat
    }
}

/// A longer list of events holds no fewer hits than its beginning.
pub proof fn hits_grow(events: Seq<Collision>, n: int)
    requires
        0 <= n <= events.len(),
    ensures
        hits(events.take(n)) <= hits(events),
    decreases events.len(),
{
    if n == events.len() {
        assert(events.take(n) =~= events);
    } else {
        hits_grow(events.drop_last(), n);
        assert(events.drop_last().take(n) =~= events.take(n));
    }
}

/// Health that the events take from a player with the given health. Stops
/// reading once no health is left.
pub fn absorb(health: u8, events: &Vec<Collision>) -> (taken: u8)
    ensures
        taken == damage(health, events@),
{
    let mut taken: u8 = 0;
    let mut i: usize = 0;
    while i < events.len() && taken < health
        invariant
            0 <= i <= events.len(),
            taken <= health,
            taken == damage(health, events@.take(i as int)),
        decreases events.len() - i,
    {
        assert(events@.take(i as int + 1).drop_last() =~= events@.take(i as int));
        if events[i].is_hit() {
            taken += 1;
        }
        i += 1;
    }
    proof {
        if i < events.len() {
            hits_grow(events@, i as int);
        } else {
            assert(events@.take(i as int) =~= events@);
        }
    }
    taken
}

} // verus!
