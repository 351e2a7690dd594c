//! The parts into which a stage of the schedule is divided.

use vstd::prelude::*;

verus! {

/// The parts of a stage, in the order in which they run.
#[derive(Hash, Debug, Clone, Copy, PartialEq, Eq, Structural)]
pub enum SubStages {
    First,
    Pre,
    Main,
    Post,
    Last,
}

impl SubStages {
    /// The part that runs directly after `self`, if there is one.
    pub open spec fn successor(self) -> Option<SubStages> {
        match self {
            SubStages::First => Some(SubStages::Pre),
            SubStages::Pre => Some(SubStages::Main),
            SubStages::Main => Some(SubStages::Post),
            SubStages::Post => Some(SubStages::Last),
            SubStages::Last => None,
        }
    }

    /// The place of the part in the order, from 0.
    pub open spec fn position(self) -> nat {
        match self {
            SubStages::First => 0,
            SubStages::Pre => 1,
            SubStages::Main => 2,
            SubStages::Post => 3,
            SubStages::Last => 4,
        }
    }

    /// Steps to the part after `self` and returns it. On the last part it
    /// returns `None` and stays where it is.
    pub fn next(&mut self) -> (r: Option<SubStages>)
        ensures
            r == old(self).successor(),
            *final(self) == match old(self).successor() {
                Some(following) => following,
                None => *old(self),
            },
    {
        let next = match *self {
            SubStages::First => Some(SubStages::Pre),
            SubStages::Pre => Some(SubStages::Main),
            SubStages::Main => Some(SubStages::Post),
            SubStages::Post => Some(SubStages::Last),
            SubStages::Last => None,
        };
        if let Some(following) = next {
            *self = following;
        }
        next
    }

    /// A successor comes exactly one place later, and only the last part has
    /// none.
    pub proof fn lemma_successor_is_next(self)
        ensures
            match self.successor() {
                Some(following) => following.position() == self.position() + 1,
                None => self == SubStages::Last,
            },
    {
    }
}

} // verus!
