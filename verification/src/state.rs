//! The state of a recruitment, as the owning message carries it.

use vstd::prelude::*;

verus! {

/// The largest participant count that a fragment can carry: its integers
/// are signed and 64 bits wide.
pub const MAX_COUNT: u64 = 0x7FFF_FFFF_FFFF_FFFF;

/// The parameters of a recruitment. They are fixed when the owning message
/// is written and read back from it on every event.
#[derive(Clone, Debug, PartialEq, Eq)]
pub struct RecruitmentState {
    /// The activity's display title; not empty.
    pub activity_title: String,
    /// How many participants start the activity; at least one.
    pub required_participants: u64,
    /// The role to mention at the start, if any; never zero.
    pub mention_target: Option<u64>,
    /// Whether a join of the notifying kind is announced.
    pub notify_on_join: bool,
    /// Whether a participant who joins is granted `mention_target`.
    pub auto_assign_on_join: bool,
}

/// The mathematical value of a `RecruitmentState`.
pub struct StateView {
    pub activity_title: Seq<char>,
    pub required_participants: u64,
    pub mention_target: Option<u64>,
    pub notify_on_join: bool,
    pub auto_assign_on_join: bool,
}

impl View for RecruitmentState {
    type V = StateView;

    open spec fn view(&self) -> StateView {
        StateView {
            activity_title: self.activity_title@,
            required_participants: self.required_participants,
            mention_target: self.mention_target,
            notify_on_join: self.notify_on_join,
            auto_assign_on_join: self.auto_assign_on_join,
        }
    }
}

/// The invariant of a recruitment: a title that is not empty, a count of at
/// least one that a fragment can carry, and a mention target, if there is
/// one, that is not zero.
pub open spec fn valid(s: StateView) -> bool {
    &&& s.activity_title.len() > 0
    &&& 1 <= s.required_participants <= MAX_COUNT
    &&& s.mention_target != Some(0u64)
}

impl RecruitmentState {
    /// Whether the state meets the invariant of a recruitment.
    pub fn is_valid(&self) -> (r: bool)
        ensures
            r == valid(self@),
    {
        let target_ok = match self.mention_target {
            Some(id) => id != 0,
            None => true,
        };
        !self.activity_title.as_str().is_empty() && 1 <= self.required_participants
            && self.required_participants <= MAX_COUNT && target_ok
    }

    /// The role to grant to a participant who joins: the mention target,
    /// where the recruitment asks for the grant and has one.
    pub fn grant_target(&self) -> (r: Option<u64>)
        ensures
            r == grant_target_of(self@),
    {
        if self.auto_assign_on_join {
            self.mention_target
        } else {
            None
        }
    }
}

/// The role that a recruitment grants to a participant who joins, if any.
pub open spec fn grant_target_of(s: StateView) -> Option<u64> {
    if s.auto_assign_on_join {
        s.mention_target
    } else {
        None
    }
}

} // verus!
