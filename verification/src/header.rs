//! The page header: the badge summing up the background tasks, and the signed-in user's badge.

use vstd::prelude::*;

use crate::flags::IconType;
use crate::tasks::TaskCounts;

verus! {

/// One part of the tasks badge: a count and its icon.
#[derive(Clone, Copy, PartialEq, Eq, Debug, Structural)]
pub struct BadgeSegment {
    pub count: usize,
    pub icon: IconType,
}

/// The segment for a count, where the count is not zero.
pub open spec fn segment_if(count: usize, icon: IconType) -> Seq<BadgeSegment> {
    if count != 0 { seq![BadgeSegment { count, icon }] } else { Seq::empty() }
}

/// The tasks badge: the pending, succeeded and failed tasks, in that order, each only where
/// there are any.
pub open spec fn badge_segments(c: TaskCounts) -> Seq<BadgeSegment> {
    segment_if(c.pending, IconType::Wait) + segment_if(c.success, IconType::Done) + segment_if(c.failed, IconType::Removed)
}

/// The tasks badge for the given counts.
pub fn task_badge(counts: TaskCounts) -> (v: Vec<BadgeSegment>)
    ensures
        v@ == badge_segments(counts),
{
    let mut v: Vec<BadgeSegment> = Vec::new();
    if counts.pending != 0 {
        v.push(BadgeSegment { count: counts.pending, icon: IconType::Wait });
    }
    if counts.success != 0 {
        v.push(BadgeSegment { count: counts.success, icon: IconType::Done });
    }
    if counts.failed != 0 {
        v.push(BadgeSegment { count: counts.failed, icon: IconType::Removed });
    }
    proof { assert(v@ =~= badge_segments(counts)); }
    v
}

/// The name shown on the user's badge: the username, unless it is missing or merely repeats
/// the user ID.
pub fn shown_username(username: &Option<String>, user_id: &String) -> (r: Option<String>)
    ensures
        match *username {
            Some(name) => if name@ != user_id@ {
                r matches Some(x) && x@ == name@
            } else {
                r is None
            },
            None => r is None,
        },
{
    match username {
        Some(name) => if *name != *user_id { Some(name.clone()) } else { None },
        None => None,
    }
}

} // verus!
