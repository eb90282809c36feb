//! The waypoint cursor of the login camera tour, and per-world camera
//! profiles.
use vstd::prelude::*;

verus! {

/// Which segment of the camera tour is being flown: from waypoint
/// `current_index` to waypoint `next_index`.
#[derive(Clone, Copy, Debug, PartialEq, Eq, Structural)]
pub struct CameraTourCursor {
    pub current_index: usize,
    pub next_index: usize,
    pub active: bool,
    pub loop_enabled: bool,
}

impl CameraTourCursor {
    /// A tour starts flying from the first waypoint to the second.
    pub open spec fn spec_new(loop_enabled: bool) -> CameraTourCursor {
        CameraTourCursor { current_index: 0, next_index: 1, active: true, loop_enabled }
    }

    pub fn new(loop_enabled: bool) -> (r: CameraTourCursor)
        ensures
            r == Self::spec_new(loop_enabled),
    {
        CameraTourCursor { current_index: 0, next_index: 1, active: true, loop_enabled }
    }

    /// A usable segment of a tour of `count` waypoints: both ends exist and
    /// differ.
    pub open spec fn is_valid_segment(self, count: nat) -> bool {
        self.current_index < count && self.next_index < count && self.next_index
            != self.current_index
    }

    /// The segment made usable: a current index past the end restarts at
    /// the first waypoint; a next index past the end, or equal to the
    /// current one, becomes the waypoint after the current one, wrapping.
    pub open spec fn spec_normalized(self, count: nat) -> CameraTourCursor {
        let current = if self.current_index >= count {
            0
        } else {
            self.current_index
        };
        let next = if self.next_index >= count || self.next_index == current {
            ((current + 1) % (count as int)) as usize
        } else {
            self.next_index
        };
        CameraTourCursor { current_index: current, next_index: next, ..self }
    }

    pub fn normalize(&mut self, waypoint_count: usize)
        requires
            waypoint_count >= 2,
        ensures
            *final(self) == old(self).spec_normalized(waypoint_count as nat),
    {
        if self.current_index >= waypoint_count {
            self.current_index = 0;
        }
        if self.next_index >= waypoint_count || self.next_index == self.current_index {
            self.next_index = (self.current_index + 1) % waypoint_count;
        }
    }

    /// Moving on once the next waypoint is reached: it becomes the current
    /// one; the next is the one after it, or, past the last waypoint, the
    /// first one for a looping tour. A tour that does not loop stops there
    /// instead. Returns whether the tour goes on.
    pub open spec fn spec_advance(self, count: nat) -> (bool, CameraTourCursor) {
        let current = self.next_index;
        if current + 1 >= count {
            if self.loop_enabled {
                (true, CameraTourCursor { current_index: current, next_index: 0, ..self })
            } else {
                (false, CameraTourCursor { current_index: current, active: false, ..self })
            }
        } else {
            (
                true,
                CameraTourCursor {
                    current_index: current,
                    next_index: (current + 1) as usize,
                    ..self
                },
            )
        }
    }

    pub fn advance_waypoint(&mut self, waypoint_count: usize) -> (r: bool)
        requires
            old(self).next_index < usize::MAX,
        ensures
            (r, *final(self)) == old(self).spec_advance(waypoint_count as nat),
    {
        self.current_index = self.next_index;
        if self.current_index + 1 >= waypoint_count {
            if self.loop_enabled {
                self.next_index = 0;
                true
            } else {
                self.active = false;
                false
            }
        } else {
            self.next_index = self.current_index + 1;
            true
        }
    }
}

/// The waypoints around a segment that steer the camera's heading: the
/// one before the current waypoint and the one after the next, both
/// wrapping around the tour.
pub open spec fn spec_neighbor_indices(current_index: nat, next_index: nat, count: nat) -> (
    usize,
    usize,
) {
    let prev = if current_index > 0 {
        current_index - 1
    } else {
        count - 1
    };
    (prev as usize, ((next_index + 1) as int % (count as int)) as usize)
}

/// The waypoints before and after the current segment; see [`spec_neighbor_indices`].
pub fn neighbor_indices(current_index: usize, next_index: usize, waypoint_count: usize) -> (r: (
    usize,
    usize,
))
    requires
        waypoint_count >= 2,
        current_index < waypoint_count,
        next_index < waypoint_count,
    ensures
        r == spec_neighbor_indices(current_index as nat, next_index as nat, waypoint_count as nat),
        r.0 < waypoint_count,
        r.1 < waypoint_count,
{
    let prev = if current_index > 0 {
        current_index - 1
    } else {
        waypoint_count - 1
    };
    (prev, (next_index + 1) % waypoint_count)
}

/// The vertical field of view, in degrees, that a login scene's camera
/// uses: world 56 (the classic login scene) 35, world 74 65, world 78 61;
/// other worlds keep the default.
pub open spec fn spec_login_camera_fov_degrees(world_name: Seq<char>) -> Option<u32> {
    if world_name == "world_56"@ {
        Some(35)
    } else if world_name == "world_74"@ {
        Some(65)
    } else if world_name == "world_78"@ {
        Some(61)
    } else {
        None
    }
}

/// The login camera's field of view for a world; see [`spec_login_camera_fov_degrees`].
pub fn login_camera_fov_degrees(world_name: &str) -> (r: Option<u32>)
    ensures
        r == spec_login_camera_fov_degrees(world_name@),
{
    let chars = crate::text::str_chars(world_name);
    let w56: [char; 8] = ['w', 'o', 'r', 'l', 'd', '_', '5', '6'];
    let w74: [char; 8] = ['w', 'o', 'r', 'l', 'd', '_', '7', '4'];
    let w78: [char; 8] = ['w', 'o', 'r', 'l', 'd', '_', '7', '8'];
    proof {
        reveal_strlit("world_56");
        reveal_strlit("world_74");
        reveal_strlit("world_78");
        assert(w56@ =~= "world_56"@);
        assert(w74@ =~= "world_74"@);
        assert(w78@ =~= "world_78"@);
    }
    if crate::text::chars_equal(&chars, &w56) {
        Some(35)
    } else if crate::text::chars_equal(&chars, &w74) {
        Some(65)
    } else if crate::text::chars_equal(&chars, &w78) {
        Some(61)
    } else {
        None
    }
}

/// A usable segment stays usable as the tour moves on: after normalizing
/// the cursor of a tour of at least two waypoints, every step that goes on
/// leaves a usable segment, and for a looping tour the next waypoint is
/// always the one after the current one, wrapping.
pub proof fn lemma_tour_cursor_stays_valid(cursor: CameraTourCursor, count: nat)
    requires
        count >= 2,
        count <= usize::MAX,
    ensures
        cursor.spec_normalized(count).is_valid_segment(count),
        cursor.is_valid_segment(count) ==> ({
            let (goes_on, next) = cursor.spec_advance(count);
            goes_on ==> next.is_valid_segment(count) && next.next_index == (next.current_index + 1)
                % (count as int)
        }),
        cursor.is_valid_segment(count) && cursor.loop_enabled ==> cursor.spec_advance(count).0,
        cursor.is_valid_segment(count) && !cursor.loop_enabled ==> (cursor.spec_advance(count).0
            <==> cursor.next_index + 1 < count),
{
    let n = cursor.spec_normalized(count);
    let current = n.current_index;
    if current + 1 < count {
        assert((current + 1) % (count as int) == current + 1) by {
            vstd::arithmetic::div_mod::lemma_small_mod((current + 1) as nat, count);
        }
    } else {
        assert((current + 1) % (count as int) == 0) by {
            vstd::arithmetic::div_mod::lemma_mod_self_0(count as int);
        }
    }
    if cursor.is_valid_segment(count) {
        let c = cursor.next_index;
        if c + 1 < count {
            vstd::arithmetic::div_mod::lemma_small_mod((c + 1) as nat, count);
        } else {
            vstd::arithmetic::div_mod::lemma_mod_self_0(count as int);
        }
    }
}

} // verus!
