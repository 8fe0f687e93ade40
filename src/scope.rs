//! Which workspace and rooms the bridge may act on.

use vstd::prelude::*;

use crate::text::{str_eq, trim_chars, trim_str};

verus! {

/// The workspace the bridge is configured for.
pub const ROBIT_WORKSPACE_ID: &'static str = "!jiykcEdlcruEoeQPcG:matrix.org";

/// The room the bridge is configured for.
pub const ROBIT_ROOM_ID: &'static str = "!KHZpGbrVPoZqDtAkAg:matrix.org";

/// A set of room identifiers, kept as a list without repeats.
#[derive(Debug)]
pub struct RoomSet {
    ids: Vec<String>,
}

impl RoomSet {
    /// The members, in the order they were added.
    pub closed spec fn members(&self) -> Seq<Seq<char>> {
        self.ids@.map_values(|s: String| s@)
    }

    #[verifier::type_invariant]
    closed spec fn no_repeats(&self) -> bool {
        self.members().no_duplicates()
    }
}

impl View for RoomSet {
    type V = Set<Seq<char>>;

    closed spec fn view(&self) -> Set<Seq<char>> {
        self.members().to_set()
    }
}

impl RoomSet {
    /// An empty set.
    pub fn new() -> (r: RoomSet)
        ensures
            r@ == Set::<Seq<char>>::empty(),
    {
        let r = RoomSet { ids: Vec::new() };
        assert(r.members() =~= Seq::<Seq<char>>::empty());
        assert(r@ =~= Set::<Seq<char>>::empty());
        r
    }

    /// Whether `id` is a member.
    pub fn contains(&self, id: &str) -> (r: bool)
        ensures
            r == self@.contains(id@),
    {
        let mut i: usize = 0;
        while i < self.ids.len()
            invariant
                0 <= i <= self.ids.len(),
                forall|j: int| 0 <= j < i ==> self.ids@[j]@ != id@,
            decreases self.ids.len() - i,
        {
            if str_eq(self.ids[i].as_str(), id) {
                assert(self.members()[i as int] == id@);
                return true;
            }
            i = i + 1;
        }
        proof {
            if self.members().contains(id@) {
                let j = choose|j: int| 0 <= j < self.members().len() && self.members()[j] == id@;
                assert(self.ids@[j]@ == id@);
            }
        }
        false
    }

    /// Adds `id`; gives whether it was new. Adding a member again changes
    /// nothing.
    pub fn insert(&mut self, id: &str) -> (r: bool)
        ensures
            final(self)@ == old(self)@.insert(id@),
            r == !old(self)@.contains(id@),
            old(self)@.contains(id@) ==> *final(self) == *old(self),
    {
        if self.contains(id) {
            return false;
        }
        proof {
            use_type_invariant(&*self);
        }
        let ghost before = self.members();
        let mut taken = RoomSet { ids: Vec::new() };
        proof {
            assert(taken.members() =~= Seq::<Seq<char>>::empty());
        }
        core::mem::swap(self, &mut taken);
        let RoomSet { ids: mut ids } = taken;
        ids.push(String::from_str(id));
        let ghost after = ids@.map_values(|s: String| s@);
        proof {
            assert(after =~= before.push(id@));
            before.lemma_push_to_set_commute(id@);
            assert(after.no_duplicates()) by {
                assert forall|a: int, b: int|
                    0 <= a < after.len() && 0 <= b < after.len() && a != b implies after[a]
                    != after[b] by {
                    if a == before.len() as int {
                        assert(!before.contains(id@));
                        assert(before[b] == after[b]);
                    } else if b == before.len() as int {
                        assert(!before.contains(id@));
                        assert(before[a] == after[a]);
                    }
                }
            }
        }
        *self = RoomSet { ids };
        true
    }

    /// The number of members.
    pub fn len(&self) -> (r: usize)
        ensures
            self@.finite(),
            r == self@.len(),
    {
        proof {
            use_type_invariant(self);
            self.members().unique_seq_to_set();
        }
        self.ids.len()
    }

    /// Whether the set has no member.
    pub fn is_empty(&self) -> (r: bool)
        ensures
            r == (self@ == Set::<Seq<char>>::empty()),
    {
        proof {
            if self.ids.len() > 0 {
                assert(self.members().to_set().contains(self.members()[0]));
            } else {
                assert(self@ =~= Set::<Seq<char>>::empty());
            }
        }
        self.ids.len() == 0
    }

    /// The members as a list without repeats.
    pub fn to_vec(&self) -> (r: Vec<String>)
        ensures
            r@.map_values(|s: String| s@) == self.members(),
            r@.map_values(|s: String| s@).to_set() == self@,
            r@.map_values(|s: String| s@).no_duplicates(),
    {
        proof {
            use_type_invariant(self);
        }
        let mut r: Vec<String> = Vec::new();
        let mut i: usize = 0;
        while i < self.ids.len()
            invariant
                0 <= i <= self.ids.len(),
                r@.map_values(|s: String| s@) =~= self.members().take(i as int),
            decreases self.ids.len() - i,
        {
            let s = self.ids[i].clone();
            let ghost prev = r@;
            r.push(s);
            proof {
                assert(r@.map_values(|s: String| s@) =~= prev.map_values(|s: String| s@).push(
                    self.members()[i as int],
                ));
                assert(self.members().take(i + 1) =~= self.members().take(i as int).push(
                    self.members()[i as int],
                ));
            }
            i = i + 1;
        }
        assert(self.members().take(self.ids.len() as int) =~= self.members());
        r
    }
}

impl Clone for RoomSet {
    fn clone(&self) -> (r: RoomSet)
        ensures
            r@ == self@,
    {
        proof {
            use_type_invariant(self);
        }
        RoomSet { ids: self.to_vec() }
    }
}

/// The rooms named by a configured list: each entry trimmed, empty ones left
/// out.
pub open spec fn configured_rooms(ids: Seq<Seq<char>>) -> Set<Seq<char>> {
    Set::new(
        |r: Seq<char>|
            exists|i: int| 0 <= i < ids.len() && trim_chars(ids[i]) == r && r.len() > 0,
    )
}

/// The workspace and rooms the bridge may act on. Fixed once built.
#[derive(Clone, Debug)]
pub struct RobitScope {
    pub workspace_id: String,
    pub rooms: RoomSet,
}

pub struct ScopeView {
    pub workspace_id: Seq<char>,
    pub rooms: Set<Seq<char>>,
}

impl View for RobitScope {
    type V = ScopeView;

    open spec fn view(&self) -> ScopeView {
        ScopeView { workspace_id: self.workspace_id@, rooms: self.rooms@ }
    }
}

/// The scope [`RobitScope::from_config`] gives.
pub open spec fn configured_scope() -> ScopeView {
    ScopeView { workspace_id: ROBIT_WORKSPACE_ID@, rooms: set![ROBIT_ROOM_ID@] }
}

impl RobitScope {
    /// Builds a scope from a workspace id and a list of room ids. Each room id
    /// is trimmed and empty ones are dropped; when none is left there is no
    /// scope.
    pub fn from_rooms(workspace_id: &str, room_ids: &[&str]) -> (r: Option<RobitScope>)
        ensures
            r is None <==> configured_rooms(room_ids@.map_values(|s: &str| s@)).is_empty(),
            r matches Some(scope) ==> {
                &&& scope.workspace_id@ == workspace_id@
                &&& scope.rooms@ == configured_rooms(room_ids@.map_values(|s: &str| s@))
            },
    {
        let ghost ids = room_ids@.map_values(|s: &str| s@);
        let mut rooms = RoomSet::new();
        let mut i: usize = 0;
        while i < room_ids.len()
            invariant
                0 <= i <= room_ids.len(),
                ids == room_ids@.map_values(|s: &str| s@),
                rooms@ == configured_rooms(ids.take(i as int)),
            decreases room_ids.len() - i,
        {
            let room = trim_str(room_ids[i]);
            let ghost prev = rooms@;
            if !room.is_empty() {
                rooms.insert(room);
            }
            proof {
                let next = ids.take(i + 1);
                assert forall|r: Seq<char>| configured_rooms(next).contains(r) <==> rooms@.contains(
                    r,
                ) by {
                    if configured_rooms(next).contains(r) {
                        let j = choose|j: int|
                            0 <= j < next.len() && trim_chars(next[j]) == r && r.len() > 0;
                        if j < i {
                            assert(ids.take(i as int)[j] == next[j]);
                            assert(configured_rooms(ids.take(i as int)).contains(r));
                        }
                    }
                    if rooms@.contains(r) {
                        if prev.contains(r) {
                            let j = choose|j: int|
                                0 <= j < i && trim_chars(ids.take(i as int)[j]) == r && r.len()
                                    > 0;
                            assert(next[j] == ids.take(i as int)[j]);
                        } else {
                            assert(next[i as int] == room_ids@[i as int]@);
                        }
                    }
                }
                assert(rooms@ =~= configured_rooms(next));
            }
            i = i + 1;
        }
        assert(ids.take(room_ids.len() as int) =~= ids);
        if rooms.is_empty() {
            None
        } else {
            Some(RobitScope { workspace_id: String::from_str(workspace_id), rooms })
        }
    }

    /// The scope of the configured workspace and room.
    pub fn from_config() -> (r: Option<RobitScope>)
        ensures
            r matches Some(scope) && scope@ == configured_scope(),
    {
        let room_ids: Vec<&str> = vec![ROBIT_ROOM_ID];
        proof {
            reveal_strlit("!KHZpGbrVPoZqDtAkAg:matrix.org");
            let id = ROBIT_ROOM_ID@;
            assert(trim_chars(id) == id);
            let ids = room_ids@.map_values(|s: &str| s@);
            assert(configured_rooms(ids) =~= set![id]) by {
                assert(ids[0] == id);
            }
        }
        Self::from_rooms(ROBIT_WORKSPACE_ID, room_ids.as_slice())
    }

    /// Whether the scope holds `room_id`.
    pub fn contains_room(&self, room_id: &str) -> (r: bool)
        ensures
            r == self.rooms@.contains(room_id@),
    {
        self.rooms.contains(room_id)
    }
}

} // verus!
