//! The member registry: the current set of authorised members, unique by key.
use vstd::prelude::*;
use crate::keys::IdentityKey;

verus! {

/// A registered member: a display name and the key that identifies it.
#[derive(Clone, Debug, PartialEq, Eq)]
pub struct Member {
    pub name: String,
    pub key: IdentityKey,
}

impl Member {
    pub fn new(name: String, key: IdentityKey) -> (m: Member)
        ensures
            m.name == name,
            m.key == key,
    {
        Member { name, key }
    }
}

/// The keys of `members`, in order.
pub open spec fn member_keys(members: Seq<Member>) -> Seq<IdentityKey> {
    members.map_values(|m: Member| m.key)
}

/// Whether some member of `members` has `key`.
pub open spec fn is_member(members: Seq<Member>, key: IdentityKey) -> bool {
    exists|i: int| 0 <= i < members.len() && (#[trigger] members[i]).key == key
}

/// No two members share a key.
pub open spec fn keys_unique(members: Seq<Member>) -> bool {
    forall|i: int, j: int|
        0 <= i < members.len() && 0 <= j < members.len() && i != j ==> (#[trigger] members[i]).key
            != (#[trigger] members[j]).key
}

/// The registry of members, bounded by a maximum member count. It stores what
/// it is given: callers check that a key is new, or present, and that there
/// is room, before they ask for a change.
#[derive(Debug)]
pub struct Registry {
    members: Vec<Member>,
    max_members: usize,
}

impl View for Registry {
    type V = Seq<Member>;

    closed spec fn view(&self) -> Seq<Member> {
        self.members@
    }
}

impl Registry {
    /// The most members the registry may hold.
    pub closed spec fn capacity(&self) -> nat {
        self.max_members as nat
    }

    pub open spec fn wf(&self) -> bool {
        keys_unique(self@) && self@.len() <= self.capacity()
    }

    pub fn new(max_members: usize) -> (r: Registry)
        ensures
            r@ == Seq::<Member>::empty(),
            r.capacity() == max_members,
            r.wf(),
    {
        Registry { members: Vec::new(), max_members }
    }

    /// A registry holding `members`, if their keys are unique and they fit
    /// within `max_members`.
    pub fn from_members(members: Vec<Member>, max_members: usize) -> (r: Option<Registry>)
        ensures
            r is Some <==> keys_unique(members@) && members@.len() <= max_members,
            r matches Some(reg) ==> reg@ == members@ && reg.capacity() == max_members && reg.wf(),
    {
        if members.len() > max_members {
            return None;
        }
        let mut i: usize = 0;
        while i < members.len()
            invariant
                0 <= i <= members@.len(),
                forall|a: int, b: int|
                    0 <= a < i && 0 <= b < i && a != b ==> (#[trigger] members@[a]).key != (
                    #[trigger] members@[b]).key,
            decreases members@.len() - i,
        {
            let mut j: usize = 0;
            while j < i
                invariant
                    0 <= j <= i < members@.len(),
                    forall|b: int| 0 <= b < j ==> (#[trigger] members@[b]).key != members@[i as int].key,
                decreases i - j,
            {
                if members[j].key.same_as(&members[i].key) {
                    assert(members@[j as int].key == members@[i as int].key);
                    return None;
                }
                j = j + 1;
            }
            i = i + 1;
        }
        Some(Registry { members, max_members })
    }

    pub fn list(&self) -> (r: &Vec<Member>)
        ensures
            r@ == self@,
    {
        &self.members
    }

    pub fn len(&self) -> (r: usize)
        ensures
            r == self@.len(),
    {
        self.members.len()
    }

    pub fn max_members(&self) -> (r: usize)
        ensures
            r == self.capacity(),
    {
        self.max_members
    }

    /// The index of the member with `key`, if any.
    pub fn position(&self, key: &IdentityKey) -> (r: Option<usize>)
        ensures
            r is None <==> !is_member(self@, *key),
            r matches Some(i) ==> i < self@.len() && self@[i as int].key == *key,
    {
        let mut i: usize = 0;
        while i < self.members.len()
            invariant
                0 <= i <= self@.len(),
                self@ == self.members@,
                forall|j: int| 0 <= j < i ==> (#[trigger] self@[j]).key != *key,
            decreases self@.len() - i,
        {
            if self.members[i].key.same_as(key) {
                return Some(i);
            }
            i = i + 1;
        }
        None
    }

    /// The member with `key`, if any.
    pub fn find(&self, key: &IdentityKey) -> (r: Option<&Member>)
        ensures
            r is None <==> !is_member(self@, *key),
            r matches Some(m) ==> m.key == *key && self@.contains(*m),
    {
        match self.position(key) {
            Some(i) => {
                assert(self@[i as int] == self.members@[i as int]);
                Some(&self.members[i])
            },
            None => None,
        }
    }

    pub fn contains(&self, key: &IdentityKey) -> (r: bool)
        ensures
            r == is_member(self@, *key),
    {
        self.position(key).is_some()
    }

    /// The member keys, in registry order: the snapshot a new proposal takes.
    pub fn keys(&self) -> (r: Vec<IdentityKey>)
        ensures
            r@ == member_keys(self@),
    {
        let mut out: Vec<IdentityKey> = Vec::new();
        let mut i: usize = 0;
        while i < self.members.len()
            invariant
                0 <= i <= self@.len(),
                self@ == self.members@,
                out@ == member_keys(self@).subrange(0, i as int),
            decreases self@.len() - i,
        {
            out.push(self.members[i].key);
            i = i + 1;
        }
        assert(member_keys(self@).subrange(0, self@.len() as int) =~= member_keys(self@));
        out
    }

    /// Appends `member`, whose key is not yet registered, to a registry with room.
    pub fn apply_register(&mut self, member: Member)
        requires
            old(self).wf(),
            !is_member(old(self)@, member.key),
            old(self)@.len() < old(self).capacity(),
        ensures
            final(self)@ == old(self)@.push(member),
            final(self).capacity() == old(self).capacity(),
            final(self).wf(),
    {
        self.members.push(member);
        assert forall|i: int, j: int|
            0 <= i < self@.len() && 0 <= j < self@.len() && i != j implies (#[trigger] self@[i]).key
            != (#[trigger] self@[j]).key by {
            if i == self@.len() - 1 {
                assert(old(self)@[j] == self@[j]);
            } else if j == self@.len() - 1 {
                assert(old(self)@[i] == self@[i]);
            } else {
                assert(old(self)@[i] == self@[i] && old(self)@[j] == self@[j]);
            }
        }
    }

    /// Removes the member with `key`, if there is one.
    pub fn apply_remove(&mut self, key: &IdentityKey)
        requires
            old(self).wf(),
        ensures
            final(self).wf(),
            final(self).capacity() == old(self).capacity(),
            !is_member(final(self)@, *key),
            is_member(old(self)@, *key) ==> exists|i: int|
                0 <= i < old(self)@.len() && (#[trigger] old(self)@[i]).key == *key && final(self)@
                    == old(self)@.remove(i),
            !is_member(old(self)@, *key) ==> final(self)@ == old(self)@,
    {
        match self.position(key) {
            Some(i) => {
                let ghost before = self@;
                self.members.remove(i);
                assert(self@ == before.remove(i as int));
                assert forall|a: int, b: int|
                    0 <= a < self@.len() && 0 <= b < self@.len() && a != b implies (
                    #[trigger] self@[a]).key != (#[trigger] self@[b]).key by {
                    let oa = if a < i { a } else { a + 1 };
                    let ob = if b < i { b } else { b + 1 };
                    assert(self@[a] == before[oa] && self@[b] == before[ob]);
                }
                assert forall|a: int| 0 <= a < self@.len() implies (#[trigger] self@[a]).key
                    != *key by {
                    let oa = if a < i { a } else { a + 1 };
                    assert(self@[a] == before[oa]);
                }
            },
            None => {},
        }
    }
}

} // verus!
