//! The members of a JSON object, kept as a list without repeated keys and
//! read as a map.

use super::{
    is_scratch_key, json_value, members_value, prune_value, Json, JsonObject, JsonValue,
};
use crate::text::{has_prefix, same_text};
use vstd::prelude::*;

verus! {

/// Whether no key occurs twice among `members`.
pub(super) open spec fn distinct_keys(members: Seq<(String, Json)>) -> bool {
    forall|i: int, j: int|
        0 <= i < j < members.len() ==> (#[trigger] members[i]).0@ != (#[trigger] members[j]).0@
}

/// The position of `key` among `members`, or their number if it is none's key.
pub(super) open spec fn key_index(members: Seq<(String, Json)>, key: Seq<char>) -> int
    decreases members.len(),
{
    if members.len() == 0 {
        0
    } else if members[0].0@ == key {
        0
    } else {
        1 + key_index(members.skip(1), key)
    }
}

/// The position of a key is that of the first member that carries it.
pub(super) proof fn lemma_key_index(members: Seq<(String, Json)>, key: Seq<char>)
    ensures
        0 <= key_index(members, key) <= members.len(),
        key_index(members, key) < members.len() ==> members[key_index(members, key)].0@ == key,
        forall|i: int| 0 <= i < key_index(members, key) ==> (#[trigger] members[i]).0@ != key,
    decreases members.len(),
{
    if members.len() != 0 && members[0].0@ != key {
        let rest = members.skip(1);
        lemma_key_index(rest, key);
        assert forall|i: int| 0 <= i < key_index(members, key) implies (#[trigger] members[i]).0@
            != key by {
            if i > 0 {
                assert(members[i] == rest[i - 1]);
            }
        }
    }
}

/// Under distinct keys, the map holds exactly the keys of the members, each
/// with the value of its member.
pub(super) proof fn lemma_members_value(members: Seq<(String, Json)>)
    requires
        distinct_keys(members),
    ensures
        forall|k: Seq<char>|
            members_value(members).contains_key(k) <==> key_index(members, k) < members.len(),
        forall|i: int|
            0 <= i < members.len() ==> members_value(members)[(#[trigger] members[i]).0@]
                == json_value(members[i].1),
        forall|i: int|
            0 <= i < members.len() ==> members_value(members).contains_key(
                (#[trigger] members[i]).0@,
            ),
    decreases members.len(),
{
    if members.len() != 0 {
        let front = members.drop_last();
        lemma_members_value(front);
        assert forall|k: Seq<char>|
            members_value(members).contains_key(k) <==> key_index(members, k)
                < members.len() by {
            lemma_key_index(members, k);
            lemma_key_index(front, k);
            let at = key_index(members, k);
            if at < members.len() - 1 {
                assert(front[at] == members[at]);
            }
        }
        assert forall|i: int| 0 <= i < members.len() implies members_value(members)[(
        #[trigger] members[i]).0@] == json_value(members[i].1) && members_value(
            members,
        ).contains_key(members[i].0@) by {
            if i < members.len() - 1 {
                assert(front[i] == members[i]);
            }
        }
    }
}

/// Under distinct keys, a key is in the map exactly if some member carries it.
pub(super) proof fn lemma_members_key(members: Seq<(String, Json)>, key: Seq<char>)
    requires
        distinct_keys(members),
    ensures
        members_value(members).contains_key(key) ==> 0 <= key_index(members, key) < members.len()
            && members[key_index(members, key)].0@ == key && members_value(members)[key]
            == json_value(members[key_index(members, key)].1),
        !members_value(members).contains_key(key) ==> forall|i: int|
            0 <= i < members.len() ==> (#[trigger] members[i]).0@ != key,
{
    lemma_members_value(members);
    lemma_key_index(members, key);
}

/// Under distinct keys, the map has as many keys as there are members.
proof fn lemma_members_domain(members: Seq<(String, Json)>)
    requires
        distinct_keys(members),
    ensures
        members_value(members).dom().finite(),
        members_value(members).dom().len() == members.len(),
    decreases members.len(),
{
    if members.len() != 0 {
        let front = members.drop_last();
        lemma_members_domain(front);
        lemma_members_key(front, members.last().0@);
    }
}

/// Members with the same keys and the same values, one by one, make the same map.
proof fn lemma_members_same(a: Seq<(String, Json)>, b: Seq<(String, Json)>)
    requires
        a.len() == b.len(),
        forall|i: int|
            0 <= i < a.len() ==> (#[trigger] a[i]).0@ == b[i].0@ && json_value(a[i].1)
                == json_value(b[i].1),
    ensures
        members_value(a) == members_value(b),
        distinct_keys(a) ==> distinct_keys(b),
    decreases a.len(),
{
    if a.len() != 0 {
        let fa = a.drop_last();
        let fb = b.drop_last();
        lemma_members_same(fa, fb);
    }
    if distinct_keys(a) {
        assert forall|i: int, j: int| 0 <= i < j < b.len() implies (#[trigger] b[i]).0@ != (
        #[trigger] b[j]).0@ by {
            assert(a[i].0@ != a[j].0@);
        }
    }
}

impl JsonObject {
    /// No key occurs twice among the members.
    #[verifier::type_invariant]
    pub(super) open spec fn well_formed(self) -> bool {
        distinct_keys(self.members@)
    }

    /// The object as a map from its keys to the values of its members.
    pub open(super) spec fn value(self) -> Map<Seq<char>, JsonValue>
        decreases self, 0nat,
    {
        members_value(self.members@)
    }

    /// An object without members.
    pub fn new() -> (r: JsonObject)
        ensures
            r.value() == Map::<Seq<char>, JsonValue>::empty(),
    {
        JsonObject { members: Vec::new() }
    }

    /// The number of members.
    pub fn len(&self) -> (n: usize)
        ensures
            n == self.value().dom().len(),
            self.value().dom().finite(),
    {
        proof {
            use_type_invariant(self);
            lemma_members_domain(self.members@);
        }
        self.members.len()
    }

    /// The member under `key`, if there is one.
    pub fn get(&self, key: &str) -> (r: Option<&Json>)
        ensures
            r is Some <==> self.value().contains_key(key@),
            r is Some ==> json_value(*r->0) == self.value()[key@],
    {
        proof {
            use_type_invariant(self);
            lemma_members_value(self.members@);
        }
        let at = self.position(key);
        if at < self.members.len() {
            proof {
                lemma_key_index(self.members@, key@);
            }
            Some(&self.members[at].1)
        } else {
            None
        }
    }

    /// The object with `value` under `key`, in place of what stood there.
    pub fn insert(self, key: String, value: Json) -> (r: JsonObject)
        ensures
            r.value() == self.value().insert(key@, json_value(value)),
    {
        proof {
            use_type_invariant(&self);
        }
        let at = self.position(key.as_str());
        let ghost before = self.members@;
        let ghost k = key@;
        let ghost v = json_value(value);
        let mut members = self.members;
        proof {
            lemma_key_index(before, k);
        }
        if at < members.len() {
            members.set(at, (key, value));
        } else {
            members.push((key, value));
        }
        proof {
            let after = members@;
            let slot = at as int;
            assert(after[slot].0@ == k && json_value(after[slot].1) == v);
            assert(forall|i: int| 0 <= i < before.len() && i != slot ==> after[i] == before[i]);
            lemma_members_value(after);
            lemma_members_value(before);
            assert forall|q: Seq<char>|
                members_value(after).contains_key(q) <==> members_value(before).insert(
                    k,
                    v,
                ).contains_key(q) by {
                lemma_members_key(after, q);
                lemma_members_key(before, q);
            }
            assert forall|q: Seq<char>| members_value(after).contains_key(q) implies members_value(
                after,
            )[q] == members_value(before).insert(k, v)[q] by {
                lemma_members_key(after, q);
                lemma_members_key(before, q);
            }
        }
        JsonObject { members }
    }

    /// The object without the member under `key`.
    pub fn remove(self, key: &str) -> (r: JsonObject)
        ensures
            r.value() == self.value().remove(key@),
    {
        let (_, rest) = self.take(key);
        rest
    }

    /// The member under `key`, if there is one, and the object without it.
    pub fn take(self, key: &str) -> (r: (Option<Json>, JsonObject))
        ensures
            r.0 is Some <==> self.value().contains_key(key@),
            r.0 is Some ==> json_value(r.0->0) == self.value()[key@],
            r.1.value() == self.value().remove(key@),
    {
        proof {
            use_type_invariant(&self);
            lemma_key_index(self.members@, key@);
            lemma_members_key(self.members@, key@);
        }
        let at = self.position(key);
        if at < self.members.len() {
            let (member, rest) = self.take_at(at);
            (Some(member.1), rest)
        } else {
            (None, self)
        }
    }

    /// The object without its scratch members.
    pub fn prune(self) -> (r: JsonObject)
        ensures
            r.value() == prune_value(self.value()),
    {
        let ghost start = self.value();
        let mut kept = self;
        let mut i: usize = 0;
        loop
            invariant
                prune_value(kept.value()) == prune_value(start),
                i <= kept.members@.len(),
                forall|q: int| 0 <= q < i ==> !is_scratch_key((#[trigger] kept.members@[q]).0@),
            ensures
                prune_value(kept.value()) == prune_value(start),
                forall|q: int|
                    0 <= q < kept.members@.len() ==> !is_scratch_key(
                        (#[trigger] kept.members@[q]).0@,
                    ),
            decreases kept.members@.len() - i,
        {
            if i >= kept.members.len() {
                break ;
            }
            let ghost key = kept.members@[i as int].0@;
            let scratch = has_prefix(kept.members[i].0.as_str(), "_");
            assert(scratch == is_scratch_key(key)) by {
                reveal_strlit("_");
                if scratch {
                    assert(key.subrange(0, 1)[0] == key[0]);
                }
            }
            if scratch {
                let (_, rest) = kept.take_at(i);
                kept = rest;
            } else {
                i += 1;
            }
        }
        proof {
            use_type_invariant(&kept);
            assert(kept.value() =~= prune_value(kept.value())) by {
                assert forall|k: Seq<char>| kept.value().contains_key(k) implies !is_scratch_key(
                    k,
                ) by {
                    lemma_members_key(kept.members@, k);
                }
            }
        }
        kept
    }

    /// Whether two objects have the same members.
    pub fn same(&self, other: &JsonObject) -> (r: bool)
        ensures
            r == (self.value() == other.value()),
        decreases self,
    {
        proof {
            use_type_invariant(self);
            use_type_invariant(other);
            lemma_members_domain(self.members@);
            lemma_members_domain(other.members@);
            lemma_members_value(self.members@);
        }
        if self.members.len() != other.members.len() {
            return false;
        }
        let mut i: usize = 0;
        while i < self.members.len()
            invariant
                i <= self.members@.len(),
                forall|q: int|
                    0 <= q < self.members@.len() ==> self.value()[(
                    #[trigger] self.members@[q]).0@] == json_value(self.members@[q].1)
                        && self.value().contains_key(self.members@[q].0@),
                forall|q: int|
                    0 <= q < i ==> other.value().contains_key((#[trigger] self.members@[q]).0@)
                        && other.value()[self.members@[q].0@] == json_value(self.members@[q].1),
            decreases self.members@.len() - i,
        {
            match other.get(self.members[i].0.as_str()) {
                Some(found) => {
                    if !self.members[i].1.same(found) {
                        return false;
                    }
                },
                None => {
                    return false;
                },
            }
            i += 1;
        }
        proof {
            let a = self.value();
            let b = other.value();
            assert(a.dom().subset_of(b.dom())) by {
                assert forall|k: Seq<char>| a.dom().contains(k) implies b.dom().contains(k) by {
                    lemma_members_key(self.members@, k);
                }
            }
            vstd::set_lib::lemma_subset_equality(a.dom(), b.dom());
            assert forall|k: Seq<char>| a.dom().contains(k) implies #[trigger] a[k] == b[k] by {
                lemma_members_key(self.members@, k);
            }
            assert(a =~= b);
        }
        true
    }

    /// A copy of the object.
    pub fn duplicate(&self) -> (r: JsonObject)
        ensures
            r.value() == self.value(),
        decreases self,
    {
        proof {
            use_type_invariant(self);
        }
        let mut copy: Vec<(String, Json)> = Vec::new();
        let mut i: usize = 0;
        while i < self.members.len()
            invariant
                i <= self.members.len(),
                copy@.len() == i,
                forall|q: int|
                    0 <= q < i ==> (#[trigger] copy@[q]).0@ == self.members@[q].0@ && json_value(
                        copy@[q].1,
                    ) == json_value(self.members@[q].1),
            decreases self.members.len() - i,
        {
            copy.push((self.members[i].0.clone(), self.members[i].1.duplicate()));
            i += 1;
        }
        proof {
            lemma_members_same(self.members@, copy@);
        }
        JsonObject { members: copy }
    }

    fn position(&self, key: &str) -> (at: usize)
        ensures
            at as int == key_index(self.members@, key@),
    {
        let mut at: usize = 0;
        while at < self.members.len()
            invariant
                at <= self.members.len(),
                forall|i: int| 0 <= i < at ==> (#[trigger] self.members@[i]).0@ != key@,
            ensures
                at <= self.members.len(),
                forall|i: int| 0 <= i < at ==> (#[trigger] self.members@[i]).0@ != key@,
                at < self.members.len() ==> self.members@[at as int].0@ == key@,
            decreases self.members.len() - at,
        {
            if same_text(self.members[at].0.as_str(), key) {
                break ;
            }
            at += 1;
        }
        proof {
            lemma_key_index(self.members@, key@);
        }
        at
    }

    /// The member at a position, and the object without it.
    pub(super) fn take_at(self, at: usize) -> (r: ((String, Json), JsonObject))
        requires
            at < self.members@.len(),
        ensures
            r.0 == self.members@[at as int],
            r.1.members@ == self.members@.remove(at as int),
            r.1.value() == self.value().remove(self.members@[at as int].0@),
    {
        proof {
            use_type_invariant(&self);
        }
        let ghost before = self.members@;
        let ghost k = before[at as int].0@;
        let mut members = self.members;
        let member = members.remove(at);
        proof {
            let after = members@;
            let slot = at as int;
            lemma_members_value(before);
            lemma_members_value(after);
            assert forall|q: Seq<char>|
                members_value(after).contains_key(q) <==> members_value(before).remove(
                    k,
                ).contains_key(q) by {
                lemma_members_key(after, q);
                lemma_members_key(before, q);
                if members_value(before).contains_key(q) && q != k {
                    let bi = key_index(before, q);
                    let i = if bi < slot { bi } else { bi - 1 };
                    assert(after[i] == before[bi]);
                }
            }
            assert forall|q: Seq<char>| members_value(after).contains_key(q) implies members_value(
                after,
            )[q] == members_value(before).remove(k)[q] by {
                lemma_members_key(after, q);
                lemma_members_key(before, q);
            }
        }
        (member, JsonObject { members })
    }
}

impl PartialEq for JsonObject {
    /// Two objects are equal where they have the same members.
    fn eq(&self, other: &JsonObject) -> (r: bool) {
        self.same(other)
    }
}

impl vstd::std_specs::cmp::PartialEqSpecImpl for JsonObject {
    open spec fn obeys_eq_spec() -> bool {
        true
    }

    open spec fn eq_spec(&self, other: &JsonObject) -> bool {
        self.value() == other.value()
    }
}

} // verus!
