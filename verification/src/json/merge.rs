//! The merge patch for JSON documents.

use super::object::{
    distinct_keys, key_index, lemma_key_index, lemma_members_key, lemma_members_value,
};
use super::{
    json_value, member_value, members_of, members_value, merge_value, Json, JsonObject,
    JsonValue,
};
use vstd::prelude::*;

verus! {

/// The members of a document after the first `done` members of a patch have
/// been merged into it.
spec fn merged_so_far(doc: JsonValue, patch: Seq<(String, Json)>, done: int) -> Map<
    Seq<char>,
    JsonValue,
> {
    Map::new(
        |k: Seq<char>|
            if key_index(patch, k) < done {
                json_value(patch[key_index(patch, k)].1) !is Null
            } else {
                members_of(doc).contains_key(k)
            },
        |k: Seq<char>|
            if key_index(patch, k) < done {
                merge_value(member_value(doc, k), json_value(patch[key_index(patch, k)].1))
            } else {
                members_of(doc)[k]
            },
    )
}

proof fn lemma_merged_all(doc: JsonValue, patch: Seq<(String, Json)>)
    requires
        distinct_keys(patch),
    ensures
        JsonValue::Object(merged_so_far(doc, patch, patch.len() as int)) == merge_value(
            doc,
            JsonValue::Object(members_value(patch)),
        ),
{
    let p = members_value(patch);
    let merged = merged_so_far(doc, patch, patch.len() as int);
    lemma_members_value(patch);
    assert forall|k: Seq<char>| true implies (key_index(patch, k) < patch.len()
        <==> p.contains_key(k)) && (p.contains_key(k) ==> p[k] == json_value(
        patch[key_index(patch, k)].1,
    )) by {
        lemma_members_key(patch, k);
    }
    assert(merged =~= merge_value(doc, JsonValue::Object(p))->Object_0);
}

impl Json {
    /// The document with a merge patch applied to it.
    pub fn merge(self, patch: &Json) -> (r: Json)
        ensures
            json_value(r) == merge_value(json_value(self), json_value(*patch)),
        decreases patch, 1nat,
    {
        match patch {
            Json::Object(p) => self.merge_members(p),
            _ => patch.duplicate(),
        }
    }

    /// The document with the members of a merge patch applied to it.
    pub fn merge_members(self, patch: &JsonObject) -> (r: Json)
        ensures
            json_value(r) == merge_value(json_value(self), JsonValue::Object(patch.value())),
        decreases patch, 0nat,
    {
        let p = patch;
        let ghost doc = json_value(self);
        let mut target = match self {
            Json::Object(d) => d,
            _ => JsonObject::new(),
        };
        proof {
            use_type_invariant(p);
            assert forall|k: Seq<char>| key_index(p.members@, k) >= 0 by {
                lemma_key_index(p.members@, k);
            }
        }
        let mut i: usize = 0;
        while i < p.members.len()
            invariant
                i <= p.members@.len(),
                p == patch,
                distinct_keys(p.members@),
                target.value() == merged_so_far(doc, p.members@, i as int),
            decreases p.members@.len() - i,
        {
            let key = &p.members[i].0;
            let change = &p.members[i].1;
            proof {
                lemma_key_index(p.members@, key@);
            }
            match change {
                Json::Null => {
                    target = target.remove(key.as_str());
                },
                _ => {
                    let (current, rest) = target.take(key.as_str());
                    let member = match current {
                        Some(found) => found,
                        None => Json::Null,
                    };
                    let merged = member.merge(change);
                    target = rest.insert(key.clone(), merged);
                },
            }
            proof {
                let next = merged_so_far(doc, p.members@, i + 1);
                let after = target.value();
                assert forall|q: Seq<char>| #[trigger]
                    after.dom().contains(q) == next.dom().contains(q) by {
                    lemma_key_index(p.members@, q);
                }
                assert forall|q: Seq<char>| after.dom().contains(q) implies #[trigger] after[q]
                    == next[q] by {
                    lemma_key_index(p.members@, q);
                }
            }
            i += 1;
        }
        proof {
            lemma_merged_all(doc, p.members@);
        }
        Json::Object(target)
    }
}

} // verus!
