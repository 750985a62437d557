use vstd::prelude::*;

use crate::character::{
    boxes_of, displayed, distinct_boxes, hit_bone, update_step, well_formed, with_boxes,
    CharacterView, CollisionBox,
};
use crate::ids::ColliderHandle;

verus! {

/// Every update keeps node and collider lists index-aligned and free of
/// repeats, and every successful update with a resolvable skin leaves exactly
/// one proxy per bone.
pub proof fn lemma_update_keeps_alignment(
    v: CharacterView,
    bone_count: Option<usize>,
    fresh: Seq<CollisionBox>,
)
    requires
        well_formed(v),
    ensures
        well_formed(update_step(v, bone_count, fresh).0),
        match bone_count {
            Some(n) => update_step(v, bone_count, fresh).1 is Ok ==> update_step(
                v,
                bone_count,
                fresh,
            ).0.nodes.len() == n && update_step(v, bone_count, fresh).0.colliders.len() == n,
            None => true,
        },
{
}

/// A second update right after a successful one, with the same skin and no
/// new proxies, changes nothing and hands out the same proxies to pose.
pub proof fn lemma_update_steady(v: CharacterView, bone_count: usize, fresh: Seq<CollisionBox>)
    requires
        well_formed(v),
        update_step(v, Some(bone_count), fresh).1 is Ok,
    ensures
        update_step(update_step(v, Some(bone_count), fresh).0, Some(bone_count), Seq::empty())
            == update_step(v, Some(bone_count), fresh),
{
    let (v1, r1) = update_step(v, Some(bone_count), fresh);
    if v.colliders.len() == 0 {
        if bone_count == 0 {
            assert(fresh =~= Seq::<CollisionBox>::empty());
            assert(with_boxes(v1, Seq::empty()) =~= v1);
        } else {
            assert(boxes_of(v1) =~= fresh);
        }
    }
}

/// The first update with a resolvable skin of `bone_count` bones, handed one
/// new proxy per bone with no node or handle repeated, succeeds and makes
/// those proxies the character's, in bone order.
pub proof fn lemma_first_update_fills(
    v: CharacterView,
    bone_count: usize,
    fresh: Seq<CollisionBox>,
)
    requires
        well_formed(v),
        v.colliders.len() == 0,
        fresh.len() == bone_count,
        distinct_boxes(fresh),
    ensures
        update_step(v, Some(bone_count), fresh) == (
            with_boxes(v, fresh),
            Ok::<Seq<CollisionBox>, crate::character::UpdateError>(fresh),
        ),
        boxes_of(update_step(v, Some(bone_count), fresh).0) == fresh,
        update_step(v, Some(bone_count), fresh).0.nodes.len() == bone_count,
        update_step(v, Some(bone_count), fresh).0.colliders.len() == bone_count,
{
    assert(boxes_of(with_boxes(v, fresh)) =~= fresh);
}

/// Once created, the proxies are never replaced or resized: every later
/// update leaves the state as it was.
pub proof fn lemma_proxies_created_once(
    v: CharacterView,
    bone_count: Option<usize>,
    fresh: Seq<CollisionBox>,
)
    requires
        well_formed(v),
        v.colliders.len() > 0,
    ensures
        update_step(v, bone_count, fresh).0 == v,
{
}

/// In a well-formed state the handle of bone `i` maps back to `i`, and a
/// handle that no bone has maps to nothing.
pub proof fn lemma_hit_maps_back(v: CharacterView, i: int, other: ColliderHandle)
    requires
        well_formed(v),
        0 <= i < v.colliders.len(),
        !v.colliders.contains(other),
    ensures
        hit_bone(v, v.colliders[i]) == Some(i),
        hit_bone(v, other) is None,
{
    let h = v.colliders[i];
    assert(0 <= i < v.colliders.len() && v.colliders[i] == h && forall|j: int|
        0 <= j < i ==> v.colliders[j] != h);
    let w = choose|k: int|
        0 <= k < v.colliders.len() && v.colliders[k] == h && forall|j: int|
            0 <= j < k ==> v.colliders[j] != h;
    assert(w == i);
    if exists|k: int| 0 <= k < v.colliders.len() && v.colliders[k] == other {
        let k = choose|k: int| 0 <= k < v.colliders.len() && v.colliders[k] == other;
        assert(v.colliders.contains(other));
    }
}

/// Toggling the debug display twice gives back the state before.
pub proof fn lemma_toggle_round_trip(v: CharacterView)
    ensures
        displayed(displayed(v, !v.displaying), !displayed(v, !v.displaying).displaying) == v,
{
    assert(displayed(displayed(v, !v.displaying), !displayed(v, !v.displaying).displaying) =~= v);
}

} // verus!
