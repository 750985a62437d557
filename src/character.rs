use vstd::prelude::*;

use crate::ids::{ColliderHandle, GameNodeId};

verus! {

/// One bone's collision proxy: the debug node that shows it and the collider
/// that stands for it in the physics world.
#[derive(Clone, Copy, Debug, PartialEq, Eq, Structural)]
pub struct CollisionBox {
    pub node: GameNodeId,
    pub collider: ColliderHandle,
}

/// Why an update refused the proxies it was handed.
#[derive(Clone, Copy, Debug, PartialEq, Eq, Structural)]
pub enum UpdateError {
    /// The first update was handed a number of new proxies other than the
    /// skin's bone count.
    BoxCountMismatch { bone_count: usize, boxes: usize },
    /// New proxies were handed in after the proxies were already created.
    AlreadyFilled,
    /// The skin's bone count no longer matches the proxies created for it.
    BoneCountChanged { bone_count: usize, boxes: usize },
    /// Two of the new proxies share a node or a collider handle.
    DuplicateProxy,
}

/// What a change of debug display asks of the scene: every listed node gets a
/// translucent debug visual when `visible`, and loses its visual otherwise.
#[derive(Debug)]
pub struct DisplayChange {
    pub nodes: Vec<GameNodeId>,
    pub visible: bool,
}

/// The mathematical state of a character's collision proxies.
#[verifier::ext_equal]
pub ghost struct CharacterView {
    pub root_node_id: GameNodeId,
    pub skin_index: usize,
    pub nodes: Seq<GameNodeId>,
    pub colliders: Seq<ColliderHandle>,
    pub debug_mesh_index: usize,
    pub displaying: bool,
}

/// The proxies of a view, bone by bone.
pub open spec fn boxes_of(v: CharacterView) -> Seq<CollisionBox> {
    Seq::new(
        v.colliders.len(),
        |i: int| CollisionBox { node: v.nodes[i], collider: v.colliders[i] },
    )
}

/// Node and collider lists are index-aligned.
pub open spec fn aligned(v: CharacterView) -> bool {
    v.nodes.len() == v.colliders.len()
}

/// No two proxies share a node, and no two share a collider handle, so that
/// a handle maps back to at most one bone.
pub open spec fn distinct_boxes(boxes: Seq<CollisionBox>) -> bool {
    forall|i: int, j: int|
        0 <= i < boxes.len() && 0 <= j < boxes.len() && i != j ==> boxes[i].node != boxes[j].node
            && boxes[i].collider != boxes[j].collider
}

/// The invariant of a character's state: index-aligned lists of pairwise
/// distinct nodes and pairwise distinct collider handles.
pub open spec fn well_formed(v: CharacterView) -> bool {
    &&& aligned(v)
    &&& forall|i: int, j: int|
        0 <= i < v.nodes.len() && 0 <= j < v.nodes.len() && i != j ==> v.nodes[i] != v.nodes[j]
    &&& forall|i: int, j: int|
        0 <= i < v.colliders.len() && 0 <= j < v.colliders.len() && i != j ==> v.colliders[i]
            != v.colliders[j]
}

/// A freshly spawned character's state: no proxies, debug display off.
pub open spec fn spawned(root_node_id: GameNodeId, skin_index: usize, debug_mesh_index: usize) -> CharacterView {
    CharacterView {
        root_node_id,
        skin_index,
        nodes: Seq::empty(),
        colliders: Seq::empty(),
        debug_mesh_index,
        displaying: false,
    }
}

/// A view whose proxies are `boxes`, the rest kept from `v`.
pub open spec fn with_boxes(v: CharacterView, boxes: Seq<CollisionBox>) -> CharacterView {
    CharacterView {
        nodes: Seq::new(boxes.len(), |i: int| boxes[i].node),
        colliders: Seq::new(boxes.len(), |i: int| boxes[i].collider),
        ..v
    }
}

/// One frame's synchronisation. `bone_count` is the skin's bone count, `None`
/// when the skin or its node cannot be found; `fresh` are the proxies newly
/// created for this call, which only the first update takes, one per bone in
/// bone order, with no node or handle repeated. The result is
/// the new state and the proxies whose pose is to be set, bone by bone.
pub open spec fn update_step(
    v: CharacterView,
    bone_count: Option<usize>,
    fresh: Seq<CollisionBox>,
) -> (CharacterView, Result<Seq<CollisionBox>, UpdateError>) {
    match bone_count {
        None => (v, Ok(Seq::empty())),
        Some(n) => if v.colliders.len() == 0 {
            if fresh.len() != n {
                (v, Err(UpdateError::BoxCountMismatch { bone_count: n, boxes: fresh.len() as usize }))
            } else if !distinct_boxes(fresh) {
                (v, Err(UpdateError::DuplicateProxy))
            } else {
                (with_boxes(v, fresh), Ok(fresh))
            }
        } else if fresh.len() != 0 {
            (v, Err(UpdateError::AlreadyFilled))
        } else if v.colliders.len() != n {
            (v, Err(UpdateError::BoneCountChanged { bone_count: n, boxes: v.colliders.len() as usize }))
        } else {
            (v, Ok(boxes_of(v)))
        },
    }
}

/// The first bone whose collider is `handle`, if any.
pub open spec fn hit_bone(v: CharacterView, handle: ColliderHandle) -> Option<int> {
    if exists|i: int| 0 <= i < v.colliders.len() && v.colliders[i] == handle {
        Some(
            choose|i: int|
                0 <= i < v.colliders.len() && v.colliders[i] == handle && forall|j: int|
                    0 <= j < i ==> v.colliders[j] != handle,
        )
    } else {
        None
    }
}

/// The state after switching the debug display on (`visible`) or off.
pub open spec fn displayed(v: CharacterView, visible: bool) -> CharacterView {
    CharacterView { displaying: visible, ..v }
}

/// Collision proxies of one skinned character, one per bone of its skin.
pub struct Character {
    root_node_id: GameNodeId,
    skin_index: usize,
    collision_box_nodes: Vec<GameNodeId>,
    collision_box_colliders: Vec<ColliderHandle>,
    collision_debug_mesh_index: usize,
    is_displaying_collision_boxes: bool,
}

impl View for Character {
    type V = CharacterView;

    closed spec fn view(&self) -> CharacterView {
        CharacterView {
            root_node_id: self.root_node_id,
            skin_index: self.skin_index,
            nodes: self.collision_box_nodes@,
            colliders: self.collision_box_colliders@,
            debug_mesh_index: self.collision_debug_mesh_index,
            displaying: self.is_displaying_collision_boxes,
        }
    }
}

/// Whether no two of `boxes` share a node or a collider handle.
pub fn has_distinct_proxies(boxes: &Vec<CollisionBox>) -> (r: bool)
    ensures
        r == distinct_boxes(boxes@),
{
    let mut i: usize = 0;
    while i < boxes.len()
        invariant
            i <= boxes@.len(),
            forall|a: int, b: int|
                0 <= a < i && 0 <= b < boxes@.len() && a != b ==> boxes@[a].node != boxes@[b].node
                    && boxes@[a].collider != boxes@[b].collider,
        decreases boxes@.len() - i,
    {
        let mut j: usize = 0;
        while j < boxes.len()
            invariant
                i < boxes@.len(),
                j <= boxes@.len(),
                forall|a: int, b: int|
                    0 <= a < i && 0 <= b < boxes@.len() && a != b ==> boxes@[a].node
                        != boxes@[b].node && boxes@[a].collider != boxes@[b].collider,
                forall|b: int|
                    0 <= b < j && b != i ==> boxes@[i as int].node != boxes@[b].node
                        && boxes@[i as int].collider != boxes@[b].collider,
            decreases boxes@.len() - j,
        {
            if j != i && (boxes[i].node == boxes[j].node || boxes[i].collider == boxes[j].collider) {
                return false;
            }
            j = j + 1;
        }
        i = i + 1;
    }
    true
}

impl Character {
    /// Spawns a character with the debug display off and runs its first
    /// update: `bone_count` and `fresh` are as for `update`. Returns the
    /// character and that update's result.
    pub fn new(
        root_node_id: GameNodeId,
        skin_index: usize,
        collision_debug_mesh_index: usize,
        bone_count: Option<usize>,
        fresh: Vec<CollisionBox>,
    ) -> (r: (Character, Result<Vec<CollisionBox>, UpdateError>))
        ensures
            well_formed(r.0@),
            update_step(
                spawned(root_node_id, skin_index, collision_debug_mesh_index),
                bone_count,
                fresh@,
            ) == (r.0@, match r.1 {
                Ok(b) => Ok::<Seq<CollisionBox>, UpdateError>(b@),
                Err(e) => Err::<Seq<CollisionBox>, UpdateError>(e),
            }),
    {
        let mut c = Character {
            root_node_id,
            skin_index,
            collision_box_nodes: Vec::new(),
            collision_box_colliders: Vec::new(),
            collision_debug_mesh_index,
            is_displaying_collision_boxes: false,
        };
        assert(c@ =~= spawned(root_node_id, skin_index, collision_debug_mesh_index));
        let r = c.update(bone_count, fresh);
        (c, r)
    }

    /// Whether the next update with a resolvable skin creates the proxies.
    pub fn should_fill_collision_boxes(&self) -> (r: bool)
        ensures
            r == (self@.colliders.len() == 0),
    {
        self.collision_box_colliders.len() == 0
    }

    /// The current proxies, bone by bone.
    pub fn collision_boxes(&self) -> (r: Vec<CollisionBox>)
        requires
            well_formed(self@),
        ensures
            r@ == boxes_of(self@),
    {
        let mut r: Vec<CollisionBox> = Vec::new();
        let mut i: usize = 0;
        while i < self.collision_box_colliders.len()
            invariant
                aligned(self@),
                i <= self@.colliders.len(),
                r@ =~= boxes_of(self@).take(i as int),
            decreases self@.colliders.len() - i,
        {
            r.push(
                CollisionBox {
                    node: self.collision_box_nodes[i],
                    collider: self.collision_box_colliders[i],
                },
            );
            i = i + 1;
        }
        r
    }

    /// Takes `fresh` as the proxies of a character that has none.
    fn fill_collision_boxes(&mut self, fresh: &Vec<CollisionBox>)
        requires
            old(self)@.nodes.len() == 0,
            old(self)@.colliders.len() == 0,
            distinct_boxes(fresh@),
        ensures
            final(self)@ == with_boxes(old(self)@, fresh@),
            well_formed(final(self)@),
    {
        let mut i: usize = 0;
        while i < fresh.len()
            invariant
                i <= fresh@.len(),
                self.root_node_id == old(self).root_node_id,
                self.skin_index == old(self).skin_index,
                self.collision_debug_mesh_index == old(self).collision_debug_mesh_index,
                self.is_displaying_collision_boxes == old(self).is_displaying_collision_boxes,
                self.collision_box_nodes@ =~= Seq::new(i as nat, |k: int| fresh@[k].node),
                self.collision_box_colliders@ =~= Seq::new(i as nat, |k: int| fresh@[k].collider),
            decreases fresh@.len() - i,
        {
            self.collision_box_nodes.push(fresh[i].node);
            self.collision_box_colliders.push(fresh[i].collider);
            i = i + 1;
        }
        assert(self@ =~= with_boxes(old(self)@, fresh@));
    }

    /// Synchronises the proxies with the skin for one frame.
    ///
    /// `bone_count` is the bound skin's bone count, or `None` when the skin or
    /// the node that holds it cannot be found: the frame is then skipped. The
    /// first update with a resolvable skin takes `fresh`, one new proxy per
    /// bone in bone order, no node or handle repeated; every later one takes
    /// none and keeps the proxies. On success the result lists the skin's
    /// proxies, bone by bone; `proxies_to_pose` picks those whose bone
    /// resolved this frame.
    pub fn update(&mut self, bone_count: Option<usize>, fresh: Vec<CollisionBox>) -> (r: Result<
        Vec<CollisionBox>,
        UpdateError,
    >)
        requires
            well_formed(old(self)@),
        ensures
            well_formed(final(self)@),
            match r {
                Ok(b) => update_step(old(self)@, bone_count, fresh@) == (final(self)@, Ok::<
                    Seq<CollisionBox>,
                    UpdateError,
                >(b@)),
                Err(e) => update_step(old(self)@, bone_count, fresh@) == (final(self)@, Err::<
                    Seq<CollisionBox>,
                    UpdateError,
                >(e)),
            },
    {
        match bone_count {
            None => {
                let r: Vec<CollisionBox> = Vec::new();
                assert(r@ =~= Seq::<CollisionBox>::empty());
                Ok(r)
            },
            Some(n) => {
                if self.collision_box_colliders.len() == 0 {
                    if fresh.len() != n {
                        Err(UpdateError::BoxCountMismatch { bone_count: n, boxes: fresh.len() })
                    } else if !has_distinct_proxies(&fresh) {
                        Err(UpdateError::DuplicateProxy)
                    } else {
                        self.fill_collision_boxes(&fresh);
                        Ok(fresh)
                    }
                } else if fresh.len() != 0 {
                    Err(UpdateError::AlreadyFilled)
                } else if self.collision_box_colliders.len() != n {
                    Err(
                        UpdateError::BoneCountChanged {
                            bone_count: n,
                            boxes: self.collision_box_colliders.len(),
                        },
                    )
                } else {
                    Ok(self.collision_boxes())
                }
            },
        }
    }

    /// The proxies whose pose is to be set this frame: `proxies[i]` where
    /// bone `i` resolved (`resolved[i]`), nothing where it did not.
    pub fn proxies_to_pose(proxies: &Vec<CollisionBox>, resolved: &Vec<bool>) -> (r: Vec<
        Option<CollisionBox>,
    >)
        ensures
            r@.len() == proxies@.len(),
            forall|i: int|
                0 <= i < proxies@.len() ==> r@[i] == if i < resolved@.len() && resolved@[i] {
                    Some(proxies@[i])
                } else {
                    None
                },
    {
        let mut r: Vec<Option<CollisionBox>> = Vec::new();
        let mut i: usize = 0;
        while i < proxies.len()
            invariant
                i <= proxies@.len(),
                r@.len() == i,
                forall|k: int|
                    0 <= k < i ==> r@[k] == if k < resolved@.len() && resolved@[k] {
                        Some(proxies@[k])
                    } else {
                        None
                    },
            decreases proxies@.len() - i,
        {
            if i < resolved.len() && resolved[i] {
                r.push(Some(proxies[i]));
            } else {
                r.push(None);
            }
            i = i + 1;
        }
        r
    }

    /// The index of the bone whose collider is `collider_handle`, if any.
    pub fn find_hit_bone(&self, collider_handle: ColliderHandle) -> (r: Option<usize>)
        ensures
            match r {
                Some(i) => i < self@.colliders.len() && self@.colliders[i as int] == collider_handle
                    && hit_bone(self@, collider_handle) == Some(i as int),
                None => hit_bone(self@, collider_handle) is None,
            },
    {
        let mut i: usize = 0;
        while i < self.collision_box_colliders.len()
            invariant
                i <= self@.colliders.len(),
                forall|j: int| 0 <= j < i ==> self@.colliders[j] != collider_handle,
            decreases self@.colliders.len() - i,
        {
            if self.collision_box_colliders[i].same_as(&collider_handle) {
                proof {
                    let w = choose|k: int|
                        0 <= k < self@.colliders.len() && self@.colliders[k] == collider_handle
                            && forall|j: int| 0 <= j < k ==> self@.colliders[j] != collider_handle;
                    assert(0 <= i < self@.colliders.len() && self@.colliders[i as int]
                        == collider_handle && forall|j: int|
                        0 <= j < i ==> self@.colliders[j] != collider_handle);
                    if w < i {
                    } else if w > i {
                    }
                }
                return Some(i);
            }
            i = i + 1;
        }
        None
    }

    /// The debug node of the bone whose collider is `collider_handle`, if
    /// any: the node to tint as hit.
    pub fn handle_hit(&self, collider_handle: ColliderHandle) -> (r: Option<GameNodeId>)
        requires
            well_formed(self@),
        ensures
            match hit_bone(self@, collider_handle) {
                Some(i) => r == Some(self@.nodes[i]),
                None => r is None,
            },
    {
        match self.find_hit_bone(collider_handle) {
            Some(i) => Some(self.collision_box_nodes[i]),
            None => None,
        }
    }

    /// Switches the debug display on: every proxy node is to show a
    /// translucent box.
    pub fn enable_collision_box_display(&mut self) -> (r: DisplayChange)
        ensures
            final(self)@ == displayed(old(self)@, true),
            r.nodes@ == old(self)@.nodes,
            r.visible,
    {
        self.is_displaying_collision_boxes = true;
        DisplayChange { nodes: self.collision_box_nodes.clone(), visible: true }
    }

    /// Switches the debug display off: every proxy node is to lose its
    /// visual.
    pub fn disable_collision_box_display(&mut self) -> (r: DisplayChange)
        ensures
            final(self)@ == displayed(old(self)@, false),
            r.nodes@ == old(self)@.nodes,
            !r.visible,
    {
        self.is_displaying_collision_boxes = false;
        DisplayChange { nodes: self.collision_box_nodes.clone(), visible: false }
    }

    /// Flips the debug display between shown and hidden.
    pub fn toggle_collision_box_display(&mut self) -> (r: DisplayChange)
        ensures
            final(self)@ == displayed(old(self)@, !old(self)@.displaying),
            r.nodes@ == old(self)@.nodes,
            r.visible == !old(self)@.displaying,
    {
        if self.is_displaying_collision_boxes {
            self.disable_collision_box_display()
        } else {
            self.enable_collision_box_display()
        }
    }

    pub fn root_node_id(&self) -> (r: GameNodeId)
        ensures
            r == self@.root_node_id,
    {
        self.root_node_id
    }

    pub fn skin_index(&self) -> (r: usize)
        ensures
            r == self@.skin_index,
    {
        self.skin_index
    }

    pub fn collision_debug_mesh_index(&self) -> (r: usize)
        ensures
            r == self@.debug_mesh_index,
    {
        self.collision_debug_mesh_index
    }

    pub fn is_displaying_collision_boxes(&self) -> (r: bool)
        ensures
            r == self@.displaying,
    {
        self.is_displaying_collision_boxes
    }

    pub fn collision_box_nodes(&self) -> (r: &Vec<GameNodeId>)
        ensures
            r@ == self@.nodes,
    {
        &self.collision_box_nodes
    }

    pub fn collision_box_colliders(&self) -> (r: &Vec<ColliderHandle>)
        ensures
            r@ == self@.colliders,
    {
        &self.collision_box_colliders
    }
}

} // verus!
