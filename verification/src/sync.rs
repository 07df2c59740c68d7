//! Collider Synchronization: copies the authoritative physics transform of a
//! primary body onto its dependent visual entities each tick, honouring
//! per-entity rotation-inherit flags, fixed local offsets, and vector-asset
//! anchor correction.

use vstd::prelude::*;

use crate::math::{rotate_point, rotated_x_spec, rotated_y_spec, sat_add, sat_add_spec, Rot};
use crate::world::{
    names_in_prefix, ColliderSyncEntity, SyncColliderFlags, Transform2, Visual, VisualStore,
    SIZE_LIMIT,
};

verus! {

/// The transform after vector-asset anchor correction: the entity is
/// displaced by half its intrinsic bounding box, flipped on the vertical
/// axis, scaled by its current scale and rotated by its current rotation.
pub open spec fn svg_correction_spec(t: Transform2, w: i64, h: i64) -> Transform2 {
    let ax = (w as int / 2) * t.scale_x;
    let ay = -((h as int / 2) * t.scale_y);
    Transform2 {
        x: sat_add_spec(t.x as int, -rotated_x_spec(t.rot, ax, ay)) as i64,
        y: sat_add_spec(t.y as int, -rotated_y_spec(t.rot, ax, ay)) as i64,
        ..t
    }
}

/// A dependent visual after one synchronization step: translation copied
/// from the primary plus the fixed world-space offset, rotation copied
/// exactly when the rotation-inherit flag is set, and anchor correction
/// applied on top for vector-graphic assets.
pub open spec fn synced_visual_spec(
    primary: Transform2,
    flags: SyncColliderFlags,
    vis: Visual,
) -> Visual {
    let rot = if flags.rotation {
        primary.rot
    } else {
        vis.transform.rot
    };
    let carried = Transform2 {
        x: sat_add_spec(primary.x as int, vis.offset_x as int) as i64,
        y: sat_add_spec(primary.y as int, vis.offset_y as int) as i64,
        z: sat_add_spec(vis.transform.z as int, vis.offset_z as int) as i64,
        rot,
        ..vis.transform
    };
    let corrected = if vis.svg_size is Some {
        svg_correction_spec(carried, (vis.svg_size->0).0, (vis.svg_size->0).1)
    } else {
        carried
    };
    Visual { transform: corrected, ..vis }
}

/// Applies the vector-asset anchor correction to a transform.
pub fn update_transform_svg(t: Transform2, w: i64, h: i64) -> (r: Transform2)
    requires
        t.well_formed(),
        0 <= w <= SIZE_LIMIT,
        0 <= h <= SIZE_LIMIT,
    ensures
        r == svg_correction_spec(t, w, h),
        r.well_formed(),
{
    let half_w: i64 = ((w as u64) / 2) as i64;
    let half_h: i64 = ((h as u64) / 2) as i64;
    proof {
        assert(half_w == w as int / 2 && half_h == h as int / 2);
        assert(-0x2000_0000_0000 <= half_w * t.scale_x <= 0x2000_0000_0000
            && -0x2000_0000_0000 <= half_h * t.scale_y <= 0x2000_0000_0000) by (nonlinear_arith)
            requires
                0 <= half_w <= SIZE_LIMIT,
                0 <= half_h <= SIZE_LIMIT,
                -SIZE_LIMIT <= t.scale_x <= SIZE_LIMIT,
                -SIZE_LIMIT <= t.scale_y <= SIZE_LIMIT,
        ;
    }
    let ax: i64 = half_w * t.scale_x;
    let ay: i64 = -(half_h * t.scale_y);
    let rotated = rotate_point(t.rot, ax, ay);
    let x = sat_add(t.x, -rotated.0);
    let y = sat_add(t.y, -rotated.1);
    Transform2 { x, y, ..t }
}

/// Synchronizes one dependent visual to the primary transform.
fn sync_one(primary: &Transform2, flags: SyncColliderFlags, vis: Visual) -> (r: Visual)
    requires
        primary.well_formed(),
        vis.well_formed(),
    ensures
        r == synced_visual_spec(*primary, flags, vis),
        r.well_formed(),
{
    let rot: Rot = if flags.rotation {
        primary.rot
    } else {
        vis.transform.rot
    };
    let carried = Transform2 {
        x: sat_add(primary.x, vis.offset_x),
        y: sat_add(primary.y, vis.offset_y),
        z: sat_add(vis.transform.z, vis.offset_z),
        rot,
        ..vis.transform
    };
    let corrected = match vis.svg_size {
        Option::Some(dims) => update_transform_svg(carried, dims.0, dims.1),
        Option::None => carried,
    };
    Visual { transform: corrected, ..vis }
}

/// One tick of collider synchronization for one sync group: every dependent
/// the group names takes the primary's translation plus its own offset,
/// inherits the primary's rotation exactly when its flag is set, and, if it
/// is a vector asset, is displaced by its anchor correction.  Visuals the
/// group does not name, and dependents whose handle is stale, are untouched.
pub fn sync_objects_colliders(
    primary: &Transform2,
    sync: &ColliderSyncEntity,
    visuals: &mut VisualStore,
)
    requires
        primary.well_formed(),
        sync.well_formed(),
        old(visuals).well_formed(),
    ensures
        final(visuals).well_formed(),
        final(visuals).slots@.len() == old(visuals).slots@.len(),
        forall|k: int|
            0 <= k < sync.synced_objects@.len() ==> {
                let h = (#[trigger] sync.synced_objects@[k]).0 as int;
                let flags = sync.synced_objects@[k].1;
                h < old(visuals).slots@.len() && old(visuals).slots@[h] is Some
                    ==> final(visuals).slots@[h] == Option::Some(
                    synced_visual_spec(*primary, flags, old(visuals).slots@[h]->0),
                )
            },
        forall|v: int|
            0 <= v < old(visuals).slots@.len() && !sync.names(v) ==> final(visuals).slots@[v]
                == old(visuals).slots@[v],
{
    let n = sync.synced_objects.len();
    let mut k: usize = 0;
    while k < n
        invariant
            primary.well_formed(),
            sync.well_formed(),
            old(visuals).well_formed(),
            visuals.well_formed(),
            n == sync.synced_objects@.len(),
            0 <= k <= n,
            visuals.slots@.len() == old(visuals).slots@.len(),
            forall|k2: int|
                0 <= k2 < k ==> {
                    let h = (#[trigger] sync.synced_objects@[k2]).0 as int;
                    let flags = sync.synced_objects@[k2].1;
                    h < old(visuals).slots@.len() && old(visuals).slots@[h] is Some
                        ==> visuals.slots@[h] == Option::Some(
                        synced_visual_spec(*primary, flags, old(visuals).slots@[h]->0),
                    )
                },
            forall|v: int|
                0 <= v < old(visuals).slots@.len() && !names_in_prefix(*sync, k as int, v)
                    ==> visuals.slots@[v] == old(visuals).slots@[v],
        decreases n - k,
    {
        let (h, flags) = sync.synced_objects[k];
        if h < visuals.slots.len() {
            proof {
                assert(!names_in_prefix(*sync, k as int, h as int)) by {
                    if names_in_prefix(*sync, k as int, h as int) {
                        let w = choose|w: int|
                            0 <= w < k as int && (#[trigger] sync.synced_objects@[w]).0
                                == h as int;
                        assert(sync.synced_objects@[w].0 == sync.synced_objects@[k as int].0);
                    }
                }
            }
            match visuals.slots[h] {
                Option::Some(vis) => {
                    let updated = sync_one(primary, flags, vis);
                    visuals.slots.set(h, Option::Some(updated));
                },
                Option::None => {},
            }
        }
        proof {
            assert forall|v: int|
                0 <= v < old(visuals).slots@.len() && !names_in_prefix(*sync, k as int + 1, v)
                    implies visuals.slots@[v] == old(visuals).slots@[v] by {
                assert(!names_in_prefix(*sync, k as int, v));
                assert(sync.synced_objects@[k as int].0 != v);
            }
        }
        k += 1;
    }
    proof {
        assert forall|v: int|
            0 <= v < old(visuals).slots@.len() && !sync.names(v) implies visuals.slots@[v] == old(
            visuals,
        ).slots@[v] by {
            assert(!names_in_prefix(*sync, n as int, v));
        }
    }
}

/// The local offset a direction-looking dependent takes: at the aim radius,
/// rotated to the fighter's facing; a neutral facing parks it at the origin.
pub open spec fn dir_look_offset_spec(
    facing: crate::direction::Facing,
    radius: i64,
    angles: crate::catalog::DirRotateAngles,
) -> (int, int) {
    if facing == crate::direction::Facing::Neutral {
        (0, 0)
    } else {
        let aim = angles.rotation_for_spec(facing);
        (rotated_x_spec(aim, radius as int, 0), rotated_y_spec(aim, radius as int, 0))
    }
}

/// Re-aims a direction-looking dependent: its fixed local offset is moved to
/// the aim radius rotated by the facing-specific angle, or back to the
/// origin while the facing is neutral; the offset's z component is zeroed
/// either way.  Other visuals, and everything else about the target, are
/// untouched.
pub fn update_dir_look(
    facing: crate::direction::Facing,
    move_dir_radius: i64,
    dir_angles: &crate::catalog::DirRotateAngles,
    target: usize,
    visuals: &mut VisualStore,
)
    requires
        dir_angles.well_formed(),
        -crate::math::GEOM_LIMIT <= move_dir_radius <= crate::math::GEOM_LIMIT,
        old(visuals).well_formed(),
    ensures
        final(visuals).well_formed(),
        final(visuals).slots@.len() == old(visuals).slots@.len(),
        forall|v: int|
            0 <= v < old(visuals).slots@.len() && v != target
                ==> final(visuals).slots@[v] == old(visuals).slots@[v],
        target < old(visuals).slots@.len() && old(visuals).slots@[target as int] is Some
            ==> final(visuals).slots@[target as int] == Option::Some(
            Visual {
                offset_x: dir_look_offset_spec(facing, move_dir_radius, *dir_angles).0 as i64,
                offset_y: dir_look_offset_spec(facing, move_dir_radius, *dir_angles).1 as i64,
                offset_z: 0i64,
                ..old(visuals).slots@[target as int]->0
            },
        ),
        target < old(visuals).slots@.len() && old(visuals).slots@[target as int] is None
            ==> final(visuals).slots@[target as int] is None,
{
    if target >= visuals.slots.len() {
        return ;
    }
    let (ox, oy): (i64, i64) = if facing == crate::direction::Facing::Neutral {
        (0, 0)
    } else {
        let aim = dir_angles.rotation_angle(facing);
        rotate_point(aim, move_dir_radius, 0)
    };
    match visuals.slots[target] {
        Option::Some(vis) => {
            visuals.slots.set(
                target,
                Option::Some(Visual { offset_x: ox, offset_y: oy, offset_z: 0, ..vis }),
            );
        },
        Option::None => {},
    }
}

/// A dependent whose rotation-inherit flag is off never has its rotation
/// changed by the synchronization pass, whatever the primary does.
pub proof fn lemma_sync_keeps_rotation(primary: Transform2, flags: SyncColliderFlags, vis: Visual)
    requires
        !flags.rotation,
    ensures
        synced_visual_spec(primary, flags, vis).transform.rot == vis.transform.rot,
{
}

} // verus!
