//! Camera and hull boundary: whether a proposed camera move stays inside
//! the hull, hits a wall or crosses a portal, and what becomes of the pose.
use crate::engine_lib::scene_types::effective_config;
use crate::engine_lib::scene_types::spec_effective_config;
use crate::engine_lib::scene_types::BlueprintSide;
use crate::engine_lib::scene_types::BoundaryCheckResult;
use crate::engine_lib::scene_types::HandlerConfig;
use crate::engine_lib::scene_types::HullBlueprint;
use crate::engine_lib::scene_types::HullInstance;
use crate::engine_lib::scene_types::InstanceId;
use crate::engine_lib::scene_types::PortalId;
use crate::engine_lib::scene_types::Scene;
use crate::engine_lib::scene_types::SideIndex;
use crate::engine_lib::side_handler::get_portal_alignment_transform;
use crate::engine_lib::side_handler::spec_portal_alignment_offset;
use crate::engine_lib::transform::lemma_translation_inverse;
use crate::engine_lib::transform::Transform;
use crate::engine_lib::vector::dot_exact;
use crate::engine_lib::vector::plane_distance;
use crate::engine_lib::vector::plane_distance_exact;
use crate::engine_lib::vector::Vec3;
use crate::fixed::div_ceil;
use crate::fixed::div_floor;
use crate::fixed::lemma_floor_div_bounds;
use crate::fixed::saturate;
use crate::fixed::spec_div_ceil;
use crate::fixed::spec_saturate;
use vstd::prelude::*;

verus! {

/// How far behind a side's plane the camera may be before the side counts
/// as violated, in squared coordinate units (about 1e-4 unit lengths for a
/// unit normal).
pub const COLLISION_EPSILON: i128 = 429496;

/// The signed distance, in squared coordinate units, at which a collision
/// leaves the camera in front of the wall (about 1e-3 unit lengths for a
/// unit normal).
pub const PUSH_OUT_DISTANCE: i128 = 4294967;

/// A normal whose squared length is at most this (about 1e-6) is taken to
/// have no direction.
pub const NORMAL_LENGTH_SQUARED_MIN: i128 = 4294;

/// How far past a crossed portal the camera lands, as a fixed-point
/// length (about 1e-3).
pub const TRAVERSAL_PUSH_DISTANCE: i32 = 66;

/// The point that fixes the plane of `side`: its first vertex, where the
/// blueprint has it.
pub open spec fn side_plane_origin(blueprint: HullBlueprint, side: BlueprintSide) -> Option<Vec3> {
    if side.vertex_indices@.len() > 0 && side.vertex_indices@[0] < blueprint.local_vertices@.len() {
        Some(blueprint.local_vertices@[side.vertex_indices@[0] as int])
    } else {
        None
    }
}

/// Whether `position` is behind the plane of `side` by more than
/// [`COLLISION_EPSILON`]. A side without a plane is never violated.
pub open spec fn side_is_violated(
    blueprint: HullBlueprint,
    side: BlueprintSide,
    position: Vec3,
) -> bool {
    match side_plane_origin(blueprint, side) {
        Some(origin) => plane_distance_exact(side.local_normal, origin, position) < -(
        COLLISION_EPSILON as int),
        None => false,
    }
}

/// The first violated side at or after `start`, in the order of the
/// blueprint's sides.
pub open spec fn first_violated_from(
    blueprint: HullBlueprint,
    position: Vec3,
    start: nat,
) -> Option<nat>
    decreases blueprint.sides@.len() - start,
{
    if start >= blueprint.sides@.len() {
        None
    } else if side_is_violated(blueprint, blueprint.sides@[start as int], position) {
        Some(start)
    } else {
        first_violated_from(blueprint, position, start + 1)
    }
}

/// What crossing the plane of side `side_index` means: a portal side with a
/// portal id lets the camera through to its target, any other side stops
/// it.
pub open spec fn violated_side_outcome(
    instance: HullInstance,
    side_index: SideIndex,
    side: BlueprintSide,
    position: Vec3,
) -> BoundaryCheckResult {
    match spec_effective_config(instance, side_index, side) {
        HandlerConfig::StandardPortal { target_instance_id, target_portal_id } => {
            if side.local_portal_id is Some {
                BoundaryCheckResult::Traverse {
                    crossed_side_index: side_index,
                    target_instance_id,
                    target_portal_id,
                }
            } else {
                BoundaryCheckResult::Collision {
                    collided_side_index: side_index,
                    collision_point: position,
                }
            }
        },
        _ => BoundaryCheckResult::Collision {
            collided_side_index: side_index,
            collision_point: position,
        },
    }
}

/// The outcome of moving the camera to `position` in the hull `instance` of
/// blueprint `blueprint`: decided by the first violated side alone.
pub open spec fn spec_check_boundary(
    blueprint: HullBlueprint,
    instance: HullInstance,
    position: Vec3,
) -> BoundaryCheckResult {
    match first_violated_from(blueprint, position, 0) {
        Some(index) => violated_side_outcome(
            instance,
            index as usize,
            blueprint.sides@[index as int],
            position,
        ),
        None => BoundaryCheckResult::Inside,
    }
}

/// The first violated side is violated, and no side before it is; where
/// there is none, no side is violated.
pub proof fn lemma_first_violated(blueprint: HullBlueprint, position: Vec3, start: nat)
    ensures
        match first_violated_from(blueprint, position, start) {
            Some(index) => start <= index < blueprint.sides@.len() && side_is_violated(
                blueprint,
                blueprint.sides@[index as int],
                position,
            ) && forall|j: int|
                start <= j < index ==> !side_is_violated(
                    blueprint,
                    #[trigger] blueprint.sides@[j],
                    position,
                ),
            None => forall|j: int|
                start <= j < blueprint.sides@.len() ==> !side_is_violated(
                    blueprint,
                    #[trigger] blueprint.sides@[j],
                    position,
                ),
        },
    decreases blueprint.sides@.len() - start,
{
    if start < blueprint.sides@.len() && !side_is_violated(
        blueprint,
        blueprint.sides@[start as int],
        position,
    ) {
        lemma_first_violated(blueprint, position, start + 1);
    }
}

/// Tests the proposed camera position against the sides of the hull that
/// hosts the camera, in the order of the blueprint's sides.
pub fn check_camera_hull_boundary(
    new_camera_pos_in_blueprint_space: &Vec3,
    current_hull_blueprint: &HullBlueprint,
    current_hull_instance: &HullInstance,
) -> (result: BoundaryCheckResult)
    ensures
        result == spec_check_boundary(
            *current_hull_blueprint,
            *current_hull_instance,
            *new_camera_pos_in_blueprint_space,
        ),
{
    let ghost blueprint = *current_hull_blueprint;
    let ghost position = *new_camera_pos_in_blueprint_space;
    let mut side_idx: usize = 0;
    while side_idx < current_hull_blueprint.sides.len()
        invariant
            blueprint == *current_hull_blueprint,
            position == *new_camera_pos_in_blueprint_space,
            side_idx <= blueprint.sides@.len(),
            first_violated_from(blueprint, position, 0) == first_violated_from(
                blueprint,
                position,
                side_idx as nat,
            ),
        decreases blueprint.sides@.len() - side_idx,
    {
        let blueprint_side = &current_hull_blueprint.sides[side_idx];
        if blueprint_side.vertex_indices.len() > 0 && blueprint_side.vertex_indices[0]
            < current_hull_blueprint.local_vertices.len() {
            let point_on_plane: Vec3 =
                current_hull_blueprint.local_vertices[blueprint_side.vertex_indices[0]];
            let signed_distance: i128 = plane_distance(
                &blueprint_side.local_normal,
                &point_on_plane,
                new_camera_pos_in_blueprint_space,
            );
            if signed_distance < -COLLISION_EPSILON {
                let handler_config = effective_config(
                    current_hull_instance,
                    side_idx,
                    blueprint_side,
                );
                match handler_config {
                    HandlerConfig::StandardPortal { target_instance_id, target_portal_id } => {
                        if blueprint_side.local_portal_id.is_some() {
                            return BoundaryCheckResult::Traverse {
                                crossed_side_index: side_idx,
                                target_instance_id: *target_instance_id,
                                target_portal_id: *target_portal_id,
                            };
                        } else {
                            return BoundaryCheckResult::Collision {
                                collided_side_index: side_idx,
                                collision_point: *new_camera_pos_in_blueprint_space,
                            };
                        }
                    },
                    _ => {
                        return BoundaryCheckResult::Collision {
                            collided_side_index: side_idx,
                            collision_point: *new_camera_pos_in_blueprint_space,
                        };
                    },
                }
            }
        }
        side_idx = side_idx + 1;
    }
    BoundaryCheckResult::Inside
}

/// One coordinate of the position pushed out of a wall: `coordinate` moved
/// along the normal component `normal` by `gap / length_squared` of it. The
/// quotient is rounded so that the move along the normal is never short.
pub open spec fn pushed_coordinate(
    coordinate: int,
    normal: int,
    gap: int,
    length_squared: int,
) -> int {
    if normal > 0 {
        spec_saturate(coordinate + spec_div_ceil(gap * normal, length_squared))
    } else {
        spec_saturate(coordinate + (gap * normal) / length_squared)
    }
}

/// Where a camera that ran into a wall is put: `position` moved along the
/// wall's normal until its signed distance from the wall's plane is
/// [`PUSH_OUT_DISTANCE`]; `fallback` where the normal has no direction.
pub open spec fn spec_corrected_position(
    normal: Vec3,
    origin: Vec3,
    position: Vec3,
    fallback: Vec3,
) -> Vec3 {
    let length_squared = dot_exact(normal, normal);
    let gap = PUSH_OUT_DISTANCE - plane_distance_exact(normal, origin, position);
    if length_squared > NORMAL_LENGTH_SQUARED_MIN {
        Vec3 {
            x: pushed_coordinate(position.x as int, normal.x as int, gap, length_squared) as i32,
            y: pushed_coordinate(position.y as int, normal.y as int, gap, length_squared) as i32,
            z: pushed_coordinate(position.z as int, normal.z as int, gap, length_squared) as i32,
        }
    } else {
        fallback
    }
}

/// Whether no coordinate of the corrected position saturates.
pub open spec fn correction_fits(normal: Vec3, origin: Vec3, position: Vec3) -> bool {
    let length_squared = dot_exact(normal, normal);
    let gap = PUSH_OUT_DISTANCE - plane_distance_exact(normal, origin, position);
    let moved_x = if normal.x > 0 {
        position.x + spec_div_ceil(gap * normal.x, length_squared)
    } else {
        position.x + (gap * normal.x) / length_squared
    };
    let moved_y = if normal.y > 0 {
        position.y + spec_div_ceil(gap * normal.y, length_squared)
    } else {
        position.y + (gap * normal.y) / length_squared
    };
    let moved_z = if normal.z > 0 {
        position.z + spec_div_ceil(gap * normal.z, length_squared)
    } else {
        position.z + (gap * normal.z) / length_squared
    };
    i32::MIN <= moved_x <= i32::MAX && i32::MIN <= moved_y <= i32::MAX && i32::MIN <= moved_z
        <= i32::MAX
}

/// The pose after a crossing, with the camera set a little forward: the
/// translation moved by [`TRAVERSAL_PUSH_DISTANCE`] along the pose's own
/// negative z axis.
pub open spec fn spec_pushed_forward(pose: Transform) -> Transform {
    Transform {
        x_axis: pose.x_axis,
        y_axis: pose.y_axis,
        z_axis: pose.z_axis,
        translation: pose.translation.spec_offset(
            pose.spec_transform_vector3(
                Vec3 { x: 0, y: 0, z: (-TRAVERSAL_PUSH_DISTANCE) as i32 },
            ),
        ),
    }
}

/// The pose for position `position` and orientation `rotation`.
pub open spec fn spec_pose(position: Vec3, rotation: Transform) -> Transform {
    Transform::spec_from_translation(position).spec_mul_transform(rotation)
}

/// The pose in the target hull's blueprint space of a camera that crossed
/// from portal `source_portal` to portal `target_portal` and would have had
/// the pose `pose` in the source hull's space.
pub open spec fn spec_traversed_pose(
    source_portal: PortalId,
    target_portal: PortalId,
    pose: Transform,
) -> Transform {
    let back = Transform::spec_from_translation(
        spec_portal_alignment_offset(source_portal, target_portal).spec_negated(),
    );
    spec_pushed_forward(back.spec_mul_transform(pose))
}

/// The camera pose after the boundary check gave `result`.
pub open spec fn spec_next_pose(
    blueprint: HullBlueprint,
    current_pose: Transform,
    result: BoundaryCheckResult,
    position: Vec3,
    rotation: Transform,
) -> Transform {
    match result {
        BoundaryCheckResult::Inside => spec_pose(position, rotation),
        BoundaryCheckResult::Collision { collided_side_index, .. } => {
            let side = blueprint.sides@[collided_side_index as int];
            spec_pose(
                spec_corrected_position(
                    side.local_normal,
                    side_plane_origin(blueprint, side).unwrap(),
                    position,
                    current_pose.translation,
                ),
                rotation,
            )
        },
        BoundaryCheckResult::Traverse { crossed_side_index, target_portal_id, .. } => {
            let side = blueprint.sides@[crossed_side_index as int];
            spec_traversed_pose(
                side.local_portal_id.unwrap(),
                target_portal_id,
                spec_pose(position, rotation),
            )
        },
    }
}

/// The instance that hosts the camera after the boundary check gave
/// `result`.
pub open spec fn spec_next_instance(current: InstanceId, result: BoundaryCheckResult) -> InstanceId {
    match result {
        BoundaryCheckResult::Traverse { target_instance_id, .. } => target_instance_id,
        _ => current,
    }
}

/// Whether the scene holds the instance that hosts the camera, and that
/// instance's blueprint.
pub open spec fn camera_is_hosted(scene: Scene) -> bool {
    scene.instances@.contains_key(scene.active_camera_instance_id)
        && scene.blueprints@.contains_key(
        scene.instances@[scene.active_camera_instance_id].blueprint_id,
    )
}

/// One coordinate of the corrected position.
fn push_coordinate(coordinate: i32, normal: i32, gap: i128, length_squared: i128) -> (c: i32)
    requires
        length_squared > 0,
        -0x4_0000_0000_0000_0000 <= gap <= 0x4_0000_0000_0000_0000,
    ensures
        c as int == pushed_coordinate(
            coordinate as int,
            normal as int,
            gap as int,
            length_squared as int,
        ),
{
    assert(-0x2_0000_0000_0000_0000_0000_0000 <= (gap as int) * (normal as int)
        <= 0x2_0000_0000_0000_0000_0000_0000) by (nonlinear_arith)
        requires
            -0x8000_0000 <= normal <= 0x7fff_ffff,
            -0x4_0000_0000_0000_0000 <= gap <= 0x4_0000_0000_0000_0000,
    ;
    let scaled: i128 = gap * (normal as i128);
    if normal > 0 {
        let q: i128 = div_ceil(scaled, length_squared);
        proof {
            lemma_floor_div_bounds(-(scaled as int), length_squared as int);
        }
        saturate(coordinate as i128 + q)
    } else {
        let q: i128 = div_floor(scaled, length_squared);
        proof {
            lemma_floor_div_bounds(scaled as int, length_squared as int);
        }
        saturate(coordinate as i128 + q)
    }
}

/// Where a camera that ran into the wall with normal `normal` through
/// `origin` is put.
pub fn corrected_position(normal: &Vec3, origin: &Vec3, position: &Vec3, fallback: &Vec3) -> (corrected:
    Vec3)
    ensures
        corrected == spec_corrected_position(*normal, *origin, *position, *fallback),
{
    let length_squared: i128 = normal.dot_wide(normal);
    let signed_distance: i128 = plane_distance(normal, origin, position);
    if length_squared > NORMAL_LENGTH_SQUARED_MIN {
        let gap: i128 = PUSH_OUT_DISTANCE - signed_distance;
        Vec3 {
            x: push_coordinate(position.x, normal.x, gap, length_squared),
            y: push_coordinate(position.y, normal.y, gap, length_squared),
            z: push_coordinate(position.z, normal.z, gap, length_squared),
        }
    } else {
        *fallback
    }
}

/// The pose with the camera set a little forward.
pub fn pushed_forward(pose: &Transform) -> (pushed: Transform)
    ensures
        pushed == spec_pushed_forward(*pose),
{
    let local_push_vec = Vec3 { x: 0, y: 0, z: -TRAVERSAL_PUSH_DISTANCE };
    let push_offset: Vec3 = pose.transform_vector3(local_push_vec);
    Transform {
        x_axis: pose.x_axis,
        y_axis: pose.y_axis,
        z_axis: pose.z_axis,
        translation: pose.translation.offset(&push_offset),
    }
}

/// Moves the camera to the proposed position and orientation, as far as
/// the hull that hosts it allows.
///
/// Inside the hull the proposed pose is taken as it is. At a wall the
/// position is pushed back in front of the wall and the orientation kept.
/// Through a portal the pose is expressed in the target hull's blueprint
/// space, set a little forward, and the target becomes the camera's host.
/// Returns the outcome of the boundary check, or `None`, with the scene
/// unchanged, where the scene lacks the camera's host or its blueprint.
pub fn update_camera_in_scene(
    scene: &mut Scene,
    potential_new_local_pos: Vec3,
    new_rotation_matrix: Transform,
) -> (outcome: Option<BoundaryCheckResult>)
    ensures
        final(scene).blueprints == old(scene).blueprints,
        final(scene).instances == old(scene).instances,
        !camera_is_hosted(*old(scene)) ==> outcome is None && *final(scene) == *old(scene),
        camera_is_hosted(*old(scene)) ==> {
            let instance = old(scene).instances@[old(scene).active_camera_instance_id];
            let blueprint = old(scene).blueprints@[instance.blueprint_id];
            let result = spec_check_boundary(blueprint, instance, potential_new_local_pos);
            &&& outcome == Some(result)
            &&& final(scene).active_camera_instance_id == spec_next_instance(
                old(scene).active_camera_instance_id,
                result,
            )
            &&& final(scene).active_camera_local_transform == spec_next_pose(
                blueprint,
                old(scene).active_camera_local_transform,
                result,
                potential_new_local_pos,
                new_rotation_matrix,
            )
        },
{
    broadcast use vstd::std_specs::hash::group_hash_axioms;

    let current_instance_id = scene.active_camera_instance_id;
    let old_position: Vec3 = scene.active_camera_local_transform.translation;
    let proposed_pose: Transform = Transform::from_translation(
        potential_new_local_pos,
    ).mul_transform(&new_rotation_matrix);
    let current_instance = match scene.instances.get(&current_instance_id) {
        Some(instance) => instance,
        None => {
            return None;
        },
    };
    let current_hull_blueprint = match scene.blueprints.get(&current_instance.blueprint_id) {
        Some(blueprint) => blueprint,
        None => {
            return None;
        },
    };
    let boundary_check_result = check_camera_hull_boundary(
        &potential_new_local_pos,
        current_hull_blueprint,
        current_instance,
    );
    let side_count: usize = current_hull_blueprint.sides.len();
    proof {
        let blueprint = *current_hull_blueprint;
        assert(blueprint.sides@.len() == side_count);
        lemma_first_violated(blueprint, potential_new_local_pos, 0);
        match first_violated_from(blueprint, potential_new_local_pos, 0) {
            Some(index) => {
                let side = blueprint.sides@[index as int];
                assert(side_is_violated(blueprint, side, potential_new_local_pos));
                assert(side_plane_origin(blueprint, side) is Some);
                assert(boundary_check_result == violated_side_outcome(
                    *current_instance,
                    index as usize,
                    side,
                    potential_new_local_pos,
                ));
            },
            None => {},
        }
    }
    let next_instance_id: InstanceId;
    let next_pose: Transform;
    match boundary_check_result {
        BoundaryCheckResult::Inside => {
            next_instance_id = current_instance_id;
            next_pose = proposed_pose;
        },
        BoundaryCheckResult::Collision { collided_side_index, collision_point: _ } => {
            let side = &current_hull_blueprint.sides[collided_side_index];
            let point_on_plane: Vec3 = current_hull_blueprint.local_vertices[side.vertex_indices[0]];
            let corrected: Vec3 = corrected_position(
                &side.local_normal,
                &point_on_plane,
                &potential_new_local_pos,
                &old_position,
            );
            next_instance_id = current_instance_id;
            next_pose = Transform::from_translation(corrected).mul_transform(&new_rotation_matrix);
        },
        BoundaryCheckResult::Traverse { crossed_side_index, target_instance_id, target_portal_id } => {
            let side = &current_hull_blueprint.sides[crossed_side_index];
            let source_portal_id: PortalId = match side.local_portal_id {
                Some(id) => id,
                None => {
                    proof {
                        assert(false);
                    }
                    0
                },
            };
            let alignment: Transform = get_portal_alignment_transform(
                source_portal_id,
                target_portal_id,
            );
            proof {
                lemma_translation_inverse(
                    spec_portal_alignment_offset(source_portal_id, target_portal_id),
                );
            }
            let back: Transform = match alignment.inverse() {
                Some(inverse) => inverse,
                None => {
                    proof {
                        assert(false);
                    }
                    Transform::identity()
                },
            };
            let new_camera_pose_in_new_bp: Transform = back.mul_transform(&proposed_pose);
            next_instance_id = target_instance_id;
            next_pose = pushed_forward(&new_camera_pose_in_new_bp);
        },
    }
    scene.active_camera_instance_id = next_instance_id;
    scene.active_camera_local_transform = next_pose;
    Some(boundary_check_result)
}

/// The largest signed distance, in squared coordinate units, that a
/// collision leaves between the camera and a wall whose normal has no
/// component larger than one (about 1e-2 unit lengths).
pub const PUSHBACK_BOUND: i128 = 42949672;

/// The magnitude of `v`.
pub open spec fn magnitude(v: int) -> int {
    if v < 0 {
        -v
    } else {
        v
    }
}

/// Whether no component of `normal` is larger than one in magnitude.
pub open spec fn within_unit_cube(normal: Vec3) -> bool {
    magnitude(normal.x as int) <= 65536 && magnitude(normal.y as int) <= 65536 && magnitude(
        normal.z as int,
    ) <= 65536
}

/// The move of one coordinate, taken along its normal component, covers
/// its share of the gap and overshoots by less than the component.
proof fn lemma_directed_quotient(gap: int, normal: int, length_squared: int)
    requires
        length_squared > 0,
    ensures
        ({
            let q = if normal > 0 {
                spec_div_ceil(gap * normal, length_squared)
            } else {
                (gap * normal) / length_squared
            };
            gap * (normal * normal) <= (normal * q) * length_squared <= gap * (normal * normal)
                + magnitude(normal) * length_squared
        }),
{
    let a = gap * normal;
    if normal > 0 {
        let f = (-a) / length_squared;
        let q = -f;
        lemma_floor_div_bounds(-a, length_squared);
        assert(a <= q * length_squared < a + length_squared) by (nonlinear_arith)
            requires
                f * length_squared <= -a < f * length_squared + length_squared,
                q == -f,
        ;
        assert(gap * (normal * normal) <= (normal * q) * length_squared <= gap * (normal * normal)
            + normal * length_squared) by (nonlinear_arith)
            requires
                a <= q * length_squared < a + length_squared,
                a == gap * normal,
                normal > 0,
        ;
    } else {
        let q = a / length_squared;
        lemma_floor_div_bounds(a, length_squared);
        assert(gap * (normal * normal) <= (normal * q) * length_squared <= gap * (normal * normal)
            + (-normal) * length_squared) by (nonlinear_arith)
            requires
                q * length_squared <= a < q * length_squared + length_squared,
                a == gap * normal,
                normal <= 0,
        ;
    }
}

/// Collision pushback: a camera pushed out of a wall ends in front of the
/// wall and close to it. The signed distance of the corrected position from
/// the wall's plane is at least [`PUSH_OUT_DISTANCE`] and exceeds it by no
/// more than the sum of the magnitudes of the normal's components; for a
/// normal with no component larger than one it is positive and at most
/// [`PUSHBACK_BOUND`].
///
/// This holds where the normal has a direction and no coordinate of the
/// corrected position saturates.
pub proof fn lemma_collision_pushback(normal: Vec3, origin: Vec3, position: Vec3, fallback: Vec3)
    requires
        dot_exact(normal, normal) > NORMAL_LENGTH_SQUARED_MIN,
        correction_fits(normal, origin, position),
    ensures
        ({
            let corrected = spec_corrected_position(normal, origin, position, fallback);
            let distance = plane_distance_exact(normal, origin, corrected);
            &&& PUSH_OUT_DISTANCE <= distance <= PUSH_OUT_DISTANCE + magnitude(normal.x as int)
                + magnitude(normal.y as int) + magnitude(normal.z as int)
            &&& within_unit_cube(normal) ==> 0 < distance <= PUSHBACK_BOUND
        }),
{
    let n2 = dot_exact(normal, normal);
    let before = plane_distance_exact(normal, origin, position);
    let gap = PUSH_OUT_DISTANCE - before;
    let nx = normal.x as int;
    let ny = normal.y as int;
    let nz = normal.z as int;
    let qx = if nx > 0 {
        spec_div_ceil(gap * nx, n2)
    } else {
        (gap * nx) / n2
    };
    let qy = if ny > 0 {
        spec_div_ceil(gap * ny, n2)
    } else {
        (gap * ny) / n2
    };
    let qz = if nz > 0 {
        spec_div_ceil(gap * nz, n2)
    } else {
        (gap * nz) / n2
    };
    lemma_directed_quotient(gap, nx, n2);
    lemma_directed_quotient(gap, ny, n2);
    lemma_directed_quotient(gap, nz, n2);
    let corrected = spec_corrected_position(normal, origin, position, fallback);
    assert(corrected.x == position.x + qx);
    assert(corrected.y == position.y + qy);
    assert(corrected.z == position.z + qz);
    let distance = plane_distance_exact(normal, origin, corrected);
    let moved = nx * qx + ny * qy + nz * qz;
    assert(distance == before + moved) by (nonlinear_arith)
        requires
            distance == nx * (position.x + qx - origin.x) + ny * (position.y + qy - origin.y) + nz
                * (position.z + qz - origin.z),
            before == nx * (position.x - origin.x) + ny * (position.y - origin.y) + nz * (position.z
                - origin.z),
            moved == nx * qx + ny * qy + nz * qz,
    ;
    let slack = magnitude(nx) + magnitude(ny) + magnitude(nz);
    assert(moved * n2 == (nx * qx) * n2 + (ny * qy) * n2 + (nz * qz) * n2) by (nonlinear_arith)
        requires
            moved == nx * qx + ny * qy + nz * qz,
    ;
    assert(gap * n2 == gap * (nx * nx) + gap * (ny * ny) + gap * (nz * nz)) by (nonlinear_arith)
        requires
            n2 == nx * nx + ny * ny + nz * nz,
    ;
    assert(slack * n2 == magnitude(nx) * n2 + magnitude(ny) * n2 + magnitude(nz) * n2)
        by (nonlinear_arith)
        requires
            slack == magnitude(nx) + magnitude(ny) + magnitude(nz),
    ;
    assert((gap + slack) * n2 == gap * n2 + slack * n2) by (nonlinear_arith);
    assert(gap * n2 <= moved * n2 <= (gap + slack) * n2);
    assert(gap <= moved <= gap + slack) by (nonlinear_arith)
        requires
            n2 > 0,
            gap * n2 <= moved * n2 <= (gap + slack) * n2,
    ;
}

/// After a collision the camera stands in front of the wall that it ran
/// into, and close to it: where the boundary check finds a collision with
/// side `index`, the camera's new position has a signed distance from that
/// side's plane of at least [`PUSH_OUT_DISTANCE`], exceeding it by no more
/// than the sum of the magnitudes of the normal's components; for a normal
/// with no component larger than one the distance is positive and at most
/// [`PUSHBACK_BOUND`].
///
/// This holds for a proposed orientation that does not move the origin,
/// where the side's normal has a direction and no coordinate of the
/// corrected position saturates.
pub proof fn lemma_collision_leaves_camera_in_front(
    blueprint: HullBlueprint,
    instance: HullInstance,
    current_pose: Transform,
    position: Vec3,
    rotation: Transform,
    index: SideIndex,
)
    requires
        blueprint.sides@.len() <= usize::MAX,
        spec_check_boundary(blueprint, instance, position) == (BoundaryCheckResult::Collision {
            collided_side_index: index,
            collision_point: position,
        }),
        rotation.translation == (Vec3 { x: 0, y: 0, z: 0 }),
        dot_exact(blueprint.sides@[index as int].local_normal, blueprint.sides@[index as int].local_normal)
            > NORMAL_LENGTH_SQUARED_MIN,
        side_plane_origin(blueprint, blueprint.sides@[index as int]) is Some ==> correction_fits(
            blueprint.sides@[index as int].local_normal,
            side_plane_origin(blueprint, blueprint.sides@[index as int]).unwrap(),
            position,
        ),
    ensures
        index < blueprint.sides@.len(),
        side_is_violated(blueprint, blueprint.sides@[index as int], position),
        ({
            let side = blueprint.sides@[index as int];
            let normal = side.local_normal;
            let pose = spec_next_pose(
                blueprint,
                current_pose,
                spec_check_boundary(blueprint, instance, position),
                position,
                rotation,
            );
            let distance = plane_distance_exact(
                normal,
                side_plane_origin(blueprint, side).unwrap(),
                pose.translation,
            );
            &&& pose.x_axis == rotation.x_axis
            &&& pose.y_axis == rotation.y_axis
            &&& pose.z_axis == rotation.z_axis
            &&& PUSH_OUT_DISTANCE <= distance <= PUSH_OUT_DISTANCE + magnitude(normal.x as int)
                + magnitude(normal.y as int) + magnitude(normal.z as int)
            &&& within_unit_cube(normal) ==> 0 < distance <= PUSHBACK_BOUND
        }),
{
    lemma_first_violated(blueprint, position, 0);
    let first = first_violated_from(blueprint, position, 0);
    assert(first is Some);
    let found = first.unwrap();
    let found_side = blueprint.sides@[found as int];
    assert(violated_side_outcome(instance, found as usize, found_side, position)
        == spec_check_boundary(blueprint, instance, position));
    assert(found as usize == index);
    assert(found == index as int);
    let side = blueprint.sides@[index as int];
    let origin = side_plane_origin(blueprint, side).unwrap();
    let corrected = spec_corrected_position(
        side.local_normal,
        origin,
        position,
        current_pose.translation,
    );
    crate::engine_lib::transform::lemma_translation_composes(corrected, rotation);
    lemma_collision_pushback(side.local_normal, origin, position, current_pose.translation);
}

/// Whether the scene holds instance `id` and its blueprint.
pub open spec fn instance_is_hosted(scene: Scene, id: InstanceId) -> bool {
    scene.instances@.contains_key(id) && scene.blueprints@.contains_key(
        scene.instances@[id].blueprint_id,
    )
}

/// Whether side `side_index` of instance `id`, if the scene holds it and it
/// is a portal, leads to an instance that the scene holds.
pub open spec fn portal_leads_somewhere(scene: Scene, id: InstanceId, side_index: SideIndex) -> bool {
    let instance = scene.instances@[id];
    let blueprint = scene.blueprints@[instance.blueprint_id];
    instance_is_hosted(scene, id) && side_index < blueprint.sides@.len() ==> (
    match spec_effective_config(instance, side_index, blueprint.sides@[side_index as int]) {
        HandlerConfig::StandardPortal { target_instance_id, .. } => instance_is_hosted(
            scene,
            target_instance_id,
        ),
        _ => true,
    })
}

/// Whether every portal of the scene leads to an instance that the scene
/// holds.
pub open spec fn portals_lead_somewhere(scene: Scene) -> bool {
    forall|id: InstanceId, side_index: SideIndex| #[trigger]
        portal_leads_somewhere(scene, id, side_index)
}

/// The camera is never lost: in a scene whose portals all lead somewhere, a
/// camera that has a host has one after any move.
pub proof fn lemma_camera_stays_hosted(scene: Scene, position: Vec3)
    requires
        camera_is_hosted(scene),
        portals_lead_somewhere(scene),
        scene.blueprints@[scene.instances@[scene.active_camera_instance_id].blueprint_id].sides@.len()
            <= usize::MAX,
    ensures
        ({
            let instance = scene.instances@[scene.active_camera_instance_id];
            let blueprint = scene.blueprints@[instance.blueprint_id];
            instance_is_hosted(
                scene,
                spec_next_instance(
                    scene.active_camera_instance_id,
                    spec_check_boundary(blueprint, instance, position),
                ),
            )
        }),
{
    let id = scene.active_camera_instance_id;
    let instance = scene.instances@[id];
    let blueprint = scene.blueprints@[instance.blueprint_id];
    lemma_first_violated(blueprint, position, 0);
    match first_violated_from(blueprint, position, 0) {
        Some(index) => {
            assert(portal_leads_somewhere(scene, id, index as usize));
        },
        None => {},
    }
}

/// Crossing a portal moves the camera by the portal's alignment offset: the
/// pose in the target hull's space has the orientation that the camera would
/// have had in the source hull's space, and its translation is the proposed
/// position less the alignment offset, then set forward.
pub proof fn lemma_traversal_shifts_by_alignment(
    source_portal: PortalId,
    target_portal: PortalId,
    pose: Transform,
)
    ensures
        ({
            let offset = spec_portal_alignment_offset(source_portal, target_portal);
            let shifted = Transform {
                x_axis: pose.x_axis,
                y_axis: pose.y_axis,
                z_axis: pose.z_axis,
                translation: pose.translation.spec_offset(offset.spec_negated()),
            };
            spec_traversed_pose(source_portal, target_portal, pose) == spec_pushed_forward(shifted)
        }),
{
    let offset = spec_portal_alignment_offset(source_portal, target_portal);
    crate::engine_lib::transform::lemma_translation_composes(offset.spec_negated(), pose);
}

} // verus!
