//! What each kind of hull side does when it is visible: a wall is
//! triangulated into the frame, a portal continues the traversal.
use crate::engine_lib::scene_logic::side_plane_origin;
use crate::engine_lib::scene_types::queue_view;
use crate::engine_lib::scene_types::BlueprintSide;
use crate::engine_lib::scene_types::HandlerConfig;
use crate::engine_lib::scene_types::HullBlueprint;
use crate::engine_lib::scene_types::PortalId;
use crate::engine_lib::scene_types::Scene;
use crate::engine_lib::scene_types::TraversalState;
use crate::engine_lib::scene_types::TraversalStateView;
use crate::engine_lib::transform::Transform;
use crate::engine_lib::vector::dot_exact;
use crate::engine_lib::vector::Vec3;
use crate::geometry::ConvexPolygon;
use crate::geometry::Point2;
use crate::rendering_lib::vertex::Vertex;
use std::collections::VecDeque;
use vstd::prelude::*;

verus! {

/// The number of portals a line of sight may cross.
pub const MAX_PORTAL_RECURSION_DEPTH: u32 = 10;

pub const PORTAL_ID_FRONT: PortalId = 0;

pub const PORTAL_ID_BACK: PortalId = 1;

pub const PORTAL_ID_LEFT: PortalId = 2;

pub const PORTAL_ID_RIGHT: PortalId = 3;

pub const PORTAL_ID_TOP: PortalId = 4;

pub const PORTAL_ID_BOTTOM: PortalId = 5;

/// The distance between the centres of two rooms joined by a portal: three
/// units, twice the half size of a room.
pub const ROOM_SPAN: i32 = 196608;

/// The offset of the target hull's blueprint space in the source hull's,
/// for a portal pair of opposite faces; zero for any other pair.
pub open spec fn spec_portal_alignment_offset(source: PortalId, target: PortalId) -> Vec3 {
    if source == PORTAL_ID_FRONT && target == PORTAL_ID_BACK {
        Vec3 { x: 0, y: 0, z: ROOM_SPAN }
    } else if source == PORTAL_ID_BACK && target == PORTAL_ID_FRONT {
        Vec3 { x: 0, y: 0, z: (-ROOM_SPAN) as i32 }
    } else if source == PORTAL_ID_RIGHT && target == PORTAL_ID_LEFT {
        Vec3 { x: ROOM_SPAN, y: 0, z: 0 }
    } else if source == PORTAL_ID_LEFT && target == PORTAL_ID_RIGHT {
        Vec3 { x: (-ROOM_SPAN) as i32, y: 0, z: 0 }
    } else if source == PORTAL_ID_TOP && target == PORTAL_ID_BOTTOM {
        Vec3 { x: 0, y: ROOM_SPAN, z: 0 }
    } else if source == PORTAL_ID_BOTTOM && target == PORTAL_ID_TOP {
        Vec3 { x: 0, y: (-ROOM_SPAN) as i32, z: 0 }
    } else {
        Vec3 { x: 0, y: 0, z: 0 }
    }
}

/// The transform that takes the target hull's blueprint space to the source
/// hull's, for the portal with id `source_portal_id_on_current_bp` on the
/// source side and `target_portal_id_on_target_bp` on the target side.
pub fn get_portal_alignment_transform(
    source_portal_id_on_current_bp: PortalId,
    target_portal_id_on_target_bp: PortalId,
) -> (alignment: Transform)
    ensures
        alignment == Transform::spec_from_translation(
            spec_portal_alignment_offset(
                source_portal_id_on_current_bp,
                target_portal_id_on_target_bp,
            ),
        ),
{
    let source = source_portal_id_on_current_bp;
    let target = target_portal_id_on_target_bp;
    let offset = if source == PORTAL_ID_FRONT && target == PORTAL_ID_BACK {
        Vec3 { x: 0, y: 0, z: ROOM_SPAN }
    } else if source == PORTAL_ID_BACK && target == PORTAL_ID_FRONT {
        Vec3 { x: 0, y: 0, z: -ROOM_SPAN }
    } else if source == PORTAL_ID_RIGHT && target == PORTAL_ID_LEFT {
        Vec3 { x: ROOM_SPAN, y: 0, z: 0 }
    } else if source == PORTAL_ID_LEFT && target == PORTAL_ID_RIGHT {
        Vec3 { x: -ROOM_SPAN, y: 0, z: 0 }
    } else if source == PORTAL_ID_TOP && target == PORTAL_ID_BOTTOM {
        Vec3 { x: 0, y: ROOM_SPAN, z: 0 }
    } else if source == PORTAL_ID_BOTTOM && target == PORTAL_ID_TOP {
        Vec3 { x: 0, y: -ROOM_SPAN, z: 0 }
    } else {
        Vec3 { x: 0, y: 0, z: 0 }
    };
    Transform::from_translation(offset)
}

/// Why a frame could not be built.
#[derive(Clone, Copy, Debug, PartialEq, Eq, Structural)]
pub enum FrameError {
    /// The frame would hold more vertices than its 16-bit indices can
    /// address.
    IndexOverflow,
}

/// The largest number of vertices that a frame's indices can address.
pub const MAX_FRAME_VERTICES: usize = 65536;

/// How far in front of the camera a portal's plane may lie and the portal
/// still be taken to face away, in squared coordinate units (about 1e-5).
pub const CULLING_EPSILON: i128 = 42949;

/// The vertices and triangle indices of a frame.
pub struct FrameView {
    pub vertices: Seq<Vertex>,
    pub indices: Seq<u16>,
}

/// The colour of a wall: that of its configuration, or a light grey for a
/// configuration that has none.
pub open spec fn spec_wall_color(config: HandlerConfig) -> [i32; 4] {
    match config {
        HandlerConfig::StandardWall { color, .. } => color,
        _ => [45875i32, 45875i32, 45875i32, 65536i32],
    }
}

/// The frame vertex for the screen point `p`.
pub open spec fn spec_wall_vertex(p: Point2, color: [i32; 4]) -> Vertex {
    Vertex { position: [p.x, p.y], color }
}

/// The frame vertices of a polygon: one for each of its points, in order.
pub open spec fn spec_fan_vertices(polygon: Seq<Point2>, color: [i32; 4]) -> Seq<Vertex> {
    Seq::new(polygon.len(), |i: int| spec_wall_vertex(polygon[i], color))
}

/// The index at place `k` of the fan of a polygon whose first vertex has
/// index `start`: triangle `t` is `start`, `start + t + 1`, `start + t + 2`.
pub open spec fn spec_fan_index(start: int, k: int) -> int {
    if k % 3 == 0 {
        start
    } else {
        start + k / 3 + k % 3
    }
}

/// The triangle indices of a polygon of `count` points fanned out from its
/// first point, which has index `start` in the frame.
pub open spec fn spec_fan_indices(start: int, count: int) -> Seq<u16> {
    Seq::new((3 * (count - 2)) as nat, |k: int| spec_fan_index(start, k) as u16)
}

/// The frame with the wall `polygon` added: unchanged for fewer than three
/// points, `None` where the frame's indices could not address the new
/// vertices.
pub open spec fn spec_wall_emit(frame: FrameView, polygon: Seq<Point2>, color: [i32; 4]) -> Option<
    FrameView,
> {
    if polygon.len() < 3 {
        Some(frame)
    } else if frame.vertices.len() + polygon.len() > MAX_FRAME_VERTICES {
        None
    } else {
        Some(
            FrameView {
                vertices: frame.vertices + spec_fan_vertices(polygon, color),
                indices: frame.indices + spec_fan_indices(
                    frame.vertices.len() as int,
                    polygon.len() as int,
                ),
            },
        )
    }
}

/// Whether `frame` is a list of triangles: three indices for each, every
/// index that of a vertex of the frame, and no more vertices than an index
/// can address.
pub open spec fn frame_is_well_formed(frame: FrameView) -> bool {
    &&& frame.indices.len() % 3 == 0
    &&& frame.vertices.len() <= MAX_FRAME_VERTICES
    &&& forall|i: int| 0 <= i < frame.indices.len() ==> (#[trigger] frame.indices[i]) < frame.vertices.len()
}

/// Adding a wall to a list of triangles gives a list of triangles.
pub proof fn lemma_wall_keeps_frame_well_formed(
    frame: FrameView,
    polygon: Seq<Point2>,
    color: [i32; 4],
)
    requires
        frame_is_well_formed(frame),
    ensures
        match spec_wall_emit(frame, polygon, color) {
            Some(after) => frame_is_well_formed(after),
            None => true,
        },
{
    if polygon.len() >= 3 && frame.vertices.len() + polygon.len() <= MAX_FRAME_VERTICES {
        let start = frame.vertices.len() as int;
        let count = polygon.len() as int;
        let after = spec_wall_emit(frame, polygon, color).unwrap();
        let fan = spec_fan_indices(start, count);
        assert(after.vertices.len() == start + count);
        assert(fan.len() == 3 * (count - 2));
        assert forall|i: int| 0 <= i < after.indices.len() implies (#[trigger] after.indices[i])
            < after.vertices.len() by {
            if i < frame.indices.len() {
                assert(after.indices[i] == frame.indices[i]);
            } else {
                let k = i - frame.indices.len();
                assert(after.indices[i] == fan[k]);
                assert(0 <= k / 3 <= count - 3);
                assert(0 <= k % 3 <= 2);
                assert(start <= spec_fan_index(start, k) <= start + count - 1);
            }
        }
    }
}

/// Whether a side faces away from the camera. The side's inward normal is
/// taken to view space and scaled to unit length at each step; the side
/// faces away where the camera, at the origin of view space, lies behind the
/// side's plane by more than [`CULLING_EPSILON`].
pub open spec fn spec_side_faces_away(
    local_normal: Vec3,
    local_origin: Vec3,
    accumulated: Transform,
    view: Transform,
) -> bool {
    let normal_in_host = accumulated.spec_transform_vector3(local_normal).spec_normalize();
    let normal_in_view = view.spec_transform_vector3(normal_in_host).spec_normalize();
    let origin_in_view = view.spec_transform_point3(accumulated.spec_transform_point3(local_origin));
    dot_exact(normal_in_view, origin_in_view) > CULLING_EPSILON
}

/// The work item that a visible portal side adds, or `None` where the
/// traversal does not continue through it: the side is no portal, has no
/// plane or no portal id, faces away, leads to an instance that the scene
/// lacks, or the recursion depth is used up.
pub open spec fn spec_portal_continuation(
    scene: Scene,
    view: Transform,
    accumulated: Transform,
    recursion_depth: u32,
    blueprint: HullBlueprint,
    side: BlueprintSide,
    config: HandlerConfig,
    visible: Seq<Point2>,
) -> Option<TraversalStateView> {
    match config {
        HandlerConfig::StandardPortal { target_instance_id, target_portal_id } => {
            if side_plane_origin(blueprint, side) is None || side.local_portal_id is None {
                None
            } else if spec_side_faces_away(
                side.local_normal,
                side_plane_origin(blueprint, side).unwrap(),
                accumulated,
                view,
            ) || recursion_depth >= MAX_PORTAL_RECURSION_DEPTH || !scene.instances@.contains_key(
                target_instance_id,
            ) {
                None
            } else {
                Some(
                    TraversalStateView {
                        current_instance_id: target_instance_id,
                        accumulated_transform: accumulated.spec_mul_transform(
                            Transform::spec_from_translation(
                                spec_portal_alignment_offset(
                                    side.local_portal_id.unwrap(),
                                    target_portal_id,
                                ),
                            ),
                        ),
                        screen_space_clip_polygon: visible,
                        recursion_depth: (recursion_depth + 1) as u32,
                    },
                )
            }
        },
        _ => None,
    }
}

/// The handler of opaque walls.
pub struct StandardWallHandler;

impl StandardWallHandler {
    /// Adds the visible part of a wall to the frame: its points as
    /// vertices in the wall's colour, and the triangles of a fan from its
    /// first point. A part of fewer than three points adds nothing.
    ///
    /// Fails, leaving the frame as it was, where the frame would hold more
    /// than [`MAX_FRAME_VERTICES`] vertices.
    pub fn process_render(
        &self,
        side_config: &HandlerConfig,
        visible_screen_polygon: &ConvexPolygon,
        frame_vertices: &mut Vec<Vertex>,
        frame_indices: &mut Vec<u16>,
    ) -> (result: Result<(), FrameError>)
        ensures
            match spec_wall_emit(
                FrameView { vertices: old(frame_vertices)@, indices: old(frame_indices)@ },
                visible_screen_polygon@,
                spec_wall_color(*side_config),
            ) {
                Some(frame) => result is Ok && final(frame_vertices)@ == frame.vertices && final(frame_indices)@ == frame.indices,
                None => result == Err::<(), FrameError>(FrameError::IndexOverflow) && final(frame_vertices)@ == old(frame_vertices)@ && final(frame_indices)@ == old(frame_indices)@,
            },
    {
        let wall_color: [i32; 4] = match side_config {
            HandlerConfig::StandardWall { color, .. } => *color,
            _ => [45875, 45875, 45875, 65536],
        };
        let count: usize = visible_screen_polygon.count();
        if count < 3 {
            return Ok(());
        }
        if frame_vertices.len() > MAX_FRAME_VERTICES - count {
            return Err(FrameError::IndexOverflow);
        }
        let ghost polygon = visible_screen_polygon@;
        let ghost start = frame_vertices@.len() as int;
        let start_vertex_index: u16 = frame_vertices.len() as u16;
        let mut k: usize = 0;
        while k < count
            invariant
                k <= count == polygon.len(),
                polygon == visible_screen_polygon@,
                0 <= start,
                frame_vertices@.len() == start + k,
                frame_vertices@.take(start) == old(frame_vertices)@,
                forall|j: int|
                    0 <= j < k ==> frame_vertices@[start + j] == spec_wall_vertex(
                        polygon[j],
                        wall_color,
                    ),
            decreases count - k,
        {
            let point: Point2 = visible_screen_polygon.vertex(k);
            let ghost before = frame_vertices@;
            frame_vertices.push(Vertex::new([point.x, point.y], wall_color));
            assert(frame_vertices@[start + k] =~= spec_wall_vertex(polygon[k as int], wall_color));
            assert(frame_vertices@.take(start) =~= before.take(start));
            k = k + 1;
        }
        assert(frame_vertices@ =~= old(frame_vertices)@ + spec_fan_vertices(polygon, wall_color));
        let mut i: u16 = 1;
        let last: u16 = (count - 1) as u16;
        while i < last
            invariant
                1 <= i <= last == count - 1,
                3 <= count <= 16,
                start + count <= MAX_FRAME_VERTICES,
                start_vertex_index == start,
                frame_indices@ == old(frame_indices)@ + Seq::new(
                    (3 * (i - 1)) as nat,
                    |k: int| spec_fan_index(start, k) as u16,
                ),
            decreases last - i,
        {
            let ghost before = frame_indices@;
            frame_indices.push(start_vertex_index);
            frame_indices.push(start_vertex_index + i);
            frame_indices.push(start_vertex_index + i + 1);
            proof {
                let t = (i - 1) as int;
                assert((3 * t) % 3 == 0 && (3 * t) / 3 == t);
                assert((3 * t + 1) % 3 == 1 && (3 * t + 1) / 3 == t);
                assert((3 * t + 2) % 3 == 2 && (3 * t + 2) / 3 == t);
                assert(frame_indices@ =~= old(frame_indices)@ + Seq::new(
                    (3 * i) as nat,
                    |k: int| spec_fan_index(start, k) as u16,
                ));
            }
            i = i + 1;
        }
        Ok(())
    }
}

/// Whether the side with inward normal `local_normal` through
/// `local_origin` faces away from the camera.
pub fn side_faces_away(
    local_normal: &Vec3,
    local_origin: &Vec3,
    transform_to_camera_host_hull: &Transform,
    camera_view_from_host_hull: &Transform,
) -> (away: bool)
    ensures
        away == spec_side_faces_away(
            *local_normal,
            *local_origin,
            *transform_to_camera_host_hull,
            *camera_view_from_host_hull,
        ),
{
    let normal_in_host_bp_space: Vec3 = transform_to_camera_host_hull.transform_vector3(
        *local_normal,
    ).normalize();
    let normal_in_cam_space: Vec3 = camera_view_from_host_hull.transform_vector3(
        normal_in_host_bp_space,
    ).normalize();
    let p0_host_hull_space: Vec3 = transform_to_camera_host_hull.transform_point3(*local_origin);
    let p0_cam_space: Vec3 = camera_view_from_host_hull.transform_point3(p0_host_hull_space);
    normal_in_cam_space.dot_wide(&p0_cam_space) > CULLING_EPSILON
}

/// The handler of portals without a transform of their own.
pub struct StandardPortalHandler;

impl StandardPortalHandler {
    /// Continues the traversal through a visible portal side: appends to
    /// the queue a work item for the instance behind the portal, seen
    /// through the visible part of the portal, one level deeper.
    pub fn process_render(
        &self,
        scene: &Scene,
        current_blueprint: &HullBlueprint,
        blueprint_side: &BlueprintSide,
        side_config: &HandlerConfig,
        transform_to_camera_host_hull: &Transform,
        camera_view_from_host_hull: &Transform,
        visible_screen_polygon: &ConvexPolygon,
        current_recursion_depth: u32,
        traversal_queue: &mut VecDeque<TraversalState>,
    )
        ensures
            final(traversal_queue)@.len() >= old(traversal_queue)@.len(),
            final(traversal_queue)@.take(old(traversal_queue)@.len() as int) == old(traversal_queue)@,
            match spec_portal_continuation(
                *scene,
                *camera_view_from_host_hull,
                *transform_to_camera_host_hull,
                current_recursion_depth,
                *current_blueprint,
                *blueprint_side,
                *side_config,
                visible_screen_polygon@,
            ) {
                Some(state) => queue_view(final(traversal_queue)@) == queue_view(
                    old(traversal_queue)@,
                ).push(state),
                None => final(traversal_queue)@ == old(traversal_queue)@,
            },
    {
        broadcast use vstd::std_specs::hash::group_hash_axioms;

        assert(traversal_queue@.take(traversal_queue@.len() as int) =~= traversal_queue@);
        let (target_instance_id, target_portal_id) = match side_config {
            HandlerConfig::StandardPortal { target_instance_id, target_portal_id } => (
                *target_instance_id,
                *target_portal_id,
            ),
            _ => {
                return ;
            },
        };
        if blueprint_side.vertex_indices.len() == 0 {
            return ;
        }
        let p0_bp_local_idx: usize = blueprint_side.vertex_indices[0];
        if p0_bp_local_idx >= current_blueprint.local_vertices.len() {
            return ;
        }
        let source_portal_id: PortalId = match blueprint_side.local_portal_id {
            Some(id) => id,
            None => {
                return ;
            },
        };
        let p0_bp_local: Vec3 = current_blueprint.local_vertices[p0_bp_local_idx];
        if side_faces_away(
            &blueprint_side.local_normal,
            &p0_bp_local,
            transform_to_camera_host_hull,
            camera_view_from_host_hull,
        ) {
            return ;
        }
        if current_recursion_depth >= MAX_PORTAL_RECURSION_DEPTH {
            return ;
        }
        if !scene.instances.contains_key(&target_instance_id) {
            return ;
        }
        let portal_alignment_transform = get_portal_alignment_transform(
            source_portal_id,
            target_portal_id,
        );
        let next_transform_to_camera_host_hull = transform_to_camera_host_hull.mul_transform(
            &portal_alignment_transform,
        );
        let ghost before = traversal_queue@;
        traversal_queue.push_back(
            TraversalState {
                current_instance_id: target_instance_id,
                accumulated_transform: next_transform_to_camera_host_hull,
                screen_space_clip_polygon: visible_screen_polygon.clone(),
                recursion_depth: current_recursion_depth + 1,
            },
        );
        assert(traversal_queue@.take(before.len() as int) =~= before);
        assert(queue_view(traversal_queue@) =~= queue_view(before).push(traversal_queue@.last()@));
    }
}

} // verus!
