//! From a hull side to the screen region in which it is seen: transform to
//! the camera's view space, clip at the near plane, project, and intersect
//! with the aperture.
use crate::engine_lib::camera::spec_project;
use crate::engine_lib::camera::Camera;
use crate::engine_lib::scene_types::BlueprintSide;
use crate::engine_lib::scene_types::HullBlueprint;
use crate::engine_lib::transform::Transform;
use crate::engine_lib::vector::Vec3;
use crate::fixed::saturate;
use crate::fixed::spec_saturate;
use crate::fixed::wide_sub;
use crate::geometry::ConvexPolygon;
use crate::geometry::Point2;
use crate::intersection::crossing_coordinate;
use crate::intersection::spec_intersection;
use crate::intersection::truncated;
use crate::intersection::ConvexIntersection;
use vstd::prelude::*;

verus! {

/// Whether side `side` names at least three vertices, all of which the
/// blueprint has.
pub open spec fn side_is_resolvable(blueprint: HullBlueprint, side: BlueprintSide) -> bool {
    side.vertex_indices@.len() >= 3 && forall|i: int|
        0 <= i < side.vertex_indices@.len() ==> #[trigger] side.vertex_indices@[i]
            < blueprint.local_vertices@.len()
}

/// The vertices of `side` in the camera's view space: each local vertex
/// taken by `accumulated` to the space of the camera's host hull and from
/// there by `view` to view space.
pub open spec fn spec_side_in_camera_space(
    blueprint: HullBlueprint,
    side: BlueprintSide,
    accumulated: Transform,
    view: Transform,
) -> Seq<Vec3> {
    Seq::new(
        side.vertex_indices@.len(),
        |i: int|
            view.spec_transform_point3(
                accumulated.spec_transform_point3(
                    blueprint.local_vertices@[side.vertex_indices@[i] as int],
                ),
            ),
    )
}

/// Whether `p` is on the visible side of the near plane `z = -znear`, the
/// plane included.
pub open spec fn beyond_near_plane(p: Vec3, znear: i32) -> bool {
    p.z <= -(znear as int)
}

/// The point where the segment from `s` to `p` meets the near plane.
pub open spec fn spec_near_crossing(s: Vec3, p: Vec3, znear: i32) -> Vec3 {
    let numerator = -(znear as int) - s.z;
    let denominator = p.z - s.z;
    Vec3 {
        x: crossing_coordinate(s.x as int, p.x - s.x, numerator, denominator) as i32,
        y: crossing_coordinate(s.y as int, p.y - s.y, numerator, denominator) as i32,
        z: spec_saturate(-(znear as int)) as i32,
    }
}

/// The points that the edge from `s` to `p` contributes when clipped at the
/// near plane.
pub open spec fn near_clip_step(s: Vec3, p: Vec3, znear: i32) -> Seq<Vec3> {
    let s_inside = beyond_near_plane(s, znear);
    let p_inside = beyond_near_plane(p, znear);
    if s_inside && p_inside {
        seq![p]
    } else if s_inside && !p_inside {
        seq![spec_near_crossing(s, p, znear)]
    } else if !s_inside && p_inside {
        seq![spec_near_crossing(s, p, znear), p]
    } else {
        Seq::empty()
    }
}

/// What clipping the first `k` edges of `polygon` at the near plane emits.
pub open spec fn near_clip_emitted(polygon: Seq<Vec3>, znear: i32, k: nat) -> Seq<Vec3>
    decreases k,
{
    if k == 0 {
        Seq::empty()
    } else {
        near_clip_emitted(polygon, znear, (k - 1) as nat) + near_clip_step(
            if k == 1 {
                polygon[polygon.len() - 1]
            } else {
                polygon[k - 2]
            },
            polygon[k - 1],
            znear,
        )
    }
}

/// The polygon of view space clipped at the near plane.
pub open spec fn spec_clip_near(polygon: Seq<Vec3>, znear: i32) -> Seq<Vec3> {
    near_clip_emitted(polygon, znear, polygon.len())
}

/// The screen positions of those of the first `k` points that project.
pub open spec fn spec_projected(
    camera: Camera,
    points: Seq<Vec3>,
    screen_width: i32,
    screen_height: i32,
    k: nat,
) -> Seq<Point2>
    decreases k,
{
    if k == 0 {
        Seq::empty()
    } else {
        let before = spec_projected(camera, points, screen_width, screen_height, (k - 1) as nat);
        match spec_project(camera, points[k - 1], screen_width, screen_height) {
            Some(p) => before.push(p),
            None => before,
        }
    }
}

/// The screen region in which `side` is seen through `aperture`, or `None`
/// where nothing of it is seen: the side is not resolvable, or fewer than
/// three points are left after the near plane, after projection or after
/// the intersection with the aperture.
pub open spec fn spec_visible_polygon(
    camera: Camera,
    view: Transform,
    accumulated: Transform,
    aperture: Seq<Point2>,
    blueprint: HullBlueprint,
    side: BlueprintSide,
    screen_width: i32,
    screen_height: i32,
) -> Option<Seq<Point2>> {
    if !side_is_resolvable(blueprint, side) {
        None
    } else {
        let in_view = spec_side_in_camera_space(blueprint, side, accumulated, view);
        let clipped = spec_clip_near(in_view, camera.znear);
        let projected = spec_projected(
            camera,
            clipped,
            screen_width,
            screen_height,
            clipped.len(),
        );
        let visible = spec_intersection(truncated(projected), aperture);
        if clipped.len() < 3 || projected.len() < 3 || visible.len() < 3 {
            None
        } else {
            Some(visible)
        }
    }
}

/// The point where the segment from `s` to `p` meets the near plane.
fn near_crossing(s: &Vec3, p: &Vec3, znear: i32) -> (crossing: Vec3)
    requires
        beyond_near_plane(*s, znear) != beyond_near_plane(*p, znear),
    ensures
        crossing == spec_near_crossing(*s, *p, znear),
{
    let numerator: i128 = (-(znear as i64) - (s.z as i64)) as i128;
    let denominator: i128 = wide_sub(p.z, s.z) as i128;
    Vec3 {
        x: ConvexIntersection::crossing(s.x, wide_sub(p.x, s.x), numerator, denominator),
        y: ConvexIntersection::crossing(s.y, wide_sub(p.y, s.y), numerator, denominator),
        z: saturate(-(znear as i128)),
    }
}

/// Clips a polygon of the camera's view space at the near plane
/// `z = -camera_znear`, so that every point left can be projected.
pub fn clip_polygon_near_plane_3d(polygon_cam_space: &Vec<Vec3>, camera_znear: i32) -> (output_list:
    Vec<Vec3>)
    ensures
        output_list@ == spec_clip_near(polygon_cam_space@, camera_znear),
{
    let mut output_list: Vec<Vec3> = Vec::new();
    let n: usize = polygon_cam_space.len();
    if n == 0 {
        return output_list;
    }
    let ghost polygon = polygon_cam_space@;
    let mut s: Vec3 = polygon_cam_space[n - 1];
    let mut p_idx: usize = 0;
    while p_idx < n
        invariant
            polygon == polygon_cam_space@,
            n == polygon.len(),
            n > 0,
            p_idx <= n,
            p_idx < n ==> s == (if p_idx == 0 {
                polygon[polygon.len() - 1]
            } else {
                polygon[p_idx - 1]
            }),
            output_list@ == near_clip_emitted(polygon, camera_znear, p_idx as nat),
        decreases n - p_idx,
    {
        let p: Vec3 = polygon_cam_space[p_idx];
        let s_is_inside: bool = (s.z as i64) <= -(camera_znear as i64);
        let p_is_inside: bool = (p.z as i64) <= -(camera_znear as i64);
        let ghost before = output_list@;
        let ghost step = near_clip_step(s, p, camera_znear);
        assert(near_clip_emitted(polygon, camera_znear, (p_idx + 1) as nat) == before + step);
        if s_is_inside && p_is_inside {
            output_list.push(p);
        } else if s_is_inside && !p_is_inside {
            output_list.push(near_crossing(&s, &p, camera_znear));
        } else if !s_is_inside && p_is_inside {
            output_list.push(near_crossing(&s, &p, camera_znear));
            output_list.push(p);
        }
        assert(output_list@ =~= before + step);
        s = p;
        p_idx = p_idx + 1;
    }
    output_list
}

/// The vertices of a resolvable side in the camera's view space, or `None`
/// for a side that is not resolvable.
pub fn side_in_camera_space(
    blueprint: &HullBlueprint,
    side: &BlueprintSide,
    accumulated: &Transform,
    view: &Transform,
) -> (in_view: Option<Vec<Vec3>>)
    ensures
        in_view is Some == side_is_resolvable(*blueprint, *side),
        in_view is Some ==> in_view.unwrap()@ == spec_side_in_camera_space(
            *blueprint,
            *side,
            *accumulated,
            *view,
        ),
{
    let n: usize = side.vertex_indices.len();
    if n < 3 {
        return None;
    }
    let mut side_vertices_cam_space: Vec<Vec3> = Vec::new();
    let mut i: usize = 0;
    while i < n
        invariant
            n == side.vertex_indices@.len(),
            n >= 3,
            i <= n,
            side_vertices_cam_space@.len() == i,
            forall|j: int|
                0 <= j < i ==> #[trigger] side.vertex_indices@[j] < blueprint.local_vertices@.len(),
            forall|j: int|
                0 <= j < i ==> side_vertices_cam_space@[j] == view.spec_transform_point3(
                    accumulated.spec_transform_point3(
                        blueprint.local_vertices@[side.vertex_indices@[j] as int],
                    ),
                ),
        decreases n - i,
    {
        let v_idx: usize = side.vertex_indices[i];
        if v_idx >= blueprint.local_vertices.len() {
            return None;
        }
        let p_host_hull_space: Vec3 = accumulated.transform_point3(blueprint.local_vertices[v_idx]);
        side_vertices_cam_space.push(view.transform_point3(p_host_hull_space));
        i = i + 1;
    }
    assert(side_vertices_cam_space@ =~= spec_side_in_camera_space(
        *blueprint,
        *side,
        *accumulated,
        *view,
    ));
    Some(side_vertices_cam_space)
}

/// The screen positions of those of `points` that project, in order.
pub fn project_points(camera: &Camera, points: &Vec<Vec3>, screen_width: i32, screen_height: i32) -> (projected_points_2d:
    Vec<Point2>)
    ensures
        projected_points_2d@ == spec_projected(
            *camera,
            points@,
            screen_width,
            screen_height,
            points@.len(),
        ),
{
    let mut projected_points_2d: Vec<Point2> = Vec::new();
    let mut i: usize = 0;
    while i < points.len()
        invariant
            i <= points@.len(),
            projected_points_2d@ == spec_projected(
                *camera,
                points@,
                screen_width,
                screen_height,
                i as nat,
            ),
        decreases points@.len() - i,
    {
        match camera.project_camera_space_to_screen_direct(&points[i], screen_width, screen_height) {
            Some(p2d) => {
                projected_points_2d.push(p2d);
            },
            None => {},
        }
        i = i + 1;
    }
    projected_points_2d
}

/// The screen region in which `side` is seen through `aperture`.
pub fn visible_polygon(
    camera: &Camera,
    view: &Transform,
    accumulated: &Transform,
    aperture: &ConvexPolygon,
    blueprint: &HullBlueprint,
    side: &BlueprintSide,
    screen_width: i32,
    screen_height: i32,
) -> (visible: Option<ConvexPolygon>)
    ensures
        match visible {
            Some(polygon) => Some(polygon@),
            None => None,
        } == spec_visible_polygon(
            *camera,
            *view,
            *accumulated,
            aperture@,
            *blueprint,
            *side,
            screen_width,
            screen_height,
        ),
{
    let side_vertices_cam_space = match side_in_camera_space(blueprint, side, accumulated, view) {
        Some(vertices) => vertices,
        None => {
            return None;
        },
    };
    let clipped_vertices_cam_space = clip_polygon_near_plane_3d(
        &side_vertices_cam_space,
        camera.znear,
    );
    if clipped_vertices_cam_space.len() < 3 {
        return None;
    }
    let projected_points_2d = project_points(
        camera,
        &clipped_vertices_cam_space,
        screen_width,
        screen_height,
    );
    if projected_points_2d.len() < 3 {
        return None;
    }
    let p_projected_on_screen = ConvexPolygon::from_points(projected_points_2d.as_slice());
    assert(p_projected_on_screen@ =~= truncated(projected_points_2d@));
    let mut final_visible_screen_polygon = ConvexPolygon::new();
    ConvexIntersection::find_intersection_into(
        &p_projected_on_screen,
        aperture,
        &mut final_visible_screen_polygon,
    );
    if final_visible_screen_polygon.count() < 3 {
        return None;
    }
    Some(final_visible_screen_polygon)
}

} // verus!
