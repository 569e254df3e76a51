use convex_polygon_intersection::engine_lib::side_handler::side_faces_away;
use convex_polygon_intersection::engine_lib::side_handler::FrameError;
use convex_polygon_intersection::engine_lib::side_handler::MAX_FRAME_VERTICES;
use convex_polygon_intersection::engine_lib::side_handler::PORTAL_ID_BACK;
use convex_polygon_intersection::engine_lib::side_handler::PORTAL_ID_BOTTOM;
use convex_polygon_intersection::engine_lib::side_handler::PORTAL_ID_FRONT;
use convex_polygon_intersection::engine_lib::side_handler::PORTAL_ID_LEFT;
use convex_polygon_intersection::engine_lib::side_handler::PORTAL_ID_RIGHT;
use convex_polygon_intersection::engine_lib::side_handler::PORTAL_ID_TOP;
use convex_polygon_intersection::engine_lib::BlueprintSide;
use convex_polygon_intersection::engine_lib::Camera;
use convex_polygon_intersection::engine_lib::HandlerConfig;
use convex_polygon_intersection::engine_lib::HullBlueprint;
use convex_polygon_intersection::engine_lib::HullInstance;
use convex_polygon_intersection::engine_lib::Scene;
use convex_polygon_intersection::engine_lib::SideHandlerTypeId;
use convex_polygon_intersection::engine_lib::StandardPortalHandler;
use convex_polygon_intersection::engine_lib::StandardWallHandler;
use convex_polygon_intersection::engine_lib::Transform;
use convex_polygon_intersection::engine_lib::TraversalState;
use convex_polygon_intersection::engine_lib::Vec3;
use convex_polygon_intersection::engine_lib::MAX_PORTAL_RECURSION_DEPTH;
use convex_polygon_intersection::geometry::ConvexPolygon;
use convex_polygon_intersection::geometry::Point2;
use convex_polygon_intersection::rendering_lib::visibility::clip_polygon_near_plane_3d;
use convex_polygon_intersection::rendering_lib::visibility::project_points;
use convex_polygon_intersection::rendering_lib::visibility::side_in_camera_space;
use convex_polygon_intersection::rendering_lib::visibility::visible_polygon;
use convex_polygon_intersection::rendering_lib::Renderer;
use convex_polygon_intersection::rendering_lib::Vertex;
use std::collections::HashMap;
use std::collections::VecDeque;

const ONE: i32 = 65536;
const WIDTH: i32 = 1024 * ONE;
const HEIGHT: i32 = 768 * ONE;

const WHITE: (f64, f64, f64) = (1.0, 1.0, 1.0);
const GREY: (f64, f64, f64) = (0.5, 0.5, 0.5);
const RED: (f64, f64, f64) = (1.0, 0.0, 0.0);
const GREEN: (f64, f64, f64) = (0.0, 1.0, 0.0);
const BLUE: (f64, f64, f64) = (0.3, 0.3, 0.8);
const YELLOW: (f64, f64, f64) = (0.8, 0.8, 0.3);
const ORANGE: (f64, f64, f64) = (0.9, 0.5, 0.2);

fn fx(v: f64) -> i32 {
    (v * 65536.0).round() as i32
}

fn v3(x: f64, y: f64, z: f64) -> Vec3 {
    Vec3::new(fx(x), fx(y), fx(z))
}

fn pt(x: f64, y: f64) -> Point2 {
    Point2::new(fx(x), fx(y))
}

fn color(c: (f64, f64, f64)) -> [i32; 4] {
    [fx(c.0), fx(c.1), fx(c.2), ONE]
}

fn wall(c: (f64, f64, f64)) -> HandlerConfig {
    HandlerConfig::StandardWall { color: color(c), texture_id: None }
}

fn portal_to(target_instance_id: u32, target_portal_id: u32) -> HandlerConfig {
    HandlerConfig::StandardPortal { target_instance_id, target_portal_id }
}

fn side(indices: [usize; 4], normal: Vec3, config: HandlerConfig, portal: u32) -> BlueprintSide {
    BlueprintSide {
        vertex_indices: indices.to_vec(),
        local_normal: normal,
        handler_type: SideHandlerTypeId::StandardWall,
        default_handler_config: config,
        local_portal_id: Some(portal),
    }
}

/// A cube of half size 1.5 round the origin, its normals pointing inward.
fn cuboid() -> HullBlueprint {
    let h = 1.5;
    HullBlueprint {
        id: 0,
        name: "cuboid".to_string(),
        local_vertices: vec![
            v3(-h, -h, -h),
            v3(h, -h, -h),
            v3(h, h, -h),
            v3(-h, h, -h),
            v3(-h, -h, h),
            v3(h, -h, h),
            v3(h, h, h),
            v3(-h, h, h),
        ],
        sides: vec![
            side([4, 5, 6, 7], v3(0.0, 0.0, -1.0), wall(BLUE), PORTAL_ID_FRONT),
            side([1, 0, 3, 2], v3(0.0, 0.0, 1.0), wall(YELLOW), PORTAL_ID_BACK),
            side([0, 4, 7, 3], v3(1.0, 0.0, 0.0), wall(WHITE), PORTAL_ID_LEFT),
            side([5, 1, 2, 6], v3(-1.0, 0.0, 0.0), wall(GREY), PORTAL_ID_RIGHT),
            side([7, 6, 2, 3], v3(0.0, -1.0, 0.0), wall(RED), PORTAL_ID_TOP),
            side([0, 1, 5, 4], v3(0.0, 1.0, 0.0), wall(GREEN), PORTAL_ID_BOTTOM),
        ],
    }
}

fn instance(id: u32, configs: Vec<(usize, HandlerConfig)>) -> HullInstance {
    HullInstance {
        id,
        name: format!("room{}", id),
        blueprint_id: 0,
        initial_transform: None,
        portal_connections: HashMap::new(),
        instance_side_handler_configs: configs.into_iter().collect(),
    }
}

/// The turn by half a circle round the y axis: the camera looks along +z.
fn facing_front() -> Transform {
    Transform {
        x_axis: Vec3::new(-ONE, 0, 0),
        y_axis: Vec3::new(0, ONE, 0),
        z_axis: Vec3::new(0, 0, -ONE),
        translation: Vec3::zero(),
    }
}

fn scene_of(instances: Vec<HullInstance>) -> Scene {
    let mut blueprints = HashMap::new();
    blueprints.insert(0, cuboid());
    Scene {
        blueprints,
        instances: instances.into_iter().map(|i| (i.id, i)).collect(),
        active_camera_instance_id: 0,
        active_camera_local_transform: Transform {
            translation: v3(0.0, 0.0, -1.0),
            ..facing_front()
        },
    }
}

/// Two rooms: the front face of room 0 is a portal to the back face of
/// room 1, and that back face a portal to the front face of room 0. The
/// front wall of room 1 is orange.
fn two_rooms() -> Scene {
    scene_of(vec![
        instance(0, vec![(0, portal_to(1, PORTAL_ID_BACK))]),
        instance(1, vec![(1, portal_to(0, PORTAL_ID_FRONT)), (0, wall(ORANGE))]),
    ])
}

/// A camera with a vertical field of view of a right angle.
fn camera() -> Camera {
    Camera::new(ONE, fx(0.1), fx(100.0))
}

/// The first index of each fan of the frame, in order.
fn fans(indices: &[u16]) -> Vec<u16> {
    let mut starts = Vec::new();
    for triangle in indices.chunks(3) {
        if triangle[1] == triangle[0] + 1 {
            starts.push(triangle[0]);
        }
    }
    starts
}

/// The number of fans of the frame in the given colour.
fn fans_in(renderer: &Renderer, c: (f64, f64, f64)) -> usize {
    fans(&renderer.frame_indices)
        .iter()
        .filter(|s| renderer.frame_vertices[**s as usize].color == color(c))
        .count()
}

fn pixels(v: &Vertex) -> (f64, f64) {
    (v.position[0] as f64 / 65536.0, v.position[1] as f64 / 65536.0)
}

fn frame_is_sound(renderer: &Renderer) {
    assert_eq!(renderer.frame_indices.len() % 3, 0);
    for index in &renderer.frame_indices {
        assert!((*index as usize) < renderer.frame_vertices.len());
    }
    for v in &renderer.frame_vertices {
        let (x, y) = pixels(v);
        assert!(x >= -0.01 && x <= 1024.01 && y >= -0.01 && y <= 768.01);
    }
}

#[test]
fn vertex_new_keeps_position_and_colour() {
    let v = Vertex::new([1, 2], [3, 4, 5, 6]);
    assert_eq!(v.position, [1, 2]);
    assert_eq!(v.color, [3, 4, 5, 6]);
}

#[test]
fn camera_new_keeps_its_parameters() {
    let c = Camera::new(85408, 6554, 6553600);
    assert_eq!((c.focal_length_y, c.znear, c.zfar), (85408, 6554, 6553600));
}

#[test]
fn view_matrix_is_the_inverse_of_the_pose() {
    let pose = Transform { translation: v3(0.0, 0.0, -1.0), ..facing_front() };
    let view = camera().get_view_matrix_from_host_hull(&pose).unwrap();
    assert_eq!(view, Transform { translation: v3(0.0, 0.0, -1.0), ..facing_front() });
    assert_eq!(view.transform_point3(v3(0.0, 0.0, -1.0)), Vec3::zero());
    assert_eq!(view.transform_point3(v3(1.0, 2.0, 3.0)), v3(-1.0, 2.0, -4.0));
    let flat = Transform {
        x_axis: Vec3::zero(),
        y_axis: Vec3::zero(),
        z_axis: Vec3::zero(),
        translation: Vec3::zero(),
    };
    assert_eq!(camera().get_view_matrix_from_host_hull(&flat), None);
}

#[test]
fn point_on_the_axis_projects_to_the_screen_centre() {
    let p = camera().project_camera_space_to_screen_direct(&v3(0.0, 0.0, -1.0), WIDTH, HEIGHT);
    assert_eq!(p, Some(pt(512.0, 384.0)));
}

#[test]
fn projection_divides_by_the_depth() {
    // the horizontal focal length is 1 * 768 / 1024 = 0.75;
    // x: 1 * 0.75 / 2 = 0.375, (0.375 + 1) * 512 = 704
    // y: 1 * 1 / 2 = 0.5, (1 - 0.5) * 384 = 192
    let p = camera().project_camera_space_to_screen_direct(&v3(1.0, 1.0, -2.0), WIDTH, HEIGHT);
    assert_eq!(p, Some(pt(704.0, 192.0)));
    let q = camera().project_camera_space_to_screen_direct(&v3(-1.0, -1.0, -2.0), WIDTH, HEIGHT);
    assert_eq!(q, Some(pt(320.0, 576.0)));
}

#[test]
fn projection_uses_the_focal_length() {
    // a field of view of 75 degrees: the focal length is 1.3032
    let narrow = Camera::new(85408, fx(0.1), fx(100.0));
    let p = narrow
        .project_camera_space_to_screen_direct(&v3(1.0, 1.0, -2.0), WIDTH, HEIGHT)
        .unwrap();
    let x = p.x as f64 / 65536.0;
    let y = p.y as f64 / 65536.0;
    let f = 1.0 / (75.0f64.to_radians() / 2.0).tan();
    assert!((x - (1.0 * f * 0.75 / 2.0 + 1.0) * 512.0).abs() < 0.05);
    assert!((y - (1.0 - 1.0 * f / 2.0) * 384.0).abs() < 0.05);
}

#[test]
fn projection_rounds_down() {
    // 0.75 / 7 is 7021.71 steps
    let p = camera().project_camera_space_to_screen_direct(&v3(1.0, 0.0, -7.0), WIDTH, HEIGHT);
    assert_eq!(p, Some(Point2::new((7021 + 65536) * 512, 384 * ONE)));
    let q = camera().project_camera_space_to_screen_direct(&v3(-1.0, 0.0, -7.0), WIDTH, HEIGHT);
    assert_eq!(q, Some(Point2::new((65536 - 7022) * 512, 384 * ONE)));
}

#[test]
fn projection_saturates() {
    // one step in front of the camera, far to the side
    let c = Camera::new(ONE, 1, fx(100.0));
    let p = c.project_camera_space_to_screen_direct(&Vec3::new(i32::MAX, i32::MIN, -1), WIDTH, HEIGHT);
    assert_eq!(p, Some(Point2::new(i32::MAX, i32::MAX)));
}

#[test]
fn point_nearer_than_the_near_plane_does_not_project() {
    let c = camera();
    let on = Vec3::new(0, 0, -c.znear);
    assert_eq!(c.project_camera_space_to_screen_direct(&on, WIDTH, HEIGHT), Some(pt(512.0, 384.0)));
    let nearer = Vec3::new(0, 0, -c.znear + 1);
    assert_eq!(c.project_camera_space_to_screen_direct(&nearer, WIDTH, HEIGHT), None);
    assert_eq!(c.project_camera_space_to_screen_direct(&v3(0.0, 0.0, 1.0), WIDTH, HEIGHT), None);
}

#[test]
fn point_farther_than_the_far_plane_does_not_project() {
    let c = camera();
    let on = Vec3::new(0, 0, -c.zfar);
    assert_eq!(c.project_camera_space_to_screen_direct(&on, WIDTH, HEIGHT), Some(pt(512.0, 384.0)));
    let farther = Vec3::new(0, 0, -c.zfar - 1);
    assert_eq!(c.project_camera_space_to_screen_direct(&farther, WIDTH, HEIGHT), None);
}

#[test]
fn point_at_the_camera_does_not_project() {
    // a near plane behind the camera lets no point at or behind it through
    let c = Camera::new(ONE, -ONE, fx(100.0));
    assert_eq!(c.project_camera_space_to_screen_direct(&Vec3::zero(), WIDTH, HEIGHT), None);
    assert_eq!(c.project_camera_space_to_screen_direct(&v3(0.0, 0.0, 0.5), WIDTH, HEIGHT), None);
    assert!(c.project_camera_space_to_screen_direct(&Vec3::new(0, 0, -1), WIDTH, HEIGHT).is_some());
}

#[test]
fn screen_without_extent_shows_nothing() {
    let p = v3(0.0, 0.0, -1.0);
    assert_eq!(camera().project_camera_space_to_screen_direct(&p, 0, HEIGHT), None);
    assert_eq!(camera().project_camera_space_to_screen_direct(&p, WIDTH, 0), None);
    assert_eq!(camera().project_camera_space_to_screen_direct(&p, -WIDTH, HEIGHT), None);
    assert_eq!(camera().project_camera_space_to_screen_direct(&p, WIDTH, -1), None);
}

#[test]
fn near_clip_keeps_a_polygon_in_front() {
    let polygon = vec![v3(-1.0, 0.0, -1.0), v3(1.0, 0.0, -2.0), v3(0.0, 1.0, -3.0)];
    assert_eq!(clip_polygon_near_plane_3d(&polygon, fx(0.5)), polygon);
    // a point on the near plane is in front
    let on = vec![v3(-1.0, 0.0, -0.5), v3(1.0, 0.0, -0.5), v3(0.0, 1.0, -0.5)];
    assert_eq!(clip_polygon_near_plane_3d(&on, fx(0.5)), on);
}

#[test]
fn near_clip_drops_a_polygon_behind() {
    let polygon = vec![v3(-1.0, 0.0, 1.0), v3(1.0, 0.0, 2.0), v3(0.0, 1.0, 0.0)];
    assert_eq!(clip_polygon_near_plane_3d(&polygon, fx(0.5)), Vec::<Vec3>::new());
    assert_eq!(clip_polygon_near_plane_3d(&Vec::new(), fx(0.5)), Vec::<Vec3>::new());
}

#[test]
fn near_clip_cuts_a_polygon_that_crosses() {
    let polygon = vec![v3(-1.0, 0.0, -1.0), v3(1.0, 0.0, 1.0), v3(1.0, 2.0, -1.0)];
    assert_eq!(
        clip_polygon_near_plane_3d(&polygon, fx(0.5)),
        vec![
            v3(-1.0, 0.0, -1.0),
            v3(-0.5, 0.0, -0.5),
            v3(1.0, 1.5, -0.5),
            v3(1.0, 2.0, -1.0),
        ]
    );
}

#[test]
fn near_clip_rounds_down() {
    // the edge from z = -2 to z = 1 crosses z = -1 a third of the way
    let polygon = vec![Vec3::new(0, 0, -2), Vec3::new(1, -1, 1), Vec3::new(0, 5, -2)];
    let clipped = clip_polygon_near_plane_3d(&polygon, 1);
    assert_eq!(clipped[0], Vec3::new(0, 0, -2));
    assert_eq!(clipped[1], Vec3::new(0, -1, -1));
    // back from (1, -1, 1) to (0, 5, -2): two thirds of the way
    assert_eq!(clipped[2], Vec3::new(0, 3, -1));
    assert_eq!(clipped[3], Vec3::new(0, 5, -2));
    assert_eq!(clipped.len(), 4);
}

#[test]
fn side_in_camera_space_transforms_each_vertex() {
    let blueprint = cuboid();
    let accumulated = Transform::from_translation(v3(0.0, 0.0, 3.0));
    let view = Transform { translation: v3(0.0, 0.0, -1.0), ..facing_front() };
    let in_view = side_in_camera_space(&blueprint, &blueprint.sides[0], &accumulated, &view);
    assert_eq!(
        in_view,
        Some(vec![
            v3(1.5, -1.5, -5.5),
            v3(-1.5, -1.5, -5.5),
            v3(-1.5, 1.5, -5.5),
            v3(1.5, 1.5, -5.5),
        ])
    );
}

#[test]
fn side_that_is_not_resolvable_has_no_vertices() {
    let mut blueprint = cuboid();
    blueprint.sides[0].vertex_indices = vec![4, 5];
    blueprint.sides[1].vertex_indices = vec![1, 0, 8, 2];
    blueprint.sides[2].vertex_indices = vec![];
    let id = Transform::identity();
    for i in 0..3 {
        assert_eq!(side_in_camera_space(&blueprint, &blueprint.sides[i], &id, &id), None);
    }
    assert!(side_in_camera_space(&blueprint, &blueprint.sides[3], &id, &id).is_some());
}

#[test]
fn project_points_skips_what_does_not_project() {
    let points = vec![v3(0.0, 0.0, -1.0), v3(0.0, 0.0, 1.0), v3(1.0, 1.0, -2.0)];
    assert_eq!(
        project_points(&camera(), &points, WIDTH, HEIGHT),
        vec![pt(512.0, 384.0), pt(704.0, 192.0)]
    );
    assert_eq!(project_points(&camera(), &Vec::new(), WIDTH, HEIGHT), Vec::<Point2>::new());
}

fn viewport() -> ConvexPolygon {
    ConvexPolygon::from_points(&[pt(0.0, 0.0), pt(1024.0, 0.0), pt(1024.0, 768.0), pt(0.0, 768.0)])
}

#[test]
fn visible_polygon_of_a_wall_in_view() {
    // the front face of the cube, seen from its centre: depth 1.5,
    // x within 0.75 * 1.5 / 1.5 of the axis, y within 1.5 / 1.5 of it
    let blueprint = cuboid();
    let view = facing_front();
    let seen = visible_polygon(
        &camera(),
        &view,
        &Transform::identity(),
        &viewport(),
        &blueprint,
        &blueprint.sides[0],
        WIDTH,
        HEIGHT,
    )
    .unwrap();
    assert_eq!(
        seen.vertices(),
        &[pt(896.0, 768.0), pt(128.0, 768.0), pt(128.0, 0.0), pt(896.0, 0.0)]
    );
}

#[test]
fn visible_polygon_is_cut_by_the_aperture() {
    let blueprint = cuboid();
    let view = facing_front();
    let aperture = ConvexPolygon::from_points(&[
        pt(0.0, 0.0),
        pt(512.0, 0.0),
        pt(512.0, 384.0),
        pt(0.0, 384.0),
    ]);
    let seen = visible_polygon(
        &camera(),
        &view,
        &Transform::identity(),
        &aperture,
        &blueprint,
        &blueprint.sides[0],
        WIDTH,
        HEIGHT,
    )
    .unwrap();
    assert_eq!(seen.count(), 4);
    assert_eq!(seen.area(), 384i64 * 384 * 65536);
}

#[test]
fn visible_polygon_of_a_wall_behind_the_camera_is_none() {
    let blueprint = cuboid();
    let seen = visible_polygon(
        &camera(),
        &facing_front(),
        &Transform::identity(),
        &viewport(),
        &blueprint,
        &blueprint.sides[1],
        WIDTH,
        HEIGHT,
    );
    assert!(seen.is_none());
}

#[test]
fn visible_polygon_outside_the_aperture_is_none() {
    let blueprint = cuboid();
    let aperture = ConvexPolygon::from_points(&[
        pt(0.0, 0.0),
        pt(100.0, 0.0),
        pt(100.0, 100.0),
        pt(0.0, 100.0),
    ]);
    // the wall is seen in x from 128 on
    let seen = visible_polygon(
        &camera(),
        &facing_front(),
        &Transform::identity(),
        &aperture,
        &blueprint,
        &blueprint.sides[0],
        WIDTH,
        HEIGHT,
    );
    assert!(seen.is_none());
    let degenerate = ConvexPolygon::from_points(&[pt(0.0, 0.0), pt(100.0, 0.0)]);
    // an aperture of fewer than three vertices restricts nothing
    assert!(visible_polygon(
        &camera(),
        &facing_front(),
        &Transform::identity(),
        &degenerate,
        &blueprint,
        &blueprint.sides[0],
        WIDTH,
        HEIGHT,
    )
    .is_some());
}

#[test]
fn visible_polygon_of_an_unresolvable_side_is_none() {
    let mut blueprint = cuboid();
    blueprint.sides[0].vertex_indices = vec![4, 5, 60, 7];
    let seen = visible_polygon(
        &camera(),
        &facing_front(),
        &Transform::identity(),
        &viewport(),
        &blueprint,
        &blueprint.sides[0],
        WIDTH,
        HEIGHT,
    );
    assert!(seen.is_none());
}

#[test]
fn side_faces_away_when_the_camera_is_behind_it() {
    let view = Transform { translation: v3(0.0, 0.0, -1.0), ..facing_front() };
    let id = Transform::identity();
    let blueprint = cuboid();
    // from inside the cube no side faces away
    for s in &blueprint.sides {
        let origin = blueprint.local_vertices[s.vertex_indices[0]];
        assert!(!side_faces_away(&s.local_normal, &origin, &id, &view));
    }
    // the back face of the next room lies in front of the camera and its
    // inward normal points along the view
    let next = Transform::from_translation(v3(0.0, 0.0, 3.0));
    let back = &blueprint.sides[1];
    let origin = blueprint.local_vertices[back.vertex_indices[0]];
    assert!(side_faces_away(&back.local_normal, &origin, &next, &view));
    let front = &blueprint.sides[0];
    let origin = blueprint.local_vertices[front.vertex_indices[0]];
    assert!(!side_faces_away(&front.local_normal, &origin, &next, &view));
}

#[test]
fn side_in_the_plane_of_the_camera_does_not_face_away() {
    // the camera lies in the plane of the side
    let normal = v3(0.0, 0.0, 1.0);
    let id = Transform::identity();
    assert!(!side_faces_away(&normal, &v3(3.0, 4.0, 0.0), &id, &id));
    // a normal without direction decides nothing
    assert!(!side_faces_away(&Vec3::zero(), &v3(3.0, 4.0, 5.0), &id, &id));
    assert!(side_faces_away(&normal, &v3(3.0, 4.0, 5.0), &id, &id));
    assert!(!side_faces_away(&normal, &v3(3.0, 4.0, -5.0), &id, &id));
}

#[test]
fn wall_handler_fans_a_square() {
    let square = ConvexPolygon::from_points(&[pt(0.0, 0.0), pt(4.0, 0.0), pt(4.0, 4.0), pt(0.0, 4.0)]);
    let mut vertices = vec![Vertex::new([9, 9], [1, 1, 1, 1]), Vertex::new([8, 8], [2, 2, 2, 2])];
    let mut indices = vec![0u16, 1, 0];
    let result = StandardWallHandler.process_render(&wall(ORANGE), &square, &mut vertices, &mut indices);
    assert_eq!(result, Ok(()));
    assert_eq!(
        vertices,
        vec![
            Vertex::new([9, 9], [1, 1, 1, 1]),
            Vertex::new([8, 8], [2, 2, 2, 2]),
            Vertex::new([0, 0], color(ORANGE)),
            Vertex::new([4 * ONE, 0], color(ORANGE)),
            Vertex::new([4 * ONE, 4 * ONE], color(ORANGE)),
            Vertex::new([0, 4 * ONE], color(ORANGE)),
        ]
    );
    assert_eq!(indices, vec![0, 1, 0, 2, 3, 4, 2, 4, 5]);
}

#[test]
fn wall_handler_fans_a_full_polygon() {
    let points: Vec<Point2> = (0..16).map(|i| Point2::new(i, i * i)).collect();
    let polygon = ConvexPolygon::from_points(&points);
    let mut vertices = Vec::new();
    let mut indices = Vec::new();
    let result = StandardWallHandler.process_render(&wall(RED), &polygon, &mut vertices, &mut indices);
    assert_eq!(result, Ok(()));
    assert_eq!(vertices.len(), 16);
    assert_eq!(indices.len(), 14 * 3);
    for t in 0..14u16 {
        assert_eq!(&indices[3 * t as usize..3 * t as usize + 3], &[0, t + 1, t + 2]);
    }
    for (v, p) in vertices.iter().zip(&points) {
        assert_eq!(*v, Vertex::new([p.x, p.y], color(RED)));
    }
}

#[test]
fn wall_handler_adds_a_triangle() {
    let triangle = ConvexPolygon::from_points(&[pt(0.0, 0.0), pt(4.0, 0.0), pt(4.0, 4.0)]);
    let mut vertices = Vec::new();
    let mut indices = Vec::new();
    let result = StandardWallHandler.process_render(&wall(RED), &triangle, &mut vertices, &mut indices);
    assert_eq!(result, Ok(()));
    assert_eq!(vertices.len(), 3);
    assert_eq!(indices, vec![0, 1, 2]);
}

#[test]
fn wall_handler_adds_nothing_for_fewer_than_three_points() {
    let segment = ConvexPolygon::from_points(&[pt(0.0, 0.0), pt(4.0, 0.0)]);
    let mut vertices = vec![Vertex::new([9, 9], [1, 1, 1, 1])];
    let mut indices = vec![0u16, 0, 0];
    let result = StandardWallHandler.process_render(&wall(RED), &segment, &mut vertices, &mut indices);
    assert_eq!(result, Ok(()));
    assert_eq!(vertices.len(), 1);
    assert_eq!(indices, vec![0, 0, 0]);
    let nothing = ConvexPolygon::new();
    assert_eq!(
        StandardWallHandler.process_render(&wall(RED), &nothing, &mut vertices, &mut indices),
        Ok(())
    );
    assert_eq!(vertices.len(), 1);
}

#[test]
fn wall_handler_paints_grey_without_a_wall_colour() {
    let triangle = ConvexPolygon::from_points(&[pt(0.0, 0.0), pt(4.0, 0.0), pt(4.0, 4.0)]);
    for config in [HandlerConfig::Unconfigured, portal_to(1, 1)] {
        let mut vertices = Vec::new();
        let mut indices = Vec::new();
        let result = StandardWallHandler.process_render(&config, &triangle, &mut vertices, &mut indices);
        assert_eq!(result, Ok(()));
        // 0.7 is 45875.2 steps
        assert_eq!(vertices[0].color, [45875, 45875, 45875, 65536]);
    }
}

#[test]
fn wall_handler_fails_when_the_indices_run_out() {
    let square = ConvexPolygon::from_points(&[pt(0.0, 0.0), pt(4.0, 0.0), pt(4.0, 4.0), pt(0.0, 4.0)]);
    assert_eq!(MAX_FRAME_VERTICES, 65536);
    // room for exactly four more vertices
    let mut vertices = vec![Vertex::new([0, 0], [0, 0, 0, 0]); 65532];
    let mut indices = vec![7u16];
    let fits = StandardWallHandler.process_render(&wall(RED), &square, &mut vertices, &mut indices);
    assert_eq!(fits, Ok(()));
    assert_eq!(vertices.len(), 65536);
    assert_eq!(indices, vec![7, 65532, 65533, 65534, 65532, 65534, 65535]);
    // and for none after that
    let full = StandardWallHandler.process_render(&wall(RED), &square, &mut vertices, &mut indices);
    assert_eq!(full, Err(FrameError::IndexOverflow));
    assert_eq!(vertices.len(), 65536);
    assert_eq!(indices.len(), 7);
    // room for three is not room for four
    let mut vertices = vec![Vertex::new([0, 0], [0, 0, 0, 0]); 65533];
    let mut indices = Vec::new();
    let short = StandardWallHandler.process_render(&wall(RED), &square, &mut vertices, &mut indices);
    assert_eq!(short, Err(FrameError::IndexOverflow));
    assert_eq!(vertices.len(), 65533);
    assert!(indices.is_empty());
}

fn run_portal(
    scene: &Scene,
    blueprint: &HullBlueprint,
    side_index: usize,
    config: &HandlerConfig,
    depth: u32,
) -> VecDeque<TraversalState> {
    let view = Transform { translation: v3(0.0, 0.0, -1.0), ..facing_front() };
    let visible = ConvexPolygon::from_points(&[pt(1.0, 1.0), pt(5.0, 1.0), pt(5.0, 5.0)]);
    let mut queue = VecDeque::new();
    StandardPortalHandler.process_render(
        scene,
        blueprint,
        &blueprint.sides[side_index],
        config,
        &Transform::from_translation(v3(1.0, 0.0, 0.0)),
        &view,
        &visible,
        depth,
        &mut queue,
    );
    queue
}

#[test]
fn portal_handler_queues_the_room_behind() {
    let scene = two_rooms();
    let blueprint = cuboid();
    let queue = run_portal(&scene, &blueprint, 0, &portal_to(1, PORTAL_ID_BACK), 3);
    assert_eq!(queue.len(), 1);
    let state = &queue[0];
    assert_eq!(state.current_instance_id, 1);
    assert_eq!(state.recursion_depth, 4);
    assert_eq!(state.accumulated_transform, Transform::from_translation(v3(1.0, 0.0, 3.0)));
    assert_eq!(
        state.screen_space_clip_polygon.vertices(),
        &[pt(1.0, 1.0), pt(5.0, 1.0), pt(5.0, 5.0)]
    );
}

#[test]
fn portal_handler_appends_to_the_queue() {
    let scene = two_rooms();
    let blueprint = cuboid();
    let view = Transform { translation: v3(0.0, 0.0, -1.0), ..facing_front() };
    let visible = ConvexPolygon::from_points(&[pt(1.0, 1.0), pt(5.0, 1.0), pt(5.0, 5.0)]);
    let mut queue = VecDeque::new();
    for depth in [0, 1] {
        StandardPortalHandler.process_render(
            &scene,
            &blueprint,
            &blueprint.sides[0],
            &portal_to(1, PORTAL_ID_BACK),
            &Transform::identity(),
            &view,
            &visible,
            depth,
            &mut queue,
        );
    }
    assert_eq!(queue.len(), 2);
    assert_eq!(queue[0].recursion_depth, 1);
    assert_eq!(queue[1].recursion_depth, 2);
}

#[test]
fn portal_handler_stops_at_the_recursion_depth() {
    let scene = two_rooms();
    let blueprint = cuboid();
    assert_eq!(MAX_PORTAL_RECURSION_DEPTH, 10);
    let last = run_portal(&scene, &blueprint, 0, &portal_to(1, PORTAL_ID_BACK), 9);
    assert_eq!(last.len(), 1);
    assert_eq!(last[0].recursion_depth, 10);
    assert!(run_portal(&scene, &blueprint, 0, &portal_to(1, PORTAL_ID_BACK), 10).is_empty());
    assert!(run_portal(&scene, &blueprint, 0, &portal_to(1, PORTAL_ID_BACK), u32::MAX).is_empty());
}

#[test]
fn portal_handler_skips_a_target_that_is_missing() {
    let scene = two_rooms();
    let blueprint = cuboid();
    assert!(run_portal(&scene, &blueprint, 0, &portal_to(7, PORTAL_ID_BACK), 0).is_empty());
}

#[test]
fn portal_handler_skips_a_side_that_is_no_portal() {
    let scene = two_rooms();
    let mut blueprint = cuboid();
    assert!(run_portal(&scene, &blueprint, 0, &wall(RED), 0).is_empty());
    assert!(run_portal(&scene, &blueprint, 0, &HandlerConfig::Unconfigured, 0).is_empty());
    blueprint.sides[0].local_portal_id = None;
    assert!(run_portal(&scene, &blueprint, 0, &portal_to(1, PORTAL_ID_BACK), 0).is_empty());
}

#[test]
fn portal_handler_skips_a_side_without_a_plane() {
    let scene = two_rooms();
    let mut blueprint = cuboid();
    blueprint.sides[0].vertex_indices = vec![];
    assert!(run_portal(&scene, &blueprint, 0, &portal_to(1, PORTAL_ID_BACK), 0).is_empty());
    blueprint.sides[0].vertex_indices = vec![44, 5, 6, 7];
    assert!(run_portal(&scene, &blueprint, 0, &portal_to(1, PORTAL_ID_BACK), 0).is_empty());
}

#[test]
fn portal_handler_skips_a_side_that_faces_away() {
    let scene = two_rooms();
    let blueprint = cuboid();
    // the back face, seen from in front of it
    let view = Transform { translation: v3(0.0, 0.0, -1.0), ..facing_front() };
    let visible = ConvexPolygon::from_points(&[pt(1.0, 1.0), pt(5.0, 1.0), pt(5.0, 5.0)]);
    let mut queue = VecDeque::new();
    StandardPortalHandler.process_render(
        &scene,
        &blueprint,
        &blueprint.sides[1],
        &portal_to(1, PORTAL_ID_FRONT),
        &Transform::from_translation(v3(0.0, 0.0, 3.0)),
        &view,
        &visible,
        0,
        &mut queue,
    );
    assert!(queue.is_empty());
}

#[test]
fn new_renderer_has_an_empty_frame() {
    let renderer = Renderer::new();
    assert!(renderer.frame_vertices.is_empty());
    assert!(renderer.frame_indices.is_empty());
}

#[test]
fn room_behind_a_portal_is_seen_through_it() {
    let scene = two_rooms();
    let mut renderer = Renderer::new();
    assert_eq!(renderer.render_scene(&scene, &camera(), WIDTH, HEIGHT), Ok(()));
    frame_is_sound(&renderer);
    // the far wall of the second room: four vertices, two triangles
    let orange: Vec<&Vertex> =
        renderer.frame_vertices.iter().filter(|v| v.color == color(ORANGE)).collect();
    assert_eq!(orange.len(), 4);
    assert_eq!(fans_in(&renderer, ORANGE), 1);
    // at depth 5.5 the wall is seen 1.5 * 0.75 / 5.5 of the half width and
    // 1.5 / 5.5 of the half height from the centre
    let dx = 1.5 * 0.75 / 5.5 * 512.0;
    let dy = 1.5 / 5.5 * 384.0;
    for v in &orange {
        let (x, y) = pixels(v);
        assert!(((x - 512.0).abs() - dx).abs() < 0.01);
        assert!(((y - 384.0).abs() - dy).abs() < 0.01);
    }
    // the portal itself is not painted, in the colour of the side that it
    // replaces or any other: the walls round it are all that room 0 adds
    assert_eq!(fans_in(&renderer, BLUE), 0);
    assert_eq!(fans_in(&renderer, YELLOW), 0);
    // the side walls of both rooms
    for c in [WHITE, GREY, RED, GREEN] {
        assert_eq!(fans_in(&renderer, c), 2);
    }
    assert_eq!(fans(&renderer.frame_indices).len(), 9);
}

#[test]
fn rooms_are_painted_breadth_first() {
    let scene = two_rooms();
    let mut renderer = Renderer::new();
    assert_eq!(renderer.render_scene(&scene, &camera(), WIDTH, HEIGHT), Ok(()));
    let colours: Vec<[i32; 4]> = fans(&renderer.frame_indices)
        .iter()
        .map(|s| renderer.frame_vertices[*s as usize].color)
        .collect();
    // room 0 in the order of its sides, then room 1 in the order of its
    assert_eq!(
        colours,
        vec![
            color(WHITE),
            color(GREY),
            color(RED),
            color(GREEN),
            color(ORANGE),
            color(WHITE),
            color(GREY),
            color(RED),
            color(GREEN),
        ]
    );
}

#[test]
fn portal_without_a_room_behind_shows_nothing() {
    let scene = scene_of(vec![instance(0, vec![(0, portal_to(5, PORTAL_ID_BACK))])]);
    let mut renderer = Renderer::new();
    assert_eq!(renderer.render_scene(&scene, &camera(), WIDTH, HEIGHT), Ok(()));
    frame_is_sound(&renderer);
    assert_eq!(fans(&renderer.frame_indices).len(), 4);
    assert_eq!(fans_in(&renderer, BLUE), 0);
}

#[test]
fn room_without_portals_shows_its_walls() {
    let scene = scene_of(vec![instance(0, vec![])]);
    let mut renderer = Renderer::new();
    assert_eq!(renderer.render_scene(&scene, &camera(), WIDTH, HEIGHT), Ok(()));
    frame_is_sound(&renderer);
    // the wall behind the camera is not seen
    assert_eq!(fans_in(&renderer, YELLOW), 0);
    for c in [BLUE, WHITE, GREY, RED, GREEN] {
        assert_eq!(fans_in(&renderer, c), 1);
    }
    // the front wall, at depth 2.5
    let blue: Vec<(f64, f64)> = renderer
        .frame_vertices
        .iter()
        .filter(|v| v.color == color(BLUE))
        .map(pixels)
        .collect();
    assert_eq!(blue.len(), 4);
    for (x, y) in blue {
        assert!(((x - 512.0).abs() - 230.4).abs() < 0.01);
        assert!(((y - 384.0).abs() - 230.4).abs() < 0.01);
    }
}

#[test]
fn rooms_that_see_each_other_are_followed_to_the_recursion_depth() {
    // the front of each room leads to the back of the other: the camera
    // looks down an endless corridor
    let scene = scene_of(vec![
        instance(0, vec![(0, portal_to(1, PORTAL_ID_BACK))]),
        instance(1, vec![(0, portal_to(0, PORTAL_ID_BACK))]),
    ]);
    let mut renderer = Renderer::new();
    assert_eq!(renderer.render_scene(&scene, &camera(), WIDTH, HEIGHT), Ok(()));
    frame_is_sound(&renderer);
    // the room of the camera and one room for each portal crossed
    let rooms = MAX_PORTAL_RECURSION_DEPTH as usize + 1;
    for c in [WHITE, GREY, RED, GREEN] {
        assert_eq!(fans_in(&renderer, c), rooms);
    }
    assert_eq!(fans_in(&renderer, BLUE), 0);
    assert_eq!(fans_in(&renderer, YELLOW), 0);
    assert_eq!(fans(&renderer.frame_indices).len(), 4 * rooms);
}

#[test]
fn room_that_sees_itself_is_followed_to_the_recursion_depth() {
    let scene = scene_of(vec![instance(0, vec![(0, portal_to(0, PORTAL_ID_BACK))])]);
    let mut renderer = Renderer::new();
    assert_eq!(renderer.render_scene(&scene, &camera(), WIDTH, HEIGHT), Ok(()));
    frame_is_sound(&renderer);
    assert_eq!(fans_in(&renderer, WHITE), MAX_PORTAL_RECURSION_DEPTH as usize + 1);
}

#[test]
fn scene_without_the_camera_host_gives_an_empty_frame() {
    let mut scene = two_rooms();
    scene.active_camera_instance_id = 9;
    let mut renderer = Renderer::new();
    assert_eq!(renderer.render_scene(&two_rooms(), &camera(), WIDTH, HEIGHT), Ok(()));
    assert!(!renderer.frame_vertices.is_empty());
    // the frame before is not kept
    assert_eq!(renderer.render_scene(&scene, &camera(), WIDTH, HEIGHT), Ok(()));
    assert!(renderer.frame_vertices.is_empty());
    assert!(renderer.frame_indices.is_empty());
}

#[test]
fn scene_without_blueprints_gives_an_empty_frame() {
    let mut scene = two_rooms();
    scene.blueprints.clear();
    let mut renderer = Renderer::new();
    assert_eq!(renderer.render_scene(&scene, &camera(), WIDTH, HEIGHT), Ok(()));
    assert!(renderer.frame_vertices.is_empty());
}

#[test]
fn camera_pose_without_inverse_gives_an_empty_frame() {
    let mut scene = two_rooms();
    scene.active_camera_local_transform.x_axis = Vec3::zero();
    let mut renderer = Renderer::new();
    assert_eq!(renderer.render_scene(&scene, &camera(), WIDTH, HEIGHT), Ok(()));
    assert!(renderer.frame_vertices.is_empty());
    assert!(renderer.frame_indices.is_empty());
}

#[test]
fn screen_without_extent_gives_an_empty_frame() {
    let mut renderer = Renderer::new();
    assert_eq!(renderer.render_scene(&two_rooms(), &camera(), 0, HEIGHT), Ok(()));
    assert!(renderer.frame_vertices.is_empty());
    assert_eq!(renderer.render_scene(&two_rooms(), &camera(), WIDTH, 0), Ok(()));
    assert!(renderer.frame_vertices.is_empty());
}

#[test]
fn frame_is_built_anew_each_time() {
    let scene = two_rooms();
    let mut renderer = Renderer::new();
    assert_eq!(renderer.render_scene(&scene, &camera(), WIDTH, HEIGHT), Ok(()));
    let vertices = renderer.frame_vertices.clone();
    let indices = renderer.frame_indices.clone();
    assert_eq!(renderer.render_scene(&scene, &camera(), WIDTH, HEIGHT), Ok(()));
    assert_eq!(renderer.frame_vertices, vertices);
    assert_eq!(renderer.frame_indices, indices);
}

/// A scene of one room that is all front walls, `walls` of them.
fn hall_of_walls(walls: usize) -> Scene {
    let mut blueprint = cuboid();
    let front = blueprint.sides[0].clone();
    blueprint.sides = vec![front; walls];
    let mut scene = scene_of(vec![instance(0, vec![])]);
    scene.blueprints.insert(0, blueprint);
    scene
}

#[test]
fn frame_that_fills_its_indices_is_built() {
    // each wall is seen whole: four vertices
    let scene = hall_of_walls(MAX_FRAME_VERTICES / 4);
    let mut renderer = Renderer::new();
    assert_eq!(renderer.render_scene(&scene, &camera(), WIDTH, HEIGHT), Ok(()));
    assert_eq!(renderer.frame_vertices.len(), 65536);
    assert_eq!(renderer.frame_indices.len(), 65536 / 4 * 6);
    assert_eq!(renderer.frame_indices[renderer.frame_indices.len() - 1], 65535);
}

#[test]
fn frame_that_outgrows_its_indices_fails() {
    let scene = hall_of_walls(MAX_FRAME_VERTICES / 4 + 1);
    let mut renderer = Renderer::new();
    assert_eq!(renderer.render_scene(&two_rooms(), &camera(), WIDTH, HEIGHT), Ok(()));
    assert_eq!(
        renderer.render_scene(&scene, &camera(), WIDTH, HEIGHT),
        Err(FrameError::IndexOverflow)
    );
    assert!(renderer.frame_vertices.is_empty());
    assert!(renderer.frame_indices.is_empty());
}

#[test]
fn sides_of_other_kinds_are_not_painted() {
    let scene = scene_of(vec![instance(
        0,
        vec![
            (0, HandlerConfig::Mirror { recursion_limit: 1, surface_reflectivity: ONE }),
            (2, HandlerConfig::TransparentWall { tint: [ONE; 4], opacity: ONE, ior: ONE }),
            (3, HandlerConfig::Unconfigured),
        ],
    )]);
    let mut renderer = Renderer::new();
    assert_eq!(renderer.render_scene(&scene, &camera(), WIDTH, HEIGHT), Ok(()));
    // the ceiling, the floor, and the side without configuration, which
    // is a grey wall
    assert_eq!(fans(&renderer.frame_indices).len(), 3);
    assert_eq!(fans_in(&renderer, RED), 1);
    assert_eq!(fans_in(&renderer, GREEN), 1);
    assert_eq!(fans_in(&renderer, (0.7, 0.7, 0.7)), 1);
}

#[test]
fn camera_after_a_crossing_sees_the_room_it_came_from() {
    let mut scene = two_rooms();
    // look back at the portal from inside room 1
    scene.active_camera_instance_id = 1;
    scene.active_camera_local_transform = Transform::from_translation(v3(0.0, 0.0, 1.0));
    let mut renderer = Renderer::new();
    assert_eq!(renderer.render_scene(&scene, &camera(), WIDTH, HEIGHT), Ok(()));
    frame_is_sound(&renderer);
    // the back wall of room 0 is seen through the portal, the orange wall
    // behind the camera is not
    assert_eq!(fans_in(&renderer, YELLOW), 1);
    assert_eq!(fans_in(&renderer, ORANGE), 0);
    assert_eq!(fans_in(&renderer, WHITE), 2);
}
