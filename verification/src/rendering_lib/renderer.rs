//! Portal-graph visibility traversal: breadth first from the hull that
//! hosts the camera, through every visible portal, to the frame of visible
//! wall triangles.
use crate::engine_lib::camera::Camera;
use crate::engine_lib::scene_logic::side_plane_origin;
use crate::engine_lib::scene_types::effective_config;
use crate::engine_lib::scene_types::BlueprintSide;
use crate::engine_lib::side_handler::frame_is_well_formed;
use crate::engine_lib::side_handler::lemma_wall_keeps_frame_well_formed;
use crate::engine_lib::side_handler::side_faces_away;
use crate::engine_lib::side_handler::spec_side_faces_away;
use crate::engine_lib::vector::Vec3;
use crate::engine_lib::scene_types::queue_view;
use crate::engine_lib::scene_types::spec_effective_config;
use crate::engine_lib::scene_types::HullBlueprint;
use crate::engine_lib::scene_types::HullInstance;
use crate::engine_lib::scene_types::Scene;
use crate::engine_lib::scene_types::SideHandlerTypeId;
use crate::engine_lib::scene_types::TraversalState;
use crate::engine_lib::scene_types::TraversalStateView;
use crate::engine_lib::side_handler::spec_portal_continuation;
use crate::engine_lib::side_handler::spec_wall_color;
use crate::engine_lib::side_handler::spec_wall_emit;
use crate::engine_lib::side_handler::FrameError;
use crate::engine_lib::side_handler::FrameView;
use crate::engine_lib::side_handler::StandardPortalHandler;
use crate::engine_lib::side_handler::StandardWallHandler;
use crate::engine_lib::side_handler::MAX_PORTAL_RECURSION_DEPTH;
use crate::engine_lib::transform::Transform;
use crate::geometry::ConvexPolygon;
use crate::geometry::Point2;
use crate::rendering_lib::vertex::Vertex;
use crate::rendering_lib::visibility::spec_visible_polygon;
use crate::rendering_lib::visibility::visible_polygon;
use std::collections::VecDeque;
use vstd::prelude::*;

verus! {

/// What stays the same while one frame is built.
pub struct RenderContext {
    pub scene: Scene,
    pub camera: Camera,
    /// Takes the space of the camera's host hull to the camera's view space.
    pub view: Transform,
    pub screen_width: i32,
    pub screen_height: i32,
}

/// What the traversal has made so far: the frame, and the work items for
/// the next level of the portal graph.
pub struct Progress {
    pub frame: FrameView,
    pub next: Seq<TraversalStateView>,
}

/// Whether side `side` is skipped outright because it faces away from the
/// camera. A side without a plane is not culled here; nothing of it is
/// seen either.
pub open spec fn spec_side_is_culled(
    ctx: RenderContext,
    state: TraversalStateView,
    blueprint: HullBlueprint,
    side: BlueprintSide,
) -> bool {
    match side_plane_origin(blueprint, side) {
        Some(origin) => spec_side_faces_away(
            side.local_normal,
            origin,
            state.accumulated_transform,
            ctx.view,
        ),
        None => false,
    }
}

/// The part of side `side` that is seen from the work item `state`, or
/// `None` where the side faces away or nothing of it is seen.
pub open spec fn spec_seen_polygon(
    ctx: RenderContext,
    state: TraversalStateView,
    blueprint: HullBlueprint,
    side: BlueprintSide,
) -> Option<Seq<Point2>> {
    if spec_side_is_culled(ctx, state, blueprint, side) {
        None
    } else {
        spec_visible_polygon(
            ctx.camera,
            ctx.view,
            state.accumulated_transform,
            state.screen_space_clip_polygon,
            blueprint,
            side,
            ctx.screen_width,
            ctx.screen_height,
        )
    }
}

/// The progress after side `side_index` of the hull `instance` has been
/// looked at from the work item `state`, or `None` where the frame
/// overflows. A side that is not seen leaves the progress as it is; a wall
/// adds its visible part to the frame; a portal adds a work item for the
/// level below; any other kind of side adds nothing.
pub open spec fn spec_process_side(
    ctx: RenderContext,
    state: TraversalStateView,
    instance: HullInstance,
    blueprint: HullBlueprint,
    side_index: int,
    progress: Progress,
) -> Option<Progress> {
    let side = blueprint.sides@[side_index];
    match spec_seen_polygon(ctx, state, blueprint, side) {
        None => Some(progress),
        Some(visible) => {
            let config = spec_effective_config(instance, side_index as usize, side);
            match config.spec_intended_handler_type() {
                SideHandlerTypeId::StandardWall => match spec_wall_emit(
                    progress.frame,
                    visible,
                    spec_wall_color(config),
                ) {
                    Some(frame) => Some(Progress { frame, next: progress.next }),
                    None => None,
                },
                SideHandlerTypeId::StandardPortal => match spec_portal_continuation(
                    ctx.scene,
                    ctx.view,
                    state.accumulated_transform,
                    state.recursion_depth,
                    blueprint,
                    side,
                    config,
                    visible,
                ) {
                    Some(child) => Some(
                        Progress { frame: progress.frame, next: progress.next.push(child) },
                    ),
                    None => Some(progress),
                },
                _ => Some(progress),
            }
        },
    }
}

/// The progress after the sides from `start` on have been looked at, in
/// order.
pub open spec fn spec_process_sides(
    ctx: RenderContext,
    state: TraversalStateView,
    instance: HullInstance,
    blueprint: HullBlueprint,
    start: nat,
    progress: Progress,
) -> Option<Progress>
    decreases blueprint.sides@.len() - start,
{
    if start >= blueprint.sides@.len() {
        Some(progress)
    } else {
        match spec_process_side(ctx, state, instance, blueprint, start as int, progress) {
            Some(after) => spec_process_sides(ctx, state, instance, blueprint, start + 1, after),
            None => None,
        }
    }
}

/// The progress after the work item `state` has been processed. A work item
/// for an instance that the scene lacks, or whose blueprint it lacks, adds
/// nothing.
pub open spec fn spec_process_state(
    ctx: RenderContext,
    state: TraversalStateView,
    progress: Progress,
) -> Option<Progress> {
    if !ctx.scene.instances@.contains_key(state.current_instance_id) {
        Some(progress)
    } else {
        let instance = ctx.scene.instances@[state.current_instance_id];
        if !ctx.scene.blueprints@.contains_key(instance.blueprint_id) {
            Some(progress)
        } else {
            spec_process_sides(
                ctx,
                state,
                instance,
                ctx.scene.blueprints@[instance.blueprint_id],
                0,
                progress,
            )
        }
    }
}

/// The progress after the work items of `level` from `start` on have been
/// processed, in order.
pub open spec fn spec_process_level(
    ctx: RenderContext,
    level: Seq<TraversalStateView>,
    start: nat,
    progress: Progress,
) -> Option<Progress>
    decreases level.len() - start,
{
    if start >= level.len() {
        Some(progress)
    } else {
        match spec_process_state(ctx, level[start as int], progress) {
            Some(after) => spec_process_level(ctx, level, start + 1, after),
            None => None,
        }
    }
}

/// The frame after the work items of `level` and of at most `levels - 1`
/// levels below it have been processed, or `None` where it overflows.
pub open spec fn spec_traverse(
    ctx: RenderContext,
    level: Seq<TraversalStateView>,
    frame: FrameView,
    levels: nat,
) -> Option<FrameView>
    decreases levels,
{
    if levels == 0 || level.len() == 0 {
        Some(frame)
    } else {
        match spec_process_level(ctx, level, 0, Progress { frame, next: Seq::empty() }) {
            Some(after) => spec_traverse(ctx, after.next, after.frame, (levels - 1) as nat),
            None => None,
        }
    }
}

/// The whole screen as an aperture, counter-clockwise from the origin.
pub open spec fn spec_viewport(screen_width: i32, screen_height: i32) -> Seq<Point2> {
    seq![
        Point2 { x: 0, y: 0 },
        Point2 { x: screen_width, y: 0 },
        Point2 { x: screen_width, y: screen_height },
        Point2 { x: 0, y: screen_height },
    ]
}

/// The work item that starts a frame: the camera's host hull, seen through
/// the whole screen.
pub open spec fn spec_initial_state(
    scene: Scene,
    screen_width: i32,
    screen_height: i32,
) -> TraversalStateView {
    TraversalStateView {
        current_instance_id: scene.active_camera_instance_id,
        accumulated_transform: Transform::spec_identity(),
        screen_space_clip_polygon: spec_viewport(screen_width, screen_height),
        recursion_depth: 0,
    }
}

/// The frame of everything visible from the scene's camera, or `None`
/// where it overflows. The frame is empty where the camera's pose has no
/// inverse or the scene lacks the camera's host hull.
pub open spec fn spec_render(
    scene: Scene,
    camera: Camera,
    screen_width: i32,
    screen_height: i32,
) -> Option<FrameView> {
    let empty = FrameView { vertices: Seq::empty(), indices: Seq::empty() };
    match scene.active_camera_local_transform.spec_inverse() {
        None => Some(empty),
        Some(view) => {
            if !scene.instances@.contains_key(scene.active_camera_instance_id) {
                Some(empty)
            } else {
                spec_traverse(
                    RenderContext { scene, camera, view, screen_width, screen_height },
                    seq![spec_initial_state(scene, screen_width, screen_height)],
                    empty,
                    (MAX_PORTAL_RECURSION_DEPTH + 1) as nat,
                )
            }
        },
    }
}

/// Whether every work item of `states` has crossed `depth` portals.
pub open spec fn all_at_depth(states: Seq<TraversalStateView>, depth: int) -> bool {
    forall|i: int| 0 <= i < states.len() ==> (#[trigger] states[i]).recursion_depth == depth
}

/// Looks at one side of a hull from a work item.
fn process_side(
    scene: &Scene,
    camera: &Camera,
    view: &Transform,
    screen_width: i32,
    screen_height: i32,
    state: &TraversalState,
    instance: &HullInstance,
    blueprint: &HullBlueprint,
    side_idx: usize,
    frame_vertices: &mut Vec<Vertex>,
    frame_indices: &mut Vec<u16>,
    next_queue: &mut VecDeque<TraversalState>,
) -> (result: Result<(), FrameError>)
    requires
        side_idx < blueprint.sides@.len(),
    ensures
        match spec_process_side(
            RenderContext {
                scene: *scene,
                camera: *camera,
                view: *view,
                screen_width,
                screen_height,
            },
            state@,
            *instance,
            *blueprint,
            side_idx as int,
            Progress {
                frame: FrameView { vertices: old(frame_vertices)@, indices: old(frame_indices)@ },
                next: queue_view(old(next_queue)@),
            },
        ) {
            Some(after) => result is Ok && final(frame_vertices)@ == after.frame.vertices && final(frame_indices)@ == after.frame.indices && queue_view(final(next_queue)@) == after.next,
            None => result == Err::<(), FrameError>(FrameError::IndexOverflow),
        },
{
    let blueprint_side = &blueprint.sides[side_idx];
    if blueprint_side.vertex_indices.len() > 0 && blueprint_side.vertex_indices[0]
        < blueprint.local_vertices.len() {
        let point_on_side: Vec3 = blueprint.local_vertices[blueprint_side.vertex_indices[0]];
        if side_faces_away(
            &blueprint_side.local_normal,
            &point_on_side,
            &state.accumulated_transform,
            view,
        ) {
            return Ok(());
        }
    }
    let final_visible_screen_polygon = match visible_polygon(
        camera,
        view,
        &state.accumulated_transform,
        &state.screen_space_clip_polygon,
        blueprint,
        blueprint_side,
        screen_width,
        screen_height,
    ) {
        Some(polygon) => polygon,
        None => {
            return Ok(());
        },
    };
    let effective = effective_config(instance, side_idx, blueprint_side);
    match effective.get_intended_handler_type() {
        SideHandlerTypeId::StandardWall => {
            let wall_handler = StandardWallHandler;
            wall_handler.process_render(
                effective,
                &final_visible_screen_polygon,
                frame_vertices,
                frame_indices,
            )
        },
        SideHandlerTypeId::StandardPortal => {
            let portal_handler = StandardPortalHandler;
            portal_handler.process_render(
                scene,
                blueprint,
                blueprint_side,
                effective,
                &state.accumulated_transform,
                view,
                &final_visible_screen_polygon,
                state.recursion_depth,
                next_queue,
            );
            Ok(())
        },
        _ => Ok(()),
    }
}

/// Processes one work item: every side of its hull, in order.
fn process_state(
    scene: &Scene,
    camera: &Camera,
    view: &Transform,
    screen_width: i32,
    screen_height: i32,
    state: &TraversalState,
    frame_vertices: &mut Vec<Vertex>,
    frame_indices: &mut Vec<u16>,
    next_queue: &mut VecDeque<TraversalState>,
) -> (result: Result<(), FrameError>)
    ensures
        match spec_process_state(
            RenderContext {
                scene: *scene,
                camera: *camera,
                view: *view,
                screen_width,
                screen_height,
            },
            state@,
            Progress {
                frame: FrameView { vertices: old(frame_vertices)@, indices: old(frame_indices)@ },
                next: queue_view(old(next_queue)@),
            },
        ) {
            Some(after) => result is Ok && final(frame_vertices)@ == after.frame.vertices && final(frame_indices)@ == after.frame.indices && queue_view(final(next_queue)@) == after.next,
            None => result == Err::<(), FrameError>(FrameError::IndexOverflow),
        },
{
    broadcast use vstd::std_specs::hash::group_hash_axioms;

    let current_instance = match scene.instances.get(&state.current_instance_id) {
        Some(instance) => instance,
        None => {
            return Ok(());
        },
    };
    let blueprint = match scene.blueprints.get(&current_instance.blueprint_id) {
        Some(blueprint) => blueprint,
        None => {
            return Ok(());
        },
    };
    let ghost ctx = RenderContext {
        scene: *scene,
        camera: *camera,
        view: *view,
        screen_width,
        screen_height,
    };
    let ghost start = Progress {
        frame: FrameView { vertices: frame_vertices@, indices: frame_indices@ },
        next: queue_view(next_queue@),
    };
    let mut side_idx: usize = 0;
    while side_idx < blueprint.sides.len()
        invariant
            side_idx <= blueprint.sides@.len(),
            ctx == (RenderContext {
                scene: *scene,
                camera: *camera,
                view: *view,
                screen_width,
                screen_height,
            }),
            spec_process_state(
                ctx,
                state@,
                Progress {
                    frame: FrameView {
                        vertices: old(frame_vertices)@,
                        indices: old(frame_indices)@,
                    },
                    next: queue_view(old(next_queue)@),
                },
            ) == spec_process_sides(ctx, state@, *current_instance, *blueprint, 0, start),
            spec_process_sides(ctx, state@, *current_instance, *blueprint, 0, start)
                == spec_process_sides(
                ctx,
                state@,
                *current_instance,
                *blueprint,
                side_idx as nat,
                Progress {
                    frame: FrameView { vertices: frame_vertices@, indices: frame_indices@ },
                    next: queue_view(next_queue@),
                },
            ),
        decreases blueprint.sides@.len() - side_idx,
    {
        let ghost before = Progress {
            frame: FrameView { vertices: frame_vertices@, indices: frame_indices@ },
            next: queue_view(next_queue@),
        };
        assert(spec_process_sides(
            ctx,
            state@,
            *current_instance,
            *blueprint,
            side_idx as nat,
            before,
        ) == (match spec_process_side(
            ctx,
            state@,
            *current_instance,
            *blueprint,
            side_idx as int,
            before,
        ) {
            Some(after) => spec_process_sides(
                ctx,
                state@,
                *current_instance,
                *blueprint,
                (side_idx + 1) as nat,
                after,
            ),
            None => None,
        }));
        match process_side(
            scene,
            camera,
            view,
            screen_width,
            screen_height,
            state,
            current_instance,
            blueprint,
            side_idx,
            frame_vertices,
            frame_indices,
            next_queue,
        ) {
            Ok(()) => {},
            Err(error) => {
                return Err(error);
            },
        }
        side_idx = side_idx + 1;
    }
    Ok(())
}

/// The builder of frames.
pub struct Renderer {
    /// The vertices of the last frame.
    pub frame_vertices: Vec<Vertex>,
    /// The triangles of the last frame: three indices into the vertices
    /// for each.
    pub frame_indices: Vec<u16>,
}

impl Renderer {
    pub fn new() -> (renderer: Self)
        ensures
            renderer.frame_vertices@.len() == 0,
            renderer.frame_indices@.len() == 0,
    {
        Renderer { frame_vertices: Vec::new(), frame_indices: Vec::new() }
    }

    /// Builds the frame of everything visible from the scene's camera on a
    /// screen of the given size.
    ///
    /// The portal graph is explored breadth first from the hull that hosts
    /// the camera. Every visible wall is added to the frame as a fan of
    /// triangles; every visible portal continues the exploration in the hull
    /// behind it, through the visible part of the portal, until
    /// [`MAX_PORTAL_RECURSION_DEPTH`] portals have been crossed.
    ///
    /// Fails, leaving an empty frame, where the frame would hold more
    /// vertices than its indices can address.
    pub fn render_scene(
        &mut self,
        scene: &Scene,
        camera: &Camera,
        screen_width: i32,
        screen_height: i32,
    ) -> (result: Result<(), FrameError>)
        ensures
            match spec_render(*scene, *camera, screen_width, screen_height) {
                Some(frame) => result is Ok && final(self).frame_vertices@ == frame.vertices
                    && final(self).frame_indices@ == frame.indices,
                None => result == Err::<(), FrameError>(FrameError::IndexOverflow) && final(self).frame_vertices@.len() == 0 && final(self).frame_indices@.len() == 0,
            },
            frame_is_well_formed(
                FrameView {
                    vertices: final(self).frame_vertices@,
                    indices: final(self).frame_indices@,
                },
            ),
    {
        broadcast use vstd::std_specs::hash::group_hash_axioms;

        proof {
            lemma_frame_is_well_formed(*scene, *camera, screen_width, screen_height);
        }

        self.frame_vertices = Vec::new();
        self.frame_indices = Vec::new();
        let initial_clip_points: [Point2; 4] = [
            Point2::new(0, 0),
            Point2::new(screen_width, 0),
            Point2::new(screen_width, screen_height),
            Point2::new(0, screen_height),
        ];
        let initial_screen_clip_polygon = ConvexPolygon::from_points(
            initial_clip_points.as_slice(),
        );
        assert(initial_screen_clip_polygon@ =~= spec_viewport(screen_width, screen_height));
        let camera_view_from_host_hull = match camera.get_view_matrix_from_host_hull(
            &scene.active_camera_local_transform,
        ) {
            Some(view) => view,
            None => {
                return Ok(());
            },
        };
        if !scene.instances.contains_key(&scene.active_camera_instance_id) {
            return Ok(());
        }
        let ghost ctx = RenderContext {
            scene: *scene,
            camera: *camera,
            view: camera_view_from_host_hull,
            screen_width,
            screen_height,
        };
        let mut frame_vertices: Vec<Vertex> = Vec::new();
        let mut frame_indices: Vec<u16> = Vec::new();
        let mut traversal_queue: VecDeque<TraversalState> = VecDeque::new();
        traversal_queue.push_back(
            TraversalState {
                current_instance_id: scene.active_camera_instance_id,
                accumulated_transform: Transform::identity(),
                screen_space_clip_polygon: initial_screen_clip_polygon,
                recursion_depth: 0,
            },
        );
        assert(queue_view(traversal_queue@) =~= seq![
            spec_initial_state(*scene, screen_width, screen_height),
        ]);
        let mut level: u32 = 0;
        while traversal_queue.len() > 0
            invariant
                ctx == (RenderContext {
                    scene: *scene,
                    camera: *camera,
                    view: camera_view_from_host_hull,
                    screen_width,
                    screen_height,
                }),
                level <= MAX_PORTAL_RECURSION_DEPTH + 1,
                traversal_queue@.len() > 0 ==> level <= MAX_PORTAL_RECURSION_DEPTH,
                all_at_depth(queue_view(traversal_queue@), level as int),
                self.frame_vertices@.len() == 0,
                self.frame_indices@.len() == 0,
                spec_render(*scene, *camera, screen_width, screen_height) == spec_traverse(
                    ctx,
                    queue_view(traversal_queue@),
                    FrameView { vertices: frame_vertices@, indices: frame_indices@ },
                    (MAX_PORTAL_RECURSION_DEPTH + 1 - level) as nat,
                ),
            decreases MAX_PORTAL_RECURSION_DEPTH + 1 - level,
        {
            let ghost level_states = queue_view(traversal_queue@);
            let ghost level_start = Progress {
                frame: FrameView { vertices: frame_vertices@, indices: frame_indices@ },
                next: Seq::<TraversalStateView>::empty(),
            };
            let mut next_level_queue: VecDeque<TraversalState> = VecDeque::new();
            assert(queue_view(next_level_queue@) =~= Seq::<TraversalStateView>::empty());
            let ghost mut done: nat = 0;
            while traversal_queue.len() > 0
                invariant
                    ctx == (RenderContext {
                        scene: *scene,
                        camera: *camera,
                        view: camera_view_from_host_hull,
                        screen_width,
                        screen_height,
                    }),
                    done <= level_states.len(),
                    level_states.len() > 0,
                    spec_render(*scene, *camera, screen_width, screen_height) == spec_traverse(
                        ctx,
                        level_states,
                        level_start.frame,
                        (MAX_PORTAL_RECURSION_DEPTH + 1 - level) as nat,
                    ),
                    level_start.next.len() == 0,
                    queue_view(traversal_queue@) == level_states.skip(done as int),
                    all_at_depth(level_states, level as int),
                    all_at_depth(queue_view(next_level_queue@), level + 1),
                    level >= MAX_PORTAL_RECURSION_DEPTH ==> next_level_queue@.len() == 0,
                    level <= MAX_PORTAL_RECURSION_DEPTH,
                    self.frame_vertices@.len() == 0,
                    self.frame_indices@.len() == 0,
                    spec_process_level(ctx, level_states, 0, level_start) == spec_process_level(
                        ctx,
                        level_states,
                        done,
                        Progress {
                            frame: FrameView { vertices: frame_vertices@, indices: frame_indices@ },
                            next: queue_view(next_level_queue@),
                        },
                    ),
                decreases traversal_queue@.len(),
            {
                let ghost queue_before = traversal_queue@;
                let ghost progress_before = Progress {
                    frame: FrameView { vertices: frame_vertices@, indices: frame_indices@ },
                    next: queue_view(next_level_queue@),
                };
                let current_traversal_state = match traversal_queue.pop_front() {
                    Some(state) => state,
                    None => {
                        proof {
                            assert(false);
                        }
                        return Ok(());
                    },
                };
                proof {
                    assert(queue_view(queue_before).len() == queue_before.len());
                    assert(done < level_states.len());
                    assert(queue_view(queue_before)[0] == current_traversal_state@);
                    assert(level_states.skip(done as int)[0] == level_states[done as int]);
                    assert forall|i: int| 0 <= i < traversal_queue@.len() implies queue_view(
                        traversal_queue@,
                    )[i] == level_states[done + 1 + i] by {
                        assert(traversal_queue@[i] == queue_before[i + 1]);
                        assert(queue_view(queue_before)[i + 1] == queue_before[i + 1]@);
                        assert(level_states.skip(done as int)[i + 1] == level_states[done + 1 + i]);
                    }
                    assert(queue_view(traversal_queue@) =~= level_states.skip(done as int + 1));
                    assert(level_start.next =~= Seq::<TraversalStateView>::empty());
                    assert(spec_traverse(
                        ctx,
                        level_states,
                        level_start.frame,
                        (MAX_PORTAL_RECURSION_DEPTH + 1 - level) as nat,
                    ) == (match spec_process_level(ctx, level_states, 0, level_start) {
                        Some(after) => spec_traverse(
                            ctx,
                            after.next,
                            after.frame,
                            (MAX_PORTAL_RECURSION_DEPTH - level) as nat,
                        ),
                        None => None,
                    }));
                    assert(current_traversal_state@.recursion_depth == level);
                    lemma_children_depth(ctx, current_traversal_state@, progress_before);
                    assert(spec_process_level(ctx, level_states, done, progress_before) == (
                    match spec_process_state(ctx, level_states[done as int], progress_before) {
                        Some(after) => spec_process_level(
                            ctx,
                            level_states,
                            done + 1,
                            after,
                        ),
                        None => None,
                    }));
                }
                match process_state(
                    scene,
                    camera,
                    &camera_view_from_host_hull,
                    screen_width,
                    screen_height,
                    &current_traversal_state,
                    &mut frame_vertices,
                    &mut frame_indices,
                    &mut next_level_queue,
                ) {
                    Ok(()) => {},
                    Err(error) => {
                        return Err(error);
                    },
                }
                proof {
                    done = done + 1;
                    assert(queue_view(next_level_queue@).len() == next_level_queue@.len());
                }
            }
            traversal_queue = next_level_queue;
            level = level + 1;
        }
        self.frame_vertices = frame_vertices;
        self.frame_indices = frame_indices;
        Ok(())
    }
}

/// A portal side adds a work item one level below the one it is seen from,
/// and none once [`MAX_PORTAL_RECURSION_DEPTH`] portals have been crossed.
pub proof fn lemma_side_child_depth(
    ctx: RenderContext,
    state: TraversalStateView,
    instance: HullInstance,
    blueprint: HullBlueprint,
    side_index: int,
    progress: Progress,
)
    requires
        all_at_depth(progress.next, state.recursion_depth + 1),
    ensures
        match spec_process_side(ctx, state, instance, blueprint, side_index, progress) {
            Some(after) => all_at_depth(after.next, state.recursion_depth + 1) && (
            state.recursion_depth >= MAX_PORTAL_RECURSION_DEPTH ==> after.next == progress.next),
            None => true,
        },
{
}

/// The sides of a hull add work items one level below the one they are seen
/// from, and none once [`MAX_PORTAL_RECURSION_DEPTH`] portals have been
/// crossed.
pub proof fn lemma_sides_child_depth(
    ctx: RenderContext,
    state: TraversalStateView,
    instance: HullInstance,
    blueprint: HullBlueprint,
    start: nat,
    progress: Progress,
)
    requires
        all_at_depth(progress.next, state.recursion_depth + 1),
    ensures
        match spec_process_sides(ctx, state, instance, blueprint, start, progress) {
            Some(after) => all_at_depth(after.next, state.recursion_depth + 1) && (
            state.recursion_depth >= MAX_PORTAL_RECURSION_DEPTH ==> after.next == progress.next),
            None => true,
        },
    decreases blueprint.sides@.len() - start,
{
    if start < blueprint.sides@.len() {
        lemma_side_child_depth(ctx, state, instance, blueprint, start as int, progress);
        match spec_process_side(ctx, state, instance, blueprint, start as int, progress) {
            Some(after) => {
                lemma_sides_child_depth(ctx, state, instance, blueprint, start + 1, after);
            },
            None => {},
        }
    }
}

/// Processing a work item adds work items one level below it, and none
/// once [`MAX_PORTAL_RECURSION_DEPTH`] portals have been crossed.
pub proof fn lemma_children_depth(ctx: RenderContext, state: TraversalStateView, progress: Progress)
    requires
        all_at_depth(progress.next, state.recursion_depth + 1),
    ensures
        match spec_process_state(ctx, state, progress) {
            Some(after) => all_at_depth(after.next, state.recursion_depth + 1) && (
            state.recursion_depth >= MAX_PORTAL_RECURSION_DEPTH ==> after.next == progress.next),
            None => true,
        },
{
    if ctx.scene.instances@.contains_key(state.current_instance_id) {
        let instance = ctx.scene.instances@[state.current_instance_id];
        if ctx.scene.blueprints@.contains_key(instance.blueprint_id) {
            lemma_sides_child_depth(
                ctx,
                state,
                instance,
                ctx.scene.blueprints@[instance.blueprint_id],
                0,
                progress,
            );
        }
    }
}

/// Looking at the sides of a hull keeps a list of triangles a list of
/// triangles.
pub proof fn lemma_sides_keep_frame_well_formed(
    ctx: RenderContext,
    state: TraversalStateView,
    instance: HullInstance,
    blueprint: HullBlueprint,
    start: nat,
    progress: Progress,
)
    requires
        frame_is_well_formed(progress.frame),
    ensures
        match spec_process_sides(ctx, state, instance, blueprint, start, progress) {
            Some(after) => frame_is_well_formed(after.frame),
            None => true,
        },
    decreases blueprint.sides@.len() - start,
{
    if start < blueprint.sides@.len() {
        let side = blueprint.sides@[start as int];
        match spec_seen_polygon(ctx, state, blueprint, side) {
            Some(visible) => {
                let config = spec_effective_config(instance, start as usize, side);
                lemma_wall_keeps_frame_well_formed(
                    progress.frame,
                    visible,
                    spec_wall_color(config),
                );
            },
            None => {},
        }
        match spec_process_side(ctx, state, instance, blueprint, start as int, progress) {
            Some(after) => {
                lemma_sides_keep_frame_well_formed(
                    ctx,
                    state,
                    instance,
                    blueprint,
                    start + 1,
                    after,
                );
            },
            None => {},
        }
    }
}

/// Processing the work items of a level keeps a list of triangles a list of
/// triangles.
pub proof fn lemma_level_keeps_frame_well_formed(
    ctx: RenderContext,
    level: Seq<TraversalStateView>,
    start: nat,
    progress: Progress,
)
    requires
        frame_is_well_formed(progress.frame),
    ensures
        match spec_process_level(ctx, level, start, progress) {
            Some(after) => frame_is_well_formed(after.frame),
            None => true,
        },
    decreases level.len() - start,
{
    if start < level.len() {
        let state = level[start as int];
        if ctx.scene.instances@.contains_key(state.current_instance_id) {
            let instance = ctx.scene.instances@[state.current_instance_id];
            if ctx.scene.blueprints@.contains_key(instance.blueprint_id) {
                lemma_sides_keep_frame_well_formed(
                    ctx,
                    state,
                    instance,
                    ctx.scene.blueprints@[instance.blueprint_id],
                    0,
                    progress,
                );
            }
        }
        match spec_process_state(ctx, state, progress) {
            Some(after) => {
                lemma_level_keeps_frame_well_formed(ctx, level, start + 1, after);
            },
            None => {},
        }
    }
}

/// A traversal keeps a list of triangles a list of triangles.
pub proof fn lemma_traverse_keeps_frame_well_formed(
    ctx: RenderContext,
    level: Seq<TraversalStateView>,
    frame: FrameView,
    levels: nat,
)
    requires
        frame_is_well_formed(frame),
    ensures
        match spec_traverse(ctx, level, frame, levels) {
            Some(after) => frame_is_well_formed(after),
            None => true,
        },
    decreases levels,
{
    if levels > 0 && level.len() > 0 {
        let start = Progress { frame, next: Seq::<TraversalStateView>::empty() };
        lemma_level_keeps_frame_well_formed(ctx, level, 0, start);
        match spec_process_level(ctx, level, 0, start) {
            Some(after) => {
                lemma_traverse_keeps_frame_well_formed(
                    ctx,
                    after.next,
                    after.frame,
                    (levels - 1) as nat,
                );
            },
            None => {},
        }
    }
}

/// Every frame is a list of triangles: its indices come in threes, and each
/// is the index of one of its vertices.
pub proof fn lemma_frame_is_well_formed(
    scene: Scene,
    camera: Camera,
    screen_width: i32,
    screen_height: i32,
)
    ensures
        match spec_render(scene, camera, screen_width, screen_height) {
            Some(frame) => frame_is_well_formed(frame),
            None => true,
        },
{
    let empty = FrameView { vertices: Seq::<Vertex>::empty(), indices: Seq::<u16>::empty() };
    assert(frame_is_well_formed(empty));
    match scene.active_camera_local_transform.spec_inverse() {
        Some(view) => {
            lemma_traverse_keeps_frame_well_formed(
                RenderContext { scene, camera, view, screen_width, screen_height },
                seq![spec_initial_state(scene, screen_width, screen_height)],
                empty,
                (MAX_PORTAL_RECURSION_DEPTH + 1) as nat,
            );
        },
        None => {},
    }
}

/// Processing the work items of one level adds work items one level below,
/// and none once [`MAX_PORTAL_RECURSION_DEPTH`] portals have been crossed.
pub proof fn lemma_level_child_depth(
    ctx: RenderContext,
    level: Seq<TraversalStateView>,
    start: nat,
    progress: Progress,
    depth: int,
)
    requires
        all_at_depth(level, depth),
        all_at_depth(progress.next, depth + 1),
    ensures
        match spec_process_level(ctx, level, start, progress) {
            Some(after) => all_at_depth(after.next, depth + 1) && (depth
                >= MAX_PORTAL_RECURSION_DEPTH ==> after.next == progress.next),
            None => true,
        },
    decreases level.len() - start,
{
    if start < level.len() {
        lemma_children_depth(ctx, level[start as int], progress);
        match spec_process_state(ctx, level[start as int], progress) {
            Some(after) => {
                lemma_level_child_depth(ctx, level, start + 1, after, depth);
            },
            None => {},
        }
    }
}

/// The work items that the traversal issues `n` levels below `level`,
/// where the frame was `frame` when `level` was reached; none once the frame
/// has overflowed.
pub open spec fn spec_level_below(
    ctx: RenderContext,
    level: Seq<TraversalStateView>,
    frame: FrameView,
    n: nat,
) -> Seq<TraversalStateView>
    decreases n,
{
    if n == 0 {
        level
    } else {
        match spec_process_level(ctx, level, 0, Progress { frame, next: Seq::empty() }) {
            Some(after) => spec_level_below(ctx, after.next, after.frame, (n - 1) as nat),
            None => Seq::empty(),
        }
    }
}

/// Recursion bound: whatever the portal graph, cycles included, every work
/// item that the traversal issues `n` levels below a level of depth `depth`
/// has crossed `depth + n` portals, and no work item is issued for more than
/// [`MAX_PORTAL_RECURSION_DEPTH`] portals.
pub proof fn lemma_recursion_bound(
    ctx: RenderContext,
    level: Seq<TraversalStateView>,
    frame: FrameView,
    depth: int,
    n: nat,
)
    requires
        all_at_depth(level, depth),
    ensures
        all_at_depth(spec_level_below(ctx, level, frame, n), depth + n),
        n > 0 && depth + n > MAX_PORTAL_RECURSION_DEPTH ==> spec_level_below(
            ctx,
            level,
            frame,
            n,
        ).len() == 0,
    decreases n,
{
    if n > 0 {
        let start = Progress { frame, next: Seq::<TraversalStateView>::empty() };
        lemma_level_child_depth(ctx, level, 0, start, depth);
        match spec_process_level(ctx, level, 0, start) {
            Some(after) => {
                lemma_recursion_bound(ctx, after.next, after.frame, depth + 1, (n - 1) as nat);
                if n == 1 && depth + 1 > MAX_PORTAL_RECURSION_DEPTH {
                    assert(after.next == start.next);
                }
            },
            None => {},
        }
    }
}

/// The limit on levels never cuts a traversal short: from a level of depth
/// `depth`, allowing more than the `MAX_PORTAL_RECURSION_DEPTH + 1 - depth`
/// levels that can hold work items changes nothing.
pub proof fn lemma_level_limit_is_slack(
    ctx: RenderContext,
    level: Seq<TraversalStateView>,
    frame: FrameView,
    depth: int,
    levels: nat,
)
    requires
        all_at_depth(level, depth),
        0 <= depth <= MAX_PORTAL_RECURSION_DEPTH,
        levels >= MAX_PORTAL_RECURSION_DEPTH + 1 - depth,
    ensures
        spec_traverse(ctx, level, frame, levels) == spec_traverse(
            ctx,
            level,
            frame,
            (MAX_PORTAL_RECURSION_DEPTH + 1 - depth) as nat,
        ),
    decreases levels,
{
    let tight = (MAX_PORTAL_RECURSION_DEPTH + 1 - depth) as nat;
    let start = Progress { frame, next: Seq::<TraversalStateView>::empty() };
    if level.len() > 0 && levels > 0 {
        lemma_level_child_depth(ctx, level, 0, start, depth);
        match spec_process_level(ctx, level, 0, start) {
            Some(after) => {
                if depth >= MAX_PORTAL_RECURSION_DEPTH {
                    assert(after.next.len() == 0);
                    assert(spec_traverse(ctx, after.next, after.frame, (levels - 1) as nat)
                        == Some(after.frame));
                    if tight > 0 {
                        assert(spec_traverse(ctx, after.next, after.frame, (tight - 1) as nat)
                            == Some(after.frame));
                    }
                } else {
                    lemma_level_limit_is_slack(
                        ctx,
                        after.next,
                        after.frame,
                        depth + 1,
                        (levels - 1) as nat,
                    );
                }
            },
            None => {},
        }
    }
}

} // verus!
