//! Scene data model: reusable hull blueprints, their placed instances, and
//! the values that the traversal and the boundary check exchange.
use crate::engine_lib::transform::Transform;
use crate::engine_lib::vector::Vec3;
use crate::geometry::ConvexPolygon;
use crate::geometry::Point2;
use std::collections::HashMap;
use vstd::prelude::*;

verus! {

pub type BlueprintId = u32;

pub type InstanceId = u32;

pub type PortalId = u32;

pub type SideIndex = usize;

/// The behaviours a hull side can have.
#[derive(Clone, Copy, Debug, PartialEq, Eq, Hash, Structural)]
pub enum SideHandlerTypeId {
    StandardWall,
    StandardPortal,
    Mirror,
    CameraDisplay,
    NonEuclideanPortal,
    TransparentWall,
}

/// The configuration of a side's behaviour. Colours are RGBA in
/// fixed-point, one for full intensity.
#[derive(Clone, Debug)]
pub enum HandlerConfig {
    StandardWall { color: [i32; 4], texture_id: Option<String> },
    StandardPortal { target_instance_id: InstanceId, target_portal_id: PortalId },
    Mirror { recursion_limit: u8, surface_reflectivity: i32 },
    CameraDisplay { source_camera_id: String, refresh_rate: i32 },
    NonEuclideanPortal {
        target_instance_id: InstanceId,
        target_portal_id: PortalId,
        transform_params: String,
    },
    TransparentWall { tint: [i32; 4], opacity: i32, ior: i32 },
    Unconfigured,
}

impl HandlerConfig {
    /// The behaviour that this configuration asks for. A side without a
    /// configuration is a wall.
    pub open spec fn spec_intended_handler_type(self) -> SideHandlerTypeId {
        match self {
            HandlerConfig::StandardWall { .. } => SideHandlerTypeId::StandardWall,
            HandlerConfig::StandardPortal { .. } => SideHandlerTypeId::StandardPortal,
            HandlerConfig::Mirror { .. } => SideHandlerTypeId::Mirror,
            HandlerConfig::CameraDisplay { .. } => SideHandlerTypeId::CameraDisplay,
            HandlerConfig::NonEuclideanPortal { .. } => SideHandlerTypeId::NonEuclideanPortal,
            HandlerConfig::TransparentWall { .. } => SideHandlerTypeId::TransparentWall,
            HandlerConfig::Unconfigured => SideHandlerTypeId::StandardWall,
        }
    }

    pub fn get_intended_handler_type(&self) -> (handler_type: SideHandlerTypeId)
        ensures
            handler_type == self.spec_intended_handler_type(),
    {
        match self {
            HandlerConfig::StandardWall { .. } => SideHandlerTypeId::StandardWall,
            HandlerConfig::StandardPortal { .. } => SideHandlerTypeId::StandardPortal,
            HandlerConfig::Mirror { .. } => SideHandlerTypeId::Mirror,
            HandlerConfig::CameraDisplay { .. } => SideHandlerTypeId::CameraDisplay,
            HandlerConfig::NonEuclideanPortal { .. } => SideHandlerTypeId::NonEuclideanPortal,
            HandlerConfig::TransparentWall { .. } => SideHandlerTypeId::TransparentWall,
            HandlerConfig::Unconfigured => SideHandlerTypeId::StandardWall,
        }
    }
}

/// One planar convex face of a blueprint.
#[derive(Clone, Debug)]
pub struct BlueprintSide {
    /// Indices into the blueprint's vertex list, in order round the face.
    pub vertex_indices: Vec<usize>,
    /// Normal of the face, pointing to the hull's interior.
    pub local_normal: Vec3,
    pub handler_type: SideHandlerTypeId,
    pub default_handler_config: HandlerConfig,
    pub local_portal_id: Option<PortalId>,
}

/// Reusable local geometry of a hull.
#[derive(Clone, Debug)]
pub struct HullBlueprint {
    pub id: BlueprintId,
    pub name: String,
    pub local_vertices: Vec<Vec3>,
    pub sides: Vec<BlueprintSide>,
}

/// Where a portal leads.
#[derive(Clone, Copy, Debug)]
pub struct PortalConnectionInfo {
    pub target_instance_id: InstanceId,
    pub target_portal_id: PortalId,
}

/// A placement of a blueprint, with its own side configurations.
#[derive(Clone, Debug)]
pub struct HullInstance {
    pub id: InstanceId,
    pub name: String,
    pub blueprint_id: BlueprintId,
    pub initial_transform: Option<Transform>,
    pub portal_connections: HashMap<PortalId, PortalConnectionInfo>,
    pub instance_side_handler_configs: HashMap<SideIndex, HandlerConfig>,
}

/// All blueprints and instances, the instance that hosts the camera, and
/// the camera's pose in that instance's blueprint space.
#[derive(Debug)]
pub struct Scene {
    pub blueprints: HashMap<BlueprintId, HullBlueprint>,
    pub instances: HashMap<InstanceId, HullInstance>,
    pub active_camera_instance_id: InstanceId,
    pub active_camera_local_transform: Transform,
}

/// One item of the traversal's work queue.
#[derive(Clone)]
pub struct TraversalState {
    pub current_instance_id: InstanceId,
    /// Takes the instance's blueprint space to the space of the hull that
    /// hosts the camera.
    pub accumulated_transform: Transform,
    /// The screen region through which the instance is seen.
    pub screen_space_clip_polygon: ConvexPolygon,
    /// The number of portals crossed to reach the instance.
    pub recursion_depth: u32,
}

/// What a work item is to the traversal: its polygon counts by its
/// vertices alone.
pub struct TraversalStateView {
    pub current_instance_id: InstanceId,
    pub accumulated_transform: Transform,
    pub screen_space_clip_polygon: Seq<Point2>,
    pub recursion_depth: u32,
}

impl View for TraversalState {
    type V = TraversalStateView;

    open spec fn view(&self) -> TraversalStateView {
        TraversalStateView {
            current_instance_id: self.current_instance_id,
            accumulated_transform: self.accumulated_transform,
            screen_space_clip_polygon: self.screen_space_clip_polygon@,
            recursion_depth: self.recursion_depth,
        }
    }
}

/// The work items of a queue as the traversal sees them.
pub open spec fn queue_view(queue: Seq<TraversalState>) -> Seq<TraversalStateView> {
    queue.map_values(|state: TraversalState| state@)
}

/// What a proposed camera position does to the hull that hosts the camera.
#[derive(Clone, Copy, Debug, PartialEq, Eq, Structural)]
pub enum BoundaryCheckResult {
    Inside,
    Collision { collided_side_index: SideIndex, collision_point: Vec3 },
    Traverse {
        crossed_side_index: SideIndex,
        target_instance_id: InstanceId,
        target_portal_id: PortalId,
    },
}

/// The configuration in force for side `side_index` of `instance`: the
/// instance's own where it has one, else the blueprint's default.
pub open spec fn spec_effective_config(
    instance: HullInstance,
    side_index: SideIndex,
    side: BlueprintSide,
) -> HandlerConfig {
    if instance.instance_side_handler_configs@.contains_key(side_index) {
        instance.instance_side_handler_configs@[side_index]
    } else {
        side.default_handler_config
    }
}

/// The configuration in force for side `side_index` of `instance`.
pub fn effective_config<'a>(
    instance: &'a HullInstance,
    side_index: SideIndex,
    side: &'a BlueprintSide,
) -> (config: &'a HandlerConfig)
    ensures
        *config == spec_effective_config(*instance, side_index, *side),
{
    broadcast use vstd::std_specs::hash::group_hash_axioms;

    match instance.instance_side_handler_configs.get(&side_index) {
        Some(config) => config,
        None => &side.default_handler_config,
    }
}

} // verus!
