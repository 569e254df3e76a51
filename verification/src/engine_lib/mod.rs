//! Scene model, camera and the rules of moving through portals.
pub mod camera;
pub mod scene_logic;
pub mod scene_types;
pub mod side_handler;
pub mod transform;
pub mod vector;

pub use camera::Camera;
pub use scene_logic::check_camera_hull_boundary;
pub use scene_logic::update_camera_in_scene;
pub use scene_types::BlueprintId;
pub use scene_types::BlueprintSide;
pub use scene_types::BoundaryCheckResult;
pub use scene_types::HandlerConfig;
pub use scene_types::HullBlueprint;
pub use scene_types::HullInstance;
pub use scene_types::InstanceId;
pub use scene_types::PortalConnectionInfo;
pub use scene_types::PortalId;
pub use scene_types::Scene;
pub use scene_types::SideHandlerTypeId;
pub use scene_types::SideIndex;
pub use scene_types::TraversalState;
pub use side_handler::get_portal_alignment_transform;
pub use side_handler::StandardPortalHandler;
pub use side_handler::StandardWallHandler;
pub use side_handler::MAX_PORTAL_RECURSION_DEPTH;
pub use transform::Transform;
pub use vector::Vec3;
