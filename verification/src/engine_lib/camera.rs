//! The camera: perspective projection of view-space points to the screen.
use crate::engine_lib::transform::Transform;
use crate::engine_lib::vector::Vec3;
use crate::fixed::div_floor;
use crate::fixed::lemma_floor_div_bounds;
use crate::fixed::saturate;
use crate::fixed::spec_saturate;
use crate::fixed::wide_mul;
use crate::fixed::ONE;
use crate::geometry::Point2;
use vstd::prelude::*;

verus! {

/// A perspective camera that looks down its negative z axis.
#[derive(Clone, Copy, Debug)]
pub struct Camera {
    /// The vertical focal length: the cotangent of half the vertical field
    /// of view.
    pub focal_length_y: i32,
    /// Distance of the near plane.
    pub znear: i32,
    /// Distance of the far plane.
    pub zfar: i32,
}

/// The horizontal focal length for a screen of the given size: the vertical
/// one divided by the aspect ratio.
pub open spec fn spec_focal_length_x(
    focal_length_y: int,
    screen_width: int,
    screen_height: int,
) -> int {
    (focal_length_y * screen_height) / screen_width
}

/// A normalised device coordinate: `coordinate` times `focal_length` over
/// `depth`, the distance in front of the camera.
pub open spec fn spec_ndc(coordinate: int, focal_length: int, depth: int) -> int {
    (coordinate * focal_length) / depth
}

/// The screen position of the view-space point `p`, or `None` where `p` is
/// nearer than the near plane, farther than the far plane or not in front of
/// the camera, or where the screen has no extent.
///
/// The screen's origin is its top left corner, and its y axis points down.
pub open spec fn spec_project(
    camera: Camera,
    p: Vec3,
    screen_width: i32,
    screen_height: i32,
) -> Option<Point2> {
    if p.z > -(camera.znear as int) || p.z < -(camera.zfar as int) || p.z >= 0 || screen_width <= 0
        || screen_height <= 0 {
        None
    } else {
        let depth = -(p.z as int);
        let focal_length_y = camera.focal_length_y as int;
        let focal_length_x = spec_focal_length_x(
            focal_length_y,
            screen_width as int,
            screen_height as int,
        );
        let ndc_x = spec_ndc(p.x as int, focal_length_x, depth);
        let ndc_y = spec_ndc(p.y as int, focal_length_y, depth);
        Some(
            Point2 {
                x: spec_saturate(((ndc_x + ONE) * screen_width) / (2 * (ONE as int))) as i32,
                y: spec_saturate(((ONE - ndc_y) * screen_height) / (2 * (ONE as int))) as i32,
            },
        )
    }
}

impl Camera {
    pub fn new(focal_length_y: i32, znear: i32, zfar: i32) -> (camera: Self)
        ensures
            camera.focal_length_y == focal_length_y,
            camera.znear == znear,
            camera.zfar == zfar,
    {
        Camera { focal_length_y, znear, zfar }
    }

    /// The transform from the blueprint space of the hull that hosts the
    /// camera to the camera's view space: the inverse of the camera's pose
    /// in that hull, where the pose has one.
    pub fn get_view_matrix_from_host_hull(&self, camera_pose_in_host_hull: &Transform) -> (view:
        Option<Transform>)
        ensures
            view == camera_pose_in_host_hull.spec_inverse(),
    {
        camera_pose_in_host_hull.inverse()
    }

    /// A normalised device coordinate.
    fn ndc(coordinate: i32, focal_length: i128, depth: i128) -> (n: i128)
        requires
            depth > 0,
            -0x4000_0000_0000_0000 <= focal_length <= 0x4000_0000_0000_0000,
        ensures
            n as int == spec_ndc(coordinate as int, focal_length as int, depth as int),
            -0x2000_0000_0000_0000_0000_0000 <= n <= 0x2000_0000_0000_0000_0000_0000,
    {
        assert(-0x2000_0000_0000_0000_0000_0000 <= (coordinate as int) * (focal_length as int)
            <= 0x2000_0000_0000_0000_0000_0000) by (nonlinear_arith)
            requires
                -0x8000_0000 <= coordinate <= 0x7fff_ffff,
                -0x4000_0000_0000_0000 <= focal_length <= 0x4000_0000_0000_0000,
        ;
        let scaled: i128 = (coordinate as i128) * focal_length;
        let n: i128 = div_floor(scaled, depth);
        proof {
            lemma_floor_div_bounds(scaled as int, depth as int);
        }
        n
    }

    /// A screen coordinate from a normalised device coordinate that has
    /// been moved to the range from zero to two.
    fn to_screen(shifted: i128, extent: i32) -> (s: i32)
        requires
            -0x4000_0000_0000_0000_0000_0000 <= shifted <= 0x4000_0000_0000_0000_0000_0000,
        ensures
            s as int == spec_saturate(((shifted as int) * (extent as int)) / (2 * (ONE as int))),
    {
        assert(-0x2000_0000_0000_0000_0000_0000_0000_0000 <= (shifted as int) * (extent as int)
            <= 0x2000_0000_0000_0000_0000_0000_0000_0000) by (nonlinear_arith)
            requires
                -0x8000_0000 <= extent <= 0x7fff_ffff,
                -0x4000_0000_0000_0000_0000_0000 <= shifted <= 0x4000_0000_0000_0000_0000_0000,
        ;
        let scaled: i128 = shifted * (extent as i128);
        saturate(div_floor(scaled, 2 * (ONE as i128)))
    }

    /// Projects a point of the camera's view space to the screen.
    pub fn project_camera_space_to_screen_direct(
        &self,
        p_cam: &Vec3,
        screen_width: i32,
        screen_height: i32,
    ) -> (projected: Option<Point2>)
        ensures
            projected == spec_project(*self, *p_cam, screen_width, screen_height),
    {
        if (p_cam.z as i64) > -(self.znear as i64) {
            return None;
        }
        if (p_cam.z as i64) < -(self.zfar as i64) {
            return None;
        }
        if p_cam.z >= 0 {
            return None;
        }
        if screen_width <= 0 || screen_height <= 0 {
            return None;
        }
        let depth: i128 = -(p_cam.z as i128);
        let focal_length_y: i128 = self.focal_length_y as i128;
        let scaled: i128 = wide_mul(self.focal_length_y, screen_height);
        let focal_length_x: i128 = div_floor(scaled, screen_width as i128);
        proof {
            lemma_floor_div_bounds(scaled as int, screen_width as int);
        }
        let ndc_x: i128 = Self::ndc(p_cam.x, focal_length_x, depth);
        let ndc_y: i128 = Self::ndc(p_cam.y, focal_length_y, depth);
        let screen_x: i32 = Self::to_screen(ndc_x + ONE as i128, screen_width);
        let screen_y: i32 = Self::to_screen(ONE as i128 - ndc_y, screen_height);
        Some(Point2 { x: screen_x, y: screen_y })
    }
}

} // verus!
