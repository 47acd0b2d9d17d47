//! The scene description handed to the GPU program each frame.
//!
//! The scene holds the camera, one point light and a fixed-capacity array of
//! signed-distance shapes. Its invariant: the shape count never exceeds the
//! array capacity, entries past the count stay zeroed, every scalar is in
//! range, and the camera position and the look-at point never coincide (the
//! view direction keeps a non-zero length). All camera movement goes through
//! the `&mut self` methods below, one coordinated update per tick, and each
//! method preserves the invariant and states exactly how it moves the two
//! camera points.

use vstd::prelude::*;
use vstd::math::abs;
use crate::fixed::FX_BOUND;
use crate::fixed::SCALE;
use crate::fixed::fx_ok;
use crate::vec3::V3;
use crate::vec3::Vec3;

verus! {

/// Capacity of the shape array; the GPU-side program is compiled for exactly
/// this many entries.
pub const MAX_SHAPES: usize = 10;

/// What a shape's signed-distance function is.
#[derive(Clone, Copy, Debug, PartialEq, Eq, Structural)]
pub enum ShapeKind {
    /// An unused entry; the GPU program skips it.
    Empty,
    Sphere,
    WobblySphere,
    Mandelbulb,
}

impl ShapeKind {
    /// The code this kind is encoded as in the GPU-side record.
    pub open spec fn code_spec(self) -> u32 {
        match self {
            ShapeKind::Empty => 0u32,
            ShapeKind::Sphere => 1u32,
            ShapeKind::WobblySphere => 2u32,
            ShapeKind::Mandelbulb => 3u32,
        }
    }

    /// Encode this kind for the GPU-side record.
    pub fn code(self) -> (c: u32)
        ensures
            c == self.code_spec(),
    {
        match self {
            ShapeKind::Empty => 0u32,
            ShapeKind::Sphere => 1u32,
            ShapeKind::WobblySphere => 2u32,
            ShapeKind::Mandelbulb => 3u32,
        }
    }
}

/// One signed-distance shape: where it is, its half-extents, its colour and
/// its kind.
#[derive(Clone, Copy, Debug, PartialEq, Eq, Structural)]
pub struct Shape {
    pub position: Vec3,
    pub size: Vec3,
    pub albedo: Vec3,
    pub kind: ShapeKind,
}

impl Shape {
    /// Every scalar of the shape is in range.
    pub open spec fn wf(self) -> bool {
        &&& self.position.wf()
        &&& self.size.wf()
        &&& self.albedo.wf()
    }

    /// The all-zero shape that fills unused entries of the shape array.
    pub open spec fn zeroed_spec() -> Shape {
        Shape {
            position: Vec3 { x: 0, y: 0, z: 0 },
            size: Vec3 { x: 0, y: 0, z: 0 },
            albedo: Vec3 { x: 0, y: 0, z: 0 },
            kind: ShapeKind::Empty,
        }
    }

    /// The entry is zeroed.
    pub open spec fn is_zeroed(self) -> bool {
        self == Shape::zeroed_spec()
    }
}

impl Default for Shape {
    /// The all-zero shape.
    fn default() -> (s: Shape)
        ensures
            s == Shape::zeroed_spec(),
    {
        Shape {
            position: Vec3 { x: 0, y: 0, z: 0 },
            size: Vec3 { x: 0, y: 0, z: 0 },
            albedo: Vec3 { x: 0, y: 0, z: 0 },
            kind: ShapeKind::Empty,
        }
    }
}

/// The host-side scene record: camera, light and shape array.
pub struct SceneDescription {
    pub camera_pos: Vec3,
    pub look_at: Vec3,
    pub canvas_dist: i64,
    pub point_light: Vec3,
    pub light_colour: Vec3,
    pub shape_count: u32,
    pub shapes: Vec<Shape>,
}

impl SceneDescription {
    /// The scene invariant: scalars in range, the shape array exactly at
    /// capacity, the count within it, entries past the count zeroed, and a
    /// view direction of non-zero length.
    pub open spec fn wf(self) -> bool {
        &&& self.camera_pos.wf()
        &&& self.look_at.wf()
        &&& fx_ok(self.canvas_dist as int)
        &&& self.point_light.wf()
        &&& self.light_colour.wf()
        &&& self.shapes@.len() == MAX_SHAPES
        &&& 1 <= self.shape_count <= MAX_SHAPES
        &&& forall|i: int| 0 <= i < MAX_SHAPES ==> (#[trigger] self.shapes@[i]).wf()
        &&& forall|i: int| self.shape_count <= i < MAX_SHAPES ==> (#[trigger] self.shapes@[i]).is_zeroed()
        &&& self.camera_pos@ != self.look_at@
    }

    /// The offset from the camera to the look-at point.
    pub open spec fn view_offset(self) -> V3 {
        self.look_at@.minus(self.camera_pos@)
    }

    /// Everything but the two camera points is unchanged.
    pub open spec fn same_but_camera(self, o: SceneDescription) -> bool {
        &&& self.canvas_dist == o.canvas_dist
        &&& self.point_light == o.point_light
        &&& self.light_colour == o.light_colour
        &&& self.shape_count == o.shape_count
        &&& self.shapes@ == o.shapes@
    }

    /// The raw strafe direction: world-up crossed with the unit view
    /// direction.
    pub open spec fn strafe_dir_raw(self) -> V3 {
        (V3 { x: 0, y: SCALE as int, z: 0 }).crossed(self.view_offset().unit())
    }

    /// Move the camera and the look-at point by `step` along the unit view
    /// direction. A pure translation of both points: the camera-to-target
    /// offset is preserved exactly.
    pub fn dolly(&mut self, step: i64)
        requires
            old(self).wf(),
            fx_ok(step as int),
            old(self).camera_pos@.within(FX_BOUND - abs(step as int)),
            old(self).look_at@.within(FX_BOUND - abs(step as int)),
        ensures
            final(self).wf(),
            final(self).camera_pos@ == old(self).camera_pos@.plus(
                old(self).view_offset().unit().scaled(step as int),
            ),
            final(self).look_at@ == old(self).look_at@.plus(
                old(self).view_offset().unit().scaled(step as int),
            ),
            final(self).view_offset() == old(self).view_offset(),
            final(self).same_but_camera(*old(self)),
    {
        let dirv: Vec3 = self.look_at.minus(self.camera_pos);
        let d: Vec3 = dirv.unit();
        let mv: Vec3 = d.scaled(step);
        self.camera_pos = self.camera_pos.plus(mv);
        self.look_at = self.look_at.plus(mv);
    }

    /// Move the camera and the look-at point by `step` along the strafe
    /// direction (world-up crossed with the unit view direction). When that
    /// cross product is the zero vector — the camera looks straight along
    /// world-up — the state is left unchanged, since there is no defined
    /// sideways direction. Otherwise this is a pure translation of both
    /// points, preserving the camera-to-target offset exactly.
    pub fn strafe(&mut self, step: i64)
        requires
            old(self).wf(),
            fx_ok(step as int),
            old(self).camera_pos@.within(FX_BOUND - abs(step as int)),
            old(self).look_at@.within(FX_BOUND - abs(step as int)),
        ensures
            final(self).wf(),
            old(self).strafe_dir_raw().is_zero() ==> final(self).camera_pos
                == old(self).camera_pos && final(self).look_at == old(self).look_at,
            !old(self).strafe_dir_raw().is_zero() ==> final(self).camera_pos@
                == old(self).camera_pos@.plus(
                old(self).strafe_dir_raw().unit().scaled(step as int),
            ) && final(self).look_at@ == old(self).look_at@.plus(
                old(self).strafe_dir_raw().unit().scaled(step as int),
            ),
            final(self).view_offset() == old(self).view_offset(),
            final(self).same_but_camera(*old(self)),
    {
        let dirv: Vec3 = self.look_at.minus(self.camera_pos);
        let d: Vec3 = dirv.unit();
        let up: Vec3 = Vec3 { x: 0, y: SCALE, z: 0 };
        let c: Vec3 = up.crossed(d);
        if c.is_zero() {
            return ;
        }
        let mv: Vec3 = c.unit().scaled(step);
        self.camera_pos = self.camera_pos.plus(mv);
        self.look_at = self.look_at.plus(mv);
    }

    /// Move the camera and the look-at point by `step` along world-up. A pure
    /// translation of both points: the camera-to-target offset is preserved
    /// exactly.
    pub fn vertical(&mut self, step: i64)
        requires
            old(self).wf(),
            fx_ok(step as int),
            fx_ok(old(self).camera_pos@.y + step),
            fx_ok(old(self).look_at@.y + step),
        ensures
            final(self).wf(),
            final(self).camera_pos@ == old(self).camera_pos@.plus(
                (V3 { x: 0, y: step as int, z: 0 }),
            ),
            final(self).look_at@ == old(self).look_at@.plus(
                (V3 { x: 0, y: step as int, z: 0 }),
            ),
            final(self).view_offset() == old(self).view_offset(),
            final(self).same_but_camera(*old(self)),
    {
        let mv: Vec3 = Vec3 { x: 0, y: step, z: 0 };
        self.camera_pos = self.camera_pos.plus(mv);
        self.look_at = self.look_at.plus(mv);
    }

    /// Point the camera: set the look-at point to the camera position plus
    /// the offset an orbit tick rebuilt. A zero offset is ignored — the view
    /// direction must keep a non-zero length — so a degenerate orbit tick
    /// leaves the camera state untouched.
    pub fn apply_orbit_offset(&mut self, off: Vec3)
        requires
            old(self).wf(),
            old(self).camera_pos@.plus(off@).within(FX_BOUND as int),
        ensures
            final(self).wf(),
            !off@.is_zero() ==> final(self).look_at@ == old(self).camera_pos@.plus(off@),
            off@.is_zero() ==> final(self).look_at == old(self).look_at,
            final(self).camera_pos == old(self).camera_pos,
            final(self).same_but_camera(*old(self)),
    {
        if !off.is_zero() {
            self.look_at = self.camera_pos.plus(off);
        }
    }
}

/// Translations preserve the camera-to-target offset: moving the camera
/// position and the look-at point by one and the same vector leaves their
/// difference — and so the camera-to-target distance — exactly unchanged.
/// Dolly, strafe and vertical movement are all such translations.
pub proof fn lemma_translation_preserves_offset(cam: V3, look: V3, mv: V3)
    ensures
        look.plus(mv).minus(cam.plus(mv)) == look.minus(cam),
{
}

/// The scene the renderer starts with: the camera ten units out on the z
/// axis looking at the origin, a white point light above and behind the
/// scene, and three shapes — a Mandelbulb flanked by two spheres.
pub fn initial_scene() -> (s: SceneDescription)
    ensures
        s.wf(),
        s.camera_pos@ == (V3 { x: 0, y: 0, z: 10 * SCALE }),
        s.look_at@ == (V3 { x: 0, y: 0, z: 0 }),
        s.canvas_dist == 10 * SCALE,
        s.point_light@ == (V3 { x: 0, y: 100 * SCALE, z: 200 * SCALE }),
        s.light_colour@ == (V3 { x: SCALE as int, y: SCALE as int, z: SCALE as int }),
        s.shape_count == 3,
        s.shapes@[0] == (Shape {
            position: Vec3 { x: 0, y: 0, z: 0 },
            size: Vec3 { x: 600_000, y: 600_000, z: 600_000 },
            albedo: Vec3 { x: 100_000, y: 0, z: 200_000 },
            kind: ShapeKind::Mandelbulb,
        }),
        s.shapes@[1] == (Shape {
            position: Vec3 { x: 1_600_000, y: 0, z: 0 },
            size: Vec3 { x: SCALE, y: SCALE, z: SCALE },
            albedo: Vec3 { x: 0, y: 400_000, z: 800_000 },
            kind: ShapeKind::Sphere,
        }),
        s.shapes@[2] == (Shape {
            position: Vec3 { x: -1_200_000i64, y: 500_000i64, z: -400_000i64 },
            size: Vec3 { x: 1_800_000, y: 1_800_000, z: 1_800_000 },
            albedo: Vec3 { x: 0, y: SCALE, z: 800_000 },
            kind: ShapeKind::Sphere,
        }),
{
    let mut shapes: Vec<Shape> = Vec::new();
    shapes.push(Shape {
        position: Vec3 { x: 0, y: 0, z: 0 },
        size: Vec3 { x: 600_000, y: 600_000, z: 600_000 },
        albedo: Vec3 { x: 100_000, y: 0, z: 200_000 },
        kind: ShapeKind::Mandelbulb,
    });
    shapes.push(Shape {
        position: Vec3 { x: 1_600_000, y: 0, z: 0 },
        size: Vec3 { x: SCALE, y: SCALE, z: SCALE },
        albedo: Vec3 { x: 0, y: 400_000, z: 800_000 },
        kind: ShapeKind::Sphere,
    });
    shapes.push(Shape {
        position: Vec3 { x: -1_200_000i64, y: 500_000i64, z: -400_000i64 },
        size: Vec3 { x: 1_800_000, y: 1_800_000, z: 1_800_000 },
        albedo: Vec3 { x: 0, y: SCALE, z: 800_000 },
        kind: ShapeKind::Sphere,
    });
    while shapes.len() < MAX_SHAPES
        invariant
            3 <= shapes@.len() <= MAX_SHAPES,
            shapes@[0].kind == ShapeKind::Mandelbulb,
            forall|i: int| 0 <= i < shapes@.len() ==> (#[trigger] shapes@[i]).wf(),
            forall|i: int| 3 <= i < shapes@.len() ==> (#[trigger] shapes@[i]).is_zeroed(),
            shapes@[0] == (Shape {
                position: Vec3 { x: 0, y: 0, z: 0 },
                size: Vec3 { x: 600_000, y: 600_000, z: 600_000 },
                albedo: Vec3 { x: 100_000, y: 0, z: 200_000 },
                kind: ShapeKind::Mandelbulb,
            }),
            shapes@[1] == (Shape {
                position: Vec3 { x: 1_600_000, y: 0, z: 0 },
                size: Vec3 { x: SCALE, y: SCALE, z: SCALE },
                albedo: Vec3 { x: 0, y: 400_000, z: 800_000 },
                kind: ShapeKind::Sphere,
            }),
            shapes@[2] == (Shape {
                position: Vec3 { x: -1_200_000i64, y: 500_000i64, z: -400_000i64 },
                size: Vec3 { x: 1_800_000, y: 1_800_000, z: 1_800_000 },
                albedo: Vec3 { x: 0, y: SCALE, z: 800_000 },
                kind: ShapeKind::Sphere,
            }),
        decreases MAX_SHAPES - shapes@.len(),
    {
        shapes.push(Shape::default());
    }
    SceneDescription {
        camera_pos: Vec3 { x: 0, y: 0, z: 10_000_000 },
        look_at: Vec3 { x: 0, y: 0, z: 0 },
        canvas_dist: 10_000_000,
        point_light: Vec3 { x: 0, y: 100_000_000, z: 200_000_000 },
        light_colour: Vec3 { x: SCALE, y: SCALE, z: SCALE },
        shape_count: 3,
        shapes,
    }
}

} // verus!
