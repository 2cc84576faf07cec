//! Triangles, triangle meshes, and the bounding sphere that pre-rejects rays.

use vstd::prelude::*;

use crate::fixed::{fx_add, fx_div, fx_divn, fx_mul, fx_neg, fx_sqrt, fx_sub, spec_abs, spec_add,
    spec_div, spec_divn, spec_min, spec_max, spec_mul, spec_neg, spec_sqrt, spec_sub, fx_abs,
    fx_min, fx_max};
use crate::hit::Hit;
use crate::material::Material;
use crate::model::Model;
use crate::ray::Ray;
use crate::vector::{spec_cross, spec_dot, spec_mag, spec_mag_sq, spec_vadd,
    spec_vscale, spec_vsub, Unit, Vector};

verus! {

/// Half the magnitude of the cross product of two triangle edges: the
/// triangle's area.
pub open spec fn spec_tri_area(p0: Vector, p1: Vector, p2: Vector) -> i64 {
    spec_divn(spec_mag(spec_cross(spec_vsub(p2, p0), spec_vsub(p1, p0))), 2)
}

/// Tolerance of the signed-area containment test (about 2e-10; sub-areas of
/// a contained point must account for the whole area up to this slack).
pub const TRI_EPSILON: i64 = 4;

/// A triangle with its precomputed plane normal and area.
#[derive(Clone, Copy, Debug)]
pub struct Triangle {
    pub normal: Unit,
    pub points: [Vector; 3],
    pub area: i64,
}

/// The area-deficit containment test: the triangle's area minus the three
/// sub-areas spanned with `point` must vanish up to [`TRI_EPSILON`].
pub open spec fn spec_point_in(t: Triangle, point: Vector) -> bool {
    let a0 = spec_divn(
        spec_mag(spec_cross(spec_vsub(t.points[0], t.points[1]), spec_vsub(point, t.points[0]))),
        2,
    );
    let a1 = spec_divn(
        spec_mag(spec_cross(spec_vsub(t.points[1], t.points[2]), spec_vsub(point, t.points[1]))),
        2,
    );
    let a2 = spec_divn(
        spec_mag(spec_cross(spec_vsub(t.points[2], t.points[0]), spec_vsub(point, t.points[2]))),
        2,
    );
    spec_abs(spec_sub(spec_sub(spec_sub(t.area, a0), a1), a2)) <= TRI_EPSILON
}

/// The ray's plane-intersection factor `(p0 - origin) . n / (d . n)`; a ray
/// parallel to the plane (zero denominator) yields zero, which the callers
/// discard like any other miss.
pub open spec fn spec_tri_intersect(t: Triangle, ray: Ray) -> i64 {
    spec_div(
        spec_dot(spec_vsub(t.points[0], ray.origin), t.normal.v),
        spec_dot(ray.direction.v, t.normal.v),
    )
}

impl Triangle {
    /// A triangle from its unit plane normal and vertices; the area is
    /// precomputed once here.
    pub fn new(normal: Unit, points: &[Vector; 3]) -> (t: Triangle)
        ensures
            t.normal == normal,
            t.points == *points,
            t.area == spec_tri_area(points[0], points[1], points[2]),
    {
        let area: i64 = fx_divn(
            points[2].minus(&points[0]).cross(&points[1].minus(&points[0])).magnitude(),
            2,
        );
        Triangle { normal, points: *points, area }
    }

    /// Whether `point` (assumed on the triangle's plane) lies inside the
    /// triangle, edges and vertices included.
    pub fn point_in(&self, point: &Vector) -> (r: bool)
        ensures
            r == spec_point_in(*self, *point),
    {
        let a0: i64 = fx_divn(
            self.points[0].minus(&self.points[1]).cross(&point.minus(&self.points[0])).magnitude(),
            2,
        );
        let a1: i64 = fx_divn(
            self.points[1].minus(&self.points[2]).cross(&point.minus(&self.points[1])).magnitude(),
            2,
        );
        let a2: i64 = fx_divn(
            self.points[2].minus(&self.points[0]).cross(&point.minus(&self.points[2])).magnitude(),
            2,
        );
        fx_abs(fx_sub(fx_sub(fx_sub(self.area, a0), a1), a2)) <= TRI_EPSILON
    }

    /// The plane-intersection factor along `ray`.
    pub fn intersect(&self, ray: &Ray) -> (r: i64)
        ensures
            r == spec_tri_intersect(*self, *ray),
    {
        fx_div(
            self.points[0].minus(&ray.origin).dot(&self.normal.v),
            ray.direction.v.dot(&self.normal.v),
        )
    }
}

/// A bounding sphere used as a cheap pre-rejection test for a mesh.
#[derive(Clone, Copy, PartialEq, Eq, Structural, Debug)]
pub struct BoundingVolume {
    pub center: Vector,
    pub radius_sq: i64,
}

/// Whether `ray` can touch the sphere: the quadratic has a real root and its
/// larger root is nonnegative (the sphere is not entirely behind the ray;
/// the origin may be inside).
pub open spec fn spec_bv_hit(b: BoundingVolume, ray: Ray) -> bool {
    let bb = crate::fixed::spec_muln(spec_dot(ray.direction.v, spec_vsub(ray.origin, b.center)), 2);
    let c = spec_sub(spec_mag_sq(spec_vsub(b.center, ray.origin)), b.radius_sq);
    let d = spec_sub(spec_mul(bb, bb), crate::fixed::spec_muln(c, 4));
    if d < 0 {
        false
    } else {
        spec_add(spec_neg(bb), spec_sqrt(d)) >= 0
    }
}

impl BoundingVolume {
    pub fn new(center: Vector, radius: i64) -> (b: BoundingVolume)
        ensures
            b == (BoundingVolume { center, radius_sq: spec_mul(radius, radius) }),
    {
        BoundingVolume { center, radius_sq: fx_mul(radius, radius) }
    }

    fn hit(&self, ray: &Ray) -> (r: bool)
        ensures
            r == spec_bv_hit(*self, *ray),
    {
        let bb: i64 = crate::fixed::fx_muln(ray.direction.dot_vec(&ray.origin.minus(&self.center)), 2);
        let c: i64 = fx_sub(self.center.minus(&ray.origin).magnitude_squared(), self.radius_sq);
        let d: i64 = fx_sub(fx_mul(bb, bb), crate::fixed::fx_muln(c, 4));
        if d < 0 {
            false
        } else {
            fx_add(fx_neg(bb), fx_sqrt(d)) >= 0
        }
    }
}

/// One triangle weighed against the best hit so far: back-facing triangles
/// are culled, non-forward factors and factors not strictly nearer are
/// skipped, and the containment test decides the rest.
pub open spec fn spec_tri_consider(
    tri: Triangle,
    material: Material,
    ray: Ray,
    best: Option<Hit>,
) -> Option<Hit> {
    if spec_neg(spec_dot(tri.normal.v, ray.direction.v)) < 0 {
        best
    } else {
        let t = spec_tri_intersect(tri, ray);
        let nearer = match best {
            None => true,
            Some(b) => t < b.factor,
        };
        if t <= 0 || !nearer {
            best
        } else {
            let hit_pos = spec_vadd(ray.origin, spec_vscale(ray.direction.v, t));
            if spec_point_in(tri, hit_pos) {
                Some(Hit { factor: t, pos: hit_pos, material, normal: tri.normal })
            } else {
                best
            }
        }
    }
}

/// The scan over a mesh's triangles.
pub open spec fn spec_tri_scan(
    triangles: Seq<Triangle>,
    material: Material,
    ray: Ray,
    best: Option<Hit>,
) -> Option<Hit>
    decreases triangles.len(),
{
    if triangles.len() == 0 {
        best
    } else {
        spec_tri_scan(
            triangles.drop_first(),
            material,
            ray,
            spec_tri_consider(triangles.first(), material, ray, best),
        )
    }
}

proof fn lemma_tri_scan_push(
    triangles: Seq<Triangle>,
    x: Triangle,
    material: Material,
    ray: Ray,
    best: Option<Hit>,
)
    ensures
        spec_tri_scan(triangles.push(x), material, ray, best) == spec_tri_consider(
            x,
            material,
            ray,
            spec_tri_scan(triangles, material, ray, best),
        ),
    decreases triangles.len(),
{
    let s = triangles.push(x);
    if triangles.len() == 0 {
        assert(s.first() == x);
        assert(s.drop_first() =~= Seq::<Triangle>::empty());
    } else {
        assert(s.first() == triangles.first());
        assert(s.drop_first() =~= triangles.drop_first().push(x));
        lemma_tri_scan_push(
            triangles.drop_first(),
            x,
            material,
            ray,
            spec_tri_consider(triangles.first(), material, ray, best),
        );
    }
}

/// An axis-aligned bounding box, grown point by point.
#[derive(Clone, Copy, PartialEq, Eq, Structural, Debug)]
pub struct Aabb {
    pub min: Vector,
    pub max: Vector,
}

pub open spec fn spec_aabb_add_point(b: Aabb, p: Vector) -> Aabb {
    Aabb {
        min: Vector {
            x: spec_min(b.min.x, p.x),
            y: spec_min(b.min.y, p.y),
            z: spec_min(b.min.z, p.z),
            w: 0,
        },
        max: Vector {
            x: spec_max(b.max.x, p.x),
            y: spec_max(b.max.y, p.y),
            z: spec_max(b.max.z, p.z),
            w: 0,
        },
    }
}

pub open spec fn spec_aabb_add_tri(b: Aabb, t: Triangle) -> Aabb {
    spec_aabb_add_point(
        spec_aabb_add_point(spec_aabb_add_point(b, t.points[0]), t.points[1]),
        t.points[2],
    )
}

/// The box of a whole mesh, grown from the zero box, so it always contains
/// the world origin.
pub open spec fn spec_mesh_aabb(triangles: Seq<Triangle>) -> Aabb
    decreases triangles.len(),
{
    if triangles.len() == 0 {
        Aabb { min: Vector { x: 0, y: 0, z: 0, w: 0 }, max: Vector { x: 0, y: 0, z: 0, w: 0 } }
    } else {
        spec_aabb_add_tri(spec_mesh_aabb(triangles.drop_last()), triangles.last())
    }
}

/// The center of a box: the midpoint on each axis.
pub open spec fn spec_aabb_center(b: Aabb) -> Vector {
    Vector {
        x: spec_divn(spec_add(b.min.x, b.max.x), 2),
        y: spec_divn(spec_add(b.min.y, b.max.y), 2),
        z: spec_divn(spec_add(b.min.z, b.max.z), 2),
        w: 0,
    }
}

/// The bounding sphere of a mesh: centered in its box, reaching the box's
/// maximum corner.
pub open spec fn spec_mesh_bounding(triangles: Seq<Triangle>) -> BoundingVolume {
    let b = spec_mesh_aabb(triangles);
    let center = spec_aabb_center(b);
    let radius = spec_mag(spec_vsub(b.max, center));
    BoundingVolume { center, radius_sq: spec_mul(radius, radius) }
}

/// The mesh's answer for a ray: nothing if the bounding sphere rejects it,
/// else the front-facing, contained triangle intersection of smallest
/// nonnegative factor.
pub open spec fn spec_triangle_model_hit(tm: TriangleModel, ray: Ray) -> Option<Hit> {
    if !spec_bv_hit(tm.bounding, ray) {
        None
    } else {
        spec_tri_scan(tm.triangles@, tm.material, ray, None)
    }
}

/// A triangle soup with one shared material and a precomputed bounding
/// sphere.
#[derive(Clone, Debug)]
pub struct TriangleModel {
    pub triangles: Vec<Triangle>,
    pub material: Material,
    pub bounding: BoundingVolume,
}

impl TriangleModel {
    /// A mesh from an already-loaded triangle soup; the bounding sphere is
    /// computed here, once, from the mesh's axis-aligned extents.
    pub fn new(triangles: Vec<Triangle>, material: Material) -> (tm: TriangleModel)
        ensures
            tm.triangles == triangles,
            tm.material == material,
            tm.bounding == spec_mesh_bounding(triangles@),
    {
        let mut aabb: Aabb = Aabb {
            min: Vector::zeros(),
            max: Vector::zeros(),
        };
        let n: usize = triangles.len();
        let mut i: usize = 0;
        while i < n
            invariant
                i <= n,
                n == triangles@.len(),
                aabb == spec_mesh_aabb(triangles@.take(i as int)),
            decreases n - i,
        {
            let t: &Triangle = &triangles[i];
            let mut b: Aabb = aabb;
            let mut j: usize = 0;
            while j < 3
                invariant
                    j <= 3,
                    t == triangles@[i as int],
                    j == 0 ==> b == aabb,
                    j == 1 ==> b == spec_aabb_add_point(aabb, t.points[0]),
                    j == 2 ==> b == spec_aabb_add_point(
                        spec_aabb_add_point(aabb, t.points[0]),
                        t.points[1],
                    ),
                    j == 3 ==> b == spec_aabb_add_tri(aabb, *t),
                decreases 3 - j,
            {
                let p: Vector = t.points[j];
                b = Aabb {
                    min: Vector::new(
                        fx_min(b.min.x, p.x),
                        fx_min(b.min.y, p.y),
                        fx_min(b.min.z, p.z),
                        0,
                    ),
                    max: Vector::new(
                        fx_max(b.max.x, p.x),
                        fx_max(b.max.y, p.y),
                        fx_max(b.max.z, p.z),
                        0,
                    ),
                };
                j = j + 1;
            }
            proof {
                assert(triangles@.take(i + 1).drop_last() =~= triangles@.take(i as int));
                assert(triangles@.take(i + 1).last() == triangles@[i as int]);
            }
            aabb = b;
            i = i + 1;
        }
        proof {
            assert(triangles@.take(n as int) =~= triangles@);
        }
        let center: Vector = Vector::new(
            fx_divn(fx_add(aabb.min.x, aabb.max.x), 2),
            fx_divn(fx_add(aabb.min.y, aabb.max.y), 2),
            fx_divn(fx_add(aabb.min.z, aabb.max.z), 2),
            0,
        );
        let radius: i64 = aabb.max.minus(&center).magnitude();
        TriangleModel { triangles, material, bounding: BoundingVolume::new(center, radius) }
    }
}

impl Model for TriangleModel {
    open spec fn hit_spec(&self, ray: Ray) -> Option<Hit> {
        spec_triangle_model_hit(*self, ray)
    }

    fn hit(&self, ray: &Ray) -> (r: Option<Hit>)
        ensures
            r == self.hit_spec(*ray),
    {
        if !self.bounding.hit(ray) {
            return None;
        }
        let mut best: Option<Hit> = None;
        let n: usize = self.triangles.len();
        let mut i: usize = 0;
        while i < n
            invariant
                i <= n,
                n == self.triangles@.len(),
                best == spec_tri_scan(self.triangles@.take(i as int), self.material, *ray, None),
            decreases n - i,
        {
            let tri: &Triangle = &self.triangles[i];
            proof {
                lemma_tri_scan_push(
                    self.triangles@.take(i as int),
                    self.triangles@[i as int],
                    self.material,
                    *ray,
                    None,
                );
                assert(self.triangles@.take(i + 1) =~= self.triangles@.take(i as int).push(
                    self.triangles@[i as int],
                ));
            }
            if fx_neg(tri.normal.dot(&ray.direction)) < 0 {
                i = i + 1;
                continue ;
            }
            let t: i64 = tri.intersect(ray);
            let nearer: bool = match &best {
                None => true,
                Some(b) => t < b.factor,
            };
            if t <= 0 || !nearer {
                i = i + 1;
                continue ;
            }
            let hit_pos: Vector = ray.origin.plus(&ray.direction.scale(t));
            if tri.point_in(&hit_pos) {
                best = Some(Hit::new(t, hit_pos, self.material, tri.normal));
            }
            i = i + 1;
        }
        proof {
            assert(self.triangles@.take(n as int) =~= self.triangles@);
        }
        best
    }
}

} // verus!
