//! Rendering: the shading pipeline run over every pixel of a camera's view,
//! one pixel after the other or many at a time.

use vstd::prelude::*;
use rayon::iter::{IntoParallelIterator, ParallelIterator};
use crate::camera::Camera;
use crate::canvas::{lemma_index_in_grid, lemma_pixel_place, Canvas, CanvasError, Pixel};
use crate::color::Color;
use crate::scalar::Scalar;
use crate::shading::{spec_color_at, MAX_REFLECTION_RECURSION_DEPTH};
use crate::world::{World, WorldOps};

verus! {

/// Why a render gave no picture.
#[derive(Clone, Copy, Debug, PartialEq, Eq, Structural)]
pub enum RenderError {
    /// The pixel buffer could not be made.
    Buffer(CanvasError),
}

/// The offsets of the rays within a pixel, as pairs `dx, dy` in units of
/// the size of a pixel: four pairs for two rays per side, nine for three.
pub open spec fn spec_jitter_matrix(n: usize) -> Seq<Scalar> {
    if n == 2 {
        let q = Scalar::spec_ratio(1, 4);
        let m = Scalar::spec_ratio(-1, 4);
        seq![m, q, q, q, m, m, q, Scalar::spec_ratio(-3, 4)]
    } else if n == 3 {
        let t = Scalar::spec_ratio(2, 6);
        let m = t.spec_neg();
        let z = Scalar::spec_zero();
        seq![m, t, z, t, t, t, m, z, z, z, t, z, m, m, z, m, t, m]
    } else {
        Seq::empty()
    }
}

impl Camera {
    /// Where pixels are means of several rays, there are two or three rays
    /// per side.
    pub open spec fn spec_samples_valid(&self) -> bool {
        self.antialiasing ==> self.antialiasing_size == 2 || self.antialiasing_size == 3
    }
}

/// The sum of the colours of the first `k` rays through pixel `(x, y)`.
pub open spec fn spec_sample_sum(world: World, camera: Camera, x: usize, y: usize, jitter: Seq<Scalar>, k: int) -> Color
    decreases k,
{
    if k <= 0 {
        Color::spec_black()
    } else {
        spec_color_at(
            world,
            camera.spec_ray_for_pixel_anti_aliasing(
                x,
                y,
                jitter[2 * (k - 1)].spec_mul(camera.pixel_size),
                jitter[2 * (k - 1) + 1].spec_mul(camera.pixel_size),
            ),
            MAX_REFLECTION_RECURSION_DEPTH as int,
        ).spec_add(spec_sample_sum(world, camera, x, y, jitter, k - 1))
    }
}

/// The colour of pixel `(x, y)`: that of the ray through its centre, or the
/// mean over the jittered rays where the camera asks for them.
pub open spec fn spec_pixel_color(world: World, camera: Camera, x: usize, y: usize) -> Color {
    if camera.antialiasing {
        let samples = camera.antialiasing_size * camera.antialiasing_size;
        spec_sample_sum(world, camera, x, y, spec_jitter_matrix(camera.antialiasing_size), samples).spec_shrink(
            Scalar::spec_from_usize(samples as usize),
        )
    } else {
        spec_color_at(world, camera.spec_ray_for_pixel(x, y), MAX_REFLECTION_RECURSION_DEPTH as int)
    }
}

/// The pixel with the colour that the scene gives it.
pub open spec fn spec_shade_pixel(p: Pixel, world: World, camera: Camera) -> Pixel {
    Pixel { x: p.x, y: p.y, color: spec_pixel_color(world, camera, p.x, p.y) }
}

/// `canvas` is the picture that `camera` takes of `world`.
pub open spec fn spec_rendered(world: World, camera: Camera, canvas: Canvas) -> bool {
    &&& canvas.wf()
    &&& canvas.width == camera.hsize
    &&& canvas.height == camera.vsize
    &&& forall|x: int, y: int|
        0 <= x < canvas.width && 0 <= y < canvas.height ==> #[trigger] canvas.spec_pixel_at(x, y)
            == spec_pixel_color(world, camera, x as usize, y as usize)
}

/// What every way of rendering owes: the picture where the buffer can be
/// made, and the error where it cannot.
pub open spec fn spec_render_outcome(world: World, camera: Camera, r: Result<Canvas, RenderError>) -> bool {
    match r {
        Ok(canvas) => camera.hsize * camera.vsize <= usize::MAX && spec_rendered(world, camera, canvas),
        Err(e) => camera.hsize * camera.vsize > usize::MAX && e == RenderError::Buffer(
            CanvasError::InvalidDimensions,
        ),
    }
}

/// A well-formed canvas whose pixels, taken one by one, have the colours of
/// the scene is the picture of the scene.
proof fn lemma_rendered_by_place(world: World, camera: Camera, canvas: Canvas)
    requires
        canvas.wf(),
        canvas.width == camera.hsize,
        canvas.height == camera.vsize,
        forall|i: int|
            0 <= i < canvas.pixels@.len() ==> (#[trigger] canvas.pixels@[i]).color == spec_pixel_color(
                world,
                camera,
                canvas.pixels@[i].x,
                canvas.pixels@[i].y,
            ),
    ensures
        spec_rendered(world, camera, canvas),
{
    assert forall|x: int, y: int| 0 <= x < canvas.width && 0 <= y < canvas.height implies #[trigger]
        canvas.spec_pixel_at(x, y) == spec_pixel_color(world, camera, x as usize, y as usize) by {
        lemma_index_in_grid(canvas.width as int, canvas.height as int, x, y);
        let i = y * canvas.width + x;
        assert(canvas.pixels@[i].x == x && canvas.pixels@[i].y == y);
    }
}

/// Two pictures of the same scene through the same camera are the same,
/// pixel for pixel, whichever way each was rendered.
pub proof fn lemma_backends_agree(world: World, camera: Camera, a: Canvas, b: Canvas)
    requires
        spec_rendered(world, camera, a),
        spec_rendered(world, camera, b),
    ensures
        a.width == b.width,
        a.height == b.height,
        a.pixels@ == b.pixels@,
{
    assert forall|i: int| 0 <= i < a.pixels@.len() implies a.pixels@[i] == b.pixels@[i] by {
        lemma_pixel_place(a, i);
        lemma_pixel_place(b, i);
        let x = a.pixels@[i].x as int;
        let y = a.pixels@[i].y as int;
        assert(a.spec_pixel_at(x, y) == spec_pixel_color(world, camera, x as usize, y as usize));
        assert(b.spec_pixel_at(x, y) == spec_pixel_color(world, camera, x as usize, y as usize));
    }
    assert(a.pixels@ =~= b.pixels@);
}

fn jitter_matrix(n: usize) -> (v: Vec<Scalar>)
    ensures
        v@ == spec_jitter_matrix(n),
{
    let mut v: Vec<Scalar> = Vec::new();
    if n == 2 {
        let q = Scalar::ratio(1, 4);
        let m = Scalar::ratio(-1, 4);
        v.push(m);
        v.push(q);
        v.push(q);
        v.push(q);
        v.push(m);
        v.push(m);
        v.push(q);
        v.push(Scalar::ratio(-3, 4));
    }
    if n == 3 {
        let two_over_six = Scalar::ratio(2, 6);
        let m = two_over_six.neg();
        let z = Scalar::zero();
        v.push(m);
        v.push(two_over_six);
        v.push(z);
        v.push(two_over_six);
        v.push(two_over_six);
        v.push(two_over_six);
        v.push(m);
        v.push(z);
        v.push(z);
        v.push(z);
        v.push(two_over_six);
        v.push(z);
        v.push(m);
        v.push(m);
        v.push(z);
        v.push(m);
        v.push(two_over_six);
        v.push(m);
    }
    assert(v@ =~= spec_jitter_matrix(n));
    v
}

/// The colour of pixel `(x, y)` in the picture that `c` takes of `world`.
pub fn pixel_color(world: &World, c: &Camera, x: usize, y: usize) -> (color: Color)
    requires
        world.spec_fits(),
        c.spec_samples_valid(),
    ensures
        color == spec_pixel_color(*world, *c, x, y),
{
    if c.antialiasing {
        let n = c.antialiasing_size;
        let jitter = jitter_matrix(n);
        let samples: usize = n * n;
        let mut color = Color::black();
        let mut sample: usize = 0;
        while sample < samples
            invariant
                world.spec_fits(),
                sample <= samples,
                samples <= 9,
                jitter@.len() == 2 * samples,
                color == spec_sample_sum(*world, *c, x, y, jitter@, sample as int),
            decreases samples - sample,
        {
            let delta_x = jitter[2 * sample].mul(c.pixel_size);
            let delta_y = jitter[2 * sample + 1].mul(c.pixel_size);
            let r = Camera::ray_for_pixel_anti_aliasing(c, x, y, delta_x, delta_y);
            color = World::color_at(world, &r, MAX_REFLECTION_RECURSION_DEPTH).add(color);
            sample += 1;
        }
        color.shrink(Scalar::from_usize(samples))
    } else {
        let r = Camera::ray_for_pixel(c, x, y);
        World::color_at(world, &r, MAX_REFLECTION_RECURSION_DEPTH)
    }
}

/// Gives one pixel the colour that the scene gives it.
pub fn shade_pixel(p: &mut Pixel, world: &World, camera: &Camera)
    requires
        world.spec_fits(),
        camera.spec_samples_valid(),
    ensures
        *final(p) == spec_shade_pixel(*old(p), *world, *camera),
{
    p.color = pixel_color(world, camera, p.x, p.y);
}

/// Runs `shade_pixel` on every pixel, from the first to the last.
fn shade_pixels_in_turn(pixels: &mut Vec<Pixel>, world: &World, camera: &Camera)
    requires
        world.spec_fits(),
        camera.spec_samples_valid(),
    ensures
        final(pixels)@.len() == old(pixels)@.len(),
        forall|i: int|
            0 <= i < old(pixels)@.len() ==> #[trigger] final(pixels)@[i] == spec_shade_pixel(
                old(pixels)@[i],
                *world,
                *camera,
            ),
{
    let n = pixels.len();
    let mut i: usize = 0;
    while i < n
        invariant
            world.spec_fits(),
            camera.spec_samples_valid(),
            i <= n == pixels@.len() == old(pixels)@.len(),
            forall|j: int| 0 <= j < i ==> #[trigger] pixels@[j] == spec_shade_pixel(old(pixels)@[j], *world, *camera),
            forall|j: int| i <= j < n ==> #[trigger] pixels@[j] == old(pixels)@[j],
        decreases n - i,
    {
        let mut p = pixels[i];
        shade_pixel(&mut p, world, camera);
        pixels.set(i, p);
        i += 1;
    }
}

/// Runs `shade_pixel` on every pixel on rayon's thread pool: the vector is
/// turned into a parallel iterator by `IntoParallelIterator::into_par_iter`
/// and the pixels are handed out by `ParallelIterator::for_each`.
///
/// Nothing of this is proved. It is taken from rayon that `for_each` calls
/// the closure once on every element of the vector and on nothing else, and
/// returns when all calls have returned. Each pixel is then left as
/// `shade_pixel` is proved to leave it, which is what the contract says.
#[verifier::external_body]
fn shade_pixels_in_parallel(pixels: &mut Vec<Pixel>, world: &World, camera: &Camera)
    requires
        world.spec_fits(),
        camera.spec_samples_valid(),
    ensures
        final(pixels)@.len() == old(pixels)@.len(),
        forall|i: int|
            0 <= i < old(pixels)@.len() ==> #[trigger] final(pixels)@[i] == spec_shade_pixel(
                old(pixels)@[i],
                *world,
                *camera,
            ),
{
    pixels.into_par_iter().for_each(|p| shade_pixel(p, world, camera));
}

/// The capability to render a scene through a camera into a pixel buffer.
pub trait Backend {
    fn render_world(&self, world: &World, c: &Camera) -> (r: Result<Canvas, RenderError>)
        requires
            world.spec_fits(),
            c.spec_samples_valid(),
        ensures
            spec_render_outcome(*world, *c, r),
    ;
}

/// Rendering on the processor, on one core or on all.
#[derive(Clone, Copy, Debug, PartialEq, Eq, Structural)]
pub struct BackendCpu {
    pub multi_core: bool,
    pub num_cores: usize,
}

impl Backend for BackendCpu {
    fn render_world(&self, world: &World, c: &Camera) -> (r: Result<Canvas, RenderError>) {
        if self.multi_core {
            return self.render_multi_core(world, c);
        } else {
            return self.render_single_core(world, c);
        }
    }
}

impl BackendCpu {
    pub fn new() -> (b: BackendCpu)
        ensures
            b == (BackendCpu { multi_core: false, num_cores: 0 }),
    {
        BackendCpu { multi_core: false, num_cores: 0 }
    }

    pub fn enable_multicore(&mut self)
        ensures
            *final(self) == (BackendCpu { multi_core: true, ..*old(self) }),
    {
        self.multi_core = true;
    }

    /// Renders pixel after pixel, row after row.
    pub fn render_single_core(&self, world: &World, c: &Camera) -> (r: Result<Canvas, RenderError>)
        requires
            world.spec_fits(),
            c.spec_samples_valid(),
        ensures
            spec_render_outcome(*world, *c, r),
    {
        let mut canvas = match Canvas::new(c.get_hsize(), c.get_vsize()) {
            Ok(canvas) => canvas,
            Err(e) => {
                return Err(RenderError::Buffer(e));
            },
        };
        let ghost before = canvas;
        shade_pixels_in_turn(canvas.get_pixels_mut(), world, c);
        proof {
            assert forall|i: int| 0 <= i < canvas.pixels@.len() implies (#[trigger] canvas.pixels@[i]).x == i % (
            canvas.width as int) && canvas.pixels@[i].y == i / (canvas.width as int) by {
                assert(before.pixels@[i].x == i % (before.width as int));
            }
            lemma_rendered_by_place(*world, *c, canvas);
        }
        Ok(canvas)
    }

    /// Renders the single pixel `(300, 240)` and leaves the others black.
    pub fn render_single_core_debug(&self, world: &World, c: &Camera) -> (r: Result<Canvas, RenderError>)
        requires
            world.spec_fits(),
            c.hsize > 300,
            c.vsize > 240,
        ensures
            match r {
                Ok(canvas) => {
                    &&& c.hsize * c.vsize <= usize::MAX
                    &&& canvas.wf()
                    &&& canvas.width == c.hsize
                    &&& canvas.height == c.vsize
                    &&& forall|x: int, y: int|
                        0 <= x < canvas.width && 0 <= y < canvas.height ==> #[trigger] canvas.spec_pixel_at(x, y)
                            == (if x == 300 && y == 240 {
                            spec_color_at(
                                *world,
                                c.spec_ray_for_pixel(300, 240),
                                MAX_REFLECTION_RECURSION_DEPTH as int,
                            )
                        } else {
                            Color::spec_black()
                        })
                },
                Err(e) => c.hsize * c.vsize > usize::MAX && e == RenderError::Buffer(CanvasError::InvalidDimensions),
            },
    {
        let mut canvas = match Canvas::new(c.get_hsize(), c.get_vsize()) {
            Ok(canvas) => canvas,
            Err(e) => {
                return Err(RenderError::Buffer(e));
            },
        };
        let x: usize = 300;
        let y: usize = 240;
        let r = Camera::ray_for_pixel(c, x, y);
        let color = World::color_at(world, &r, MAX_REFLECTION_RECURSION_DEPTH);
        let ghost before = canvas;
        canvas.write_pixel(x, y, color);
        proof {
            assert forall|px: int, py: int| 0 <= px < canvas.width && 0 <= py < canvas.height implies #[trigger]
                canvas.spec_pixel_at(px, py) == (if px == 300 && py == 240 {
                color
            } else {
                Color::spec_black()
            }) by {
                lemma_index_in_grid(canvas.width as int, canvas.height as int, px, py);
                lemma_index_in_grid(canvas.width as int, canvas.height as int, 300, 240);
                let i = py * canvas.width + px;
                assert(before.pixels@[i].color == Color::spec_black());
            }
        }
        Ok(canvas)
    }

    /// Renders all pixels at once, as far as there are cores for them.
    pub fn render_multi_core(&self, world: &World, c: &Camera) -> (r: Result<Canvas, RenderError>)
        requires
            world.spec_fits(),
            c.spec_samples_valid(),
        ensures
            spec_render_outcome(*world, *c, r),
    {
        let mut canvas = match Canvas::new(c.get_hsize(), c.get_vsize()) {
            Ok(canvas) => canvas,
            Err(e) => {
                return Err(RenderError::Buffer(e));
            },
        };
        let ghost before = canvas;
        shade_pixels_in_parallel(canvas.get_pixels_mut(), world, c);
        proof {
            assert forall|i: int| 0 <= i < canvas.pixels@.len() implies (#[trigger] canvas.pixels@[i]).x == i % (
            canvas.width as int) && canvas.pixels@[i].y == i / (canvas.width as int) by {
                assert(before.pixels@[i].x == i % (before.width as int));
            }
            lemma_rendered_by_place(*world, *c, canvas);
        }
        Ok(canvas)
    }
}

} // verus!
