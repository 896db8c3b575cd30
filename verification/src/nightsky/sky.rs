//! The sky of the instanced renderer: its stars, and the description of the
//! device resources that have to stay in step with them and with the
//! surface.

use vstd::prelude::*;
use crate::fixed::Vec2;
use crate::nightsky::circle::CIRCLE_SEGMENTS;
use crate::nightsky::pipeline::{
    configure_surface,
    create_circle_buffer,
    create_multisampled_frame,
    create_star_buffer,
    is_preferred,
    MultisampledFrame,
    StarBuffer,
    SurfaceCapabilities,
    SurfaceConfiguration,
    FRAME_LATENCY,
    SAMPLE_COUNT,
};
use crate::nightsky::screen::{create_screen_size_buffer, ScreenSize};
use crate::nightsky::star::{batch_brightness, in_view, is_batch, scale_used, Star};
use crate::nightsky::utils::{color_of, hex_to_wgpu_color, ColorParseError, Rgba8};
use crate::star_render::{remaining, DrawIndexed, Frame, StarRender};
use crate::utils::RandomSource;

verus! {

/// The stars and the buffer that mirrors them.
struct Field {
    stars: Vec<Star>,
    star_buffer: StarBuffer,
}

/// The surface and the target that is resolved onto it.
#[derive(Clone, Copy)]
struct Target {
    surface_config: SurfaceConfiguration,
    multisampled_frame: MultisampledFrame,
}

/// The sky of the instanced renderer.
pub struct NightSky {
    star_size: i64,
    clear_color: Rgba8,
    index_count: u32,
    screen_size: ScreenSize,
    target: Target,
    field: Field,
}

/// An instanced sky as a value.
pub struct NightSkyView {
    /// The size scale of new stars.
    pub star_size: i64,
    /// How the surface is configured.
    pub surface_config: SurfaceConfiguration,
    /// The colour behind the stars.
    pub clear_color: Rgba8,
    /// The stars, in their order.
    pub stars: Seq<Star>,
    /// The instance buffer.
    pub star_buffer: StarBuffer,
    /// The number of indices of the mesh.
    pub index_count: u32,
    /// The target that frames are drawn into.
    pub multisampled_frame: MultisampledFrame,
    /// The size of the display when the sky was made.
    pub screen_size: ScreenSize,
}

impl View for NightSky {
    type V = NightSkyView;

    closed spec fn view(&self) -> NightSkyView {
        NightSkyView {
            star_size: self.star_size,
            surface_config: self.target.surface_config,
            clear_color: self.clear_color,
            stars: self.field.stars@,
            star_buffer: self.field.star_buffer,
            index_count: self.index_count,
            multisampled_frame: self.target.multisampled_frame,
            screen_size: self.screen_size,
        }
    }
}

/// The multisampled target that goes with a surface.
pub open spec fn frame_for(config: SurfaceConfiguration) -> MultisampledFrame {
    MultisampledFrame {
        width: config.width,
        height: config.height,
        sample_count: SAMPLE_COUNT,
        format: config.format,
    }
}

/// Whether a star can have come from another within `delta_time`: it is the
/// other after that time, with some place in the square of the display to
/// jump to.
pub open spec fn moved(before: Star, after: Star, delta_time: int) -> bool {
    exists|fresh: Vec2| in_view(fresh) && after == #[trigger] before.updated(delta_time, fresh)
}

impl NightSkyView {
    /// Whether the device resources fit the stars and the surface: the
    /// instance buffer holds one record per star, the multisampled target is
    /// the one that goes with the surface, and the mesh has its indices.
    pub open spec fn in_step(self) -> bool {
        &&& self.star_buffer.instances == self.stars.len()
        &&& self.multisampled_frame == frame_for(self.surface_config)
        &&& self.index_count == 3 * CIRCLE_SEGMENTS
    }

    /// Whether the brightness of every star lies between zero and one.
    pub open spec fn all_lit(self) -> bool {
        forall|i: int| 0 <= i < self.stars.len() ==> (#[trigger] self.stars[i]).lit()
    }

    /// The sky with other stars, and the instance buffer rebuilt for them.
    pub open spec fn with_stars(self, stars: Seq<Star>) -> NightSkyView {
        NightSkyView { stars, star_buffer: StarBuffer { instances: stars.len() as usize }, ..self }
    }

    /// The sky on a surface of another size, and the multisampled target
    /// made anew for it.
    pub open spec fn resized(self, width: u32, height: u32) -> NightSkyView {
        let surface_config = SurfaceConfiguration { width, height, ..self.surface_config };
        NightSkyView { surface_config, multisampled_frame: frame_for(surface_config), ..self }
    }

    /// What a frame asks for: every star is written to the instance buffer,
    /// and the mesh is drawn once per star unless there is none.
    pub open spec fn frame(self) -> Frame {
        Frame::Instanced {
            clear_color: self.clear_color,
            draw: if self.stars.len() == 0 {
                None
            } else {
                Some(
                    DrawIndexed {
                        index_count: self.index_count,
                        instances: self.stars.len() as u32,
                    },
                )
            },
        }
    }
}

/// Resizing twice to one size leaves a sky as resizing once does.
pub proof fn lemma_resize_is_idempotent(sky: NightSkyView, width: u32, height: u32)
    ensures
        sky.resized(width, height).resized(width, height) == sky.resized(width, height),
        sky.in_step() ==> sky.resized(width, height).in_step(),
{
}

impl NightSky {
    #[verifier::type_invariant]
    spec fn consistent(self) -> bool {
        self@.in_step()
    }

    /// A sky of `star_count` stars on a surface with the given capabilities,
    /// for a display of `canvas_width` by `canvas_height` pixels. The stars
    /// share one drawn brightness. A clear colour that cannot be read is an
    /// error, and then nothing is drawn.
    pub fn new<R: RandomSource>(
        capabilities: &SurfaceCapabilities,
        canvas_width: u32,
        canvas_height: u32,
        clear_color: &str,
        star_count: u32,
        star_size: i64,
        rng: &mut R,
    ) -> (made: Result<NightSky, ColorParseError>)
        requires
            capabilities.srgb_formats@.len() > 0,
            capabilities.present_modes > 0,
            capabilities.alpha_modes > 0,
        ensures
            match color_of(clear_color@) {
                Err(error) => made == Err::<NightSky, ColorParseError>(error),
                Ok(color) => {
                    &&& made is Ok
                    &&& made->Ok_0@.in_step()
                    &&& made->Ok_0@.clear_color == color
                    &&& made->Ok_0@.star_size == star_size
                    &&& made->Ok_0@.screen_size == (ScreenSize {
                        width: canvas_width,
                        height: canvas_height,
                    })
                    &&& made->Ok_0@.surface_config.width == canvas_width
                    &&& made->Ok_0@.surface_config.height == canvas_height
                    &&& made->Ok_0@.surface_config.desired_maximum_frame_latency == FRAME_LATENCY
                    &&& is_preferred(
                        capabilities.srgb_formats@,
                        made->Ok_0@.surface_config.format as int,
                    )
                    &&& made->Ok_0@.stars.len() == star_count
                    &&& made->Ok_0@.all_lit()
                    &&& exists|draw: u32|
                        is_batch(
                            made->Ok_0@.stars,
                            scale_used(star_size as int),
                            #[trigger] batch_brightness(false, draw as int),
                        )
                },
            },
    {
        let surface_config = configure_surface(capabilities, canvas_height, canvas_width);
        let clear_color = match hex_to_wgpu_color(clear_color) {
            Ok(color) => color,
            Err(error) => {
                return Err(error);
            },
        };
        let stars = Star::generate(star_count as usize, star_size, false, rng);
        let circle = create_circle_buffer();
        let star_buffer = create_star_buffer(stars.as_slice());
        let multisampled_frame = create_multisampled_frame(&surface_config);
        let screen_size = create_screen_size_buffer(canvas_width, canvas_height);
        Ok(
            NightSky {
                star_size,
                clear_color,
                index_count: circle.index_count,
                screen_size,
                target: Target { surface_config, multisampled_frame },
                field: Field { stars, star_buffer },
            },
        )
    }

    /// Lets `delta_time` pass for every star.
    pub fn update<R: RandomSource>(&mut self, delta_time: i64, rng: &mut R)
        ensures
            final(self)@ == old(self)@.with_stars(final(self)@.stars),
            final(self)@.in_step(),
            final(self)@.stars.len() == old(self)@.stars.len(),
            forall|i: int|
                0 <= i < old(self)@.stars.len() ==> moved(
                    old(self)@.stars[i],
                    #[trigger] final(self)@.stars[i],
                    delta_time as int,
                ),
            final(self)@.all_lit(),
    {
        proof {
            use_type_invariant(&*self);
        }
        let mut field = Field { stars: Vec::new(), star_buffer: StarBuffer { instances: 0 } };
        core::mem::swap(&mut self.field, &mut field);
        let ghost before = field.stars@;
        let mut i: usize = 0;
        while i < field.stars.len()
            invariant
                i <= field.stars@.len(),
                field.stars@.len() == before.len(),
                field.star_buffer.instances == before.len(),
                forall|k: int| i <= k < before.len() ==> field.stars@[k] == before[k],
                forall|k: int|
                    0 <= k < i ==> moved(before[k], #[trigger] field.stars@[k], delta_time as int),
                forall|k: int| 0 <= k < i ==> (#[trigger] field.stars@[k]).lit(),
            decreases before.len() - i,
        {
            let mut star = field.stars[i];
            star.update(delta_time, rng);
            field.stars.set(i, star);
            i += 1;
        }
        self.field = field;
    }

    /// What a frame asks for.
    pub fn render(&self) -> (frame: Frame)
        ensures
            frame == self@.frame(),
    {
        let draw = if self.field.stars.is_empty() {
            None
        } else {
            Some(DrawIndexed { index_count: self.index_count, instances: self.get_num_stars() })
        };
        Frame::Instanced { clear_color: self.clear_color, draw }
    }

    /// The stars.
    pub fn stars(&self) -> (stars: &Vec<Star>)
        ensures
            stars@ == self@.stars,
    {
        &self.field.stars
    }

    /// The instance buffer that the stars need.
    pub fn star_buffer(&self) -> (buffer: StarBuffer)
        ensures
            buffer == self@.star_buffer,
            buffer.instances == self@.stars.len(),
    {
        proof {
            use_type_invariant(self);
        }
        self.field.star_buffer
    }

    /// How the surface is configured.
    pub fn surface_config(&self) -> (config: SurfaceConfiguration)
        ensures
            config == self@.surface_config,
    {
        self.target.surface_config
    }

    /// The multisampled target that the surface needs.
    pub fn multisampled_frame(&self) -> (frame: MultisampledFrame)
        ensures
            frame == self@.multisampled_frame,
            frame == frame_for(self@.surface_config),
    {
        proof {
            use_type_invariant(self);
        }
        self.target.multisampled_frame
    }

    /// The colour behind the stars.
    pub fn clear_color(&self) -> (color: Rgba8)
        ensures
            color == self@.clear_color,
    {
        self.clear_color
    }

    /// The size of the display when the sky was made.
    pub fn screen_size(&self) -> (size: ScreenSize)
        ensures
            size == self@.screen_size,
    {
        self.screen_size
    }
}

impl StarRender for NightSky {
    /// Lets `delta_time` pass for every star, then asks for all of them to
    /// be written to the instance buffer and drawn.
    fn update_and_render<R: RandomSource>(&mut self, delta_time: i64, rng: &mut R) -> (frame:
        Frame)
        ensures
            final(self)@ == old(self)@.with_stars(final(self)@.stars),
            final(self)@.in_step(),
            final(self)@.stars.len() == old(self)@.stars.len(),
            forall|i: int|
                0 <= i < old(self)@.stars.len() ==> moved(
                    old(self)@.stars[i],
                    #[trigger] final(self)@.stars[i],
                    delta_time as int,
                ),
            final(self)@.all_lit(),
            frame == final(self)@.frame(),
    {
        self.update(delta_time, rng);
        self.render()
    }

    /// Configures the surface for its new size and makes the multisampled
    /// target anew.
    fn resize(&mut self, width: u32, height: u32)
        ensures
            final(self)@ == old(self)@.resized(width, height),
            final(self)@.in_step(),
            old(self)@.all_lit() ==> final(self)@.all_lit(),
    {
        proof {
            use_type_invariant(&*self);
        }
        let surface_config = SurfaceConfiguration { width, height, ..self.target.surface_config };
        let multisampled_frame = create_multisampled_frame(&surface_config);
        self.target = Target { surface_config, multisampled_frame };
    }

    /// Appends `count` stars that start dark, and rebuilds the instance
    /// buffer for the longer list.
    fn add_stars<R: RandomSource>(&mut self, count: u32, rng: &mut R)
        ensures
            final(self)@ == old(self)@.with_stars(final(self)@.stars),
            final(self)@.in_step(),
            final(self)@.stars.len() == old(self)@.stars.len() + count,
            final(self)@.stars.take(old(self)@.stars.len() as int) == old(self)@.stars,
            is_batch(
                final(self)@.stars.skip(old(self)@.stars.len() as int),
                scale_used(old(self)@.star_size as int),
                0,
            ),
            forall|i: int|
                old(self)@.stars.len() <= i < final(self)@.stars.len() ==> (
                #[trigger] final(self)@.stars[i]).brightness == 0,
            old(self)@.all_lit() ==> final(self)@.all_lit(),
    {
        proof {
            use_type_invariant(&*self);
        }
        let mut fresh = Star::generate(count as usize, self.star_size, true, rng);
        let mut field = Field { stars: Vec::new(), star_buffer: StarBuffer { instances: 0 } };
        core::mem::swap(&mut self.field, &mut field);
        field.stars.append(&mut fresh);
        field.star_buffer = create_star_buffer(field.stars.as_slice());
        self.field = field;
    }

    /// Removes the last `count` stars, or all of them if there are fewer,
    /// and rebuilds the instance buffer for the shorter list.
    fn remove_stars(&mut self, count: u32)
        ensures
            final(self)@ == old(self)@.with_stars(
                old(self)@.stars.take(remaining(old(self)@.stars.len() as int, count as int)),
            ),
            final(self)@.stars.len() == remaining(old(self)@.stars.len() as int, count as int),
            final(self)@.in_step(),
            old(self)@.all_lit() ==> final(self)@.all_lit(),
    {
        proof {
            use_type_invariant(&*self);
        }
        let mut field = Field { stars: Vec::new(), star_buffer: StarBuffer { instances: 0 } };
        core::mem::swap(&mut self.field, &mut field);
        let len = field.stars.len();
        let keep = if count as usize >= len {
            0
        } else {
            len - count as usize
        };
        field.stars.truncate(keep);
        field.star_buffer = create_star_buffer(field.stars.as_slice());
        self.field = field;
    }

    fn get_num_stars(&self) -> (count: u32)
        ensures
            count == self@.stars.len() as u32,
            self@.stars.len() <= u32::MAX ==> count == self@.stars.len(),
    {
        #[verifier::truncate]
        (self.field.stars.len() as u32)
    }
}

} // verus!
