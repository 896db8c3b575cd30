//! The star system: it picks a renderer once, and hands every call on to it.

use vstd::prelude::*;
use crate::basic::sky::{BasicSky, BasicSkyView, MAX_STARS};
use crate::fixed::ONE;
use crate::nightsky::pipeline::{is_preferred, SurfaceCapabilities, FRAME_LATENCY};
use crate::nightsky::screen::ScreenSize;
use crate::nightsky::sky::{NightSky, NightSkyView};
use crate::nightsky::star::{batch_brightness, is_batch, scale_used};
use crate::nightsky::utils::{color_of, ColorParseError};
use crate::star_render::{remaining, Frame, StarRender};
use crate::system_options::StarSystemOptions;
use crate::utils::{EmptySky, RandomSource};

verus! {

/// The renderer in use.
pub enum Sky {
    /// None yet.
    Empty(EmptySky),
    /// The canvas renderer.
    Basic(BasicSky),
    /// The instanced renderer.
    Night(NightSky),
}

/// A renderer as a value.
pub enum SkyView {
    Empty,
    Basic(BasicSkyView),
    Night(NightSkyView),
}

impl View for Sky {
    type V = SkyView;

    open spec fn view(&self) -> SkyView {
        match self {
            Sky::Empty(_) => SkyView::Empty,
            Sky::Basic(sky) => SkyView::Basic(sky@),
            Sky::Night(sky) => SkyView::Night(sky@),
        }
    }
}

/// A star system.
pub struct StarSystem {
    options: StarSystemOptions,
    sky: Sky,
}

/// A star system as a value.
pub struct StarSystemView {
    pub options: StarSystemOptions,
    pub sky: SkyView,
}

impl View for StarSystem {
    type V = StarSystemView;

    closed spec fn view(&self) -> StarSystemView {
        StarSystemView { options: self.options, sky: self.sky@ }
    }
}

/// How a system was set up.
#[derive(Clone, Debug, PartialEq, Eq)]
pub enum InitOutcome {
    /// With the instanced renderer.
    Advanced,
    /// With the canvas renderer, as the options ask.
    Basic,
    /// With the canvas renderer, because the instanced one could not be had
    /// for the given reason.
    FellBack(String),
}

/// Whether a surface offers what it takes to configure it.
pub open spec fn usable(capabilities: SurfaceCapabilities) -> bool {
    capabilities.srgb_formats@.len() > 0 && capabilities.present_modes > 0
        && capabilities.alpha_modes > 0
}

impl SkyView {
    /// The renderer after the display has taken another size.
    pub open spec fn resized(self, width: u32, height: u32) -> SkyView {
        match self {
            SkyView::Empty => SkyView::Empty,
            SkyView::Basic(sky) => SkyView::Basic(sky.resized(width, height)),
            SkyView::Night(sky) => SkyView::Night(sky.resized(width, height)),
        }
    }

    /// The renderer after the last `count` stars are removed.
    pub open spec fn shortened(self, count: u32) -> SkyView {
        match self {
            SkyView::Empty => SkyView::Empty,
            SkyView::Basic(sky) => SkyView::Basic(
                sky.with_stars(sky.stars.take(remaining(sky.stars.len() as int, count as int))),
            ),
            SkyView::Night(sky) => SkyView::Night(
                sky.with_stars(sky.stars.take(remaining(sky.stars.len() as int, count as int))),
            ),
        }
    }

    /// Whether the brightness of every star lies between zero and one.
    pub open spec fn all_lit(self) -> bool {
        match self {
            SkyView::Empty => true,
            SkyView::Basic(sky) => sky.all_lit(),
            SkyView::Night(sky) => sky.all_lit(),
        }
    }

    /// The number of stars.
    pub open spec fn star_count(self) -> nat {
        match self {
            SkyView::Empty => 0,
            SkyView::Basic(sky) => sky.stars.len(),
            SkyView::Night(sky) => sky.stars.len(),
        }
    }
}

/// Whichever renderer is in use, resizing twice to one size leaves it as
/// resizing once does.
pub proof fn lemma_resize_is_idempotent(sky: SkyView, width: u32, height: u32)
    ensures
        sky.resized(width, height).resized(width, height) == sky.resized(width, height),
{
}

/// Whichever renderer is in use, removing `count` stars leaves as many as
/// there were beyond `count`, and none where there were no more than that. A
/// system without a renderer has none to begin with.
pub proof fn lemma_removal_saturates(sky: SkyView, count: u32)
    ensures
        sky.shortened(count).star_count() == if count >= sky.star_count() {
            0
        } else {
            sky.star_count() - count
        },
{
}

impl StarSystemView {
    /// Whether the instanced renderer is in use.
    pub open spec fn is_advanced(self) -> bool {
        self.sky is Night
    }

    /// Whether the canvas renderer is in use, as set up for a canvas of
    /// `width` by `height` pixels with the options of the system.
    pub open spec fn runs_basic(self, width: u32, height: u32) -> bool {
        &&& self.sky matches SkyView::Basic(sky)
        &&& sky.width == width
        &&& sky.height == height
        &&& sky.fade_speed == self.options.fade_speed
        &&& sky.star_size == self.options.star_size
        &&& sky.stars.len() == if self.options.star_count > MAX_STARS {
            MAX_STARS
        } else {
            self.options.star_count
        }
        &&& sky.all_new()
        &&& sky.all_lit()
        &&& sky.all_active()
    }

    /// Whether the instanced renderer is in use, as set up for a surface of
    /// `width` by `height` pixels with the options of the system.
    pub open spec fn runs_advanced(
        self,
        capabilities: SurfaceCapabilities,
        width: u32,
        height: u32,
    ) -> bool {
        &&& self.sky matches SkyView::Night(sky)
        &&& sky.in_step()
        &&& color_of(self.options.clear_color@) == Ok::<_, ColorParseError>(sky.clear_color)
        &&& sky.star_size == self.options.star_size
        &&& sky.screen_size == (ScreenSize { width, height })
        &&& sky.surface_config.width == width
        &&& sky.surface_config.height == height
        &&& sky.surface_config.desired_maximum_frame_latency == FRAME_LATENCY
        &&& is_preferred(capabilities.srgb_formats@, sky.surface_config.format as int)
        &&& sky.stars.len() == self.options.star_count
        &&& sky.all_lit()
        &&& exists|draw: u32|
            is_batch(
                sky.stars,
                scale_used(self.options.star_size as int),
                #[trigger] batch_brightness(false, draw as int),
            )
    }
}

impl StarSystem {
    /// A system with the given options and no renderer yet.
    pub fn new(options: StarSystemOptions) -> (system: StarSystem)
        ensures
            system@.options == options,
            system@.sky is Empty,
    {
        StarSystem { options, sky: Sky::Empty(EmptySky {  }) }
    }

    /// The options of the system.
    pub fn options(&self) -> (options: &StarSystemOptions)
        ensures
            *options == self@.options,
    {
        &self.options
    }

    /// The renderer in use.
    pub fn sky(&self) -> (sky: &Sky)
        ensures
            sky@ == self@.sky,
    {
        &self.sky
    }

    /// Whether the set-up is to try the instanced renderer, so that the
    /// caller has to try to acquire a device for it.
    pub fn wants_advanced(&self) -> (wanted: bool)
        ensures
            wanted == self@.options.use_advanced,
    {
        self.options.use_advanced
    }

    /// Sets the system up for a display of `width` by `height` pixels.
    ///
    /// `device` is what the attempt to acquire a graphics device for the
    /// instanced renderer came to: the capabilities of its surface, or the
    /// reason why there is none. It plays no part where the options ask for
    /// the canvas renderer. Where they ask for the instanced one, it is used
    /// if the device was acquired and its surface is usable, and the canvas
    /// renderer takes its place if not. A clear colour that cannot be read
    /// stops the set-up of the instanced renderer with an error, and the
    /// system stays as it was.
    pub fn init<R: RandomSource>(
        &mut self,
        device: Result<SurfaceCapabilities, String>,
        width: u32,
        height: u32,
        rng: &mut R,
    ) -> (outcome: Result<InitOutcome, ColorParseError>)
        ensures
            final(self)@.options == old(self)@.options,
            outcome is Ok ==> final(self)@.sky.all_lit(),
            outcome is Ok ==> final(self)@.sky !is Empty,
            outcome is Ok ==> (final(self)@.is_advanced() <==> outcome == Ok::<_, ColorParseError>(
                InitOutcome::Advanced,
            )),
            outcome is Err ==> final(self)@ == old(self)@,
            device is Err ==> outcome is Ok && !final(self)@.is_advanced(),
            old(self)@.options.use_advanced && device is Ok && usable(device->Ok_0) ==> match color_of(
                old(self)@.options.clear_color@,
            ) {
                Err(error) => outcome == Err::<InitOutcome, _>(error) && final(self)@ == old(self)@,
                Ok(_) => outcome == Ok::<_, ColorParseError>(InitOutcome::Advanced) && final(self)@.runs_advanced(device->Ok_0, width, height),
            },
            !old(self)@.options.use_advanced ==> outcome == Ok::<_, ColorParseError>(
                InitOutcome::Basic,
            ) && final(self)@.runs_basic(width, height),
            old(self)@.options.use_advanced && device is Err ==> outcome == Ok::<
                _,
                ColorParseError,
            >(InitOutcome::FellBack(device->Err_0)) && final(self)@.runs_basic(width, height),
            old(self)@.options.use_advanced && device is Ok && !usable(device->Ok_0) ==> (outcome
                matches Ok(InitOutcome::FellBack(reason)) && reason@
                == "Surface offers no configuration"@) && final(self)@.runs_basic(width, height),
    {
        if self.options.use_advanced {
            let reason = match self.init_advanced(device, width, height, rng) {
                Ok(None) => {
                    return Ok(InitOutcome::Advanced);
                },
                Ok(Some(reason)) => reason,
                Err(error) => {
                    return Err(error);
                },
            };
            self.init_basic(width, height, rng);
            Ok(InitOutcome::FellBack(reason))
        } else {
            self.init_basic(width, height, rng);
            Ok(InitOutcome::Basic)
        }
    }

    /// Whether the instanced renderer is in use.
    pub fn is_advanced(&self) -> (advanced: bool)
        ensures
            advanced == self@.is_advanced(),
    {
        match &self.sky {
            Sky::Night(_) => true,
            _ => false,
        }
    }

    /// Lets `delta_time` pass and says what to paint. A system that has not
    /// been set up paints nothing.
    pub fn update_and_render<R: RandomSource>(&mut self, delta_time: i64, rng: &mut R) -> (frame:
        Frame)
        ensures
            final(self)@.options == old(self)@.options,
            old(self)@.sky.all_lit() ==> final(self)@.sky.all_lit(),
            match old(self)@.sky {
                SkyView::Empty => final(self)@.sky is Empty && frame == Frame::Blank,
                SkyView::Basic(before) => {
                    &&& final(self)@.sky matches SkyView::Basic(after)
                    &&& before.advances_to(after)
                    &&& frame matches Frame::Canvas { width, height, discs }
                    &&& width == before.width
                    &&& height == before.height
                    &&& discs@ == crate::basic::sky::discs_of(before.stars)
                },
                SkyView::Night(before) => {
                    &&& final(self)@.sky matches SkyView::Night(after)
                    &&& after == before.with_stars(after.stars)
                    &&& after.in_step()
                    &&& after.stars.len() == before.stars.len()
                    &&& forall|i: int|
                        0 <= i < before.stars.len() ==> crate::nightsky::sky::moved(
                            before.stars[i],
                            #[trigger] after.stars[i],
                            delta_time as int,
                        )
                    &&& forall|i: int|
                        0 <= i < after.stars.len() ==> (#[trigger] after.stars[i]).lit()
                    &&& frame == after.frame()
                },
            },
    {
        match &mut self.sky {
            Sky::Empty(sky) => sky.update_and_render(delta_time, rng),
            Sky::Basic(sky) => sky.update_and_render(delta_time, rng),
            Sky::Night(sky) => sky.update_and_render(delta_time, rng),
        }
    }

    /// Takes note of a new size of the display, in pixels.
    pub fn resize(&mut self, width: u32, height: u32)
        ensures
            final(self)@.options == old(self)@.options,
            final(self)@.sky == old(self)@.sky.resized(width, height),
            old(self)@.sky.all_lit() ==> final(self)@.sky.all_lit(),
            final(self)@.sky matches SkyView::Night(sky) ==> sky.in_step(),
    {
        match &mut self.sky {
            Sky::Empty(sky) => sky.resize(width, height),
            Sky::Basic(sky) => sky.resize(width, height),
            Sky::Night(sky) => sky.resize(width, height),
        }
    }

    /// Adds `count` stars that fade in. A system that has not been set up
    /// stays without stars.
    pub fn add_stars<R: RandomSource>(&mut self, count: u32, rng: &mut R)
        ensures
            final(self)@.options == old(self)@.options,
            old(self)@.sky.all_lit() ==> final(self)@.sky.all_lit(),
            match old(self)@.sky {
                SkyView::Empty => final(self)@.sky is Empty,
                SkyView::Basic(before) => {
                    &&& final(self)@.sky matches SkyView::Basic(after)
                    &&& after == before.with_stars(after.stars)
                    &&& after.stars.len() == before.stars.len() + count
                    &&& after.stars.take(before.stars.len() as int) == before.stars
                    &&& forall|i: int|
                        before.stars.len() <= i < after.stars.len() ==> {
                            let star = #[trigger] after.stars[i];
                            before.makes(star) && star.opacity == 0 && star.color@ == "#FFFFFF"@
                        }
                },
                SkyView::Night(before) => {
                    &&& final(self)@.sky matches SkyView::Night(after)
                    &&& after == before.with_stars(after.stars)
                    &&& after.in_step()
                    &&& after.stars.len() == before.stars.len() + count
                    &&& after.stars.take(before.stars.len() as int) == before.stars
                    &&& is_batch(
                        after.stars.skip(before.stars.len() as int),
                        scale_used(before.star_size as int),
                        0,
                    )
                    &&& forall|i: int|
                        before.stars.len() <= i < after.stars.len() ==> (
                        #[trigger] after.stars[i]).brightness == 0
                },
            },
    {
        match &mut self.sky {
            Sky::Empty(sky) => sky.add_stars(count, rng),
            Sky::Basic(sky) => sky.add_stars(count, rng),
            Sky::Night(sky) => sky.add_stars(count, rng),
        }
    }

    /// Removes the last `count` stars, or all of them if there are fewer.
    pub fn remove_stars(&mut self, count: u32)
        ensures
            final(self)@.options == old(self)@.options,
            final(self)@.sky == old(self)@.sky.shortened(count),
            old(self)@.sky.all_lit() ==> final(self)@.sky.all_lit(),
            final(self)@.sky.star_count() == remaining(
                old(self)@.sky.star_count() as int,
                count as int,
            ),
            final(self)@.sky matches SkyView::Night(sky) ==> sky.in_step(),
    {
        match &mut self.sky {
            Sky::Empty(sky) => sky.remove_stars(count),
            Sky::Basic(sky) => sky.remove_stars(count),
            Sky::Night(sky) => sky.remove_stars(count),
        }
    }

    /// Tries to set up the instanced renderer. Gives nothing where it is in
    /// use afterwards, and the reason where it could not be had.
    fn init_advanced<R: RandomSource>(
        &mut self,
        device: Result<SurfaceCapabilities, String>,
        width: u32,
        height: u32,
        rng: &mut R,
    ) -> (fallback: Result<Option<String>, ColorParseError>)
        ensures
            final(self)@.options == old(self)@.options,
            device is Ok && usable(device->Ok_0) ==> match color_of(
                old(self)@.options.clear_color@,
            ) {
                Err(error) => fallback == Err::<Option<String>, _>(error) && final(self)@ == old(self)@,
                Ok(_) => fallback == Ok::<Option<String>, ColorParseError>(None) && final(self)@.runs_advanced(device->Ok_0, width, height),
            },
            device is Err ==> fallback == Ok::<_, ColorParseError>(Some(device->Err_0)) && final(self)@ == old(self)@,
            device is Ok && !usable(device->Ok_0) ==> (fallback matches Ok(Some(reason)) && reason@
                == "Surface offers no configuration"@) && final(self)@ == old(self)@,
    {
        let capabilities = match device {
            Ok(capabilities) => capabilities,
            Err(reason) => {
                return Ok(Some(reason));
            },
        };
        if capabilities.srgb_formats.len() == 0 || capabilities.present_modes == 0
            || capabilities.alpha_modes == 0 {
            return Ok(Some("Surface offers no configuration".to_owned()));
        }
        let sky = match NightSky::new(
            &capabilities,
            width,
            height,
            self.options.clear_color.as_str(),
            self.options.star_count,
            self.options.star_size,
            rng,
        ) {
            Ok(sky) => sky,
            Err(error) => {
                return Err(error);
            },
        };
        self.sky = Sky::Night(sky);
        Ok(None)
    }

    /// Sets up the canvas renderer.
    fn init_basic<R: RandomSource>(&mut self, width: u32, height: u32, rng: &mut R)
        ensures
            final(self)@.options == old(self)@.options,
            final(self)@.runs_basic(width, height),
    {
        let sky = BasicSky::new(
            width,
            height,
            self.options.fade_speed,
            self.options.star_count,
            self.options.star_size,
            rng,
        );
        self.sky = Sky::Basic(sky);
    }
}

} // verus!
