//! The sky of the canvas renderer.

use vstd::prelude::*;
use crate::basic::star::{disc_of, is_spawn, BasicStar};
use crate::fixed::ONE;
use crate::star_render::{remaining, Disc, Frame, StarRender};
use crate::utils::{lemma_lerp_bounds, range_from_draw, RandomSource};

verus! {

/// The most stars that a new sky starts with.
pub const MAX_STARS: u32 = 2000;

/// The stars of a canvas and what new ones are made with.
#[derive(Clone, Debug)]
pub struct BasicSky {
    stars: Vec<BasicStar>,
    width: u32,
    height: u32,
    fade_speed: i64,
    star_size: i64,
}

/// A canvas sky as a value.
pub struct BasicSkyView {
    /// The stars, in their order.
    pub stars: Seq<BasicStar>,
    /// The size of the canvas, in pixels.
    pub width: u32,
    pub height: u32,
    /// The fade speed that new stars are made around.
    pub fade_speed: i64,
    /// The size scale of new stars.
    pub star_size: i64,
}

impl View for BasicSky {
    type V = BasicSkyView;

    closed spec fn view(&self) -> BasicSkyView {
        BasicSkyView {
            stars: self.stars@,
            width: self.width,
            height: self.height,
            fade_speed: self.fade_speed,
            star_size: self.star_size,
        }
    }
}

/// A length in pixels as a scalar.
pub open spec fn pixels(length: u32) -> int {
    length * ONE
}

impl BasicSkyView {
    /// Whether `star` is a new star of this sky: one that some draws shape
    /// on its canvas, shining, in the colour `color`.
    pub open spec fn makes(self, star: BasicStar) -> bool {
        &&& is_spawn(
            star,
            pixels(self.width),
            pixels(self.height),
            self.fade_speed as int,
            self.star_size as int,
        )
        &&& star.active
    }

    /// The sky with other stars.
    pub open spec fn with_stars(self, stars: Seq<BasicStar>) -> BasicSkyView {
        BasicSkyView { stars, ..self }
    }

    /// Whether the opacity of every star lies between zero and one.
    pub open spec fn all_lit(self) -> bool {
        forall|i: int| 0 <= i < self.stars.len() ==> (#[trigger] self.stars[i]).lit()
    }

    /// Whether every star shines.
    pub open spec fn all_active(self) -> bool {
        forall|i: int| 0 <= i < self.stars.len() ==> (#[trigger] self.stars[i]).active
    }

    /// Whether `after` is what one frame makes of this sky. Every star
    /// shines in it. A star that shone through the frame has moved on. A
    /// star that was out, or went out in the frame, has been replaced in its
    /// place by a new star of its colour at an opacity below one.
    pub open spec fn advances_to(self, after: BasicSkyView) -> bool {
        &&& after == self.with_stars(after.stars)
        &&& after.stars.len() == self.stars.len()
        &&& after.all_active()
        &&& after.all_lit()
        &&& forall|i: int|
            0 <= i < self.stars.len() && shows(#[trigger] self.stars[i]) ==> after.stars[i]
                == self.stars[i].updated()
        &&& forall|i: int|
            0 <= i < self.stars.len() && !shows(#[trigger] self.stars[i]) ==> {
                let star = after.stars[i];
                self.makes(star) && 0 <= star.opacity < ONE && star.color == self.stars[i].color
            }
    }

    /// The sky on a canvas of another size.
    pub open spec fn resized(self, width: u32, height: u32) -> BasicSkyView {
        BasicSkyView { width, height, ..self }
    }

    /// Whether every star is a new star of this sky, white and at an
    /// opacity below one.
    pub open spec fn all_new(self) -> bool {
        forall|i: int|
            0 <= i < self.stars.len() ==> {
                let star = #[trigger] self.stars[i];
                self.makes(star) && 0 <= star.opacity < ONE && star.color@ == "#FFFFFF"@
            }
    }
}

/// Whether a star is painted in a frame: it shines before the frame and
/// still does after it.
pub open spec fn shows(star: BasicStar) -> bool {
    star.active && star.updated().active
}

/// The discs of a frame, for the stars as they are before it: one for each
/// star that is painted, as it is after the frame, in the order of the stars.
pub open spec fn discs_of(stars: Seq<BasicStar>) -> Seq<Disc>
    decreases stars.len(),
{
    if stars.len() == 0 {
        Seq::empty()
    } else if shows(stars.last()) {
        discs_of(stars.drop_last()).push(disc_of(stars.last().updated()))
    } else {
        discs_of(stars.drop_last())
    }
}

impl BasicSky {
    /// A sky for a canvas of `width` by `height` pixels, with `star_count`
    /// stars but no more than `MAX_STARS`. Every star is white and starts at
    /// a drawn opacity below one.
    pub fn new<R: RandomSource>(
        width: u32,
        height: u32,
        fade_speed: i64,
        star_count: u32,
        star_size: i64,
        rng: &mut R,
    ) -> (sky: BasicSky)
        ensures
            sky@.width == width,
            sky@.height == height,
            sky@.fade_speed == fade_speed,
            sky@.star_size == star_size,
            sky@.stars.len() == if star_count > MAX_STARS {
                MAX_STARS
            } else {
                star_count
            },
            sky@.all_new(),
            sky@.all_lit(),
            sky@.all_active(),
    {
        let star_count = if star_count > MAX_STARS {
            MAX_STARS
        } else {
            star_count
        };
        let mut sky = BasicSky { stars: Vec::new(), width, height, fade_speed, star_size };
        let mut made: u32 = 0;
        while made < star_count
            invariant
                made <= star_count,
                sky@.stars.len() == made,
                sky@.width == width,
                sky@.height == height,
                sky@.fade_speed == fade_speed,
                sky@.star_size == star_size,
                forall|i: int|
                    0 <= i < sky@.stars.len() ==> {
                        let star = #[trigger] sky@.stars[i];
                        sky@.makes(star) && 0 <= star.opacity < ONE && star.color@ == "#FFFFFF"@
                    },
            decreases star_count - made,
        {
            let star = sky.fresh_star(rng);
            sky.stars.push(star);
            made += 1;
        }
        sky
    }

    /// The stars.
    pub fn stars(&self) -> (stars: &Vec<BasicStar>)
        ensures
            stars@ == self@.stars,
    {
        &self.stars
    }

    /// The size of the canvas, in pixels: the width, then the height.
    pub fn size(&self) -> (size: (u32, u32))
        ensures
            size == (self@.width, self@.height),
    {
        (self.width, self.height)
    }

    /// Lets one frame pass and gives the discs to fill on the cleared
    /// canvas. A star that shines is moved on and, if it still shines then,
    /// painted. A star that is out, or goes out in this frame, is replaced
    /// by a new one of its colour at a drawn opacity below one, which is
    /// painted from the next frame on. So every star shines afterwards.
    pub fn advance<R: RandomSource>(&mut self, rng: &mut R) -> (discs: Vec<Disc>)
        ensures
            old(self)@.advances_to(final(self)@),
            discs@ == discs_of(old(self)@.stars),
    {
        let mut discs: Vec<Disc> = Vec::new();
        let mut i: usize = 0;
        while i < self.stars.len()
            invariant
                i <= self@.stars.len(),
                self@ == old(self)@.with_stars(self@.stars),
                self@.stars.len() == old(self)@.stars.len(),
                forall|k: int| i <= k < self@.stars.len() ==> self@.stars[k] == old(self)@.stars[k],
                forall|k: int| 0 <= k < i ==> (#[trigger] self@.stars[k]).active,
                forall|k: int| 0 <= k < i ==> (#[trigger] self@.stars[k]).lit(),
                forall|k: int|
                    0 <= k < i && shows(#[trigger] old(self)@.stars[k]) ==> self@.stars[k] == old(self)@.stars[k].updated(),
                forall|k: int|
                    0 <= k < i && !shows(#[trigger] old(self)@.stars[k]) ==> {
                        let star = self@.stars[k];
                        old(self)@.makes(star) && 0 <= star.opacity < ONE && star.color == old(self)@.stars[k].color
                    },
                discs@ == discs_of(old(self)@.stars.take(i as int)),
            decreases self@.stars.len() - i,
        {
            proof {
                let before = old(self)@.stars;
                assert(before.take(i + 1).drop_last() == before.take(i as int));
            }
            let mut star = self.stars[i].clone_star();
            star.update();
            match star.draw() {
                Some(disc) => {
                    discs.push(disc);
                    self.stars.set(i, star);
                },
                None => {
                    let opacity = self.fresh_opacity(rng);
                    let fresh = BasicStar::new(
                        self.canvas_width(),
                        self.canvas_height(),
                        self.fade_speed,
                        opacity,
                        star.color,
                        self.star_size,
                        rng,
                    );
                    self.stars.set(i, fresh);
                },
            }
            i += 1;
        }
        assert(old(self)@.stars.take(i as int) == old(self)@.stars);
        discs
    }

    /// A drawn opacity below one.
    fn fresh_opacity<R: RandomSource>(&self, rng: &mut R) -> (opacity: i64)
        ensures
            0 <= opacity < ONE,
    {
        let draw = rng.next_draw();
        proof {
            lemma_lerp_bounds(draw as int, 0, ONE as int);
        }
        range_from_draw(draw, 0, ONE)
    }

    /// A new white star at a drawn opacity below one.
    fn fresh_star<R: RandomSource>(&self, rng: &mut R) -> (star: BasicStar)
        ensures
            self@.makes(star),
            0 <= star.opacity < ONE,
            star.color@ == "#FFFFFF"@,
    {
        let opacity = self.fresh_opacity(rng);
        BasicStar::new(
            self.canvas_width(),
            self.canvas_height(),
            self.fade_speed,
            opacity,
            "#FFFFFF".to_owned(),
            self.star_size,
            rng,
        )
    }

    /// The width of the canvas as a scalar.
    fn canvas_width(&self) -> (width: i64)
        ensures
            width == pixels(self@.width),
    {
        self.width as i64 * ONE
    }

    /// The height of the canvas as a scalar.
    fn canvas_height(&self) -> (height: i64)
        ensures
            height == pixels(self@.height),
    {
        self.height as i64 * ONE
    }
}

impl StarRender for BasicSky {
    /// One frame of the canvas: the time that passed plays no part.
    fn update_and_render<R: RandomSource>(&mut self, _delta_time: i64, rng: &mut R) -> (frame:
        Frame)
        ensures
            old(self)@.advances_to(final(self)@),
            frame matches Frame::Canvas { width, height, discs } && width == old(self)@.width
                && height == old(self)@.height && discs@ == discs_of(old(self)@.stars),
    {
        let discs = self.advance(rng);
        Frame::Canvas { width: self.width, height: self.height, discs }
    }

    /// Takes note of the size of the canvas; nothing else changes.
    fn resize(&mut self, width: u32, height: u32)
        ensures
            final(self)@ == old(self)@.resized(width, height),
            old(self)@.all_lit() ==> final(self)@.all_lit(),
            old(self)@.all_active() ==> final(self)@.all_active(),
    {
        self.width = width;
        self.height = height;
    }

    /// Appends `count` white stars that start at no opacity.
    fn add_stars<R: RandomSource>(&mut self, count: u32, rng: &mut R)
        ensures
            final(self)@ == old(self)@.with_stars(final(self)@.stars),
            final(self)@.stars.len() == old(self)@.stars.len() + count,
            final(self)@.stars.take(old(self)@.stars.len() as int) == old(self)@.stars,
            forall|i: int|
                old(self)@.stars.len() <= i < final(self)@.stars.len() ==> {
                    let star = #[trigger] final(self)@.stars[i];
                    old(self)@.makes(star) && star.opacity == 0 && star.color@ == "#FFFFFF"@
                },
            old(self)@.all_lit() ==> final(self)@.all_lit(),
            old(self)@.all_active() ==> final(self)@.all_active(),
    {
        let mut made: u32 = 0;
        while made < count
            invariant
                made <= count,
                self@ == old(self)@.with_stars(self@.stars),
                self@.stars.len() == old(self)@.stars.len() + made,
                self@.stars.take(old(self)@.stars.len() as int) == old(self)@.stars,
                forall|i: int|
                    old(self)@.stars.len() <= i < self@.stars.len() ==> {
                        let star = #[trigger] self@.stars[i];
                        old(self)@.makes(star) && star.opacity == 0 && star.color@ == "#FFFFFF"@
                    },
                old(self)@.all_lit() ==> self@.all_lit(),
                old(self)@.all_active() ==> self@.all_active(),
            decreases count - made,
        {
            let star = BasicStar::new(
                self.canvas_width(),
                self.canvas_height(),
                self.fade_speed,
                0,
                "#FFFFFF".to_owned(),
                self.star_size,
                rng,
            );
            self.stars.push(star);
            made += 1;
        }
    }

    /// Removes the last `count` stars, or all of them if there are fewer.
    fn remove_stars(&mut self, count: u32)
        ensures
            final(self)@ == old(self)@.with_stars(
                old(self)@.stars.take(remaining(old(self)@.stars.len() as int, count as int)),
            ),
            final(self)@.stars.len() == remaining(old(self)@.stars.len() as int, count as int),
            old(self)@.all_lit() ==> final(self)@.all_lit(),
            old(self)@.all_active() ==> final(self)@.all_active(),
    {
        let len = self.stars.len();
        let keep = if count as usize >= len {
            0
        } else {
            len - count as usize
        };
        self.stars.truncate(keep);
    }

    fn get_num_stars(&self) -> (count: u32)
        ensures
            count == self@.stars.len() as u32,
            self@.stars.len() <= u32::MAX ==> count == self@.stars.len(),
    {
        #[verifier::truncate]
        (self.stars.len() as u32)
    }
}

} // verus!
