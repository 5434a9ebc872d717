//! The colour buffer and the render state machine.

use vstd::prelude::*;
use vstd::arithmetic::div_mod::lemma_fundamental_div_mod_converse;
use crate::color::{DisplayColor, OPAQUE};
use crate::fraction::Fraction;
use crate::input::{handle_movement_keys, movement_of, MovementKeys, MovementSteps};
use crate::sampling::RegularSampler;
use crate::viewport::PixelSamples;

verus! {

/// The size of the image in pixels.
#[derive(Clone, Copy, Debug, PartialEq, Eq, Structural)]
pub struct Resolution {
    pub width: u32,
    pub height: u32,
}

impl Resolution {
    /// The number of pixels of the image.
    pub open spec fn pixels(self) -> int {
        self.width * self.height
    }

    /// The place of a pixel in a row-major buffer whose first row is the top
    /// of the image.
    pub open spec fn index_of(self, column: int, row: int) -> int {
        row * self.width + column
    }

    /// Every pixel of the image has a place of its own in the buffer.
    pub proof fn lemma_index_of(self, column: int, row: int)
        requires
            0 <= column < self.width,
            0 <= row < self.height,
        ensures
            0 <= self.index_of(column, row) < self.pixels(),
            self.index_of(column, row) % (self.width as int) == column,
            self.index_of(column, row) / (self.width as int) == row,
    {
        let w = self.width as int;
        let h = self.height as int;
        assert(row * w + column < w * h) by (nonlinear_arith)
            requires
                0 <= column < w,
                0 <= row < h,
        ;
        assert(0 <= row * w) by (nonlinear_arith)
            requires
                0 <= row,
                0 <= w,
        ;
        lemma_fundamental_div_mod_converse(self.index_of(column, row), w, row, column);
    }
}

/// Where the tracer stands between a change of the scene and a finished
/// image.
#[derive(Clone, Copy, Debug, PartialEq, Eq, Structural)]
pub enum RenderStatus {
    /// The buffer does not show the scene: a preview pass is due.
    NeedsQuickrender,
    /// The buffer holds a preview: a full pass may start.
    Ready,
    /// A full pass is under way.
    Rendering,
    /// The buffer holds the full image.
    Finished,
}

/// What a full pass renders with.
#[derive(Clone, Copy, Debug, PartialEq, Eq, Structural)]
pub struct RenderSettings {
    pub resolution: Resolution,
    pub number_of_samples: u32,
    pub sampler: RegularSampler,
}

impl RenderSettings {
    /// The samples of one pixel in a full pass.
    pub open spec fn samples_of(self, column: u32, row: u32) -> PixelSamples {
        PixelSamples {
            resolution: self.resolution,
            column,
            row,
            sampler: self.sampler,
            number_of_samples: self.number_of_samples,
        }
    }
}

/// The bytes of a colour buffer in RGBA order, four per pixel, first pixel
/// first.
pub open spec fn packed(buffer: Seq<DisplayColor>) -> Seq<u8> {
    Seq::new(4 * buffer.len(), |k: int| buffer[k / 4].rgba()[k % 4])
}

/// A buffer of `n` black pixels.
fn blank_buffer(n: usize) -> (buffer: Vec<DisplayColor>)
    ensures
        buffer@ == Seq::new(n as nat, |k: int| DisplayColor { r: 0, g: 0, b: 0 }),
{
    let mut buffer: Vec<DisplayColor> = Vec::new();
    let mut k: usize = 0;
    while k < n
        invariant
            k <= n,
            buffer@.len() == k,
            forall|m: int| 0 <= m < k ==> buffer@[m] == (DisplayColor { r: 0, g: 0, b: 0 }),
        decreases n - k,
    {
        buffer.push(DisplayColor::default());
        k = k + 1;
    }
    assert(buffer@ =~= Seq::new(n as nat, |k: int| DisplayColor { r: 0, g: 0, b: 0 }));
    buffer
}

/// A tracer: the colour buffer of an image of a scene, and the state of its
/// rendering.
pub struct ATracer<S> {
    render_settings: RenderSettings,
    color_buffer: Vec<DisplayColor>,
    render_status: RenderStatus,
    scene: S,
}

impl<S> ATracer<S> {
    /// The settings of the full pass.
    pub closed spec fn settings(&self) -> RenderSettings {
        self.render_settings
    }

    /// The colour buffer, row by row from the top of the image.
    pub closed spec fn buffer(&self) -> Seq<DisplayColor> {
        self.color_buffer@
    }

    /// The state of the rendering.
    pub closed spec fn status(&self) -> RenderStatus {
        self.render_status
    }

    /// The scene that is rendered.
    pub closed spec fn scene_of(&self) -> S {
        self.scene
    }

    /// The buffer has one entry for each pixel and the sampler is valid.
    pub open spec fn well_formed(&self) -> bool {
        &&& self.buffer().len() == self.settings().resolution.pixels()
        &&& self.settings().sampler.is_valid()
    }

    /// The settings of the preview pass: a single sample at the centre of
    /// each pixel.
    pub open spec fn preview_settings(&self) -> RenderSettings {
        RenderSettings {
            resolution: self.settings().resolution,
            number_of_samples: 1,
            sampler: RegularSampler::grid(1),
        }
    }

    /// Every pixel of the buffer holds a colour that `shade` gives for the
    /// samples that `pass` assigns to the pixel.
    pub open spec fn shaded_by<F: Fn(&S, PixelSamples) -> DisplayColor>(
        &self,
        pass: RenderSettings,
        shade: F,
    ) -> bool {
        forall|column: u32, row: u32|
            column < pass.resolution.width && row < pass.resolution.height ==> call_ensures(
                shade,
                (&self.scene_of(), #[trigger] pass.samples_of(column, row)),
                self.buffer()[pass.resolution.index_of(column as int, row as int)],
            )
    }

    /// `shade` accepts the samples of every pixel of the pass.
    pub open spec fn accepts_pass<F: Fn(&S, PixelSamples) -> DisplayColor>(
        &self,
        pass: RenderSettings,
        shade: F,
    ) -> bool {
        forall|column: u32, row: u32|
            column < pass.resolution.width && row < pass.resolution.height ==> call_requires(
                shade,
                (&self.scene_of(), #[trigger] pass.samples_of(column, row)),
            )
    }

    /// The bytes that `draw` writes.
    pub open spec fn frame_bytes(&self) -> Seq<u8> {
        packed(self.buffer())
    }

    /// A tracer of `scene` with a black buffer of `width` by `height`
    /// pixels, nine samples per pixel on a grid of three by three, and a
    /// preview pass due.
    pub fn new(width: u32, height: u32, scene: S) -> (tracer: Self)
        requires
            width * height <= usize::MAX,
        ensures
            tracer.well_formed(),
            tracer.settings().resolution == (Resolution { width, height }),
            tracer.settings().number_of_samples == 9,
            tracer.settings().sampler == RegularSampler::grid(3),
            tracer.status() == RenderStatus::NeedsQuickrender,
            tracer.scene_of() == scene,
            tracer.buffer() == Seq::new(
                (width * height) as nat,
                |k: int| DisplayColor { r: 0, g: 0, b: 0 },
            ),
    {
        let render_settings = RenderSettings {
            resolution: Resolution { width, height },
            number_of_samples: 9,
            sampler: RegularSampler::new(3),
        };
        ATracer {
            render_settings,
            color_buffer: blank_buffer(width as usize * height as usize),
            render_status: RenderStatus::NeedsQuickrender,
            scene,
        }
    }
}

impl<S> ATracer<S> {
    /// The state of the rendering.
    pub fn render_status(&self) -> (status: RenderStatus)
        ensures
            status == self.status(),
    {
        self.render_status
    }

    /// The settings of the full pass.
    pub fn render_settings(&self) -> (settings: RenderSettings)
        ensures
            settings == self.settings(),
    {
        self.render_settings
    }

    /// The colour buffer, row by row from the top of the image.
    pub fn color_buffer(&self) -> (buffer: &Vec<DisplayColor>)
        ensures
            buffer@ == self.buffer(),
    {
        &self.color_buffer
    }

    /// The scene that is rendered.
    pub fn get_scene(&self) -> (scene: &S)
        ensures
            *scene == self.scene_of(),
    {
        &self.scene
    }

    /// Hands out the scene for a change. Whatever the buffer shows is stale
    /// from here on: a preview pass is due.
    pub fn get_scene_mut(&mut self) -> (scene: &mut S)
        ensures
            *scene == old(self).scene_of(),
            final(self).scene_of() == *final(scene),
            final(self).status() == RenderStatus::NeedsQuickrender,
            final(self).settings() == old(self).settings(),
            final(self).buffer() == old(self).buffer(),
    {
        self.render_status = RenderStatus::NeedsQuickrender;
        &mut self.scene
    }

    /// Gives the image a new size: the buffer is replaced by a black one of
    /// `width` by `height` pixels and a preview pass is due. Hands back the
    /// new aspect ratio, `width / height`, for the camera.
    pub fn resize(&mut self, width: u32, height: u32) -> (aspect_ratio: Fraction)
        requires
            width * height <= usize::MAX,
        ensures
            aspect_ratio == (Fraction { numer: width as i128, denom: height as i128 }),
            final(self).settings() == (RenderSettings {
                resolution: Resolution { width, height },
                ..old(self).settings()
            }),
            final(self).buffer() == Seq::new(
                (width * height) as nat,
                |k: int| DisplayColor { r: 0, g: 0, b: 0 },
            ),
            final(self).status() == RenderStatus::NeedsQuickrender,
            final(self).scene_of() == old(self).scene_of(),
            old(self).well_formed() ==> final(self).well_formed(),
    {
        self.render_settings.resolution.width = width;
        self.render_settings.resolution.height = height;
        self.color_buffer = blank_buffer(width as usize * height as usize);
        self.render_status = RenderStatus::NeedsQuickrender;
        Fraction { numer: width as i128, denom: height as i128 }
    }

    /// Fills the buffer, pixel by pixel, with what `shade` gives for the
    /// samples that `pass` assigns to each pixel.
    fn render_pass<F: Fn(&S, PixelSamples) -> DisplayColor>(
        &mut self,
        pass: RenderSettings,
        shade: F,
    )
        requires
            old(self).well_formed(),
            pass.resolution == old(self).settings().resolution,
            old(self).accepts_pass(pass, shade),
        ensures
            final(self).settings() == old(self).settings(),
            final(self).status() == old(self).status(),
            final(self).scene_of() == old(self).scene_of(),
            final(self).buffer().len() == old(self).buffer().len(),
            final(self).shaded_by(pass, shade),
    {
        let resolution = pass.resolution;
        let width: u32 = resolution.width;
        let height: u32 = resolution.height;
        let mut column: u32 = 0;
        while column < width
            invariant
                column <= width,
                resolution == pass.resolution,
                width == resolution.width,
                height == resolution.height,
                self.render_settings == old(self).render_settings,
                self.render_status == old(self).render_status,
                self.scene == old(self).scene,
                self.color_buffer@.len() == width * height,
                old(self).accepts_pass(pass, shade),
                forall|a: u32, b: u32|
                    a < column && b < height ==> call_ensures(
                        shade,
                        (&self.scene, #[trigger] pass.samples_of(a, b)),
                        self.color_buffer@[resolution.index_of(a as int, b as int)],
                    ),
            decreases width - column,
        {
            let mut row: u32 = 0;
            while row < height
                invariant
                    column < width,
                    row <= height,
                    resolution == pass.resolution,
                    width == resolution.width,
                    height == resolution.height,
                    self.render_settings == old(self).render_settings,
                    self.render_status == old(self).render_status,
                    self.scene == old(self).scene,
                    self.color_buffer@.len() == width * height,
                    old(self).accepts_pass(pass, shade),
                    forall|a: u32, b: u32|
                        (a < column || (a == column && b < row)) && b < height ==> call_ensures(
                            shade,
                            (&self.scene, #[trigger] pass.samples_of(a, b)),
                            self.color_buffer@[resolution.index_of(a as int, b as int)],
                        ),
                decreases height - row,
            {
                let samples = PixelSamples {
                    resolution,
                    column,
                    row,
                    sampler: pass.sampler,
                    number_of_samples: pass.number_of_samples,
                };
                assert(samples == pass.samples_of(column, row));
                let color = shade(&self.scene, samples);
                proof {
                    resolution.lemma_index_of(column as int, row as int);
                    assert(0 <= row * width <= row * width + column) by (nonlinear_arith)
                        requires
                            0 <= row,
                            0 <= width,
                            0 <= column,
                    ;
                    assert(self.color_buffer@.len() == self.color_buffer.len());
                }
                let index: usize = row as usize * width as usize + column as usize;
                let ghost before = self.color_buffer@;
                self.color_buffer.set(index, color);
                assert forall|a: u32, b: u32|
                    (a < column || (a == column && b < row + 1)) && b < height implies call_ensures(
                        shade,
                        (&self.scene, #[trigger] pass.samples_of(a, b)),
                        self.color_buffer@[resolution.index_of(a as int, b as int)],
                    ) by {
                    resolution.lemma_index_of(a as int, b as int);
                    if a != column || b != row {
                        assert(resolution.index_of(a as int, b as int) != index);
                        assert(self.color_buffer@[resolution.index_of(a as int, b as int)]
                            == before[resolution.index_of(a as int, b as int)]);
                    }
                }
                row = row + 1;
            }
            column = column + 1;
        }
    }

    /// The full pass. It runs only when a preview has been rendered and no
    /// full image yet; otherwise nothing changes. It fills every pixel with
    /// what `shade` gives for the pixel's samples and ends in `Finished`.
    pub fn start_render<F: Fn(&S, PixelSamples) -> DisplayColor>(&mut self, shade: F)
        requires
            old(self).well_formed(),
            old(self).status() == RenderStatus::Ready ==> old(self).accepts_pass(
                old(self).settings(),
                shade,
            ),
        ensures
            final(self).well_formed(),
            final(self).settings() == old(self).settings(),
            final(self).scene_of() == old(self).scene_of(),
            old(self).status() != RenderStatus::Ready ==> final(self).status() == old(
                self,
            ).status(),
            old(self).status() != RenderStatus::Ready ==> final(self).buffer() == old(
                self,
            ).buffer(),
            old(self).status() == RenderStatus::Ready ==> final(self).status()
                == RenderStatus::Finished,
            old(self).status() == RenderStatus::Ready ==> final(self).shaded_by(
                old(self).settings(),
                shade,
            ),
    {
        if self.render_status != RenderStatus::Ready {
            return ;
        }
        let pass = self.render_settings;
        self.render_pass(pass, shade);
        self.render_status = RenderStatus::Finished;
    }

    /// The preview pass: one sample at the centre of each pixel, whatever
    /// the state. It ends in `Ready`.
    pub fn quick_render<F: Fn(&S, PixelSamples) -> DisplayColor>(&mut self, preview: F)
        requires
            old(self).well_formed(),
            old(self).accepts_pass(old(self).preview_settings(), preview),
        ensures
            final(self).well_formed(),
            final(self).settings() == old(self).settings(),
            final(self).scene_of() == old(self).scene_of(),
            final(self).status() == RenderStatus::Ready,
            final(self).shaded_by(old(self).preview_settings(), preview),
    {
        let pass = RenderSettings {
            resolution: self.render_settings.resolution,
            number_of_samples: 1,
            sampler: RegularSampler::new(1),
        };
        self.render_pass(pass, preview);
        self.render_status = RenderStatus::Ready;
    }

    /// Renders the preview where one is due and does nothing in every other
    /// state.
    pub fn refresh<F: Fn(&S, PixelSamples) -> DisplayColor>(&mut self, preview: F)
        requires
            old(self).well_formed(),
            old(self).status() == RenderStatus::NeedsQuickrender ==> old(self).accepts_pass(
                old(self).preview_settings(),
                preview,
            ),
        ensures
            final(self).well_formed(),
            final(self).settings() == old(self).settings(),
            final(self).scene_of() == old(self).scene_of(),
            old(self).status() == RenderStatus::NeedsQuickrender ==> final(self).status()
                == RenderStatus::Ready,
            old(self).status() == RenderStatus::NeedsQuickrender ==> final(self).shaded_by(
                old(self).preview_settings(),
                preview,
            ),
            old(self).status() != RenderStatus::NeedsQuickrender ==> final(self).status() == old(
                self,
            ).status(),
            old(self).status() != RenderStatus::NeedsQuickrender ==> final(self).buffer() == old(
                self,
            ).buffer(),
    {
        match self.render_status {
            RenderStatus::NeedsQuickrender => self.quick_render(preview),
            RenderStatus::Ready => {},
            RenderStatus::Rendering => {},
            RenderStatus::Finished => {},
        }
    }

    /// Takes in the keys that are held, before the next render. Where they
    /// ask for a movement of the camera, the movement is handed back for
    /// the camera and the image is stale: a preview pass is due. Nothing is
    /// rendered and the buffer stays as it is.
    pub fn update(&mut self, keys: MovementKeys) -> (movement: Option<MovementSteps>)
        ensures
            movement == movement_of(keys),
            movement is Some ==> final(self).status() == RenderStatus::NeedsQuickrender,
            movement is None ==> final(self).status() == old(self).status(),
            final(self).settings() == old(self).settings(),
            final(self).buffer() == old(self).buffer(),
            final(self).scene_of() == old(self).scene_of(),
    {
        let movement = handle_movement_keys(keys);
        if movement.is_some() {
            self.render_status = RenderStatus::NeedsQuickrender;
        }
        movement
    }

    /// Writes the colour buffer to `frame`, four bytes per pixel in RGBA
    /// order, top row first. The tracer is left as it was.
    pub fn draw(&mut self, frame: &mut [u8])
        requires
            old(frame)@.len() == old(self).buffer().len() * 4,
        ensures
            *final(self) == *old(self),
            final(frame)@ == old(self).frame_bytes(),
    {
        let n: usize = self.color_buffer.len();
        let mut k: usize = 0;
        while k < n
            invariant
                k <= n,
                n == self.color_buffer@.len(),
                *self == *old(self),
                frame@.len() == n * 4,
                forall|m: int| 0 <= m < 4 * k ==> frame@[m] == packed(self.color_buffer@)[m],
            decreases n - k,
        {
            let bytes = self.color_buffer[k].to_rgba();
            assert(frame@.len() == frame.len());
            let at: usize = 4 * k;
            frame[at] = bytes[0];
            frame[at + 1] = bytes[1];
            frame[at + 2] = bytes[2];
            frame[at + 3] = bytes[3];
            k = k + 1;
        }
        assert(frame@ =~= packed(self.color_buffer@));
    }

    /// What `draw` writes depends on the colour buffer alone: as long as
    /// the buffer is not modified, every draw writes the same bytes.
    pub proof fn lemma_draw_repeatable(&self, later: &Self)
        requires
            later.buffer() == self.buffer(),
        ensures
            later.frame_bytes() == self.frame_bytes(),
    {
    }

    /// The frame holds four bytes for each pixel of the buffer, in the
    /// order of the buffer: red, green, blue, and an alpha of 255.
    pub proof fn lemma_frame_layout(&self, pixel: int)
        requires
            0 <= pixel < self.buffer().len(),
        ensures
            self.frame_bytes().len() == 4 * self.buffer().len(),
            self.frame_bytes()[4 * pixel] == self.buffer()[pixel].r,
            self.frame_bytes()[4 * pixel + 1] == self.buffer()[pixel].g,
            self.frame_bytes()[4 * pixel + 2] == self.buffer()[pixel].b,
            self.frame_bytes()[4 * pixel + 3] == OPAQUE,
    {
    }
}

} // verus!
