//! The driver: a framebuffer of palette indices and the engine that takes it
//! to the panel.

use vstd::prelude::*;
use crate::bus::{Action, Event};
use crate::engine::{commands_of, Machine, PanelState, Sequencer};
use crate::error::InkyError;
use crate::packing::pack_nibbles;
use crate::palette::{law_palette_colours_are_fixed, nearest, palette_colour_of, Palette};
use crate::raster::{dither_in_place, dithered, pixel_at, resize_lanczos3, Raster, RasterView};
use crate::sequence::{
    init_commands,
    init_program,
    init_sequence,
    refresh_commands,
    refresh_program,
    refresh_sequence,
};
use crate::{HEIGHT, WIDTH};

verus! {

/// Number of pixels of the panel.
pub open spec fn panel_len() -> int {
    WIDTH * HEIGHT
}

/// The palette index of every pixel of a buffer of red, green, blue and
/// alpha samples.
pub open spec fn quantized(data: Seq<u8>) -> Seq<u8> {
    Seq::new((data.len() / 4) as nat, |i: int| nearest(pixel_at(data, i)).spec_index())
}

/// `resized` may be what resampling `source` to the size of the panel gives:
/// it has the size of the panel, and it is `source` itself where that
/// already has it.
pub open spec fn is_resize_of(resized: Seq<u8>, source: RasterView) -> bool {
    &&& resized.len() == 4 * panel_len()
    &&& source.width == WIDTH && source.height == HEIGHT ==> resized == source.data
}

/// `pixels` may be the framebuffer after `source` was imported: the source
/// was resampled to the size of the panel, dithered if asked for, and every
/// pixel replaced by the index of the palette colour nearest to it.
pub open spec fn is_import_of(pixels: Seq<u8>, source: RasterView, dither: bool) -> bool {
    exists|resized: Seq<u8>|
        #![trigger is_resize_of(resized, source)]
        {
            &&& is_resize_of(resized, source)
            &&& pixels == quantized(
                if dither {
                    dithered(resized, WIDTH as nat, HEIGHT as nat)
                } else {
                    resized
                },
            )
        }
}

/// The driver of one panel.
pub struct Inky {
    buf: Vec<u8>,
    engine: Sequencer,
}

impl View for Inky {
    type V = Seq<u8>;

    /// The framebuffer: one palette index for each pixel, row by row.
    closed spec fn view(&self) -> Seq<u8> {
        self.buf@
    }
}

impl Inky {
    /// The protocol engine of the driver.
    pub closed spec fn machine(&self) -> Machine {
        self.engine@
    }

    /// The framebuffer has the size of the panel and holds nothing wider
    /// than three bits, and the engine is in order.
    pub open spec fn wf(&self) -> bool {
        &&& self@.len() == panel_len()
        &&& forall|i: int| 0 <= i < self@.len() ==> self@[i] < 8
        &&& self.machine().wf()
    }

    /// A driver with an all-black framebuffer for a panel that was never set
    /// up.
    pub fn new() -> (inky: Inky)
        ensures
            inky.wf(),
            inky@ == Seq::new(panel_len() as nat, |i: int| 0u8),
            inky.machine() == Machine::idle(),
    {
        let buf = vec![0u8; WIDTH * HEIGHT];
        assert(buf@ =~= Seq::new(panel_len() as nat, |i: int| 0u8));
        Inky { buf, engine: Sequencer::new() }
    }

    /// Begins the initialisation of the panel and returns its first action.
    /// What follows is asked for through [`Inky::step`].
    pub fn setup(&mut self) -> (action: Action)
        requires
            old(self).wf(),
        ensures
            final(self).wf(),
            final(self)@ == old(self)@,
            final(self).machine() == Machine::start(
                init_program(),
                PanelState::Initialized,
                old(self)@,
            ),
            commands_of(final(self).machine().program) == init_commands(),
            action@ == final(self).machine().pending(),
    {
        proof {
            crate::sequence::law_programs_send_the_vendor_sequence();
        }
        self.engine = Sequencer::start(
            init_sequence(),
            PanelState::Initialized,
            self.buf.as_slice(),
        );
        self.engine.request()
    }

    /// Begins the initialisation of the panel, as [`Inky::setup`] does.
    pub fn setup_2(&mut self) -> (action: Action)
        requires
            old(self).wf(),
        ensures
            final(self).wf(),
            final(self)@ == old(self)@,
            final(self).machine() == Machine::start(
                init_program(),
                PanelState::Initialized,
                old(self)@,
            ),
            commands_of(final(self).machine().program) == init_commands(),
            action@ == final(self).machine().pending(),
    {
        self.setup()
    }

    /// Sets the pixel in column `x` of row `y` to the low three bits of `v`.
    /// A coordinate outside the panel is refused and changes nothing.
    pub fn set_pixel(&mut self, x: usize, y: usize, v: u8) -> (done: Result<(), InkyError>)
        requires
            old(self).wf(),
        ensures
            final(self).wf(),
            final(self).machine() == old(self).machine(),
            x < WIDTH && y < HEIGHT ==> done is Ok && final(self)@ == old(self)@.update(
                y * WIDTH + x,
                v % 8,
            ),
            !(x < WIDTH && y < HEIGHT) ==> done == Err::<(), InkyError>(InkyError::OutOfBounds)
                && final(self)@ == old(self)@,
    {
        if x < WIDTH && y < HEIGHT {
            assert(v & 0x07 == v % 8) by (bit_vector);
            self.buf[y * WIDTH + x] = v & 0x07;
            Ok(())
        } else {
            Err(InkyError::OutOfBounds)
        }
    }

    /// The index stored for the pixel in column `x` of row `y`, if the panel
    /// has one there.
    pub fn pixel(&self, x: usize, y: usize) -> (stored: Option<u8>)
        requires
            self.wf(),
        ensures
            x < WIDTH && y < HEIGHT ==> stored == Some(self@[y * WIDTH + x]),
            !(x < WIDTH && y < HEIGHT) ==> stored is None,
    {
        if x < WIDTH && y < HEIGHT {
            Some(self.buf[y * WIDTH + x])
        } else {
            None
        }
    }

    /// The framebuffer, row by row.
    pub fn buffer(&self) -> (pixels: &[u8])
        ensures
            pixels@ == self@,
    {
        self.buf.as_slice()
    }

    /// Fills the framebuffer from an image of the size of the panel: every
    /// pixel becomes the index of the palette colour nearest to it.
    pub fn quantize(&mut self, image: &Raster)
        requires
            old(self).wf(),
            image@.wf(),
            image@.width == WIDTH,
            image@.height == HEIGHT,
        ensures
            final(self).wf(),
            final(self).machine() == old(self).machine(),
            final(self)@ == quantized(image@.data),
    {
        let cmap = Palette;
        let img_width = image.width();
        let img_height = image.height();
        let mut y: u32 = 0;
        while y < img_height
            invariant
                self.wf(),
                self.machine() == old(self).machine(),
                image@.wf(),
                image@.width == WIDTH,
                image@.height == HEIGHT,
                img_width == WIDTH,
                img_height == HEIGHT,
                y <= img_height,
                forall|i: int|
                    0 <= i < y * WIDTH ==> self@[i] == nearest(pixel_at(image@.data, i)).spec_index(),
            decreases img_height - y,
        {
            let mut x: u32 = 0;
            while x < img_width
                invariant
                    self.wf(),
                    self.machine() == old(self).machine(),
                    image@.wf(),
                    image@.width == WIDTH,
                    image@.height == HEIGHT,
                    img_width == WIDTH,
                    img_height == HEIGHT,
                    y < img_height,
                    x <= img_width,
                    forall|i: int|
                        0 <= i < y * WIDTH + x ==> self@[i] == nearest(
                            pixel_at(image@.data, i),
                        ).spec_index(),
                decreases img_width - x,
            {
                match image.pixel(x, y) {
                    Some(pixel) => {
                        let colour = cmap.index_of_rgba(&pixel) as u8;
                        assert(colour % 8 == colour);
                        let _ = self.set_pixel(x as usize, y as usize, colour);
                    },
                    None => {},
                }
                x += 1;
            }
            y += 1;
        }
        assert(self@ =~= quantized(image@.data));
    }

    /// Sets the whole canvas from an image.  The image is forced to the size
    /// of the panel with a Lanczos filter, dithered by error diffusion if
    /// `dither` is set, and quantised pixel by pixel.
    pub fn set_image(&mut self, source: &Raster, dither: bool)
        requires
            old(self).wf(),
            source@.wf(),
        ensures
            final(self).wf(),
            final(self).machine() == old(self).machine(),
            is_import_of(final(self)@, source@, dither),
    {
        let mut image = resize_lanczos3(source, WIDTH as u32, HEIGHT as u32);
        let ghost resized = image@.data;
        assert(is_resize_of(resized, source@));
        if dither {
            dither_in_place(&mut image);
        }
        self.quantize(&image);
    }

    /// Begins a refresh of the panel and returns its first action.  A
    /// refresh always runs the whole initialisation first.
    pub fn show(&mut self) -> (action: Action)
        requires
            old(self).wf(),
        ensures
            final(self).wf(),
            final(self)@ == old(self)@,
            final(self).machine() == Machine::start(
                refresh_program(),
                PanelState::Idle,
                old(self)@,
            ),
            commands_of(final(self).machine().program) == init_commands() + refresh_commands(),
            action@ == final(self).machine().pending(),
    {
        self.update()
    }

    /// Begins a refresh of the panel, as [`Inky::show`] does.
    pub fn update(&mut self) -> (action: Action)
        requires
            old(self).wf(),
        ensures
            final(self).wf(),
            final(self)@ == old(self)@,
            final(self).machine() == Machine::start(
                refresh_program(),
                PanelState::Idle,
                old(self)@,
            ),
            commands_of(final(self).machine().program) == init_commands() + refresh_commands(),
            action@ == final(self).machine().pending(),
    {
        proof {
            crate::sequence::law_programs_send_the_vendor_sequence();
        }
        self.engine = Sequencer::start(refresh_sequence(), PanelState::Idle, self.buf.as_slice());
        self.engine.request()
    }

    /// Tells the driver what came of the action it asked for last, and
    /// returns the action it asks for next.
    pub fn step(&mut self, event: Event) -> (action: Action)
        requires
            old(self).wf(),
        ensures
            final(self).wf(),
            final(self)@ == old(self)@,
            final(self).machine() == old(self).machine().advance(event, old(self)@),
            action@ == final(self).machine().pending(),
    {
        self.engine.step(event, self.buf.as_slice())
    }

    /// The state of the panel.
    pub fn state(&self) -> (state: PanelState)
        ensures
            state == self.machine().state(),
    {
        self.engine.state()
    }

    /// Packs pixel indices into the panel's wire format, two to the byte.
    pub fn pack_nibbles(input: &[u8]) -> (out: Vec<u8>)
        ensures
            out@ == crate::packing::packed(input@),
            out.len() == (input.len() + 1) / 2,
            input.len() % 2 == 0 ==> out.len() == input.len() / 2,
    {
        pack_nibbles(input)
    }
}

/// Importing an image that has the size of the panel and shows nothing but
/// palette colours, without dithering, stores for every pixel the index of
/// its own colour.
pub proof fn law_import_of_palette_image_is_exact(pixels: Seq<u8>, source: RasterView)
    requires
        source.wf(),
        source.width == WIDTH,
        source.height == HEIGHT,
        forall|i: int|
            0 <= i < panel_len() ==> palette_colour_of(#[trigger] pixel_at(source.data, i)) is Some,
        is_import_of(pixels, source, false),
    ensures
        pixels.len() == panel_len(),
        forall|i: int|
            0 <= i < panel_len() ==> #[trigger] pixels[i] == palette_colour_of(
                pixel_at(source.data, i),
            )->Some_0.spec_index(),
{
    let resized = choose|resized: Seq<u8>|
        #![trigger is_resize_of(resized, source)]
        is_resize_of(resized, source) && pixels == quantized(resized);
    assert(resized == source.data);
    assert forall|i: int| 0 <= i < panel_len() implies #[trigger] pixels[i] == palette_colour_of(
        pixel_at(source.data, i),
    )->Some_0.spec_index() by {
        let pixel = pixel_at(source.data, i);
        assert(palette_colour_of(pixel) is Some);
        law_palette_colours_are_fixed(pixel);
    }
}

} // verus!
