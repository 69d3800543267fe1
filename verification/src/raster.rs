//! Source images as plain pixel data, and what the `image` crate does to
//! them on the way to the panel: resampling to the panel's size and
//! Floyd-Steinberg dithering against the palette.

use vstd::prelude::*;
use image::imageops::ColorMap;
use crate::error::InkyError;
use crate::palette::{is_legal_index, nearest, spec_lookup, Palette, Rgba8};
use crate::HEIGHT;

verus! {

/// Pixel `i` of a buffer of four bytes to the pixel: red, green, blue and
/// alpha.
pub open spec fn pixel_at(data: Seq<u8>, i: int) -> Rgba8 {
    Rgba8 { r: data[4 * i], g: data[4 * i + 1], b: data[4 * i + 2], a: data[4 * i + 3] }
}

/// In an image of `width` by `height` pixels, the pixel in column `x` of row
/// `y` lies among the first `width * height`.
pub proof fn lemma_pixel_in_bounds(width: int, height: int, x: int, y: int)
    requires
        0 <= x < width,
        0 <= y < height,
    ensures
        0 <= y * width <= y * width + x < width * height,
        4 * (y * width + x) + 3 < 4 * width * height,
{
    assert(0 <= y * width) by (nonlinear_arith)
        requires
            0 <= y,
            0 <= width,
    ;
    assert((y + 1) * width <= height * width) by (nonlinear_arith)
        requires
            y + 1 <= height,
            0 <= width,
    ;
    assert((y + 1) * width == y * width + width) by (nonlinear_arith);
    assert(height * width == width * height) by (nonlinear_arith);
    assert(4 * width * height == 4 * (width * height)) by (nonlinear_arith);
}

/// A [`Raster`] as specifications see it.
pub ghost struct RasterView {
    pub width: nat,
    pub height: nat,
    /// The pixels row by row, four bytes each: red, green, blue, alpha.
    pub data: Seq<u8>,
}

impl RasterView {
    /// The data holds exactly the pixels that the size announces, and the
    /// image is not too wide for this machine to bring it to the height of
    /// the panel.
    pub open spec fn wf(self) -> bool {
        &&& self.data.len() == 4 * self.width * self.height
        &&& 4 * self.width * HEIGHT <= usize::MAX
    }

    /// The pixel in column `x` of row `y`.
    pub open spec fn pixel(self, x: int, y: int) -> Rgba8 {
        pixel_at(self.data, y * self.width + x)
    }
}

/// An image of eight-bit red, green, blue and alpha samples.
#[derive(Debug)]
pub struct Raster {
    width: u32,
    height: u32,
    data: Vec<u8>,
}

impl View for Raster {
    type V = RasterView;

    closed spec fn view(&self) -> RasterView {
        RasterView { width: self.width as nat, height: self.height as nat, data: self.data@ }
    }
}

impl Raster {
    /// Makes an image of the given size from its samples, row by row and
    /// four to the pixel.  Data that does not hold exactly `width * height`
    /// pixels is refused, and so is an image so wide that a buffer of its
    /// width and the height of the panel would not fit in memory.
    pub fn new(width: u32, height: u32, data: Vec<u8>) -> (made: Result<Raster, InkyError>)
        ensures
            (RasterView { width: width as nat, height: height as nat, data: data@ }).wf() ==> made
                is Ok && made->Ok_0@ == (RasterView {
                width: width as nat,
                height: height as nat,
                data: data@,
            }),
            !(RasterView { width: width as nat, height: height as nat, data: data@ }).wf() ==> made
                == Err::<Raster, InkyError>(InkyError::ImageDecodeError),
    {
        assert(4 * (width as int) * (height as int) <= 4 * 0xffff_ffff * 0xffff_ffff)
            by (nonlinear_arith)
            requires
                0 <= width <= 0xffff_ffff,
                0 <= height <= 0xffff_ffff,
        ;
        let wanted: u128 = 4 * (width as u128) * (height as u128);
        assert(4 * (width as int) * (HEIGHT as int) <= 4 * 0xffff_ffff * 480) by (nonlinear_arith)
            requires
                0 <= width <= 0xffff_ffff,
                HEIGHT == 480,
        ;
        let widest: u128 = 4 * (width as u128) * (HEIGHT as u128);
        if data.len() as u128 == wanted && widest <= usize::MAX as u128 {
            Ok(Raster { width, height, data })
        } else {
            Err(InkyError::ImageDecodeError)
        }
    }

    /// Number of pixels in a row.
    pub fn width(&self) -> (w: u32)
        ensures
            w == self@.width,
    {
        self.width
    }

    /// Number of rows.
    pub fn height(&self) -> (h: u32)
        ensures
            h == self@.height,
    {
        self.height
    }

    /// The samples, row by row and four to the pixel.
    pub fn as_bytes(&self) -> (bytes: &[u8])
        ensures
            bytes@ == self@.data,
    {
        self.data.as_slice()
    }

    /// The pixel in column `x` of row `y`, if the image has one there.
    pub fn pixel(&self, x: u32, y: u32) -> (p: Option<Rgba8>)
        requires
            self@.wf(),
        ensures
            x < self@.width && y < self@.height ==> p == Some(self@.pixel(x as int, y as int)),
            !(x < self@.width && y < self@.height) ==> p is None,
    {
        if x < self.width && y < self.height {
            let samples = self.data.len();
            let columns = self.width as usize;
            let row = y as usize;
            let column = x as usize;
            proof {
                lemma_pixel_in_bounds(
                    columns as int,
                    self.height as int,
                    column as int,
                    row as int,
                );
                assert(4 * (columns as int) * (self.height as int) == samples);
            }
            let i: usize = row * columns + column;
            Some(
                Rgba8 {
                    r: self.data[4 * i],
                    g: self.data[4 * i + 1],
                    b: self.data[4 * i + 2],
                    a: self.data[4 * i + 3],
                },
            )
        } else {
            None
        }
    }
}

/// The pixel type of the `image` crate: four samples in the order red,
/// green, blue, alpha.  Its contents are read and written through
/// [`rgba_of_pixel`] and [`pixel_of_rgba`] only.
#[verifier::external_type_specification]
#[verifier::external_body]
#[verifier::reject_recursive_types(T)]
pub struct ExRgba<T>(image::Rgba<T>);

/// The samples that an `image::Rgba<u8>` holds, in the order of its one
/// public field.
pub uninterp spec fn channels(pixel: image::Rgba<u8>) -> Seq<u8>;

/// The four samples of a colour in the order red, green, blue, alpha.
pub open spec fn samples_of(color: Rgba8) -> Seq<u8> {
    seq![color.r, color.g, color.b, color.a]
}

/// Reads the four samples of an `image::Rgba<u8>`, which are the elements of
/// its one public field.
///
/// Claimed of that type: it holds four samples, and the colour handed back
/// has them as its red, green, blue and alpha.
#[verifier::external_body]
fn rgba_of_pixel(pixel: &image::Rgba<u8>) -> (color: Rgba8)
    ensures
        samples_of(color) == channels(*pixel),
{
    Rgba8 { r: pixel.0[0], g: pixel.0[1], b: pixel.0[2], a: pixel.0[3] }
}

/// Makes an `image::Rgba<u8>` of four samples.
///
/// Claimed of that type: a pixel made of four samples holds them, in the
/// order given.
#[verifier::external_body]
fn pixel_of_rgba(color: Rgba8) -> (pixel: image::Rgba<u8>)
    ensures
        channels(pixel) == samples_of(color),
{
    image::Rgba([color.r, color.g, color.b, color.a])
}

/// The palette as a colour map of the `image` crate.  Every method reads
/// the samples of the pixel and hands them to the method of [`Palette`] that
/// does the same on an [`Rgba8`].
impl ColorMap for Palette {
    type Color = image::Rgba<u8>;

    /// Index of the palette colour nearest to the pixel.
    fn index_of(&self, color: &image::Rgba<u8>) -> (i: usize)
        ensures
            i == nearest(pixel_at(channels(*color), 0)).spec_index(),
            is_legal_index(i as int),
    {
        let color = rgba_of_pixel(color);
        assert(color == pixel_at(samples_of(color), 0));
        self.index_of_rgba(&color)
    }

    /// Replaces the pixel by the palette colour nearest to it, fully
    /// opaque.
    fn map_color(&self, color: &mut image::Rgba<u8>)
        ensures
            channels(*final(color)) == samples_of(
                nearest(pixel_at(channels(*old(color)), 0)).spec_rgba(),
            ),
    {
        let mut mapped = rgba_of_pixel(color);
        assert(mapped == pixel_at(samples_of(mapped), 0));
        Palette::map_color(self, &mut mapped);
        *color = pixel_of_rgba(mapped);
    }

    /// The colour stored under `index`, as a pixel.  Every index has one:
    /// an index that names no colour of the panel falls back to black.
    fn lookup(&self, index: usize) -> (found: Option<image::Rgba<u8>>)
        ensures
            found is Some,
            channels(found->Some_0) == samples_of(spec_lookup(index as int)),
    {
        match self.lookup_rgba(index) {
            Some(color) => Some(pixel_of_rgba(color)),
            None => None,
        }
    }

    /// This palette answers `lookup` for every index.
    fn has_lookup(&self) -> (yes: bool)
        ensures
            yes,
    {
        Palette::has_lookup(self)
    }
}

/// The samples of an image of `width` by `height` pixels after
/// Floyd-Steinberg dithering against the palette, as
/// `image::imageops::dither` computes them.
pub uninterp spec fn dithered(data: Seq<u8>, width: nat, height: nat) -> Seq<u8>;

/// Resamples `source` to `width` by `height` pixels with the Lanczos filter
/// of window 3, through `image::imageops::resize`.
///
/// Claimed of that function: the result has the size asked for, and a source
/// that already has that size comes back pixel for pixel.  What the filter
/// makes of any other source is not stated.  The function panics where a
/// buffer of the size asked for, or one of the width of the source and the
/// height asked for, does not fit in memory; such sizes are kept out.
#[verifier::external_body]
pub(crate) fn resize_lanczos3(source: &Raster, width: u32, height: u32) -> (resized: Raster)
    requires
        source@.wf(),
        4 * width * height <= usize::MAX,
        4 * source@.width * height <= usize::MAX,
    ensures
        resized@.width == width,
        resized@.height == height,
        resized@.data.len() == 4 * width * height,
        source@.width == width && source@.height == height ==> resized@.data == source@.data,
{
    let samples = source.data.clone();
    let image = image::RgbaImage::from_raw(source.width, source.height, samples).unwrap();
    let filter = image::imageops::FilterType::Lanczos3;
    let resized = image::imageops::resize(&image, width, height, filter);
    Raster { width, height, data: resized.into_raw() }
}

/// Dithers `raster` in place against the palette, through
/// `image::imageops::dither` with [`Palette`] as its colour map.
///
/// Claimed of that function: the size of the image stays, and the samples
/// that come out depend on nothing but the samples that went in and the
/// size.  The function reaches beyond the image when it is less than two
/// pixels wide or has no row, so such images are kept out.
#[verifier::external_body]
pub(crate) fn dither_in_place(raster: &mut Raster)
    requires
        old(raster)@.wf(),
        old(raster)@.width >= 2,
        old(raster)@.height >= 1,
    ensures
        final(raster)@.wf(),
        final(raster)@.width == old(raster)@.width,
        final(raster)@.height == old(raster)@.height,
        final(raster)@.data == dithered(
            old(raster)@.data,
            old(raster)@.width,
            old(raster)@.height,
        ),
{
    let samples = std::mem::take(&mut raster.data);
    let mut image = image::RgbaImage::from_raw(raster.width, raster.height, samples).unwrap();
    image::imageops::dither(&mut image, &Palette);
    raster.data = image.into_raw();
}

} // verus!
