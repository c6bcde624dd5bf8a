//! Pixel grids and the linear blend of two of them.

use vstd::prelude::*;
use vstd::arithmetic::div_mod::{lemma_div_is_ordered, lemma_div_multiples_vanish};
use crate::ratio::Ratio;

verus! {

/// One colour: three 8-bit channels.
#[derive(Clone, Copy, Debug, PartialEq, Eq, Structural)]
pub struct Pixel {
    pub red: u8,
    pub green: u8,
    pub blue: u8,
}

/// Width and height of a frame, in pixels.
#[derive(Clone, Copy, Debug, PartialEq, Eq, Structural)]
pub struct Dimensions {
    pub width: u32,
    pub height: u32,
}

/// Why two frames were not blended.
#[derive(Clone, Copy, Debug, PartialEq, Eq, Structural)]
pub enum BlendError {
    /// The two frames differ in width or height.
    DimensionMismatch { first: Dimensions, second: Dimensions },
    /// The ratio is undefined or lies outside `[0, 1]`.
    InvalidRatio { amount: Ratio },
}

/// `a * (1 - r) + b * r` for `r = amount.num / amount.den`, rounded down.
pub open spec fn weighted_mean(a: int, b: int, amount: Ratio) -> int {
    (a * (amount.den - amount.num) + b * amount.num) / (amount.den as int)
}

/// One channel of the blend of two pixels.
pub open spec fn mixed_channel(a: u8, b: u8, amount: Ratio) -> u8 {
    weighted_mean(a as int, b as int, amount) as u8
}

/// The blend of two pixels: each channel mixed on its own.
pub open spec fn mixed_pixel(p: Pixel, q: Pixel, amount: Ratio) -> Pixel {
    Pixel {
        red: mixed_channel(p.red, q.red, amount),
        green: mixed_channel(p.green, q.green, amount),
        blue: mixed_channel(p.blue, q.blue, amount),
    }
}

/// The blend of two rows of pixels, position by position.
pub open spec fn mixed_pixels(a: Seq<Pixel>, b: Seq<Pixel>, amount: Ratio) -> Seq<Pixel> {
    Seq::new(a.len(), |i: int| mixed_pixel(a[i], b[i], amount))
}

/// `x` lies between `a` and `b`, ends included, whichever of the two is the
/// smaller.
pub open spec fn between(a: u8, x: u8, b: u8) -> bool {
    (a <= x <= b) || (b <= x <= a)
}

/// `lo <= x` (or `x <= hi`) on both inputs carries over to their weighted
/// mean.
proof fn weighted_mean_bounds(a: int, b: int, lo: int, hi: int, amount: Ratio)
    requires
        amount.in_unit_interval(),
        lo <= a <= hi,
        lo <= b <= hi,
    ensures
        lo <= weighted_mean(a, b, amount) <= hi,
{
    let den = amount.den as int;
    let num = amount.num as int;
    let sum = a * (den - num) + b * num;
    assert(lo * den <= sum <= hi * den) by (nonlinear_arith)
        requires
            0 <= num <= den,
            lo <= a <= hi,
            lo <= b <= hi,
            sum == a * (den - num) + b * num,
    ;
    assert(den * lo == lo * den && den * hi == hi * den) by (nonlinear_arith);
    lemma_div_multiples_vanish(lo, den);
    lemma_div_multiples_vanish(hi, den);
    lemma_div_is_ordered(lo * den, sum, den);
    lemma_div_is_ordered(sum, hi * den, den);
}

/// A mixed channel is the weighted mean itself, nothing is cut off, and it
/// lies between the two inputs, ends included.
pub proof fn channel_lies_between(a: u8, b: u8, amount: Ratio)
    requires
        amount.in_unit_interval(),
    ensures
        mixed_channel(a, b, amount) == weighted_mean(a as int, b as int, amount),
        a <= b ==> a <= mixed_channel(a, b, amount) <= b,
        b <= a ==> b <= mixed_channel(a, b, amount) <= a,
{
    if a <= b {
        weighted_mean_bounds(a as int, b as int, a as int, b as int, amount);
    } else {
        weighted_mean_bounds(a as int, b as int, b as int, a as int, amount);
    }
}

/// At ratio 0 a mixed channel is the first input; at ratio 1, the second.
pub proof fn channel_at_the_ends(a: u8, b: u8, amount: Ratio)
    requires
        amount.in_unit_interval(),
    ensures
        amount.is_zero() ==> mixed_channel(a, b, amount) == a,
        amount.is_one() ==> mixed_channel(a, b, amount) == b,
{
    let den = amount.den as int;
    if amount.is_zero() {
        assert(a * (den - 0) + b * 0 == den * a) by (nonlinear_arith);
        lemma_div_multiples_vanish(a as int, den);
    }
    if amount.is_one() {
        assert(a * (den - den) + b * den == den * b) by (nonlinear_arith);
        lemma_div_multiples_vanish(b as int, den);
    }
}

fn blend_channel(a: u8, b: u8, amount: Ratio) -> (mixed: u8)
    requires
        amount.in_unit_interval(),
    ensures
        mixed == mixed_channel(a, b, amount),
{
    let rest: u128 = (amount.den - amount.num) as u128;
    let part: u128 = amount.num as u128;
    assert(a as u128 * rest <= 255 * 0xffff_ffff_ffff_ffff) by (nonlinear_arith)
        requires
            a <= 255,
            rest <= 0xffff_ffff_ffff_ffff,
    ;
    assert(b as u128 * part <= 255 * 0xffff_ffff_ffff_ffff) by (nonlinear_arith)
        requires
            b <= 255,
            part <= 0xffff_ffff_ffff_ffff,
    ;
    let sum: u128 = a as u128 * rest + b as u128 * part;
    let mean: u128 = sum / (amount.den as u128);
    proof {
        channel_lies_between(a, b, amount);
    }
    mean as u8
}

/// Blends two pixels: each channel is `first * (1 - amount) + second * amount`,
/// rounded down. A ratio outside `[0, 1]` is refused.
pub fn blend_pixels(first: &Pixel, second: &Pixel, amount: Ratio) -> (blended: Result<
    Pixel,
    BlendError,
>)
    ensures
        amount.in_unit_interval() ==> blended == Ok::<Pixel, BlendError>(
            mixed_pixel(*first, *second, amount),
        ),
        !amount.in_unit_interval() ==> blended == Err::<Pixel, BlendError>(
            BlendError::InvalidRatio { amount },
        ),
        amount.is_zero() ==> blended == Ok::<Pixel, BlendError>(*first),
        amount.is_one() ==> blended == Ok::<Pixel, BlendError>(*second),
        blended matches Ok(out) ==> {
            &&& between(first.red, out.red, second.red)
            &&& between(first.green, out.green, second.green)
            &&& between(first.blue, out.blue, second.blue)
        },
{
    if !amount.is_valid() {
        return Err(BlendError::InvalidRatio { amount });
    }
    proof {
        channel_lies_between(first.red, second.red, amount);
        channel_lies_between(first.green, second.green, amount);
        channel_lies_between(first.blue, second.blue, amount);
        channel_at_the_ends(first.red, second.red, amount);
        channel_at_the_ends(first.green, second.green, amount);
        channel_at_the_ends(first.blue, second.blue, amount);
    }
    Ok(
        Pixel {
            red: blend_channel(first.red, second.red, amount),
            green: blend_channel(first.green, second.green, amount),
            blue: blend_channel(first.blue, second.blue, amount),
        },
    )
}

/// The pixels that a run of bytes stands for, three bytes to a pixel: red,
/// green, blue. Bytes past the last full triple stand for nothing.
pub open spec fn unpacked(bytes: Seq<u8>) -> Seq<Pixel> {
    Seq::new(
        bytes.len() / 3,
        |i: int| Pixel { red: bytes[3 * i], green: bytes[3 * i + 1], blue: bytes[3 * i + 2] },
    )
}

/// One channel of a pixel: 0 is red, 1 is green, anything else is blue.
pub open spec fn channel(p: Pixel, which: int) -> u8 {
    if which == 0 {
        p.red
    } else if which == 1 {
        p.green
    } else {
        p.blue
    }
}

/// The bytes that stand for a row of pixels, three bytes to a pixel: red,
/// green, blue.
pub open spec fn packed(pixels: Seq<Pixel>) -> Seq<u8> {
    Seq::new(3 * pixels.len(), |k: int| channel(pixels[k / 3], k % 3))
}

/// Packing pixels into bytes and unpacking them gives the same pixels, and
/// the other way round for bytes that come in full triples.
pub proof fn packing_round_trip(pixels: Seq<Pixel>, bytes: Seq<u8>)
    ensures
        unpacked(packed(pixels)) == pixels,
        bytes.len() % 3 == 0 ==> packed(unpacked(bytes)) == bytes,
{
    assert(unpacked(packed(pixels)) =~= pixels);
    if bytes.len() % 3 == 0 {
        assert(packed(unpacked(bytes)) =~= bytes);
    }
}

/// A grid of pixels, stored row by row from the top left.
#[derive(Debug, PartialEq, Eq)]
pub struct ImageFrame {
    width: u32,
    height: u32,
    pixels: Vec<Pixel>,
}

impl View for ImageFrame {
    type V = Seq<Pixel>;

    /// The pixels, row by row.
    closed spec fn view(&self) -> Seq<Pixel> {
        self.pixels@
    }
}

impl ImageFrame {
    /// Pixels per row.
    pub closed spec fn spec_width(&self) -> u32 {
        self.width
    }

    /// Number of rows.
    pub closed spec fn spec_height(&self) -> u32 {
        self.height
    }

    /// There is one pixel for every place of the grid.
    pub open spec fn wf(&self) -> bool {
        self@.len() == self.width() * self.height()
    }

    /// Width and height together.
    pub open spec fn spec_dimensions(&self) -> Dimensions {
        Dimensions { width: self.width(), height: self.height() }
    }

    /// Two frames can be blended only if width and height agree exactly.
    pub open spec fn compatible(&self, other: &ImageFrame) -> bool {
        self.dimensions() == other.dimensions()
    }

    /// A frame of the given size from its pixels, row by row; `None` unless
    /// there are exactly `width * height` of them.
    pub fn new(width: u32, height: u32, pixels: Vec<Pixel>) -> (made: Option<ImageFrame>)
        ensures
            match made {
                Some(frame) => {
                    &&& pixels@.len() == width * height
                    &&& frame.wf()
                    &&& frame.width() == width
                    &&& frame.height() == height
                    &&& frame@ == pixels@
                },
                None => pixels@.len() != width * height,
            },
    {
        assert(width as u64 * height as u64 <= 0xffff_ffff * 0xffff_ffff) by (nonlinear_arith)
            requires
                width <= 0xffff_ffff,
                height <= 0xffff_ffff,
        ;
        let wanted: u64 = width as u64 * height as u64;
        if pixels.len() as u64 == wanted {
            Some(ImageFrame { width, height, pixels })
        } else {
            None
        }
    }

    /// Pixels per row.
    #[verifier::when_used_as_spec(spec_width)]
    pub fn width(&self) -> (w: u32)
        ensures
            w == self.width(),
    {
        self.width
    }

    /// Number of rows.
    #[verifier::when_used_as_spec(spec_height)]
    pub fn height(&self) -> (h: u32)
        ensures
            h == self.height(),
    {
        self.height
    }

    /// Width and height together.
    #[verifier::when_used_as_spec(spec_dimensions)]
    pub fn dimensions(&self) -> (d: Dimensions)
        ensures
            d == self.dimensions(),
    {
        Dimensions { width: self.width, height: self.height }
    }

    /// The pixels, row by row.
    pub fn pixels(&self) -> (all: &Vec<Pixel>)
        ensures
            all@ == self@,
    {
        &self.pixels
    }

    /// A frame of the given size from packed 8-bit RGB, three bytes to a
    /// pixel, row by row; `None` unless there are exactly
    /// `3 * width * height` bytes.
    pub fn from_rgb8(width: u32, height: u32, bytes: &Vec<u8>) -> (made: Option<ImageFrame>)
        ensures
            match made {
                Some(frame) => {
                    &&& bytes@.len() == 3 * (width * height)
                    &&& frame.wf()
                    &&& frame.width() == width
                    &&& frame.height() == height
                    &&& frame@ == unpacked(bytes@)
                },
                None => bytes@.len() != 3 * (width * height),
            },
    {
        assert(width as u128 * height as u128 <= 0xffff_ffff * 0xffff_ffff) by (nonlinear_arith)
            requires
                width <= 0xffff_ffff,
                height <= 0xffff_ffff,
        ;
        let wanted: u128 = 3 * (width as u128 * height as u128);
        if bytes.len() as u128 != wanted {
            return None;
        }
        let count: usize = bytes.len() / 3;
        let mut pixels: Vec<Pixel> = Vec::new();
        let mut i: usize = 0;
        while i < count
            invariant
                bytes@.len() == 3 * count,
                bytes@.len() <= usize::MAX,
                i <= count,
                pixels@.len() == i,
                forall|j: int| 0 <= j < i ==> pixels@[j] == unpacked(bytes@)[j],
            decreases count - i,
        {
            pixels.push(
                Pixel { red: bytes[3 * i], green: bytes[3 * i + 1], blue: bytes[3 * i + 2] },
            );
            i = i + 1;
        }
        assert(pixels@ =~= unpacked(bytes@));
        Some(ImageFrame { width, height, pixels })
    }

    /// The frame as packed 8-bit RGB, three bytes to a pixel, row by row.
    pub fn to_rgb8(&self) -> (bytes: Vec<u8>)
        requires
            self.wf(),
        ensures
            bytes@ == packed(self@),
    {
        let count: usize = self.pixels.len();
        let mut bytes: Vec<u8> = Vec::new();
        let mut i: usize = 0;
        while i < count
            invariant
                count == self.pixels@.len(),
                i <= count,
                bytes@.len() == 3 * i,
                forall|k: int| 0 <= k < 3 * i ==> bytes@[k] == packed(self@)[k],
            decreases count - i,
        {
            let p: &Pixel = &self.pixels[i];
            bytes.push(p.red);
            bytes.push(p.green);
            bytes.push(p.blue);
            i = i + 1;
        }
        assert(bytes@ =~= packed(self@));
        bytes
    }
}

/// Why two frames cannot be blended at `amount`; `None` where they can. A
/// mismatch of the frames is reported before a bad ratio.
pub open spec fn blend_fault(first: &ImageFrame, second: &ImageFrame, amount: Ratio) -> Option<
    BlendError,
> {
    if !first.compatible(second) {
        Some(
            BlendError::DimensionMismatch {
                first: first.dimensions(),
                second: second.dimensions(),
            },
        )
    } else if !amount.in_unit_interval() {
        Some(BlendError::InvalidRatio { amount })
    } else {
        None
    }
}

/// Blends two frames of the same size into a new one, pixel by pixel. The
/// inputs are left as they are.
///
/// Frames of different size are never cropped or resized: they are refused,
/// whatever the ratio. A ratio outside `[0, 1]` is refused as well.
pub fn blend_images(first: &ImageFrame, second: &ImageFrame, amount: Ratio) -> (blended: Result<
    ImageFrame,
    BlendError,
>)
    requires
        first.wf(),
        second.wf(),
    ensures
        match blended {
            Ok(frame) => {
                &&& blend_fault(first, second, amount) is None
                &&& frame.wf()
                &&& frame.dimensions() == first.dimensions()
                &&& frame@ == mixed_pixels(first@, second@, amount)
            },
            Err(e) => blend_fault(first, second, amount) == Some(e),
        },
        !first.compatible(second) ==> blended is Err && blended->Err_0 is DimensionMismatch,
        first.compatible(second) && amount.is_zero() ==> blended is Ok && blended->Ok_0@
            == first@,
        first.compatible(second) && amount.is_one() ==> blended is Ok && blended->Ok_0@
            == second@,
        blended matches Ok(frame) ==> forall|i: int|
            0 <= i < frame@.len() ==> {
                let out = #[trigger] frame@[i];
                &&& between(first@[i].red, out.red, second@[i].red)
                &&& between(first@[i].green, out.green, second@[i].green)
                &&& between(first@[i].blue, out.blue, second@[i].blue)
            },
{
    if first.width != second.width || first.height != second.height {
        return Err(
            BlendError::DimensionMismatch {
                first: first.dimensions(),
                second: second.dimensions(),
            },
        );
    }
    if !amount.is_valid() {
        return Err(BlendError::InvalidRatio { amount });
    }
    let count: usize = first.pixels.len();
    let mut pixels: Vec<Pixel> = Vec::new();
    let mut i: usize = 0;
    while i < count
        invariant
            amount.in_unit_interval(),
            count == first.pixels@.len(),
            count == second.pixels@.len(),
            i <= count,
            pixels@.len() == i,
            forall|j: int| 0 <= j < i ==> pixels@[j] == mixed_pixel(first@[j], second@[j], amount),
        decreases count - i,
    {
        let p: &Pixel = &first.pixels[i];
        let q: &Pixel = &second.pixels[i];
        let mixed: Pixel = Pixel {
            red: blend_channel(p.red, q.red, amount),
            green: blend_channel(p.green, q.green, amount),
            blue: blend_channel(p.blue, q.blue, amount),
        };
        pixels.push(mixed);
        i = i + 1;
    }
    proof {
        let mixed = mixed_pixels(first@, second@, amount);
        assert(pixels@ =~= mixed);
        blend_stays_between(first, second, amount);
        assert forall|i: int| 0 <= i < pixels@.len() implies {
            let out = #[trigger] pixels@[i];
            &&& between(first@[i].red, out.red, second@[i].red)
            &&& between(first@[i].green, out.green, second@[i].green)
            &&& between(first@[i].blue, out.blue, second@[i].blue)
        } by {
            assert(pixels@[i] == mixed[i]);
        }
        if amount.is_zero() {
            blend_at_zero_is_first(first, second, amount);
        }
        if amount.is_one() {
            blend_at_one_is_second(first, second, amount);
        }
    }
    Ok(ImageFrame { width: first.width, height: first.height, pixels })
}

/// Blending at ratio 0 gives the first frame, channel for channel.
pub proof fn blend_at_zero_is_first(first: &ImageFrame, second: &ImageFrame, amount: Ratio)
    requires
        first.wf(),
        second.wf(),
        first.compatible(second),
        amount.is_zero(),
    ensures
        blend_fault(first, second, amount) is None,
        mixed_pixels(first@, second@, amount) == first@,
{
    assert forall|i: int| 0 <= i < first@.len() implies mixed_pixel(
        first@[i],
        second@[i],
        amount,
    ) == first@[i] by {
        channel_at_the_ends(first@[i].red, second@[i].red, amount);
        channel_at_the_ends(first@[i].green, second@[i].green, amount);
        channel_at_the_ends(first@[i].blue, second@[i].blue, amount);
    }
}

/// Blending at ratio 1 gives the second frame, channel for channel.
pub proof fn blend_at_one_is_second(first: &ImageFrame, second: &ImageFrame, amount: Ratio)
    requires
        first.wf(),
        second.wf(),
        first.compatible(second),
        amount.is_one(),
    ensures
        blend_fault(first, second, amount) is None,
        mixed_pixels(first@, second@, amount) == second@,
{
    assert forall|i: int| 0 <= i < second@.len() implies mixed_pixel(
        first@[i],
        second@[i],
        amount,
    ) == second@[i] by {
        channel_at_the_ends(first@[i].red, second@[i].red, amount);
        channel_at_the_ends(first@[i].green, second@[i].green, amount);
        channel_at_the_ends(first@[i].blue, second@[i].blue, amount);
    }
}

/// At every ratio in `[0, 1]`, each channel of each blended pixel lies
/// between the channels it was mixed from.
pub proof fn blend_stays_between(first: &ImageFrame, second: &ImageFrame, amount: Ratio)
    requires
        first.wf(),
        second.wf(),
        first.compatible(second),
        amount.in_unit_interval(),
    ensures
        mixed_pixels(first@, second@, amount).len() == first@.len(),
        forall|i: int|
            0 <= i < first@.len() ==> {
                let out = #[trigger] mixed_pixels(first@, second@, amount)[i];
                &&& between(first@[i].red, out.red, second@[i].red)
                &&& between(first@[i].green, out.green, second@[i].green)
                &&& between(first@[i].blue, out.blue, second@[i].blue)
            },
{
    assert forall|i: int| 0 <= i < first@.len() implies {
        let out = #[trigger] mixed_pixels(first@, second@, amount)[i];
        &&& between(first@[i].red, out.red, second@[i].red)
        &&& between(first@[i].green, out.green, second@[i].green)
        &&& between(first@[i].blue, out.blue, second@[i].blue)
    } by {
        channel_lies_between(first@[i].red, second@[i].red, amount);
        channel_lies_between(first@[i].green, second@[i].green, amount);
        channel_lies_between(first@[i].blue, second@[i].blue, amount);
    }
}

/// Frames of different size are refused with a mismatch at every ratio.
pub proof fn mismatch_is_always_refused(first: &ImageFrame, second: &ImageFrame, amount: Ratio)
    requires
        !first.compatible(second),
    ensures
        blend_fault(first, second, amount) == Some(
            BlendError::DimensionMismatch {
                first: first.dimensions(),
                second: second.dimensions(),
            },
        ),
{
}

} // verus!
