use vstd::prelude::*;
use embedded_graphics::pixelcolor::BinaryColor;
use tinybmp::{Bmp, ParseError};

verus! {

#[verifier::external_type_specification]
#[verifier::external_body]
pub struct ExBinaryColor(BinaryColor);

#[verifier::external_type_specification]
#[verifier::external_body]
pub struct ExParseError(ParseError);

#[verifier::external_type_specification]
#[verifier::external_body]
#[verifier::reject_recursive_types(C)]
pub struct ExBmp<'a, C>(Bmp<'a, C>);

/// What `tinybmp` makes of `bytes`: the parsed bitmap, or the reason the
/// bytes are not a BMP file it supports.
pub uninterp spec fn bmp_parse(bytes: Seq<u8>) -> Result<Bmp<'static, BinaryColor>, ParseError>;

/// Whether `bytes` at least starts like a BMP file: a 14-byte file header
/// that opens with the signature `BM`.
pub open spec fn has_bmp_file_header(bytes: Seq<u8>) -> bool {
    bytes.len() >= 14 && bytes[0] == 0x42u8 && bytes[1] == 0x4du8
}

/// The colour-table size field of a BMP file: the little-endian `u32` at
/// byte 46 (the "colors used" field of the DIB header), when the file is long
/// enough to hold it.
pub open spec fn color_count_field(bytes: Seq<u8>) -> int {
    bytes[46] as int + bytes[47] as int * 0x100 + bytes[48] as int * 0x1_0000 + bytes[49] as int
        * 0x100_0000
}

/// Whether the colour-table size of `bytes`, times the 4 bytes of a table
/// entry, fits in a 32-bit `usize` (the firmware's word size).
pub open spec fn color_table_fits(bytes: Seq<u8>) -> bool {
    bytes.len() < 50 || color_count_field(bytes) <= 0x3FFF_FFFF
}

/// Whether the colour-table size of `bytes` is one the parser can size on a
/// 32-bit target.
pub fn color_table_size_fits(bytes: &[u8]) -> (fits: bool)
    ensures
        fits == color_table_fits(bytes@),
        bytes@.len() >= 50 ==> (fits <==> 4 * (bytes@[46] as int + bytes@[47] as int * 256
            + bytes@[48] as int * 65536 + bytes@[49] as int * 16777216) < 0x1_0000_0000),
{
    if bytes.len() < 50 {
        true
    } else {
        bytes[49] < 0x40
    }
}

/// Calls `tinybmp::Bmp::<BinaryColor>::from_slice`, which parses a BMP file
/// held in memory. Claimed: its result is the one that `bmp_parse` names for
/// the bytes, and it fails on input without a complete file header that
/// starts with `BM`, as the header parser reads the 2-byte signature and 12
/// more header bytes first. The parser multiplies the colour-table size read
/// from the file by 4 in `usize`; on a 32-bit target that overflows for sizes
/// above `0x3FFF_FFFF` (a panic with overflow checks, a wrapped size without),
/// so such files are left out and the result depends on the bytes alone.
/// Not claimed: anything about the image inside a parsed value.
#[verifier::external_body]
fn parse_bmp<'a>(bytes: &'a [u8]) -> (r: Result<Bmp<'a, BinaryColor>, ParseError>)
    requires
        color_table_fits(bytes@),
    ensures
        r == bmp_parse(bytes@),
        !has_bmp_file_header(bytes@) ==> r is Err,
{
    Bmp::from_slice(bytes)
}

/// A bitmap that could not be loaded: its position in the input list and the
/// parser's reason.
#[derive(Clone, Copy, Debug)]
pub struct LoadError {
    pub index: usize,
    pub cause: ParseError,
}

/// Parse every bitmap of `files`, in order, stopping at the first one that
/// does not parse. The bitmap at position `i` of the result is the one parsed
/// from `files[i]`.
pub fn load_bitmaps<'a>(files: &[&'a [u8]]) -> (r: Result<Vec<Bmp<'a, BinaryColor>>, LoadError>)
    requires
        forall|i: int| 0 <= i < files@.len() ==> color_table_fits(#[trigger] files@[i]@),
    ensures
        r is Ok <==> forall|i: int|
            0 <= i < files@.len() ==> (#[trigger] bmp_parse(files@[i]@)) is Ok,
        r matches Ok(v) ==> {
            &&& v@.len() == files@.len()
            &&& forall|i: int|
                0 <= i < v@.len() ==> bmp_parse(files@[i]@) == Ok::<Bmp<'static, BinaryColor>, ParseError>(#[trigger] v@[i])
        },
        r matches Err(e) ==> {
            &&& e.index < files@.len()
            &&& bmp_parse(files@[e.index as int]@) == Err::<Bmp<'static, BinaryColor>, ParseError>(e.cause)
            &&& forall|i: int| 0 <= i < e.index ==> (#[trigger] bmp_parse(files@[i]@)) is Ok
        },
{
    let mut loaded: Vec<Bmp<'a, BinaryColor>> = Vec::new();
    let mut i: usize = 0;
    while i < files.len()
        invariant
            i <= files@.len(),
            loaded@.len() == i,
            forall|j: int| 0 <= j < files@.len() ==> color_table_fits(#[trigger] files@[j]@),
            forall|j: int| 0 <= j < i ==> bmp_parse(files@[j]@) == Ok::<Bmp<'static, BinaryColor>, ParseError>(#[trigger] loaded@[j]),
        decreases files@.len() - i,
    {
        let parsed = parse_bmp(files[i]);
        match parsed {
            Ok(bmp) => loaded.push(bmp),
            Err(cause) => {
                assert(forall|j: int| 0 <= j < i ==> (#[trigger] bmp_parse(files@[j]@)) is Ok) by {
                    assert forall|j: int| 0 <= j < i implies (#[trigger] bmp_parse(files@[j]@)) is Ok by {
                        assert(bmp_parse(files@[j]@) == Ok::<Bmp<'static, BinaryColor>, ParseError>(loaded@[j]));
                    }
                }
                return Err(LoadError { index: i, cause });
            },
        }
        i = i + 1;
    }
    assert forall|j: int| 0 <= j < files@.len() implies (#[trigger] bmp_parse(files@[j]@)) is Ok by {
        assert(bmp_parse(files@[j]@) == Ok::<Bmp<'static, BinaryColor>, ParseError>(loaded@[j]));
    }
    Ok(loaded)
}

/// Number of frames in one round of the animation.
pub const FRAME_COUNT: usize = 5;

/// Number of distinct bitmaps the animation shows.
pub const BITMAP_COUNT: usize = 3;

/// Column of the display where every frame's left edge is drawn.
pub const FRAME_X: i32 = 32;

/// What to draw for one animation step: which of the loaded bitmaps, with its
/// top-left corner at `(x, y)` on the display.
#[derive(Clone, Copy, Debug, PartialEq, Eq, Structural)]
pub struct Frame {
    pub bitmap: usize,
    pub x: i32,
    pub y: i32,
}

/// The bitmap of the frame at position `i` of the round: the first, second,
/// third, second and first bitmap again.
pub open spec fn frame_bitmap(i: int) -> usize {
    if i == 1 || i == 3 {
        1
    } else if i == 2 {
        2
    } else {
        0
    }
}

/// The row of the frame at position `i` of the round: the image sinks by 4
/// pixels a step, then rises back.
pub open spec fn frame_y(i: int) -> i32 {
    if i == 0 {
        0
    } else if i == 1 {
        4
    } else if i == 2 {
        8
    } else if i == 3 {
        4
    } else {
        0
    }
}

/// The frame at position `i` of the round.
pub open spec fn frame_at(i: int) -> Frame {
    Frame { bitmap: frame_bitmap(i), x: 32, y: frame_y(i) }
}

/// The animation of the OLED firmware: a round of five frames, drawn one per
/// step. Each step first moves to the next position, then shows its frame.
#[derive(Clone, Copy, Debug)]
pub struct Animation {
    position: usize,
}

impl Animation {
    #[verifier::type_invariant]
    spec fn position_in_round(self) -> bool {
        self.position < FRAME_COUNT
    }

    /// The position in the round of the frame shown last.
    pub closed spec fn position(self) -> int {
        self.position as int
    }

    /// An animation at the start of its round.
    pub fn new() -> (a: Self)
        ensures
            a.position() == 0,
    {
        Animation { position: 0 }
    }

    /// Move to the next position of the round and return its frame.
    pub fn advance(&mut self) -> (f: Frame)
        ensures
            final(self).position() == (old(self).position() + 1) % (FRAME_COUNT as int),
            f == frame_at(final(self).position()),
    {
        proof {
            use_type_invariant(&*self);
        }
        let next = (self.position + 1) % FRAME_COUNT;
        self.position = next;
        let y: i32 = if next == 0 {
            0
        } else if next == 1 {
            4
        } else if next == 2 {
            8
        } else if next == 3 {
            4
        } else {
            0
        };
        let bitmap: usize = if next == 1 || next == 3 {
            1
        } else if next == 2 {
            2
        } else {
            0
        };
        Frame { bitmap, x: FRAME_X, y }
    }
}

/// Every frame names one of the loaded bitmaps and a row the image can be
/// drawn at: 0, 4 or 8.
pub proof fn frames_are_well_placed(i: int)
    requires
        0 <= i < FRAME_COUNT,
    ensures
        frame_at(i).bitmap < BITMAP_COUNT,
        frame_at(i).x == FRAME_X,
        frame_at(i).y == 0 || frame_at(i).y == 4 || frame_at(i).y == 8,
{
}

/// The round is symmetric: the second half replays the first one backwards,
/// so the image goes down and comes back the same way.
pub proof fn round_is_symmetric(i: int)
    requires
        0 <= i < FRAME_COUNT,
    ensures
        frame_at(i) == frame_at(FRAME_COUNT - 1 - i),
{
}

/// The animation repeats: five steps bring it back to the position it
/// started from, so the same five frames come round again and again.
pub proof fn animation_repeats(position: int, steps: nat)
    requires
        0 <= position < FRAME_COUNT,
    ensures
        (position + steps + FRAME_COUNT) % (FRAME_COUNT as int) == (position + steps) % (
        FRAME_COUNT as int),
        frame_at((position + steps + FRAME_COUNT) % (FRAME_COUNT as int)) == frame_at(
            (position + steps) % (FRAME_COUNT as int),
        ),
{
    assert((position + steps + 5) % 5 == (position + steps) % 5) by (nonlinear_arith)
        requires
            position + steps >= 0,
    ;
}


/// The guard refuses only colour-table sizes whose size in bytes (4 per entry)
/// overflows a 32-bit `usize`: files too short to hold the field always pass,
/// a colour count of 0 (a full palette for the bit depth) passes, and a longer
/// file passes exactly when 4 times its little-endian count at byte 46 is below
/// 2^32.
pub proof fn color_table_guard_refuses_only_overflow(bytes: Seq<u8>)
    ensures
        bytes.len() < 50 ==> color_table_fits(bytes),
        bytes.len() >= 50 ==> (color_table_fits(bytes) <==> 4 * (bytes[46] as int + bytes[47] as int
            * 256 + bytes[48] as int * 65536 + bytes[49] as int * 16777216) < 0x1_0000_0000),
        bytes.len() >= 50 && bytes[46] == 0 && bytes[47] == 0 && bytes[48] == 0 && bytes[49] == 0
            ==> color_table_fits(bytes),
        bytes.len() >= 50 && bytes[49] >= 0x40 ==> !color_table_fits(bytes),
{
}

} // verus!
