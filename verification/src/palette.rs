//! The palette mapper: pixel indices to colours, through three lookup tables.

use vstd::prelude::*;
use crate::error::{DecodeError, DecodeErrorView};
use crate::types::{Palettes, PalettesView};

verus! {

/// The number of whole samples of `depth` bytes in `bytes`. Bytes behind the
/// last whole sample are not read.
pub open spec fn sample_count(bytes: Seq<u8>, depth: int) -> int {
    (bytes.len() as int) / depth
}

/// The value of sample `k`, read big-endian from 1 or 2 bytes.
pub open spec fn sample_index(bytes: Seq<u8>, depth: int, k: int) -> int {
    if depth == 1 {
        bytes[k] as int
    } else {
        256 * bytes[2 * k] + bytes[2 * k + 1]
    }
}

/// Whether each of the three tables has an entry for every sample.
pub open spec fn palettes_cover(palettes: PalettesView, bytes: Seq<u8>, depth: int) -> bool {
    forall|k: int|
        0 <= k < sample_count(bytes, depth) ==> {
            &&& #[trigger] sample_index(bytes, depth, k) < palettes.red.len()
            &&& sample_index(bytes, depth, k) < palettes.green.len()
            &&& sample_index(bytes, depth, k) < palettes.blue.len()
        }
}

/// Byte `part` of the colour of index `index`: the six bytes of a colour are
/// red, green and blue, each as a little-endian 16-bit number.
pub open spec fn colour_byte(palettes: PalettesView, index: int, part: int) -> u8 {
    let value: u16 = if part / 2 == 0 {
        palettes.red[index]
    } else if part / 2 == 1 {
        palettes.green[index]
    } else {
        palettes.blue[index]
    };
    if part % 2 == 0 {
        (value % 256) as u8
    } else {
        (value / 256) as u8
    }
}

/// The colours of all samples, six bytes for each, in the order of the
/// samples.
pub open spec fn palette_mapped(bytes: Seq<u8>, palettes: PalettesView, depth: int) -> Seq<u8> {
    Seq::new(
        (6 * sample_count(bytes, depth)) as nat,
        |j: int| colour_byte(palettes, sample_index(bytes, depth, j / 6), j % 6),
    )
}

/// What the palette lookup yields: the mapped colours, or the reason why
/// there are none.
pub open spec fn palette_result(
    bytes: Seq<u8>,
    palettes: PalettesView,
    channels: int,
    depth: int,
) -> Result<Seq<u8>, DecodeErrorView> {
    if channels != 1 {
        Err(DecodeErrorView::PaletteRequiresSingleChannel)
    } else if depth != 1 && depth != 2 {
        Err(DecodeErrorView::UnsupportedPaletteBitDepth)
    } else if !palettes_cover(palettes, bytes, depth) {
        Err(DecodeErrorView::MissingPaletteData)
    } else {
        Ok(palette_mapped(bytes, palettes, depth))
    }
}

/// The mapped buffer holds, for sample `k`, the entries of the three tables
/// for the value of that sample: red in its bytes `6k` and `6k + 1`, green in
/// the next two, blue in the last two, each with the low byte first.
pub proof fn mapped_pixel_is_looked_up(bytes: Seq<u8>, palettes: PalettesView, depth: int, k: int)
    requires
        depth == 1 || depth == 2,
        0 <= k < sample_count(bytes, depth),
        palettes_cover(palettes, bytes, depth),
    ensures
        palette_mapped(bytes, palettes, depth).len() == 6 * sample_count(bytes, depth),
        ({
            let mapped = palette_mapped(bytes, palettes, depth);
            let index = sample_index(bytes, depth, k);
            &&& mapped[6 * k] + 256 * mapped[6 * k + 1] == palettes.red[index]
            &&& mapped[6 * k + 2] + 256 * mapped[6 * k + 3] == palettes.green[index]
            &&& mapped[6 * k + 4] + 256 * mapped[6 * k + 5] == palettes.blue[index]
        }),
{
}

/// Maps a buffer of pixel indices to colours.
///
/// Each sample of `channel_depth` bytes is an index, read big-endian. The
/// output holds, for each sample in order, the red, green and blue entries
/// for that index, each as two bytes, low byte first.
///
/// Fails with `PaletteRequiresSingleChannel` unless `channels` is 1, then
/// with `UnsupportedPaletteBitDepth` unless `channel_depth` is 1 or 2, then
/// with `MissingPaletteData` if a table has no entry for some sample.
pub fn map_to_palette(
    bytes: &Vec<u8>,
    palettes: &Palettes,
    channels: u32,
    channel_depth: u32,
) -> (r: Result<Vec<u8>, DecodeError>)
    ensures
        match r {
            Ok(mapped) => palette_result(bytes@, palettes@, channels as int, channel_depth as int)
                == Ok::<Seq<u8>, DecodeErrorView>(mapped@),
            Err(e) => palette_result(bytes@, palettes@, channels as int, channel_depth as int)
                == Err::<Seq<u8>, DecodeErrorView>(e@),
        },
{
    if channels != 1 {
        return Err(DecodeError::PaletteRequiresSingleChannel);
    }
    if channel_depth != 1 && channel_depth != 2 {
        return Err(DecodeError::UnsupportedPaletteBitDepth);
    }
    let d: usize = channel_depth as usize;
    let count: usize = if d == 1 {
        bytes.len()
    } else {
        bytes.len() / 2
    };
    let mut mapped: Vec<u8> = Vec::new();
    let mut k: usize = 0;
    while k < count
        invariant
            k <= count,
            d == channel_depth,
            d == 1 || d == 2,
            count == sample_count(bytes@, d as int),
            count <= bytes.len(),
            d == 2 ==> 2 * count <= bytes.len(),
            channels == 1,
            forall|j: int|
                0 <= j < k ==> {
                    &&& #[trigger] sample_index(bytes@, d as int, j) < palettes.red@.len()
                    &&& sample_index(bytes@, d as int, j) < palettes.green@.len()
                    &&& sample_index(bytes@, d as int, j) < palettes.blue@.len()
                },
            mapped@.len() == 6 * k,
            forall|j: int|
                0 <= j < 6 * k ==> mapped@[j] == colour_byte(
                    palettes@,
                    sample_index(bytes@, d as int, j / 6),
                    j % 6,
                ),
        decreases count - k,
    {
        let index: usize = if d == 1 {
            bytes[k] as usize
        } else {
            256 * (bytes[2 * k] as usize) + bytes[2 * k + 1] as usize
        };
        assert(index == sample_index(bytes@, d as int, k as int));
        if index >= palettes.red.len() || index >= palettes.green.len() || index
            >= palettes.blue.len() {
            assert(!palettes_cover(palettes@, bytes@, d as int));
            return Err(DecodeError::MissingPaletteData);
        }
        let r: u16 = palettes.red[index];
        let g: u16 = palettes.green[index];
        let b: u16 = palettes.blue[index];
        mapped.push((r % 256) as u8);
        mapped.push((r / 256) as u8);
        mapped.push((g % 256) as u8);
        mapped.push((g / 256) as u8);
        mapped.push((b % 256) as u8);
        mapped.push((b / 256) as u8);
        k = k + 1;
    }
    assert(mapped@ =~= palette_mapped(bytes@, palettes@, d as int));
    Ok(mapped)
}

} // verus!
