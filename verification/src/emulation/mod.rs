use vstd::prelude::*;

pub mod shared;

verus! {

pub const NES_WIDTH: u32 = 256;
/// The width of the NES picture shown at a 4:3 aspect ratio.
pub const NES_WIDTH_4_3: u32 = NES_WIDTH * 4 / 3;
pub const NES_HEIGHT: u32 = 240;

/// How often, in frames, the battery-backed RAM is saved.
pub const SRAM_SNAPSHOT_INTERVAL_FRAMES: u32 = 100;

/// The television standard a NES runs on.
#[derive(Clone, Copy, Debug, Hash, PartialEq, Eq, Structural)]
pub enum NesRegion {
    Pal,
    Ntsc,
    Dendy,
}

/// The byte at `index` of a blank picture: black and fully opaque.
pub open spec fn blank_byte(index: int) -> u8 {
    if index % 4 == 3 { 255 } else { 0 }
}

/// One picture of the NES as RGBA bytes, row by row.
pub struct NESVideoFrame(pub Vec<u8>);

impl NESVideoFrame {
    pub const SIZE: usize = 245760;

    /// Allocate a new frame for video output: every pixel black and opaque.
    pub fn new() -> (frame: Self)
        ensures
            frame.0@.len() == Self::SIZE,
            forall|i: int| 0 <= i < Self::SIZE ==> #[trigger] frame.0@[i] == blank_byte(i),
    {
        let mut frame: Vec<u8> = Vec::with_capacity(Self::SIZE);
        let mut i: usize = 0;
        while i < Self::SIZE
            invariant
                i <= Self::SIZE,
                frame@.len() == i,
                forall|j: int| 0 <= j < i ==> #[trigger] frame@[j] == blank_byte(j),
            decreases Self::SIZE - i,
        {
            let byte: u8 = if i % 4 == 3 { 255 } else { 0 };
            frame.push(byte);
            i = i + 1;
        }
        NESVideoFrame(frame)
    }
}

impl Default for NESVideoFrame {
    fn default() -> (frame: Self)
        ensures
            frame.0@.len() == Self::SIZE,
            forall|i: int| 0 <= i < Self::SIZE ==> #[trigger] frame.0@[i] == blank_byte(i),
    {
        Self::new()
    }
}

/// Whether every palette index of the picture has a colour in the palette
/// and the RGBA buffer holds a pixel for every palette index.
pub open spec fn palette_fits(frame_buffer: Seq<u16>, palette: Seq<u8>, video_len: int) -> bool {
    &&& frame_buffer.len() * 4 <= video_len
    &&& forall|i: int| 0 <= i < frame_buffer.len() ==> (#[trigger] frame_buffer[i]) as int * 3 + 3 <= palette.len()
}

/// Writes the colour of every palette index of the picture into the RGB bytes
/// of its pixel; the alpha bytes, and whatever lies beyond the picture, are kept.
pub fn copy_frame_with_palette(frame_buffer: &[u16], palette: &[u8], video: &mut Vec<u8>)
    requires
        palette_fits(frame_buffer@, palette@, old(video)@.len() as int),
    ensures
        final(video)@.len() == old(video)@.len(),
        forall|i: int, k: int| 0 <= i < frame_buffer@.len() && 0 <= k < 3
            ==> #[trigger] final(video)@[i * 4 + k] == palette@[frame_buffer@[i] as int * 3 + k],
        forall|j: int| 0 <= j < old(video)@.len() && (j % 4 == 3 || j >= frame_buffer@.len() * 4)
            ==> #[trigger] final(video)@[j] == old(video)@[j],
{
    let n = frame_buffer.len();
    let video_len = video.len();
    let mut idx: usize = 0;
    while idx < n
        invariant
            n == frame_buffer@.len(),
            idx <= n,
            video_len == video@.len(),
            video@.len() == old(video)@.len(),
            palette_fits(frame_buffer@, palette@, video@.len() as int),
            forall|i: int, k: int| 0 <= i < idx && 0 <= k < 3
                ==> #[trigger] video@[i * 4 + k] == palette@[frame_buffer@[i] as int * 3 + k],
            forall|j: int| 0 <= j < video@.len() && (j % 4 == 3 || j >= idx * 4)
                ==> #[trigger] video@[j] == old(video)@[j],
        decreases n - idx,
    {
        let palette_index = frame_buffer[idx] as usize * 3;
        let pixel_index = idx * 4;
        let mut k: usize = 0;
        while k < 3
            invariant
                n == frame_buffer@.len(),
                idx < n,
                k <= 3,
                pixel_index == idx * 4,
                palette_index == frame_buffer@[idx as int] as int * 3,
                video@.len() == old(video)@.len(),
                palette_fits(frame_buffer@, palette@, video@.len() as int),
                forall|i: int, kk: int| 0 <= i < idx && 0 <= kk < 3
                    ==> #[trigger] video@[i * 4 + kk] == palette@[frame_buffer@[i] as int * 3 + kk],
                forall|kk: int| 0 <= kk < k ==> #[trigger] video@[idx * 4 + kk] == palette@[palette_index + kk],
                forall|j: int| 0 <= j < video@.len() && (j % 4 == 3 || j >= idx * 4 + k)
                    ==> #[trigger] video@[j] == old(video)@[j],
            decreases 3 - k,
        {
            let color = palette[palette_index + k];
            video.set(pixel_index + k, color);
            k = k + 1;
        }
        proof {
            assert forall|i: int, kk: int| 0 <= i < idx + 1 && 0 <= kk < 3
                implies #[trigger] video@[i * 4 + kk] == palette@[frame_buffer@[i] as int * 3 + kk] by {
                if i == idx {
                    assert(video@[idx * 4 + kk] == palette@[palette_index + kk]);
                }
            }
        }
        idx = idx + 1;
    }
}

/// Whether the battery-backed RAM is saved on this frame.
pub fn is_sram_snapshot_frame(frame: u32) -> (due: bool)
    ensures
        due == (frame % SRAM_SNAPSHOT_INTERVAL_FRAMES == 0),
{
    frame % SRAM_SNAPSHOT_INTERVAL_FRAMES == 0
}

} // verus!
