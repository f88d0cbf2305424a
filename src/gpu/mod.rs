use vstd::prelude::*;

verus! {

/// First bus address of video memory.
pub const VRAM_BEGIN: usize = 0x8000;

/// Last bus address of video memory.
pub const VRAM_END: usize = 0x9FFF;

/// Number of bytes of video memory.
pub const VRAM_SIZE: usize = 0x2000;

/// Number of tile slots derived from video memory.
pub const TILE_COUNT: usize = 384;

/// Last video-memory offset that holds tile data.
pub const TILE_DATA_END: usize = 0x17FF;

/// Number of pixels in one tile (8 rows of 8).
pub const TILE_PIXELS: usize = 64;

/// The four levels of a 2-bit tile pixel.
#[derive(Clone, Copy, Debug, PartialEq, Eq, Structural)]
pub enum TilePixelValue {
    Zero,
    One,
    Two,
    Three,
}

/// Bit `7 - col` of `byte`: pixel column `col` of a bitplane, most significant bit first.
pub open spec fn plane_bit(byte: u8, col: int) -> bool {
    (byte >> ((7 - col) as u8)) & 1u8 == 1u8
}

/// The pixel level at column `col` of a row whose low bitplane is `low` and high bitplane `high`.
pub open spec fn pixel_value(low: u8, high: u8, col: int) -> TilePixelValue {
    match (plane_bit(low, col), plane_bit(high, col)) {
        (true, true) => TilePixelValue::Three,
        (false, true) => TilePixelValue::Two,
        (true, false) => TilePixelValue::One,
        (false, false) => TilePixelValue::Zero,
    }
}

/// Pixel (`row`, `col`) of tile `tile`, as derived from the video memory `vram`:
/// the row's low bitplane sits at the even offset `16 * tile + 2 * row`, its high
/// bitplane at the odd offset after it.
pub open spec fn tile_pixel_of(vram: Seq<u8>, tile: int, row: int, col: int) -> TilePixelValue {
    pixel_value(vram[16 * tile + 2 * row], vram[16 * tile + 2 * row + 1], col)
}

/// Pixel `i` of the flat tile cache (tile `i / 64`, row `(i % 64) / 8`, column `i % 8`):
/// row `i / 8` over all tiles is stored at offsets `2 * (i / 8)` and `2 * (i / 8) + 1`.
pub open spec fn cache_pixel_of(vram: Seq<u8>, i: int) -> TilePixelValue {
    pixel_value(vram[2 * (i / 8)], vram[2 * (i / 8) + 1], i % 8)
}

/// Video memory with its tile cache.
#[derive(Clone, Debug)]
pub struct GPU {
    vram: Vec<u8>,
    tile_set: Vec<TilePixelValue>,
}

impl View for GPU {
    type V = Seq<u8>;

    /// The raw video memory, offset 0 first.
    closed spec fn view(&self) -> Seq<u8> {
        self.vram@
    }
}

impl GPU {
    /// Video memory has its full size and every cached pixel equals the pixel that
    /// the raw bytes encode.
    pub closed spec fn wf(&self) -> bool {
        &&& self.vram@.len() == VRAM_SIZE
        &&& self.tile_set@.len() == TILE_COUNT * TILE_PIXELS
        &&& forall|i: int|
            0 <= i < TILE_COUNT * TILE_PIXELS ==> #[trigger] self.tile_set@[i] == cache_pixel_of(
                self.vram@,
                i,
            )
    }

    /// Zeroed video memory with every tile pixel at level zero.
    pub fn new() -> (r: Self)
        ensures
            r.wf(),
            r@ == Seq::new(VRAM_SIZE as nat, |i: int| 0u8),
    {
        let vram: Vec<u8> = vec![0u8; VRAM_SIZE];
        let tile_set: Vec<TilePixelValue> = vec![TilePixelValue::Zero; TILE_COUNT * TILE_PIXELS];
        let r = GPU { vram, tile_set };
        assert(r@ =~= Seq::new(VRAM_SIZE as nat, |i: int| 0u8));
        assert forall|i: int| 0 <= i < TILE_COUNT * TILE_PIXELS implies #[trigger] r.tile_set@[i]
            == cache_pixel_of(r.vram@, i) by {
            let c = (7 - i % 8) as u8;
            assert((0u8 >> c) & 1u8 == 0u8) by (bit_vector);
        }
        r
    }

    /// The raw byte at a video-memory offset.
    pub fn read_vram(&self, addr: usize) -> (r: u8)
        requires
            self.wf(),
            addr < VRAM_SIZE,
        ensures
            r == self@[addr as int],
    {
        self.vram[addr]
    }

    /// Stores a byte at a video-memory offset; at a tile-data offset the one tile row
    /// that holds it is derived again.
    pub fn write_vram(&mut self, addr: usize, value: u8)
        requires
            old(self).wf(),
            addr < VRAM_SIZE,
        ensures
            final(self).wf(),
            final(self)@ == old(self)@.update(addr as int, value),
    {
        self.vram.set(addr, value);
        if addr > TILE_DATA_END {
            proof {
                assert forall|i: int| 0 <= i < TILE_COUNT * TILE_PIXELS implies #[trigger] self.tile_set@[i]
                    == cache_pixel_of(self.vram@, i) by {
                    assert(old(self).tile_set@[i] == cache_pixel_of(old(self).vram@, i));
                }
            }
            return ;
        }
        // The row's two bytes: the low bitplane at the even offset, the high one after it.

        let norm_idx = addr & 0xFFFE;
        assert(norm_idx == addr - addr % 2) by (bit_vector)
            requires
                norm_idx == addr & 0xFFFE,
                addr < 0x2000,
        ;
        let byte1 = self.vram[norm_idx];
        let byte2 = self.vram[norm_idx + 1];
        let tile_idx = addr / 16;
        let row_idx = (addr % 16) / 2;
        let base = tile_idx * TILE_PIXELS + row_idx * 8;
        assert(base == 8 * (addr / 2));
        let mut pixel_idx: usize = 0;
        while pixel_idx < 8
            invariant
                0 <= pixel_idx <= 8,
                base == 8 * (addr / 2),
                norm_idx == 2 * (addr / 2),
                addr <= TILE_DATA_END,
                self.vram@ == old(self).vram@.update(addr as int, value),
                self.vram@.len() == VRAM_SIZE,
                byte1 == self.vram@[norm_idx as int],
                byte2 == self.vram@[norm_idx + 1],
                self.tile_set@.len() == TILE_COUNT * TILE_PIXELS,
                forall|i: int|
                    0 <= i < TILE_COUNT * TILE_PIXELS && !(base <= i < base + pixel_idx) ==> (
                    #[trigger] self.tile_set@[i]) == old(self).tile_set@[i],
                forall|i: int|
                    base <= i < base + pixel_idx ==> #[trigger] self.tile_set@[i] == cache_pixel_of(
                        self.vram@,
                        i,
                    ),
            decreases 8 - pixel_idx,
        {
            let shift = (7 - pixel_idx) as u8;
            let lsb = (byte1 >> shift) & 1 == 1;
            let msb = (byte2 >> shift) & 1 == 1;
            let value = match (lsb, msb) {
                (true, true) => TilePixelValue::Three,
                (false, true) => TilePixelValue::Two,
                (true, false) => TilePixelValue::One,
                (false, false) => TilePixelValue::Zero,
            };
            let i = base + pixel_idx;
            assert(i / 8 == addr / 2 && i % 8 == pixel_idx);
            self.tile_set.set(i, value);
            pixel_idx = pixel_idx + 1;
        }
        proof {
            assert forall|i: int| 0 <= i < TILE_COUNT * TILE_PIXELS implies #[trigger] self.tile_set@[i]
                == cache_pixel_of(self.vram@, i) by {
                if !(base <= i < base + 8) {
                    assert(old(self).tile_set@[i] == cache_pixel_of(old(self).vram@, i));
                    assert(i / 8 != addr / 2);
                    assert(2 * (i / 8) != addr && 2 * (i / 8) + 1 != addr);
                }
            }
        }
    }

    /// Pixel (`row`, `col`) of tile `tile` in the tile cache.
    pub fn tile_pixel(&self, tile: usize, row: usize, col: usize) -> (r: TilePixelValue)
        requires
            self.wf(),
            tile < TILE_COUNT,
            row < 8,
            col < 8,
        ensures
            r == tile_pixel_of(self@, tile as int, row as int, col as int),
    {
        let i = tile * TILE_PIXELS + row * 8 + col;
        assert(i / 8 == tile * 8 + row && i % 8 == col);
        self.tile_set[i]
    }
}

} // verus!
