use gameboy::gpu::{TilePixelValue, GPU, TILE_COUNT};

#[test]
fn new_gpu_is_zeroed() {
    let g = GPU::new();
    assert_eq!(g.read_vram(0), 0);
    assert_eq!(g.read_vram(0x1FFF), 0);
    assert_eq!(g.tile_pixel(TILE_COUNT - 1, 7, 7), TilePixelValue::Zero);
}

#[test]
fn low_plane_only_row_is_level_one() {
    let mut g = GPU::new();
    g.write_vram(0x0000, 0xFF);
    g.write_vram(0x0001, 0x00);
    for col in 0..8 {
        assert_eq!(g.tile_pixel(0, 0, col), TilePixelValue::One);
    }
    assert_eq!(g.tile_pixel(0, 1, 0), TilePixelValue::Zero);
}

#[test]
fn both_planes_row_is_level_three() {
    let mut g = GPU::new();
    g.write_vram(0x0000, 0xFF);
    g.write_vram(0x0001, 0xFF);
    for col in 0..8 {
        assert_eq!(g.tile_pixel(0, 0, col), TilePixelValue::Three);
    }
}

#[test]
fn high_plane_only_row_is_level_two() {
    let mut g = GPU::new();
    g.write_vram(0x0001, 0xFF);
    for col in 0..8 {
        assert_eq!(g.tile_pixel(0, 0, col), TilePixelValue::Two);
    }
}

#[test]
fn pixels_run_most_significant_bit_first() {
    let mut g = GPU::new();
    // Tile 2, row 3: offsets 0x26 (low plane) and 0x27 (high plane).
    g.write_vram(0x0027, 0b0101_0000);
    g.write_vram(0x0026, 0b1100_0001);
    let row: Vec<TilePixelValue> = (0..8).map(|c| g.tile_pixel(2, 3, c)).collect();
    assert_eq!(
        row,
        vec![
            TilePixelValue::One,
            TilePixelValue::Three,
            TilePixelValue::Zero,
            TilePixelValue::Two,
            TilePixelValue::Zero,
            TilePixelValue::Zero,
            TilePixelValue::Zero,
            TilePixelValue::One,
        ]
    );
}

#[test]
fn last_tile_row_is_derived() {
    let mut g = GPU::new();
    g.write_vram(0x17FE, 0x80);
    g.write_vram(0x17FF, 0x80);
    assert_eq!(g.tile_pixel(383, 7, 0), TilePixelValue::Three);
    assert_eq!(g.tile_pixel(383, 7, 1), TilePixelValue::Zero);
}

#[test]
fn write_past_tile_data_is_stored_raw() {
    let mut g = GPU::new();
    g.write_vram(0x1800, 0xAB);
    g.write_vram(0x1FFF, 0xCD);
    assert_eq!(g.read_vram(0x1800), 0xAB);
    assert_eq!(g.read_vram(0x1FFF), 0xCD);
    for t in 0..TILE_COUNT {
        assert_eq!(g.tile_pixel(t, 0, 0), TilePixelValue::Zero);
    }
}

#[test]
fn read_returns_raw_byte() {
    let mut g = GPU::new();
    g.write_vram(0x0010, 0x5A);
    assert_eq!(g.read_vram(0x0010), 0x5A);
}
