use vstd::prelude::*;
use super::color_id::{ColorBit, ColorId, id_bit, id_from_bits, lemma_id_bits_determine};
use vstd::array::spec_array_update;

verus! {

pub const VRAM_TILE_DATA_BEGIN: u16 = 0x8000;

pub const VRAM_TILE_DATA_END: u16 = 0x97FF;

/// Tile numbering: area 0 numbers tiles signed from 0x9000, area 1 unsigned from 0x8000.
#[derive(Debug, Clone, Copy, PartialEq, Eq, Structural)]
pub enum Area {
    Area0,
    Area1,
}

/// Bit `7 - col` of a tile data byte: the bit of the pixel in column `col`.
pub open spec fn bit_at(data: u8, col: int) -> bool {
    (data >> ((7 - col) as u8)) & 1 == 1
}

/// The tile data byte of one bit plane of a row of pixels: column 0 is bit 7.
pub open spec fn row_byte(row: [ColorId; 8], plane: ColorBit) -> u8 {
    (if id_bit(row[0], plane) { 0x80u8 } else { 0u8 }) | (if id_bit(row[1], plane) { 0x40u8 } else { 0u8 })
        | (if id_bit(row[2], plane) { 0x20u8 } else { 0u8 }) | (if id_bit(row[3], plane) { 0x10u8 } else { 0u8 })
        | (if id_bit(row[4], plane) { 0x08u8 } else { 0u8 }) | (if id_bit(row[5], plane) { 0x04u8 } else { 0u8 })
        | (if id_bit(row[6], plane) { 0x02u8 } else { 0u8 }) | (if id_bit(row[7], plane) { 0x01u8 } else { 0u8 })
}

pub open spec fn other_plane(plane: ColorBit) -> ColorBit {
    match plane {
        ColorBit::Hi => ColorBit::Lo,
        ColorBit::Lo => ColorBit::Hi,
    }
}

/// `new` is `old` with bit plane `plane` replaced by the bits of `data`.
pub open spec fn row_takes_byte(new: [ColorId; 8], old: [ColorId; 8], plane: ColorBit, data: u8) -> bool {
    forall|col: int|
        0 <= col < 8 ==> {
            &&& id_bit(#[trigger] new[col], plane) == bit_at(data, col)
            &&& id_bit(new[col], other_plane(plane)) == id_bit(old[col], other_plane(plane))
        }
}

/// `old` with its bit `plane` replaced by `bit`.
pub open spec fn merge_id(old: ColorId, plane: ColorBit, bit: bool) -> ColorId {
    match plane {
        ColorBit::Hi => id_from_bits(bit, id_bit(old, ColorBit::Lo)),
        ColorBit::Lo => id_from_bits(id_bit(old, ColorBit::Hi), bit),
    }
}

/// A row with bit plane `plane` replaced by the bits of `data` (column 0 from bit 7).
pub open spec fn decoded_row(row: [ColorId; 8], plane: ColorBit, data: u8) -> [ColorId; 8] {
    let r0 = spec_array_update(row, 0, merge_id(row[0], plane, bit_at(data, 0)));
    let r1 = spec_array_update(r0, 1, merge_id(row[1], plane, bit_at(data, 1)));
    let r2 = spec_array_update(r1, 2, merge_id(row[2], plane, bit_at(data, 2)));
    let r3 = spec_array_update(r2, 3, merge_id(row[3], plane, bit_at(data, 3)));
    let r4 = spec_array_update(r3, 4, merge_id(row[4], plane, bit_at(data, 4)));
    let r5 = spec_array_update(r4, 5, merge_id(row[5], plane, bit_at(data, 5)));
    let r6 = spec_array_update(r5, 6, merge_id(row[6], plane, bit_at(data, 6)));
    spec_array_update(r6, 7, merge_id(row[7], plane, bit_at(data, 7)))
}

/// A decoded row has taken the byte into its plane.
pub proof fn lemma_decoded_row(row: [ColorId; 8], plane: ColorBit, data: u8)
    ensures
        row_takes_byte(decoded_row(row, plane, data), row, plane, data),
{
    let d = decoded_row(row, plane, data);
    let r0 = spec_array_update(row, 0, merge_id(row[0], plane, bit_at(data, 0)));
    let r1 = spec_array_update(r0, 1, merge_id(row[1], plane, bit_at(data, 1)));
    let r2 = spec_array_update(r1, 2, merge_id(row[2], plane, bit_at(data, 2)));
    let r3 = spec_array_update(r2, 3, merge_id(row[3], plane, bit_at(data, 3)));
    let r4 = spec_array_update(r3, 4, merge_id(row[4], plane, bit_at(data, 4)));
    let r5 = spec_array_update(r4, 5, merge_id(row[5], plane, bit_at(data, 5)));
    let r6 = spec_array_update(r5, 6, merge_id(row[6], plane, bit_at(data, 6)));
    assert(r0@ == row@.update(0, merge_id(row[0], plane, bit_at(data, 0))));
    assert(r1@ == r0@.update(1, merge_id(row[1], plane, bit_at(data, 1))));
    assert(r2@ == r1@.update(2, merge_id(row[2], plane, bit_at(data, 2))));
    assert(r3@ == r2@.update(3, merge_id(row[3], plane, bit_at(data, 3))));
    assert(r4@ == r3@.update(4, merge_id(row[4], plane, bit_at(data, 4))));
    assert(r5@ == r4@.update(5, merge_id(row[5], plane, bit_at(data, 5))));
    assert(r6@ == r5@.update(6, merge_id(row[6], plane, bit_at(data, 6))));
    assert(d@ == r6@.update(7, merge_id(row[7], plane, bit_at(data, 7))));
    assert forall|col: int| 0 <= col < 8 implies d[col] == merge_id(row[col], plane, bit_at(data, col)) by {
        if col == 0 {} else if col == 1 {} else if col == 2 {} else if col == 3 {} else if col == 4 {}
        else if col == 5 {} else if col == 6 {} else {}
    }
    assert forall|col: int| 0 <= col < 8 implies {
        &&& id_bit(#[trigger] d[col], plane) == bit_at(data, col)
        &&& id_bit(d[col], other_plane(plane)) == id_bit(row[col], other_plane(plane))
    } by {
        assert(d[col] == merge_id(row[col], plane, bit_at(data, col)));
    }
}

/// Two rows that have taken the same byte into the same plane of the same row are equal.
pub proof fn lemma_row_takes_byte_unique(a: [ColorId; 8], b: [ColorId; 8], old: [ColorId; 8], plane: ColorBit, data: u8)
    requires
        row_takes_byte(a, old, plane, data),
        row_takes_byte(b, old, plane, data),
    ensures
        a == b,
{
    assert forall|col: int| 0 <= col < 8 implies a[col] == b[col] by {
        assert(id_bit(a[col], plane) == id_bit(b[col], plane));
        match plane {
            ColorBit::Hi => lemma_id_bits_determine(a[col], b[col]),
            ColorBit::Lo => lemma_id_bits_determine(a[col], b[col]),
        }
    }
    assert(a =~= b);
}

/// A row that has taken a byte into a bit plane gives that byte back.
pub proof fn lemma_row_byte_taken(new: [ColorId; 8], old: [ColorId; 8], plane: ColorBit, data: u8)
    requires
        row_takes_byte(new, old, plane, data),
    ensures
        row_byte(new, plane) == data,
{
    assert(id_bit(new[0], plane) == bit_at(data, 0));
    assert(id_bit(new[1], plane) == bit_at(data, 1));
    assert(id_bit(new[2], plane) == bit_at(data, 2));
    assert(id_bit(new[3], plane) == bit_at(data, 3));
    assert(id_bit(new[4], plane) == bit_at(data, 4));
    assert(id_bit(new[5], plane) == bit_at(data, 5));
    assert(id_bit(new[6], plane) == bit_at(data, 6));
    assert(id_bit(new[7], plane) == bit_at(data, 7));
    assert(data == (if (data >> 7u8) & 1 == 1 { 0x80u8 } else { 0u8 }) | (if (data >> 6u8) & 1 == 1 { 0x40u8 } else { 0u8 })
        | (if (data >> 5u8) & 1 == 1 { 0x20u8 } else { 0u8 }) | (if (data >> 4u8) & 1 == 1 { 0x10u8 } else { 0u8 })
        | (if (data >> 3u8) & 1 == 1 { 0x08u8 } else { 0u8 }) | (if (data >> 2u8) & 1 == 1 { 0x04u8 } else { 0u8 })
        | (if (data >> 1u8) & 1 == 1 { 0x02u8 } else { 0u8 }) | (if (data >> 0u8) & 1 == 1 { 0x01u8 } else { 0u8 }))
        by (bit_vector);
}

/// An 8x8 tile of colour IDs.
#[derive(Debug, Clone, Copy)]
pub struct Tile {
    /// 8 x 8 tiles
    pub data: [[ColorId; 8]; 8],
}

impl Tile {
    pub fn new() -> (r: Self)
        ensures
            forall|row: int, col: int| 0 <= row < 8 && 0 <= col < 8 ==> r.data[row][col] == ColorId::Id00,
    {
        Self { data: [[ColorId::Id00; 8]; 8] }
    }

    pub fn get_line(&self, row: usize) -> (r: [ColorId; 8])
        requires
            row < 8,
        ensures
            r == self.data[row as int],
    {
        self.data[row]
    }

    pub fn get_pixel(&self, row: usize, col: usize) -> (r: ColorId)
        requires
            row < 8,
            col < 8,
        ensures
            r == self.data[row as int][col as int],
    {
        self.data[row][col]
    }

    pub fn set_pixel(&mut self, row: usize, col: usize, color_id: ColorId)
        requires
            row < 8,
            col < 8,
        ensures
            final(self).data[row as int][col as int] == color_id,
            forall|r: int, c: int|
                0 <= r < 8 && 0 <= c < 8 && (r, c) != (row as int, col as int) ==> final(self).data[r][c]
                    == old(self).data[r][c],
    {
        self.data[row][col] = color_id;
    }

    /// For each line, the first byte specifies the least significant bit of the color ID of each
    /// pixel, and the second byte specifies the most significant bit
    pub fn row_to_byte(&self, row: usize, hi_or_lo: ColorBit) -> (r: u8)
        requires
            row < 8,
        ensures
            r == row_byte(self.data[row as int], hi_or_lo),
    {
        let line = self.data[row];
        let mut byte = 0u8;
        byte = byte | if line[0].get_bit(hi_or_lo) { 0x80u8 } else { 0u8 };
        byte = byte | if line[1].get_bit(hi_or_lo) { 0x40u8 } else { 0u8 };
        byte = byte | if line[2].get_bit(hi_or_lo) { 0x20u8 } else { 0u8 };
        byte = byte | if line[3].get_bit(hi_or_lo) { 0x10u8 } else { 0u8 };
        byte = byte | if line[4].get_bit(hi_or_lo) { 0x08u8 } else { 0u8 };
        byte = byte | if line[5].get_bit(hi_or_lo) { 0x04u8 } else { 0u8 };
        byte = byte | if line[6].get_bit(hi_or_lo) { 0x02u8 } else { 0u8 };
        byte = byte | if line[7].get_bit(hi_or_lo) { 0x01u8 } else { 0u8 };
        proof {
            let b0 = id_bit(line[0], hi_or_lo); let b1 = id_bit(line[1], hi_or_lo);
            let b2 = id_bit(line[2], hi_or_lo); let b3 = id_bit(line[3], hi_or_lo);
            let b4 = id_bit(line[4], hi_or_lo); let b5 = id_bit(line[5], hi_or_lo);
            let b6 = id_bit(line[6], hi_or_lo); let b7 = id_bit(line[7], hi_or_lo);
            assert(byte == (if b0 { 0x80u8 } else { 0u8 }) | (if b1 { 0x40u8 } else { 0u8 }) | (if b2 { 0x20u8 } else { 0u8 })
                | (if b3 { 0x10u8 } else { 0u8 }) | (if b4 { 0x08u8 } else { 0u8 }) | (if b5 { 0x04u8 } else { 0u8 })
                | (if b6 { 0x02u8 } else { 0u8 }) | (if b7 { 0x01u8 } else { 0u8 })) by (bit_vector)
                requires
                    byte == (((((((((0u8 | (if b0 { 0x80u8 } else { 0u8 })) | (if b1 { 0x40u8 } else { 0u8 }))
                        | (if b2 { 0x20u8 } else { 0u8 })) | (if b3 { 0x10u8 } else { 0u8 })) | (if b4 { 0x08u8 } else { 0u8 }))
                        | (if b5 { 0x04u8 } else { 0u8 })) | (if b6 { 0x02u8 } else { 0u8 })) | (if b7 { 0x01u8 } else { 0u8 })));
        }
        byte
    }

    /// Stores `data` into bit plane `hi_or_lo` of row `row`; the other plane is kept.
    pub fn byte_to_row(&mut self, row: usize, hi_or_lo: ColorBit, data: u8)
        requires
            row < 8,
        ensures
            final(self).data == spec_array_update(
                old(self).data,
                row as int,
                decoded_row(old(self).data[row as int], hi_or_lo, data),
            ),
    {
        let mut col: usize = 0;
        while col < 8
            invariant
                row < 8,
                col <= 8,
                forall|r: int| 0 <= r < 8 && r != row ==> self.data[r] == old(self).data[r],
                forall|c: int| col <= c < 8 ==> self.data[row as int][c] == old(self).data[row as int][c],
                forall|c: int|
                    0 <= c < col ==> {
                        &&& id_bit(#[trigger] self.data[row as int][c], hi_or_lo) == bit_at(data, c)
                        &&& id_bit(self.data[row as int][c], other_plane(hi_or_lo)) == id_bit(old(self).data[row as int][c], other_plane(hi_or_lo))
                    },
            decreases 8 - col,
        {
            let shift = (7 - col) as u8;
            let bit = (data >> shift) & 1 == 1;
            let mut id = self.data[row][col];
            id.set_bit(hi_or_lo, bit);
            self.data[row][col] = id;
            col += 1;
        }
        proof {
            lemma_decoded_row(old(self).data[row as int], hi_or_lo, data);
            lemma_row_takes_byte_unique(
                self.data[row as int],
                decoded_row(old(self).data[row as int], hi_or_lo, data),
                old(self).data[row as int],
                hi_or_lo,
                data,
            );
            assert(self.data =~= spec_array_update(
                old(self).data,
                row as int,
                decoded_row(old(self).data[row as int], hi_or_lo, data),
            ));
        }
    }
}

/// The tile data area of VRAM: 384 tiles.
#[derive(Debug, Clone, Copy)]
pub struct TileData {
    pub tiles: [Tile; 384],
}

/// Index of the tile that tile number `index` selects in an area.
pub open spec fn tile_slot(area: Area, index: u8) -> int {
    match area {
        Area::Area0 => (index as i8) as int + 256,
        Area::Area1 => index as int,
    }
}

/// The tile, row and bit plane that a tile data address holds.
pub open spec fn data_location(addr: u16) -> (int, int, ColorBit) {
    let offset = addr - VRAM_TILE_DATA_BEGIN;
    (offset / 16, (offset % 16) / 2, if offset % 2 == 0 { ColorBit::Lo } else { ColorBit::Hi })
}

pub open spec fn is_tile_data_addr(addr: u16) -> bool {
    VRAM_TILE_DATA_BEGIN <= addr <= VRAM_TILE_DATA_END
}

impl TileData {
    /// The byte a read at a tile data address returns.
    pub open spec fn spec_read_byte(self, addr: u16) -> u8 {
        let (t, row, plane) = data_location(addr);
        row_byte(self.tiles[t].data[row], plane)
    }

    /// The tile data after a write of `value` at tile data address `addr`: the addressed bit
    /// plane of the addressed row takes the bits of `value`.
    pub open spec fn spec_write_byte(self, addr: u16, value: u8) -> TileData {
        let (t, row, plane) = data_location(addr);
        let tile = self.tiles[t];
        TileData {
            tiles: spec_array_update(
                self.tiles,
                t,
                Tile { data: spec_array_update(tile.data, row, decoded_row(tile.data[row], plane, value)) },
            ),
        }
    }

    pub fn new() -> (r: Self)
        ensures
            forall|t: int, row: int, col: int|
                0 <= t < 384 && 0 <= row < 8 && 0 <= col < 8 ==> r.tiles[t].data[row][col] == ColorId::Id00,
    {
        Self { tiles: [Tile::new(); 384] }
    }

    /// A row of pixels of the tile with number `index` in `area`.
    pub fn get_row_pixels(&self, area: Area, index: u8, row: usize) -> (r: [ColorId; 8])
        requires
            row < 8,
        ensures
            r == self.tiles[tile_slot(area, index)].data[row as int],
    {
        let index = match area {
            Area::Area0 => {
                let signed_index = index as i8;
                ((signed_index as i16) + 256) as usize
            },
            Area::Area1 => index as usize,
        };
        self.tiles[index].data[row]
    }

    pub fn get_row(&self, index: u16, row: usize) -> (r: [ColorId; 8])
        requires
            index < 384,
            row < 8,
        ensures
            r == self.tiles[index as int].data[row as int],
    {
        self.tiles[index as usize].get_line(row)
    }

    pub fn read_byte(&self, addr: u16) -> (r: u8)
        requires
            is_tile_data_addr(addr),
        ensures
            r == self.spec_read_byte(addr),
    {
        let offset = (addr - VRAM_TILE_DATA_BEGIN) as usize;
        let tile = self.tiles[offset / 16];
        let line = (offset % 16) / 2;
        let hi_or_lo = if offset % 2 == 0 {
            ColorBit::Lo
        } else {
            ColorBit::Hi
        };
        tile.row_to_byte(line, hi_or_lo)
    }

    pub fn write_byte(&mut self, addr: u16, value: u8)
        requires
            is_tile_data_addr(addr),
        ensures
            *final(self) == old(self).spec_write_byte(addr, value),
    {
        let offset = (addr - VRAM_TILE_DATA_BEGIN) as usize;
        let line = (offset % 16) / 2;
        let hi_or_lo = if offset % 2 == 0 {
            ColorBit::Lo
        } else {
            ColorBit::Hi
        };
        let mut tile = self.tiles[offset / 16];
        tile.byte_to_row(line, hi_or_lo, value);
        self.tiles[offset / 16] = tile;
        assert(self.tiles =~= old(self).spec_write_byte(addr, value).tiles);
    }
}

/// Reading a tile data address after writing it gives the written byte.
pub proof fn lemma_tile_data_write_read(old: TileData, addr: u16, value: u8)
    requires
        is_tile_data_addr(addr),
    ensures
        old.spec_write_byte(addr, value).spec_read_byte(addr) == value,
{
    let (t, row, plane) = data_location(addr);
    lemma_decoded_row(old.tiles[t].data[row], plane, value);
    lemma_row_byte_taken(decoded_row(old.tiles[t].data[row], plane, value), old.tiles[t].data[row], plane, value);
}

/// A write to a tile data address leaves every other tile data address reading as before.
pub proof fn lemma_tile_data_write_other(old: TileData, addr: u16, value: u8, other: u16)
    requires
        is_tile_data_addr(addr),
        is_tile_data_addr(other),
        other != addr,
    ensures
        old.spec_write_byte(addr, value).spec_read_byte(other) == old.spec_read_byte(other),
{
    let new = old.spec_write_byte(addr, value);
    let (t, row, plane) = data_location(addr);
    lemma_decoded_row(old.tiles[t].data[row], plane, value);
    let (t2, row2, plane2) = data_location(other);
    if t2 == t && row2 == row {
        assert(plane2 == other_plane(plane));
        let n = new.tiles[t].data[row];
        let o = old.tiles[t].data[row];
        assert(id_bit(n[0], plane2) == id_bit(o[0], plane2));
        assert(id_bit(n[1], plane2) == id_bit(o[1], plane2));
        assert(id_bit(n[2], plane2) == id_bit(o[2], plane2));
        assert(id_bit(n[3], plane2) == id_bit(o[3], plane2));
        assert(id_bit(n[4], plane2) == id_bit(o[4], plane2));
        assert(id_bit(n[5], plane2) == id_bit(o[5], plane2));
        assert(id_bit(n[6], plane2) == id_bit(o[6], plane2));
        assert(id_bit(n[7], plane2) == id_bit(o[7], plane2));
    }
}

/// Column `c` of a row of pixels is bit `7 - c` of its bit-plane byte: the leftmost pixel is
/// the most significant bit.
pub proof fn lemma_row_byte_bit(row: [ColorId; 8], plane: ColorBit, c: int)
    requires
        0 <= c < 8,
    ensures
        (row_byte(row, plane) >> ((7 - c) as u8)) & 1 == if id_bit(row[c], plane) { 1u8 } else { 0u8 },
{
    let b0 = id_bit(row[0], plane);
    let b1 = id_bit(row[1], plane);
    let b2 = id_bit(row[2], plane);
    let b3 = id_bit(row[3], plane);
    let b4 = id_bit(row[4], plane);
    let b5 = id_bit(row[5], plane);
    let b6 = id_bit(row[6], plane);
    let b7 = id_bit(row[7], plane);
    let byte = row_byte(row, plane);
    let k = (7 - c) as u8;
    assert(byte == (if b0 { 0x80u8 } else { 0u8 }) | (if b1 { 0x40u8 } else { 0u8 }) | (if b2 { 0x20u8 } else { 0u8 })
        | (if b3 { 0x10u8 } else { 0u8 }) | (if b4 { 0x08u8 } else { 0u8 }) | (if b5 { 0x04u8 } else { 0u8 }) | (if b6 {
        0x02u8
    } else {
        0u8
    }) | (if b7 { 0x01u8 } else { 0u8 }) && k < 8 ==> (byte >> k) & 1 == (if (k == 7 && b0) || (k == 6 && b1) || (k
        == 5 && b2) || (k == 4 && b3) || (k == 3 && b4) || (k == 2 && b5) || (k == 1 && b6) || (k == 0 && b7) {
        1u8
    } else {
        0u8
    })) by (bit_vector);
}

/// The tile data addresses: tile `t` takes 16 bytes from 0x8000 + 16 t, two per row, low bit
/// plane first.
pub proof fn lemma_data_address(t: int, row: int)
    requires
        0 <= t < 384,
        0 <= row < 8,
    ensures
        data_location((0x8000 + 16 * t + 2 * row) as u16) == (t, row, ColorBit::Lo),
        data_location((0x8000 + 16 * t + 2 * row + 1) as u16) == (t, row, ColorBit::Hi),
{
    let off = 16 * t + 2 * row;
    assert(off / 16 == t && (off % 16) / 2 == row && off % 2 == 0) by (nonlinear_arith)
        requires
            off == 16 * t + 2 * row,
            0 <= row < 8,
            0 <= t,
    ;
    assert((off + 1) / 16 == t && ((off + 1) % 16) / 2 == row && (off + 1) % 2 == 1) by (nonlinear_arith)
        requires
            off == 16 * t + 2 * row,
            0 <= row < 8,
            0 <= t,
    ;
}

} // verus!
