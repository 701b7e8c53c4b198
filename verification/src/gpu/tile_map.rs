use vstd::prelude::*;
use vstd::array::spec_array_update;

verus! {

/// Area 0: 0x9800 - 0x9BFF
/// Area 1: 0x9C00 - 0x9FFF
#[derive(Debug, Clone, Copy, PartialEq, Eq, Structural)]
pub enum Area {
    Area0,
    Area1,
}

/// The two 32x32 background maps of tile numbers.
#[derive(Debug, Clone, Copy)]
pub struct TileMap {
    area0: [[u8; 32]; 32],
    area1: [[u8; 32]; 32],
}

pub open spec fn is_tile_map_addr(addr: u16) -> bool {
    0x9800 <= addr <= 0x9FFF
}

impl TileMap {
    /// The tile number at map row `row`, column `col` of an area.
    pub closed spec fn entry(self, area: Area, row: int, col: int) -> u8 {
        match area {
            Area::Area0 => self.area0[row][col],
            Area::Area1 => self.area1[row][col],
        }
    }

    /// The byte at a tile map address: addresses run row by row through area 0, then area 1.
    pub open spec fn spec_read_byte(self, addr: u16) -> u8 {
        if addr < 0x9C00 {
            self.entry(Area::Area0, (addr - 0x9800) / 32, (addr - 0x9800) % 32)
        } else {
            self.entry(Area::Area1, (addr - 0x9C00) / 32, (addr - 0x9C00) % 32)
        }
    }

    /// The map with the entry at tile map address `addr` replaced by `value`.
    pub closed spec fn spec_write_byte(self, addr: u16, value: u8) -> TileMap {
        if addr < 0x9C00 {
            let (row, col) = ((addr - 0x9800) / 32, (addr - 0x9800) % 32);
            TileMap {
                area0: spec_array_update(self.area0, row, spec_array_update(self.area0[row], col, value)),
                ..self
            }
        } else {
            let (row, col) = ((addr - 0x9C00) / 32, (addr - 0x9C00) % 32);
            TileMap {
                area1: spec_array_update(self.area1, row, spec_array_update(self.area1[row], col, value)),
                ..self
            }
        }
    }

    pub fn new() -> (r: Self)
        ensures
            forall|a: u16| is_tile_map_addr(a) ==> #[trigger] r.spec_read_byte(a) == 0,
    {
        Self { area0: [[0; 32]; 32], area1: [[0; 32]; 32] }
    }

    /// The tile number under pixel (x, y) of the 256x256 background of an area.
    pub fn get_tile_index(&self, area: Area, x: usize, y: usize) -> (r: u8)
        requires
            x < 256,
            y < 256,
        ensures
            r == self.entry(area, y as int / 8, x as int / 8),
    {
        match area {
            Area::Area0 => self.area0[y / 8][x / 8],
            Area::Area1 => self.area1[y / 8][x / 8],
        }
    }

    pub fn read_byte(&self, addr: u16) -> (r: u8)
        requires
            is_tile_map_addr(addr),
        ensures
            r == self.spec_read_byte(addr),
    {
        if addr <= 0x9BFF {
            let offset = addr as usize - 0x9800;
            self.area0[offset / 32][offset % 32]
        } else {
            let offset = addr as usize - 0x9C00;
            self.area1[offset / 32][offset % 32]
        }
    }

    pub fn write_byte(&mut self, addr: u16, value: u8)
        requires
            is_tile_map_addr(addr),
        ensures
            *final(self) == old(self).spec_write_byte(addr, value),
    {
        if addr <= 0x9BFF {
            let offset = addr as usize - 0x9800;
            self.area0[offset / 32][offset % 32] = value;
        } else {
            let offset = addr as usize - 0x9C00;
            self.area1[offset / 32][offset % 32] = value;
        }
        assert(self.area0 =~= old(self).spec_write_byte(addr, value).area0);
        assert(self.area1 =~= old(self).spec_write_byte(addr, value).area1);
    }
}

/// Reading a tile map address after writing it gives the written byte; other addresses keep
/// their bytes.
pub proof fn lemma_tile_map_write_read(m: TileMap, addr: u16, value: u8, other: u16)
    requires
        is_tile_map_addr(addr),
        is_tile_map_addr(other),
    ensures
        m.spec_write_byte(addr, value).spec_read_byte(addr) == value,
        other != addr ==> m.spec_write_byte(addr, value).spec_read_byte(other) == m.spec_read_byte(other),
{
    if other != addr {
        if other < 0x9C00 && addr < 0x9C00 {
            assert((other - 0x9800) / 32 != (addr - 0x9800) / 32 || (other - 0x9800) % 32 != (addr - 0x9800) % 32);
        } else if other >= 0x9C00 && addr >= 0x9C00 {
            assert((other - 0x9C00) / 32 != (addr - 0x9C00) / 32 || (other - 0x9C00) % 32 != (addr - 0x9C00) % 32);
        }
    }
}

/// The map addresses: area 0 runs row by row from 0x9800, area 1 from 0x9C00, 32 entries a row.
pub proof fn lemma_map_address(m: TileMap, area: Area, row: int, col: int)
    requires
        0 <= row < 32,
        0 <= col < 32,
    ensures
        m.spec_read_byte(((if area == Area::Area1 { 0x9C00int } else { 0x9800int }) + 32 * row + col) as u16)
            == m.entry(area, row, col),
{
    let base: int = if area == Area::Area1 { 0x9C00 } else { 0x9800 };
    let a = (base + 32 * row + col) as u16;
    assert(a as int == base + 32 * row + col);
    assert((a - base) / 32 == row && (a - base) % 32 == col) by (nonlinear_arith)
        requires
            a - base == 32 * row + col,
            0 <= row < 32,
            0 <= col < 32,
    ;
}

} // verus!
