use vstd::prelude::*;

verus! {

/// One of the ten kinds of tile that a grid cell can hold.
#[derive(Clone, Copy, Debug, PartialEq, Eq, Structural)]
pub enum Tile {
    Elevator,
    Block,
    Flat,
    Right,
    Left,
    Hold,
    Conditional,
    Duplicate,
    Spike,
    Empty,
}

/// A raster byte that is not the code of any tile.
#[derive(Clone, Copy, Debug, PartialEq, Eq, Structural)]
pub struct InvalidEncoding {
    pub byte: u8,
}

/// The byte that stands for `t` in a chunk's raster.
pub open spec fn tile_code(t: Tile) -> u8 {
    match t {
        Tile::Elevator => 0,
        Tile::Block => 1,
        Tile::Flat => 2,
        Tile::Right => 3,
        Tile::Left => 4,
        Tile::Hold => 5,
        Tile::Conditional => 6,
        Tile::Duplicate => 7,
        Tile::Spike => 8,
        Tile::Empty => 9,
    }
}

/// The tile whose code is `b`, if `b` is a code at all.
pub open spec fn tile_of_code(b: u8) -> Option<Tile> {
    if b == 0 {
        Some(Tile::Elevator)
    } else if b == 1 {
        Some(Tile::Block)
    } else if b == 2 {
        Some(Tile::Flat)
    } else if b == 3 {
        Some(Tile::Right)
    } else if b == 4 {
        Some(Tile::Left)
    } else if b == 5 {
        Some(Tile::Hold)
    } else if b == 6 {
        Some(Tile::Conditional)
    } else if b == 7 {
        Some(Tile::Duplicate)
    } else if b == 8 {
        Some(Tile::Spike)
    } else if b == 9 {
        Some(Tile::Empty)
    } else {
        None
    }
}

impl Tile {
    /// The raster byte of this tile.
    pub fn encode(self) -> (r: u8)
        ensures
            r == tile_code(self),
            r <= 9,
    {
        match self {
            Tile::Elevator => 0,
            Tile::Block => 1,
            Tile::Flat => 2,
            Tile::Right => 3,
            Tile::Left => 4,
            Tile::Hold => 5,
            Tile::Conditional => 6,
            Tile::Duplicate => 7,
            Tile::Spike => 8,
            Tile::Empty => 9,
        }
    }

    /// The tile that a raster byte stands for; bytes above 9 are refused.
    pub fn decode(b: u8) -> (r: Result<Tile, InvalidEncoding>)
        ensures
            b <= 9 <==> r.is_ok(),
            r.is_ok() ==> tile_of_code(b) == Some(r.unwrap()),
            r.is_err() ==> r == Err::<Tile, InvalidEncoding>(InvalidEncoding { byte: b }),
    {
        match b {
            0 => Ok(Tile::Elevator),
            1 => Ok(Tile::Block),
            2 => Ok(Tile::Flat),
            3 => Ok(Tile::Right),
            4 => Ok(Tile::Left),
            5 => Ok(Tile::Hold),
            6 => Ok(Tile::Conditional),
            7 => Ok(Tile::Duplicate),
            8 => Ok(Tile::Spike),
            9 => Ok(Tile::Empty),
            _ => Err(InvalidEncoding { byte: b }),
        }
    }
}

impl From<Tile> for u8 {
    fn from(value: Tile) -> (r: u8) {
        value.encode()
    }
}

impl vstd::std_specs::convert::FromSpecImpl<Tile> for u8 {
    open spec fn obeys_from_spec() -> bool {
        true
    }

    open spec fn from_spec(v: Tile) -> u8 {
        tile_code(v)
    }
}

impl TryFrom<u8> for Tile {
    type Error = InvalidEncoding;

    fn try_from(value: u8) -> (r: Result<Tile, InvalidEncoding>) {
        Tile::decode(value)
    }
}

impl vstd::std_specs::convert::TryFromSpecImpl<u8> for Tile {
    open spec fn obeys_try_from_spec() -> bool {
        true
    }

    open spec fn try_from_spec(v: u8) -> Result<Tile, InvalidEncoding> {
        match tile_of_code(v) {
            Some(t) => Ok(t),
            None => Err(InvalidEncoding { byte: v }),
        }
    }
}

/// Decoding the code of a tile gives the tile back.
pub proof fn lemma_decode_encode(t: Tile)
    ensures
        tile_code(t) <= 9,
        tile_of_code(tile_code(t)) == Some(t),
{
}

/// Every byte from 0 to 9 is the code of the tile it decodes to, and no other
/// byte decodes.
pub proof fn lemma_encode_decode(b: u8)
    ensures
        b <= 9 ==> tile_of_code(b) is Some && tile_code(tile_of_code(b).unwrap()) == b,
        b > 9 ==> tile_of_code(b) is None,
{
}

} // verus!
