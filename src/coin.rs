use vstd::prelude::*;

verus! {

/// Width of the display in pixels (portrait).
pub const WIDTH: u16 = 240;

/// Height of the display in pixels (portrait).
pub const HEIGHT: u16 = 320;

/// Vertical offset at which a new coin appears.
pub const SPAWN_Y: i32 = 20;

/// Width of the ellipse that outlines a coin.
pub const COIN_WIDTH: u32 = 48;

/// Height of the ellipse that outlines a coin.
pub const COIN_HEIGHT: u32 = 32;

/// Stroke width of a coin's outline.
pub const COIN_STROKE: u32 = 2;

/// The colors this demo draws with.
#[derive(Clone, Copy, Debug, PartialEq, Eq, Structural)]
pub enum Color {
    Black,
    White,
    Red,
    Yellow,
}

/// The category of a coin: good coins are drawn yellow, bad ones red.
#[derive(Clone, Copy, Debug, PartialEq, Eq, Structural)]
pub enum CoinType {
    GoodCoin,
    BadCoin,
}

/// A point on the display, in pixels.
#[derive(Clone, Copy, Debug, PartialEq, Eq, Structural)]
pub struct Position {
    pub x: i32,
    pub y: i32,
}

/// A coin: where it is and what kind it is. Never changed once made.
#[derive(Clone, Copy, Debug, PartialEq, Eq, Structural)]
pub struct Coin {
    pub position: Position,
    pub coin_type: CoinType,
}

/// The point where every coin is created: centred horizontally, near the top.
pub open spec fn spawn_position() -> Position {
    Position { x: (WIDTH / 2) as i32, y: SPAWN_Y }
}

/// The color a coin of the given kind is drawn in.
pub open spec fn color_of(t: CoinType) -> Color {
    match t {
        CoinType::GoodCoin => Color::Yellow,
        CoinType::BadCoin => Color::Red,
    }
}

impl Coin {
    /// A fresh coin of the given kind at the spawn point.
    pub fn new(coin_type: CoinType) -> (c: Coin)
        ensures
            c.position == spawn_position(),
            c.coin_type == coin_type,
    {
        let position = Position { x: WIDTH as i32 / 2, y: SPAWN_Y };
        Coin { position, coin_type }
    }

    /// The color of this coin's outline; it depends on the kind alone.
    pub fn color(&self) -> (r: Color)
        ensures
            r == color_of(self.coin_type),
    {
        match self.coin_type {
            CoinType::GoodCoin => Color::Yellow,
            CoinType::BadCoin => Color::Red,
        }
    }
}

} // verus!
