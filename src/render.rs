use vstd::prelude::*;

use crate::coin::{
    color_of, Coin, Color, Position, COIN_HEIGHT, COIN_STROKE, COIN_WIDTH, WIDTH,
};
use crate::store::CoinStore;

verus! {

/// Vertical offset of the frame-rate readout.
pub const FPS_Y: i32 = 10;

/// One command for the display.
#[derive(Clone, Debug, PartialEq, Eq)]
pub enum DrawCommand {
    /// Fill the whole display with `color`.
    Clear { color: Color },
    /// Write `content` with its baseline starting at `anchor`.
    Text { content: String, anchor: Position, color: Color },
    /// Outline an ellipse of `width` by `height` pixels centred at `center`.
    Ellipse { center: Position, width: u32, height: u32, stroke_color: Color, stroke_width: u32 },
}

/// What a `DrawCommand` says, with its text as a sequence of characters.
pub enum DrawOp {
    Clear { color: Color },
    Text { content: Seq<char>, anchor: Position, color: Color },
    Ellipse { center: Position, width: u32, height: u32, stroke_color: Color, stroke_width: u32 },
}

impl View for DrawCommand {
    type V = DrawOp;

    open spec fn view(&self) -> DrawOp {
        match self {
            DrawCommand::Clear { color } => DrawOp::Clear { color: *color },
            DrawCommand::Text { content, anchor, color } => DrawOp::Text {
                content: content@,
                anchor: *anchor,
                color: *color,
            },
            DrawCommand::Ellipse { center, width, height, stroke_color, stroke_width } =>
                DrawOp::Ellipse {
                center: *center,
                width: *width,
                height: *height,
                stroke_color: *stroke_color,
                stroke_width: *stroke_width,
            },
        }
    }
}

/// The character of a decimal digit `d < 10`.
pub open spec fn digit_char(d: nat) -> char {
    seq!['0', '1', '2', '3', '4', '5', '6', '7', '8', '9'][d as int]
}

/// `n` written in decimal, without sign or leading zeros.
pub open spec fn decimal(n: nat) -> Seq<char>
    decreases n,
{
    if n < 10 {
        seq![digit_char(n)]
    } else {
        decimal(n / 10).push(digit_char(n % 10))
    }
}

/// The text of the frame-rate readout.
pub open spec fn fps_text(fps: nat) -> Seq<char> {
    seq!['F', 'P', 'S', ':', ' '] + decimal(fps)
}

/// Frames per second after a frame that took `elapsed_ms` milliseconds: a
/// frame is taken to last at least one millisecond.
pub open spec fn fps_of(elapsed_ms: nat) -> nat {
    if elapsed_ms == 0 {
        1000nat
    } else {
        1000nat / elapsed_ms
    }
}

/// Where the frame-rate readout starts: 80 pixels left of the right edge.
pub open spec fn fps_anchor() -> Position {
    Position { x: (WIDTH - 80) as i32, y: FPS_Y }
}

/// How a coin is drawn: a stroked ellipse of fixed size at its position, in
/// the color of its kind.
pub open spec fn coin_op(c: Coin) -> DrawOp {
    DrawOp::Ellipse {
        center: c.position,
        width: COIN_WIDTH,
        height: COIN_HEIGHT,
        stroke_color: color_of(c.coin_type),
        stroke_width: COIN_STROKE,
    }
}

/// One frame: clear to black, the readout of `fps` in white, then every coin
/// in list order.
pub open spec fn frame_ops(fps: nat, coins: Seq<Coin>) -> Seq<DrawOp> {
    seq![
        DrawOp::Clear { color: Color::Black },
        DrawOp::Text { content: fps_text(fps), anchor: fps_anchor(), color: Color::White },
    ] + coins.map_values(|c: Coin| coin_op(c))
}

/// Views every command of `cmds`.
pub open spec fn ops_of(cmds: Seq<DrawCommand>) -> Seq<DrawOp> {
    cmds.map_values(|c: DrawCommand| c@)
}

/// Relies on std's `ToString` through `Display` for integers: `n` written in
/// decimal, without sign, padding or leading zeros.
#[verifier::external_body]
fn decimal_string(n: u128) -> (s: String)
    ensures
        s@ == decimal(n as nat),
{
    n.to_string()
}

/// The text of the frame-rate readout for `fps`.
fn fps_label(fps: u128) -> (s: String)
    ensures
        s@ == fps_text(fps as nat),
{
    let digits = decimal_string(fps);
    let label = String::from_str("FPS: ");
    proof {
        reveal_strlit("FPS: ");
    }
    let s = label.concat(digits.as_str());
    proof {
        assert(s@ =~= fps_text(fps as nat));
    }
    s
}

/// The frame rate after a frame of `elapsed_ms` milliseconds. Never divides
/// by zero: a frame that took no measurable time counts as one millisecond.
pub fn fps_from_elapsed(elapsed_ms: u128) -> (fps: u128)
    ensures
        fps == fps_of(elapsed_ms as nat),
        fps <= 1000,
        elapsed_ms == 0 ==> fps == 1000,
{
    let ms: u128 = if elapsed_ms == 0 {
        1
    } else {
        elapsed_ms
    };
    1000 / ms
}

impl Coin {
    /// The command that draws this coin.
    pub fn draw_command(&self) -> (r: DrawCommand)
        ensures
            r@ == coin_op(*self),
    {
        DrawCommand::Ellipse {
            center: self.position,
            width: COIN_WIDTH,
            height: COIN_HEIGHT,
            stroke_color: self.color(),
            stroke_width: COIN_STROKE,
        }
    }
}

/// The state the render loop keeps between frames: the frame rate measured
/// over the previous frame, shown in the next one.
pub struct Renderer {
    pub last_fps: u128,
}

impl Renderer {
    /// Before the first frame nothing has been measured: the readout shows 0.
    pub fn new() -> (r: Renderer)
        ensures
            r.last_fps == 0,
    {
        Renderer { last_fps: 0 }
    }

    /// The commands of one frame over the coins of `store`, read in one pass.
    pub fn frame(&self, store: &CoinStore) -> (cmds: Vec<DrawCommand>)
        ensures
            ops_of(cmds@) == frame_ops(self.last_fps as nat, store@),
    {
        let mut cmds: Vec<DrawCommand> = Vec::new();
        cmds.push(DrawCommand::Clear { color: Color::Black });
        cmds.push(
            DrawCommand::Text {
                content: fps_label(self.last_fps),
                anchor: Position { x: WIDTH as i32 - 80, y: FPS_Y },
                color: Color::White,
            },
        );
        let coins = store.coins();
        proof {
            assert(ops_of(cmds@) =~= frame_ops(self.last_fps as nat, coins@.take(0)));
        }
        let mut i: usize = 0;
        while i < coins.len()
            invariant
                i <= coins@.len(),
                coins@ == store@,
                ops_of(cmds@) == frame_ops(self.last_fps as nat, coins@.take(i as int)),
            decreases coins@.len() - i,
        {
            let cmd = coins[i].draw_command();
            proof {
                let fps = self.last_fps as nat;
                assert(coins@.take(i + 1) =~= coins@.take(i as int).push(coins@[i as int]));
                assert(ops_of(cmds@.push(cmd)) =~= ops_of(cmds@).push(cmd@));
                assert(frame_ops(fps, coins@.take(i + 1)) =~= frame_ops(
                    fps,
                    coins@.take(i as int),
                ).push(coin_op(coins@[i as int])));
            }
            cmds.push(cmd);
            i = i + 1;
        }
        proof {
            assert(coins@.take(i as int) =~= coins@);
        }
        cmds
    }

    /// Records how long the frame just drawn took.
    pub fn finish_frame(&mut self, elapsed_ms: u128)
        ensures
            final(self).last_fps == fps_of(elapsed_ms as nat),
    {
        self.last_fps = fps_from_elapsed(elapsed_ms);
    }
}

} // verus!
