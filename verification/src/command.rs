//! Keys of the frame loop and what they ask for.

use vstd::prelude::*;
use crate::action::Prop;

verus! {

/// What a key asks for.
#[derive(Debug, Clone, Copy, PartialEq, Eq, Structural)]
pub enum Command {
    /// `0` to `6`: drop a piece of scenery.
    Drop(Prop),
    /// `7`: show the two icosahedra.
    Icosahedra,
    /// `8`: show the two dodecahedra, plain and centred.
    Dodecahedra,
    /// `9`: show the two truncated icosahedra, plain and centred.
    Fullerenes,
    /// `@`: release what the cursor holds and take up the next solid.
    Next,
    /// `h`: move the cursor left.
    Left,
    /// `j`: move the cursor to the front.
    Front,
    /// `k`: move the cursor back.
    Back,
    /// `l`: move the cursor right.
    Right,
    /// `c`: report collisions, or stop reporting them.
    Info,
    /// `x`: report contacts too, or stop reporting them.
    InfoSub,
    /// Space: wake the apple, or put it to sleep.
    Apple,
    /// `t`: give the loose scenery a push.
    Push,
    /// `o`: report the big ball and lift it.
    BigBall,
    /// `b`: recolour the big ball while listing the bodies.
    Recolor,
    /// `a`: list the bodies.
    ListAll,
    /// `?`: print the key bindings.
    Help,
    /// Any other key.
    Nothing,
}

/// The character of a key: its lowest byte.
pub open spec fn key_char(cmd: i32) -> char {
    ((cmd as int % 256) as u8) as char
}

/// What the key `cmd` asks for.
pub open spec fn decoded(cmd: i32) -> Command {
    let c = key_char(cmd);
    if c == '0' {
        Command::Drop(Prop::Bunny)
    } else if c == '1' {
        Command::Drop(Prop::Tetra)
    } else if c == '2' {
        Command::Drop(Prop::Cube)
    } else if c == '3' {
        Command::Drop(Prop::Icosahedron)
    } else if c == '4' {
        Command::Drop(Prop::Ball)
    } else if c == '5' {
        Command::Drop(Prop::Composite)
    } else if c == '6' {
        Command::Drop(Prop::BoxSmall)
    } else if c == '7' {
        Command::Icosahedra
    } else if c == '8' {
        Command::Dodecahedra
    } else if c == '9' {
        Command::Fullerenes
    } else if c == '@' {
        Command::Next
    } else if c == 'h' {
        Command::Left
    } else if c == 'j' {
        Command::Front
    } else if c == 'k' {
        Command::Back
    } else if c == 'l' {
        Command::Right
    } else if c == 'c' {
        Command::Info
    } else if c == 'x' {
        Command::InfoSub
    } else if c == ' ' {
        Command::Apple
    } else if c == 't' {
        Command::Push
    } else if c == 'o' {
        Command::BigBall
    } else if c == 'b' {
        Command::Recolor
    } else if c == 'a' {
        Command::ListAll
    } else if c == '?' {
        Command::Help
    } else {
        Command::Nothing
    }
}

/// What the key `cmd` asks for. Only the lowest byte of the key counts.
pub fn decode(cmd: i32) -> (r: Command)
    ensures
        r == decoded(cmd),
{
    let shifted: i64 = cmd as i64 + 0x8000_0000;
    let c = ((shifted % 256) as u8) as char;
    match c {
        '0' => Command::Drop(Prop::Bunny),
        '1' => Command::Drop(Prop::Tetra),
        '2' => Command::Drop(Prop::Cube),
        '3' => Command::Drop(Prop::Icosahedron),
        '4' => Command::Drop(Prop::Ball),
        '5' => Command::Drop(Prop::Composite),
        '6' => Command::Drop(Prop::BoxSmall),
        '7' => Command::Icosahedra,
        '8' => Command::Dodecahedra,
        '9' => Command::Fullerenes,
        '@' => Command::Next,
        'h' => Command::Left,
        'j' => Command::Front,
        'k' => Command::Back,
        'l' => Command::Right,
        'c' => Command::Info,
        'x' => Command::InfoSub,
        ' ' => Command::Apple,
        't' => Command::Push,
        'o' => Command::BigBall,
        'b' => Command::Recolor,
        'a' => Command::ListAll,
        '?' => Command::Help,
        _ => Command::Nothing,
    }
}

/// Keys that agree in their lowest byte ask for the same.
pub proof fn lemma_decoded_by_low_byte(cmd: i32, other: i32)
    requires
        cmd as int % 256 == other as int % 256,
    ensures
        decoded(cmd) == decoded(other),
{
}

} // verus!
