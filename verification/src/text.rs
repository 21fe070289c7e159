//! The words that the game puts on screen.

use vstd::prelude::*;
use vstd::string::*;

verus! {

/// The character of one decimal digit.
pub open spec fn digit(d: nat) -> char {
    if d == 0 {
        '0'
    } else if d == 1 {
        '1'
    } else if d == 2 {
        '2'
    } else if d == 3 {
        '3'
    } else if d == 4 {
        '4'
    } else if d == 5 {
        '5'
    } else if d == 6 {
        '6'
    } else if d == 7 {
        '7'
    } else if d == 8 {
        '8'
    } else {
        '9'
    }
}

/// A number written in decimal, without leading zeros.
pub open spec fn decimal(n: nat) -> Seq<char>
    decreases n,
{
    if n < 10 {
        seq![digit(n)]
    } else {
        decimal(n / 10).push(digit(n % 10))
    }
}

/// What the health display reads for a given health.
pub open spec fn health_caption(health: u8) -> Seq<char> {
    "Health: "@ + decimal(health as nat)
}

/// The name under which the host knows the lane marker with a given index.
pub open spec fn roadline_name(index: nat) -> Seq<char> {
    "roadline"@ + decimal(index)
}

/// The name under which the host knows the obstacle with a given index.
pub open spec fn obstacle_name(index: nat) -> Seq<char> {
    "obstacle"@ + decimal(index)
}

/// What the screen reads once the run is lost.
pub open spec fn game_over_caption() -> Seq<char> {
    "GAME OVER"@
}

/// The title of the game's window.
pub open spec fn title_caption() -> Seq<char> {
    "Rusty Road Race"@
}

fn digit_text(d: u8) -> (s: &'static str)
    requires
        d < 10,
    ensures
        s@ == seq![digit(d as nat)],
{
    proof {
        reveal_strlit("0");
        reveal_strlit("1");
        reveal_strlit("2");
        reveal_strlit("3");
        reveal_strlit("4");
        reveal_strlit("5");
        reveal_strlit("6");
        reveal_strlit("7");
        reveal_strlit("8");
        reveal_strlit("9");
    }
    let s: &'static str = if d == 0 {
        "0"
    } else if d == 1 {
        "1"
    } else if d == 2 {
        "2"
    } else if d == 3 {
        "3"
    } else if d == 4 {
        "4"
    } else if d == 5 {
        "5"
    } else if d == 6 {
        "6"
    } else if d == 7 {
        "7"
    } else if d == 8 {
        "8"
    } else {
        "9"
    };
    assert(s@ =~= seq![digit(d as nat)]);
    s
}

/// Writes `n` in decimal at the end of `s`.
fn push_decimal(s: &mut String, n: usize)
    ensures
        final(s)@ == old(s)@ + decimal(n as nat),
    decreases n,
{
    if n >= 10 {
        push_decimal(s, n / 10);
    }
    s.append(digit_text((n % 10) as u8));
    assert(s@ =~= old(s)@ + decimal(n as nat));
}

/// A number written in decimal.
pub fn decimal_text(n: usize) -> (s: String)
    ensures
        s@ == decimal(n as nat),
{
    let mut s: String = String::new();
    push_decimal(&mut s, n);
    assert(s@ =~= decimal(n as nat));
    s
}

/// The text of the health display: `Health: ` and the number in decimal.
pub fn health_text(health: u8) -> (s: String)
    ensures
        s@ == health_caption(health),
{
    let mut s: String = String::from_str("Health: ");
    push_decimal(&mut s, health as usize);
    s
}

/// The name of the lane marker with the given index in the scene.
pub fn roadline_label(index: usize) -> (s: String)
    ensures
        s@ == roadline_name(index as nat),
{
    let mut s: String = String::from_str("roadline");
    push_decimal(&mut s, index);
    s
}

/// The name of the obstacle with the given index in the scene.
pub fn obstacle_label(index: usize) -> (s: String)
    ensures
        s@ == obstacle_name(index as nat),
{
    let mut s: String = String::from_str("obstacle");
    push_decimal(&mut s, index);
    s
}

/// The text shown once the run is lost.
pub fn game_over_text() -> (s: String)
    ensures
        s@ == game_over_caption(),
{
    String::from_str("GAME OVER")
}

/// The title of the game's window.
pub fn window_title() -> (s: String)
    ensures
        s@ == title_caption(),
{
    String::from_str("Rusty Road Race")
}

} // verus!
