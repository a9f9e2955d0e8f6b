//! Where the window stood and how large it was, kept as decimal text under
//! four configuration keys.

use crate::db::{get_config_value, update_config_value, StoreError};
use crate::text::chars_of;
use rusqlite::Connection;
use vstd::prelude::*;

verus! {

pub const WINDOW_X: &'static str = "window_x";

pub const WINDOW_Y: &'static str = "window_y";

pub const WINDOW_WIDTH: &'static str = "window_width";

pub const WINDOW_HEIGHT: &'static str = "window_height";

/// The position used where none is kept or what is kept is no number.
pub const DEFAULT_POSITION: i32 = 100;

/// The width used where none is kept.
pub const DEFAULT_WIDTH: u32 = 1600;

/// The height used where none is kept.
pub const DEFAULT_HEIGHT: u32 = 1440;

/// The width used where what is kept is no number.
pub const FALLBACK_WIDTH: u32 = 800;

/// The height used where what is kept is no number.
pub const FALLBACK_HEIGHT: u32 = 600;

/// The position of a window's corner and the size of the window, in pixels.
#[derive(Debug, Clone, Copy, PartialEq, Eq)]
pub struct WindowGeometry {
    pub x: i32,
    pub y: i32,
    pub width: u32,
    pub height: u32,
}

/// The value of a decimal digit.
pub open spec fn digit_of(c: char) -> Option<nat> {
    match c {
        '0' => Some(0),
        '1' => Some(1),
        '2' => Some(2),
        '3' => Some(3),
        '4' => Some(4),
        '5' => Some(5),
        '6' => Some(6),
        '7' => Some(7),
        '8' => Some(8),
        '9' => Some(9),
        _ => None,
    }
}

/// The decimal digit of a value below ten.
pub open spec fn digit_char(d: nat) -> char {
    seq!['0', '1', '2', '3', '4', '5', '6', '7', '8', '9'][d as int]
}

/// The number that the digits `s` write, or `None` where one of them is no digit.
pub open spec fn digits_value(s: Seq<char>) -> Option<nat>
    decreases s.len(),
{
    if s.len() == 0 {
        Some(0)
    } else {
        match (digits_value(s.drop_last()), digit_of(s.last())) {
            (Some(value), Some(digit)) => Some(value * 10 + digit),
            _ => None,
        }
    }
}

/// The integer that `s` writes: one digit or more, after a plus sign or none,
/// or after a minus sign where `signed`.
pub open spec fn decimal_value(s: Seq<char>, signed: bool) -> Option<int> {
    if s.len() == 0 {
        None
    } else if s[0] == '+' || (signed && s[0] == '-') {
        if s.len() == 1 {
            None
        } else {
            match digits_value(s.skip(1)) {
                Some(value) => Some(
                    if s[0] == '-' {
                        -(value as int)
                    } else {
                        value as int
                    },
                ),
                None => None,
            }
        }
    } else {
        match digits_value(s) {
            Some(value) => Some(value as int),
            None => None,
        }
    }
}

/// The `i32` that `s` writes, if it writes one.
pub open spec fn i32_of(s: Seq<char>) -> Option<i32> {
    match decimal_value(s, true) {
        Some(value) => if i32::MIN <= value <= i32::MAX {
            Some(value as i32)
        } else {
            None
        },
        None => None,
    }
}

/// The `u32` that `s` writes, if it writes one.
pub open spec fn u32_of(s: Seq<char>) -> Option<u32> {
    match decimal_value(s, false) {
        Some(value) => if 0 <= value <= u32::MAX {
            Some(value as u32)
        } else {
            None
        },
        None => None,
    }
}

/// The digits that write `n`, without leading zeros.
pub open spec fn digits_of(n: nat) -> Seq<char>
    decreases n,
{
    if n < 10 {
        seq![digit_char(n)]
    } else {
        digits_of(n / 10).push(digit_char(n % 10))
    }
}

/// The decimal text of `n`.
pub open spec fn decimal_of(n: int) -> Seq<char> {
    if n < 0 {
        seq!['-'] + digits_of((-n) as nat)
    } else {
        digits_of(n as nat)
    }
}

fn digit_value(c: char) -> (digit: Option<u64>)
    ensures
        match digit {
            Some(d) => digit_of(c) == Some(d as nat) && d < 10,
            None => digit_of(c) is None,
        },
{
    match c {
        '0' => Some(0),
        '1' => Some(1),
        '2' => Some(2),
        '3' => Some(3),
        '4' => Some(4),
        '5' => Some(5),
        '6' => Some(6),
        '7' => Some(7),
        '8' => Some(8),
        '9' => Some(9),
        _ => None,
    }
}

fn digit_for(d: u64) -> (c: char)
    requires
        d < 10,
    ensures
        c == digit_char(d as nat),
{
    match d {
        0 => '0',
        1 => '1',
        2 => '2',
        3 => '3',
        4 => '4',
        5 => '5',
        6 => '6',
        7 => '7',
        8 => '8',
        _ => '9',
    }
}

/// The number that `chars[from..]` write, as far as it stays within `limit`.
fn magnitude(chars: &Vec<char>, from: usize, limit: u64) -> (value: Option<u64>)
    requires
        from <= chars.len(),
        limit <= u32::MAX,
    ensures
        match value {
            Some(v) => digits_value(chars@.skip(from as int)) == Some(v as nat) && v <= limit,
            None => match digits_value(chars@.skip(from as int)) {
                Some(v) => v > limit,
                None => true,
            },
        },
{
    let mut value: u64 = 0;
    let mut over = false;
    let ghost mut exact: nat = 0;
    let mut i: usize = from;
    while i < chars.len()
        invariant
            from <= i <= chars.len(),
            limit <= u32::MAX,
            digits_value(chars@.subrange(from as int, i as int)) == Some(exact),
            over ==> exact > limit,
            !over ==> exact == value && value <= limit,
        decreases chars.len() - i,
    {
        proof {
            assert(chars@.subrange(from as int, i + 1).drop_last() == chars@.subrange(
                from as int,
                i as int,
            ));
        }
        match digit_value(chars[i]) {
            Some(digit) => {
                proof {
                    exact = exact * 10 + digit as nat;
                }
                if !over {
                    value = value * 10 + digit;
                    if value > limit {
                        over = true;
                    }
                }
            },
            None => {
                proof {
                    lemma_digits_value_needs_digits(chars@.skip(from as int), i - from);
                }
                return None;
            },
        }
        i += 1;
    }
    proof {
        assert(chars@.subrange(from as int, chars.len() as int) == chars@.skip(from as int));
    }
    if over {
        None
    } else {
        Some(value)
    }
}

/// Digits with something else among them write nothing.
proof fn lemma_digits_value_needs_digits(s: Seq<char>, i: int)
    requires
        0 <= i < s.len(),
        digit_of(s[i]) is None,
    ensures
        digits_value(s) is None,
    decreases s.len(),
{
    if i < s.len() - 1 {
        lemma_digits_value_needs_digits(s.drop_last(), i);
    }
}

/// The `i32` that `text` writes in decimal digits, after a sign or none.
pub fn parse_i32(text: &str) -> (value: Option<i32>)
    ensures
        value == i32_of(text@),
{
    let chars = chars_of(text);
    if chars.len() == 0 {
        return None;
    }
    let negative = chars[0] == '-';
    let from: usize = if negative || chars[0] == '+' {
        1
    } else {
        0
    };
    if from == chars.len() {
        return None;
    }
    proof {
        assert(chars@.skip(0) == chars@);
    }
    let limit: u64 = if negative {
        2147483648
    } else {
        2147483647
    };
    match magnitude(&chars, from, limit) {
        Some(value) => if negative {
            if value == 2147483648 {
                Some(i32::MIN)
            } else {
                Some(-(value as i32))
            }
        } else {
            Some(value as i32)
        },
        None => None,
    }
}

/// The `u32` that `text` writes in decimal digits, after a plus sign or none.
pub fn parse_u32(text: &str) -> (value: Option<u32>)
    ensures
        value == u32_of(text@),
{
    let chars = chars_of(text);
    if chars.len() == 0 {
        return None;
    }
    let from: usize = if chars[0] == '+' {
        1
    } else {
        0
    };
    if from == chars.len() {
        return None;
    }
    proof {
        assert(chars@.skip(0) == chars@);
    }
    match magnitude(&chars, from, 4294967295) {
        Some(value) => Some(value as u32),
        None => None,
    }
}

/// Appends the digits of `n` to `text`.
fn push_digits(text: &mut String, n: u64)
    ensures
        final(text)@ == old(text)@ + digits_of(n as nat),
    decreases n,
{
    if n < 10 {
        text.push(digit_for(n));
        assert(old(text)@.push(digit_char(n as nat)) =~= old(text)@ + digits_of(n as nat));
    } else {
        push_digits(text, n / 10);
        text.push(digit_for(n % 10));
        assert((old(text)@ + digits_of((n / 10) as nat)).push(digit_char((n % 10) as nat))
            =~= old(text)@ + digits_of(n as nat));
    }
}

/// The decimal text of `n`.
pub fn decimal_i32(n: i32) -> (text: String)
    ensures
        text@ == decimal_of(n as int),
{
    let mut text = String::new();
    if n < 0 {
        text.push('-');
        let size: u64 = (-(n as i64)) as u64;
        push_digits(&mut text, size);
        assert(text@ =~= decimal_of(n as int));
    } else {
        push_digits(&mut text, n as u64);
        assert(text@ =~= decimal_of(n as int));
    }
    text
}

/// The decimal text of `n`.
pub fn decimal_u32(n: u32) -> (text: String)
    ensures
        text@ == decimal_of(n as int),
{
    let mut text = String::new();
    push_digits(&mut text, n as u64);
    assert(text@ =~= decimal_of(n as int));
    text
}


/// The digits of a number write that number.
proof fn lemma_digits_round_trip(n: nat)
    ensures
        digits_value(digits_of(n)) == Some(n),
        digits_of(n).len() > 0,
        digit_of(digits_of(n)[0]) is Some,
    decreases n,
{
    if n < 10 {
        assert(digits_of(n).drop_last() == Seq::<char>::empty());
        assert(digits_value(digits_of(n).drop_last()) == Some(0nat));
    } else {
        lemma_digits_round_trip(n / 10);
        assert(digits_of(n).drop_last() == digits_of(n / 10));
        assert(digits_of(n)[0] == digits_of(n / 10)[0]);
    }
}

/// Reading the decimal text of an integer gives that integer back.
pub proof fn lemma_decimal_round_trip(n: int)
    ensures
        decimal_value(decimal_of(n), true) == Some(n),
        n >= 0 ==> decimal_value(decimal_of(n), false) == Some(n),
{
    if n < 0 {
        let digits = digits_of((-n) as nat);
        lemma_digits_round_trip((-n) as nat);
        assert(decimal_of(n).skip(1) == digits);
    } else {
        lemma_digits_round_trip(n as nat);
    }
}

/// The position that the kept text stands for.
pub open spec fn position_of(kept: Option<String>) -> i32 {
    match kept {
        Some(text) => match i32_of(text@) {
            Some(value) => value,
            None => DEFAULT_POSITION,
        },
        None => DEFAULT_POSITION,
    }
}

/// The width or height that the kept text stands for: `default` where none
/// is kept, `fallback` where what is kept is no number.
pub open spec fn extent_of(kept: Option<String>, default: u32, fallback: u32) -> u32 {
    match kept {
        Some(text) => match u32_of(text@) {
            Some(value) => value,
            None => fallback,
        },
        None => default,
    }
}

fn position_from(kept: &Option<String>) -> (position: i32)
    ensures
        position == position_of(*kept),
{
    match kept {
        Some(text) => match parse_i32(text.as_str()) {
            Some(value) => value,
            None => DEFAULT_POSITION,
        },
        None => DEFAULT_POSITION,
    }
}

fn extent_from(kept: &Option<String>, default: u32, fallback: u32) -> (extent: u32)
    ensures
        extent == extent_of(*kept, default, fallback),
{
    match kept {
        Some(text) => match parse_u32(text.as_str()) {
            Some(value) => value,
            None => fallback,
        },
        None => default,
    }
}

/// The geometry that the four kept texts stand for.
pub fn geometry_from(
    x: &Option<String>,
    y: &Option<String>,
    width: &Option<String>,
    height: &Option<String>,
) -> (geometry: WindowGeometry)
    ensures
        geometry.x == position_of(*x),
        geometry.y == position_of(*y),
        geometry.width == extent_of(*width, DEFAULT_WIDTH, FALLBACK_WIDTH),
        geometry.height == extent_of(*height, DEFAULT_HEIGHT, FALLBACK_HEIGHT),
{
    WindowGeometry {
        x: position_from(x),
        y: position_from(y),
        width: extent_from(width, DEFAULT_WIDTH, FALLBACK_WIDTH),
        height: extent_from(height, DEFAULT_HEIGHT, FALLBACK_HEIGHT),
    }
}

/// The geometry kept in the store.
pub fn load_window_state(conn: &Connection) -> (geometry: Result<WindowGeometry, StoreError>)
    ensures
        geometry matches Err(error) ==> error is Database || error is UnexpectedRow,
{
    let x = match get_config_value(conn, WINDOW_X) {
        Ok(kept) => kept,
        Err(error) => {
            return Err(error);
        },
    };
    let y = match get_config_value(conn, WINDOW_Y) {
        Ok(kept) => kept,
        Err(error) => {
            return Err(error);
        },
    };
    let width = match get_config_value(conn, WINDOW_WIDTH) {
        Ok(kept) => kept,
        Err(error) => {
            return Err(error);
        },
    };
    let height = match get_config_value(conn, WINDOW_HEIGHT) {
        Ok(kept) => kept,
        Err(error) => {
            return Err(error);
        },
    };
    Ok(geometry_from(&x, &y, &width, &height))
}

/// Keeps the position and the size of the window, each where it is known.
/// Where neither is known there is nothing to keep, and the store is not asked.
pub fn save_window_state(
    conn: &Connection,
    position: Option<(i32, i32)>,
    size: Option<(u32, u32)>,
) -> (done: Result<(), StoreError>)
    ensures
        position is None && size is None ==> done is Ok,
        done matches Err(error) ==> error is Database,
{
    match position {
        Some((x, y)) => {
            match update_config_value(conn, WINDOW_X, decimal_i32(x).as_str()) {
                Ok(()) => {},
                Err(error) => {
                    return Err(error);
                },
            }
            match update_config_value(conn, WINDOW_Y, decimal_i32(y).as_str()) {
                Ok(()) => {},
                Err(error) => {
                    return Err(error);
                },
            }
        },
        None => {},
    }
    match size {
        Some((width, height)) => {
            match update_config_value(conn, WINDOW_WIDTH, decimal_u32(width).as_str()) {
                Ok(()) => {},
                Err(error) => {
                    return Err(error);
                },
            }
            update_config_value(conn, WINDOW_HEIGHT, decimal_u32(height).as_str())
        },
        None => Ok(()),
    }
}

} // verus!
