//! The control sequences that the game sends to the terminal. They come from
//! termion; what each one is made of is stated here and taken on trust.

use vstd::prelude::*;

verus! {

/// The character of a decimal digit.
pub open spec fn digit(d: int) -> char {
    if d == 0 {
        '0'
    } else if d == 1 {
        '1'
    } else if d == 2 {
        '2'
    } else if d == 3 {
        '3'
    } else if d == 4 {
        '4'
    } else if d == 5 {
        '5'
    } else if d == 6 {
        '6'
    } else if d == 7 {
        '7'
    } else if d == 8 {
        '8'
    } else {
        '9'
    }
}

/// A number written in base ten, without leading zeros.
pub open spec fn decimal(n: nat) -> Seq<char>
    decreases n,
{
    if n < 10 {
        seq![digit(n as int)]
    } else {
        decimal(n / 10).push(digit((n % 10) as int))
    }
}

/// The sequence that puts the cursor on column `col` of row `row`, both
/// counted from one: escape, `[`, the row, `;`, the column, `H`.
pub open spec fn goto_seq(col: nat, row: nat) -> Seq<char> {
    seq!['\x1b', '['] + decimal(row) + seq![';'] + decimal(col) + seq!['H']
}

/// The sequence that clears the whole screen.
pub open spec fn clear_all_seq() -> Seq<char> {
    seq!['\x1b', '[', '2', 'J']
}

/// The sequence that resets colours and text attributes.
pub open spec fn style_reset_seq() -> Seq<char> {
    seq!['\x1b', '[', 'm']
}

/// The sequence that makes the cursor a blinking underline.
pub open spec fn blinking_underline_seq() -> Seq<char> {
    seq!['\x1b', '[', '3', ' ', 'q']
}

/// The sequence that makes the cursor a blinking block.
pub open spec fn blinking_block_seq() -> Seq<char> {
    seq!['\x1b', '[', '1', ' ', 'q']
}

/// Formats `termion::cursor::Goto(col, row)` through its `Display`
/// implementation. Trusted: the text is escape, `[`, the row in decimal,
/// `;`, the column in decimal, `H`. The position (0, 0) is left out, on
/// which termion's debug assertion fails.
#[verifier::external_body]
pub(crate) fn goto_text(col: u16, row: u16) -> (s: String)
    requires
        col != 0 || row != 0,
    ensures
        s@ == goto_seq(col as nat, row as nat),
{
    format!("{}", termion::cursor::Goto(col, row))
}

/// Formats `termion::clear::All` through its `Display` implementation.
/// Trusted: the text is escape, `[`, `2`, `J`.
#[verifier::external_body]
pub(crate) fn clear_all_text() -> (s: String)
    ensures
        s@ == clear_all_seq(),
{
    format!("{}", termion::clear::All)
}

/// Formats `termion::style::Reset` through its `Display` implementation.
/// Trusted: the text is escape, `[`, `m`.
#[verifier::external_body]
pub(crate) fn style_reset_text() -> (s: String)
    ensures
        s@ == style_reset_seq(),
{
    format!("{}", termion::style::Reset)
}

/// Formats `termion::cursor::BlinkingUnderline` through its `Display`
/// implementation. Trusted: the text is escape, `[`, `3`, a space, `q`.
#[verifier::external_body]
pub(crate) fn blinking_underline_text() -> (s: String)
    ensures
        s@ == blinking_underline_seq(),
{
    format!("{}", termion::cursor::BlinkingUnderline)
}

/// Formats `termion::cursor::BlinkingBlock` through its `Display`
/// implementation. Trusted: the text is escape, `[`, `1`, a space, `q`.
#[verifier::external_body]
pub(crate) fn blinking_block_text() -> (s: String)
    ensures
        s@ == blinking_block_seq(),
{
    format!("{}", termion::cursor::BlinkingBlock)
}

} // verus!
