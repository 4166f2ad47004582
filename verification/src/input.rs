//! The key-to-note lookup.
//!
//! The keyboard rows `z s x c f v g b n j m k , l . / '` play an ascending
//! chromatic scale. This module maps a pressed character to its semitone
//! index on that scale; any other character means note-off. Turning the
//! index into a frequency (`base * 2^(index/12)`) is the embedding's
//! concern, as is reading the keyboard itself.

use vstd::prelude::*;

verus! {

/// How many keys play a note.
pub const KEY_COUNT: usize = 17;

/// The playable keys, lowest note first, one semitone apart.
pub open spec fn keys() -> Seq<char> {
    seq![
        'z',
        's',
        'x',
        'c',
        'f',
        'v',
        'g',
        'b',
        'n',
        'j',
        'm',
        'k',
        ',',
        'l',
        '.',
        '/',
        '\'',
    ]
}

/// The key at position `i` of the scale.
fn key_char(i: usize) -> (c: char)
    requires
        i < KEY_COUNT,
    ensures
        c == keys()[i as int],
{
    match i {
        0 => 'z',
        1 => 's',
        2 => 'x',
        3 => 'c',
        4 => 'f',
        5 => 'v',
        6 => 'g',
        7 => 'b',
        8 => 'n',
        9 => 'j',
        10 => 'm',
        11 => 'k',
        12 => ',',
        13 => 'l',
        14 => '.',
        15 => '/',
        _ => '\'',
    }
}

/// Find the semitone index of a pressed key: the first position of `ch`
/// on the scale, or `None` when `ch` plays no note.
pub fn key_index(ch: char) -> (r: Option<usize>)
    ensures
        match r {
            Some(i) => i < KEY_COUNT && keys()[i as int] == ch && (forall|j: int|
                0 <= j < i ==> keys()[j] != ch),
            None => forall|j: int| 0 <= j < KEY_COUNT ==> keys()[j] != ch,
        },
{
    let mut i: usize = 0;
    while i < KEY_COUNT
        invariant
            i <= KEY_COUNT,
            forall|j: int| 0 <= j < i ==> keys()[j] != ch,
        decreases KEY_COUNT - i,
    {
        if key_char(i) == ch {
            return Some(i);
        }
        i = i + 1;
    }
    None
}

} // verus!
