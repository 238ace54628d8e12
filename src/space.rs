use crate::classify::{ascii_digit, digit, en_char, en_left_punc, en_letter, en_middle_punc, en_right_punc, en_right_punc_digit, is_en_char, is_en_left_punc, is_en_letter, is_en_middle_punc, is_en_right_punc, is_en_right_punc_digit, is_zh_char, is_zh_letter, is_zh_punc, zh_char, zh_letter, zh_punc};
use vstd::prelude::*;

verus! {

/// A space between `l` and `r` is dropped: no space inside a run of one
/// script, between Chinese and digits, or inside a run of Latin punctuation.
pub open spec fn remove_space_rule(l: char, r: char) -> bool {
    (zh_char(l) && zh_char(r))
    || (zh_char(l) && ascii_digit(r))
    || (ascii_digit(l) && zh_char(r))
    || (zh_letter(l) && en_letter(r))
    || (en_letter(l) && zh_letter(r))
    || (zh_letter(l) && en_right_punc(r))
    || (en_left_punc(l) && zh_letter(r))
    || (zh_punc(l) && en_char(r))
    || (en_char(l) && zh_punc(r))
    || (en_letter(l) && en_right_punc(r))
    || (en_left_punc(l) && en_letter(r))
    || (en_left_punc(l) && en_left_punc(r))
    || (en_left_punc(l) && en_right_punc(r))
    || (en_left_punc(l) && en_middle_punc(r))
    || (en_right_punc(l) && en_right_punc(r))
    || (en_middle_punc(l) && en_right_punc(r))
    || (en_middle_punc(l) && en_middle_punc(r))
    || (ascii_digit(l) && en_right_punc(r))
    || (en_left_punc(l) && ascii_digit(r))
}

/// A space goes between `l` and `r`: around Latin punctuation that meets
/// letters, digits or other punctuation.
pub open spec fn add_space_rule(l: char, r: char) -> bool {
    (zh_letter(l) && en_left_punc(r))
    || (zh_letter(l) && en_middle_punc(r))
    || (en_right_punc(l) && zh_letter(r))
    || (en_middle_punc(l) && zh_letter(r))
    || (en_letter(l) && en_left_punc(r))
    || (en_letter(l) && en_middle_punc(r))
    || (en_right_punc(l) && en_letter(r))
    || (en_middle_punc(l) && en_letter(r))
    || (en_right_punc(l) && en_left_punc(r))
    || (en_right_punc(l) && en_middle_punc(r))
    || (en_middle_punc(l) && en_left_punc(r))
    || (ascii_digit(l) && en_left_punc(r))
    || (ascii_digit(l) && en_middle_punc(r))
    || (en_right_punc_digit(l) && ascii_digit(r))
    || (en_middle_punc(l) && ascii_digit(r))
}

/// A space goes between a Chinese letter and a Latin letter or a digit, in
/// either order.
pub open spec fn minor_space_rule(l: char, r: char) -> bool {
    (zh_letter(l) && en_letter(r))
    || (en_letter(l) && zh_letter(r))
    || (zh_letter(l) && ascii_digit(r))
    || (ascii_digit(l) && zh_letter(r))
}

/// What the space pass writes for index `i` of `s`, an index with a right
/// neighbour.
pub open spec fn space_piece(s: Seq<char>, i: int) -> Seq<char> {
    if s[i] == ' ' {
        if i > 0 && remove_space_rule(s[i - 1], s[i + 1]) {
            seq![]
        } else {
            seq![' ']
        }
    } else if add_space_rule(s[i], s[i + 1]) {
        seq![s[i], ' ']
    } else {
        seq![s[i]]
    }
}

/// What the space pass writes for the indices `0..n`.
pub open spec fn spaced_upto(s: Seq<char>, n: int) -> Seq<char>
    decreases n,
{
    if n <= 0 {
        seq![]
    } else {
        spaced_upto(s, n - 1) + space_piece(s, n - 1)
    }
}

/// `s` with each space between two characters that [`remove_space_rule`]
/// relates dropped, and a space put after each character that
/// [`add_space_rule`] relates to the next one. The first and the last
/// character are written as they are.
pub open spec fn spaced(s: Seq<char>) -> Seq<char> {
    if s.len() == 0 {
        seq![]
    } else {
        spaced_upto(s, s.len() - 1).push(s.last())
    }
}

/// What the minor space pass writes for index `i` of `s`, an index with a
/// right neighbour.
pub open spec fn minor_piece(s: Seq<char>, i: int) -> Seq<char> {
    if minor_space_rule(s[i], s[i + 1]) {
        seq![s[i], ' ']
    } else {
        seq![s[i]]
    }
}

/// What the minor space pass writes for the indices `0..n`.
pub open spec fn minor_upto(s: Seq<char>, n: int) -> Seq<char>
    decreases n,
{
    if n <= 0 {
        seq![]
    } else {
        minor_upto(s, n - 1) + minor_piece(s, n - 1)
    }
}

/// `s` with a space put between each Chinese letter and a Latin letter or
/// digit next to it; nothing is removed.
pub open spec fn minor_spaced(s: Seq<char>) -> Seq<char> {
    if s.len() == 0 {
        seq![]
    } else {
        minor_upto(s, s.len() - 1).push(s.last())
    }
}

/// Tests [`remove_space_rule`].
fn removes_space(l: char, r: char) -> (b: bool)
    ensures
        b == remove_space_rule(l, r),
{
    (is_zh_char(l) && is_zh_char(r))
        || (is_zh_char(l) && digit(r))
        || (digit(l) && is_zh_char(r))
        || (is_zh_letter(l) && is_en_letter(r))
        || (is_en_letter(l) && is_zh_letter(r))
        || (is_zh_letter(l) && is_en_right_punc(r))
        || (is_en_left_punc(l) && is_zh_letter(r))
        || (is_zh_punc(l) && is_en_char(r))
        || (is_en_char(l) && is_zh_punc(r))
        || (is_en_letter(l) && is_en_right_punc(r))
        || (is_en_left_punc(l) && is_en_letter(r))
        || (is_en_left_punc(l) && is_en_left_punc(r))
        || (is_en_left_punc(l) && is_en_right_punc(r))
        || (is_en_left_punc(l) && is_en_middle_punc(r))
        || (is_en_right_punc(l) && is_en_right_punc(r))
        || (is_en_middle_punc(l) && is_en_right_punc(r))
        || (is_en_middle_punc(l) && is_en_middle_punc(r))
        || (digit(l) && is_en_right_punc(r))
        || (is_en_left_punc(l) && digit(r))
}

/// Tests [`add_space_rule`].
fn adds_space(l: char, r: char) -> (b: bool)
    ensures
        b == add_space_rule(l, r),
{
    (is_zh_letter(l) && is_en_left_punc(r))
        || (is_zh_letter(l) && is_en_middle_punc(r))
        || (is_en_right_punc(l) && is_zh_letter(r))
        || (is_en_middle_punc(l) && is_zh_letter(r))
        || (is_en_letter(l) && is_en_left_punc(r))
        || (is_en_letter(l) && is_en_middle_punc(r))
        || (is_en_right_punc(l) && is_en_letter(r))
        || (is_en_middle_punc(l) && is_en_letter(r))
        || (is_en_right_punc(l) && is_en_left_punc(r))
        || (is_en_right_punc(l) && is_en_middle_punc(r))
        || (is_en_middle_punc(l) && is_en_left_punc(r))
        || (digit(l) && is_en_left_punc(r))
        || (digit(l) && is_en_middle_punc(r))
        || (is_en_right_punc_digit(l) && digit(r))
        || (is_en_middle_punc(l) && digit(r))
}

/// Tests [`minor_space_rule`].
fn adds_minor_space(l: char, r: char) -> (b: bool)
    ensures
        b == minor_space_rule(l, r),
{
    (is_zh_letter(l) && is_en_letter(r))
        || (is_en_letter(l) && is_zh_letter(r))
        || (is_zh_letter(l) && digit(r))
        || (digit(l) && is_zh_letter(r))
}

/// Drops and inserts spaces by the script of the characters around them.
pub fn correct_space(chars: &Vec<char>) -> (r: Vec<char>)
    ensures
        r@ == spaced(chars@),
{
    let mut ret: Vec<char> = Vec::new();
    if chars.len() == 0 {
        return ret;
    }
    let mut i: usize = 0;
    while i < chars.len() - 1
        invariant
            0 < chars.len(),
            i <= chars.len() - 1,
            ret@ == spaced_upto(chars@, i as int),
        decreases chars.len() - 1 - i,
    {
        let x = chars[i];
        if x == ' ' {
            if !(i > 0 && removes_space(chars[i - 1], chars[i + 1])) {
                ret.push(x);
            }
        } else {
            ret.push(x);
            if adds_space(x, chars[i + 1]) {
                ret.push(' ');
            }
        }
        assert(ret@ =~= spaced_upto(chars@, i as int) + space_piece(chars@, i as int));
        i += 1;
    }
    ret.push(chars[chars.len() - 1]);
    ret
}

/// Puts one space between each Chinese letter and a Latin letter or digit
/// next to it.
pub fn correct_minor_space(chars: &Vec<char>) -> (r: Vec<char>)
    ensures
        r@ == minor_spaced(chars@),
{
    let mut ret: Vec<char> = Vec::new();
    if chars.len() == 0 {
        return ret;
    }
    let mut i: usize = 0;
    while i < chars.len() - 1
        invariant
            0 < chars.len(),
            i <= chars.len() - 1,
            ret@ == minor_upto(chars@, i as int),
        decreases chars.len() - 1 - i,
    {
        let x = chars[i];
        ret.push(x);
        if adds_minor_space(x, chars[i + 1]) {
            ret.push(' ');
        }
        assert(ret@ =~= minor_upto(chars@, i as int) + minor_piece(chars@, i as int));
        i += 1;
    }
    ret.push(chars[chars.len() - 1]);
    ret
}

} // verus!
