use crate::classify::{
    en_char, en_letter, is_en_char, is_en_letter, is_zh_char, is_zh_letter, zh_char, zh_letter,
};
use crate::text::chars_of;
use vstd::prelude::*;

verus! {

/// The script that a line is written in for the most part; it decides which
/// glyphs punctuation, quotes and ellipses are localized to.
#[derive(Debug, Clone, Copy, PartialEq, Eq, Structural)]
pub enum Lang {
    Zh,
    En,
}

/// A character of the script of `lang`.
pub open spec fn script_char(lang: Lang, c: char) -> bool {
    match lang {
        Lang::Zh => zh_char(c),
        Lang::En => en_char(c),
    }
}

/// Tests [`script_char`].
pub fn is_script_char(lang: Lang, c: char) -> (r: bool)
    ensures
        r == script_char(lang, c),
{
    match lang {
        Lang::Zh => is_zh_char(c),
        Lang::En => is_en_char(c),
    }
}

/// How many characters at each edge of a line its language is guessed from.
pub const GUESS_LANG_WINDOW: usize = 3;

/// A letter of either script.
pub open spec fn guess_letter(c: char) -> bool {
    zh_letter(c) || en_letter(c)
}

/// From `i` toward `j`, the first index that holds a letter, or `j`.
pub open spec fn first_letter_from(s: Seq<char>, i: int, j: int) -> int
    decreases j - i,
{
    if i < j && !guess_letter(s[i]) {
        first_letter_from(s, i + 1, j)
    } else {
        i
    }
}

/// From `j` toward `i`, the first index that holds a letter, or `i`.
pub open spec fn last_letter_from(s: Seq<char>, i: int, j: int) -> int
    decreases j - i,
{
    if i < j && !guess_letter(s[j]) {
        last_letter_from(s, i, j - 1)
    } else {
        j
    }
}

/// The number of Chinese letters in `s[lo..hi]`.
pub open spec fn count_zh(s: Seq<char>, lo: int, hi: int) -> nat
    decreases hi - lo,
{
    if hi <= lo {
        0
    } else {
        count_zh(s, lo, hi - 1) + if zh_letter(s[hi - 1]) {
            1nat
        } else {
            0nat
        }
    }
}

/// The number of Latin letters in `s[lo..hi]`.
pub open spec fn count_en(s: Seq<char>, lo: int, hi: int) -> nat
    decreases hi - lo,
{
    if hi <= lo {
        0
    } else {
        count_en(s, lo, hi - 1) + if en_letter(s[hi - 1]) {
            1nat
        } else {
            0nat
        }
    }
}

/// The language of a line. A line with no letter is Chinese. Otherwise, with
/// `i` its first letter and `j` its last, the window `i..min(i + 3, j + 1)`
/// and the window `max(j + 1 - 3, i)..j + 1` are counted (they may overlap),
/// and the line is Chinese when twice its Chinese letters are at least its
/// Latin letters.
pub open spec fn guessed(s: Seq<char>) -> Lang {
    let i = first_letter_from(s, 0, s.len() as int);
    if i >= s.len() {
        Lang::Zh
    } else {
        let end = last_letter_from(s, i, s.len() - 1) + 1;
        let w = GUESS_LANG_WINDOW as int;
        let hi = if i + w < end {
            i + w
        } else {
            end
        };
        let lo = if end - w > i {
            end - w
        } else {
            i
        };
        let zh = count_zh(s, i, hi) + count_zh(s, lo, end);
        let en = count_en(s, i, hi) + count_en(s, lo, end);
        if 2 * zh >= en {
            Lang::Zh
        } else {
            Lang::En
        }
    }
}

proof fn lemma_first_letter(s: Seq<char>, i: int, k: int)
    requires
        0 <= i <= s.len(),
    ensures
        i <= first_letter_from(s, i, s.len() as int) <= s.len(),
        first_letter_from(s, i, s.len() as int) < s.len() ==> guess_letter(
            s[first_letter_from(s, i, s.len() as int)],
        ),
        i <= k < s.len() && guess_letter(s[k]) ==> first_letter_from(s, i, s.len() as int) <= k,
    decreases s.len() - i,
{
    if i < s.len() && !guess_letter(s[i]) {
        lemma_first_letter(s, i + 1, k);
    }
}

proof fn lemma_last_letter(s: Seq<char>, i: int, j: int)
    requires
        0 <= i <= j < s.len(),
    ensures
        i <= last_letter_from(s, i, j) <= j,
    decreases j - i,
{
    if i < j && !guess_letter(s[j]) {
        lemma_last_letter(s, i, j - 1);
    }
}

proof fn lemma_no_zh_counted(s: Seq<char>, lo: int, hi: int)
    requires
        forall|k: int| 0 <= k < s.len() ==> !zh_letter(s[k]),
        0 <= lo,
        hi <= s.len(),
    ensures
        count_zh(s, lo, hi) == 0,
    decreases hi - lo,
{
    if hi > lo {
        lemma_no_zh_counted(s, lo, hi - 1);
    }
}

proof fn lemma_no_en_counted(s: Seq<char>, lo: int, hi: int)
    requires
        forall|k: int| 0 <= k < s.len() ==> !en_letter(s[k]),
        0 <= lo,
        hi <= s.len(),
    ensures
        count_en(s, lo, hi) == 0,
    decreases hi - lo,
{
    if hi > lo {
        lemma_no_en_counted(s, lo, hi - 1);
    }
}

proof fn lemma_en_counted(s: Seq<char>, lo: int, hi: int)
    requires
        0 <= lo < hi <= s.len(),
        en_letter(s[lo]),
    ensures
        count_en(s, lo, hi) >= 1,
    decreases hi - lo,
{
    if hi > lo + 1 {
        lemma_en_counted(s, lo, hi - 1);
    }
}

/// A line whose letters are all of one script is guessed to be in that
/// script: Chinese letters and no Latin letter give Chinese, Latin letters
/// and no Chinese letter give Latin.
pub proof fn lemma_single_script_guess(s: Seq<char>)
    ensures
        (exists|k: int| 0 <= k < s.len() && zh_letter(s[k])) && (forall|k: int|
            0 <= k < s.len() ==> !en_letter(#[trigger] s[k])) ==> guessed(s) == Lang::Zh,
        (exists|k: int| 0 <= k < s.len() && en_letter(s[k])) && (forall|k: int|
            0 <= k < s.len() ==> !zh_letter(#[trigger] s[k])) ==> guessed(s) == Lang::En,
{
    let i = first_letter_from(s, 0, s.len() as int);
    lemma_first_letter(s, 0, 0);
    if i < s.len() {
        lemma_last_letter(s, i, s.len() - 1);
    }
    let end = last_letter_from(s, i, s.len() - 1) + 1;
    let w = GUESS_LANG_WINDOW as int;
    let hi = if i + w < end {
        i + w
    } else {
        end
    };
    let lo = if end - w > i {
        end - w
    } else {
        i
    };
    if i < s.len() && (forall|k: int| 0 <= k < s.len() ==> !en_letter(#[trigger] s[k])) {
        lemma_no_en_counted(s, i, hi);
        lemma_no_en_counted(s, lo, end);
    }
    if (exists|k: int| 0 <= k < s.len() && en_letter(s[k])) && (forall|k: int|
        0 <= k < s.len() ==> !zh_letter(#[trigger] s[k])) {
        let k = choose|k: int| 0 <= k < s.len() && en_letter(s[k]);
        lemma_first_letter(s, 0, k);
        lemma_no_zh_counted(s, i, hi);
        lemma_no_zh_counted(s, lo, end);
        lemma_en_counted(s, i, hi);
    }
}

/// The letters of each script in `chars[lo..hi]`, a window of at most
/// [`GUESS_LANG_WINDOW`] characters.
fn count_window(chars: &Vec<char>, lo: usize, hi: usize) -> (r: (usize, usize))
    requires
        lo <= hi <= chars.len(),
        hi - lo <= GUESS_LANG_WINDOW,
    ensures
        r.0 == count_zh(chars@, lo as int, hi as int),
        r.1 == count_en(chars@, lo as int, hi as int),
        r.0 <= GUESS_LANG_WINDOW,
        r.1 <= GUESS_LANG_WINDOW,
{
    let mut zh: usize = 0;
    let mut en: usize = 0;
    let mut k: usize = lo;
    while k < hi
        invariant
            lo <= k <= hi <= chars.len(),
            hi - lo <= GUESS_LANG_WINDOW,
            zh == count_zh(chars@, lo as int, k as int),
            en == count_en(chars@, lo as int, k as int),
            zh <= k - lo,
            en <= k - lo,
        decreases hi - k,
    {
        if is_zh_letter(chars[k]) {
            zh += 1;
        }
        if is_en_letter(chars[k]) {
            en += 1;
        }
        k += 1;
    }
    (zh, en)
}

/// Guesses the language of a line of characters; see [`guessed`].
pub fn guess_lang_of(chars: &Vec<char>) -> (r: Lang)
    ensures
        r == guessed(chars@),
{
    let mut i: usize = 0;
    while i < chars.len() && !is_zh_letter(chars[i]) && !is_en_letter(chars[i])
        invariant
            i <= chars.len(),
            first_letter_from(chars@, i as int, chars.len() as int) == first_letter_from(
                chars@,
                0,
                chars.len() as int,
            ),
        decreases chars.len() - i,
    {
        i += 1;
    }
    if i >= chars.len() {
        return Lang::Zh;
    }
    let mut j: usize = chars.len() - 1;
    while i < j && !is_zh_letter(chars[j]) && !is_en_letter(chars[j])
        invariant
            i <= j < chars.len(),
            i == first_letter_from(chars@, 0, chars.len() as int),
            last_letter_from(chars@, i as int, j as int) == last_letter_from(
                chars@,
                i as int,
                chars.len() - 1,
            ),
        decreases j - i,
    {
        j -= 1;
    }
    let end = j + 1;
    let hi = if end - i > GUESS_LANG_WINDOW {
        i + GUESS_LANG_WINDOW
    } else {
        end
    };
    let lo = if end - i > GUESS_LANG_WINDOW {
        end - GUESS_LANG_WINDOW
    } else {
        i
    };
    let (zh1, en1) = count_window(chars, i, hi);
    let (zh2, en2) = count_window(chars, lo, end);
    if 2 * (zh1 + zh2) >= en1 + en2 {
        Lang::Zh
    } else {
        Lang::En
    }
}

/// Guesses whether a line is written in Chinese or in Latin script for the
/// most part; see [`guessed`].
pub fn guess_lang(content: &str) -> (r: Lang)
    ensures
        r == guessed(content@),
{
    let chars = chars_of(content);
    guess_lang_of(&chars)
}

} // verus!
