use crate::ellipsis::{collapsed, correct_ellipsis};
use crate::fold::{fold_char, push_folded};
use crate::lang::{guess_lang_of, guessed, Lang};
use crate::punc::{ascii_space, correct_punc_en, correct_punc_zh, is_ascii_space, localized};
use crate::quote::{correct_quote_en, correct_quote_zh, en_quoted, zh_quoted};
use crate::space::{correct_minor_space, correct_space, minor_spaced, spaced};
use crate::text::{chars_of, string_of};
use vstd::prelude::*;

verus! {

/// The most rounds of rewriting a line gets; a line that has not settled by
/// then is taken as the last round left it.
pub const MAX_ROUNDS: u64 = 64;

/// The state of squeezing whitespace after the first `n` characters of `s`:
/// what has been written, and whether a space is owed before the next word.
pub open spec fn squeeze_upto(s: Seq<char>, n: int) -> (Seq<char>, bool)
    decreases n,
{
    if n <= 0 {
        (seq![], false)
    } else {
        let st = squeeze_upto(s, n - 1);
        let c = s[n - 1];
        if ascii_space(c) {
            (st.0, st.0.len() > 0)
        } else {
            (
                if st.1 {
                    st.0.push(' ')
                } else {
                    st.0
                }.push(c),
                false,
            )
        }
    }
}

/// `s` trimmed of ASCII whitespace at both ends, with each run of ASCII
/// whitespace inside it turned into one space.
pub open spec fn squeezed(s: Seq<char>) -> Seq<char> {
    squeeze_upto(s, s.len() as int).0
}

/// The folded forms of the first `n` characters of `s`, one after the other.
pub open spec fn folded_upto(s: Seq<char>, n: int) -> Seq<char>
    decreases n,
{
    if n <= 0 {
        seq![]
    } else {
        folded_upto(s, n - 1) + fold_char(s[n - 1])
    }
}

/// `s` with every character folded by [`fold_char`].
pub open spec fn folded(s: Seq<char>) -> Seq<char> {
    folded_upto(s, s.len() as int)
}

/// One round of rewriting for `lang`: spaces, then punctuation, then quotes,
/// then ellipses.
pub open spec fn round(lang: Lang, s: Seq<char>) -> Seq<char> {
    match lang {
        Lang::Zh => collapsed(Lang::Zh, zh_quoted(localized(Lang::Zh, spaced(s)))),
        Lang::En => collapsed(Lang::En, en_quoted(localized(Lang::En, spaced(s)))),
    }
}

/// Rounds applied to `s` until one changes nothing, or `fuel` rounds have
/// been made.
pub open spec fn settled(lang: Lang, s: Seq<char>, fuel: nat) -> Seq<char>
    decreases fuel,
{
    if fuel == 0 {
        s
    } else {
        let t = round(lang, s);
        if t == s {
            s
        } else {
            settled(lang, t, (fuel - 1) as nat)
        }
    }
}

/// A line cleaned up: whitespace squeezed, characters folded, rounds made for
/// the guessed language until it settles, and then spaces put at script
/// boundaries.
pub open spec fn normalized_line(s: Seq<char>) -> Seq<char> {
    let p = folded(squeezed(s));
    minor_spaced(settled(guessed(p), p, MAX_ROUNDS as nat))
}

/// The normalized lines of `s` from the line that starts at `start`, scanned
/// up to `i`.
pub open spec fn normalized_from(s: Seq<char>, start: int, i: int) -> Seq<char>
    decreases s.len() - i,
{
    if i < 0 || i >= s.len() {
        if 0 <= start < s.len() {
            normalized_line(s.subrange(start, s.len() as int))
        } else {
            seq![]
        }
    } else if s[i] == '\n' {
        normalized_line(s.subrange(start, i)) + normalized_from(s, i + 1, i + 1)
    } else {
        normalized_from(s, start, i + 1)
    }
}

/// The text `s` split at line feeds, each line normalized on its own, and the
/// results written one after the other with no separator. A line feed at the
/// very end starts no further line.
pub open spec fn normalized(s: Seq<char>) -> Seq<char> {
    normalized_from(s, 0, 0)
}

fn squeeze(chars: &Vec<char>) -> (r: Vec<char>)
    ensures
        r@ == squeezed(chars@),
{
    let mut ret: Vec<char> = Vec::new();
    let mut gap = false;
    let mut i: usize = 0;
    while i < chars.len()
        invariant
            i <= chars.len(),
            (ret@, gap) == squeeze_upto(chars@, i as int),
        decreases chars.len() - i,
    {
        let c = chars[i];
        if is_ascii_space(c) {
            gap = ret.len() > 0;
        } else {
            if gap {
                ret.push(' ');
            }
            ret.push(c);
            gap = false;
        }
        i += 1;
    }
    ret
}

fn fold_all(chars: &Vec<char>) -> (r: Vec<char>)
    ensures
        r@ == folded(chars@),
{
    let mut ret: Vec<char> = Vec::new();
    let mut i: usize = 0;
    while i < chars.len()
        invariant
            i <= chars.len(),
            ret@ == folded_upto(chars@, i as int),
        decreases chars.len() - i,
    {
        push_folded(&mut ret, chars[i]);
        i += 1;
    }
    ret
}

fn same_chars(a: &Vec<char>, b: &Vec<char>) -> (r: bool)
    ensures
        r == (a@ == b@),
{
    if a.len() != b.len() {
        return false;
    }
    let mut i: usize = 0;
    while i < a.len()
        invariant
            i <= a.len() == b.len(),
            a@.subrange(0, i as int) == b@.subrange(0, i as int),
        decreases a.len() - i,
    {
        if a[i] != b[i] {
            assert(a@[i as int] != b@[i as int]);
            return false;
        }
        assert(a@.subrange(0, i + 1) =~= a@.subrange(0, i as int).push(a@[i as int]));
        assert(b@.subrange(0, i + 1) =~= b@.subrange(0, i as int).push(b@[i as int]));
        i += 1;
    }
    assert(a@ =~= a@.subrange(0, i as int));
    assert(b@ =~= b@.subrange(0, i as int));
    true
}

/// One round of rewriting for `lang`; see [`round`].
pub fn run_round(lang: Lang, chars: &Vec<char>) -> (r: Vec<char>)
    ensures
        r@ == round(lang, chars@),
{
    let spaced_chars = correct_space(chars);
    match lang {
        Lang::Zh => {
            let localized_chars = correct_punc_zh(spaced_chars);
            let quoted = correct_quote_zh(&localized_chars);
            correct_ellipsis(&quoted, Lang::Zh)
        },
        Lang::En => {
            let localized_chars = correct_punc_en(spaced_chars);
            let quoted = correct_quote_en(&localized_chars);
            correct_ellipsis(&quoted, Lang::En)
        },
    }
}

/// Normalizes one line; see [`normalized_line`].
pub fn normalize_line(line: &Vec<char>) -> (r: Vec<char>)
    ensures
        r@ == normalized_line(line@),
{
    let squeezed_chars = squeeze(line);
    let mut cur = fold_all(&squeezed_chars);
    let ghost p = cur@;
    let lang = guess_lang_of(&cur);
    let mut rounds: u64 = 0;
    let mut stable = false;
    while !stable && rounds < MAX_ROUNDS
        invariant
            rounds <= MAX_ROUNDS,
            lang == guessed(p),
            settled(lang, cur@, (MAX_ROUNDS - rounds) as nat) == settled(
                lang,
                p,
                MAX_ROUNDS as nat,
            ),
            stable ==> rounds < MAX_ROUNDS && round(lang, cur@) == cur@,
        decreases MAX_ROUNDS - rounds + if stable {
            0int
        } else {
            1int
        },
    {
        let next = run_round(lang, &cur);
        if same_chars(&next, &cur) {
            stable = true;
        } else {
            cur = next;
            rounds += 1;
        }
    }
    correct_minor_space(&cur)
}

/// Normalizes every line of `content` on its own and writes the results one
/// after the other; see [`normalized`].
pub fn normalize(content: &str) -> (r: String)
    ensures
        r@ == normalized(content@),
{
    let chars = chars_of(content);
    let ghost s = chars@;
    let mut ret: Vec<char> = Vec::new();
    let mut start: usize = 0;
    let mut i: usize = 0;
    while i < chars.len()
        invariant
            start <= i <= chars.len(),
            s == chars@,
            ret@ + normalized_from(s, start as int, i as int) == normalized(s),
        decreases chars.len() - i,
    {
        if chars[i] == '\n' {
            let line = slice_of(&chars, start, i);
            let done = normalize_line(&line);
            let ghost before = ret@;
            let mut k: usize = 0;
            while k < done.len()
                invariant
                    k <= done.len(),
                    ret@ == before + done@.subrange(0, k as int),
                decreases done.len() - k,
            {
                ret.push(done[k]);
                assert(done@.subrange(0, k + 1) =~= done@.subrange(0, k as int).push(
                    done@[k as int],
                ));
                k += 1;
            }
            assert(done@.subrange(0, k as int) =~= done@);
            assert(ret@ + normalized_from(s, i + 1, i + 1) =~= normalized(s));
            start = i + 1;
        }
        i += 1;
    }
    if start < chars.len() {
        let line = slice_of(&chars, start, chars.len());
        let done = normalize_line(&line);
        let ghost before = ret@;
        let mut k: usize = 0;
        while k < done.len()
            invariant
                k <= done.len(),
                ret@ == before + done@.subrange(0, k as int),
            decreases done.len() - k,
        {
            ret.push(done[k]);
            assert(done@.subrange(0, k + 1) =~= done@.subrange(0, k as int).push(
                done@[k as int],
            ));
            k += 1;
        }
        assert(done@.subrange(0, k as int) =~= done@);
    }
    assert(ret@ =~= normalized(s));
    string_of(&ret)
}

/// The characters `chars[lo..hi]`.
fn slice_of(chars: &Vec<char>, lo: usize, hi: usize) -> (r: Vec<char>)
    requires
        lo <= hi <= chars.len(),
    ensures
        r@ == chars@.subrange(lo as int, hi as int),
{
    let mut ret: Vec<char> = Vec::new();
    let mut k: usize = lo;
    while k < hi
        invariant
            lo <= k <= hi <= chars.len(),
            ret@ == chars@.subrange(lo as int, k as int),
        decreases hi - k,
    {
        ret.push(chars[k]);
        assert(chars@.subrange(lo as int, k + 1) =~= chars@.subrange(lo as int, k as int).push(
            chars@[k as int],
        ));
        k += 1;
    }
    ret
}

/// An empty line normalizes to nothing.
pub proof fn lemma_empty_line()
    ensures
        normalized_line(seq![]) == Seq::<char>::empty(),
{
    let e = Seq::<char>::empty();
    assert(squeezed(e) == e);
    assert(folded(e) == e);
    assert(spaced(e) == e);
    assert(localized(Lang::Zh, e) == e);
    assert(zh_quoted(e) == e);
    assert(collapsed(Lang::Zh, e) == e);
    assert(round(Lang::Zh, e) == e);
    assert(settled(Lang::Zh, e, MAX_ROUNDS as nat) == e);
    assert(minor_spaced(e) =~= e);
}

/// Scanning over characters that are no line feed leaves the result alone.
proof fn lemma_scan_within_line(s: Seq<char>, start: int, i: int, k: int)
    requires
        0 <= i <= k <= s.len(),
        forall|m: int| i <= m < k ==> s[m] != '\n',
    ensures
        normalized_from(s, start, i) == normalized_from(s, start, k),
    decreases k - i,
{
    if i < k {
        lemma_scan_within_line(s, start, i + 1, k);
    }
}

/// Scanning the text after a line feed is scanning that text on its own.
proof fn lemma_scan_shifted(t: Seq<char>, b: Seq<char>, off: int, start: int, i: int)
    requires
        0 <= off,
        t.len() == off + b.len(),
        forall|m: int| 0 <= m < b.len() ==> t[off + m] == b[m],
        0 <= start <= i <= b.len(),
    ensures
        normalized_from(t, off + start, off + i) == normalized_from(b, start, i),
    decreases b.len() - i,
{
    if i < b.len() {
        assert(t[off + i] == b[i]);
        if b[i] == '\n' {
            assert(t.subrange(off + start, off + i) =~= b.subrange(start, i));
            lemma_scan_shifted(t, b, off, i + 1, i + 1);
        } else {
            lemma_scan_shifted(t, b, off, start, i + 1);
        }
    } else if start < b.len() {
        assert(t.subrange(off + start, t.len() as int) =~= b.subrange(start, b.len() as int));
    }
}

/// Lines are normalized independently: normalizing a line, a line feed and
/// the rest of a text gives the normalized line followed by the normalized
/// rest.
pub proof fn lemma_lines_independent(a: Seq<char>, b: Seq<char>)
    requires
        !a.contains('\n'),
    ensures
        normalized(a + seq!['\n'] + b) == normalized(a) + normalized(b),
{
    let t = a + seq!['\n'] + b;
    let n = a.len() as int;
    assert forall|m: int| 0 <= m < n implies t[m] != '\n' by {
        assert(t[m] == a[m]);
        if a[m] == '\n' {
            assert(a.contains('\n'));
        }
    }
    lemma_scan_within_line(t, 0, 0, n);
    assert(t[n] == '\n');
    assert(t.subrange(0, n) =~= a);
    assert(normalized_from(t, 0, n) == normalized_line(a) + normalized_from(t, n + 1, n + 1));
    lemma_scan_shifted(t, b, n + 1, 0, 0);
    assert forall|m: int| 0 <= m < n implies a[m] != '\n' by {
        if a[m] == '\n' {
            assert(a.contains('\n'));
        }
    }
    lemma_scan_within_line(a, 0, 0, n);
    if n == 0 {
        lemma_empty_line();
    } else {
        assert(a.subrange(0, n) =~= a);
    }
}

} // verus!
