use crate::lang::Lang;
use vstd::prelude::*;

verus! {

/// A character that counts toward an ellipsis.
pub open spec fn ellipsis_char(c: char) -> bool {
    c == '.' || c == '。' || c == '·' || c == '…'
}

/// How much `c` counts toward an ellipsis: three dots for the ellipsis glyph,
/// one for the others.
pub open spec fn ellipsis_weight(c: char) -> nat {
    if c == '…' {
        3
    } else {
        1
    }
}

/// The weight that makes a run an ellipsis.
pub const ELLIPSIS_THRESHOLD: u64 = 3;

/// The weight of a run, counted up to the threshold.
pub open spec fn add_weight(w: nat, c: char) -> nat {
    if w + ellipsis_weight(c) >= ELLIPSIS_THRESHOLD {
        ELLIPSIS_THRESHOLD as nat
    } else {
        w + ellipsis_weight(c)
    }
}

/// The canonical ellipsis of `lang`.
pub open spec fn canonical_ellipsis(lang: Lang) -> Seq<char> {
    match lang {
        Lang::Zh => seq!['…', '…'],
        Lang::En => seq!['.', '.', '.'],
    }
}

/// The collapsed form of `s` from index `i` on.
pub open spec fn collapse_from(lang: Lang, s: Seq<char>, i: int) -> Seq<char>
    decreases s.len() - i, 1int,
{
    if i < 0 || i >= s.len() {
        seq![]
    } else if !ellipsis_char(s[i]) {
        seq![s[i]] + collapse_from(lang, s, i + 1)
    } else {
        run_from(lang, s, i, i, 0)
    }
}

/// The collapsed form of `s` from the run that starts at `start`, scanned up
/// to `j` with weight `w`: a run that weighs at least the threshold becomes
/// the canonical ellipsis, a lighter one stays as it is.
pub open spec fn run_from(lang: Lang, s: Seq<char>, start: int, j: int, w: nat) -> Seq<char>
    decreases s.len() - j, 0int,
{
    if 0 <= j < s.len() && ellipsis_char(s[j]) {
        run_from(lang, s, start, j + 1, add_weight(w, s[j]))
    } else {
        let end = if j < 0 {
            0
        } else if j > s.len() {
            s.len() as int
        } else {
            j
        };
        let head = if w >= ELLIPSIS_THRESHOLD {
            canonical_ellipsis(lang)
        } else {
            s.subrange(if start < 0 { 0 } else if start > end { end } else { start }, end)
        };
        if 0 <= j < s.len() {
            head + seq![s[j]] + collapse_from(lang, s, j + 1)
        } else {
            head
        }
    }
}

/// `s` with every maximal run of ellipsis characters that weighs at least the
/// threshold replaced by the canonical ellipsis of `lang`.
pub open spec fn collapsed(lang: Lang, s: Seq<char>) -> Seq<char> {
    collapse_from(lang, s, 0)
}

proof fn lemma_period_after_from(lang: Lang, s: Seq<char>, i: int)
    requires
        0 <= i <= s.len(),
        s.len() == 0 || !ellipsis_char(s.last()),
    ensures
        collapse_from(lang, s.push('.'), i) == collapse_from(lang, s, i) + seq!['.'],
    decreases s.len() - i, 1int,
{
    let t = s.push('.');
    if i == s.len() {
        assert(t[i] == '.');
        assert(add_weight(0, '.') == 1);
        assert(collapse_from(lang, t, i) == run_from(lang, t, i, i, 0));
        assert(run_from(lang, t, i, i, 0) == run_from(lang, t, i, i + 1, 1));
        assert(t.subrange(i, i + 1) =~= seq!['.']);
        assert(run_from(lang, t, i, i + 1, 1) == seq!['.']);
        assert(collapse_from(lang, s, i) =~= seq![]);
        assert(collapse_from(lang, t, i) =~= collapse_from(lang, s, i) + seq!['.']);
    } else if !ellipsis_char(s[i]) {
        lemma_period_after_from(lang, s, i + 1);
        assert(collapse_from(lang, t, i) =~= collapse_from(lang, s, i) + seq!['.']);
    } else {
        lemma_period_after_run(lang, s, i, i, 0);
    }
}

proof fn lemma_period_after_run(lang: Lang, s: Seq<char>, start: int, j: int, w: nat)
    requires
        0 <= start <= j < s.len(),
        !ellipsis_char(s.last()),
    ensures
        run_from(lang, s.push('.'), start, j, w) == run_from(lang, s, start, j, w) + seq!['.'],
    decreases s.len() - j, 0int,
{
    let t = s.push('.');
    assert(t[j] == s[j]);
    if ellipsis_char(s[j]) {
        lemma_period_after_run(lang, s, start, j + 1, add_weight(w, s[j]));
    } else {
        lemma_period_after_from(lang, s, j + 1);
        assert(t.subrange(start, j) =~= s.subrange(start, j));
        assert(run_from(lang, t, start, j, w) =~= run_from(lang, s, start, j, w) + seq!['.']);
    }
}

/// A period that follows no other ellipsis character is kept as it is: the
/// period that ends a sentence survives.
pub proof fn lemma_lone_period_kept(lang: Lang, s: Seq<char>)
    requires
        s.len() == 0 || !ellipsis_char(s.last()),
    ensures
        collapsed(lang, s.push('.')) == collapsed(lang, s) + seq!['.'],
{
    lemma_period_after_from(lang, s, 0);
}

fn is_ellipsis_char(c: char) -> (r: bool)
    ensures
        r == ellipsis_char(c),
{
    c == '.' || c == '。' || c == '·' || c == '…'
}

/// Replaces each run of ellipsis characters that weighs at least the
/// threshold with the canonical ellipsis of `lang`.
pub fn correct_ellipsis(chars: &Vec<char>, lang: Lang) -> (r: Vec<char>)
    ensures
        r@ == collapsed(lang, chars@),
{
    let ghost s = chars@;
    let mut ret: Vec<char> = Vec::new();
    let mut i: usize = 0;
    while i < chars.len()
        invariant
            i <= chars.len(),
            s == chars@,
            ret@ + collapse_from(lang, s, i as int) == collapsed(lang, s),
        decreases chars.len() - i,
    {
        let c = chars[i];
        if !is_ellipsis_char(c) {
            ret.push(c);
            assert(collapse_from(lang, s, i as int) == seq![c] + collapse_from(
                lang,
                s,
                i + 1,
            ));
            assert(ret@ + collapse_from(lang, s, i + 1) =~= collapsed(lang, s));
            i += 1;
        } else {
            let mut j: usize = i;
            let mut w: u64 = 0;
            while j < chars.len() && is_ellipsis_char(chars[j])
                invariant
                    i <= j <= chars.len(),
                    s == chars@,
                    w <= ELLIPSIS_THRESHOLD,
                    forall|k: int| i <= k < j ==> ellipsis_char(s[k]),
                    run_from(lang, s, i as int, j as int, w as nat) == collapse_from(
                        lang,
                        s,
                        i as int,
                    ),
                decreases chars.len() - j,
            {
                let add: u64 = if chars[j] == '…' {
                    3
                } else {
                    1
                };
                w = if w + add >= ELLIPSIS_THRESHOLD {
                    ELLIPSIS_THRESHOLD
                } else {
                    w + add
                };
                j += 1;
            }
            let ghost before = ret@;
            if w >= ELLIPSIS_THRESHOLD {
                match lang {
                    Lang::Zh => {
                        ret.push('…');
                        ret.push('…');
                    },
                    Lang::En => {
                        ret.push('.');
                        ret.push('.');
                        ret.push('.');
                    },
                }
            } else {
                let mut k: usize = i;
                while k < j
                    invariant
                        i <= k <= j <= chars.len(),
                        s == chars@,
                        ret@ == before + s.subrange(i as int, k as int),
                    decreases j - k,
                {
                    ret.push(chars[k]);
                    assert(s.subrange(i as int, k + 1) =~= s.subrange(i as int, k as int).push(
                        s[k as int],
                    ));
                    k += 1;
                }
            }
            let ghost head = if w >= ELLIPSIS_THRESHOLD {
                canonical_ellipsis(lang)
            } else {
                s.subrange(i as int, j as int)
            };
            assert(ret@ =~= before + head);
            if j < chars.len() {
                ret.push(chars[j]);
                assert(collapse_from(lang, s, i as int) == head + seq![s[j as int]]
                    + collapse_from(lang, s, j + 1));
                assert(ret@ + collapse_from(lang, s, j + 1) =~= collapsed(lang, s));
                i = j + 1;
            } else {
                assert(collapse_from(lang, s, i as int) == head);
                assert(collapse_from(lang, s, j as int) =~= seq![]);
                assert(ret@ + collapse_from(lang, s, j as int) =~= collapsed(lang, s));
                i = j;
            }
        }
    }
    assert(collapse_from(lang, s, i as int) =~= seq![]);
    assert(ret@ =~= ret@ + collapse_from(lang, s, i as int));
    ret
}

} // verus!
