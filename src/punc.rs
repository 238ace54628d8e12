use crate::lang::{is_script_char, script_char, Lang};
use vstd::prelude::*;

verus! {

/// An ASCII whitespace character: space, tab, line feed, form feed or
/// carriage return.
pub open spec fn ascii_space(c: char) -> bool {
    c == ' ' || c == '\t' || c == '\n' || c == '\x0C' || c == '\r'
}

/// A character of the script of `lang` stands right before `i`, or one
/// whitespace character before that.
pub open spec fn near_before(lang: Lang, s: Seq<char>, i: int) -> bool {
    &&& i > 0
    &&& (script_char(lang, s[i - 1]) || (ascii_space(s[i - 1]) && i > 1 && script_char(
        lang,
        s[i - 2],
    )))
}

/// A character of the script of `lang` stands right after `i`, or one
/// whitespace character after that.
pub open spec fn near_after(lang: Lang, s: Seq<char>, i: int) -> bool {
    &&& i + 1 < s.len()
    &&& (script_char(lang, s[i + 1]) || (ascii_space(s[i + 1]) && i + 2 < s.len() && script_char(
        lang,
        s[i + 2],
    )))
}

/// The sentence mark of the script of `lang` that stands for the sentence
/// mark `c` of the other script; `None` where `c` is no such mark.
pub open spec fn native_end_punc(lang: Lang, c: char) -> Option<char> {
    match lang {
        Lang::Zh => if c == ',' {
            Some('，')
        } else if c == '.' {
            Some('。')
        } else if c == '?' {
            Some('？')
        } else if c == '!' {
            Some('！')
        } else if c == ':' {
            Some('：')
        } else if c == ';' {
            Some('；')
        } else {
            None
        },
        Lang::En => if c == '，' {
            Some(',')
        } else if c == '。' {
            Some('.')
        } else if c == '？' {
            Some('?')
        } else if c == '！' {
            Some('!')
        } else if c == '：' {
            Some(':')
        } else if c == '；' {
            Some(';')
        } else {
            None
        },
    }
}

/// The opening parenthesis of the script of `lang`.
pub open spec fn native_open(lang: Lang) -> char {
    match lang {
        Lang::Zh => '（',
        Lang::En => '(',
    }
}

/// The closing parenthesis of the script of `lang`.
pub open spec fn native_close(lang: Lang) -> char {
    match lang {
        Lang::Zh => '）',
        Lang::En => ')',
    }
}

/// The opening parenthesis of the other script.
pub open spec fn foreign_open(lang: Lang) -> char {
    match lang {
        Lang::Zh => '(',
        Lang::En => '（',
    }
}

/// The closing parenthesis of the other script.
pub open spec fn foreign_close(lang: Lang) -> char {
    match lang {
        Lang::Zh => ')',
        Lang::En => '）',
    }
}

/// An opening parenthesis of either script.
pub open spec fn open_paren(c: char) -> bool {
    c == '(' || c == '（'
}

/// A closing parenthesis of either script.
pub open spec fn close_paren(c: char) -> bool {
    c == ')' || c == '）'
}

/// Scanning forward from `j` with `depth` parentheses still open, the index
/// of the closing parenthesis that closes the scan, if any.
pub open spec fn match_forward(s: Seq<char>, j: int, depth: nat) -> Option<int>
    decreases s.len() - j,
{
    if j < 0 || j >= s.len() {
        None
    } else if close_paren(s[j]) {
        if depth == 0 {
            Some(j)
        } else {
            match_forward(s, j + 1, (depth - 1) as nat)
        }
    } else if open_paren(s[j]) {
        match_forward(s, j + 1, depth + 1)
    } else {
        match_forward(s, j + 1, depth)
    }
}

/// Scanning backward from `j` with `depth` parentheses still closed, the
/// index of the opening parenthesis that closes the scan, if any.
pub open spec fn match_backward(s: Seq<char>, j: int, depth: nat) -> Option<int>
    decreases j + 1,
{
    if j < 0 || j >= s.len() {
        None
    } else if open_paren(s[j]) {
        if depth == 0 {
            Some(j)
        } else {
            match_backward(s, j - 1, (depth - 1) as nat)
        }
    } else if close_paren(s[j]) {
        match_backward(s, j - 1, depth + 1)
    } else {
        match_backward(s, j - 1, depth)
    }
}

/// The text after the parenthesis at `i` has been turned into the native one
/// of `lang`, and after its partner, if still foreign, has been turned too.
pub open spec fn pair_partner(lang: Lang, s: Seq<char>, i: int) -> Seq<char> {
    if s[i] == native_open(lang) {
        let m = match_forward(s, i + 1, 0);
        if m is Some && s[m->0] == foreign_close(lang) {
            s.update(m->0, native_close(lang))
        } else {
            s
        }
    } else if s[i] == native_close(lang) {
        let m = match_backward(s, i - 1, 0);
        if m is Some && s[m->0] == foreign_open(lang) {
            s.update(m->0, native_open(lang))
        } else {
            s
        }
    } else {
        s
    }
}

/// One step of localization, at index `i` of the text as earlier steps left
/// it.
pub open spec fn punc_step(lang: Lang, s: Seq<char>, i: int) -> Seq<char> {
    let c = s[i];
    if native_end_punc(lang, c) is Some && near_before(lang, s, i) {
        s.update(i, native_end_punc(lang, c)->0)
    } else {
        let s1 = if c == foreign_open(lang) && near_before(lang, s, i) {
            s.update(i, native_open(lang))
        } else if c == foreign_close(lang) && near_after(lang, s, i) {
            s.update(i, native_close(lang))
        } else {
            s
        };
        pair_partner(lang, s1, i)
    }
}

/// The text after the steps at indices `0..n`.
pub open spec fn punc_upto(lang: Lang, s: Seq<char>, n: int) -> Seq<char>
    decreases n,
{
    if n <= 0 {
        s
    } else {
        punc_step(lang, punc_upto(lang, s, n - 1), n - 1)
    }
}

/// `s` with its sentence marks and parentheses localized to the script of
/// `lang` wherever they border that script.
pub open spec fn localized(lang: Lang, s: Seq<char>) -> Seq<char> {
    punc_upto(lang, s, s.len() as int)
}

proof fn lemma_match_forward_in(s: Seq<char>, j: int, depth: nat)
    ensures
        match_forward(s, j, depth) is Some ==> j <= match_forward(s, j, depth)->0 < s.len(),
    decreases s.len() - j,
{
    if 0 <= j < s.len() {
        if close_paren(s[j]) {
            if depth > 0 {
                lemma_match_forward_in(s, j + 1, (depth - 1) as nat);
            }
        } else if open_paren(s[j]) {
            lemma_match_forward_in(s, j + 1, depth + 1);
        } else {
            lemma_match_forward_in(s, j + 1, depth);
        }
    }
}

proof fn lemma_match_backward_in(s: Seq<char>, j: int, depth: nat)
    ensures
        match_backward(s, j, depth) is Some ==> 0 <= match_backward(s, j, depth)->0 <= j,
    decreases j + 1,
{
    if 0 <= j < s.len() {
        if open_paren(s[j]) {
            if depth > 0 {
                lemma_match_backward_in(s, j - 1, (depth - 1) as nat);
            }
        } else if close_paren(s[j]) {
            lemma_match_backward_in(s, j - 1, depth + 1);
        } else {
            lemma_match_backward_in(s, j - 1, depth);
        }
    }
}

/// Whether a character of the script of `lang` stands before `idx`, right
/// there or past one whitespace character.
pub fn detect_forward(lang: Lang, slices: &Vec<char>, idx: usize) -> (r: bool)
    requires
        idx < slices.len(),
    ensures
        r == near_before(lang, slices@, idx as int),
{
    if idx == 0 {
        return false;
    }
    if is_script_char(lang, slices[idx - 1]) {
        return true;
    }
    if !is_ascii_space(slices[idx - 1]) {
        return false;
    }
    if idx == 1 {
        return false;
    }
    is_script_char(lang, slices[idx - 2])
}

/// Whether a character of the script of `lang` stands after `idx`, right
/// there or past one whitespace character.
pub fn detect_backward(lang: Lang, slices: &Vec<char>, idx: usize) -> (r: bool)
    requires
        idx < slices.len(),
    ensures
        r == near_after(lang, slices@, idx as int),
{
    if idx == slices.len() - 1 {
        return false;
    }
    if is_script_char(lang, slices[idx + 1]) {
        return true;
    }
    if !is_ascii_space(slices[idx + 1]) {
        return false;
    }
    if idx == slices.len() - 2 {
        return false;
    }
    is_script_char(lang, slices[idx + 2])
}

/// Tests [`ascii_space`].
pub fn is_ascii_space(c: char) -> (r: bool)
    ensures
        r == ascii_space(c),
{
    c == ' ' || c == '\t' || c == '\n' || c == '\x0C' || c == '\r'
}

fn native_end_punc_of(lang: Lang, c: char) -> (r: Option<char>)
    ensures
        r == native_end_punc(lang, c),
{
    match lang {
        Lang::Zh => if c == ',' {
            Some('，')
        } else if c == '.' {
            Some('。')
        } else if c == '?' {
            Some('？')
        } else if c == '!' {
            Some('！')
        } else if c == ':' {
            Some('：')
        } else if c == ';' {
            Some('；')
        } else {
            None
        },
        Lang::En => if c == '，' {
            Some(',')
        } else if c == '。' {
            Some('.')
        } else if c == '？' {
            Some('?')
        } else if c == '！' {
            Some('!')
        } else if c == '：' {
            Some(':')
        } else if c == '；' {
            Some(';')
        } else {
            None
        },
    }
}

fn brackets_of(lang: Lang) -> (r: (char, char, char, char))
    ensures
        r == (native_open(lang), native_close(lang), foreign_open(lang), foreign_close(lang)),
{
    match lang {
        Lang::Zh => ('（', '）', '(', ')'),
        Lang::En => ('(', ')', '（', '）'),
    }
}

fn is_open_paren(c: char) -> (r: bool)
    ensures
        r == open_paren(c),
{
    c == '(' || c == '（'
}

fn is_close_paren(c: char) -> (r: bool)
    ensures
        r == close_paren(c),
{
    c == ')' || c == '）'
}

/// The closing parenthesis that matches an opening one just before `start`.
fn find_close(chars: &Vec<char>, start: usize) -> (r: Option<usize>)
    requires
        start <= chars.len(),
    ensures
        r is Some ==> start <= r->0 < chars.len(),
        match_forward(chars@, start as int, 0) == (match r {
            Some(j) => Some(j as int),
            None => None::<int>,
        }),
{
    let mut j: usize = start;
    let mut depth: usize = 0;
    while j < chars.len()
        invariant
            start <= j <= chars.len(),
            depth <= j - start,
            match_forward(chars@, start as int, 0) == match_forward(
                chars@,
                j as int,
                depth as nat,
            ),
        decreases chars.len() - j,
    {
        proof {
            lemma_match_forward_in(chars@, j as int, depth as nat);
        }
        if is_close_paren(chars[j]) {
            if depth == 0 {
                return Some(j);
            } else {
                depth -= 1;
            }
        } else if is_open_paren(chars[j]) {
            depth += 1;
        }
        j += 1;
    }
    None
}

/// The opening parenthesis that matches a closing one just after `start`.
fn find_open(chars: &Vec<char>, start: usize) -> (r: Option<usize>)
    requires
        start < chars.len(),
    ensures
        r is Some ==> r->0 <= start,
        match_backward(chars@, start as int, 0) == (match r {
            Some(j) => Some(j as int),
            None => None::<int>,
        }),
{
    let mut j: usize = start + 1;
    let mut depth: usize = 0;
    while j > 0
        invariant
            j <= start + 1,
            depth <= start + 1 - j,
            start < chars.len(),
            match_backward(chars@, start as int, 0) == match_backward(
                chars@,
                j - 1,
                depth as nat,
            ),
        decreases j,
    {
        proof {
            lemma_match_backward_in(chars@, j - 1, depth as nat);
        }
        let k = j - 1;
        if is_open_paren(chars[k]) {
            if depth == 0 {
                return Some(k);
            } else {
                depth -= 1;
            }
        } else if is_close_paren(chars[k]) {
            depth += 1;
        }
        j -= 1;
    }
    None
}

/// Sentence marks and parentheses of the other script turned into those of
/// `lang` where they border text of `lang`; a parenthesis turned takes its
/// matching partner along.
fn localize_punc(lang: Lang, content: Vec<char>) -> (r: Vec<char>)
    ensures
        r@ == localized(lang, content@),
{
    let mut chars = content;
    let ghost s0 = chars@;
    let (n_open, n_close, f_open, f_close) = brackets_of(lang);
    let mut i: usize = 0;
    while i < chars.len()
        invariant
            chars.len() == s0.len(),
            chars@ == punc_upto(lang, s0, i as int),
            i <= chars.len(),
            n_open == native_open(lang),
            n_close == native_close(lang),
            f_open == foreign_open(lang),
            f_close == foreign_close(lang),
        decreases chars.len() - i,
    {
        let ghost before = chars@;
        let c = chars[i];
        let native = native_end_punc_of(lang, c);
        let near = detect_forward(lang, &chars, i);
        if native.is_some() && near {
            chars.set(i, native.unwrap());
        } else {
            if c == f_open && near {
                chars.set(i, n_open);
            } else if c == f_close && detect_backward(lang, &chars, i) {
                chars.set(i, n_close);
            }
            if chars[i] == n_open {
                match find_close(&chars, i + 1) {
                    Some(j) => {
                        if chars[j] == f_close {
                            chars.set(j, n_close);
                        }
                    },
                    None => {},
                }
            } else if chars[i] == n_close && i > 0 {
                match find_open(&chars, i - 1) {
                    Some(j) => {
                        if chars[j] == f_open {
                            chars.set(j, n_open);
                        }
                    },
                    None => {},
                }
            }
        }
        assert(chars@ == punc_step(lang, before, i as int));
        i += 1;
    }
    chars
}

/// Localizes sentence marks and parentheses to Chinese where they border
/// Chinese text.
pub fn correct_punc_zh(content: Vec<char>) -> (r: Vec<char>)
    ensures
        r@ == localized(Lang::Zh, content@),
{
    localize_punc(Lang::Zh, content)
}

/// Localizes sentence marks and parentheses to Latin where they border Latin
/// text.
pub fn correct_punc_en(content: Vec<char>) -> (r: Vec<char>)
    ensures
        r@ == localized(Lang::En, content@),
{
    localize_punc(Lang::En, content)
}

} // verus!
