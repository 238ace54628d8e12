use vstd::prelude::*;

verus! {

/// A double quote of either script: the straight one or a curly one.
pub open spec fn double_quote(c: char) -> bool {
    c == '"' || c == '“' || c == '”'
}

/// A curly single quote.
pub open spec fn single_quote(c: char) -> bool {
    c == '‘' || c == '’'
}

/// The number of double quotes among the first `n` characters of `s`.
pub open spec fn count_double(s: Seq<char>, n: int) -> nat
    decreases n,
{
    if n <= 0 {
        0
    } else {
        count_double(s, n - 1) + if double_quote(s[n - 1]) {
            1nat
        } else {
            0nat
        }
    }
}

/// The number of curly single quotes among the first `n` characters of `s`.
pub open spec fn count_single(s: Seq<char>, n: int) -> nat
    decreases n,
{
    if n <= 0 {
        0
    } else {
        count_single(s, n - 1) + if single_quote(s[n - 1]) {
            1nat
        } else {
            0nat
        }
    }
}

/// A quote at `i` of `s` that the Chinese pass rewrites.
pub open spec fn quote_at(s: Seq<char>, i: int) -> bool {
    0 <= i < s.len() && (double_quote(s[i]) || single_quote(s[i]))
}

/// What the Chinese quote pass writes for index `i` of `s`: quotes of a
/// family alternate between opening and closing, and a space next to a quote
/// is dropped.
pub open spec fn zh_quote_piece(s: Seq<char>, i: int) -> Seq<char> {
    let c = s[i];
    if double_quote(c) {
        if count_double(s, i) % 2 == 0 {
            seq!['“']
        } else {
            seq!['”']
        }
    } else if single_quote(c) {
        if count_single(s, i) % 2 == 0 {
            seq!['‘']
        } else {
            seq!['’']
        }
    } else if c == ' ' && (quote_at(s, i - 1) || quote_at(s, i + 1)) {
        seq![]
    } else {
        seq![c]
    }
}

/// What the Chinese quote pass writes for the indices `0..n`.
pub open spec fn zh_quoted_upto(s: Seq<char>, n: int) -> Seq<char>
    decreases n,
{
    if n <= 0 {
        seq![]
    } else {
        zh_quoted_upto(s, n - 1) + zh_quote_piece(s, n - 1)
    }
}

/// `s` with its quotes in curly, paired Chinese form that hugs the quoted
/// text.
pub open spec fn zh_quoted(s: Seq<char>) -> Seq<char> {
    zh_quoted_upto(s, s.len() as int)
}

/// What the Latin quote pass has written, whether a double quote is open,
/// and whether a space that follows is to be dropped.
pub open spec fn en_quote_step(st: (Seq<char>, bool, bool), s: Seq<char>, i: int) -> (
    Seq<char>,
    bool,
    bool,
) {
    let out = st.0;
    let c = s[i];
    if double_quote(c) {
        if !st.1 {
            let spaced = if out.len() > 0 && out.last() != ' ' {
                out.push(' ')
            } else {
                out
            };
            (spaced.push('"'), true, true)
        } else {
            let trimmed = if out.len() > 0 && out.last() == ' ' {
                out.drop_last()
            } else {
                out
            };
            let closed = trimmed.push('"');
            (
                if i + 1 < s.len() && s[i + 1] != ' ' {
                    closed.push(' ')
                } else {
                    closed
                },
                false,
                false,
            )
        }
    } else if st.2 && c == ' ' {
        (out, st.1, false)
    } else if single_quote(c) {
        (out.push('\''), st.1, false)
    } else {
        (out.push(c), st.1, false)
    }
}

/// The state of the Latin quote pass after the indices `0..n`.
pub open spec fn en_quoted_upto(s: Seq<char>, n: int) -> (Seq<char>, bool, bool)
    decreases n,
{
    if n <= 0 {
        (seq![], false, false)
    } else {
        en_quote_step(en_quoted_upto(s, n - 1), s, n - 1)
    }
}

/// `s` with its double quotes straight and paired, one space outside each
/// pair and none inside, and its curly single quotes straight.
pub open spec fn en_quoted(s: Seq<char>) -> Seq<char> {
    en_quoted_upto(s, s.len() as int).0
}

fn is_double_quote(c: char) -> (r: bool)
    ensures
        r == double_quote(c),
{
    c == '"' || c == '“' || c == '”'
}

fn is_single_quote(c: char) -> (r: bool)
    ensures
        r == single_quote(c),
{
    c == '‘' || c == '’'
}

/// Pairs quotes into curly Chinese quotes and drops the spaces next to them.
pub fn correct_quote_zh(chars: &Vec<char>) -> (r: Vec<char>)
    ensures
        r@ == zh_quoted(chars@),
{
    let mut ret: Vec<char> = Vec::new();
    let mut double_open = false;
    let mut single_open = false;
    let mut i: usize = 0;
    while i < chars.len()
        invariant
            i <= chars.len(),
            ret@ == zh_quoted_upto(chars@, i as int),
            double_open == (count_double(chars@, i as int) % 2 == 1),
            single_open == (count_single(chars@, i as int) % 2 == 1),
        decreases chars.len() - i,
    {
        let c = chars[i];
        if is_double_quote(c) {
            ret.push(
                if double_open {
                    '”'
                } else {
                    '“'
                },
            );
            double_open = !double_open;
        } else if is_single_quote(c) {
            ret.push(
                if single_open {
                    '’'
                } else {
                    '‘'
                },
            );
            single_open = !single_open;
        } else if c == ' ' && ((i > 0 && (is_double_quote(chars[i - 1]) || is_single_quote(
            chars[i - 1],
        ))) || (i + 1 < chars.len() && (is_double_quote(chars[i + 1]) || is_single_quote(
            chars[i + 1],
        )))) {
        } else {
            ret.push(c);
        }
        assert(ret@ =~= zh_quoted_upto(chars@, i as int) + zh_quote_piece(chars@, i as int));
        i += 1;
    }
    ret
}

/// Makes double quotes straight and paired, with one space outside each pair
/// and none inside, and makes curly single quotes straight.
pub fn correct_quote_en(chars: &Vec<char>) -> (r: Vec<char>)
    ensures
        r@ == en_quoted(chars@),
{
    let mut ret: Vec<char> = Vec::new();
    let mut open = false;
    let mut skip = false;
    let mut i: usize = 0;
    while i < chars.len()
        invariant
            i <= chars.len(),
            (ret@, open, skip) == en_quoted_upto(chars@, i as int),
        decreases chars.len() - i,
    {
        let c = chars[i];
        if is_double_quote(c) {
            if !open {
                if ret.len() > 0 && ret[ret.len() - 1] != ' ' {
                    ret.push(' ');
                }
                ret.push('"');
                open = true;
                skip = true;
            } else {
                if ret.len() > 0 && ret[ret.len() - 1] == ' ' {
                    ret.pop();
                }
                ret.push('"');
                if i + 1 < chars.len() && chars[i + 1] != ' ' {
                    ret.push(' ');
                }
                open = false;
                skip = false;
            }
        } else if skip && c == ' ' {
            skip = false;
        } else {
            ret.push(
                if is_single_quote(c) {
                    '\''
                } else {
                    c
                },
            );
            skip = false;
        }
        assert(ret@ =~= en_quote_step(en_quoted_upto(chars@, i as int), chars@, i as int).0);
        i += 1;
    }
    ret
}

} // verus!
