use crate::text::chars_of;
use vstd::prelude::*;

verus! {

/// The half-width form of the full-width character `c`: digits, Latin
/// letters and a set of symbols fold to ASCII, the full-width full stop to a
/// period and a space; any other character stays as it is.
pub open spec fn fold_char(c: char) -> Seq<char> {
    match c {
        '０' => seq!['0'],
        '１' => seq!['1'],
        '２' => seq!['2'],
        '３' => seq!['3'],
        '４' => seq!['4'],
        '５' => seq!['5'],
        '６' => seq!['6'],
        '７' => seq!['7'],
        '８' => seq!['8'],
        '９' => seq!['9'],
        'Ａ' => seq!['A'],
        'Ｂ' => seq!['B'],
        'Ｃ' => seq!['C'],
        'Ｄ' => seq!['D'],
        'Ｅ' => seq!['E'],
        'Ｆ' => seq!['F'],
        'Ｇ' => seq!['G'],
        'Ｈ' => seq!['H'],
        'Ｉ' => seq!['I'],
        'Ｊ' => seq!['J'],
        'Ｋ' => seq!['K'],
        'Ｌ' => seq!['L'],
        'Ｍ' => seq!['M'],
        'Ｎ' => seq!['N'],
        'Ｏ' => seq!['O'],
        'Ｐ' => seq!['P'],
        'Ｑ' => seq!['Q'],
        'Ｒ' => seq!['R'],
        'Ｓ' => seq!['S'],
        'Ｔ' => seq!['T'],
        'Ｕ' => seq!['U'],
        'Ｖ' => seq!['V'],
        'Ｗ' => seq!['W'],
        'Ｘ' => seq!['X'],
        'Ｙ' => seq!['Y'],
        'Ｚ' => seq!['Z'],
        'ａ' => seq!['a'],
        'ｂ' => seq!['b'],
        'ｃ' => seq!['c'],
        'ｄ' => seq!['d'],
        'ｅ' => seq!['e'],
        'ｆ' => seq!['f'],
        'ｇ' => seq!['g'],
        'ｈ' => seq!['h'],
        'ｉ' => seq!['i'],
        'ｊ' => seq!['j'],
        'ｋ' => seq!['k'],
        'ｌ' => seq!['l'],
        'ｍ' => seq!['m'],
        'ｎ' => seq!['n'],
        'ｏ' => seq!['o'],
        'ｐ' => seq!['p'],
        'ｑ' => seq!['q'],
        'ｒ' => seq!['r'],
        'ｓ' => seq!['s'],
        'ｔ' => seq!['t'],
        'ｕ' => seq!['u'],
        'ｖ' => seq!['v'],
        'ｗ' => seq!['w'],
        'ｘ' => seq!['x'],
        'ｙ' => seq!['y'],
        'ｚ' => seq!['z'],
        '－' => seq!['-'],
        '／' => seq!['/'],
        '．' => seq!['.', ' '],
        '％' => seq!['%'],
        '＃' => seq!['#'],
        '＠' => seq!['@'],
        '＆' => seq!['&'],
        '＜' => seq!['<'],
        '＞' => seq!['>'],
        '［' => seq!['['],
        '］' => seq![']'],
        '｛' => seq!['{'],
        '｝' => seq!['}'],
        '＼' => seq!['\\'],
        '｜' => seq!['|'],
        '＋' => seq!['+'],
        '＝' => seq!['='],
        '＿' => seq!['_'],
        '＾' => seq!['^'],
        '｀' => seq!['`'],
        _ => seq![c],
    }
}

/// The folded form of a token: a single character folds as [`fold_char`]
/// says, a doubled curly single quote becomes the curly double quote of the
/// same direction, and any other token stays as it is.
pub open spec fn fold_token(t: Seq<char>) -> Seq<char> {
    if t.len() == 1 {
        fold_char(t[0])
    } else if t == seq!['‘', '‘'] {
        seq!['“']
    } else if t == seq!['’', '’'] {
        seq!['”']
    } else {
        t
    }
}

/// Appends the folded form of `c` to `out`.
pub fn push_folded(out: &mut Vec<char>, c: char)
    ensures
        final(out)@ == old(out)@ + fold_char(c),
{
    match c {
        '０' => out.push('0'),
        '１' => out.push('1'),
        '２' => out.push('2'),
        '３' => out.push('3'),
        '４' => out.push('4'),
        '５' => out.push('5'),
        '６' => out.push('6'),
        '７' => out.push('7'),
        '８' => out.push('8'),
        '９' => out.push('9'),
        'Ａ' => out.push('A'),
        'Ｂ' => out.push('B'),
        'Ｃ' => out.push('C'),
        'Ｄ' => out.push('D'),
        'Ｅ' => out.push('E'),
        'Ｆ' => out.push('F'),
        'Ｇ' => out.push('G'),
        'Ｈ' => out.push('H'),
        'Ｉ' => out.push('I'),
        'Ｊ' => out.push('J'),
        'Ｋ' => out.push('K'),
        'Ｌ' => out.push('L'),
        'Ｍ' => out.push('M'),
        'Ｎ' => out.push('N'),
        'Ｏ' => out.push('O'),
        'Ｐ' => out.push('P'),
        'Ｑ' => out.push('Q'),
        'Ｒ' => out.push('R'),
        'Ｓ' => out.push('S'),
        'Ｔ' => out.push('T'),
        'Ｕ' => out.push('U'),
        'Ｖ' => out.push('V'),
        'Ｗ' => out.push('W'),
        'Ｘ' => out.push('X'),
        'Ｙ' => out.push('Y'),
        'Ｚ' => out.push('Z'),
        'ａ' => out.push('a'),
        'ｂ' => out.push('b'),
        'ｃ' => out.push('c'),
        'ｄ' => out.push('d'),
        'ｅ' => out.push('e'),
        'ｆ' => out.push('f'),
        'ｇ' => out.push('g'),
        'ｈ' => out.push('h'),
        'ｉ' => out.push('i'),
        'ｊ' => out.push('j'),
        'ｋ' => out.push('k'),
        'ｌ' => out.push('l'),
        'ｍ' => out.push('m'),
        'ｎ' => out.push('n'),
        'ｏ' => out.push('o'),
        'ｐ' => out.push('p'),
        'ｑ' => out.push('q'),
        'ｒ' => out.push('r'),
        'ｓ' => out.push('s'),
        'ｔ' => out.push('t'),
        'ｕ' => out.push('u'),
        'ｖ' => out.push('v'),
        'ｗ' => out.push('w'),
        'ｘ' => out.push('x'),
        'ｙ' => out.push('y'),
        'ｚ' => out.push('z'),
        '－' => out.push('-'),
        '／' => out.push('/'),
        '．' => {
            out.push('.');
            out.push(' ');
        },
        '％' => out.push('%'),
        '＃' => out.push('#'),
        '＠' => out.push('@'),
        '＆' => out.push('&'),
        '＜' => out.push('<'),
        '＞' => out.push('>'),
        '［' => out.push('['),
        '］' => out.push(']'),
        '｛' => out.push('{'),
        '｝' => out.push('}'),
        '＼' => out.push('\\'),
        '｜' => out.push('|'),
        '＋' => out.push('+'),
        '＝' => out.push('='),
        '＿' => out.push('_'),
        '＾' => out.push('^'),
        '｀' => out.push('`'),
        _ => out.push(c),
    }
    assert(final(out)@ =~= old(out)@ + fold_char(c));
}

/// Folds a full-width character, or one of the doubled curly single quotes,
/// to its canonical form; any other token is handed back as it is.
pub fn convert_full_width_char(letter: &str) -> (r: &str)
    ensures
        r@ == fold_token(letter@),
{
    let chars = chars_of(letter);
    if chars.len() == 2 {
        if chars[0] == '‘' && chars[1] == '‘' {
            assert(letter@ =~= seq!['‘', '‘']);
            let r = "“";
            proof {
                reveal_strlit("“");
            }
            assert(r@ =~= seq!['“']);
            return r;
        }
        if chars[0] == '’' && chars[1] == '’' {
            assert(letter@ =~= seq!['’', '’']);
            let r = "”";
            proof {
                reveal_strlit("”");
            }
            assert(r@ =~= seq!['”']);
            return r;
        }
        return letter;
    }
    if chars.len() != 1 {
        return letter;
    }
    let r = match chars[0] {
        '０' => {
            proof {
                reveal_strlit("0");
            }
            "0"
        },
        '１' => {
            proof {
                reveal_strlit("1");
            }
            "1"
        },
        '２' => {
            proof {
                reveal_strlit("2");
            }
            "2"
        },
        '３' => {
            proof {
                reveal_strlit("3");
            }
            "3"
        },
        '４' => {
            proof {
                reveal_strlit("4");
            }
            "4"
        },
        '５' => {
            proof {
                reveal_strlit("5");
            }
            "5"
        },
        '６' => {
            proof {
                reveal_strlit("6");
            }
            "6"
        },
        '７' => {
            proof {
                reveal_strlit("7");
            }
            "7"
        },
        '８' => {
            proof {
                reveal_strlit("8");
            }
            "8"
        },
        '９' => {
            proof {
                reveal_strlit("9");
            }
            "9"
        },
        'Ａ' => {
            proof {
                reveal_strlit("A");
            }
            "A"
        },
        'Ｂ' => {
            proof {
                reveal_strlit("B");
            }
            "B"
        },
        'Ｃ' => {
            proof {
                reveal_strlit("C");
            }
            "C"
        },
        'Ｄ' => {
            proof {
                reveal_strlit("D");
            }
            "D"
        },
        'Ｅ' => {
            proof {
                reveal_strlit("E");
            }
            "E"
        },
        'Ｆ' => {
            proof {
                reveal_strlit("F");
            }
            "F"
        },
        'Ｇ' => {
            proof {
                reveal_strlit("G");
            }
            "G"
        },
        'Ｈ' => {
            proof {
                reveal_strlit("H");
            }
            "H"
        },
        'Ｉ' => {
            proof {
                reveal_strlit("I");
            }
            "I"
        },
        'Ｊ' => {
            proof {
                reveal_strlit("J");
            }
            "J"
        },
        'Ｋ' => {
            proof {
                reveal_strlit("K");
            }
            "K"
        },
        'Ｌ' => {
            proof {
                reveal_strlit("L");
            }
            "L"
        },
        'Ｍ' => {
            proof {
                reveal_strlit("M");
            }
            "M"
        },
        'Ｎ' => {
            proof {
                reveal_strlit("N");
            }
            "N"
        },
        'Ｏ' => {
            proof {
                reveal_strlit("O");
            }
            "O"
        },
        'Ｐ' => {
            proof {
                reveal_strlit("P");
            }
            "P"
        },
        'Ｑ' => {
            proof {
                reveal_strlit("Q");
            }
            "Q"
        },
        'Ｒ' => {
            proof {
                reveal_strlit("R");
            }
            "R"
        },
        'Ｓ' => {
            proof {
                reveal_strlit("S");
            }
            "S"
        },
        'Ｔ' => {
            proof {
                reveal_strlit("T");
            }
            "T"
        },
        'Ｕ' => {
            proof {
                reveal_strlit("U");
            }
            "U"
        },
        'Ｖ' => {
            proof {
                reveal_strlit("V");
            }
            "V"
        },
        'Ｗ' => {
            proof {
                reveal_strlit("W");
            }
            "W"
        },
        'Ｘ' => {
            proof {
                reveal_strlit("X");
            }
            "X"
        },
        'Ｙ' => {
            proof {
                reveal_strlit("Y");
            }
            "Y"
        },
        'Ｚ' => {
            proof {
                reveal_strlit("Z");
            }
            "Z"
        },
        'ａ' => {
            proof {
                reveal_strlit("a");
            }
            "a"
        },
        'ｂ' => {
            proof {
                reveal_strlit("b");
            }
            "b"
        },
        'ｃ' => {
            proof {
                reveal_strlit("c");
            }
            "c"
        },
        'ｄ' => {
            proof {
                reveal_strlit("d");
            }
            "d"
        },
        'ｅ' => {
            proof {
                reveal_strlit("e");
            }
            "e"
        },
        'ｆ' => {
            proof {
                reveal_strlit("f");
            }
            "f"
        },
        'ｇ' => {
            proof {
                reveal_strlit("g");
            }
            "g"
        },
        'ｈ' => {
            proof {
                reveal_strlit("h");
            }
            "h"
        },
        'ｉ' => {
            proof {
                reveal_strlit("i");
            }
            "i"
        },
        'ｊ' => {
            proof {
                reveal_strlit("j");
            }
            "j"
        },
        'ｋ' => {
            proof {
                reveal_strlit("k");
            }
            "k"
        },
        'ｌ' => {
            proof {
                reveal_strlit("l");
            }
            "l"
        },
        'ｍ' => {
            proof {
                reveal_strlit("m");
            }
            "m"
        },
        'ｎ' => {
            proof {
                reveal_strlit("n");
            }
            "n"
        },
        'ｏ' => {
            proof {
                reveal_strlit("o");
            }
            "o"
        },
        'ｐ' => {
            proof {
                reveal_strlit("p");
            }
            "p"
        },
        'ｑ' => {
            proof {
                reveal_strlit("q");
            }
            "q"
        },
        'ｒ' => {
            proof {
                reveal_strlit("r");
            }
            "r"
        },
        'ｓ' => {
            proof {
                reveal_strlit("s");
            }
            "s"
        },
        'ｔ' => {
            proof {
                reveal_strlit("t");
            }
            "t"
        },
        'ｕ' => {
            proof {
                reveal_strlit("u");
            }
            "u"
        },
        'ｖ' => {
            proof {
                reveal_strlit("v");
            }
            "v"
        },
        'ｗ' => {
            proof {
                reveal_strlit("w");
            }
            "w"
        },
        'ｘ' => {
            proof {
                reveal_strlit("x");
            }
            "x"
        },
        'ｙ' => {
            proof {
                reveal_strlit("y");
            }
            "y"
        },
        'ｚ' => {
            proof {
                reveal_strlit("z");
            }
            "z"
        },
        '－' => {
            proof {
                reveal_strlit("-");
            }
            "-"
        },
        '／' => {
            proof {
                reveal_strlit("/");
            }
            "/"
        },
        '．' => {
            proof {
                reveal_strlit(". ");
            }
            ". "
        },
        '％' => {
            proof {
                reveal_strlit("%");
            }
            "%"
        },
        '＃' => {
            proof {
                reveal_strlit("#");
            }
            "#"
        },
        '＠' => {
            proof {
                reveal_strlit("@");
            }
            "@"
        },
        '＆' => {
            proof {
                reveal_strlit("&");
            }
            "&"
        },
        '＜' => {
            proof {
                reveal_strlit("<");
            }
            "<"
        },
        '＞' => {
            proof {
                reveal_strlit(">");
            }
            ">"
        },
        '［' => {
            proof {
                reveal_strlit("[");
            }
            "["
        },
        '］' => {
            proof {
                reveal_strlit("]");
            }
            "]"
        },
        '｛' => {
            proof {
                reveal_strlit("{");
            }
            "{"
        },
        '｝' => {
            proof {
                reveal_strlit("}");
            }
            "}"
        },
        '＼' => {
            proof {
                reveal_strlit("\\");
            }
            "\\"
        },
        '｜' => {
            proof {
                reveal_strlit("|");
            }
            "|"
        },
        '＋' => {
            proof {
                reveal_strlit("+");
            }
            "+"
        },
        '＝' => {
            proof {
                reveal_strlit("=");
            }
            "="
        },
        '＿' => {
            proof {
                reveal_strlit("_");
            }
            "_"
        },
        '＾' => {
            proof {
                reveal_strlit("^");
            }
            "^"
        },
        '｀' => {
            proof {
                reveal_strlit("`");
            }
            "`"
        },
        _ => letter,
    };
    assert(r@ =~= fold_char(chars@[0]));
    r
}

} // verus!
