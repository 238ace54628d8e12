use typeset::{convert_full_width_char, guess_lang, normalize, Lang};

#[test]
fn lines_are_normalized_independently() {
    let block = normalize("中文abc\nhello（world）");
    assert_eq!(block, normalize("中文abc") + &normalize("hello（world）"));
    assert_eq!(block, "中文 abchello (world)");
}

#[test]
fn carriage_returns_and_blank_lines_vanish() {
    assert_eq!("hello world中文 abc", normalize("hello  world\r\n中文abc"));
    assert_eq!("", normalize(""));
    assert_eq!("", normalize("\n\n"));
    assert_eq!("ab", normalize("a\n\nb\n"));
}

#[test]
fn tabs_and_edges_are_squeezed() {
    assert_eq!("hello world", normalize("  hello\t\t world \t"));
}

#[test]
fn normalizing_twice_changes_nothing_on_single_lines() {
    let inputs = [
        "hello ｗorld",
        "hello  world",
        "中文abc",
        "商品123.00元",
        "中文 中文",
        "中文,中文",
        "hello，world！",
        "中文(中文)",
        "hello（world）",
        "他们说:\"你好啊\"",
        "hello“world”",
        "中文…...中文...",
        "English…",
    ];
    for x in inputs {
        let once = normalize(x);
        assert_eq!(once, normalize(&once), "input {:?}", x);
    }
}

#[test]
fn a_lone_period_stays() {
    assert_eq!("This is fine.", normalize("This is fine."));
    assert_eq!("English..", normalize("English.."));
}

#[test]
fn latin_quotes_get_one_space_outside() {
    assert_eq!("He said \"hi\" to me", normalize("He said“hi”to me"));
    assert_eq!("say \"hi\" ok", normalize("say“hi”ok"));
}

#[test]
fn chinese_quotes_hug_their_text() {
    assert_eq!("他说“你好”吧", normalize("他说 “ 你好 ” 吧"));
}

#[test]
fn nested_brackets_are_localized_in_pairs() {
    assert_eq!("中文（中文（中文））", normalize("中文(中文(中文))"));
}

#[test]
fn language_guess_edges() {
    assert_eq!(Lang::Zh, guess_lang(""));
    assert_eq!(Lang::En, guess_lang("a"));
    assert_eq!(Lang::En, guess_lang("a1"));
    assert_eq!(Lang::Zh, guess_lang("1中"));
    assert_eq!(Lang::Zh, guess_lang("１２３"));
    assert_eq!(Lang::En, guess_lang("hello 中"));
}

#[test]
fn full_width_tokens_fold() {
    assert_eq!("A", convert_full_width_char("Ａ"));
    assert_eq!("z", convert_full_width_char("ｚ"));
    assert_eq!("5", convert_full_width_char("５"));
    assert_eq!(". ", convert_full_width_char("．"));
    assert_eq!("%", convert_full_width_char("％"));
    assert_eq!("\\", convert_full_width_char("＼"));
    assert_eq!("“", convert_full_width_char("‘‘"));
    assert_eq!("”", convert_full_width_char("’’"));
    assert_eq!("中", convert_full_width_char("中"));
    assert_eq!("ab", convert_full_width_char("ab"));
    assert_eq!("", convert_full_width_char(""));
}
