use typeset::{convert_full_width_char, guess_lang, normalize, Lang};

#[test]
fn should_keep_the_same_given_only_english_word() {
    assert_eq!("hello world", normalize("hello world"));
}

#[test]
fn should_replace_full_width_character() {
    assert_eq!("hello world", normalize("hello ｗorld"))
}

#[test]
fn should_remove_duplicated_space_given_multiple_space_word() {
    assert_eq!("hello world", normalize("hello  world"));
}

#[test]
fn should_correct_minor_space() {
    assert_eq!("中文 abc", normalize("中文abc"));
    assert_eq!("abc 中文", normalize("abc中文"));
    assert_eq!("中文 123", normalize("中文123"));
    assert_eq!("商品 123 元", normalize("商品123元"));
    assert_eq!("商品 123.00 元", normalize("商品123.00元"));
}

#[test]
fn should_correct_space() {
    assert_eq!("中文中文", normalize("中文 中文"));
    assert_eq!("[[", normalize("[ ["));
}

#[test]
fn should_guess_language() {
    assert_eq!(Lang::Zh, guess_lang("中文"));
    assert_eq!(Lang::Zh, guess_lang("中文12312312"));
    assert_eq!(Lang::En, guess_lang("eng"));
    assert_eq!(Lang::Zh, guess_lang("中文eng"));
}

#[test]
fn should_correct_zh_punc() {
    assert_eq!("中文，中文", normalize("中文,中文"));
    assert_eq!("中文（中文）", normalize("中文(中文)"));
    assert_eq!("他们说：“你好啊”", normalize("他们说:\"你好啊\""));
}

#[test]
fn should_correct_en_punc() {
    assert_eq!("hello, world", normalize("hello，world"));
    assert_eq!("hello, world!", normalize("hello，world！"));
    assert_eq!("hello (world)", normalize("hello（world）"));
    assert_eq!("hello \"world\"", normalize("hello“world”"));
}

#[test]
fn should_correct_ellipsis() {
    assert_eq!("中文……", normalize("中文....。....."));
    assert_eq!("中文……", normalize("中文…"));
    assert_eq!("中文……中文", normalize("中文…中文"));
    assert_eq!("中文……中文……", normalize("中文…...中文..."));
    assert_eq!("English...", normalize("English…"));
    assert_eq!("English...", normalize("English……"));
}
