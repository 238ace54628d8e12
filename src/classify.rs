use vstd::prelude::*;

verus! {

/// A letter of the CJK Unified Ideographs block U+4E00..=U+9FA5.
pub open spec fn zh_letter(c: char) -> bool {
    0x4e00 <= c as u32 <= 0x9fa5
}

/// An ASCII letter.
pub open spec fn en_letter(c: char) -> bool {
    ('a' as u32 <= c as u32 <= 'z' as u32) || ('A' as u32 <= c as u32 <= 'Z' as u32)
}

/// An ASCII digit.
pub open spec fn ascii_digit(c: char) -> bool {
    '0' as u32 <= c as u32 <= '9' as u32
}

/// Chinese opening punctuation.
pub open spec fn zh_left_punc(c: char) -> bool {
    c == '（' || c == '【' || c == '《' || c == '￥'
}

/// Chinese closing punctuation: sentence marks and closing brackets.
pub open spec fn zh_right_punc(c: char) -> bool {
    c == '，' || c == '。' || c == '？' || c == '！' || c == '：' || c == '；' || c == '）' || c == '】' || c == '》'
}

/// Chinese punctuation that neither opens nor closes.
pub open spec fn zh_middle_punc(c: char) -> bool {
    c == '·' || c == '～' || c == '—' || c == '…'
}

/// Chinese quotation marks, of either direction.
pub open spec fn zh_quote(c: char) -> bool {
    c == '“' || c == '‘' || c == '「' || c == '『' || c == '”' || c == '’' || c == '」' || c == '』'
}

/// Latin opening punctuation.
pub open spec fn en_left_punc(c: char) -> bool {
    c == '(' || c == '[' || c == '{' || c == '@' || c == '#' || c == '$'
}

/// Latin closing punctuation: sentence marks, closing brackets and `%`.
pub open spec fn en_right_punc(c: char) -> bool {
    c == ',' || c == '.' || c == '?' || c == '!' || c == ':' || c == ';' || c == ')' || c == ']' || c == '}' || c == '%'
}

/// Latin operator-like punctuation that neither opens nor closes.
pub open spec fn en_middle_punc(c: char) -> bool {
    c == '+' || c == '-' || c == '*' || c == '/' || c == '\\' || c == '=' || c == '<' || c == '>' || c == '_' || c == '^' || c == '&' || c == '|' || c == '~'
}

/// The Latin closing punctuation that takes a space before a following digit.
pub open spec fn en_right_punc_digit(c: char) -> bool {
    c == '?' || c == '!' || c == ';' || c == ')' || c == ']' || c == '}' || c == '%'
}

/// Latin quotation marks.
pub open spec fn en_quote(c: char) -> bool {
    c == '\'' || c == '"' || c == '`'
}

/// Any Chinese punctuation mark but the quotes.
pub open spec fn zh_punc(c: char) -> bool {
    zh_left_punc(c) || zh_middle_punc(c) || zh_right_punc(c)
}

/// A character of Chinese script: letter, punctuation or quote.
pub open spec fn zh_char(c: char) -> bool {
    zh_letter(c) || zh_punc(c) || zh_quote(c)
}

/// Any Latin punctuation mark but the quotes.
pub open spec fn en_punc(c: char) -> bool {
    en_middle_punc(c) || en_left_punc(c) || en_right_punc(c)
}

/// A character of Latin script: letter, punctuation or quote.
pub open spec fn en_char(c: char) -> bool {
    en_letter(c) || en_punc(c) || en_quote(c)
}

/// A letter of either script.
pub open spec fn any_letter(c: char) -> bool {
    zh_letter(c) || en_letter(c)
}

/// A punctuation mark of either script.
pub open spec fn any_punc(c: char) -> bool {
    zh_punc(c) || en_punc(c)
}

/// Tests [`zh_letter`].
pub fn is_zh_letter(c: char) -> (r: bool)
    ensures
        r == zh_letter(c),
{
    0x4e00 <= c as u32 && c as u32 <= 0x9fa5
}

/// Tests [`en_letter`].
pub fn is_en_letter(c: char) -> (r: bool)
    ensures
        r == en_letter(c),
{
    ('a' <= c && c <= 'z') || ('A' <= c && c <= 'Z')
}

/// Tests [`ascii_digit`].
pub fn digit(c: char) -> (r: bool)
    ensures
        r == ascii_digit(c),
{
    '0' <= c && c <= '9'
}

/// Tests [`zh_left_punc`].
pub fn is_zh_left_punc(c: char) -> (r: bool)
    ensures
        r == zh_left_punc(c),
{
    c == '（' || c == '【' || c == '《' || c == '￥'
}

/// Tests [`zh_right_punc`].
pub fn is_zh_right_punc(c: char) -> (r: bool)
    ensures
        r == zh_right_punc(c),
{
    c == '，' || c == '。' || c == '？' || c == '！' || c == '：' || c == '；' || c == '）' || c == '】' || c == '》'
}

/// Tests [`zh_middle_punc`].
pub fn is_zh_middle_punc(c: char) -> (r: bool)
    ensures
        r == zh_middle_punc(c),
{
    c == '·' || c == '～' || c == '—' || c == '…'
}

/// Tests [`zh_quote`].
pub fn is_zh_quote(c: char) -> (r: bool)
    ensures
        r == zh_quote(c),
{
    c == '“' || c == '‘' || c == '「' || c == '『' || c == '”' || c == '’' || c == '」' || c == '』'
}

/// Tests [`en_left_punc`].
pub fn is_en_left_punc(c: char) -> (r: bool)
    ensures
        r == en_left_punc(c),
{
    c == '(' || c == '[' || c == '{' || c == '@' || c == '#' || c == '$'
}

/// Tests [`en_right_punc`].
pub fn is_en_right_punc(c: char) -> (r: bool)
    ensures
        r == en_right_punc(c),
{
    c == ',' || c == '.' || c == '?' || c == '!' || c == ':' || c == ';' || c == ')' || c == ']' || c == '}' || c == '%'
}

/// Tests [`en_middle_punc`].
pub fn is_en_middle_punc(c: char) -> (r: bool)
    ensures
        r == en_middle_punc(c),
{
    c == '+' || c == '-' || c == '*' || c == '/' || c == '\\' || c == '=' || c == '<' || c == '>' || c == '_' || c == '^' || c == '&' || c == '|' || c == '~'
}

/// Tests [`en_right_punc_digit`].
pub fn is_en_right_punc_digit(c: char) -> (r: bool)
    ensures
        r == en_right_punc_digit(c),
{
    c == '?' || c == '!' || c == ';' || c == ')' || c == ']' || c == '}' || c == '%'
}

/// Tests [`en_quote`].
pub fn is_en_quote(c: char) -> (r: bool)
    ensures
        r == en_quote(c),
{
    c == '\'' || c == '"' || c == '`'
}

/// Tests [`zh_punc`].
pub fn is_zh_punc(c: char) -> (r: bool)
    ensures
        r == zh_punc(c),
{
    is_zh_left_punc(c) || is_zh_middle_punc(c) || is_zh_right_punc(c)
}

/// Tests [`zh_char`].
pub fn is_zh_char(c: char) -> (r: bool)
    ensures
        r == zh_char(c),
{
    is_zh_letter(c) || is_zh_punc(c) || is_zh_quote(c)
}

/// Tests [`en_punc`].
pub fn is_en_punc(c: char) -> (r: bool)
    ensures
        r == en_punc(c),
{
    is_en_middle_punc(c) || is_en_left_punc(c) || is_en_right_punc(c)
}

/// Tests [`en_char`].
pub fn is_en_char(c: char) -> (r: bool)
    ensures
        r == en_char(c),
{
    is_en_letter(c) || is_en_punc(c) || is_en_quote(c)
}

/// Tests [`any_letter`].
pub fn letter(c: char) -> (r: bool)
    ensures
        r == any_letter(c),
{
    is_zh_letter(c) || is_en_letter(c)
}

/// Tests [`any_punc`].
pub fn punc(c: char) -> (r: bool)
    ensures
        r == any_punc(c),
{
    is_zh_punc(c) || is_en_punc(c)
}

} // verus!
