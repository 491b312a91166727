//! Helpers on text: copies, searching, splitting and joining.
use vstd::prelude::*;
use vstd::string::*;

verus! {

/// A copy of a text.
pub fn copy_text(text: &String) -> (copy: String)
    ensures
        copy@ == text@,
{
    text.clone()
}

/// A copy of an optional text.
pub fn copy_optional_text(text: &Option<String>) -> (copy: Option<String>)
    ensures
        copy is Some <==> text is Some,
        copy is Some ==> copy.unwrap()@ == text.unwrap()@,
{
    match text {
        Some(t) => Some(t.clone()),
        None => None,
    }
}

/// The view of an optional text.
pub open spec fn optional_view(text: Option<String>) -> Option<Seq<char>> {
    match text {
        Some(t) => Some(t@),
        None => None,
    }
}

/// An optional text, or the empty text in its place.
pub open spec fn or_empty(text: Option<Seq<char>>) -> Seq<char> {
    match text {
        Some(t) => t,
        None => Seq::empty(),
    }
}

/// An optional text, or the empty text in its place.
pub fn text_or_empty(text: Option<String>) -> (out: String)
    ensures
        out@ == or_empty(optional_view(text)),
{
    match text {
        Some(t) => t,
        None => String::new(),
    }
}

/// `needle` occurs in `hay`.
pub open spec fn contains_spec(hay: Seq<char>, needle: Seq<char>) -> bool {
    exists|i: int|
        0 <= i <= hay.len() - needle.len() && #[trigger] hay.subrange(i, i + needle.len())
            == needle
}

/// The lines of a text, as `str::lines` splits it.
pub uninterp spec fn lines_spec(text: Seq<char>) -> Seq<Seq<char>>;

/// A text without the white space at its ends, as `str::trim` leaves it.
pub uninterp spec fn trim_spec(text: Seq<char>) -> Seq<char>;

/// The views of some texts.
pub open spec fn texts_view(texts: Seq<String>) -> Seq<Seq<char>> {
    Seq::new(texts.len(), |i: int| texts[i]@)
}

/// Calls `str::contains` with a text as the pattern. Trusted: it tells
/// whether the pattern occurs in the text.
#[verifier::external_body]
pub(crate) fn text_contains(hay: &str, needle: &str) -> (found: bool)
    ensures
        found == contains_spec(hay@, needle@),
{
    hay.contains(needle)
}

/// Calls `str::lines` and collects the lines. Trusted: the result holds
/// the named lines, in order.
#[verifier::external_body]
pub(crate) fn split_lines(text: &str) -> (lines: Vec<String>)
    ensures
        texts_view(lines@) == lines_spec(text@),
{
    text.lines().map(|line| line.to_string()).collect()
}

/// Calls `str::trim`. Trusted: the result is the named text.
#[verifier::external_body]
pub(crate) fn trimmed(text: &str) -> (out: String)
    ensures
        out@ == trim_spec(text@),
{
    text.trim().to_string()
}

/// The words of a text, as `str::split_whitespace` finds them.
pub uninterp spec fn words_spec(text: Seq<char>) -> Seq<Seq<char>>;

/// The character `separator` occurs in `text`.
pub open spec fn has_char(text: Seq<char>, separator: char) -> bool {
    exists|i: int| 0 <= i < text.len() && text[i] == separator
}

/// Where `separator` first occurs in `text`.
pub open spec fn first_at(text: Seq<char>, separator: char) -> int {
    choose|i: int|
        0 <= i < text.len() && text[i] == separator && forall|j: int|
            0 <= j < i ==> text[j] != separator
}

/// The parts of a text between occurrences of a character: what stands
/// before the first occurrence, then the parts of what stands behind it. A
/// text without the character is its own single part.
pub open spec fn split_spec(text: Seq<char>, separator: char) -> Seq<Seq<char>>
    decreases text.len(),
{
    let at = first_at(text, separator);
    if has_char(text, separator) && 0 <= at < text.len() {
        seq![text.subrange(0, at)] + split_spec(
            text.subrange(at + 1, text.len() as int),
            separator,
        )
    } else {
        seq![text]
    }
}

/// Calls `str::split_whitespace` and collects the words. Trusted: the
/// result holds the named words, in order.
#[verifier::external_body]
pub(crate) fn split_words(text: &str) -> (words: Vec<String>)
    ensures
        texts_view(words@) == words_spec(text@),
{
    text.split_whitespace().map(|word| word.to_string()).collect()
}

/// Calls `str::split` with a character and collects the parts. Trusted:
/// the result holds the parts between the occurrences of the character, in
/// order.
#[verifier::external_body]
pub(crate) fn split_on(text: &str, separator: char) -> (parts: Vec<String>)
    ensures
        texts_view(parts@) == split_spec(text@, separator),
{
    text.split(separator).map(|part| part.to_string()).collect()
}

/// Texts joined, with `separator` between each two.
pub open spec fn joined_spec(texts: Seq<Seq<char>>, separator: Seq<char>) -> Seq<char>
    decreases texts.len(),
{
    if texts.len() == 0 {
        Seq::empty()
    } else if texts.len() == 1 {
        texts[0]
    } else {
        joined_spec(texts.drop_last(), separator) + separator + texts.last()
    }
}

/// Joins the texts from the position `from` on, with `separator` between
/// each two.
pub fn join_texts(texts: &Vec<String>, from: usize, separator: &str) -> (text: String)
    requires
        from <= texts@.len(),
    ensures
        text@ == joined_spec(
            texts_view(texts@).subrange(from as int, texts@.len() as int),
            separator@,
        ),
{
    let mut text = String::new();
    let mut i: usize = from;
    while i < texts.len()
        invariant
            from <= i <= texts@.len(),
            text@ == joined_spec(texts_view(texts@).subrange(from as int, i as int), separator@),
        decreases texts@.len() - i,
    {
        let ghost before = texts_view(texts@).subrange(from as int, i as int);
        let ghost after = texts_view(texts@).subrange(from as int, i + 1);
        assert(after.drop_last() =~= before);
        assert(after.last() == texts@[i as int]@);
        if i > from {
            text.append(separator);
        } else {
            assert(text@ =~= Seq::<char>::empty());
            assert(Seq::<char>::empty() + texts@[i as int]@ =~= texts@[i as int]@);
        }
        text.append(texts[i].as_str());
        i += 1;
    }
    text
}

} // verus!
