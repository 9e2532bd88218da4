//! The type eraser: a lexical pass that deletes simple type annotations.
//!
//! Two shapes are deleted, both found against the input text in one
//! left-to-right pass, never overlapping:
//! - a colon annotation: `:`, any whitespace, one or more word characters,
//!   and an optional `[]`;
//! - a generic annotation: `<`, one or more word characters, `>`.
use vstd::prelude::*;
use vstd::string::*;

verus! {

/// Whether a character belongs to the Unicode word class `\w` of the regex engine.
pub uninterp spec fn word_char(c: char) -> bool;

/// Whether a character has the Unicode `White_Space` property (the class `\s`).
pub uninterp spec fn space_char(c: char) -> bool;

/// Relies on regex_syntax::is_word_character: it decides membership in the
/// class that `\w` denotes, from the character alone (it panics only when
/// the `unicode-perl` feature is off, which the default features turn on).
#[verifier::external_body]
fn is_word(c: char) -> (r: bool)
    ensures
        r == word_char(c),
{
    regex_syntax::is_word_character(c)
}

/// Relies on char::is_whitespace: the `White_Space` property of the character.
#[verifier::external_body]
fn is_space(c: char) -> (r: bool)
    ensures
        r == space_char(c),
{
    c.is_whitespace()
}

/// Number of word characters in a row from position `i` on.
pub open spec fn word_run(s: Seq<char>, i: int) -> nat
    decreases s.len() - i,
{
    if 0 <= i < s.len() && word_char(s[i]) {
        1 + word_run(s, i + 1)
    } else {
        0
    }
}

/// Number of whitespace characters in a row from position `i` on.
pub open spec fn space_run(s: Seq<char>, i: int) -> nat
    decreases s.len() - i,
{
    if 0 <= i < s.len() && space_char(s[i]) {
        1 + space_run(s, i + 1)
    } else {
        0
    }
}

/// Length of the colon annotation that starts at `i`, or 0 if none does.
pub open spec fn colon_annotation_len(s: Seq<char>, i: int) -> nat {
    let start = i + 1 + space_run(s, i + 1);
    let w = word_run(s, start);
    let end = start + w;
    if !(0 <= i < s.len() && s[i] == ':') || w == 0 {
        0
    } else if end + 1 < s.len() && s[end] == '[' && s[end + 1] == ']' {
        (end + 2 - i) as nat
    } else {
        (end - i) as nat
    }
}

/// Length of the generic annotation that starts at `i`, or 0 if none does.
pub open spec fn generic_annotation_len(s: Seq<char>, i: int) -> nat {
    let w = word_run(s, i + 1);
    let end = i + 1 + w;
    if 0 <= i < s.len() && s[i] == '<' && w > 0 && end < s.len() && s[end] == '>' {
        (w + 2) as nat
    } else {
        0
    }
}

/// Length of the annotation of either shape that starts at `i`, or 0.
pub open spec fn annotation_len(s: Seq<char>, i: int) -> nat {
    if colon_annotation_len(s, i) > 0 {
        colon_annotation_len(s, i)
    } else {
        generic_annotation_len(s, i)
    }
}

/// What the eraser makes of the text from position `i` on.
pub open spec fn erase_from(s: Seq<char>, i: int) -> Seq<char>
    decreases s.len() - i,
    via erase_from_decreases
{
    if !(0 <= i < s.len()) {
        seq![]
    } else if annotation_len(s, i) > 0 {
        erase_from(s, i + annotation_len(s, i))
    } else {
        seq![s[i]] + erase_from(s, i + 1)
    }
}

#[via_fn]
proof fn erase_from_decreases(s: Seq<char>, i: int) {
    if 0 <= i < s.len() {
        lemma_annotation_len_bound(s, i);
    }
}

/// The text with every annotation deleted.
pub open spec fn erased(s: Seq<char>) -> Seq<char> {
    erase_from(s, 0)
}

proof fn lemma_word_run_bound(s: Seq<char>, i: int)
    requires
        0 <= i <= s.len(),
    ensures
        word_run(s, i) <= s.len() - i,
    decreases s.len() - i,
{
    if i < s.len() {
        lemma_word_run_bound(s, i + 1);
    }
}

proof fn lemma_space_run_bound(s: Seq<char>, i: int)
    requires
        0 <= i <= s.len(),
    ensures
        space_run(s, i) <= s.len() - i,
    decreases s.len() - i,
{
    if i < s.len() {
        lemma_space_run_bound(s, i + 1);
    }
}

proof fn lemma_annotation_len_bound(s: Seq<char>, i: int)
    requires
        0 <= i < s.len(),
    ensures
        annotation_len(s, i) <= s.len() - i,
{
    lemma_space_run_bound(s, i + 1);
    lemma_word_run_bound(s, i + 1 + space_run(s, i + 1));
    lemma_word_run_bound(s, i + 1);
}

/// Position of the first character from `i` on that is not whitespace.
fn skip_spaces(text: &Vec<char>, i: usize) -> (e: usize)
    requires
        i <= text.len(),
    ensures
        e == i + space_run(text@, i as int),
        e <= text.len(),
{
    let mut e: usize = i;
    while e < text.len() && is_space(text[e])
        invariant
            i <= e <= text.len(),
            space_run(text@, i as int) == (e - i) + space_run(text@, e as int),
        decreases text.len() - e,
    {
        e = e + 1;
    }
    e
}

/// Position of the first character from `i` on that is not a word character.
fn skip_word(text: &Vec<char>, i: usize) -> (e: usize)
    requires
        i <= text.len(),
    ensures
        e == i + word_run(text@, i as int),
        e <= text.len(),
{
    let mut e: usize = i;
    while e < text.len() && is_word(text[e])
        invariant
            i <= e <= text.len(),
            word_run(text@, i as int) == (e - i) + word_run(text@, e as int),
        decreases text.len() - e,
    {
        e = e + 1;
    }
    e
}

/// Length of the annotation that starts at position `i`, or 0 if none does.
pub fn annotation_at(text: &Vec<char>, i: usize) -> (n: usize)
    requires
        i < text.len(),
    ensures
        n == annotation_len(text@, i as int),
        n <= text.len() - i,
{
    proof {
        lemma_annotation_len_bound(text@, i as int);
    }
    if text[i] == ':' {
        let start = skip_spaces(text, i + 1);
        let end = skip_word(text, start);
        if end == start {
            0
        } else if end < text.len() - 1 && text[end] == '[' && text[end + 1] == ']' {
            end + 2 - i
        } else {
            end - i
        }
    } else if text[i] == '<' {
        let end = skip_word(text, i + 1);
        if end > i + 1 && end < text.len() && text[end] == '>' {
            end + 1 - i
        } else {
            0
        }
    } else {
        0
    }
}

/// Deletes every annotation from `text`.
pub fn erase_annotations(text: &Vec<char>) -> (r: Vec<char>)
    ensures
        r@ == erased(text@),
{
    let mut out: Vec<char> = Vec::new();
    let mut i: usize = 0;
    while i < text.len()
        invariant
            i <= text.len(),
            erased(text@) == out@ + erase_from(text@, i as int),
        decreases text.len() - i,
    {
        let n = annotation_at(text, i);
        if n > 0 {
            i = i + n;
        } else {
            let c = text[i];
            proof {
                assert(out@.push(c) + erase_from(text@, i + 1) == out@ + erase_from(text@, i as int));
            }
            out.push(c);
            i = i + 1;
        }
    }
    out
}

/// Relies on String's FromIterator over chars: the string holds exactly
/// these characters, in order.
#[verifier::external_body]
fn string_of(cs: &Vec<char>) -> (r: String)
    ensures
        r@ == cs@,
{
    String::from_iter(cs.iter())
}

/// The characters of `s`, in order.
fn chars_of(s: &str) -> (r: Vec<char>)
    ensures
        r@ == s@,
{
    broadcast use axiom_spec_iter;

    let mut out: Vec<char> = Vec::new();
    for c in it: s.chars()
        invariant
            it.seq() == s@,
            out@ == it.seq().take(it.index() as int),
    {
        out.push(c);
    }
    out
}

/// Erases the type annotations of a typed script, giving plain script text.
pub fn strip_types(ts_content: &str) -> (r: String)
    ensures
        r@ == erased(ts_content@),
{
    let text = chars_of(ts_content);
    let js = erase_annotations(&text);
    string_of(&js)
}

/// Where the plain script made from the typed script at `ts_file_path` is
/// written: the same path with `.js` appended.
pub fn artifact_path(ts_file_path: &str) -> (r: String)
    ensures
        r@ == ts_file_path@ + ".js"@,
{
    let p = String::from_str(ts_file_path);
    p.concat(".js")
}

/// Text in which neither annotation shape starts anywhere comes out of the
/// eraser exactly as it went in.
pub proof fn lemma_erase_unannotated(s: Seq<char>)
    requires
        forall|i: int| 0 <= i < s.len() ==> annotation_len(s, i) == 0,
    ensures
        erased(s) == s,
{
    lemma_erase_from_unannotated(s, 0);
    assert(s.subrange(0, s.len() as int) == s);
}

proof fn lemma_erase_from_unannotated(s: Seq<char>, i: int)
    requires
        0 <= i <= s.len(),
        forall|j: int| 0 <= j < s.len() ==> annotation_len(s, j) == 0,
    ensures
        erase_from(s, i) == s.subrange(i, s.len() as int),
    decreases s.len() - i,
{
    if i < s.len() {
        lemma_erase_from_unannotated(s, i + 1);
        assert(seq![s[i]] + s.subrange(i + 1, s.len() as int) == s.subrange(i, s.len() as int));
    } else {
        assert(s.subrange(i, s.len() as int) =~= seq![]);
    }
}

/// Text with no `:` and no `<` in it holds no annotation, so the eraser
/// leaves it as it is.
pub proof fn lemma_erase_plain(s: Seq<char>)
    requires
        forall|i: int| 0 <= i < s.len() ==> s[i] != ':' && s[i] != '<',
    ensures
        erased(s) == s,
{
    lemma_erase_unannotated(s);
}

} // verus!
