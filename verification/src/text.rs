use vstd::prelude::*;
use vstd::string::StringExecFns;
use crate::billing::join_text;
use crate::fields::texts;

verus! {

/// ASCII upper-case letter.
pub open spec fn is_upper(c: char) -> bool {
    'A' <= c && c <= 'Z'
}

/// ASCII lower-case letter.
pub open spec fn is_lower(c: char) -> bool {
    'a' <= c && c <= 'z'
}

/// The ASCII lower-case form of an upper-case letter; other characters are kept.
pub open spec fn lower(c: char) -> char {
    if is_upper(c) {
        ((c as u32) + 32) as char
    } else {
        c
    }
}

/// Appends one character; `String::push`.
#[verifier::external_body]
pub(crate) fn push_char(s: &mut String, c: char)
    ensures
        final(s)@ == old(s)@.push(c),
{
    s.push(c);
}

pub fn to_lower(c: char) -> (r: char)
    ensures
        r == lower(c),
{
    if 'A' <= c && c <= 'Z' {
        let b: u8 = c as u8;
        (b + 32) as char
    } else {
        c
    }
}

/// The items in order, each followed by the suffix.
pub open spec fn suffixed_text(items: Seq<Seq<char>>, suffix: Seq<char>) -> Seq<char>
    decreases items.len(),
{
    if items.len() == 0 {
        Seq::<char>::empty()
    } else {
        suffixed_text(items.drop_last(), suffix) + items.last() + suffix
    }
}

/// Appends every item, each followed by the suffix.
pub fn append_suffixed(text: &mut String, items: &Vec<String>, suffix: &str)
    ensures
        final(text)@ == old(text)@ + suffixed_text(texts(items@), suffix@),
{
    let ghost start = text@;
    let mut i: usize = 0;
    proof {
        assert(texts(items@.subrange(0, 0)) == Seq::<Seq<char>>::empty());
    }
    while i < items.len()
        invariant
            i <= items.len(),
            text@ == start + suffixed_text(texts(items@.subrange(0, i as int)), suffix@),
        decreases items.len() - i,
    {
        proof {
            assert(texts(items@.subrange(0, i + 1)).drop_last() == texts(items@.subrange(0, i as int)));
            assert(texts(items@.subrange(0, i + 1)).last() == items@[i as int]@);
        }
        text.append(items[i].as_str());
        text.append(suffix);
        i = i + 1;
    }
    proof {
        assert(items@.subrange(0, items@.len() as int) == items@);
    }
}

/// Appends the items joined by the separator.
pub fn append_joined(text: &mut String, items: &Vec<String>, separator: &str)
    ensures
        final(text)@ == old(text)@ + join_text(texts(items@), separator@),
{
    let ghost start = text@;
    let mut i: usize = 0;
    proof {
        assert(texts(items@.subrange(0, 0)) == Seq::<Seq<char>>::empty());
    }
    while i < items.len()
        invariant
            i <= items.len(),
            text@ == start + join_text(texts(items@.subrange(0, i as int)), separator@),
        decreases items.len() - i,
    {
        proof {
            assert(texts(items@.subrange(0, i + 1)).drop_last() == texts(items@.subrange(0, i as int)));
            assert(texts(items@.subrange(0, i + 1)).last() == items@[i as int]@);
        }
        if i > 0 {
            text.append(separator);
        }
        text.append(items[i].as_str());
        i = i + 1;
    }
    proof {
        assert(items@.subrange(0, items@.len() as int) == items@);
    }
}

/// The text holds `part` at some position.
pub open spec fn contains_text(text: Seq<char>, part: Seq<char>) -> bool {
    exists|at: int| 0 <= at && at + part.len() <= text.len() && #[trigger] text.subrange(at, at + part.len()) == part
}

/// A text holds what stands at a position of it.
pub proof fn lemma_contains_at(text: Seq<char>, part: Seq<char>, at: int)
    requires
        0 <= at,
        at + part.len() <= text.len(),
        text.subrange(at, at + part.len()) =~= part,
    ensures
        contains_text(text, part),
{
}

/// A text holds itself.
pub proof fn lemma_contains_self(text: Seq<char>)
    ensures
        contains_text(text, text),
{
    let at: int = 0;
    assert(text.subrange(at, at + text.len()) =~= text);
}

/// A text that holds `part` still holds it with anything put after it.
pub broadcast proof fn lemma_contains_before(text: Seq<char>, more: Seq<char>, part: Seq<char>)
    requires
        contains_text(text, part),
    ensures
        #[trigger] contains_text(text + more, part),
{
    let at = choose|at: int| 0 <= at && at + part.len() <= text.len() && #[trigger] text.subrange(at, at + part.len()) == part;
    assert((text + more).subrange(at, at + part.len()) =~= text.subrange(at, at + part.len()));
}

/// A text that holds `part` still holds it with anything put before it.
pub broadcast proof fn lemma_contains_after(more: Seq<char>, text: Seq<char>, part: Seq<char>)
    requires
        contains_text(text, part),
    ensures
        #[trigger] contains_text(more + text, part),
{
    let at = choose|at: int| 0 <= at && at + part.len() <= text.len() && #[trigger] text.subrange(at, at + part.len()) == part;
    assert((more + text).subrange(more.len() + at, more.len() + at + part.len()) =~= text.subrange(at, at + part.len()));
}

/// A text holds every piece of it.
pub proof fn lemma_contains_middle(before: Seq<char>, part: Seq<char>, after: Seq<char>)
    ensures
        contains_text(before + part + after, part),
{
    let text = before + part + after;
    assert(text.subrange(before.len() as int, (before.len() + part.len()) as int) =~= part);
}

pub broadcast group group_contains_text {
    lemma_contains_before,
    lemma_contains_after,
}

} // verus!
