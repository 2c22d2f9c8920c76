use vstd::prelude::*;
use crate::text::{is_lower, is_upper, lower, push_char, to_lower};
use vstd::string::StringExecFns;
use crate::ir::Entity;

verus! {

broadcast use vstd::string::group_string_axioms;

/// What one character of a camel-case name becomes in snake case.
pub open spec fn snake_piece(c: char, index: int) -> Seq<char> {
    if is_upper(c) {
        if index > 0 {
            seq!['_', lower(c)]
        } else {
            seq![lower(c)]
        }
    } else {
        seq![c]
    }
}

/// Snake case: every ASCII capital becomes lower case, preceded by `_`
/// unless it opens the name.
pub open spec fn snake_text(s: Seq<char>) -> Seq<char>
    decreases s.len(),
{
    if s.len() == 0 {
        seq![]
    } else {
        snake_text(s.drop_last()) + snake_piece(s.last(), s.len() - 1)
    }
}

pub fn snake_name(value: &str) -> (output: String)
    ensures
        output@ == snake_text(value@),
{
    let mut output = String::new();
    let mut started = false;
    for character in iter: value.chars()
        invariant
            iter.seq() == value@,
            started == (iter.index() > 0),
            output@ == snake_text(value@.subrange(0, iter.index() as int)),
    {
        proof {
            let i = iter.index() as int;
            assert(value@.subrange(0, i + 1).drop_last() == value@.subrange(0, i));
        }
        if 'A' <= character && character <= 'Z' {
            if started {
                push_char(&mut output, '_');
            }
            push_char(&mut output, to_lower(character));
        } else {
            push_char(&mut output, character);
        }
        started = true;
    }
    proof {
        assert(value@.subrange(0, value@.len() as int) == value@);
    }
    output
}


/// How many ASCII capitals a name has after its first character: each of them
/// gains a `_` in snake case.
pub open spec fn capitals_after_first(s: Seq<char>) -> nat
    decreases s.len(),
{
    if s.len() == 0 {
        0
    } else {
        capitals_after_first(s.drop_last()) + if s.len() > 1 && is_upper(s.last()) {
            1nat
        } else {
            0nat
        }
    }
}

/// The characters of a text other than `_`, in order.
pub open spec fn without_underscores(s: Seq<char>) -> Seq<char>
    decreases s.len(),
{
    if s.len() == 0 {
        seq![]
    } else if s.last() == '_' {
        without_underscores(s.drop_last())
    } else {
        without_underscores(s.drop_last()).push(s.last())
    }
}

/// The text with every ASCII capital in lower case.
pub open spec fn lower_text(s: Seq<char>) -> Seq<char> {
    s.map_values(|c: char| lower(c))
}

/// No character of the text is an ASCII capital.
pub open spec fn no_capitals(s: Seq<char>) -> bool {
    forall|i: int| 0 <= i < s.len() ==> !is_upper(#[trigger] s[i])
}

proof fn lemma_lower_letter(c: char)
    requires
        is_upper(c),
    ensures
        is_lower(lower(c)),
        !is_upper(lower(c)),
        lower(c) != '_',
{
}

proof fn lemma_without_underscores_add(a: Seq<char>, b: Seq<char>)
    ensures
        without_underscores(a + b) == without_underscores(a) + without_underscores(b),
    decreases b.len(),
{
    if b.len() == 0 {
        assert(a + b == a);
    } else {
        lemma_without_underscores_add(a, b.drop_last());
        assert((a + b).drop_last() == a + b.drop_last());
        assert((a + b).last() == b.last());
    }
}

proof fn lemma_snake_no_capitals(v: Seq<char>)
    ensures
        no_capitals(snake_text(v)),
    decreases v.len(),
{
    if v.len() > 0 {
        lemma_snake_no_capitals(v.drop_last());
        let c = v.last();
        if is_upper(c) {
            lemma_lower_letter(c);
        }
        let head = snake_text(v.drop_last());
        let piece = snake_piece(c, v.len() - 1);
        assert forall|i: int| 0 <= i < (head + piece).len() implies !is_upper(#[trigger] (head + piece)[i]) by {
            if i >= head.len() {
                assert((head + piece)[i] == piece[i - head.len()]);
            }
        }
    }
}

proof fn lemma_snake_fixed(s: Seq<char>)
    requires
        no_capitals(s),
    ensures
        snake_text(s) == s,
    decreases s.len(),
{
    if s.len() > 0 {
        assert(!is_upper(s[s.len() - 1]));
        assert(no_capitals(s.drop_last())) by {
            assert forall|i: int| 0 <= i < s.drop_last().len() implies !is_upper(#[trigger] s.drop_last()[i]) by {
                assert(s.drop_last()[i] == s[i]);
            }
        }
        lemma_snake_fixed(s.drop_last());
        assert(s.drop_last().push(s.last()) == s);
    }
}

proof fn lemma_snake_shape(v: Seq<char>)
    ensures
        snake_text(v).len() == v.len() + capitals_after_first(v),
        without_underscores(snake_text(v)) == without_underscores(lower_text(v)),
    decreases v.len(),
{
    if v.len() > 0 {
        let init = v.drop_last();
        let c = v.last();
        lemma_snake_shape(init);
        if is_upper(c) {
            lemma_lower_letter(c);
        }
        let piece = snake_piece(c, v.len() - 1);
        lemma_without_underscores_add(snake_text(init), piece);
        lemma_without_underscores_add(lower_text(init), seq![lower(c)]);
        assert(lower_text(v) == lower_text(init) + seq![lower(c)]);
        assert(without_underscores(piece) == without_underscores(seq![lower(c)])) by {
            reveal_with_fuel(without_underscores, 3);
            if is_upper(c) && v.len() - 1 > 0 {
                assert(piece.drop_last() == seq!['_']);
                assert(seq!['_'].drop_last() == Seq::<char>::empty());
            }
            assert(seq![lower(c)].drop_last() == Seq::<char>::empty());
            assert(piece.len() == 1 ==> piece.drop_last() == Seq::<char>::empty());
        }
    }
}

/// Law: a snake-case name holds no ASCII capital, so snake case leaves it as it
/// is; it is one character longer than the name for each capital after the
/// first character; and with the `_` taken out of both it reads as the name in
/// lower case with its own `_` taken out.
pub proof fn law_snake_case(v: Seq<char>)
    ensures
        no_capitals(snake_text(v)),
        snake_text(snake_text(v)) == snake_text(v),
        snake_text(v).len() == v.len() + capitals_after_first(v),
        without_underscores(snake_text(v)) == without_underscores(lower_text(v)),
{
    lemma_snake_no_capitals(v);
    lemma_snake_fixed(snake_text(v));
    lemma_snake_shape(v);
}

/// The module name of an entity: its Rust name in snake case.
pub fn module_name(entity: &Entity) -> (name: String)
    ensures
        name@ == snake_text(entity.rust_name@),
{
    snake_name(entity.rust_name.as_str())
}

/// Kebab case: snake case with every `_` turned into `-`.
pub open spec fn dash(c: char) -> char {
    if c == '_' {
        '-'
    } else {
        c
    }
}

pub open spec fn kebab_text(s: Seq<char>) -> Seq<char> {
    snake_text(s).map_values(|c: char| dash(c))
}

pub fn kebab_name(value: &str) -> (output: String)
    ensures
        output@ == kebab_text(value@),
{
    let snake = snake_name(value);
    let mut output = String::new();
    for character in iter: snake.as_str().chars()
        invariant
            iter.seq() == snake@,
            output@ == snake@.subrange(0, iter.index() as int).map_values(|c: char| dash(c)),
    {
        proof {
            let i = iter.index() as int;
            assert(snake@.subrange(0, i + 1) == snake@.subrange(0, i).push(snake@[i]));
        }
        if character == '_' {
            push_char(&mut output, '-');
        } else {
            push_char(&mut output, character);
        }
        proof {
            let i = iter.index() as int;
            assert(snake@.subrange(0, i + 1).map_values(|c: char| dash(c))
                == snake@.subrange(0, i).map_values(|c: char| dash(c)).push(dash(snake@[i])));
        }
    }
    proof {
        assert(snake@.subrange(0, snake@.len() as int) == snake@);
    }
    output
}

/// What `char::to_uppercase` yields for a character.
pub uninterp spec fn uppercase(c: char) -> Seq<char>;

/// `char::to_uppercase`, collected. Besides naming the result, this states what
/// the documentation gives for ASCII: a lower-case letter maps to its capital
/// and every other ASCII character has no upper-case mapping, so it maps to itself.
#[verifier::external_body]
fn char_uppercase(c: char) -> (upper: String)
    ensures
        upper@ == uppercase(c),
        is_lower(c) ==> upper@ == seq![((c as u32) - 32) as char],
        (c as u32) < 128 && !is_lower(c) ==> upper@ == seq![c],
{
    c.to_uppercase().collect()
}

/// What one character of a snake-case name becomes in Pascal case: the first
/// character of every `_`-separated part is upper-cased and the `_` dropped.
pub open spec fn pascal_piece(s: Seq<char>, i: int) -> Seq<char> {
    if s[i] == '_' {
        seq![]
    } else if i == 0 || s[i - 1] == '_' {
        uppercase(s[i])
    } else {
        seq![s[i]]
    }
}

pub open spec fn pascal_text(s: Seq<char>) -> Seq<char>
    decreases s.len(),
{
    if s.len() == 0 {
        seq![]
    } else {
        pascal_text(s.drop_last()) + pascal_piece(s, s.len() - 1)
    }
}

proof fn lemma_pascal_prefix(s: Seq<char>, i: int)
    requires
        0 <= i < s.len(),
    ensures
        pascal_text(s.subrange(0, i + 1)) == pascal_text(s.subrange(0, i)) + pascal_piece(s, i),
{
    let t = s.subrange(0, i + 1);
    assert(t.drop_last() == s.subrange(0, i));
    assert(pascal_piece(t, i) == pascal_piece(s, i));
}

/// Joins the `_`-separated parts of a name, each with its first character upper-cased.
pub fn pascal_case(value: &str) -> (output: String)
    ensures
        output@ == pascal_text(value@),
{
    let mut output = String::new();
    let mut previous_underscore = true;
    for character in iter: value.chars()
        invariant
            iter.seq() == value@,
            previous_underscore == (iter.index() == 0 || value@[iter.index() - 1] == '_'),
            output@ == pascal_text(value@.subrange(0, iter.index() as int)),
    {
        proof {
            lemma_pascal_prefix(value@, iter.index() as int);
        }
        if character == '_' {
            previous_underscore = true;
        } else if previous_underscore {
            let upper = char_uppercase(character);
            output.append(upper.as_str());
            previous_underscore = false;
        } else {
            push_char(&mut output, character);
            previous_underscore = false;
        }
    }
    proof {
        assert(value@.subrange(0, value@.len() as int) == value@);
    }
    output
}

/// The characters that a Rust string literal must escape.
pub open spec fn escape_piece(c: char) -> Seq<char> {
    if c == '\\' {
        seq!['\\', '\\']
    } else if c == '"' {
        seq!['\\', '"']
    } else {
        seq![c]
    }
}

pub open spec fn escape_text(s: Seq<char>) -> Seq<char>
    decreases s.len(),
{
    if s.len() == 0 {
        seq![]
    } else {
        escape_text(s.drop_last()) + escape_piece(s.last())
    }
}

/// Escapes backslashes and double quotes so that the value can stand inside
/// a Rust string literal.
pub fn escape(value: &str) -> (output: String)
    ensures
        output@ == escape_text(value@),
{
    let mut output = String::new();
    for character in iter: value.chars()
        invariant
            iter.seq() == value@,
            output@ == escape_text(value@.subrange(0, iter.index() as int)),
    {
        proof {
            let i = iter.index() as int;
            assert(value@.subrange(0, i + 1).drop_last() == value@.subrange(0, i));
        }
        if character == '\\' {
            push_char(&mut output, '\\');
            push_char(&mut output, '\\');
        } else if character == '"' {
            push_char(&mut output, '\\');
            push_char(&mut output, '"');
        } else {
            push_char(&mut output, character);
        }
    }
    proof {
        assert(value@.subrange(0, value@.len() as int) == value@);
    }
    output
}

/// Reads the body of a Rust string literal back: `\` takes the character after
/// it as it is.
pub open spec fn unescape_text(s: Seq<char>) -> Seq<char>
    decreases s.len(),
{
    if s.len() == 0 {
        seq![]
    } else if s[0] == '\\' && s.len() >= 2 {
        seq![s[1]] + unescape_text(s.subrange(2, s.len() as int))
    } else {
        seq![s[0]] + unescape_text(s.drop_first())
    }
}

/// The text can stand between the quotes of a Rust string literal: every `"`
/// in it is taken by a `\` before it, and no `\` is left without a character
/// after it, so nothing in it closes the literal early.
pub open spec fn literal_body(s: Seq<char>) -> bool
    decreases s.len(),
{
    if s.len() == 0 {
        true
    } else if s[0] == '\\' {
        s.len() >= 2 && literal_body(s.subrange(2, s.len() as int))
    } else {
        s[0] != '"' && literal_body(s.drop_first())
    }
}

/// How many backslashes and double quotes a text holds.
pub open spec fn escaped_count(s: Seq<char>) -> nat
    decreases s.len(),
{
    if s.len() == 0 {
        0
    } else {
        escaped_count(s.drop_last()) + if s.last() == '\\' || s.last() == '"' {
            1nat
        } else {
            0nat
        }
    }
}

proof fn lemma_escape_add(a: Seq<char>, b: Seq<char>)
    ensures
        escape_text(a + b) == escape_text(a) + escape_text(b),
    decreases b.len(),
{
    if b.len() == 0 {
        assert(a + b == a);
    } else {
        lemma_escape_add(a, b.drop_last());
        assert((a + b).drop_last() == a + b.drop_last());
        assert((a + b).last() == b.last());
    }
}

proof fn lemma_escape_front(v: Seq<char>)
    requires
        v.len() > 0,
    ensures
        escape_text(v) == escape_piece(v[0]) + escape_text(v.drop_first()),
{
    assert(v == seq![v[0]] + v.drop_first());
    lemma_escape_add(seq![v[0]], v.drop_first());
    assert(seq![v[0]].drop_last() == Seq::<char>::empty());
    assert(escape_text(seq![v[0]]) == escape_text(Seq::<char>::empty()) + escape_piece(v[0]));
}

proof fn lemma_escape_read_back(v: Seq<char>)
    ensures
        unescape_text(escape_text(v)) == v,
        literal_body(escape_text(v)),
    decreases v.len(),
{
    if v.len() > 0 {
        let c = v[0];
        let rest = escape_text(v.drop_first());
        lemma_escape_read_back(v.drop_first());
        lemma_escape_front(v);
        let e = escape_piece(c) + rest;
        if c == '\\' || c == '"' {
            assert(e.subrange(2, e.len() as int) == rest);
            assert(e[1] == c);
        } else {
            assert(e.drop_first() == rest);
        }
        assert(v == seq![c] + v.drop_first());
    }
}

proof fn lemma_escape_len(v: Seq<char>)
    ensures
        escape_text(v).len() == v.len() + escaped_count(v),
    decreases v.len(),
{
    if v.len() > 0 {
        lemma_escape_len(v.drop_last());
    }
}

/// Law: an escaped value can stand inside a Rust string literal, reading the
/// literal back gives the value again, and escaping adds exactly one character
/// for each backslash and double quote of the value.
pub proof fn law_escape_round_trip(v: Seq<char>)
    ensures
        literal_body(escape_text(v)),
        unescape_text(escape_text(v)) == v,
        escape_text(v).len() == v.len() + escaped_count(v),
{
    lemma_escape_read_back(v);
    lemma_escape_len(v);
}

} // verus!
