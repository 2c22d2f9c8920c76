use vstd::prelude::*;
use vstd::string::StringExecFns;
use crate::artifact::{Artifact, ArtifactKind, CodegenError};
use crate::billing::join_text;
use crate::text::push_char;

verus! {

broadcast use vstd::string::group_string_axioms;

/// The index of the first line feed.
pub open spec fn newline_index(text: Seq<char>) -> Option<int>
    decreases text.len(),
{
    if text.len() == 0 {
        None
    } else if text[0] == '\n' {
        Some(0)
    } else {
        match newline_index(text.drop_first()) {
            Some(i) => Some(i + 1),
            None => None,
        }
    }
}

/// A line without the carriage return of a `\r\n` ending.
pub open spec fn strip_cr(line: Seq<char>) -> Seq<char> {
    if line.len() > 0 && line.last() == '\r' {
        line.drop_last()
    } else {
        line
    }
}

/// The lines of a text as `str::lines` yields them: split at `\n`, a `\r`
/// before the `\n` dropped, and no empty line after a final line feed.
pub open spec fn lines_of(text: Seq<char>) -> Seq<Seq<char>>
    decreases text.len(),
{
    if text.len() == 0 {
        Seq::<Seq<char>>::empty()
    } else {
        match newline_index(text) {
            Some(i) => if 0 <= i < text.len() {
                seq![strip_cr(text.take(i))] + lines_of(text.skip(i + 1))
            } else {
                Seq::<Seq<char>>::empty()
            },
            None => seq![text],
        }
    }
}

proof fn lemma_newline_index(text: Seq<char>, k: int)
    requires
        0 <= k <= text.len(),
        forall|j: int| 0 <= j < k ==> text[j] != '\n',
    ensures
        k < text.len() && text[k] == '\n' ==> newline_index(text) == Some(k),
        k == text.len() ==> newline_index(text) is None,
    decreases k,
{
    if k > 0 {
        lemma_newline_index(text.drop_first(), k - 1);
    }
}

/// An inner doc comment `//!` turned into a plain `//` comment.
pub open spec fn demote_doc(line: Seq<char>) -> Seq<char> {
    if line.len() >= 3 && line[0] == '/' && line[1] == '/' && line[2] == '!' {
        seq!['/', '/'] + line.skip(3)
    } else {
        line
    }
}

/// The embedded source of a support crate: the generated header, then the
/// source's lines with `//!` demoted to `//`, joined by `\n`, and a final `\n`.
pub open spec fn embedded_text(source: Seq<char>, header: Seq<char>) -> Seq<char> {
    header + join_text(lines_of(source).map_values(|line: Seq<char>| demote_doc(line)), seq!['\n']) + seq!['\n']
}

fn append_chars(text: &mut String, chars: &Vec<char>, from: usize, to: usize)
    requires
        from <= to <= chars.len(),
    ensures
        final(text)@ == old(text)@ + chars@.subrange(from as int, to as int),
{
    let mut i = from;
    while i < to
        invariant
            from <= i <= to <= chars.len(),
            text@ == old(text)@ + chars@.subrange(from as int, i as int),
        decreases to - i,
    {
        push_char(text, chars[i]);
        proof {
            assert(chars@.subrange(from as int, i + 1) == chars@.subrange(from as int, i as int).push(chars@[i as int]));
        }
        i = i + 1;
    }
}

/// Appends one line, demoted if it is an inner doc comment.
fn append_line(text: &mut String, chars: &Vec<char>, from: usize, to: usize)
    requires
        from <= to <= chars.len(),
    ensures
        final(text)@ == old(text)@ + demote_doc(chars@.subrange(from as int, to as int)),
{
    let ghost line = chars@.subrange(from as int, to as int);
    if to - from >= 3 && chars[from] == '/' && chars[from + 1] == '/' && chars[from + 2] == '!' {
        push_char(text, '/');
        push_char(text, '/');
        append_chars(text, chars, from + 3, to);
        proof {
            assert(line.skip(3) == chars@.subrange(from + 3, to as int));
            assert(old(text)@.push('/').push('/') + line.skip(3) == old(text)@ + (seq!['/', '/'] + line.skip(3)));
        }
    } else {
        append_chars(text, chars, from, to);
    }
}

proof fn lemma_join_push(items: Seq<Seq<char>>, item: Seq<char>, separator: Seq<char>)
    ensures
        join_text(items.push(item), separator) == if items.len() == 0 {
            item
        } else {
            join_text(items, separator) + separator + item
        },
{
    assert(items.push(item).drop_last() == items);
}

/// The source of an embedded support crate, behind the generated header.
pub fn embedded_crate_source(source: &str, header: &str) -> (text: String)
    ensures
        text@ == embedded_text(source@, header@),
{
    let mut chars: Vec<char> = Vec::new();
    for c in iter: source.chars()
        invariant
            iter.seq() == source@,
            chars@ == source@.subrange(0, iter.index() as int),
    {
        chars.push(c);
        proof {
            assert(source@.subrange(0, iter.index() + 1) == source@.subrange(0, iter.index() as int).push(c));
        }
    }
    proof {
        assert(source@.subrange(0, source@.len() as int) == source@);
    }
    let mut body = String::new();
    let ghost mut done: Seq<Seq<char>> = Seq::empty();
    let mut start: usize = 0;
    let mut any_line = false;
    let mut i: usize = 0;
    proof {
        assert(chars@.skip(0) == chars@);
    }
    while i < chars.len()
        invariant
            chars@ == source@,
            start <= i <= chars.len(),
            forall|j: int| start <= j < i ==> chars@[j] != '\n',
            lines_of(source@) == done + lines_of(chars@.skip(start as int)),
            any_line == (done.len() > 0),
            body@ == join_text(done.map_values(|line: Seq<char>| demote_doc(line)), seq!['\n']),
        decreases chars.len() - i,
    {
        if chars[i] == '\n' {
            let ghost rest = chars@.skip(start as int);
            let mut end = i;
            if end > start && chars[end - 1] == '\r' {
                end = end - 1;
            }
            proof {
                lemma_newline_index(rest, i - start);
                assert(rest.take(i - start) == chars@.subrange(start as int, i as int));
                assert(rest.skip(i - start + 1) == chars@.skip(i + 1));
                assert(strip_cr(rest.take(i - start)) == chars@.subrange(start as int, end as int));
                assert(lines_of(rest) == seq![chars@.subrange(start as int, end as int)] + lines_of(chars@.skip(i + 1)));
                lemma_join_push(done.map_values(|line: Seq<char>| demote_doc(line)), demote_doc(chars@.subrange(start as int, end as int)), seq!['\n']);
                assert(done.push(chars@.subrange(start as int, end as int)).map_values(|line: Seq<char>| demote_doc(line))
                    == done.map_values(|line: Seq<char>| demote_doc(line)).push(demote_doc(chars@.subrange(start as int, end as int))));
                assert(done + (seq![chars@.subrange(start as int, end as int)] + lines_of(chars@.skip(i + 1)))
                    == done.push(chars@.subrange(start as int, end as int)) + lines_of(chars@.skip(i + 1)));
            }
            if any_line {
                push_char(&mut body, '\n');
            }
            append_line(&mut body, &chars, start, end);
            proof {
                done = done.push(chars@.subrange(start as int, end as int));
            }
            any_line = true;
            start = i + 1;
        }
        i = i + 1;
    }
    let ghost rest = chars@.skip(start as int);
    proof {
        lemma_newline_index(rest, rest.len() as int);
        assert(chars@.subrange(start as int, chars@.len() as int) == rest);
    }
    if start < chars.len() {
        proof {
            assert(lines_of(rest) == seq![rest]);
            lemma_join_push(done.map_values(|line: Seq<char>| demote_doc(line)), demote_doc(rest), seq!['\n']);
            assert(done.push(rest).map_values(|line: Seq<char>| demote_doc(line))
                == done.map_values(|line: Seq<char>| demote_doc(line)).push(demote_doc(rest)));
            assert(done + seq![rest] == done.push(rest));
        }
        if any_line {
            push_char(&mut body, '\n');
        }
        append_line(&mut body, &chars, start, chars.len());
        proof {
            done = done.push(rest);
        }
    } else {
        proof {
            assert(lines_of(rest) == Seq::<Seq<char>>::empty());
            assert(done + Seq::<Seq<char>>::empty() == done);
        }
    }
    let mut text = String::from_str(header);
    text.append(body.as_str());
    push_char(&mut text, '\n');
    text
}


/// A generated Rust source file.
pub fn generated(path: &str, content: String) -> (artifact: Artifact)
    ensures
        artifact.relative_path@ == path@,
        artifact.content@ == vstd::utf8::encode_utf8(content@),
        !artifact.executable,
        artifact.kind == ArtifactKind::RustSource,
{
    Artifact::text(path, content, ArtifactKind::RustSource)
}

/// The message of a source with nothing in it.
pub open spec fn empty_source_error() -> Seq<char> {
    "generated Rust source was empty"@
}

/// What `proc_macro2` prints for a source lexed into a token stream: the
/// stream's display, or the lexer error's display where the source does not
/// lex. The library, like any program outside a procedural macro, gets
/// `proc_macro2`'s own lexer and printer.
pub uninterp spec fn token_display(source: Seq<char>) -> Result<Seq<char>, Seq<char>>;

/// `source.parse::<proc_macro2::TokenStream>()`, then `to_string()` of the
/// stream, or of the `LexError`. The contract names the outcome, a function of
/// the source alone, and states nothing of its characters. Outside a
/// procedural macro, as here, `proc_macro2` lexes and prints with its own
/// fallback code; inside one it would hand the work to the compiler.
#[verifier::external_body]
fn displayed_tokens(source: &str) -> (result: Result<String, String>)
    ensures
        match result {
            Ok(text) => token_display(source@) == Ok::<Seq<char>, Seq<char>>(text@),
            Err(message) => token_display(source@) == Err::<Seq<char>, Seq<char>>(message@),
        },
{
    match source.parse::<proc_macro2::TokenStream>() {
        Ok(tokens) => Ok(tokens.to_string()),
        Err(error) => Err(error.to_string()),
    }
}

/// The sign of a negative integer literal in a generated source: the string
/// literal `"\u{2d}"` (a `-`) and a space, written before the literal's
/// magnitude. The lexer reads a `-` as a token of its own, while `quote`
/// prints a negative literal as one token (`-5i32`); the marker stays one
/// token through lexing and printing, and `restore_signs` turns it back into
/// the sign. No other token prints as this text: a string literal that the
/// library builds from a value writes a backslash as `\\`.
pub open spec fn sign_marker() -> Seq<char> {
    seq!['"', '\\', 'u', '{', '2', 'd', '}', '"', ' ']
}

/// The printed tokens with every sign marker turned back into `-`.
pub open spec fn restore_signs(text: Seq<char>) -> Seq<char>
    decreases text.len(),
{
    if text.len() == 0 {
        seq![]
    } else if text.len() >= 9 && text.subrange(0, 9) == sign_marker() {
        seq!['-'] + restore_signs(text.subrange(9, text.len() as int))
    } else {
        seq![text[0]] + restore_signs(text.drop_first())
    }
}

/// Appends the sign marker.
pub fn push_sign_marker(text: &mut String)
    ensures
        final(text)@ == old(text)@ + sign_marker(),
{
    push_char(text, '"');
    push_char(text, '\\');
    push_char(text, 'u');
    push_char(text, '{');
    push_char(text, '2');
    push_char(text, 'd');
    push_char(text, '}');
    push_char(text, '"');
    push_char(text, ' ');
    proof {
        assert(final(text)@ =~= old(text)@ + sign_marker());
    }
}

fn marker_at(chars: &Vec<char>, i: usize) -> (found: bool)
    requires
        i <= chars.len(),
    ensures
        found == (chars.len() - i >= 9 && chars@.subrange(i as int, i + 9) == sign_marker()),
{
    if chars.len() - i < 9 {
        return false;
    }
    let found = chars[i] == '"' && chars[i + 1] == '\\' && chars[i + 2] == 'u' && chars[i + 3] == '{'
        && chars[i + 4] == '2' && chars[i + 5] == 'd' && chars[i + 6] == '}' && chars[i + 7] == '"'
        && chars[i + 8] == ' ';
    proof {
        let window = chars@.subrange(i as int, i + 9);
        if found {
            assert(window =~= sign_marker());
        } else {
            assert(exists|k: int| 0 <= k < 9 && window[k] != sign_marker()[k]) by {
                if chars[i as int] != '"' { assert(window[0] != sign_marker()[0]); }
                else if chars[i + 1] != '\\' { assert(window[1] != sign_marker()[1]); }
                else if chars[i + 2] != 'u' { assert(window[2] != sign_marker()[2]); }
                else if chars[i + 3] != '{' { assert(window[3] != sign_marker()[3]); }
                else if chars[i + 4] != '2' { assert(window[4] != sign_marker()[4]); }
                else if chars[i + 5] != 'd' { assert(window[5] != sign_marker()[5]); }
                else if chars[i + 6] != '}' { assert(window[6] != sign_marker()[6]); }
                else if chars[i + 7] != '"' { assert(window[7] != sign_marker()[7]); }
                else { assert(window[8] != sign_marker()[8]); }
            }
        }
    }
    found
}

/// The printed tokens with every sign marker turned back into `-`.
pub fn restored_signs(text: &str) -> (output: String)
    ensures
        output@ == restore_signs(text@),
{
    let mut chars: Vec<char> = Vec::new();
    for c in iter: text.chars()
        invariant
            iter.seq() == text@,
            chars@ == text@.subrange(0, iter.index() as int),
    {
        proof {
            assert(text@.subrange(0, iter.index() + 1) == chars@.push(c));
        }
        chars.push(c);
    }
    proof {
        assert(chars@ == text@);
    }
    let mut output = String::new();
    let mut i: usize = 0;
    let n = chars.len();
    while i < n
        invariant
            n == chars.len(),
            chars@ == text@,
            i <= n,
            output@ + restore_signs(chars@.subrange(i as int, n as int)) == restore_signs(text@),
        decreases n - i,
    {
        let rest = Ghost(chars@.subrange(i as int, n as int));
        if marker_at(&chars, i) {
            proof {
                assert(rest@.subrange(0, 9) == chars@.subrange(i as int, i + 9));
                assert(rest@.subrange(9, rest@.len() as int) == chars@.subrange(i + 9, n as int));
            }
            push_char(&mut output, '-');
            i = i + 9;
        } else {
            proof {
                if rest@.len() >= 9 {
                    assert(rest@.subrange(0, 9) == chars@.subrange(i as int, i + 9));
                }
                assert(rest@.drop_first() == chars@.subrange(i + 1, n as int));
            }
            push_char(&mut output, chars[i]);
            i = i + 1;
        }
        proof {
            assert(output@ + restore_signs(chars@.subrange(i as int, n as int)) == restore_signs(text@));
        }
    }
    proof {
        assert(chars@.subrange(n as int, n as int).len() == 0);
    }
    output
}

/// A generated source file: the header, then the source's tokens as
/// `proc_macro2` prints them, with the signs of negative literals restored; a
/// source without tokens is refused, and so is one that does not lex, with
/// the lexer's message.
pub open spec fn render_spec(source: Seq<char>, header: Seq<char>) -> Result<Seq<char>, Seq<char>> {
    match token_display(source) {
        Err(message) => Err(message),
        Ok(tokens) => if tokens.len() == 0 {
            Err(empty_source_error())
        } else {
            Ok(header + restore_signs(tokens))
        },
    }
}

/// Prints a generated source's tokens behind its header, refusing a source
/// without tokens.
pub fn render(source: &str, header: &str) -> (result: Result<String, CodegenError>)
    ensures
        match result {
            Ok(text) => render_spec(source@, header@) == Ok::<Seq<char>, Seq<char>>(text@),
            Err(error) => render_spec(source@, header@) == Err::<Seq<char>, Seq<char>>(error@),
        },
{
    match displayed_tokens(source) {
        Err(message) => Err(CodegenError::new(message)),
        Ok(tokens) => {
            if tokens.as_str().unicode_len() == 0 {
                Err(CodegenError::new(String::from_str("generated Rust source was empty")))
            } else {
                let restored = restored_signs(tokens.as_str());
                let mut text = String::from_str(header);
                text.append(restored.as_str());
                Ok(text)
            }
        },
    }
}

/// The artifacts are exactly one Rust source file at the path with the source.
pub open spec fn rust_file(artifacts: Seq<Artifact>, path: Seq<char>, source: Seq<char>) -> bool {
    &&& artifacts.len() == 1
    &&& artifacts[0].relative_path@ == path
    &&& artifacts[0].content@ == vstd::utf8::encode_utf8(source)
    &&& !artifacts[0].executable
    &&& artifacts[0].kind == ArtifactKind::RustSource
}

/// One Rust source file.
pub fn single_file(path: &str, source: String) -> (artifacts: Vec<Artifact>)
    ensures
        rust_file(artifacts@, path@, source@),
{
    let mut artifacts: Vec<Artifact> = Vec::new();
    artifacts.push(generated(path, source));
    artifacts
}

/// An artifact is a text file with the path, text and kind.
pub open spec fn text_file(artifact: Artifact, file: (Seq<char>, Seq<char>, ArtifactKind)) -> bool {
    &&& artifact.relative_path@ == file.0
    &&& artifact.content@ == vstd::utf8::encode_utf8(file.1)
    &&& !artifact.executable
    &&& artifact.kind == file.2
}

/// The artifacts are the text files, in order.
pub open spec fn text_files(artifacts: Seq<Artifact>, files: Seq<(Seq<char>, Seq<char>, ArtifactKind)>) -> bool {
    &&& artifacts.len() == files.len()
    &&& forall|i: int| 0 <= i < files.len() ==> text_file(#[trigger] artifacts[i], files[i])
}

/// A path that does not start at the file-system root.
pub open spec fn relative_path(path: Seq<char>) -> bool {
    !(path.len() > 0 && path[0] == '/')
}

/// Every file's path is relative.
pub open spec fn relative_files(files: Seq<(Seq<char>, Seq<char>, ArtifactKind)>) -> bool {
    forall|i: int| 0 <= i < files.len() ==> relative_path(#[trigger] files[i].0)
}

/// Every artifact's path is relative.
pub open spec fn relative_artifacts(artifacts: Seq<Artifact>) -> bool {
    forall|i: int| 0 <= i < artifacts.len() ==> relative_path(#[trigger] artifacts[i].relative_path@)
}

/// Artifacts that are the files have the files' paths.
pub(crate) proof fn lemma_relative_artifacts(artifacts: Seq<Artifact>, files: Seq<(Seq<char>, Seq<char>, ArtifactKind)>)
    requires
        text_files(artifacts, files),
        relative_files(files),
    ensures
        relative_artifacts(artifacts),
{
    assert forall|i: int| 0 <= i < artifacts.len() implies relative_path(#[trigger] artifacts[i].relative_path@) by {
        assert(text_file(artifacts[i], files[i]));
        assert(relative_path(files[i].0));
    }
}

} // verus!
