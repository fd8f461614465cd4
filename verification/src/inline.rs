//! Inline commands in dialogue text: `@{ code }` splits a line into text
//! chunks and script expressions evaluated between them.
use vstd::prelude::*;
use vstd::string::*;

use crate::encoding::string_chars;
use crate::host::{runtime_error, runtime_error_is, EngineError};
use crate::text::{char_is_white_space, is_white_space};

verus! {

#[derive(Debug, PartialEq)]
pub enum InlineDialogueChunk {
    Text(String),
    Command(String),
}

pub enum ChunkView {
    Text(Seq<char>),
    Command(Seq<char>),
}

pub open spec fn chunk_view(c: InlineDialogueChunk) -> ChunkView {
    match c {
        InlineDialogueChunk::Text(s) => ChunkView::Text(s@),
        InlineDialogueChunk::Command(s) => ChunkView::Command(s@),
    }
}

pub open spec fn chunks_view(v: Seq<InlineDialogueChunk>) -> Seq<ChunkView> {
    Seq::new(v.len(), |i: int| chunk_view(v[i]))
}

/// Scans an inline command from index `i`, inside `depth` open braces:
/// the index of the brace that closes the command, if any. Braces inside
/// double-quoted strings, where a backslash escapes the next character, do
/// not count.
pub open spec fn command_end_from(
    t: Seq<char>,
    i: int,
    depth: nat,
    in_string: bool,
    escaped: bool,
) -> Option<int>
    decreases t.len() - i,
{
    if i < 0 || i >= t.len() {
        None
    } else if in_string {
        if escaped {
            command_end_from(t, i + 1, depth, true, false)
        } else if t[i] == '\\' {
            command_end_from(t, i + 1, depth, true, true)
        } else if t[i] == '"' {
            command_end_from(t, i + 1, depth, false, false)
        } else {
            command_end_from(t, i + 1, depth, true, false)
        }
    } else if t[i] == '"' {
        command_end_from(t, i + 1, depth, true, false)
    } else if t[i] == '{' {
        command_end_from(t, i + 1, depth + 1, false, false)
    } else if t[i] == '}' {
        if depth <= 1 {
            Some(i)
        } else {
            command_end_from(t, i + 1, (depth - 1) as nat, false, false)
        }
    } else {
        command_end_from(t, i + 1, depth, false, false)
    }
}

pub proof fn lemma_command_end_bounds(t: Seq<char>, i: int, depth: nat, in_string: bool, escaped: bool)
    ensures
        command_end_from(t, i, depth, in_string, escaped) matches Some(k) ==> i <= k < t.len()
            && t[k] == '}',
    decreases t.len() - i,
{
    if i < 0 || i >= t.len() {
    } else if in_string {
        if escaped {
            lemma_command_end_bounds(t, i + 1, depth, true, false);
        } else if t[i] == '\\' {
            lemma_command_end_bounds(t, i + 1, depth, true, true);
        } else if t[i] == '"' {
            lemma_command_end_bounds(t, i + 1, depth, false, false);
        } else {
            lemma_command_end_bounds(t, i + 1, depth, true, false);
        }
    } else if t[i] == '"' {
        lemma_command_end_bounds(t, i + 1, depth, true, false);
    } else if t[i] == '{' {
        lemma_command_end_bounds(t, i + 1, depth + 1, false, false);
    } else if t[i] == '}' {
        if depth > 1 {
            lemma_command_end_bounds(t, i + 1, (depth - 1) as nat, false, false);
        }
    } else {
        lemma_command_end_bounds(t, i + 1, depth, false, false);
    }
}

/// The index of the brace that closes the inline command starting at
/// `start`.
pub fn find_inline_command_end(t: &Vec<char>, start: usize) -> (r: Result<usize, EngineError>)
    ensures
        command_end_from(t@, start as int, 1, false, false) matches Some(k) ==> r
            == Ok::<usize, EngineError>(k as usize),
        command_end_from(t@, start as int, 1, false, false) is None ==> r is Err
            && runtime_error_is(r->Err_0, "unterminated inline dialogue command"@),
{
    let mut depth: u128 = 1;
    let mut in_string = false;
    let mut escaped = false;
    let mut i: usize = start;
    while i < t.len()
        invariant
            start <= i,
            1 <= depth <= i - start + 1,
            command_end_from(t@, start as int, 1, false, false) == command_end_from(
                t@,
                i as int,
                depth as nat,
                in_string,
                escaped,
            ),
            escaped ==> in_string,
        decreases t@.len() - i,
    {
        let c = t[i];
        if in_string {
            if escaped {
                escaped = false;
            } else if c == '\\' {
                escaped = true;
            } else if c == '"' {
                in_string = false;
            }
        } else if c == '"' {
            in_string = true;
        } else if c == '{' {
            depth = depth + 1;
        } else if c == '}' {
            if depth <= 1 {
                return Ok(i);
            }
            depth = depth - 1;
        }
        i = i + 1;
    }
    Err(runtime_error("unterminated inline dialogue command"))
}

/// The first `@{` at or after `from`.
pub open spec fn find_marker(t: Seq<char>, from: int) -> Option<int>
    decreases t.len() - from,
{
    if from < 0 || from + 1 >= t.len() {
        None
    } else if t[from] == '@' && t[from + 1] == '{' {
        Some(from)
    } else {
        find_marker(t, from + 1)
    }
}

pub proof fn lemma_find_marker_bounds(t: Seq<char>, from: int)
    ensures
        find_marker(t, from) matches Some(k) ==> from <= k && k + 1 < t.len(),
    decreases t.len() - from,
{
    if from < 0 || from + 1 >= t.len() {
    } else if t[from] == '@' && t[from + 1] == '{' {
    } else {
        lemma_find_marker_bounds(t, from + 1);
    }
}

fn find_marker_exec(t: &Vec<char>, from: usize) -> (r: Option<usize>)
    ensures
        match find_marker(t@, from as int) {
            Some(k) => r == Some(k as usize),
            None => r is None,
        },
{
    let mut i = from;
    while i < t.len() && i + 1 < t.len()
        invariant
            from <= i,
            find_marker(t@, from as int) == find_marker(t@, i as int),
        decreases t@.len() - i,
    {
        if t[i] == '@' && t[i + 1] == '{' {
            return Some(i);
        }
        i = i + 1;
    }
    None
}

/// White space trimmed from the start.
pub open spec fn trim_start(s: Seq<char>) -> Seq<char>
    decreases s.len(),
{
    if s.len() > 0 && is_white_space(s[0]) {
        trim_start(s.drop_first())
    } else {
        s
    }
}

/// White space trimmed from the end.
pub open spec fn trim_end(s: Seq<char>) -> Seq<char>
    decreases s.len(),
{
    if s.len() > 0 && is_white_space(s.last()) {
        trim_end(s.drop_last())
    } else {
        s
    }
}

/// White space trimmed from both ends, as `str::trim` does.
pub open spec fn trim(s: Seq<char>) -> Seq<char> {
    trim_end(trim_start(s))
}

/// The index of the first character from which on `trim_start` keeps `t`.
fn leading_space_end(t: &Vec<char>) -> (a: usize)
    ensures
        a <= t@.len(),
        trim_start(t@) == t@.subrange(a as int, t@.len() as int),
{
    let n = t.len();
    let mut a: usize = 0;
    assert(t@.subrange(0, n as int) =~= t@);
    while a < n && char_is_white_space(t[a])
        invariant
            n == t@.len(),
            0 <= a <= n,
            trim_start(t@) == trim_start(t@.subrange(a as int, n as int)),
        decreases n - a,
    {
        assert(t@.subrange(a as int, n as int).drop_first() =~= t@.subrange(a + 1, n as int));
        a = a + 1;
    }
    a
}

/// The end of what `trim_end` keeps of `t[a..]`.
fn trailing_space_start(t: &Vec<char>, a: usize) -> (b: usize)
    requires
        a <= t@.len(),
    ensures
        a <= b <= t@.len(),
        trim_end(t@.subrange(a as int, t@.len() as int)) == t@.subrange(a as int, b as int),
{
    let n = t.len();
    let mut b: usize = n;
    while b > a && char_is_white_space(t[b - 1])
        invariant
            n == t@.len(),
            0 <= a <= b <= n,
            trim_end(t@.subrange(a as int, n as int)) == trim_end(t@.subrange(a as int, b as int)),
        decreases b - a,
    {
        assert(t@.subrange(a as int, b as int).drop_last() =~= t@.subrange(a as int, b - 1));
        b = b - 1;
    }
    b
}

/// `s` with white space trimmed from both ends.
pub fn trim_text(s: &str) -> (r: String)
    ensures
        r@ == trim(s@),
{
    let t = string_chars(s);
    let a = leading_space_end(&t);
    let b = trailing_space_start(&t, a);
    s.substring_char(a, b).to_owned()
}

/// Splitting `t` from `cursor` on: text before each `@{`, the trimmed code
/// up to the matching `}`, and the text after the last command; or the
/// message of the first error.
pub open spec fn chunks_from(t: Seq<char>, cursor: int) -> Result<Seq<ChunkView>, Seq<char>>
    decreases t.len() - cursor,
{
    if cursor < 0 || cursor > t.len() {
        Ok(Seq::empty())
    } else {
        match find_marker(t, cursor) {
            None => Ok(
                if cursor < t.len() {
                    seq![ChunkView::Text(t.subrange(cursor, t.len() as int))]
                } else {
                    Seq::empty()
                },
            ),
            Some(start) => {
                let before = if start > cursor {
                    seq![ChunkView::Text(t.subrange(cursor, start))]
                } else {
                    Seq::empty()
                };
                match command_end_from(t, start + 2, 1, false, false) {
                    None => Err("unterminated inline dialogue command"@),
                    Some(end) => {
                        let code = trim(t.subrange(start + 2, end));
                        if code.len() == 0 {
                            Err("inline dialogue command cannot be empty"@)
                        } else {
                            proof {
                                lemma_find_marker_bounds(t, cursor);
                                lemma_command_end_bounds(t, start + 2, 1, false, false);
                            }
                            match chunks_from(t, end + 1) {
                                Err(e) => Err(e),
                                Ok(rest) => Ok(before + seq![ChunkView::Command(code)] + rest),
                            }
                        }
                    },
                }
            },
        }
    }
}

/// The chunks of a dialogue line; a line without any is one empty text.
pub open spec fn inline_chunks(t: Seq<char>) -> Result<Seq<ChunkView>, Seq<char>> {
    match chunks_from(t, 0) {
        Ok(c) => if c.len() == 0 {
            Ok(seq![ChunkView::Text(Seq::empty())])
        } else {
            Ok(c)
        },
        Err(e) => Err(e),
    }
}

pub open spec fn marker_at(t: Seq<char>, i: int) -> bool {
    t[i] == '@' && t[i + 1] == '{'
}

/// Does `t` hold the opening `@{` of an inline command?
pub open spec fn has_marker(t: Seq<char>) -> bool {
    exists|i: int| 0 <= i && i + 1 < t.len() && #[trigger] marker_at(t, i)
}

proof fn lemma_no_marker_from(t: Seq<char>, from: int)
    requires
        0 <= from,
        !has_marker(t),
    ensures
        find_marker(t, from) is None,
    decreases t.len() - from,
{
    if from + 1 < t.len() {
        assert(!marker_at(t, from));
        lemma_no_marker_from(t, from + 1);
    }
}

/// A line without inline commands is one text chunk, the line itself.
pub proof fn law_plain_text_is_one_chunk(t: Seq<char>)
    requires
        !has_marker(t),
    ensures
        inline_chunks(t) == Ok::<Seq<ChunkView>, Seq<char>>(seq![ChunkView::Text(t)]),
{
    lemma_no_marker_from(t, 0);
    assert(t.subrange(0, t.len() as int) =~= t);
    if t.len() == 0 {
        assert(t =~= Seq::<char>::empty());
    }
}

pub open spec fn chunks_result(r: Result<Vec<InlineDialogueChunk>, EngineError>, expected: Result<
    Seq<ChunkView>,
    Seq<char>,
>) -> bool {
    match expected {
        Ok(c) => r is Ok && chunks_view(r->Ok_0@) == c,
        Err(m) => r is Err && runtime_error_is(r->Err_0, m),
    }
}

/// Splits a dialogue line into text and inline commands.
pub fn parse_inline_dialogue_chunks(text: &str) -> (r: Result<Vec<InlineDialogueChunk>, EngineError>)
    ensures
        chunks_result(r, inline_chunks(text@)),
{
    let t = string_chars(text);
    let mut chunks: Vec<InlineDialogueChunk> = Vec::new();
    let mut cursor: usize = 0;
    loop
        invariant_except_break
            t@ == text@,
            cursor <= t@.len(),
            chunks_from(t@, 0) == match chunks_from(t@, cursor as int) {
                Ok(rest) => Ok(chunks_view(chunks@) + rest),
                Err(e) => Err(e),
            },
        ensures
            chunks_from(t@, 0) == Ok::<Seq<ChunkView>, Seq<char>>(chunks_view(chunks@)),
        decreases t@.len() - cursor,
    {
        let ghost c0 = chunks@;
        proof {
            lemma_find_marker_bounds(t@, cursor as int);
        }
        match find_marker_exec(&t, cursor) {
            None => {
                if cursor < t.len() {
                    chunks.push(
                        InlineDialogueChunk::Text(
                            text.substring_char(cursor, t.len()).to_owned(),
                        ),
                    );
                    assert(chunks_view(chunks@) =~= chunks_view(c0) + seq![
                        ChunkView::Text(t@.subrange(cursor as int, t@.len() as int)),
                    ]);
                } else {
                    assert(chunks_view(c0) + Seq::<ChunkView>::empty() =~= chunks_view(c0));
                }
                break;
            },
            Some(start) => {
                let ghost before: Seq<ChunkView> = if start > cursor {
                    seq![ChunkView::Text(t@.subrange(cursor as int, start as int))]
                } else {
                    Seq::empty()
                };
                if start > cursor {
                    chunks.push(
                        InlineDialogueChunk::Text(text.substring_char(cursor, start).to_owned()),
                    );
                }
                let ghost c1 = chunks@;
                assert(chunks_view(c1) =~= chunks_view(c0) + before);
                let command_start = start + 2;
                let end = match find_inline_command_end(&t, command_start) {
                    Ok(e) => e,
                    Err(e) => {
                        return Err(e);
                    },
                };
                proof {
                    lemma_command_end_bounds(t@, command_start as int, 1, false, false);
                }
                let code = trim_text(text.substring_char(command_start, end));
                if code.unicode_len() == 0 {
                    return Err(runtime_error("inline dialogue command cannot be empty"));
                }
                let ghost code_view = code@;
                chunks.push(InlineDialogueChunk::Command(code));
                assert(chunks_view(chunks@) =~= chunks_view(c1) + seq![ChunkView::Command(code_view)]);
                proof {
                    match chunks_from(t@, end + 1) {
                        Ok(rest) => {
                            assert(chunks_view(chunks@) + rest =~= chunks_view(c0) + (before
                                + seq![ChunkView::Command(code_view)] + rest));
                        },
                        Err(e) => {},
                    }
                }
                cursor = end + 1;
            },
        }
    }
    if chunks.len() == 0 {
        chunks.push(InlineDialogueChunk::Text(String::new()));
        assert(chunks_view(chunks@) =~= seq![ChunkView::Text(Seq::empty())]);
    }
    Ok(chunks)
}

} // verus!
