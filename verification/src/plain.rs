//! Plain template sources: those that the renderer is known to return on.
//!
//! A plain source is text with tags of these forms, blanks at will between
//! the words of a tag, and a `-` at either edge of a tag to trim the text
//! beside it:
//!
//! * `{{ path }}` writes a variable. A path is a name followed by any number
//!   of parts `.name` or `[digits]`.
//! * `{% if condition %}`, `{% elif condition %}`, `{% else %}`, `{% endif %}`.
//!   A condition is made of paths, whole numbers, texts in double quotes that
//!   hold letters, digits, `_`, `.` and `-`, the comparisons `==`, `!=`, `<`,
//!   `>`, `<=`, `>=`, and the words `not`, `and`, `or`, each set apart by
//!   blanks.
//! * `{% for name in path %}`, `{% endfor %}`, with `{% else %}` for a list
//!   without elements.
//! * `{# a comment #}`.
//!
//! Conditions and loops are nested at most sixteen deep, and each is closed.
//! A condition has at most 32 words. Both bounds keep the renderer, which
//! calls itself for what is nested, within its stack.
//!
//! What stays out, and why: arithmetic, because the renderer panics where a
//! sum or a difference leaves the range of floating-point numbers, or a
//! remainder is taken of the least integer; filters, functions, tests and
//! the word `in` in a condition, because what they call was not read;
//! macros, inclusion and inheritance, because a template that calls or
//! includes itself makes the renderer run out of stack; assignment, because
//! it is of use only with what stays out.

use vstd::prelude::*;
use vstd::std_specs::iter::IteratorSpec;
use vstd::string::*;

verus! {

broadcast use vstd::string::group_string_axioms;

/// How deep conditions and loops may be nested.
pub const MAX_DEPTH: usize = 16;

/// How many words a condition may have, `if` or `elif` counted.
pub const MAX_WORDS: usize = 32;

pub open spec fn is_letter(c: char) -> bool {
    (0x61 <= c as u32 <= 0x7a) || (0x41 <= c as u32 <= 0x5a) || c == '_'
}

pub open spec fn is_digit(c: char) -> bool {
    0x30 <= c as u32 <= 0x39
}

pub open spec fn is_blank(c: char) -> bool {
    c == ' ' || c == '\t' || c == '\r' || c == '\n'
}

/// The characters that a text in a condition may hold.
pub open spec fn is_text_char(c: char) -> bool {
    is_letter(c) || is_digit(c) || c == '.' || c == '-'
}

/// The characters that a tag may hold.
pub open spec fn is_tag_char(c: char) -> bool {
    is_letter(c) || is_digit(c) || is_blank(c) || c == '.' || c == '[' || c == ']' || c == '='
        || c == '!' || c == '<' || c == '>' || c == '-' || c == '"'
}

/// Where the reading of a path stands.
#[derive(Clone, Copy, Debug, PartialEq, Eq, Structural)]
pub enum PathState {
    /// Before the first character.
    Start,
    /// After a character of a name, a point or a closing bracket.
    Name,
    /// After an opening bracket.
    Index,
    /// In the digits between brackets.
    Digits,
    /// After a character that no path has at its place.
    Refused,
}

/// Where the reading of a path stands after one more character.
pub open spec fn path_step(state: PathState, c: char) -> PathState {
    match state {
        PathState::Start => if is_letter(c) {
            PathState::Name
        } else {
            PathState::Refused
        },
        PathState::Name => if is_letter(c) || is_digit(c) || c == '.' {
            PathState::Name
        } else if c == '[' {
            PathState::Index
        } else {
            PathState::Refused
        },
        PathState::Index => if is_digit(c) {
            PathState::Digits
        } else {
            PathState::Refused
        },
        PathState::Digits => if is_digit(c) {
            PathState::Digits
        } else if c == ']' {
            PathState::Name
        } else {
            PathState::Refused
        },
        PathState::Refused => PathState::Refused,
    }
}

/// Whether the characters from `i` up to `end` complete a path that is read
/// up to `state`.
pub open spec fn path_from(s: Seq<char>, i: int, end: int, state: PathState) -> bool
    decreases end - i,
{
    if i >= end {
        state == PathState::Name
    } else {
        path_from(s, i + 1, end, path_step(state, s[i]))
    }
}

/// Whether the characters from `i` up to `end` are digits.
pub open spec fn digits_from(s: Seq<char>, i: int, end: int) -> bool
    decreases end - i,
{
    if i >= end {
        true
    } else {
        is_digit(s[i]) && digits_from(s, i + 1, end)
    }
}

/// Whether the characters from `i` up to `end` may stand in a text.
pub open spec fn text_from(s: Seq<char>, i: int, end: int) -> bool
    decreases end - i,
{
    if i >= end {
        true
    } else {
        is_text_char(s[i]) && text_from(s, i + 1, end)
    }
}

/// Whether a word is a path, and none of the words that a condition would
/// read as a test.
pub open spec fn path_ok(s: Seq<char>, a: int, b: int) -> bool {
    path_from(s, a, b, PathState::Start) && s.subrange(a, b) != "is"@ && s.subrange(a, b) != "in"@
}

/// Whether a word is a whole number.
pub open spec fn int_ok(s: Seq<char>, a: int, b: int) -> bool {
    let digits = if a < b && s[a] == '-' {
        a + 1
    } else {
        a
    };
    digits < b && digits_from(s, digits, b)
}

/// Whether a word is a text in double quotes.
pub open spec fn string_ok(s: Seq<char>, a: int, b: int) -> bool {
    b - a >= 2 && s[a] == '"' && s[b - 1] == '"' && text_from(s, a + 1, b - 1)
}

/// Whether a word is a comparison.
pub open spec fn is_comparison(word: Seq<char>) -> bool {
    word == "=="@ || word == "!="@ || word == "<"@ || word == ">"@ || word == "<="@ || word
        == ">="@
}

/// Whether a word may stand in a condition.
pub open spec fn condition_word(s: Seq<char>, a: int, b: int) -> bool {
    let word = s.subrange(a, b);
    word == "not"@ || word == "and"@ || word == "or"@ || is_comparison(word) || int_ok(s, a, b)
        || string_ok(s, a, b) || path_ok(s, a, b)
}

/// What kind of tag the words read so far make.
#[derive(Clone, Copy, Debug, PartialEq, Eq, Structural)]
pub enum Form {
    /// A tag that writes a variable.
    Variable,
    /// A statement of which no word is read.
    First,
    /// `if` or `elif`, and the words of its condition.
    Condition,
    /// `for`, and the words after it.
    Loop,
    /// `else`, `endif` or `endfor`.
    Bare,
    /// No tag of a plain source.
    Refused,
}

/// What a tag does to the nesting.
#[derive(Clone, Copy, Debug, PartialEq, Eq, Structural)]
pub enum Effect {
    /// Nothing.
    Keeps,
    /// It opens a condition or a loop.
    Opens,
    /// It stands inside one.
    Inner,
    /// It closes one.
    Closes,
}

/// The kind of tag and its effect after one more word, the word from `a` up
/// to `b`, `count` words having been read.
pub open spec fn after_word(
    s: Seq<char>,
    a: int,
    b: int,
    form: Form,
    effect: Effect,
    count: int,
) -> (Form, Effect) {
    let word = s.subrange(a, b);
    match form {
        Form::Variable => if count == 0 && path_ok(s, a, b) {
            (Form::Variable, Effect::Keeps)
        } else {
            (Form::Refused, Effect::Keeps)
        },
        Form::First => if word == "if"@ {
            (Form::Condition, Effect::Opens)
        } else if word == "elif"@ {
            (Form::Condition, Effect::Inner)
        } else if word == "for"@ {
            (Form::Loop, Effect::Opens)
        } else if word == "else"@ {
            (Form::Bare, Effect::Inner)
        } else if word == "endif"@ || word == "endfor"@ {
            (Form::Bare, Effect::Closes)
        } else {
            (Form::Refused, Effect::Keeps)
        },
        Form::Condition => if condition_word(s, a, b) {
            (Form::Condition, effect)
        } else {
            (Form::Refused, Effect::Keeps)
        },
        Form::Loop => if (count == 1 && path_ok(s, a, b)) || (count == 2 && word == "in"@) || (
        count == 3 && path_ok(s, a, b)) {
            (Form::Loop, effect)
        } else {
            (Form::Refused, Effect::Keeps)
        },
        Form::Bare => (Form::Refused, Effect::Keeps),
        Form::Refused => (Form::Refused, Effect::Keeps),
    }
}

/// Whether a tag of a kind is whole with `count` words.
pub open spec fn complete(form: Form, count: int) -> bool {
    match form {
        Form::Variable => count == 1,
        Form::Condition => 2 <= count <= MAX_WORDS,
        Form::Loop => count == 4,
        Form::Bare => count == 1,
        _ => false,
    }
}

/// The effect of the tag whose characters from `i` up to `end` are still to
/// read, the word at hand starting at `word_start`; `None` for what is no tag
/// of a plain source.
pub open spec fn words_from(
    s: Seq<char>,
    i: int,
    end: int,
    word_start: int,
    form: Form,
    effect: Effect,
    count: int,
) -> Option<Effect>
    decreases end - i,
{
    if i >= end {
        let last = if word_start < end {
            after_word(s, word_start, end, form, effect, count)
        } else {
            (form, effect)
        };
        let words = if word_start < end {
            count + 1
        } else {
            count
        };
        if complete(last.0, words) {
            Some(last.1)
        } else {
            None
        }
    } else if is_blank(s[i]) {
        if word_start < i {
            let next = after_word(s, word_start, i, form, effect, count);
            words_from(s, i + 1, end, i + 1, next.0, next.1, count + 1)
        } else {
            words_from(s, i + 1, end, i + 1, form, effect, count)
        }
    } else {
        words_from(s, i + 1, end, word_start, form, effect, count)
    }
}

/// The effect of the tag that holds the characters from `start` up to
/// `close`, a `-` at either edge left out.
pub open spec fn tag_effect(s: Seq<char>, start: int, close: int, statement: bool) -> Option<
    Effect,
> {
    let a = if start < close && s[start] == '-' {
        start + 1
    } else {
        start
    };
    let b = if a < close && s[close - 1] == '-' {
        close - 1
    } else {
        close
    };
    words_from(
        s,
        a,
        b,
        a,
        if statement {
            Form::First
        } else {
            Form::Variable
        },
        Effect::Keeps,
        0,
    )
}

/// In what the reading of a source stands.
#[derive(Clone, Copy, Debug, PartialEq, Eq, Structural)]
pub enum Mode {
    Text,
    Variable,
    Statement,
    Comment,
}

/// Whether the rest of a source from `i` on is plain, read in `mode`, the tag
/// at hand starting at `start`, inside `depth` conditions and loops.
pub open spec fn reading(s: Seq<char>, i: int, mode: Mode, start: int, depth: int) -> bool
    decreases s.len() - i,
{
    if i >= s.len() {
        mode == Mode::Text && depth == 0
    } else {
        let closes = i + 1 < s.len() && s[i + 1] == '}';
        match mode {
            Mode::Text => if s[i] == '{' && i + 1 < s.len() && s[i + 1] == '{' {
                reading(s, i + 2, Mode::Variable, i + 2, depth)
            } else if s[i] == '{' && i + 1 < s.len() && s[i + 1] == '%' {
                reading(s, i + 2, Mode::Statement, i + 2, depth)
            } else if s[i] == '{' && i + 1 < s.len() && s[i + 1] == '#' {
                reading(s, i + 2, Mode::Comment, i + 2, depth)
            } else {
                reading(s, i + 1, Mode::Text, start, depth)
            },
            Mode::Variable => if s[i] == '}' {
                closes && tag_effect(s, start, i, false) is Some && reading(
                    s,
                    i + 2,
                    Mode::Text,
                    start,
                    depth,
                )
            } else {
                is_tag_char(s[i]) && reading(s, i + 1, Mode::Variable, start, depth)
            },
            Mode::Statement => if s[i] == '%' {
                closes && match tag_effect(s, start, i, true) {
                    Some(Effect::Opens) => depth < MAX_DEPTH && reading(
                        s,
                        i + 2,
                        Mode::Text,
                        start,
                        depth + 1,
                    ),
                    Some(Effect::Inner) => depth >= 1 && reading(
                        s,
                        i + 2,
                        Mode::Text,
                        start,
                        depth,
                    ),
                    Some(Effect::Closes) => depth >= 1 && reading(
                        s,
                        i + 2,
                        Mode::Text,
                        start,
                        depth - 1,
                    ),
                    _ => false,
                }
            } else {
                is_tag_char(s[i]) && reading(s, i + 1, Mode::Statement, start, depth)
            },
            Mode::Comment => if s[i] == '#' && closes {
                reading(s, i + 2, Mode::Text, start, depth)
            } else {
                reading(s, i + 1, Mode::Comment, start, depth)
            },
        }
    }
}

/// Whether a source is plain.
pub open spec fn is_plain_source(source: Seq<char>) -> bool {
    reading(source, 0, Mode::Text, 0, 0)
}

/// A source without an opening brace is plain.
pub proof fn lemma_text_is_plain(source: Seq<char>, from: int)
    requires
        0 <= from,
        forall|i: int| from <= i < source.len() ==> source[i] != '{',
    ensures
        reading(source, from, Mode::Text, 0, 0),
    decreases source.len() - from,
{
    if from < source.len() {
        lemma_text_is_plain(source, from + 1);
    }
}

fn letter(c: char) -> (r: bool)
    ensures
        r == is_letter(c),
{
    let code = c as u32;
    (0x61 <= code && code <= 0x7a) || (0x41 <= code && code <= 0x5a) || c == '_'
}

fn digit(c: char) -> (r: bool)
    ensures
        r == is_digit(c),
{
    let code = c as u32;
    0x30 <= code && code <= 0x39
}

fn blank(c: char) -> (r: bool)
    ensures
        r == is_blank(c),
{
    c == ' ' || c == '\t' || c == '\r' || c == '\n'
}

fn tag_char(c: char) -> (r: bool)
    ensures
        r == is_tag_char(c),
{
    letter(c) || digit(c) || blank(c) || c == '.' || c == '[' || c == ']' || c == '=' || c == '!'
        || c == '<' || c == '>' || c == '-' || c == '"'
}

/// The characters of a text.
pub fn chars_of(text: &str) -> (r: Vec<char>)
    ensures
        r@ == text@,
{
    let mut out: Vec<char> = Vec::new();
    let mut chars = text.chars();
    assert(chars.remaining() =~= text@.subrange(0, text@.len() as int));
    loop
        invariant
            out@.len() <= text@.len(),
            chars.obeys_prophetic_iter_laws(),
            chars.remaining() == text@.subrange(out@.len() as int, text@.len() as int),
            out@ == text@.subrange(0, out@.len() as int),
        ensures
            out@ == text@,
        decreases text@.len() - out@.len(),
    {
        let ghost read = out@.len() as int;
        match chars.next() {
            Some(c) => {
                assert(c == text@[read]);
                assert(chars.remaining() =~= text@.subrange(read + 1, text@.len() as int));
                out.push(c);
                assert(out@ =~= text@.subrange(0, read + 1));
            },
            None => {
                assert(out@ =~= text@);
                break ;
            },
        }
    }
    out
}

/// Whether the characters from `a` up to `b` are those of `word`.
fn range_is(s: &Vec<char>, a: usize, b: usize, word: &str) -> (r: bool)
    requires
        a <= b <= s@.len(),
    ensures
        r == (s@.subrange(a as int, b as int) == word@),
{
    let expected = chars_of(word);
    if expected.len() != b - a {
        return false;
    }
    let mut k: usize = 0;
    while k < expected.len()
        invariant
            k <= expected.len(),
            expected@ == word@,
            expected@.len() == b - a,
            a <= b <= s@.len(),
            forall|j: int| 0 <= j < k ==> s@[a + j] == expected@[j],
        decreases expected.len() - k,
    {
        if s[a + k] != expected[k] {
            assert(s@.subrange(a as int, b as int)[k as int] != word@[k as int]);
            return false;
        }
        k += 1;
    }
    assert(s@.subrange(a as int, b as int) =~= word@);
    true
}

fn path_next(state: PathState, c: char) -> (r: PathState)
    ensures
        r == path_step(state, c),
{
    match state {
        PathState::Start => if letter(c) {
            PathState::Name
        } else {
            PathState::Refused
        },
        PathState::Name => if letter(c) || digit(c) || c == '.' {
            PathState::Name
        } else if c == '[' {
            PathState::Index
        } else {
            PathState::Refused
        },
        PathState::Index => if digit(c) {
            PathState::Digits
        } else {
            PathState::Refused
        },
        PathState::Digits => if digit(c) {
            PathState::Digits
        } else if c == ']' {
            PathState::Name
        } else {
            PathState::Refused
        },
        PathState::Refused => PathState::Refused,
    }
}

fn is_path(s: &Vec<char>, a: usize, b: usize) -> (r: bool)
    requires
        a <= b <= s@.len(),
    ensures
        r == path_ok(s@, a as int, b as int),
{
    let mut state = PathState::Start;
    let mut i: usize = a;
    while i < b
        invariant
            a <= i <= b <= s@.len(),
            path_from(s@, a as int, b as int, PathState::Start) == path_from(
                s@,
                i as int,
                b as int,
                state,
            ),
        decreases b - i,
    {
        state = path_next(state, s[i]);
        i += 1;
    }
    state == PathState::Name && !range_is(s, a, b, "is") && !range_is(s, a, b, "in")
}

fn is_digits(s: &Vec<char>, a: usize, b: usize) -> (r: bool)
    requires
        a <= b <= s@.len(),
    ensures
        r == digits_from(s@, a as int, b as int),
{
    let mut i: usize = a;
    while i < b
        invariant
            a <= i <= b <= s@.len(),
            digits_from(s@, a as int, b as int) == digits_from(s@, i as int, b as int),
        decreases b - i,
    {
        if !digit(s[i]) {
            return false;
        }
        i += 1;
    }
    true
}

fn is_text(s: &Vec<char>, a: usize, b: usize) -> (r: bool)
    requires
        a <= b <= s@.len(),
    ensures
        r == text_from(s@, a as int, b as int),
{
    let mut i: usize = a;
    while i < b
        invariant
            a <= i <= b <= s@.len(),
            text_from(s@, a as int, b as int) == text_from(s@, i as int, b as int),
        decreases b - i,
    {
        let c = s[i];
        if !(letter(c) || digit(c) || c == '.' || c == '-') {
            return false;
        }
        i += 1;
    }
    true
}

fn is_int(s: &Vec<char>, a: usize, b: usize) -> (r: bool)
    requires
        a <= b <= s@.len(),
    ensures
        r == int_ok(s@, a as int, b as int),
{
    let digits = if a < b && s[a] == '-' {
        a + 1
    } else {
        a
    };
    digits < b && is_digits(s, digits, b)
}

fn is_string(s: &Vec<char>, a: usize, b: usize) -> (r: bool)
    requires
        a <= b <= s@.len(),
    ensures
        r == string_ok(s@, a as int, b as int),
{
    b - a >= 2 && s[a] == '"' && s[b - 1] == '"' && is_text(s, a + 1, b - 1)
}

fn is_condition_word(s: &Vec<char>, a: usize, b: usize) -> (r: bool)
    requires
        a <= b <= s@.len(),
    ensures
        r == condition_word(s@, a as int, b as int),
{
    range_is(s, a, b, "not") || range_is(s, a, b, "and") || range_is(s, a, b, "or") || range_is(
        s,
        a,
        b,
        "==",
    ) || range_is(s, a, b, "!=") || range_is(s, a, b, "<") || range_is(s, a, b, ">") || range_is(
        s,
        a,
        b,
        "<=",
    ) || range_is(s, a, b, ">=") || is_int(s, a, b) || is_string(s, a, b) || is_path(s, a, b)
}

fn word_read(s: &Vec<char>, a: usize, b: usize, form: Form, effect: Effect, count: usize) -> (r: (
    Form,
    Effect,
))
    requires
        a <= b <= s@.len(),
    ensures
        r == after_word(s@, a as int, b as int, form, effect, count as int),
{
    let refused = (Form::Refused, Effect::Keeps);
    match form {
        Form::Variable => if count == 0 && is_path(s, a, b) {
            (Form::Variable, Effect::Keeps)
        } else {
            refused
        },
        Form::First => if range_is(s, a, b, "if") {
            (Form::Condition, Effect::Opens)
        } else if range_is(s, a, b, "elif") {
            (Form::Condition, Effect::Inner)
        } else if range_is(s, a, b, "for") {
            (Form::Loop, Effect::Opens)
        } else if range_is(s, a, b, "else") {
            (Form::Bare, Effect::Inner)
        } else if range_is(s, a, b, "endif") || range_is(s, a, b, "endfor") {
            (Form::Bare, Effect::Closes)
        } else {
            refused
        },
        Form::Condition => if is_condition_word(s, a, b) {
            (Form::Condition, effect)
        } else {
            refused
        },
        Form::Loop => if (count == 1 && is_path(s, a, b)) || (count == 2 && range_is(
            s,
            a,
            b,
            "in",
        )) || (count == 3 && is_path(s, a, b)) {
            (Form::Loop, effect)
        } else {
            refused
        },
        Form::Bare => refused,
        Form::Refused => refused,
    }
}

fn is_complete(form: Form, count: usize) -> (r: bool)
    ensures
        r == complete(form, count as int),
{
    match form {
        Form::Variable => count == 1,
        Form::Condition => 2 <= count && count <= MAX_WORDS,
        Form::Loop => count == 4,
        Form::Bare => count == 1,
        _ => false,
    }
}

/// The effect of the tag that holds the characters from `start` up to `close`.
fn effect_of(s: &Vec<char>, start: usize, close: usize, statement: bool) -> (r: Option<Effect>)
    requires
        start <= close <= s@.len(),
    ensures
        r == tag_effect(s@, start as int, close as int, statement),
{
    let a = if start < close && s[start] == '-' {
        start + 1
    } else {
        start
    };
    let b = if a < close && s[close - 1] == '-' {
        close - 1
    } else {
        close
    };
    let mut form = if statement {
        Form::First
    } else {
        Form::Variable
    };
    let mut effect = Effect::Keeps;
    let mut count: usize = 0;
    let mut word_start: usize = a;
    let mut i: usize = a;
    let ghost first = form;
    while i < b
        invariant
            a <= word_start <= i <= b <= s@.len(),
            count <= word_start,
            words_from(s@, a as int, b as int, a as int, first, Effect::Keeps, 0) == words_from(
                s@,
                i as int,
                b as int,
                word_start as int,
                form,
                effect,
                count as int,
            ),
        decreases b - i,
    {
        if blank(s[i]) {
            if word_start < i {
                let next = word_read(s, word_start, i, form, effect, count);
                form = next.0;
                effect = next.1;
                count = count + 1;
            }
            word_start = i + 1;
        }
        i += 1;
    }
    if word_start < b {
        let next = word_read(s, word_start, b, form, effect, count);
        form = next.0;
        effect = next.1;
        count = count + 1;
    }
    if is_complete(form, count) {
        Some(effect)
    } else {
        None
    }
}

/// Whether a source is plain.
pub fn is_plain(source: &str) -> (r: bool)
    ensures
        r == is_plain_source(source@),
{
    let s = chars_of(source);
    let n = s.len();
    let mut mode = Mode::Text;
    let mut start: usize = 0;
    let mut depth: usize = 0;
    let mut i: usize = 0;
    while i < n
        invariant
            n == s@.len(),
            s@ == source@,
            i <= n,
            depth <= MAX_DEPTH,
            mode != Mode::Text ==> start <= i,
            is_plain_source(source@) == reading(s@, i as int, mode, start as int, depth as int),
        decreases n - i,
    {
        let c = s[i];
        let closes = i + 1 < n && s[i + 1] == '}';
        match mode {
            Mode::Text => {
                if c == '{' && i + 1 < n && (s[i + 1] == '{' || s[i + 1] == '%' || s[i + 1]
                    == '#') {
                    mode = if s[i + 1] == '{' {
                        Mode::Variable
                    } else if s[i + 1] == '%' {
                        Mode::Statement
                    } else {
                        Mode::Comment
                    };
                    start = i + 2;
                    i += 2;
                } else {
                    i += 1;
                }
            },
            Mode::Variable => {
                if c == '}' {
                    if !closes {
                        return false;
                    }
                    if effect_of(&s, start, i, false).is_none() {
                        return false;
                    }
                    mode = Mode::Text;
                    i += 2;
                } else if tag_char(c) {
                    i += 1;
                } else {
                    return false;
                }
            },
            Mode::Statement => {
                if c == '%' {
                    if !closes {
                        return false;
                    }
                    match effect_of(&s, start, i, true) {
                        Some(Effect::Opens) => {
                            if depth >= MAX_DEPTH {
                                return false;
                            }
                            depth = depth + 1;
                        },
                        Some(Effect::Inner) => {
                            if depth == 0 {
                                return false;
                            }
                        },
                        Some(Effect::Closes) => {
                            if depth == 0 {
                                return false;
                            }
                            depth = depth - 1;
                        },
                        _ => {
                            return false;
                        },
                    }
                    mode = Mode::Text;
                    i += 2;
                } else if tag_char(c) {
                    i += 1;
                } else {
                    return false;
                }
            },
            Mode::Comment => {
                if c == '#' && closes {
                    mode = Mode::Text;
                    i += 2;
                } else {
                    i += 1;
                }
            },
        }
    }
    mode == Mode::Text && depth == 0
}

} // verus!
