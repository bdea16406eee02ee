//! Writing a command so that a shell reads it back word for word.

use vstd::prelude::*;

use crate::script;
use crate::text;

verus! {

/// A character that means nothing but itself to a shell, wherever it stands.
pub open spec fn is_safe(c: char) -> bool {
    script::is_letter(c) || script::is_digit(c) || c == '_' || c == '.' || c == '/' || c == ':' || c == '-' || c == '='
}

pub open spec fn all_safe(value: Seq<char>) -> bool {
    forall|i: int| 0 <= i < value.len() ==> is_safe(#[trigger] value[i])
}

/// How one character is written between single quotes. A single quote closes
/// the quotes, stands there behind a backslash, and opens them again.
pub open spec fn escaped_char(c: char) -> Seq<char> {
    if c == '\'' {
        seq!['\'', '\\', '\'', '\'']
    } else {
        seq![c]
    }
}

/// How a text is written between single quotes.
pub open spec fn escaped(value: Seq<char>) -> Seq<char>
    decreases value.len(),
{
    if value.len() == 0 {
        Seq::empty()
    } else {
        escaped(value.drop_last()) + escaped_char(value.last())
    }
}

/// How a word is written for a shell: as it stands where all of it is safe, and
/// between single quotes otherwise.
pub open spec fn quoted(value: Seq<char>) -> Seq<char> {
    if all_safe(value) {
        value
    } else {
        seq!['\''] + escaped(value) + seq!['\'']
    }
}

/// The words of a command, each quoted, with one blank between neighbours.
pub open spec fn command_line(command: Seq<Seq<char>>) -> Seq<char> {
    text::joined(command.map_values(|word: Seq<char>| quoted(word)), seq![' '])
}

fn safe(c: char) -> (r: bool)
    ensures
        r == is_safe(c),
{
    ('a' <= c && c <= 'z') || ('A' <= c && c <= 'Z') || ('0' <= c && c <= '9') || c == '_' || c == '.' || c == '/' || c
        == ':' || c == '-' || c == '='
}

/// Writes one word for a shell.
pub fn shell_quote(value: &str) -> (r: String)
    ensures
        r@ == quoted(value@),
{
    let list = text::characters(value);
    let mut plain: bool = true;
    let mut out = String::new();
    out.push('\'');
    let mut i: usize = 0;
    proof {
        assert(value@.take(0) =~= Seq::empty());
        assert(out@ =~= seq!['\''] + escaped(value@.take(0)));
    }
    while i < list.len()
        invariant
            list@ == value@,
            i <= list@.len(),
            plain == all_safe(value@.take(i as int)),
            out@ == seq!['\''] + escaped(value@.take(i as int)),
        decreases list@.len() - i,
    {
        let c = list[i];
        let ghost before = out@;
        if c == '\'' {
            out.push('\'');
            out.push('\\');
            out.push('\'');
            out.push('\'');
        } else {
            out.push(c);
        }
        proof {
            let done = value@.take(i as int);
            let more = value@.take(i + 1);
            assert(more.drop_last() =~= done);
            assert(out@ =~= before + escaped_char(c));
            assert(out@ =~= seq!['\''] + escaped(more));
            assert(all_safe(more) == (all_safe(done) && is_safe(c))) by {
                if all_safe(more) {
                    assert forall|j: int| 0 <= j < done.len() implies is_safe(#[trigger] done[j]) by {
                        assert(done[j] == more[j]);
                    }
                    assert(is_safe(more[i as int]));
                }
                if all_safe(done) && is_safe(c) {
                    assert forall|j: int| 0 <= j < more.len() implies is_safe(#[trigger] more[j]) by {
                        if j < i {
                            assert(more[j] == done[j]);
                        }
                    }
                }
            }
        }
        plain = plain && safe(c);
        i = i + 1;
    }
    proof {
        assert(value@.take(value@.len() as int) =~= value@);
    }
    if plain {
        value.to_owned()
    } else {
        out.push('\'');
        proof {
            assert(out@ =~= quoted(value@));
        }
        out
    }
}

/// Writes a command for a shell.
pub fn command_display(command: &Vec<String>) -> (r: String)
    ensures
        r@ == command_line(text::texts(command@)),
{
    let mut words: Vec<String> = Vec::new();
    let mut i: usize = 0;
    while i < command.len()
        invariant
            i == words@.len() <= command@.len(),
            forall|j: int| 0 <= j < i ==> (#[trigger] words@[j])@ == quoted(command@[j]@),
        decreases command@.len() - i,
    {
        words.push(shell_quote(command[i].as_str()));
        i = i + 1;
    }
    let r = text::join(&words, " ");
    proof {
        reveal_strlit(" ");
        assert(" "@ =~= seq![' ']);
        assert(text::texts(words@) =~= text::texts(command@).map_values(|word: Seq<char>| quoted(word)));
    }
    r
}

/// A character with a meaning of its own to a shell where no quotes stand round
/// it. Blanks, single quotes and the backslash are not among them: they are
/// read below.
pub open spec fn is_special(c: char) -> bool {
    c == '|' || c == '&' || c == ';' || c == '<' || c == '>' || c == '(' || c == ')' || c == '$' || c == '`' || c == '"'
        || c == '*' || c == '?' || c == '[' || c == ']' || c == '#' || c == '~' || c == '!' || c == '{' || c == '}' || c
        == '\t' || c == '\n'
}

/// How a shell goes on reading words from `s`: between single quotes or not, in
/// the middle of a word or before one, after the words `done`.
pub open spec fn reads_on(s: Seq<char>, in_quotes: bool, word: Option<Seq<char>>, done: Seq<Seq<char>>) -> Option<
    Seq<Seq<char>>,
>
    decreases s.len(),
{
    let so_far = match word {
        Some(w) => w,
        None => Seq::empty(),
    };
    if s.len() == 0 {
        if in_quotes {
            None
        } else {
            match word {
                Some(w) => Some(done.push(w)),
                None => Some(done),
            }
        }
    } else if in_quotes {
        if s[0] == '\'' {
            reads_on(s.skip(1), false, Some(so_far), done)
        } else {
            reads_on(s.skip(1), true, Some(so_far.push(s[0])), done)
        }
    } else if s[0] == '\'' {
        reads_on(s.skip(1), true, Some(so_far), done)
    } else if s[0] == '\\' {
        if s.len() < 2 || s[1] == '\n' {
            None
        } else {
            reads_on(s.skip(2), false, Some(so_far.push(s[1])), done)
        }
    } else if s[0] == ' ' {
        match word {
            Some(w) => reads_on(s.skip(1), false, None, done.push(w)),
            None => reads_on(s.skip(1), false, None, done),
        }
    } else if is_special(s[0]) {
        None
    } else {
        reads_on(s.skip(1), false, Some(so_far.push(s[0])), done)
    }
}

/// The words that a POSIX shell reads from a line made of blanks, single
/// quotes, backslashes and characters without a special meaning; `None` for
/// any other line. Whether a word at the start is taken for an assignment is
/// not told.
pub open spec fn shell_words(line: Seq<char>) -> Option<Seq<Seq<char>>> {
    reads_on(line, false, None, Seq::empty())
}

proof fn reads_safe(value: Seq<char>, tail: Seq<char>, word: Option<Seq<char>>, done: Seq<Seq<char>>)
    requires
        all_safe(value),
        value.len() > 0,
    ensures
        reads_on(value + tail, false, word, done) == reads_on(
            tail,
            false,
            Some(
                match word {
                    Some(w) => w,
                    None => Seq::empty(),
                } + value,
            ),
            done,
        ),
    decreases value.len(),
{
    let so_far: Seq<char> = match word {
        Some(w) => w,
        None => Seq::empty(),
    };
    let s = value + tail;
    assert(is_safe(value[0]));
    assert(s[0] == value[0]);
    assert(s.skip(1) =~= value.skip(1) + tail);
    let next = Some(so_far.push(value[0]));
    if value.len() == 1 {
        assert(s.skip(1) =~= tail);
        assert(so_far.push(value[0]) =~= so_far + value);
    } else {
        assert forall|i: int| 0 <= i < value.skip(1).len() implies is_safe(#[trigger] value.skip(1)[i]) by {
            assert(value.skip(1)[i] == value[i + 1]);
        }
        reads_safe(value.skip(1), tail, next, done);
        assert(so_far.push(value[0]) + value.skip(1) =~= so_far + value);
    }
}

proof fn reads_escaped(value: Seq<char>, tail: Seq<char>, word: Seq<char>, done: Seq<Seq<char>>)
    ensures
        reads_on(escaped(value) + tail, true, Some(word), done) == reads_on(tail, true, Some(word + value), done),
    decreases value.len(),
{
    if value.len() == 0 {
        assert(escaped(value) + tail =~= tail);
        assert(word + value =~= word);
    } else {
        let c = value.last();
        let front = value.drop_last();
        let rest = escaped_char(c) + tail;
        assert(escaped(value) + tail =~= escaped(front) + rest);
        reads_escaped(front, rest, word, done);
        let w = word + front;
        assert(w.push(c) =~= word + value);
        if c == '\'' {
            assert(rest[0] == '\'' && rest[1] == '\\' && rest[2] == '\'' && rest[3] == '\'');
            let r1 = rest.skip(1);
            let r3 = r1.skip(2);
            assert(r1[0] == '\\' && r1[1] == '\'');
            assert(r3[0] == '\'');
            assert(r3.skip(1) =~= tail);
            assert(reads_on(rest, true, Some(w), done) == reads_on(r1, false, Some(w), done));
            assert(reads_on(r1, false, Some(w), done) == reads_on(r3, false, Some(w.push('\'')), done));
            assert(reads_on(r3, false, Some(w.push('\'')), done) == reads_on(tail, true, Some(w.push('\'')), done));
        } else {
            assert(rest[0] == c);
            assert(rest.skip(1) =~= tail);
        }
    }
}

proof fn reads_quoted(value: Seq<char>, tail: Seq<char>, done: Seq<Seq<char>>)
    requires
        value.len() > 0,
    ensures
        reads_on(quoted(value) + tail, false, None, done) == reads_on(tail, false, Some(value), done),
{
    if all_safe(value) {
        reads_safe(value, tail, None, done);
        assert(Seq::<char>::empty() + value =~= value);
    } else {
        let s = quoted(value) + tail;
        let rest = seq!['\''] + tail;
        assert(s[0] == '\'');
        assert(s.skip(1) =~= escaped(value) + rest);
        reads_escaped(value, rest, Seq::empty(), done);
        assert(Seq::<char>::empty() + value =~= value);
        assert(rest[0] == '\'');
        assert(rest.skip(1) =~= tail);
    }
}

/// A shell reads a quoted word back as the very word it was made from. The
/// empty word is left out: it is written as nothing at all.
pub proof fn quoted_word_reads_back(value: Seq<char>)
    requires
        value.len() > 0,
    ensures
        shell_words(quoted(value)) == Some(seq![value]),
{
    reads_quoted(value, Seq::empty(), Seq::empty());
    assert(quoted(value) + Seq::<char>::empty() =~= quoted(value));
    assert(Seq::<Seq<char>>::empty().push(value) =~= seq![value]);
}

proof fn reads_command(command: Seq<Seq<char>>, tail: Seq<char>)
    requires
        command.len() > 0,
        forall|i: int| 0 <= i < command.len() ==> (#[trigger] command[i]).len() > 0,
    ensures
        reads_on(command_line(command) + tail, false, None, Seq::empty()) == reads_on(
            tail,
            false,
            Some(command.last()),
            command.drop_last(),
        ),
    decreases command.len(),
{
    let words = command.map_values(|word: Seq<char>| quoted(word));
    let last = command.last();
    assert(last.len() > 0);
    if command.len() == 1 {
        assert(command.drop_last() =~= Seq::empty());
        reads_quoted(last, tail, Seq::empty());
    } else {
        let front = command.drop_last();
        assert(words.drop_last() =~= front.map_values(|word: Seq<char>| quoted(word)));
        let after = quoted(last) + tail;
        let rest = seq![' '] + after;
        assert(command_line(command) + tail =~= command_line(front) + rest);
        assert forall|i: int| 0 <= i < front.len() implies (#[trigger] front[i]).len() > 0 by {
            assert(front[i] == command[i]);
        }
        reads_command(front, rest);
        assert(rest[0] == ' ');
        assert(rest.skip(1) =~= after);
        assert(front.drop_last().push(front.last()) =~= front);
        reads_quoted(last, tail, front);
    }
}

/// A shell reads a displayed command back as the very words it was made from.
/// Commands with an empty word are left out: such a word is written as nothing
/// at all.
pub proof fn displayed_command_reads_back(command: Seq<Seq<char>>)
    requires
        forall|i: int| 0 <= i < command.len() ==> (#[trigger] command[i]).len() > 0,
    ensures
        shell_words(command_line(command)) == Some(command),
{
    if command.len() == 0 {
        assert(command =~= Seq::empty());
    } else {
        reads_command(command, Seq::empty());
        assert(command_line(command) + Seq::<char>::empty() =~= command_line(command));
        assert(command.drop_last().push(command.last()) =~= command);
    }
}

/// A command line with a word before it is the line of the longer command.
pub proof fn command_line_of(word: Seq<char>, command: Seq<Seq<char>>)
    requires
        command.len() > 0,
    ensures
        command_line(seq![word] + command) == quoted(word) + seq![' '] + command_line(command),
    decreases command.len(),
{
    let whole = seq![word] + command;
    let words = whole.map_values(|word: Seq<char>| quoted(word));
    let short = command.map_values(|word: Seq<char>| quoted(word));
    let front = command.drop_last();
    assert(whole.drop_last() =~= seq![word] + front);
    assert(words.drop_last() =~= (seq![word] + front).map_values(|word: Seq<char>| quoted(word)));
    assert(short.drop_last() =~= front.map_values(|word: Seq<char>| quoted(word)));
    assert(words.last() == short.last());
    if command.len() == 1 {
        assert(seq![word] + front =~= seq![word]);
        assert(command_line(seq![word]) == quoted(word));
        assert(command_line(command) == short[0]);
    } else {
        command_line_of(word, front);
        assert(command_line(whole) =~= quoted(word) + seq![' '] + command_line(command));
    }
}

/// The characters that need no quotes are the letters and digits of ASCII and
/// the six marks `_ . / : - =`.
pub proof fn safe_characters(c: char)
    ensures
        is_safe(c) <==> {
            ||| 48 <= c as u32 <= 57
            ||| 65 <= c as u32 <= 90
            ||| 97 <= c as u32 <= 122
            ||| "_./:-="@.contains(c)
        },
{
    reveal_strlit("_./:-=");
    let marks = "_./:-="@;
    assert(marks[0] == '_' && marks[1] == '.' && marks[2] == '/' && marks[3] == ':' && marks[4] == '-' && marks[5]
        == '=');
    if marks.contains(c) {
        let k = choose|k: int| 0 <= k < marks.len() && marks[k] == c;
        assert(k == 0 || k == 1 || k == 2 || k == 3 || k == 4 || k == 5);
    }
}

/// A word of safe characters is written as it stands. Any other begins and ends
/// with a quote.
pub proof fn safe_words_stay(value: Seq<char>)
    ensures
        (forall|i: int| 0 <= i < value.len() ==> is_safe(#[trigger] value[i])) ==> quoted(value) == value,
        (exists|i: int| 0 <= i < value.len() && !is_safe(#[trigger] value[i])) ==> quoted(value) == "'"@ + escaped(value)
            + "'"@,
{
    reveal_strlit("'");
    assert("'"@ =~= seq!['\'']);
}

/// Between quotes each character is written for itself, and only a quote is
/// written otherwise: as `'\''`.
pub proof fn only_quotes_are_escaped(a: Seq<char>, b: Seq<char>)
    ensures
        escaped(a + b) == escaped(a) + escaped(b),
        !a.contains('\'') ==> escaped(a) == a,
        escaped("'"@) == "'\\''"@,
    decreases a.len() + b.len(),
{
    reveal_strlit("'");
    reveal_strlit("'\\''");
    assert("'"@.drop_last() =~= Seq::empty());
    assert(escaped(Seq::empty()) =~= Seq::empty());
    assert("'"@.last() == '\'');
    assert(escaped("'"@) =~= "'\\''"@);
    if b.len() == 0 {
        assert(a + b =~= a);
        assert(escaped(a) + escaped(b) =~= escaped(a));
        if a.len() > 0 {
            let front = a.drop_last();
            only_quotes_are_escaped(front, b);
            if !a.contains('\'') {
                assert(!front.contains('\'')) by {
                    if front.contains('\'') {
                        let k = choose|k: int| 0 <= k < front.len() && front[k] == '\'';
                        assert(a[k] == '\'');
                    }
                }
                assert(a[a.len() - 1] != '\'');
                assert(escaped(a) =~= a);
            }
        } else {
            assert(escaped(a) =~= a);
        }
    } else {
        only_quotes_are_escaped(a, b.drop_last());
        assert((a + b).drop_last() =~= a + b.drop_last());
        assert((a + b).last() == b.last());
        assert(escaped(a + b) =~= escaped(a) + escaped(b));
    }
}

/// A command of one word is written as that word, and one of no words as
/// nothing.
pub proof fn command_line_of_one(word: Seq<char>)
    ensures
        command_line(seq![word]) == quoted(word),
        command_line(Seq::empty()).len() == 0,
{
    assert(seq![word].map_values(|word: Seq<char>| quoted(word)) =~= seq![quoted(word)]);
}

} // verus!
