//! What the text of a script says about the environment it needs: variables,
//! startup files and a terminal.

use vstd::prelude::*;

use crate::names;
use crate::text;

verus! {

pub open spec fn is_letter(c: char) -> bool {
    'a' <= c <= 'z' || 'A' <= c <= 'Z'
}

pub open spec fn is_digit(c: char) -> bool {
    '0' <= c <= '9'
}

/// A character that a variable name may hold.
pub open spec fn is_name_char(c: char) -> bool {
    is_letter(c) || is_digit(c) || c == '_'
}

/// A character that a variable name may begin with where no braces stand round
/// it.
pub open spec fn is_name_start(c: char) -> bool {
    is_letter(c) || c == '_'
}

/// A name is not empty and holds name characters only.
pub open spec fn is_name(name: Seq<char>) -> bool {
    &&& name.len() > 0
    &&& forall|i: int| 0 <= i < name.len() ==> is_name_char(#[trigger] name[i])
}

/// `${name}` stands at `at`.
pub open spec fn braced_at(content: Seq<char>, at: int, name: Seq<char>) -> bool {
    is_name(name) && text::occurs_at(content, seq!['$', '{'] + name + seq!['}'], at)
}

/// `$name` stands at `at`, and the name is as long as it can be.
pub open spec fn bare_at(content: Seq<char>, at: int, name: Seq<char>) -> bool {
    &&& is_name(name)
    &&& is_name_start(name[0])
    &&& text::occurs_at(content, seq!['$'] + name, at)
    &&& at + 1 + name.len() < content.len() ==> !is_name_char(content[at + 1 + name.len()])
}

/// The variable `name` is referred to at `at`.
pub open spec fn refers_at(content: Seq<char>, at: int, name: Seq<char>) -> bool {
    braced_at(content, at, name) || bare_at(content, at, name)
}

/// The variables that a script refers to.
pub open spec fn references(content: Seq<char>) -> Set<Seq<char>> {
    Set::new(|name: Seq<char>| exists|at: int| refers_at(content, at, name))
}

fn name_char(c: char) -> (r: bool)
    ensures
        r == is_name_char(c),
{
    name_start(c) || ('0' <= c && c <= '9')
}

fn name_start(c: char) -> (r: bool)
    ensures
        r == is_name_start(c),
{
    ('a' <= c && c <= 'z') || ('A' <= c && c <= 'Z') || c == '_'
}

/// The end of the run of name characters that begins at `from`.
fn name_end(content: &Vec<char>, from: usize) -> (end: usize)
    requires
        from <= content@.len(),
    ensures
        from <= end <= content@.len(),
        forall|j: int| from <= j < end ==> is_name_char(content@[j]),
        end < content@.len() ==> !is_name_char(content@[end as int]),
{
    let mut end: usize = from;
    while end < content.len() && name_char(content[end])
        invariant
            from <= end <= content@.len(),
            forall|j: int| from <= j < end ==> is_name_char(content@[j]),
        decreases content@.len() - end,
    {
        end = end + 1;
    }
    end
}

/// What a braced reference at `at` says of the single characters.
proof fn braced_characters(content: Seq<char>, at: int, name: Seq<char>)
    requires
        braced_at(content, at, name),
    ensures
        0 <= at,
        at + 3 + name.len() <= content.len(),
        content[at] == '$',
        content[at + 1] == '{',
        content[at + 2 + name.len()] == '}',
        name == content.subrange(at + 2, at + 2 + name.len()),
{
    let whole = seq!['$', '{'] + name + seq!['}'];
    let there = content.subrange(at, at + whole.len());
    assert(there == whole);
    assert(there[0] == '$' && there[1] == '{' && there[2 + name.len() as int] == '}');
    assert forall|j: int| 0 <= j < name.len() implies name[j] == content[at + 2 + j] by {
        assert(there[2 + j] == whole[2 + j]);
    }
    assert(name =~= content.subrange(at + 2, at + 2 + name.len()));
}

/// What a bare reference at `at` says of the single characters.
proof fn bare_characters(content: Seq<char>, at: int, name: Seq<char>)
    requires
        bare_at(content, at, name),
    ensures
        0 <= at,
        at + 1 + name.len() <= content.len(),
        content[at] == '$',
        is_name_start(content[at + 1]),
        name == content.subrange(at + 1, at + 1 + name.len()),
{
    let whole = seq!['$'] + name;
    let there = content.subrange(at, at + whole.len());
    assert(there == whole);
    assert(there[0] == '$' && there[1] == name[0]);
    assert forall|j: int| 0 <= j < name.len() implies name[j] == content[at + 1 + j] by {
        assert(there[1 + j] == whole[1 + j]);
    }
    assert(name =~= content.subrange(at + 1, at + 1 + name.len()));
}

/// The variable that the dollar sign at `at` refers to, if it refers to one.
fn reference_at(content: &Vec<char>, at: usize) -> (r: Option<String>)
    requires
        at < content@.len(),
        content@[at as int] == '$',
    ensures
        match r {
            Some(name) => refers_at(content@, at as int, name@),
            None => true,
        },
        forall|name: Seq<char>| #[trigger] refers_at(content@, at as int, name) ==> r is Some && r->0@ == name,
{
    let size: usize = content.len();
    let ghost c = content@;
    if at + 1 < size && content[at + 1] == '{' {
        let start: usize = at + 2;
        let end: usize = name_end(content, start);
        proof {
            assert forall|name: Seq<char>| #[trigger] refers_at(c, at as int, name) implies end < c.len() && c[end as int]
                == '}' && end > start && name == c.subrange(start as int, end as int) by {
                if braced_at(c, at as int, name) {
                    braced_characters(c, at as int, name);
                    let stop = start + name.len();
                    if end < stop {
                        assert(name[end - start] == c[end as int]);
                    }
                    if end > stop {
                        assert(is_name_char(c[stop]));
                    }
                } else {
                    bare_characters(c, at as int, name);
                }
            }
        }
        if end < content.len() && content[end] == '}' && end > start {
            let name = text::slice_text(content, start, end);
            proof {
                let n = name@;
                assert(c.subrange(at as int, at + 3 + n.len()) =~= seq!['$', '{'] + n + seq!['}']);
                assert(braced_at(c, at as int, n));
            }
            return Some(name);
        }
        return None;
    }
    let start: usize = at + 1;
    if start >= content.len() || !name_start(content[start]) {
        proof {
            assert forall|name: Seq<char>| !#[trigger] refers_at(c, at as int, name) by {
                if braced_at(c, at as int, name) {
                    braced_characters(c, at as int, name);
                }
                if bare_at(c, at as int, name) {
                    bare_characters(c, at as int, name);
                }
            }
        }
        return None;
    }
    let end: usize = name_end(content, start);
    let name = text::slice_text(content, start, end);
    proof {
        let n = name@;
        assert(c.subrange(at as int, at + 1 + n.len()) =~= seq!['$'] + n);
        assert(end > start);
        assert(bare_at(c, at as int, n));
        assert forall|other: Seq<char>| #[trigger] refers_at(c, at as int, other) implies other == n by {
            if braced_at(c, at as int, other) {
                braced_characters(c, at as int, other);
            } else {
                bare_characters(c, at as int, other);
                let stop = start + other.len();
                if end < stop {
                    assert(other[end - start] == c[end as int]);
                }
                if end > stop {
                    assert(is_name_char(c[stop]));
                }
            }
        }
    }
    Some(name)
}

/// The variables that a script refers to, each once, in order.
pub fn referenced_env(content: &str) -> (found: Vec<String>)
    ensures
        names::lists(text::texts(found@), references(content@)),
        text::texts(found@) == names::listing(references(content@)),
{
    let list = text::characters(content);
    let mut found: Vec<String> = Vec::new();
    let mut index: usize = 0;
    while index < list.len()
        invariant
            list@ == content@,
            index <= list@.len(),
            names::sorted(text::texts(found@)),
            forall|name: Seq<char>|
                #[trigger] text::texts(found@).contains(name) <==> exists|at: int|
                    0 <= at < index && refers_at(content@, at, name),
        decreases list@.len() - index,
    {
        let ghost before = text::texts(found@);
        if list[index] == '$' {
            match reference_at(&list, index) {
                Some(name) => {
                    names::add_name(&mut found, name);
                },
                None => {},
            }
        } else {
            proof {
                assert forall|name: Seq<char>| !#[trigger] refers_at(content@, index as int, name) by {
                    if braced_at(content@, index as int, name) {
                        braced_characters(content@, index as int, name);
                    }
                    if bare_at(content@, index as int, name) {
                        bare_characters(content@, index as int, name);
                    }
                }
            }
        }
        proof {
            assert forall|name: Seq<char>|
                #[trigger] text::texts(found@).contains(name) <==> exists|at: int|
                    0 <= at < index + 1 && refers_at(content@, at, name) by {
                if exists|at: int| 0 <= at < index + 1 && refers_at(content@, at, name) {
                    let at = choose|at: int| 0 <= at < index + 1 && refers_at(content@, at, name);
                    if at < index {
                        assert(before.contains(name));
                    }
                }
                if text::texts(found@).contains(name) && before.contains(name) {
                    let at = choose|at: int| 0 <= at < index && refers_at(content@, at, name);
                    assert(0 <= at < index + 1 && refers_at(content@, at, name));
                }
            }
        }
        index = index + 1;
    }
    proof {
        assert forall|name: Seq<char>| #[trigger] references(content@).contains(name) <==> text::texts(
            found@,
        ).contains(name) by {
            if references(content@).contains(name) {
                let at = choose|at: int| refers_at(content@, at, name);
                if braced_at(content@, at, name) {
                    braced_characters(content@, at, name);
                } else {
                    bare_characters(content@, at, name);
                }
                assert(0 <= at < index && refers_at(content@, at, name));
            }
        }
        names::listing_is(text::texts(found@), references(content@));
    }
    found
}

/// The variables that a script refers to and that are not `known`.
pub open spec fn foreign_references(content: Seq<char>, known: Seq<Seq<char>>) -> Set<Seq<char>> {
    Set::new(|name: Seq<char>| references(content).contains(name) && !known.contains(name))
}

/// The texts of a list of borrowed strings.
pub open spec fn borrowed_texts(list: Seq<&str>) -> Seq<Seq<char>> {
    list.map_values(|s: &str| s@)
}

/// The variables that a script refers to and that are not `known`, each once,
/// in order.
pub fn foreign_env(content: &str, known: &Vec<&str>) -> (found: Vec<String>)
    ensures
        names::lists(text::texts(found@), foreign_references(content@, borrowed_texts(known@))),
        text::texts(found@) == names::listing(foreign_references(content@, borrowed_texts(known@))),
{
    let all = referenced_env(content);
    let ghost wanted = foreign_references(content@, borrowed_texts(known@));
    let mut found: Vec<String> = Vec::new();
    let mut i: usize = 0;
    while i < all.len()
        invariant
            i <= all@.len(),
            names::sorted(text::texts(found@)),
            forall|name: Seq<char>|
                #[trigger] text::texts(found@).contains(name) <==> text::texts(all@).take(i as int).contains(name)
                    && !borrowed_texts(known@).contains(name),
        decreases all@.len() - i,
    {
        let ghost before = text::texts(found@);
        let name = all[i].as_str();
        if !is_known(name, known) {
            names::add_name(&mut found, name.to_owned());
        }
        proof {
            assert(text::texts(all@).take(i + 1) =~= text::texts(all@).take(i as int).push(all@[i as int]@));
            assert forall|other: Seq<char>|
                #[trigger] text::texts(found@).contains(other) <==> text::texts(all@).take(i + 1).contains(other)
                    && !borrowed_texts(known@).contains(other) by {
                vstd::seq_lib::lemma_seq_contains_after_push(text::texts(all@).take(i as int), all@[i as int]@, other);
                assert(before.contains(other) <==> text::texts(all@).take(i as int).contains(other)
                    && !borrowed_texts(known@).contains(other));
            }
        }
        i = i + 1;
    }
    proof {
        assert(text::texts(all@).take(all@.len() as int) =~= text::texts(all@));
        assert forall|name: Seq<char>| #[trigger] wanted.contains(name) <==> text::texts(found@).contains(name) by {
            assert(references(content@).contains(name) <==> text::texts(all@).contains(name));
        }
        names::listing_is(text::texts(found@), wanted);
    }
    found
}

fn is_known(name: &str, known: &Vec<&str>) -> (r: bool)
    ensures
        r == borrowed_texts(known@).contains(name@),
{
    let mut i: usize = 0;
    while i < known.len()
        invariant
            i <= known@.len(),
            forall|j: int| 0 <= j < i ==> borrowed_texts(known@)[j] != name@,
        decreases known@.len() - i,
    {
        if text::same(known[i], name) {
            proof {
                assert(borrowed_texts(known@)[i as int] == name@);
            }
            return true;
        }
        proof {
            assert(borrowed_texts(known@)[i as int] == known@[i as int]@);
        }
        i = i + 1;
    }
    false
}

/// The first line of a text, without its line ending.
pub open spec fn first_line(content: Seq<char>) -> Seq<char> {
    let lines = text::pieces(content, '\n');
    let line = lines[0];
    if lines.len() > 1 && line.len() > 0 && line.last() == '\r' {
        line.drop_last()
    } else {
        line
    }
}

/// The number of lines of a text. A line break at the very end begins no
/// further line.
pub open spec fn line_count(content: Seq<char>) -> nat {
    let lines = text::pieces(content, '\n');
    if lines.last().len() == 0 {
        (lines.len() - 1) as nat
    } else {
        lines.len()
    }
}

/// Reads the first line of a text.
pub fn read_first_line(content: &str) -> (line: String)
    ensures
        line@ == first_line(content@),
{
    let lines = text::split(content, '\n');
    proof {
        text::pieces_rejoin(content@, '\n');
        assert(text::texts(lines@)[0] == lines@[0]@);
    }
    let line = text::characters(lines[0].as_str());
    let size: usize = line.len();
    if lines.len() > 1 && size > 0 && line[size - 1] == '\r' {
        text::slice_text(&line, 0, size - 1)
    } else {
        lines[0].clone()
    }
}

/// Counts the lines of a text.
pub fn count_lines(content: &str) -> (n: usize)
    ensures
        n == line_count(content@),
{
    let lines = text::split(content, '\n');
    proof {
        text::pieces_rejoin(content@, '\n');
        assert(text::texts(lines@).last() == lines@.last()@);
    }
    let size: usize = lines.len();
    if text::same(lines[size - 1].as_str(), "") {
        proof {
            reveal_strlit("");
        }
        size - 1
    } else {
        proof {
            reveal_strlit("");
            assert(lines@[size - 1]@.len() == 0 ==> lines@[size - 1]@ =~= ""@);
        }
        size
    }
}

/// `word` stands at `at`, and no longer name runs on before or behind it.
pub open spec fn word_at(content: Seq<char>, word: Seq<char>, at: int) -> bool {
    &&& text::occurs_at(content, word, at)
    &&& at > 0 ==> !is_name_char(content[at - 1])
    &&& at + word.len() < content.len() ==> !is_name_char(content[at + word.len()])
}

/// `word` stands somewhere in the script as a word of its own.
pub open spec fn has_word(content: Seq<char>, word: Seq<char>) -> bool {
    exists|at: int| #[trigger] word_at(content, word, at)
}

/// Whether `word` stands somewhere in the script as a word of its own.
pub fn finds_word(content: &str, word: &str) -> (r: bool)
    ensures
        r == has_word(content@, word@),
{
    let list = text::characters(content);
    let wanted = text::characters(word);
    let size: usize = list.len();
    let width: usize = wanted.len();
    if width > size {
        return false;
    }
    let last: usize = size - width;
    let mut at: usize = 0;
    loop
        invariant
            list@ == content@,
            wanted@ == word@,
            size == list@.len(),
            width == wanted@.len(),
            at <= last,
            last + width == size,
            forall|k: int| 0 <= k < at ==> !#[trigger] word_at(content@, word@, k),
        decreases last - at,
    {
        if text::stands_at(&list, &wanted, at) && (at == 0 || !name_char(list[at - 1])) && (at == last || !name_char(
            list[at + width],
        )) {
            proof {
                assert(word_at(content@, word@, at as int));
            }
            return true;
        }
        if at == last {
            proof {
                assert forall|k: int| !#[trigger] word_at(content@, word@, k) by {
                }
            }
            return false;
        }
        at = at + 1;
    }
}

/// A script that names a file which a shell reads when it starts, such as the
/// one a login or an interactive shell gets its variables from.
pub open spec fn uses_startup_files(content: Seq<char>) -> bool {
    ||| text::occurs(content, ".bashrc"@)
    ||| text::occurs(content, ".bash_profile"@)
    ||| text::occurs(content, ".bash_login"@)
    ||| text::occurs(content, ".bash_aliases"@)
    ||| text::occurs(content, ".profile"@)
    ||| text::occurs(content, ".zshrc"@)
    ||| text::occurs(content, ".zshenv"@)
    ||| text::occurs(content, ".zprofile"@)
    ||| text::occurs(content, ".zlogin"@)
    ||| text::occurs(content, ".kshrc"@)
    ||| text::occurs(content, ".cshrc"@)
    ||| text::occurs(content, ".tcshrc"@)
    ||| text::occurs(content, "/etc/profile"@)
    ||| text::occurs(content, "/etc/bashrc"@)
    ||| text::occurs(content, "/etc/zshrc"@)
    ||| text::occurs(content, "/etc/zsh/"@)
}

/// A script that prompts for input.
pub open spec fn prompts(content: Seq<char>) -> bool {
    ||| has_word(content, "read -p"@)
    ||| has_word(content, "read -s"@)
    ||| has_word(content, "read -rp"@)
    ||| has_word(content, "read -sp"@)
    ||| has_word(content, "read -rsp"@)
    ||| has_word(content, "read -srp"@)
    ||| has_word(content, "read -r -p"@)
}

/// A script that assumes someone at a terminal: it prompts for input, speaks of
/// the terminal or of the prompt of a shell, starts an interactive shell, or
/// relies on aliases, which a shell expands by itself only where it is
/// interactive.
pub open spec fn assumes_interactive(content: Seq<char>) -> bool {
    ||| prompts(content)
    ||| has_word(content, "tty"@)
    ||| has_word(content, "stty"@)
    ||| has_word(content, "PS1"@)
    ||| has_word(content, "bash -i"@)
    ||| has_word(content, "zsh -i"@)
    ||| has_word(content, "alias"@)
    ||| has_word(content, "expand_aliases"@)
}

/// Whether a script names a file which a shell reads when it starts.
pub fn names_startup_file(content: &str) -> (r: bool)
    ensures
        r == uses_startup_files(content@),
{
    text::holds(content, ".bashrc") || text::holds(content, ".bash_profile") || text::holds(content, ".bash_login")
        || text::holds(content, ".bash_aliases") || text::holds(content, ".profile") || text::holds(content, ".zshrc")
        || text::holds(content, ".zshenv") || text::holds(content, ".zprofile") || text::holds(content, ".zlogin")
        || text::holds(content, ".kshrc") || text::holds(content, ".cshrc") || text::holds(content, ".tcshrc")
        || text::holds(content, "/etc/profile") || text::holds(content, "/etc/bashrc") || text::holds(
        content,
        "/etc/zshrc",
    ) || text::holds(content, "/etc/zsh/")
}

/// Whether a script assumes someone at a terminal.
pub fn needs_terminal(content: &str) -> (r: bool)
    ensures
        r == assumes_interactive(content@),
{
    finds_word(content, "read -p") || finds_word(content, "read -s") || finds_word(content, "read -rp") || finds_word(
        content,
        "read -sp",
    ) || finds_word(content, "read -rsp") || finds_word(content, "read -srp") || finds_word(content, "read -r -p")
        || finds_word(content, "tty") || finds_word(content, "stty") || finds_word(content, "PS1") || finds_word(
        content,
        "bash -i",
    ) || finds_word(content, "zsh -i") || finds_word(content, "alias") || finds_word(content, "expand_aliases")
}

/// At one place a script refers to one variable at most.
pub proof fn one_name_per_place(content: Seq<char>, at: int, a: Seq<char>, b: Seq<char>)
    requires
        refers_at(content, at, a),
        refers_at(content, at, b),
    ensures
        a == b,
{
    if braced_at(content, at, a) {
        braced_characters(content, at, a);
    } else {
        bare_characters(content, at, a);
    }
    if braced_at(content, at, b) {
        braced_characters(content, at, b);
    } else {
        bare_characters(content, at, b);
    }
    if braced_at(content, at, a) {
        if a.len() < b.len() {
            assert(b[a.len() as int] == content[at + 2 + a.len()]);
        }
        if b.len() < a.len() {
            assert(a[b.len() as int] == content[at + 2 + b.len()]);
        }
    } else {
        if a.len() < b.len() {
            assert(b[a.len() as int] == content[at + 1 + a.len()]);
        }
        if b.len() < a.len() {
            assert(a[b.len() as int] == content[at + 1 + b.len()]);
        }
    }
}

spec fn references_before(content: Seq<char>, end: int) -> Set<Seq<char>> {
    Set::new(|name: Seq<char>| exists|at: int| at < end && refers_at(content, at, name))
}

proof fn references_before_are_finite(content: Seq<char>, end: int)
    requires
        0 <= end,
    ensures
        references_before(content, end).finite(),
    decreases end,
{
    let set = references_before(content, end);
    if end == 0 {
        assert forall|name: Seq<char>| !#[trigger] set.contains(name) by {
            if set.contains(name) {
                let at = choose|at: int| at < end && refers_at(content, at, name);
                if braced_at(content, at, name) {
                    braced_characters(content, at, name);
                } else {
                    bare_characters(content, at, name);
                }
            }
        }
        assert(set =~= Set::empty());
    } else {
        references_before_are_finite(content, end - 1);
        let place = end - 1;
        let last = choose|name: Seq<char>| #[trigger] refers_at(content, place, name);
        let larger = references_before(content, place).insert(last);
        assert forall|name: Seq<char>| #[trigger] set.contains(name) implies larger.contains(name) by {
            let at = choose|at: int| at < end && refers_at(content, at, name);
            if at == place {
                one_name_per_place(content, at, name, last);
            }
        }
        vstd::set_lib::lemma_set_subset_finite(larger, set);
    }
}

/// The variables that a script refers to can be listed, each is a name, and so
/// it is with those among them that are not known.
pub proof fn references_are_listed(content: Seq<char>, known: Seq<Seq<char>>)
    ensures
        names::lists(names::listing(references(content)), references(content)),
        names::lists(names::listing(foreign_references(content, known)), foreign_references(content, known)),
        forall|name: Seq<char>| #[trigger] references(content).contains(name) ==> is_name(name),
{
    let all = references(content);
    let end = content.len() as int;
    references_before_are_finite(content, end);
    assert forall|name: Seq<char>| #[trigger] all.contains(name) implies references_before(content, end).contains(
        name,
    ) by {
        let at = choose|at: int| refers_at(content, at, name);
        if braced_at(content, at, name) {
            braced_characters(content, at, name);
        } else {
            bare_characters(content, at, name);
        }
    }
    vstd::set_lib::lemma_set_subset_finite(references_before(content, end), all);
    names::finite_sets_are_listed(all);
    vstd::set_lib::lemma_set_subset_finite(all, foreign_references(content, known));
    names::finite_sets_are_listed(foreign_references(content, known));
}

proof fn reference_stays(content: Seq<char>, longer: Seq<char>, shift: int, at: int, name: Seq<char>)
    requires
        0 <= shift,
        shift + content.len() <= longer.len(),
        content == longer.subrange(shift, shift + content.len()),
        shift + content.len() < longer.len() ==> !is_name_char(longer[shift + content.len()]),
        refers_at(content, at, name),
    ensures
        refers_at(longer, shift + at, name),
{
    if braced_at(content, at, name) {
        braced_characters(content, at, name);
        let whole = seq!['$', '{'] + name + seq!['}'];
        assert(longer.subrange(shift + at, shift + at + whole.len()) =~= content.subrange(at, at + whole.len()));
    } else {
        bare_characters(content, at, name);
        let whole = seq!['$'] + name;
        assert(longer.subrange(shift + at, shift + at + whole.len()) =~= content.subrange(at, at + whole.len()));
        if at + 1 + name.len() < content.len() {
            assert(content[at + 1 + name.len()] == longer[shift + at + 1 + name.len()]);
        }
    }
}

/// A reference that begins in a part which ends at a line break, or at the end
/// of the script, lies wholly in that part.
proof fn reference_lies_in_part(content: Seq<char>, from: int, to: int, at: int, name: Seq<char>)
    requires
        0 <= from <= at < to <= content.len(),
        to < content.len() ==> content[to] == '\n',
        refers_at(content, at, name),
    ensures
        refers_at(content.subrange(from, to), at - from, name),
{
    let part = content.subrange(from, to);
    let there = at - from;
    if braced_at(content, at, name) {
        braced_characters(content, at, name);
        let whole = seq!['$', '{'] + name + seq!['}'];
        if to < at + whole.len() && at + 2 <= to < at + 2 + name.len() {
            assert(is_name_char(name[to - at - 2]));
        }
        assert(at + whole.len() <= to);
        assert(part.subrange(there, there + whole.len()) =~= content.subrange(at, at + whole.len()));
        assert(braced_at(part, there, name));
    } else {
        bare_characters(content, at, name);
        let whole = seq!['$'] + name;
        if to < at + whole.len() {
            assert(is_name_char(name[to - at - 1]));
        }
        assert(at + whole.len() <= to);
        assert(part.subrange(there, there + whole.len()) =~= content.subrange(at, at + whole.len()));
        assert(bare_at(part, there, name));
    }
}

/// A script refers to the variables that its lines refer to: cut at a line
/// break, the parts together refer to the same variables as the whole.
pub proof fn references_of_parts(first: Seq<char>, second: Seq<char>)
    ensures
        references(first + seq!['\n'] + second) == references(first).union(references(second)),
{
    let whole = first + seq!['\n'] + second;
    let cut = first.len() as int;
    let both = references(first).union(references(second));
    assert(whole[cut] == '\n');
    assert(first =~= whole.subrange(0, cut));
    assert(second =~= whole.subrange(cut + 1, whole.len() as int));
    assert forall|name: Seq<char>| #[trigger] both.contains(name) implies references(whole).contains(name) by {
        if references(first).contains(name) {
            let at = choose|at: int| refers_at(first, at, name);
            reference_stays(first, whole, 0, at, name);
        } else {
            let at = choose|at: int| refers_at(second, at, name);
            reference_stays(second, whole, cut + 1, at, name);
        }
    }
    assert forall|name: Seq<char>| #[trigger] references(whole).contains(name) implies both.contains(name) by {
        let at = choose|at: int| refers_at(whole, at, name);
        if braced_at(whole, at, name) {
            braced_characters(whole, at, name);
        } else {
            bare_characters(whole, at, name);
        }
        if at < cut {
            reference_lies_in_part(whole, 0, cut, at, name);
        } else {
            reference_lies_in_part(whole, cut + 1, whole.len() as int, at, name);
        }
    }
    assert(references(whole) =~= both);
}

/// The characters of names are the letters and digits of ASCII and the
/// underscore; a name without braces does not begin with a digit.
pub proof fn name_characters(c: char)
    ensures
        is_name_char(c) <==> 48 <= c as u32 <= 57 || 65 <= c as u32 <= 90 || 97 <= c as u32 <= 122 || c as u32 == 95,
        is_name_start(c) <==> is_name_char(c) && !(48 <= c as u32 <= 57),
{
}

/// `${name}` stands in a script exactly if the script is made of something
/// before it, the reference itself and something behind it.
pub proof fn braced_references(content: Seq<char>, name: Seq<char>)
    ensures
        (exists|at: int| braced_at(content, at, name)) <==> is_name(name) && exists|before: Seq<char>, after: Seq<char>|
            content == #[trigger] (before + "${"@ + name + "}"@ + after),
{
    reveal_strlit("${");
    reveal_strlit("}");
    let marks = seq!['$', '{'] + name + seq!['}'];
    assert(marks =~= "${"@ + name + "}"@);
    text::occurs_between(content, marks);
    assert forall|before: Seq<char>, after: Seq<char>| #[trigger]
        (before + "${"@ + name + "}"@ + after) == before + marks + after by {
        assert(before + "${"@ + name + "}"@ + after =~= before + marks + after);
    }
    if exists|at: int| braced_at(content, at, name) {
        let at = choose|at: int| braced_at(content, at, name);
        assert(text::occurs_at(content, marks, at));
        let (before, after) = choose|before: Seq<char>, after: Seq<char>|
            content == #[trigger] (before + marks + after);
        assert(content == before + "${"@ + name + "}"@ + after);
    }
    if is_name(name) && exists|before: Seq<char>, after: Seq<char>|
        content == #[trigger] (before + "${"@ + name + "}"@ + after) {
        let (before, after) = choose|before: Seq<char>, after: Seq<char>|
            content == #[trigger] (before + "${"@ + name + "}"@ + after);
        assert(content == before + marks + after);
        let at = choose|at: int| #[trigger] text::occurs_at(content, marks, at);
        assert(braced_at(content, at, name));
    }
}

/// `$name` stands in a script exactly if the script is made of something before
/// it, the reference itself and something behind it that does not go on with
/// the name.
pub proof fn bare_references(content: Seq<char>, name: Seq<char>)
    ensures
        (exists|at: int| bare_at(content, at, name)) <==> is_name(name) && is_name_start(name[0]) && exists|
            before: Seq<char>,
            after: Seq<char>,
        |
            content == #[trigger] (before + "$"@ + name + after) && (after.len() > 0 ==> !is_name_char(after[0])),
{
    reveal_strlit("$");
    let marks = seq!['$'] + name;
    assert(marks =~= "$"@ + name);
    if exists|at: int| bare_at(content, at, name) {
        let at = choose|at: int| bare_at(content, at, name);
        let before = content.take(at);
        let after = content.skip(at + marks.len());
        assert(content =~= before + content.subrange(at, at + marks.len()) + after);
        assert(content =~= before + "$"@ + name + after);
        if after.len() > 0 {
            assert(after[0] == content[at + 1 + name.len()]);
        }
    }
    if is_name(name) && is_name_start(name[0]) && exists|before: Seq<char>, after: Seq<char>|
        content == #[trigger] (before + "$"@ + name + after) && (after.len() > 0 ==> !is_name_char(after[0])) {
        let (before, after) = choose|before: Seq<char>, after: Seq<char>|
            content == #[trigger] (before + "$"@ + name + after) && (after.len() > 0 ==> !is_name_char(after[0]));
        let at = before.len() as int;
        assert(content =~= before + marks + after);
        assert(content.subrange(at, at + marks.len()) =~= marks);
        if at + 1 + name.len() < content.len() {
            assert(content[at + 1 + name.len()] == after[0]);
        }
        assert(bare_at(content, at, name));
    }
}

/// A script refers to a name exactly if it holds `${name}`, or it holds `$name`
/// with no further character of a name behind it and no digit at the front of
/// the name.
pub proof fn references_are_dollar_names(content: Seq<char>, name: Seq<char>)
    ensures
        references(content).contains(name) <==> {
            &&& name.len() > 0
            &&& forall|i: int| 0 <= i < name.len() ==> is_name_char(#[trigger] name[i])
            &&& {
                ||| exists|before: Seq<char>, after: Seq<char>|
                    content == #[trigger] (before + "${"@ + name + "}"@ + after)
                ||| is_name_start(name[0]) && exists|before: Seq<char>, after: Seq<char>|
                    content == #[trigger] (before + "$"@ + name + after) && (after.len() > 0 ==> !is_name_char(after[0]))
            }
        },
{
    braced_references(content, name);
    bare_references(content, name);
    if references(content).contains(name) {
        let at = choose|at: int| refers_at(content, at, name);
        assert(braced_at(content, at, name) || bare_at(content, at, name));
    }
    if exists|at: int| braced_at(content, at, name) {
        let at = choose|at: int| braced_at(content, at, name);
        assert(refers_at(content, at, name));
    }
    if exists|at: int| bare_at(content, at, name) {
        let at = choose|at: int| bare_at(content, at, name);
        assert(refers_at(content, at, name));
    }
}

/// What is not known stays and what is known goes: the variables of a script
/// are parted in two by any list.
pub proof fn known_names_are_left_out(content: Seq<char>, known: Seq<Seq<char>>, name: Seq<char>)
    ensures
        known.contains(name) ==> !foreign_references(content, known).contains(name),
        !known.contains(name) ==> (foreign_references(content, known).contains(name) <==> references(content).contains(
            name,
        )),
{
}

/// The first line of a text reaches to the first line break. A carriage return
/// before the break belongs to the break.
pub proof fn first_line_ends_at_the_break(line: Seq<char>, rest: Seq<char>)
    requires
        !line.contains('\n'),
    ensures
        first_line(line) == line,
        first_line(line + "\r\n"@ + rest) == line,
        line.len() == 0 || line.last() != '\r' ==> first_line(line + "\n"@ + rest) == line,
{
    reveal_strlit("\n");
    reveal_strlit("\r\n");
    assert("\n"@ =~= seq!['\n']);
    text::pieces_from_the_front(line, rest, '\n');
    text::pieces_rejoin(rest, '\n');
    let longer = line.push('\r');
    assert(!longer.contains('\n')) by {
        if longer.contains('\n') {
            let k = choose|k: int| 0 <= k < longer.len() && longer[k] == '\n';
            assert(line[k] == '\n');
        }
    }
    text::pieces_from_the_front(longer, rest, '\n');
    assert(line + "\r\n"@ + rest =~= longer + seq!['\n'] + rest);
    assert(longer.drop_last() =~= line);
}

/// Every line break ends a line, and what stands behind the last one is a line
/// too unless it is nothing.
pub proof fn lines_are_counted_by_their_breaks(line: Seq<char>, rest: Seq<char>)
    requires
        !line.contains('\n'),
    ensures
        line_count(line + "\n"@ + rest) == 1 + line_count(rest),
        line_count(line) == (if line.len() > 0 {
            1nat
        } else {
            0nat
        }),
{
    reveal_strlit("\n");
    assert("\n"@ =~= seq!['\n']);
    text::pieces_from_the_front(line, rest, '\n');
    text::pieces_rejoin(rest, '\n');
    let p = text::pieces(rest, '\n');
    assert((seq![line] + p).last() == p.last());
}

/// A word stands in a script by itself exactly if what is before it and what is
/// behind it neither ends nor begins with a character of a name.
pub proof fn words_stand_alone(content: Seq<char>, word: Seq<char>)
    ensures
        has_word(content, word) <==> exists|before: Seq<char>, after: Seq<char>|
            {
                &&& content == #[trigger] (before + word + after)
                &&& before.len() > 0 ==> !is_name_char(before.last())
                &&& after.len() > 0 ==> !is_name_char(after[0])
            },
{
    if has_word(content, word) {
        let at = choose|at: int| #[trigger] word_at(content, word, at);
        let before = content.take(at);
        let after = content.skip(at + word.len());
        assert(content =~= before + content.subrange(at, at + word.len()) + after);
        assert(content == before + word + after);
        if after.len() > 0 {
            assert(after[0] == content[at + word.len()]);
        }
    }
    if exists|before: Seq<char>, after: Seq<char>|
        {
            &&& content == #[trigger] (before + word + after)
            &&& before.len() > 0 ==> !is_name_char(before.last())
            &&& after.len() > 0 ==> !is_name_char(after[0])
        } {
        let (before, after) = choose|before: Seq<char>, after: Seq<char>|
            {
                &&& content == #[trigger] (before + word + after)
                &&& before.len() > 0 ==> !is_name_char(before.last())
                &&& after.len() > 0 ==> !is_name_char(after[0])
            };
        let at = before.len() as int;
        assert(content.subrange(at, at + word.len()) =~= word);
        if at > 0 {
            assert(content[at - 1] == before.last());
        }
        if at + word.len() < content.len() {
            assert(content[at + word.len()] == after[0]);
        }
        assert(word_at(content, word, at));
    }
}

/// A script uses startup files exactly if the name of one of these occurs in it,
/// wherever that is.
pub proof fn startup_files_are_seen(content: Seq<char>)
    ensures
        uses_startup_files(content) <==> exists|name: Seq<char>| #[trigger] text::occurs(content, name) && seq![
            ".bashrc"@,
            ".bash_profile"@,
            ".bash_login"@,
            ".bash_aliases"@,
            ".profile"@,
            ".zshrc"@,
            ".zshenv"@,
            ".zprofile"@,
            ".zlogin"@,
            ".kshrc"@,
            ".cshrc"@,
            ".tcshrc"@,
            "/etc/profile"@,
            "/etc/bashrc"@,
            "/etc/zshrc"@,
            "/etc/zsh/"@,
        ].contains(name),
{
    let list = seq![
        ".bashrc"@,
        ".bash_profile"@,
        ".bash_login"@,
        ".bash_aliases"@,
        ".profile"@,
        ".zshrc"@,
        ".zshenv"@,
        ".zprofile"@,
        ".zlogin"@,
        ".kshrc"@,
        ".cshrc"@,
        ".tcshrc"@,
        "/etc/profile"@,
        "/etc/bashrc"@,
        "/etc/zshrc"@,
        "/etc/zsh/"@,
    ];
    assert(list[0] == ".bashrc"@);
    assert(list[1] == ".bash_profile"@);
    assert(list[2] == ".bash_login"@);
    assert(list[3] == ".bash_aliases"@);
    assert(list[4] == ".profile"@);
    assert(list[5] == ".zshrc"@);
    assert(list[6] == ".zshenv"@);
    assert(list[7] == ".zprofile"@);
    assert(list[8] == ".zlogin"@);
    assert(list[9] == ".kshrc"@);
    assert(list[10] == ".cshrc"@);
    assert(list[11] == ".tcshrc"@);
    assert(list[12] == "/etc/profile"@);
    assert(list[13] == "/etc/bashrc"@);
    assert(list[14] == "/etc/zshrc"@);
    assert(list[15] == "/etc/zsh/"@);
}

/// A script assumes someone at a terminal exactly if one of these stands in it by
/// itself, wherever that is.
pub proof fn interactive_use_is_seen(content: Seq<char>)
    ensures
        assumes_interactive(content) <==> exists|name: Seq<char>| #[trigger] has_word(content, name) && seq![
            "read -p"@,
            "read -s"@,
            "read -rp"@,
            "read -sp"@,
            "read -rsp"@,
            "read -srp"@,
            "read -r -p"@,
            "tty"@,
            "stty"@,
            "PS1"@,
            "bash -i"@,
            "zsh -i"@,
            "alias"@,
            "expand_aliases"@,
        ].contains(name),
{
    let list = seq![
        "read -p"@,
        "read -s"@,
        "read -rp"@,
        "read -sp"@,
        "read -rsp"@,
        "read -srp"@,
        "read -r -p"@,
        "tty"@,
        "stty"@,
        "PS1"@,
        "bash -i"@,
        "zsh -i"@,
        "alias"@,
        "expand_aliases"@,
    ];
    assert(list[0] == "read -p"@);
    assert(list[1] == "read -s"@);
    assert(list[2] == "read -rp"@);
    assert(list[3] == "read -sp"@);
    assert(list[4] == "read -rsp"@);
    assert(list[5] == "read -srp"@);
    assert(list[6] == "read -r -p"@);
    assert(list[7] == "tty"@);
    assert(list[8] == "stty"@);
    assert(list[9] == "PS1"@);
    assert(list[10] == "bash -i"@);
    assert(list[11] == "zsh -i"@);
    assert(list[12] == "alias"@);
    assert(list[13] == "expand_aliases"@);
}

} // verus!
