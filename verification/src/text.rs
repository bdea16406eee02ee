//! Text as sequences of characters: searching, joining, ordering and numerals.

use vstd::prelude::*;

verus! {

/// `String::push` appends one character to the end of the string.
pub assume_specification[ String::push ](s: &mut String, ch: char)
    ensures
        final(s)@ == old(s)@.push(ch),
;

/// The texts that a list of strings holds.
pub open spec fn texts(list: Seq<String>) -> Seq<Seq<char>> {
    list.map_values(|s: String| s@)
}

/// `needle` stands in `hay` at position `at`.
pub open spec fn occurs_at(hay: Seq<char>, needle: Seq<char>, at: int) -> bool {
    0 <= at && at + needle.len() <= hay.len() && hay.subrange(at, at + needle.len()) == needle
}

/// `needle` stands somewhere in `hay`.
pub open spec fn occurs(hay: Seq<char>, needle: Seq<char>) -> bool {
    exists|at: int| #[trigger] occurs_at(hay, needle, at)
}

/// The parts in order, with `separator` between each two neighbours.
pub open spec fn joined(parts: Seq<Seq<char>>, separator: Seq<char>) -> Seq<char>
    decreases parts.len(),
{
    if parts.len() == 0 {
        Seq::empty()
    } else if parts.len() == 1 {
        parts[0]
    } else {
        joined(parts.drop_last(), separator) + separator + parts.last()
    }
}

/// The characters of a text, in order.
pub fn characters(s: &str) -> (list: Vec<char>)
    ensures
        list@ == s@,
{
    let mut list: Vec<char> = Vec::new();
    for c in iter: s.chars()
        invariant
            iter.seq() == s@,
            list@ == s@.take(iter.index()),
    {
        list.push(c);
    }
    proof {
        assert(list@ == s@.take(s@.len() as int));
        assert(list@ == s@);
    }
    list
}

/// The text made of the characters from `from` up to, not counting, `to`.
pub fn slice_text(list: &Vec<char>, from: usize, to: usize) -> (s: String)
    requires
        from <= to <= list@.len(),
    ensures
        s@ == list@.subrange(from as int, to as int),
{
    let mut s = String::new();
    let mut i: usize = from;
    while i < to
        invariant
            from <= i <= to <= list@.len(),
            s@ == list@.subrange(from as int, i as int),
        decreases to - i,
    {
        s.push(list[i]);
        proof {
            assert(list@.subrange(from as int, i + 1) == list@.subrange(from as int, i as int).push(list@[i as int]));
        }
        i = i + 1;
    }
    s
}

/// Whether the two texts are the same.
pub fn same(a: &str, b: &str) -> (r: bool)
    ensures
        r == (a@ == b@),
{
    let left = characters(a);
    let right = characters(b);
    if left.len() != right.len() {
        return false;
    }
    let mut i: usize = 0;
    while i < left.len()
        invariant
            left@.len() == right@.len(),
            left@ == a@,
            right@ == b@,
            i <= left@.len(),
            forall|j: int| 0 <= j < i ==> left@[j] == right@[j],
        decreases left@.len() - i,
    {
        if left[i] != right[i] {
            proof {
                assert(a@[i as int] != b@[i as int]);
            }
            return false;
        }
        i = i + 1;
    }
    proof {
        assert(a@ =~= b@);
    }
    true
}

/// Whether `s` begins with `prefix`.
pub fn begins_with(s: &str, prefix: &str) -> (r: bool)
    ensures
        r == prefix@.is_prefix_of(s@),
{
    let hay = characters(s);
    let needle = characters(prefix);
    if needle.len() > hay.len() {
        return false;
    }
    stands_at(&hay, &needle, 0)
}

/// Whether `needle` stands in `hay` at position `at`.
pub fn stands_at(hay: &Vec<char>, needle: &Vec<char>, at: usize) -> (r: bool)
    requires
        at + needle@.len() <= hay@.len(),
    ensures
        r == occurs_at(hay@, needle@, at as int),
{
    let size: usize = hay.len();
    let mut i: usize = 0;
    while i < needle.len()
        invariant
            i <= needle@.len(),
            at + needle@.len() <= size == hay@.len(),
            forall|j: int| 0 <= j < i ==> hay@[at + j] == needle@[j],
        decreases needle@.len() - i,
    {
        if hay[at + i] != needle[i] {
            proof {
                assert(hay@.subrange(at as int, at + needle@.len())[i as int] != needle@[i as int]);
            }
            return false;
        }
        i = i + 1;
    }
    proof {
        assert(hay@.subrange(at as int, at + needle@.len()) =~= needle@);
    }
    true
}

/// Whether `needle` stands somewhere in `s`.
pub fn holds(s: &str, needle: &str) -> (r: bool)
    ensures
        r == occurs(s@, needle@),
{
    let hay = characters(s);
    let wanted = characters(needle);
    if wanted.len() > hay.len() {
        return false;
    }
    let last: usize = hay.len() - wanted.len();
    let mut at: usize = 0;
    while at <= last
        invariant
            hay@ == s@,
            wanted@ == needle@,
            last + wanted@.len() == hay@.len(),
            at <= last + 1,
            forall|k: int| 0 <= k < at ==> !#[trigger] occurs_at(s@, needle@, k),
        decreases last + 1 - at,
    {
        if stands_at(&hay, &wanted, at) {
            return true;
        }
        if at == last {
            proof {
                assert forall|k: int| !#[trigger] occurs_at(s@, needle@, k) by {
                }
            }
            return false;
        }
        at = at + 1;
    }
    false
}

/// Whether the character `c` stands in `s`.
pub fn has_char(s: &str, c: char) -> (r: bool)
    ensures
        r == s@.contains(c),
{
    let list = characters(s);
    let mut i: usize = 0;
    while i < list.len()
        invariant
            list@ == s@,
            i <= list@.len(),
            forall|j: int| 0 <= j < i ==> list@[j] != c,
        decreases list@.len() - i,
    {
        if list[i] == c {
            return true;
        }
        i = i + 1;
    }
    false
}

/// Whether one of the listed strings is `s`.
pub fn is_listed(list: &Vec<String>, s: &str) -> (r: bool)
    ensures
        r == texts(list@).contains(s@),
{
    let mut i: usize = 0;
    while i < list.len()
        invariant
            i <= list@.len(),
            forall|j: int| 0 <= j < i ==> list@[j]@ != s@,
        decreases list@.len() - i,
    {
        if same(list[i].as_str(), s) {
            proof {
                assert(texts(list@)[i as int] == s@);
            }
            return true;
        }
        i = i + 1;
    }
    proof {
        assert forall|j: int| 0 <= j < texts(list@).len() implies texts(list@)[j] != s@ by {
            assert(texts(list@)[j] == list@[j]@);
        }
    }
    false
}

/// The strings in order, with `separator` between each two neighbours.
pub fn join(parts: &Vec<String>, separator: &str) -> (s: String)
    ensures
        s@ == joined(texts(parts@), separator@),
{
    let mut s = String::new();
    let mut i: usize = 0;
    while i < parts.len()
        invariant
            i <= parts@.len(),
            s@ == joined(texts(parts@).take(i as int), separator@),
        decreases parts@.len() - i,
    {
        proof {
            assert(texts(parts@).take(i + 1).drop_last() =~= texts(parts@).take(i as int));
            assert(texts(parts@).take(i + 1).last() == parts@[i as int]@);
        }
        if i > 0 {
            s.append(separator);
        } else {
            proof {
                assert(s@ + parts@[0]@ =~= parts@[0]@);
            }
        }
        s.append(parts[i].as_str());
        i = i + 1;
    }
    proof {
        assert(texts(parts@).take(parts@.len() as int) =~= texts(parts@));
    }
    s
}

/// The pieces of `s` between the places where `separator` stands. There is
/// always at least one, and an empty one before, between or after separators
/// counts too.
pub open spec fn pieces(s: Seq<char>, separator: char) -> Seq<Seq<char>>
    decreases s.len(),
{
    if s.len() == 0 {
        seq![Seq::empty()]
    } else {
        let rest = pieces(s.drop_last(), separator);
        if s.last() == separator {
            rest.push(Seq::empty())
        } else {
            rest.drop_last().push(rest.last().push(s.last()))
        }
    }
}

/// The pieces of a text never hold the separator, and joined by it they are the
/// text again.
pub proof fn pieces_rejoin(s: Seq<char>, separator: char)
    ensures
        pieces(s, separator).len() > 0,
        joined(pieces(s, separator), seq![separator]) == s,
        forall|i: int| 0 <= i < pieces(s, separator).len() ==> !(#[trigger] pieces(s, separator)[i]).contains(separator),
    decreases s.len(),
{
    if s.len() > 0 {
        pieces_rejoin(s.drop_last(), separator);
        let rest = pieces(s.drop_last(), separator);
        let all = pieces(s, separator);
        if s.last() == separator {
            assert(all.drop_last() =~= rest);
            assert(joined(rest, seq![separator]) + seq![separator] + Seq::<char>::empty() =~= s);
        } else {
            assert(all.drop_last() =~= rest.drop_last());
            assert(all.last() == rest.last().push(s.last()));
            if rest.len() == 1 {
                assert(joined(rest, seq![separator]) == rest[0]);
                assert(all[0] =~= s);
            } else {
                let head = joined(rest.drop_last(), seq![separator]) + seq![separator];
                assert(head + rest.last().push(s.last()) =~= (head + rest.last()).push(s.last()));
                assert(s.drop_last().push(s.last()) =~= s);
            }
            assert forall|i: int| 0 <= i < all.len() implies !(#[trigger] all[i]).contains(separator) by {
                if i < all.len() - 1 {
                    assert(all[i] == rest[i]);
                } else {
                    assert(!rest[rest.len() - 1].contains(separator));
                    let long = rest.last().push(s.last());
                    if long.contains(separator) {
                        let k = choose|k: int| 0 <= k < long.len() && long[k] == separator;
                        assert(rest.last()[k] == separator);
                    }
                }
            }
        }
    }
}

/// Splits `s` at each `separator`.
pub fn split(s: &str, separator: char) -> (list: Vec<String>)
    ensures
        texts(list@) == pieces(s@, separator),
{
    let hay = characters(s);
    let mut list: Vec<String> = Vec::new();
    let mut current = String::new();
    let mut i: usize = 0;
    proof {
        assert(s@.take(0).len() == 0);
        assert(texts(list@).push(current@) =~= pieces(s@.take(0), separator));
    }
    while i < hay.len()
        invariant
            hay@ == s@,
            i <= hay@.len(),
            texts(list@).push(current@) == pieces(s@.take(i as int), separator),
        decreases hay@.len() - i,
    {
        let ghost before = texts(list@).push(current@);
        let ghost listed = texts(list@);
        let c = hay[i];
        proof {
            assert(s@.take(i + 1).drop_last() =~= s@.take(i as int));
            assert(before.drop_last() =~= listed);
            assert(before.last() == current@);
        }
        if c == separator {
            list.push(current);
            current = String::new();
            proof {
                assert(texts(list@) =~= before);
            }
        } else {
            current.push(c);
        }
        i = i + 1;
    }
    list.push(current);
    proof {
        assert(s@.take(s@.len() as int) =~= s@);
        assert(texts(list@) =~= pieces(s@, separator));
    }
    list
}

/// The decimal numeral of `n`.
pub open spec fn numeral(n: nat) -> Seq<char>
    decreases n,
{
    if n < 10 {
        seq![digit(n)]
    } else {
        numeral(n / 10).push(digit(n % 10))
    }
}

/// The character that stands for a digit below ten.
pub open spec fn digit(d: nat) -> char {
    (48 + d) as char
}

/// The decimal numeral of `n` as a string.
pub fn number_text(n: usize) -> (s: String)
    ensures
        s@ == numeral(n as nat),
    decreases n,
{
    let unit: u8 = (n % 10) as u8;
    let c: char = (48u8 + unit) as char;
    if n < 10 {
        let mut s = String::new();
        s.push(c);
        proof {
            assert(s@ =~= numeral(n as nat));
        }
        s
    } else {
        let mut s = number_text(n / 10);
        s.push(c);
        s
    }
}

/// The texts of a list are those of its strings, one for one and in order.
pub proof fn texts_are_in_order(list: Seq<String>)
    ensures
        texts(list).len() == list.len(),
        forall|i: int| 0 <= i < list.len() ==> #[trigger] texts(list)[i] == list[i]@,
{
}

/// A text stands in another exactly if the other is made of something before
/// it, the text itself, and something behind it.
pub proof fn occurs_between(hay: Seq<char>, needle: Seq<char>)
    ensures
        occurs(hay, needle) <==> exists|before: Seq<char>, after: Seq<char>|
            hay == #[trigger] (before + needle + after),
{
    if occurs(hay, needle) {
        let at = choose|at: int| #[trigger] occurs_at(hay, needle, at);
        let before = hay.take(at);
        let after = hay.skip(at + needle.len());
        let there = hay.subrange(at, at + needle.len());
        assert(hay =~= before + there + after);
        assert(hay == before + needle + after);
    }
    if exists|before: Seq<char>, after: Seq<char>| hay == #[trigger] (before + needle + after) {
        let (before, after) = choose|before: Seq<char>, after: Seq<char>|
            hay == #[trigger] (before + needle + after);
        let at = before.len() as int;
        assert(hay.subrange(at, at + needle.len()) =~= needle);
        assert(occurs_at(hay, needle, at));
    }
}

/// Lists that are joined one behind the other are joined by one more separator;
/// a single part is joined to itself, and no part to nothing.
pub proof fn joined_in_parts(a: Seq<Seq<char>>, b: Seq<Seq<char>>, separator: Seq<char>)
    ensures
        a.len() > 0 && b.len() > 0 ==> joined(a + b, separator) == joined(a, separator) + separator + joined(
            b,
            separator,
        ),
        a.len() == 1 ==> joined(a, separator) == a[0],
        a.len() == 0 ==> joined(a, separator).len() == 0,
    decreases b.len(),
{
    if a.len() > 0 && b.len() > 0 {
        assert((a + b).drop_last() =~= a + b.drop_last());
        assert((a + b).last() == b.last());
        if b.len() == 1 {
            assert(a + b.drop_last() =~= a);
        } else {
            joined_in_parts(a, b.drop_last(), separator);
            assert(joined(a + b, separator) =~= joined(a, separator) + separator + joined(b, separator));
        }
    }
}

/// The first piece of a text reaches to the first separator, and the pieces of
/// what follows that separator come behind it. A text without the separator is
/// one piece.
pub proof fn pieces_from_the_front(first: Seq<char>, rest: Seq<char>, separator: char)
    requires
        !first.contains(separator),
    ensures
        pieces(first + seq![separator] + rest, separator) == seq![first] + pieces(rest, separator),
        pieces(first, separator) == seq![first],
    decreases first.len() + rest.len(),
{
    if first.len() > 0 {
        let short = first.drop_last();
        assert(!short.contains(separator)) by {
            if short.contains(separator) {
                let k = choose|k: int| 0 <= k < short.len() && short[k] == separator;
                assert(first[k] == separator);
            }
        }
        pieces_from_the_front(short, Seq::empty(), separator);
        assert(first.last() != separator) by {
            assert(first[first.len() - 1] == first.last());
        }
        assert(short.push(first.last()) =~= first);
        assert(pieces(first, separator) =~= seq![first]);
    } else {
        assert(first =~= Seq::empty());
    }
    let whole = first + seq![separator] + rest;
    pieces_rejoin(rest, separator);
    if rest.len() == 0 {
        assert(whole.drop_last() =~= first);
        assert(whole.last() == separator);
        assert(pieces(whole, separator) =~= seq![first] + pieces(rest, separator));
    } else {
        let less = rest.drop_last();
        pieces_from_the_front(first, less, separator);
        pieces_rejoin(less, separator);
        assert(whole.drop_last() =~= first + seq![separator] + less);
        assert(whole.last() == rest.last());
        let p = pieces(less, separator);
        assert((seq![first] + p).last() == p.last());
        assert((seq![first] + p).drop_last() =~= seq![first] + p.drop_last());
        assert(pieces(whole, separator) =~= seq![first] + pieces(rest, separator));
    }
}

/// The number that a row of digits stands for.
pub open spec fn decimal_value(digits: Seq<char>) -> int
    decreases digits.len(),
{
    if digits.len() == 0 {
        0
    } else {
        10 * decimal_value(digits.drop_last()) + (digits.last() as int - '0' as int)
    }
}

/// A numeral is a row of digits that stands for its number, and no digit of it
/// is a needless zero at the front.
pub proof fn numeral_reads_back(n: nat)
    ensures
        decimal_value(numeral(n)) == n,
        numeral(n).len() > 0,
        forall|i: int| 0 <= i < numeral(n).len() ==> '0' <= #[trigger] numeral(n)[i] <= '9',
        n > 0 ==> numeral(n)[0] != '0',
        n == 0 ==> numeral(n).len() == 1,
    decreases n,
{
    if n < 10 {
        assert(numeral(n).drop_last() =~= Seq::empty());
        assert(decimal_value(Seq::empty()) == 0);
    } else {
        numeral_reads_back(n / 10);
        assert(numeral(n).drop_last() =~= numeral(n / 10));
        assert(numeral(n)[0] == numeral(n / 10)[0]);
    }
}

} // verus!
