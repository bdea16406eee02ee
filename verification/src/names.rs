//! Sets of names, kept as sorted lists without repetition.

use vstd::prelude::*;

use crate::text;

verus! {

/// `a` comes before `b` in the order of strings: the first place where they
/// differ decides, and a proper beginning of a text comes before the text.
pub open spec fn precedes(a: Seq<char>, b: Seq<char>) -> bool
    decreases a.len(),
{
    if b.len() == 0 {
        false
    } else if a.len() == 0 {
        true
    } else if a[0] == b[0] {
        precedes(a.drop_first(), b.drop_first())
    } else {
        a[0] < b[0]
    }
}

/// Each entry comes before all later ones, so none occurs twice.
pub open spec fn sorted(list: Seq<Seq<char>>) -> bool {
    forall|i: int, j: int| 0 <= i < j < list.len() ==> precedes(#[trigger] list[i], #[trigger] list[j])
}

/// `list` holds the names of the set, each once, in order.
pub open spec fn lists(list: Seq<Seq<char>>, names: Set<Seq<char>>) -> bool {
    &&& sorted(list)
    &&& forall|name: Seq<char>| #[trigger] names.contains(name) <==> list.contains(name)
}

/// The names of a finite set, each once, in order.
pub open spec fn listing(names: Set<Seq<char>>) -> Seq<Seq<char>> {
    choose|list: Seq<Seq<char>>| lists(list, names)
}

/// No text comes before itself.
pub proof fn order_is_irreflexive(a: Seq<char>)
    ensures
        !precedes(a, a),
    decreases a.len(),
{
    if a.len() > 0 {
        order_is_irreflexive(a.drop_first());
    }
}

/// What comes before something comes before all that follows it.
pub proof fn order_is_transitive(a: Seq<char>, b: Seq<char>, c: Seq<char>)
    requires
        precedes(a, b),
        precedes(b, c),
    ensures
        precedes(a, c),
    decreases a.len(),
{
    if a.len() > 0 && a[0] == b[0] && b[0] == c[0] {
        order_is_transitive(a.drop_first(), b.drop_first(), c.drop_first());
    }
}

/// Of two different texts one comes before the other.
pub proof fn order_is_total(a: Seq<char>, b: Seq<char>)
    ensures
        a == b || precedes(a, b) || precedes(b, a),
    decreases a.len(),
{
    if a.len() > 0 && b.len() > 0 && a[0] == b[0] {
        order_is_total(a.drop_first(), b.drop_first());
        if a.drop_first() == b.drop_first() {
            assert(a =~= seq![a[0]] + a.drop_first());
            assert(b =~= seq![b[0]] + b.drop_first());
        }
    } else if a.len() == 0 && b.len() == 0 {
        assert(a =~= b);
    }
}

/// Two sorted lists of the same names are the same list.
pub proof fn listing_is_unique(a: Seq<Seq<char>>, b: Seq<Seq<char>>, names: Set<Seq<char>>)
    requires
        lists(a, names),
        lists(b, names),
    ensures
        a == b,
    decreases a.len(),
{
    if a.len() == 0 {
        if b.len() > 0 {
            assert(names.contains(b[0]));
            assert(a.contains(b[0]));
        }
        assert(a =~= b);
    } else {
        assert(names.contains(a[0]));
        assert(b.contains(a[0]));
        assert(names.contains(b[0]));
        assert(a.contains(b[0]));
        let k = choose|k: int| 0 <= k < b.len() && b[k] == a[0];
        let m = choose|m: int| 0 <= m < a.len() && a[m] == b[0];
        if k > 0 {
            assert(precedes(b[0], b[k]));
            if m > 0 {
                assert(precedes(a[0], a[m]));
                order_is_transitive(a[0], b[0], a[0]);
            }
            order_is_irreflexive(a[0]);
        }
        assert(a[0] == b[0]);
        rest_lists(a, names);
        rest_lists(b, names);
        listing_is_unique(a.drop_first(), b.drop_first(), names.remove(a[0]));
        assert(a =~= seq![a[0]] + a.drop_first());
        assert(b =~= seq![b[0]] + b.drop_first());
    }
}

proof fn rest_lists(list: Seq<Seq<char>>, names: Set<Seq<char>>)
    requires
        lists(list, names),
        list.len() > 0,
    ensures
        lists(list.drop_first(), names.remove(list[0])),
{
    let rest = list.drop_first();
    assert forall|i: int, j: int| 0 <= i < j < rest.len() implies precedes(#[trigger] rest[i], #[trigger] rest[j]) by {
        assert(rest[i] == list[i + 1] && rest[j] == list[j + 1]);
    }
    assert forall|name: Seq<char>| #[trigger] names.remove(list[0]).contains(name) <==> rest.contains(name) by {
        if names.contains(name) && name != list[0] {
            let k = choose|k: int| 0 <= k < list.len() && list[k] == name;
            assert(rest[k - 1] == name);
        }
        if rest.contains(name) {
            let k = choose|k: int| 0 <= k < rest.len() && rest[k] == name;
            assert(list[k + 1] == name);
            assert(names.contains(name));
            assert(precedes(list[0], list[k + 1]));
            order_is_irreflexive(name);
        }
    }
}

/// A sorted list of the names of a set is the listing of the set.
pub proof fn listing_is(list: Seq<Seq<char>>, names: Set<Seq<char>>)
    requires
        lists(list, names),
    ensures
        list == listing(names),
{
    listing_is_unique(list, listing(names), names);
}

/// Whether `a` comes before `b`.
pub fn comes_before(a: &str, b: &str) -> (r: bool)
    ensures
        r == precedes(a@, b@),
{
    let left = text::characters(a);
    let right = text::characters(b);
    let mut i: usize = 0;
    proof {
        assert(a@.skip(0) =~= a@);
        assert(b@.skip(0) =~= b@);
    }
    while i < left.len() && i < right.len()
        invariant
            left@ == a@,
            right@ == b@,
            i <= left@.len(),
            i <= right@.len(),
            precedes(a@, b@) == precedes(a@.skip(i as int), b@.skip(i as int)),
        decreases left@.len() - i,
    {
        if left[i] != right[i] {
            return left[i] < right[i];
        }
        proof {
            assert(a@.skip(i as int).drop_first() =~= a@.skip(i + 1));
            assert(b@.skip(i as int).drop_first() =~= b@.skip(i + 1));
        }
        i = i + 1;
    }
    i < right.len()
}

/// Adds `name` to a sorted list of names, unless it is there already.
pub fn add_name(list: &mut Vec<String>, name: String)
    requires
        sorted(text::texts(old(list)@)),
    ensures
        sorted(text::texts(final(list)@)),
        forall|n: Seq<char>|
            #[trigger] text::texts(final(list)@).contains(n) <==> text::texts(old(list)@).contains(n) || n == name@,
{
    let ghost before = text::texts(list@);
    let mut i: usize = 0;
    while i < list.len() && comes_before(list[i].as_str(), name.as_str())
        invariant
            before == text::texts(list@),
            i <= list@.len(),
            forall|j: int| 0 <= j < i ==> precedes(#[trigger] before[j], name@),
        decreases list@.len() - i,
    {
        i = i + 1;
    }
    if i < list.len() && text::same(list[i].as_str(), name.as_str()) {
        proof {
            assert(before[i as int] == name@);
        }
        return;
    }
    let ghost n = name@;
    list.insert(i, name);
    proof {
        let after = text::texts(list@);
        assert(after =~= before.insert(i as int, n));
        if i < before.len() {
            assert(before[i as int] == after[i + 1]);
            order_is_total(before[i as int], n);
        }
        assert forall|j: int, k: int| 0 <= j < k < after.len() implies precedes(
            #[trigger] after[j],
            #[trigger] after[k],
        ) by {
            if k < i {
                assert(after[j] == before[j] && after[k] == before[k]);
            } else if k == i {
                assert(after[j] == before[j]);
            } else {
                assert(after[k] == before[k - 1]);
                if j < i {
                    assert(after[j] == before[j]);
                } else if j > i {
                    assert(after[j] == before[j - 1]);
                } else if k - 1 > i {
                    order_is_transitive(n, before[i as int], before[k - 1]);
                }
            }
        }
        assert forall|m: Seq<char>| #[trigger] after.contains(m) <==> before.contains(m) || m == n by {
            if before.contains(m) {
                let j = choose|j: int| 0 <= j < before.len() && before[j] == m;
                if j < i {
                    assert(after[j] == m);
                } else {
                    assert(after[j + 1] == m);
                }
            }
            assert(after[i as int] == n);
            if after.contains(m) {
                let j = choose|j: int| 0 <= j < after.len() && after[j] == m;
                if j < i {
                    assert(before[j] == m);
                } else if j > i {
                    assert(before[j - 1] == m);
                }
            }
        }
    }
}

/// The list with `name` put in its place.
spec fn with_name(list: Seq<Seq<char>>, name: Seq<char>) -> Seq<Seq<char>>
    decreases list.len(),
{
    if list.len() == 0 || precedes(name, list[0]) {
        seq![name] + list
    } else {
        seq![list[0]] + with_name(list.drop_first(), name)
    }
}

proof fn with_name_lists(list: Seq<Seq<char>>, names: Set<Seq<char>>, name: Seq<char>)
    requires
        lists(list, names),
        !names.contains(name),
    ensures
        lists(with_name(list, name), names.insert(name)),
    decreases list.len(),
{
    let all = with_name(list, name);
    if list.len() == 0 || precedes(name, list[0]) {
        assert forall|i: int, j: int| 0 <= i < j < all.len() implies precedes(#[trigger] all[i], #[trigger] all[j]) by {
            assert(all[j] == list[j - 1]);
            if i > 0 {
                assert(all[i] == list[i - 1]);
            } else if j > 1 {
                order_is_transitive(name, list[0], list[j - 1]);
            }
        }
        assert forall|n: Seq<char>| #[trigger] names.insert(name).contains(n) <==> all.contains(n) by {
            assert(all[0] == name);
            if names.contains(n) {
                let k = choose|k: int| 0 <= k < list.len() && list[k] == n;
                assert(all[k + 1] == n);
            }
            if all.contains(n) && n != name {
                let k = choose|k: int| 0 <= k < all.len() && all[k] == n;
                assert(list[k - 1] == n);
            }
        }
    } else {
        let first = list[0];
        assert(names.contains(first));
        let rest = with_name(list.drop_first(), name);
        rest_lists(list, names);
        with_name_lists(list.drop_first(), names.remove(first), name);
        order_is_total(name, first);
        assert forall|i: int, j: int| 0 <= i < j < all.len() implies precedes(#[trigger] all[i], #[trigger] all[j]) by {
            assert(all[j] == rest[j - 1]);
            if i > 0 {
                assert(all[i] == rest[i - 1]);
            } else {
                assert(rest.contains(rest[j - 1]));
                assert(names.remove(first).insert(name).contains(rest[j - 1]));
                if rest[j - 1] != name {
                    assert(names.contains(rest[j - 1]));
                    let k = choose|k: int| 0 <= k < list.len() && list[k] == rest[j - 1];
                    assert(precedes(list[0], list[k]));
                }
            }
        }
        assert forall|n: Seq<char>| #[trigger] names.insert(name).contains(n) <==> all.contains(n) by {
            assert(all[0] == first);
            assert(names.remove(first).insert(name).contains(n) <==> rest.contains(n));
            if rest.contains(n) {
                let k = choose|k: int| 0 <= k < rest.len() && rest[k] == n;
                assert(all[k + 1] == n);
            }
            if all.contains(n) && n != first {
                let k = choose|k: int| 0 <= k < all.len() && all[k] == n;
                assert(rest[k - 1] == n);
            }
        }
    }
}

/// Every finite set of names has a listing.
pub proof fn finite_sets_are_listed(names: Set<Seq<char>>)
    requires
        names.finite(),
    ensures
        lists(listing(names), names),
    decreases names.len(),
{
    if names.len() == 0 {
        assert(names =~= Set::empty());
        assert(lists(Seq::empty(), names));
    } else {
        let name = names.choose();
        let rest = names.remove(name);
        finite_sets_are_listed(rest);
        with_name_lists(listing(rest), rest, name);
        assert(rest.insert(name) =~= names);
        assert(lists(with_name(listing(rest), name), names));
    }
}

/// The first character that differs decides which of two texts comes first, and
/// a text comes before all that begin with it and go on.
pub proof fn order_goes_by_the_first_difference(
    common: Seq<char>,
    c: char,
    d: char,
    left: Seq<char>,
    right: Seq<char>,
)
    requires
        c < d,
    ensures
        precedes(common + seq![c] + left, common + seq![d] + right),
        !precedes(common + seq![d] + right, common + seq![c] + left),
        precedes(common, common + seq![d] + right),
        !precedes(common + seq![d] + right, common),
    decreases common.len(),
{
    let a = common + seq![c] + left;
    let b = common + seq![d] + right;
    if common.len() > 0 {
        let rest = common.drop_first();
        order_goes_by_the_first_difference(rest, c, d, left, right);
        assert(a.drop_first() =~= rest + seq![c] + left);
        assert(b.drop_first() =~= rest + seq![d] + right);
        assert(a[0] == common[0] && b[0] == common[0]);
    } else {
        assert(a[0] == c && b[0] == d);
    }
}

/// The listing of a finite set holds the names of the set and no other, each
/// before all that come after it in the order of strings.
pub proof fn listings_ascend(names: Set<Seq<char>>, name: Seq<char>, i: int, j: int)
    requires
        names.finite(),
    ensures
        listing(names).contains(name) <==> names.contains(name),
        0 <= i < j < listing(names).len() ==> precedes(listing(names)[i], listing(names)[j]),
{
    finite_sets_are_listed(names);
}

} // verus!
