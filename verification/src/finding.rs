//! Single results of a check.

use vstd::prelude::*;

verus! {

/// How much a finding weighs. Only an error fails a check.
#[derive(Debug, Clone, Copy, PartialEq, Eq, Structural)]
pub enum Level {
    Error,
    Warning,
    Info,
}

/// One result of a check: its weight, its code, what was found and, unless it
/// is for information only, what to do about it.
#[derive(Debug)]
pub struct Finding {
    pub level: Level,
    pub code: &'static str,
    pub message: String,
    pub remedy: Option<String>,
}

/// What a [`Finding`] says.
pub struct FindingView {
    pub level: Level,
    pub code: Seq<char>,
    pub message: Seq<char>,
    pub remedy: Option<Seq<char>>,
}

impl View for Finding {
    type V = FindingView;

    open spec fn view(&self) -> FindingView {
        FindingView {
            level: self.level,
            code: self.code@,
            message: self.message@,
            remedy: match self.remedy {
                Some(remedy) => Some(remedy@),
                None => None,
            },
        }
    }
}

pub open spec fn error(code: Seq<char>, message: Seq<char>, remedy: Seq<char>) -> FindingView {
    FindingView { level: Level::Error, code, message, remedy: Some(remedy) }
}

pub open spec fn warning(code: Seq<char>, message: Seq<char>, remedy: Seq<char>) -> FindingView {
    FindingView { level: Level::Warning, code, message, remedy: Some(remedy) }
}

pub open spec fn info(code: Seq<char>, message: Seq<char>) -> FindingView {
    FindingView { level: Level::Info, code, message, remedy: None }
}

/// What a list of findings says.
pub open spec fn views(list: Seq<Finding>) -> Seq<FindingView> {
    list.map_values(|finding: Finding| finding@)
}

/// Some finding of the list is an error.
pub open spec fn fails(list: Seq<FindingView>) -> bool {
    exists|i: int| 0 <= i < list.len() && (#[trigger] list[i]).level == Level::Error
}

/// The finding, where `condition` holds; nothing otherwise.
pub open spec fn when(condition: bool, finding: FindingView) -> Seq<FindingView> {
    if condition {
        seq![finding]
    } else {
        Seq::empty()
    }
}

impl Finding {
    pub fn error(code: &'static str, message: String, remedy: String) -> (finding: Finding)
        ensures
            finding@ == error(code@, message@, remedy@),
    {
        Finding { level: Level::Error, code, message, remedy: Some(remedy) }
    }

    pub fn warning(code: &'static str, message: String, remedy: String) -> (finding: Finding)
        ensures
            finding@ == warning(code@, message@, remedy@),
    {
        Finding { level: Level::Warning, code, message, remedy: Some(remedy) }
    }

    pub fn info(code: &'static str, message: String) -> (finding: Finding)
        ensures
            finding@ == info(code@, message@),
    {
        Finding { level: Level::Info, code, message, remedy: None }
    }
}

/// Adds the finding to the list, where `condition` holds.
pub fn note(list: &mut Vec<Finding>, condition: bool, finding: Finding)
    ensures
        views(final(list)@) == views(old(list)@) + when(condition, finding@),
{
    let ghost before = views(list@);
    if condition {
        list.push(finding);
        proof {
            assert(views(list@) =~= before + seq![finding@]);
        }
    } else {
        proof {
            assert(before + Seq::<FindingView>::empty() =~= before);
        }
    }
}

/// Whether some finding of the list is an error.
pub fn any_error(list: &Vec<Finding>) -> (r: bool)
    ensures
        r == fails(views(list@)),
{
    let mut i: usize = 0;
    while i < list.len()
        invariant
            i <= list@.len(),
            forall|j: int| 0 <= j < i ==> (#[trigger] views(list@)[j]).level != Level::Error,
        decreases list@.len() - i,
    {
        if list[i].level == Level::Error {
            proof {
                assert(views(list@)[i as int].level == Level::Error);
            }
            return true;
        }
        i = i + 1;
    }
    false
}

/// Findings put together fail exactly if one of the parts fails.
pub broadcast proof fn fails_together(a: Seq<FindingView>, b: Seq<FindingView>)
    ensures
        #[trigger] fails(a + b) <==> fails(a) || fails(b),
{
    if fails(a) {
        let i = choose|i: int| 0 <= i < a.len() && (#[trigger] a[i]).level == Level::Error;
        assert((a + b)[i] == a[i]);
    }
    if fails(b) {
        let i = choose|i: int| 0 <= i < b.len() && (#[trigger] b[i]).level == Level::Error;
        assert((a + b)[a.len() + i] == b[i]);
    }
    if fails(a + b) {
        let i = choose|i: int| 0 <= i < (a + b).len() && (#[trigger] (a + b)[i]).level == Level::Error;
        if i < a.len() {
            assert(a[i].level == Level::Error);
        } else {
            assert(b[i - a.len()].level == Level::Error);
        }
    }
}

/// A single finding fails exactly if it is there and is an error.
pub broadcast proof fn fails_alone(condition: bool, finding: FindingView)
    ensures
        #[trigger] fails(when(condition, finding)) <==> condition && finding.level == Level::Error,
{
    if condition && finding.level == Level::Error {
        assert(when(condition, finding)[0].level == Level::Error);
    }
}

/// Some finding of the list has this code.
pub open spec fn reports(list: Seq<FindingView>, code: Seq<char>) -> bool {
    exists|i: int| 0 <= i < list.len() && (#[trigger] list[i]).code == code
}

/// Findings put together report what the parts report.
pub broadcast proof fn reports_together(a: Seq<FindingView>, b: Seq<FindingView>, code: Seq<char>)
    ensures
        #[trigger] reports(a + b, code) <==> reports(a, code) || reports(b, code),
{
    if reports(a, code) {
        let i = choose|i: int| 0 <= i < a.len() && (#[trigger] a[i]).code == code;
        assert((a + b)[i] == a[i]);
    }
    if reports(b, code) {
        let i = choose|i: int| 0 <= i < b.len() && (#[trigger] b[i]).code == code;
        assert((a + b)[a.len() + i] == b[i]);
    }
    if reports(a + b, code) {
        let i = choose|i: int| 0 <= i < (a + b).len() && (#[trigger] (a + b)[i]).code == code;
        if i < a.len() {
            assert(a[i].code == code);
        } else {
            assert(b[i - a.len()].code == code);
        }
    }
}

/// A single finding reports its own code, where it is there.
pub broadcast proof fn reports_alone(condition: bool, finding: FindingView, code: Seq<char>)
    ensures
        #[trigger] reports(when(condition, finding), code) <==> condition && finding.code == code,
{
    if condition {
        assert(when(condition, finding)[0] == finding);
    }
}

/// All findings but those for information say what to do.
pub open spec fn all_advise(list: Seq<FindingView>) -> bool {
    forall|i: int| 0 <= i < list.len() ==> advises(#[trigger] list[i])
}

/// The finding says what to do, unless it is for information only.
pub open spec fn advises(finding: FindingView) -> bool {
    finding.remedy is Some <==> finding.level != Level::Info
}

/// Lists of findings that say what to do, put together, say what to do.
pub broadcast proof fn advise_together(a: Seq<FindingView>, b: Seq<FindingView>)
    requires
        all_advise(a),
        all_advise(b),
    ensures
        #[trigger] all_advise(a + b),
{
    assert forall|i: int| 0 <= i < (a + b).len() implies advises(#[trigger] (a + b)[i]) by {
        if i < a.len() {
            assert((a + b)[i] == a[i]);
        } else {
            assert((a + b)[i] == b[i - a.len()]);
        }
    }
}

/// A single finding that says what to do is a list that does.
pub broadcast proof fn advise_alone(condition: bool, finding: FindingView)
    requires
        advises(finding),
    ensures
        #[trigger] all_advise(when(condition, finding)),
{
}

/// A finding says its level, its code, its message and its remedy, and a list
/// of findings says what each of them says, in order.
pub proof fn findings_say_all_they_hold(finding: Finding, list: Seq<Finding>)
    ensures
        finding@.level == finding.level,
        finding@.code == finding.code@,
        finding@.message == finding.message@,
        finding.remedy is Some ==> finding@.remedy == Some(finding.remedy->0@),
        finding.remedy is None ==> finding@.remedy is None,
        views(list).len() == list.len(),
        forall|i: int| 0 <= i < list.len() ==> #[trigger] views(list)[i] == list[i]@,
{
}

/// Errors and warnings carry their remedy, information carries none, and each
/// has the level it is named after.
pub proof fn kinds_of_findings(code: Seq<char>, message: Seq<char>, remedy: Seq<char>)
    ensures
        error(code, message, remedy) == (FindingView { level: Level::Error, code, message, remedy: Some(remedy) }),
        warning(code, message, remedy) == (FindingView { level: Level::Warning, code, message, remedy: Some(remedy) }),
        info(code, message) == (FindingView { level: Level::Info, code, message, remedy: None }),
{
}

/// A list of one finding fails exactly if it is an error, and an empty list does
/// not fail.
pub proof fn fails_on_errors_only(finding: FindingView)
    ensures
        fails(seq![finding]) <==> finding.level == Level::Error,
        !fails(Seq::empty()),
{
    assert(seq![finding][0] == finding);
}

/// What findings put together hold is what the parts hold.
pub broadcast proof fn held_together(a: Seq<FindingView>, b: Seq<FindingView>, finding: FindingView)
    ensures
        #[trigger] (a + b).contains(finding) <==> a.contains(finding) || b.contains(finding),
{
    if a.contains(finding) {
        let i = choose|i: int| 0 <= i < a.len() && a[i] == finding;
        assert((a + b)[i] == finding);
    }
    if b.contains(finding) {
        let i = choose|i: int| 0 <= i < b.len() && b[i] == finding;
        assert((a + b)[a.len() + i] == finding);
    }
    if (a + b).contains(finding) {
        let i = choose|i: int| 0 <= i < (a + b).len() && (a + b)[i] == finding;
        if i < a.len() {
            assert(a[i] == finding);
        } else {
            assert(b[i - a.len()] == finding);
        }
    }
}

/// A finding that is there under a condition holds itself under it.
pub broadcast proof fn held_alone(condition: bool, only: FindingView, finding: FindingView)
    ensures
        #[trigger] when(condition, only).contains(finding) <==> condition && finding == only,
{
    if condition {
        assert(when(condition, only)[0] == only);
    }
}

/// The code is one of those from `low` up to `high`.
pub open spec fn placed(codes: Seq<Seq<char>>, code: Seq<char>, low: int, high: int) -> bool {
    exists|p: int| low <= p < high && #[trigger] codes[p] == code
}

/// From `low` up to `high`, the one code comes before the other.
pub open spec fn placed_before(codes: Seq<Seq<char>>, first: Seq<char>, second: Seq<char>, low: int, high: int) -> bool {
    exists|p: int, q: int| low <= p < q < high && #[trigger] codes[p] == first && #[trigger] codes[q] == second
}

/// The code of every finding is one of those from `low` up to `high`, and the
/// codes come in the order in which `codes` has them.
pub open spec fn in_order(list: Seq<FindingView>, codes: Seq<Seq<char>>, low: int, high: int) -> bool {
    &&& forall|i: int| 0 <= i < list.len() ==> placed(codes, (#[trigger] list[i]).code, low, high)
    &&& forall|i: int, j: int|
        0 <= i < j < list.len() ==> placed_before(codes, (#[trigger] list[i]).code, (#[trigger] list[j]).code, low, high)
}

/// Lists that are in order, the second further on than the first, are in order
/// when they are put together.
pub proof fn in_order_together(
    a: Seq<FindingView>,
    b: Seq<FindingView>,
    codes: Seq<Seq<char>>,
    low: int,
    middle: int,
    high: int,
)
    requires
        in_order(a, codes, low, middle),
        in_order(b, codes, middle, high),
        low <= middle <= high,
    ensures
        in_order(a + b, codes, low, high),
{
    let all = a + b;
    assert forall|i: int| 0 <= i < all.len() implies placed(codes, (#[trigger] all[i]).code, low, high) by {
        if i < a.len() {
            assert(all[i] == a[i]);
            assert(placed(codes, a[i].code, low, middle));
        } else {
            assert(all[i] == b[i - a.len()]);
            assert(placed(codes, b[i - a.len()].code, middle, high));
        }
    }
    assert forall|i: int, j: int| 0 <= i < j < all.len() implies placed_before(
        codes,
        (#[trigger] all[i]).code,
        (#[trigger] all[j]).code,
        low,
        high,
    ) by {
        if j < a.len() {
            assert(all[i] == a[i] && all[j] == a[j]);
            assert(placed_before(codes, a[i].code, a[j].code, low, middle));
        } else if i >= a.len() {
            let k = i - a.len();
            let m = j - a.len();
            assert(all[i] == b[k] && all[j] == b[m]);
            assert(placed_before(codes, b[k].code, b[m].code, middle, high));
        } else {
            let m = j - a.len();
            assert(all[i] == a[i] && all[j] == b[m]);
            assert(placed(codes, a[i].code, low, middle) && placed(codes, b[m].code, middle, high));
            let p = choose|p: int| low <= p < middle && #[trigger] codes[p] == a[i].code;
            let q = choose|q: int| middle <= q < high && #[trigger] codes[q] == b[m].code;
            assert(codes[p] == all[i].code && codes[q] == all[j].code);
        }
    }
}

/// A list of at most one finding, whose code stands at one of the places, is in
/// order.
pub proof fn in_order_alone(list: Seq<FindingView>, codes: Seq<Seq<char>>, low: int, high: int, place: int)
    requires
        list.len() <= 1,
        low <= place < high,
        list.len() == 1 ==> codes[place] == list[0].code,
    ensures
        in_order(list, codes, low, high),
{
    assert forall|i: int| 0 <= i < list.len() implies placed(codes, (#[trigger] list[i]).code, low, high) by {
        assert(codes[place] == list[i].code);
    }
}

/// A list in order that is followed by the finding of the next code is in order.
pub broadcast proof fn in_order_grows(
    list: Seq<FindingView>,
    condition: bool,
    next: FindingView,
    codes: Seq<Seq<char>>,
    low: int,
    high: int,
)
    requires
        in_order(list, codes, low, high - 1),
        low < high,
        codes[high - 1] == next.code,
    ensures
        #[trigger] in_order(list + when(condition, next), codes, low, high),
{
    in_order_alone(when(condition, next), codes, high - 1, high, high - 1);
    in_order_together(list, when(condition, next), codes, low, high - 1, high);
}

/// A single finding of the first code is in order.
pub broadcast proof fn in_order_begins(
    condition: bool,
    first: FindingView,
    codes: Seq<Seq<char>>,
    low: int,
    high: int,
)
    requires
        low < high,
        codes[low] == first.code,
    ensures
        #[trigger] in_order(when(condition, first), codes, low, high),
{
    in_order_alone(when(condition, first), codes, low, high, low);
}

} // verus!
