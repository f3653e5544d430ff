use vstd::prelude::*;

verus! {

/// What `str::trim` leaves of a text: the text without its leading and
/// trailing white space.
pub uninterp spec fn trim_of(s: Seq<char>) -> Seq<char>;

/// Relies on `str::trim`, whose result depends on the characters alone.
#[verifier::external_body]
pub(crate) fn trim_text(s: &str) -> (r: String)
    ensures
        r@ == trim_of(s@),
{
    s.trim().to_string()
}

/// The decimal digit for `d < 10`.
pub open spec fn digit_of(d: nat) -> char {
    seq!['0', '1', '2', '3', '4', '5', '6', '7', '8', '9'][d as int]
}

/// The decimal notation of `n`: no sign, no leading zeros.
pub open spec fn dec_of(n: nat) -> Seq<char>
    decreases n,
{
    if n < 10 {
        seq![digit_of(n)]
    } else {
        dec_of(n / 10).push(digit_of(n % 10))
    }
}

/// Relies on the `Display` impl of `usize` (through `to_string`): the
/// number in decimal notation.
#[verifier::external_body]
pub(crate) fn decimal(n: usize) -> (r: String)
    ensures
        r@ == dec_of(n as nat),
{
    n.to_string()
}

/// The detail given when the produced and the expected line counts differ.
pub open spec fn count_detail(produced: nat, expected: nat) -> Seq<char> {
    "行数が一致しません: 実行結果の行数: "@ + dec_of(produced) + ", 期待される出力の行数: "@
        + dec_of(expected)
}

/// The detail given for the first differing line, numbered from one.
pub open spec fn line_detail(line_no: nat, produced: Seq<char>, expected: Seq<char>) -> Seq<
    char,
> {
    "行 "@ + dec_of(line_no) + " が一致しません: 実行結果: '"@ + produced + "', 期待される出力: '"@
        + expected + "'"@
}

/// Line `i` is the first position where the trimmed lines differ.
pub open spec fn first_mismatch(p: Seq<Seq<char>>, e: Seq<Seq<char>>, i: int) -> bool {
    &&& 0 <= i < p.len()
    &&& i < e.len()
    &&& trim_of(p[i]) != trim_of(e[i])
    &&& forall|j: int| 0 <= j < i ==> trim_of(#[trigger] p[j]) == trim_of(e[j])
}

/// Every position holds equal lines once trimmed.
pub open spec fn all_lines_agree(p: Seq<Seq<char>>, e: Seq<Seq<char>>) -> bool {
    forall|j: int| 0 <= j < p.len() ==> trim_of(#[trigger] p[j]) == trim_of(e[j])
}

/// The comparison of produced lines `p` against expected lines `e`: the
/// line counts first, then the lines in order, stopping at the first one
/// that differs once trimmed.
pub open spec fn comparison(p: Seq<Seq<char>>, e: Seq<Seq<char>>) -> (bool, Seq<char>) {
    if p.len() != e.len() {
        (false, count_detail(p.len(), e.len()))
    } else if exists|i: int| first_mismatch(p, e, i) {
        let i = choose|i: int| first_mismatch(p, e, i);
        (false, line_detail((i + 1) as nat, p[i], e[i]))
    } else {
        (true, Seq::empty())
    }
}

/// There is at most one first mismatch.
pub proof fn lemma_first_mismatch_unique(p: Seq<Seq<char>>, e: Seq<Seq<char>>, i: int, k: int)
    requires
        first_mismatch(p, e, i),
        first_mismatch(p, e, k),
    ensures
        i == k,
{
    if i < k {
        assert(trim_of(p[i]) == trim_of(e[i]));
    } else if k < i {
        assert(trim_of(p[k]) == trim_of(e[k]));
    }
}

/// For equal-length line sequences, the comparison matches exactly when
/// every position agrees once trimmed; otherwise its detail cites the first
/// differing line, numbered from one.
pub proof fn lemma_equal_length_comparison(p: Seq<Seq<char>>, e: Seq<Seq<char>>)
    requires
        p.len() == e.len(),
    ensures
        comparison(p, e).0 <==> all_lines_agree(p, e),
        !comparison(p, e).0 ==> exists|i: int|
            first_mismatch(p, e, i) && comparison(p, e).1 == line_detail(
                (i + 1) as nat,
                p[i],
                e[i],
            ),
{
    if all_lines_agree(p, e) {
        assert forall|k: int| !first_mismatch(p, e, k) by {
            if first_mismatch(p, e, k) {
                assert(trim_of(p[k]) == trim_of(e[k]));
            }
        }
    } else {
        let w = choose|w: int| 0 <= w < p.len() && trim_of(#[trigger] p[w]) != trim_of(e[w]);
        lemma_least_mismatch(p, e, w);
    }
}

/// Below any differing position there is a first one.
proof fn lemma_least_mismatch(p: Seq<Seq<char>>, e: Seq<Seq<char>>, w: int)
    requires
        p.len() == e.len(),
        0 <= w < p.len(),
        trim_of(p[w]) != trim_of(e[w]),
    ensures
        exists|i: int| first_mismatch(p, e, i),
    decreases w,
{
    if forall|j: int| 0 <= j < w ==> trim_of(#[trigger] p[j]) == trim_of(e[j]) {
        assert(first_mismatch(p, e, w));
    } else {
        let v = choose|v: int| 0 <= v < w && trim_of(#[trigger] p[v]) != trim_of(e[v]);
        lemma_least_mismatch(p, e, v);
    }
}

/// When the line counts differ, the comparison fails whatever the lines
/// hold, and its detail gives both counts.
pub proof fn lemma_count_mismatch(p: Seq<Seq<char>>, e: Seq<Seq<char>>)
    requires
        p.len() != e.len(),
    ensures
        !comparison(p, e).0,
        comparison(p, e).1 == count_detail(p.len(), e.len()),
{
}

fn count_message(produced: usize, expected: usize) -> (r: String)
    ensures
        r@ == count_detail(produced as nat, expected as nat),
{
    let mut s = String::from_str("行数が一致しません: 実行結果の行数: ");
    let a = decimal(produced);
    s.append(a.as_str());
    s.append(", 期待される出力の行数: ");
    let b = decimal(expected);
    s.append(b.as_str());
    s
}

fn line_message(line_no: usize, produced: &String, expected: &String) -> (r: String)
    ensures
        r@ == line_detail(line_no as nat, produced@, expected@),
{
    let mut s = String::from_str("行 ");
    let n = decimal(line_no);
    s.append(n.as_str());
    s.append(" が一致しません: 実行結果: '");
    s.append(produced.as_str());
    s.append("', 期待される出力: '");
    s.append(expected.as_str());
    s.append("'");
    s
}

/// Compares the lines a run produced with the expected lines, strictly:
/// equal counts, then equal lines position by position once each is
/// trimmed. Returns whether they match, and on a mismatch a detail naming
/// both counts or the first differing line; on a match the detail is empty.
pub fn complete_match(stdout: Vec<String>, expected_stdout: &Vec<String>) -> (r: (bool, String))
    ensures
        r.0 == comparison(stdout.deep_view(), expected_stdout.deep_view()).0,
        r.1@ == comparison(stdout.deep_view(), expected_stdout.deep_view()).1,
{
    let ghost p = stdout.deep_view();
    let ghost e = expected_stdout.deep_view();
    if stdout.len() != expected_stdout.len() {
        return (false, count_message(stdout.len(), expected_stdout.len()));
    }
    let mut i: usize = 0;
    while i < stdout.len()
        invariant
            i <= stdout.len(),
            stdout.len() == expected_stdout.len(),
            p == stdout.deep_view(),
            e == expected_stdout.deep_view(),
            forall|j: int| 0 <= j < i ==> trim_of(#[trigger] p[j]) == trim_of(e[j]),
        decreases stdout.len() - i,
    {
        let a = trim_text(stdout[i].as_str());
        let b = trim_text(expected_stdout[i].as_str());
        if !(a == b) {
            proof {
                assert(first_mismatch(p, e, i as int));
                let k = choose|k: int| first_mismatch(p, e, k);
                lemma_first_mismatch_unique(p, e, i as int, k);
            }
            return (false, line_message(i + 1, &stdout[i], &expected_stdout[i]));
        }
        i += 1;
    }
    proof {
        assert forall|k: int| !first_mismatch(p, e, k) by {
            if first_mismatch(p, e, k) {
                assert(trim_of(p[k]) == trim_of(e[k]));
            }
        }
    }
    (true, String::new())
}

} // verus!
