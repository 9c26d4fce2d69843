//! Small text helpers: decimal rendering of integers and containment-tree
//! identifier handling.

use vstd::prelude::*;

verus! {

/// The character of a decimal digit.
pub open spec fn digit_char(d: nat) -> char
    recommends
        d < 10,
{
    if d == 0 {
        '0'
    } else if d == 1 {
        '1'
    } else if d == 2 {
        '2'
    } else if d == 3 {
        '3'
    } else if d == 4 {
        '4'
    } else if d == 5 {
        '5'
    } else if d == 6 {
        '6'
    } else if d == 7 {
        '7'
    } else if d == 8 {
        '8'
    } else {
        '9'
    }
}

/// Decimal text of a natural number, most significant digit first, with no
/// leading zeros.
pub open spec fn dec(n: nat) -> Seq<char>
    decreases n,
{
    if n < 10 {
        seq![digit_char(n)]
    } else {
        dec(n / 10) + seq![digit_char(n % 10)]
    }
}

/// Decimal text of an integer, with a leading `-` when it is negative.
pub open spec fn signed_dec(n: int) -> Seq<char> {
    if n < 0 {
        seq!['-'] + dec((-n) as nat)
    } else {
        dec(n as nat)
    }
}

fn digit_text(d: usize) -> (r: &'static str)
    requires
        d < 10,
    ensures
        r@ == seq![digit_char(d as nat)],
{
    if d == 0 {
        proof { reveal_strlit("0"); }
        "0"
    } else if d == 1 {
        proof { reveal_strlit("1"); }
        "1"
    } else if d == 2 {
        proof { reveal_strlit("2"); }
        "2"
    } else if d == 3 {
        proof { reveal_strlit("3"); }
        "3"
    } else if d == 4 {
        proof { reveal_strlit("4"); }
        "4"
    } else if d == 5 {
        proof { reveal_strlit("5"); }
        "5"
    } else if d == 6 {
        proof { reveal_strlit("6"); }
        "6"
    } else if d == 7 {
        proof { reveal_strlit("7"); }
        "7"
    } else if d == 8 {
        proof { reveal_strlit("8"); }
        "8"
    } else {
        proof { reveal_strlit("9"); }
        "9"
    }
}

/// Renders `n` in decimal.
pub fn decimal(n: u64) -> (r: String)
    ensures
        r@ == dec(n as nat),
    decreases n,
{
    if n < 10 {
        String::from_str(digit_text(n as usize))
    } else {
        let mut s = decimal(n / 10);
        s.append(digit_text((n % 10) as usize));
        s
    }
}

/// Renders `n` in decimal, with a leading `-` when it is negative.
pub fn signed_decimal(n: i32) -> (r: String)
    ensures
        r@ == signed_dec(n as int),
{
    if n < 0 {
        let m: u64 = (0 - (n as i64)) as u64;
        let mut s = String::from_str("-");
        proof { reveal_strlit("-"); }
        let d = decimal(m);
        s.append(d.as_str());
        s
    } else {
        decimal(n as u64)
    }
}

/// Index of the first `.` in `s` at or after `k`, or `s.len()` when there is
/// none.
pub open spec fn dot_from(s: Seq<char>, k: int) -> int
    decreases s.len() - k,
{
    if k >= s.len() {
        s.len() as int
    } else if s[k] == '.' {
        k
    } else {
        dot_from(s, k + 1)
    }
}

/// Whether a containment-tree id has at least two components.
pub open spec fn has_dot(s: Seq<char>) -> bool {
    dot_from(s, 0) < s.len()
}

/// The first dot-separated component of a containment-tree id.
pub open spec fn first_part(s: Seq<char>) -> Seq<char> {
    s.subrange(0, dot_from(s, 0))
}

/// The second dot-separated component of a containment-tree id.
pub open spec fn second_part(s: Seq<char>) -> Seq<char> {
    s.subrange(dot_from(s, 0) + 1, dot_from(s, dot_from(s, 0) + 1))
}

/// The id of the device system that holds the component `s`: `<root>.0.0`.
pub open spec fn mds_tree(s: Seq<char>) -> Seq<char> {
    first_part(s) + ".0.0"@
}

/// The id of the virtual device that holds the component `s`:
/// `<root>.<second>.0`.
pub open spec fn vmd_tree(s: Seq<char>) -> Seq<char> {
    first_part(s) + "."@ + second_part(s) + ".0"@
}

proof fn lemma_dot_from_bounds(s: Seq<char>, k: int)
    requires
        0 <= k <= s.len(),
    ensures
        k <= dot_from(s, k) <= s.len(),
    decreases s.len() - k,
{
    if k < s.len() && s[k] != '.' {
        lemma_dot_from_bounds(s, k + 1);
    }
}

proof fn lemma_dot_at(s: Seq<char>, k: int, p: int)
    requires
        0 <= k <= p < s.len(),
        s[p] == '.',
        forall|j: int| k <= j < p ==> s[j] != '.',
    ensures
        dot_from(s, k) == p,
    decreases p - k,
{
    if k < p {
        lemma_dot_at(s, k + 1, p);
    }
}

/// Index of the first `.` in `s` at or after `from`, or its length when there
/// is none.
fn find_dot(s: &str, from: usize) -> (r: usize)
    requires
        from <= s@.len(),
    ensures
        r == dot_from(s@, from as int),
{
    let n = s.unicode_len();
    let mut i = from;
    while i < n
        invariant
            from <= i <= n,
            n == s@.len(),
            dot_from(s@, from as int) == dot_from(s@, i as int),
        decreases n - i,
    {
        if s.get_char(i) == '.' {
            return i;
        }
        i = i + 1;
    }
    i
}

/// The two hierarchy roots of a containment-tree id: the device system
/// `<root>.0.0` and the virtual device `<root>.<second>.0`.
pub fn tree_roots(tree: &str) -> (r: (String, String))
    requires
        has_dot(tree@),
    ensures
        r.0@ == mds_tree(tree@),
        r.1@ == vmd_tree(tree@),
{
    let n = tree.unicode_len();
    let d = find_dot(tree, 0);
    assert(d < n);
    let e = find_dot(tree, d + 1);
    proof {
        lemma_dot_from_bounds(tree@, d + 1);
    }
    let first = tree.substring_char(0, d);
    let second = tree.substring_char(d + 1, e);
    let mut mds = String::from_str(first);
    mds.append(".0.0");
    let mut vmd = String::from_str(first);
    vmd.append(".");
    vmd.append(second);
    vmd.append(".0");
    (mds, vmd)
}

/// For a containment-tree id `A.B.C` whose first two components hold no dot,
/// the device system is `A.0.0` and the virtual device is `A.B.0`.
pub proof fn lemma_tree_roots(a: Seq<char>, b: Seq<char>, c: Seq<char>)
    requires
        !a.contains('.'),
        !b.contains('.'),
    ensures
        mds_tree(a + seq!['.'] + b + seq!['.'] + c) == a + ".0.0"@,
        vmd_tree(a + seq!['.'] + b + seq!['.'] + c) == a + "."@ + b + ".0"@,
{
    let s = a + seq!['.'] + b + seq!['.'] + c;
    let p = a.len() as int;
    let q = p + 1 + b.len();
    assert(s[p] == '.');
    assert(s[q] == '.');
    assert forall|j: int| 0 <= j < p implies s[j] != '.' by {
        assert(s[j] == a[j]);
    }
    assert forall|j: int| p + 1 <= j < q implies s[j] != '.' by {
        assert(s[j] == b[j - p - 1]);
    }
    lemma_dot_at(s, 0, p);
    lemma_dot_at(s, p + 1, q);
    assert(first_part(s) =~= a);
    assert(second_part(s) =~= b);
}

} // verus!
