//! The JWE compact serialization: five parts joined by `.`.
use vstd::prelude::*;

verus! {

/// The indices of the `.` characters of a text, in order.
pub open spec fn dot_positions(t: Seq<char>) -> Seq<int>
    decreases t.len(),
{
    if t.len() == 0 {
        Seq::empty()
    } else if t.last() == '.' {
        dot_positions(t.drop_last()).push(t.len() - 1)
    } else {
        dot_positions(t.drop_last())
    }
}

/// A text without `.`.
pub open spec fn no_dot(s: Seq<char>) -> bool {
    forall|i: int| 0 <= i < s.len() ==> s[i] != '.'
}

/// Five parts joined by `.`.
pub open spec fn join5(p: (Seq<char>, Seq<char>, Seq<char>, Seq<char>, Seq<char>)) -> Seq<char> {
    p.0 + "."@ + p.1 + "."@ + p.2 + "."@ + p.3 + "."@ + p.4
}

/// The five parts of a text with exactly four `.`, else `None`.
pub open spec fn compact_parts(t: Seq<char>) -> Option<(Seq<char>, Seq<char>, Seq<char>, Seq<char>, Seq<char>)> {
    let d = dot_positions(t);
    if d.len() == 4 {
        Some(
            (
                t.subrange(0, d[0]),
                t.subrange(d[0] + 1, d[1]),
                t.subrange(d[1] + 1, d[2]),
                t.subrange(d[2] + 1, d[3]),
                t.subrange(d[3] + 1, t.len() as int),
            ),
        )
    } else {
        None
    }
}

/// The dots of a concatenation are those of each side, the right side's
/// shifted by the left side's length.
pub proof fn lemma_dot_positions_concat(a: Seq<char>, b: Seq<char>)
    ensures
        dot_positions(a + b) == dot_positions(a) + dot_positions(b).map_values(|j: int| j + a.len()),
    decreases b.len(),
{
    if b.len() == 0 {
        assert(a + b =~= a);
        assert(dot_positions(b).map_values(|j: int| j + a.len()) =~= Seq::<int>::empty());
        assert(dot_positions(a) + Seq::<int>::empty() =~= dot_positions(a));
    } else {
        let b0 = b.drop_last();
        lemma_dot_positions_concat(a, b0);
        assert((a + b).drop_last() =~= a + b0);
        assert((a + b).last() == b.last());
        if b.last() == '.' {
            assert(dot_positions(b).map_values(|j: int| j + a.len()) =~= dot_positions(b0).map_values(
                |j: int| j + a.len(),
            ).push(b.len() - 1 + a.len()));
            assert(dot_positions(a + b) =~= dot_positions(a) + dot_positions(b).map_values(
                |j: int| j + a.len(),
            ));
        } else {
            assert(dot_positions(b).map_values(|j: int| j + a.len()) =~= dot_positions(b0).map_values(
                |j: int| j + a.len(),
            ));
        }
    }
}

/// A text without `.` has no dot positions.
pub proof fn lemma_no_dot_positions(s: Seq<char>)
    requires
        no_dot(s),
    ensures
        dot_positions(s) == Seq::<int>::empty(),
    decreases s.len(),
{
    if s.len() > 0 {
        lemma_no_dot_positions(s.drop_last());
    }
}

/// Joining five parts without `.` and splitting again gives the parts back.
pub proof fn lemma_compact_parts_join(p: (Seq<char>, Seq<char>, Seq<char>, Seq<char>, Seq<char>))
    requires
        no_dot(p.0),
        no_dot(p.1),
        no_dot(p.2),
        no_dot(p.3),
        no_dot(p.4),
    ensures
        compact_parts(join5(p)) == Some(p),
{
    reveal_strlit(".");
    let dot = "."@;
    assert(dot =~= seq!['.']);
    assert(dot_positions(dot) =~= seq![0int]) by {
        assert(dot.drop_last() =~= Seq::<char>::empty());
        assert(dot_positions(Seq::<char>::empty()) =~= Seq::<int>::empty());
        assert(dot.last() == '.');
        assert(dot_positions(dot) == dot_positions(dot.drop_last()).push(0));
    }
    lemma_no_dot_positions(p.0);
    lemma_no_dot_positions(p.1);
    lemma_no_dot_positions(p.2);
    lemma_no_dot_positions(p.3);
    lemma_no_dot_positions(p.4);
    let j1 = p.0 + dot;
    let j2 = j1 + p.1;
    let j3 = j2 + dot;
    let j4 = j3 + p.2;
    let j5 = j4 + dot;
    let j6 = j5 + p.3;
    let j7 = j6 + dot;
    let j8 = j7 + p.4;
    let l0 = p.0.len() as int;
    let l1 = l0 + 1 + p.1.len();
    let l2 = l1 + 1 + p.2.len();
    let l3 = l2 + 1 + p.3.len();
    lemma_dot_positions_concat(p.0, dot);
    assert(dot_positions(j1) =~= seq![l0]);
    lemma_dot_positions_concat(j1, p.1);
    assert(dot_positions(j2) =~= seq![l0]);
    lemma_dot_positions_concat(j2, dot);
    assert(dot_positions(j3) =~= seq![l0, l1]);
    lemma_dot_positions_concat(j3, p.2);
    assert(dot_positions(j4) =~= seq![l0, l1]);
    lemma_dot_positions_concat(j4, dot);
    assert(dot_positions(j5) =~= seq![l0, l1, l2]);
    lemma_dot_positions_concat(j5, p.3);
    assert(dot_positions(j6) =~= seq![l0, l1, l2]);
    lemma_dot_positions_concat(j6, dot);
    assert(dot_positions(j7) =~= seq![l0, l1, l2, l3]);
    lemma_dot_positions_concat(j7, p.4);
    assert(dot_positions(j8) =~= seq![l0, l1, l2, l3]);
    assert(j8 =~= join5(p));
    assert(j8.subrange(0, l0) =~= p.0);
    assert(j8.subrange(l0 + 1, l1) =~= p.1);
    assert(j8.subrange(l1 + 1, l2) =~= p.2);
    assert(j8.subrange(l2 + 1, l3) =~= p.3);
    assert(j8.subrange(l3 + 1, j8.len() as int) =~= p.4);
}

/// Splits a compact serialization into its five parts; `None` unless the
/// text holds exactly four `.`.
pub fn split_compact(t: &str) -> (r: Option<(String, String, String, String, String)>)
    ensures
        match r {
            Some(p) => compact_parts(t@) == Some((p.0@, p.1@, p.2@, p.3@, p.4@)),
            None => compact_parts(t@) is None,
        },
{
    let n = t.unicode_len();
    let mut dots: Vec<usize> = Vec::new();
    let mut i: usize = 0;
    while i < n
        invariant
            n == t@.len(),
            i <= n,
            dots@.len() <= i,
            dots@.map_values(|j: usize| j as int) == dot_positions(t@.subrange(0, i as int)),
            forall|k: int| 0 <= k < dots@.len() ==> dots@[k] < i,
        decreases n - i,
    {
        let c = t.get_char(i);
        proof {
            let s = t@.subrange(0, i + 1);
            assert(s.drop_last() =~= t@.subrange(0, i as int));
            assert(s.last() == c);
        }
        if c == '.' {
            dots.push(i);
            assert(dots@.map_values(|j: usize| j as int) =~= dot_positions(t@.subrange(0, i + 1)));
        }
        i = i + 1;
    }
    assert(t@.subrange(0, n as int) =~= t@);
    if dots.len() != 4 {
        return None;
    }
    let ghost d = dot_positions(t@);
    assert(d[0] == dots@[0] as int && d[1] == dots@[1] as int && d[2] == dots@[2] as int && d[3]
        == dots@[3] as int);
    proof {
        lemma_dot_positions_increasing(t@);
    }
    let p0 = t.substring_char(0, dots[0]).to_string();
    let p1 = t.substring_char(dots[0] + 1, dots[1]).to_string();
    let p2 = t.substring_char(dots[1] + 1, dots[2]).to_string();
    let p3 = t.substring_char(dots[2] + 1, dots[3]).to_string();
    let p4 = t.substring_char(dots[3] + 1, n).to_string();
    Some((p0, p1, p2, p3, p4))
}

/// Dot positions are increasing and lie inside the text.
pub proof fn lemma_dot_positions_increasing(t: Seq<char>)
    ensures
        forall|k: int| 0 <= k < dot_positions(t).len() ==> 0 <= #[trigger] dot_positions(t)[k] < t.len(),
        forall|k: int, m: int|
            0 <= k < m < dot_positions(t).len() ==> #[trigger] dot_positions(t)[k] < #[trigger] dot_positions(t)[m],
    decreases t.len(),
{
    if t.len() > 0 {
        let t0 = t.drop_last();
        lemma_dot_positions_increasing(t0);
        let prev = dot_positions(t0);
        if t.last() == '.' {
            assert(dot_positions(t) == prev.push(t.len() - 1));
            assert forall|k: int| 0 <= k < dot_positions(t).len() implies 0 <= #[trigger] dot_positions(
                t,
            )[k] < t.len() by {
                if k < prev.len() {
                    assert(prev[k] < t0.len());
                }
            }
            assert forall|k: int, m: int|
                0 <= k < m < dot_positions(t).len() implies #[trigger] dot_positions(t)[k]
                < #[trigger] dot_positions(t)[m] by {
                assert(prev[k] < t0.len());
                if m < prev.len() {
                    assert(prev[k] < prev[m]);
                }
            }
        } else {
            assert(dot_positions(t) == prev);
        }
    }
}

/// Joins five parts with `.`.
pub fn join_compact(p0: &str, p1: &str, p2: &str, p3: &str, p4: &str) -> (r: String)
    ensures
        r@ == join5((p0@, p1@, p2@, p3@, p4@)),
{
    let mut r = p0.to_string();
    r.append(".");
    r.append(p1);
    r.append(".");
    r.append(p2);
    r.append(".");
    r.append(p3);
    r.append(".");
    r.append(p4);
    r
}

} // verus!
