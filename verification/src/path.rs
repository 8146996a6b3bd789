//! Dotted paths: splitting a string at its dots, and what splitting and
//! joining have to do with each other.

use vstd::prelude::*;
use vstd::string::StrSliceExecFns;

verus! {

/// Index of the first `.` in `s`, or `s.len()` when `s` holds none.
pub open spec fn first_dot(s: Seq<char>) -> int
    decreases s.len(),
{
    if s.len() == 0 || s[0] == '.' {
        0
    } else {
        1 + first_dot(s.drop_first())
    }
}

/// The pieces of `s` between its dots, in order.
///
/// A string without a dot is its own single piece, so the result is never
/// empty; `k` dots always give `k + 1` pieces, some of which may be empty.
pub open spec fn segments(s: Seq<char>) -> Seq<Seq<char>>
    decreases s.len(),
{
    let i = first_dot(s);
    if i < 0 || i >= s.len() {
        seq![s]
    } else {
        seq![s.subrange(0, i)] + segments(s.subrange(i + 1, s.len() as int))
    }
}

/// `first_dot` is the position `k` once nothing before `k` is a dot and `k`
/// is either a dot or the end.
pub proof fn lemma_first_dot_at(s: Seq<char>, k: int)
    requires
        0 <= k <= s.len(),
        forall|j: int| 0 <= j < k ==> s[j] != '.',
        k < s.len() ==> s[k] == '.',
    ensures
        first_dot(s) == k,
    decreases s.len(),
{
    if k > 0 {
        let t = s.drop_first();
        assert forall|j: int| 0 <= j < k - 1 implies t[j] != '.' by {
            assert(t[j] == s[j + 1]);
        }
        lemma_first_dot_at(t, k - 1);
    }
}

/// `first_dot` lies within `s`, nothing before it is a dot, and it is a dot
/// unless it is the end.
pub proof fn lemma_first_dot(s: Seq<char>)
    ensures
        0 <= first_dot(s) <= s.len(),
        forall|j: int| 0 <= j < first_dot(s) ==> s[j] != '.',
        first_dot(s) < s.len() ==> s[first_dot(s)] == '.',
    decreases s.len(),
{
    if s.len() > 0 && s[0] != '.' {
        let t = s.drop_first();
        lemma_first_dot(t);
        assert forall|j: int| 0 <= j < first_dot(s) implies s[j] != '.' by {
            if j > 0 {
                assert(s[j] == t[j - 1]);
            }
        }
        if first_dot(s) < s.len() {
            assert(s[first_dot(s)] == t[first_dot(t)]);
        }
    }
}

/// `parts` written one after the other with a dot between neighbours.
pub open spec fn joined(parts: Seq<Seq<char>>) -> Seq<char>
    decreases parts.len(),
{
    if parts.len() == 0 {
        Seq::empty()
    } else if parts.len() == 1 {
        parts[0]
    } else {
        parts[0] + seq!['.'] + joined(parts.drop_first())
    }
}

/// Splitting loses nothing and leaves no dot behind: there is at least one
/// piece, no piece holds a dot, and the pieces joined by dots are `s` again.
pub proof fn segments_rejoin(s: Seq<char>)
    ensures
        segments(s).len() >= 1,
        forall|i: int, j: int|
            0 <= i < segments(s).len() && 0 <= j < segments(s)[i].len() ==> segments(s)[i][j]
                != '.',
        joined(segments(s)) == s,
    decreases s.len(),
{
    lemma_first_dot(s);
    let i = first_dot(s);
    if i < s.len() {
        let head = s.subrange(0, i);
        let rest = s.subrange(i + 1, s.len() as int);
        segments_rejoin(rest);
        let parts = segments(s);
        assert(parts == seq![head] + segments(rest));
        assert(parts.drop_first() == segments(rest));
        assert forall|a: int, b: int| 0 <= a < parts.len() && 0 <= b < parts[a].len() implies parts[a][b]
            != '.' by {
            if a == 0 {
                assert(parts[0][b] == s[b]);
            } else {
                assert(parts[a] == segments(rest)[a - 1]);
            }
        }
        assert(joined(parts) == head + seq!['.'] + rest);
        assert(head + seq!['.'] + rest =~= s);
    }
}

/// A dot between two strings separates their pieces: the pieces of
/// `front . back` are those of `front` followed by those of `back`.
pub proof fn segments_of_dotted_pair(front: Seq<char>, back: Seq<char>)
    ensures
        segments(front + seq!['.'] + back) == segments(front) + segments(back),
    decreases front.len(),
{
    let whole = front + seq!['.'] + back;
    lemma_first_dot(front);
    let i = first_dot(front);
    assert forall|j: int| 0 <= j < i implies whole[j] != '.' by {
        assert(whole[j] == front[j]);
    }
    if i < front.len() {
        assert(whole[i] == front[i]);
    }
    lemma_first_dot_at(whole, i);
    if i < front.len() {
        let tail = front.subrange(i + 1, front.len() as int);
        segments_of_dotted_pair(tail, back);
        assert(whole.subrange(0, i) == front.subrange(0, i));
        assert(whole.subrange(i + 1, whole.len() as int) == tail + seq!['.'] + back);
        assert(segments(front) == seq![front.subrange(0, i)] + segments(tail));
        assert(segments(whole) == seq![front.subrange(0, i)] + (segments(tail) + segments(back)));
        assert(segments(whole) =~= segments(front) + segments(back));
    } else {
        assert(whole.subrange(0, i) == front);
        assert(whole.subrange(i + 1, whole.len() as int) == back);
        assert(segments(front) == seq![front]);
    }
}

/// Splitting undoes joining: the pieces of dot-free keys joined by dots
/// are those keys.
pub proof fn segments_of_joined(keys: Seq<Seq<char>>)
    requires
        keys.len() >= 1,
        forall|i: int, j: int| 0 <= i < keys.len() && 0 <= j < keys[i].len() ==> keys[i][j] != '.',
    ensures
        segments(joined(keys)) == keys,
    decreases keys.len(),
{
    let head = keys[0];
    assert forall|j: int| 0 <= j < head.len() implies head[j] != '.' by {
        assert(keys[0][j] != '.');
    }
    lemma_first_dot_at(head, head.len() as int);
    assert(segments(head) == seq![head]);
    if keys.len() == 1 {
        assert(keys == seq![head]);
    } else {
        let rest = keys.drop_first();
        assert forall|i: int, j: int| 0 <= i < rest.len() && 0 <= j < rest[i].len() implies rest[i][j]
            != '.' by {
            assert(rest[i] == keys[i + 1]);
        }
        segments_of_joined(rest);
        segments_of_dotted_pair(head, joined(rest));
        assert(seq![head] + rest == keys);
    }
}

/// The strings that `parts` holds, as sequences of characters.
pub open spec fn views_of(parts: Seq<&str>) -> Seq<Seq<char>> {
    Seq::new(parts.len(), |i: int| parts[i]@)
}

/// Splits `s` at every `.`.
pub fn split_dotted<'a>(s: &'a str) -> (parts: Vec<&'a str>)
    ensures
        views_of(parts@) == segments(s@),
{
    let n = s.unicode_len();
    let mut parts: Vec<&'a str> = Vec::new();
    let mut start: usize = 0;
    let mut i: usize = 0;
    proof {
        assert(s@.subrange(0, n as int) == s@);
        assert(views_of(parts@) + segments(s@) == segments(s@));
    }
    for c in it: s.chars()
        invariant
            it.seq() == s@,
            n == s@.len(),
            i == it.index(),
            start <= i,
            forall|j: int| start <= j < i ==> s@[j] != '.',
            segments(s@) == views_of(parts@) + segments(s@.subrange(start as int, n as int)),
    {
        if c == '.' {
            let piece = s.substring_char(start, i);
            proof {
                let rest = s@.subrange(start as int, n as int);
                assert forall|j: int| 0 <= j < i - start implies rest[j] != '.' by {
                    assert(rest[j] == s@[start + j]);
                }
                lemma_first_dot_at(rest, i - start);
                assert(rest.subrange(0, i - start) == piece@);
                assert(rest.subrange(i - start + 1, rest.len() as int) == s@.subrange(
                    i + 1,
                    n as int,
                ));
                assert(views_of(parts@.push(piece)) == views_of(parts@).push(piece@));
            }
            parts.push(piece);
            start = i + 1;
        }
        i = i + 1;
    }
    let piece = s.substring_char(start, n);
    proof {
        let rest = s@.subrange(start as int, n as int);
        assert forall|j: int| 0 <= j < rest.len() implies rest[j] != '.' by {
            assert(rest[j] == s@[start + j]);
        }
        lemma_first_dot_at(rest, rest.len() as int);
        assert(views_of(parts@.push(piece)) == views_of(parts@).push(piece@));
    }
    parts.push(piece);
    parts
}

} // verus!
