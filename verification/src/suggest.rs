//! "Did you mean" suggestions: Levenshtein edit distance, and the closest
//! candidate to a target word within a small threshold.

use vstd::prelude::*;

use crate::strutil::chars_of;

verus! {

pub open spec fn imin(x: int, y: int) -> int {
    if x <= y { x } else { y }
}

pub open spec fn imax(x: int, y: int) -> int {
    if x <= y { y } else { x }
}

/// The Levenshtein edit distance between two character sequences: the least
/// number of single-character insertions, deletions and substitutions that
/// turns one into the other.
pub open spec fn edit_dist(a: Seq<char>, b: Seq<char>) -> int
    decreases a.len() + b.len(),
{
    if a.len() == 0 {
        b.len() as int
    } else if b.len() == 0 {
        a.len() as int
    } else {
        let cost: int = if a.last() == b.last() { 0 } else { 1 };
        imin(
            imin(edit_dist(a.drop_last(), b) + 1, edit_dist(a, b.drop_last()) + 1),
            edit_dist(a.drop_last(), b.drop_last()) + cost,
        )
    }
}

pub proof fn lemma_edit_dist_bounds(a: Seq<char>, b: Seq<char>)
    ensures
        0 <= edit_dist(a, b),
        edit_dist(a, b) <= imax(a.len() as int, b.len() as int),
    decreases a.len() + b.len(),
{
    if a.len() > 0 && b.len() > 0 {
        lemma_edit_dist_bounds(a.drop_last(), b);
        lemma_edit_dist_bounds(a, b.drop_last());
        lemma_edit_dist_bounds(a.drop_last(), b.drop_last());
    }
}

/// Computes the edit distance between two words.
pub fn levenshtein_distance(s1: &str, s2: &str) -> (r: usize)
    requires
        s1@.len() < usize::MAX,
        s2@.len() < usize::MAX,
    ensures
        r == edit_dist(s1@, s2@),
{
    let a = chars_of(s1);
    let b = chars_of(s2);
    let la = a.len();
    let lb = b.len();

    let mut matrix: Vec<Vec<usize>> = Vec::new();

    // Row 0: distance from the empty prefix.
    let mut row0: Vec<usize> = Vec::new();
    let mut j: usize = 0;
    while j <= lb
        invariant
            j <= lb + 1,
            lb == b@.len() < usize::MAX,
            row0@.len() == j,
            forall|j2: int| 0 <= j2 < j ==> row0@[j2] == edit_dist(Seq::<char>::empty(), b@.subrange(0, j2)),
        decreases lb + 1 - j,
    {
        proof {
            assert(b@.subrange(0, j as int).len() == j);
        }
        row0.push(j);
        j = j + 1;
    }
    matrix.push(row0);

    let mut i: usize = 1;
    while i <= la
        invariant
            1 <= i <= la + 1,
            la == a@.len() < usize::MAX,
            lb == b@.len() < usize::MAX,
            matrix@.len() == i,
            forall|i2: int| 0 <= i2 < i ==> (#[trigger] matrix@[i2])@.len() == lb + 1,
            forall|i2: int, j2: int|
                #![trigger matrix@[i2]@[j2]]
                0 <= i2 < i && 0 <= j2 <= lb
                    ==> matrix@[i2]@[j2]
                        == edit_dist(a@.subrange(0, i2), b@.subrange(0, j2)),
        decreases la + 1 - i,
    {
        let mut row: Vec<usize> = Vec::new();
        proof {
            assert(a@.subrange(0, i as int).len() == i);
            assert(b@.subrange(0, 0).len() == 0);
        }
        row.push(i);
        let mut j: usize = 1;
        while j <= lb
            invariant
                1 <= i <= la,
                1 <= j <= lb + 1,
                la == a@.len() < usize::MAX,
                lb == b@.len() < usize::MAX,
                matrix@.len() == i,
                forall|i2: int| 0 <= i2 < i ==> (#[trigger] matrix@[i2])@.len() == lb + 1,
                forall|i2: int, j2: int|
                    #![trigger matrix@[i2]@[j2]]
                    0 <= i2 < i && 0 <= j2 <= lb
                        ==> matrix@[i2]@[j2]
                            == edit_dist(a@.subrange(0, i2), b@.subrange(0, j2)),
                row@.len() == j,
                forall|j2: int|
                    0 <= j2 < j ==> row@[j2]
                        == edit_dist(a@.subrange(0, i as int), b@.subrange(0, j2)),
            decreases lb + 1 - j,
        {
            let above = matrix[i - 1][j];
            let left = row[j - 1];
            let diag = matrix[i - 1][j - 1];
            let cost: usize = if a[i - 1] == b[j - 1] { 0 } else { 1 };
            proof {
                let ai = a@.subrange(0, i as int);
                let bj = b@.subrange(0, j as int);
                lemma_edit_dist_bounds(a@.subrange(0, i as int - 1), bj);
                lemma_edit_dist_bounds(ai, b@.subrange(0, j as int - 1));
                lemma_edit_dist_bounds(a@.subrange(0, i as int - 1), b@.subrange(0, j as int - 1));
                assert(ai.drop_last() =~= a@.subrange(0, i as int - 1));
                assert(bj.drop_last() =~= b@.subrange(0, j as int - 1));
                assert(ai.last() == a@[i as int - 1]);
                assert(bj.last() == b@[j as int - 1]);
            }
            let mut best = above + 1;
            if left + 1 < best {
                best = left + 1;
            }
            if diag + cost < best {
                best = diag + cost;
            }
            proof {
                let ai = a@.subrange(0, i as int);
                let bj = b@.subrange(0, j as int);
                assert(edit_dist(ai, bj) == imin(
                    imin(edit_dist(ai.drop_last(), bj) + 1, edit_dist(ai, bj.drop_last()) + 1),
                    edit_dist(ai.drop_last(), bj.drop_last())
                        + (if ai.last() == bj.last() { 0int } else { 1 }),
                ));
            }
            row.push(best);
            j = j + 1;
        }
        matrix.push(row);
        i = i + 1;
    }

    proof {
        assert(a@.subrange(0, la as int) =~= a@);
        assert(b@.subrange(0, lb as int) =~= b@);
    }
    matrix[la][lb]
}

/// The match threshold: tight for short targets, three edits otherwise.
pub open spec fn suggestion_threshold(target: Seq<char>) -> int {
    if target.len() < 3 { 1 } else { 3 }
}

/// Picks the candidate closest to `target` in edit distance, provided the
/// distance stays within the threshold; among equally close candidates the
/// earliest wins.
pub fn find_best_match(target: &str, candidates: &Vec<String>) -> (r: Option<String>)
    requires
        target@.len() < usize::MAX,
        forall|i: int| 0 <= i < candidates@.len() ==> (#[trigger] candidates@[i])@.len() < usize::MAX,
    ensures
        r matches Some(c) ==> exists|i: int|
            0 <= i < candidates@.len()
            && (#[trigger] candidates@[i])@ == c@
            && edit_dist(target@, c@) <= suggestion_threshold(target@)
            && (forall|k: int| 0 <= k < candidates@.len()
                ==> edit_dist(target@, (#[trigger] candidates@[k])@) >= edit_dist(target@, c@))
            && (forall|k: int| 0 <= k < i
                ==> edit_dist(target@, (#[trigger] candidates@[k])@) > edit_dist(target@, c@)),
        r is None ==> forall|k: int| 0 <= k < candidates@.len()
            ==> edit_dist(target@, (#[trigger] candidates@[k])@) > suggestion_threshold(target@),
{
    let mut best: Option<String> = None;
    let ghost mut best_at: int = 0;
    let mut best_dist: usize = usize::MAX;
    let threshold: usize = if target.unicode_len() < 3 { 1 } else { 3 };

    let n = candidates.len();
    let mut i: usize = 0;
    while i < n
        invariant
            i <= n,
            n == candidates@.len(),
            target@.len() < usize::MAX,
            forall|k: int| 0 <= k < candidates@.len() ==> (#[trigger] candidates@[k])@.len() < usize::MAX,
            threshold == suggestion_threshold(target@),
            threshold < usize::MAX,
            best matches Some(c) ==> {
                &&& 0 <= best_at < i
                &&& candidates@[best_at]@ == c@
                &&& best_dist == edit_dist(target@, c@)
                &&& best_dist <= threshold
                &&& forall|k: int| 0 <= k < i
                    ==> edit_dist(target@, (#[trigger] candidates@[k])@) >= best_dist
                &&& forall|k: int| 0 <= k < best_at
                    ==> edit_dist(target@, (#[trigger] candidates@[k])@) > best_dist
            },
            best is None ==> {
                &&& best_dist == usize::MAX
                &&& forall|k: int| 0 <= k < i
                    ==> edit_dist(target@, (#[trigger] candidates@[k])@) > threshold
            },
        decreases n - i,
    {
        let candidate = &candidates[i];
        let distance = levenshtein_distance(target, candidate.as_str());
        if distance <= threshold && distance < best_dist {
            best = Some(candidate.clone());
            proof {
                best_at = i as int;
            }
            best_dist = distance;
        }
        i = i + 1;
    }
    best
}

} // verus!
