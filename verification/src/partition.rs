//! Face-first ordering of a batch.
//!
//! Faces are opaque and write depth; every other primitive is blended
//! over what is already there. A batch is therefore reordered so that
//! all faces come first, and within each of the two classes the order
//! of insertion is kept, because a later instance is painted on top of
//! an earlier one.

use vstd::prelude::*;
use crate::instance::Instance;

verus! {

/// The faces of `s`, in the order in which they occur.
pub open spec fn faces(s: Seq<Instance>) -> Seq<Instance>
    decreases s.len(),
{
    if s.len() == 0 {
        Seq::empty()
    } else if s.last().is_face() {
        faces(s.drop_last()).push(s.last())
    } else {
        faces(s.drop_last())
    }
}

/// The instances of `s` that are not faces, in the order in which they
/// occur.
pub open spec fn blended(s: Seq<Instance>) -> Seq<Instance>
    decreases s.len(),
{
    if s.len() == 0 {
        Seq::empty()
    } else if s.last().is_face() {
        blended(s.drop_last())
    } else {
        blended(s.drop_last()).push(s.last())
    }
}

/// `s` reordered by a stable sort on "is not a face": its faces, then
/// the rest, each class in the order of insertion.
pub open spec fn faces_first(s: Seq<Instance>) -> Seq<Instance> {
    faces(s) + blended(s)
}

/// Whether no face of `s` stands behind an instance that is not a face.
pub open spec fn is_partitioned(s: Seq<Instance>) -> bool {
    forall|i: int, j: int| 0 <= i < j < s.len() && s[j].is_face() ==> s[i].is_face()
}

/// Number of faces at the front of `s`: the length of the longest
/// prefix that holds faces only.
pub open spec fn leading_faces(s: Seq<Instance>) -> nat
    decreases s.len(),
{
    if s.len() == 0 || !s.first().is_face() {
        0
    } else {
        1 + leading_faces(s.drop_first())
    }
}

/// Where the instance at index `i` of `s` stands in `faces_first(s)`.
pub open spec fn sorted_position(s: Seq<Instance>, i: int) -> int {
    if s[i].is_face() {
        faces(s.take(i)).len() as int
    } else {
        (faces(s).len() + blended(s.take(i)).len()) as int
    }
}

/// Appending one instance extends exactly one of the two classes.
pub proof fn lemma_classes_push(s: Seq<Instance>, x: Instance)
    ensures
        faces(s.push(x)) == if x.is_face() {
            faces(s).push(x)
        } else {
            faces(s)
        },
        blended(s.push(x)) == if x.is_face() {
            blended(s)
        } else {
            blended(s).push(x)
        },
{
    assert(s.push(x).drop_last() =~= s);
}

/// The two classes hold every instance of the batch between them, and
/// each holds only its own sort.
pub proof fn lemma_classes_split(s: Seq<Instance>)
    ensures
        faces(s).len() + blended(s).len() == s.len(),
        forall|k: int| 0 <= k < faces(s).len() ==> (#[trigger] faces(s)[k]).is_face(),
        forall|k: int| 0 <= k < blended(s).len() ==> !(#[trigger] blended(s)[k]).is_face(),
    decreases s.len(),
{
    if s.len() > 0 {
        lemma_classes_split(s.drop_last());
    }
}

/// The classes of a prefix are prefixes of the classes.
pub proof fn lemma_classes_of_prefix(s: Seq<Instance>, n: int)
    requires
        0 <= n <= s.len(),
    ensures
        faces(s.take(n)).len() <= faces(s).len(),
        blended(s.take(n)).len() <= blended(s).len(),
        faces(s.take(n)) == faces(s).take(faces(s.take(n)).len() as int),
        blended(s.take(n)) == blended(s).take(blended(s.take(n)).len() as int),
    decreases s.len(),
{
    if n == s.len() {
        assert(s.take(n) =~= s);
        assert(faces(s).take(faces(s).len() as int) =~= faces(s));
        assert(blended(s).take(blended(s).len() as int) =~= blended(s));
    } else {
        let t = s.drop_last();
        assert(s.take(n) =~= t.take(n));
        lemma_classes_of_prefix(t, n);
        let f = faces(t.take(n)).len() as int;
        let g = blended(t.take(n)).len() as int;
        assert(faces(s).take(f) =~= faces(t).take(f));
        assert(blended(s).take(g) =~= blended(t).take(g));
    }
}

/// Reordering neither drops nor repeats an instance: the instance at
/// index `i` is found at `sorted_position(s, i)`.
pub proof fn lemma_sorted_position(s: Seq<Instance>, i: int)
    requires
        0 <= i < s.len(),
    ensures
        0 <= sorted_position(s, i) < s.len(),
        faces_first(s)[sorted_position(s, i)] == s[i],
        s[i].is_face() <==> sorted_position(s, i) < faces(s).len(),
{
    lemma_classes_split(s);
    lemma_classes_of_prefix(s, i);
    lemma_classes_of_prefix(s, i + 1);
    assert(s.take(i + 1) =~= s.take(i).push(s[i]));
    lemma_classes_push(s.take(i), s[i]);
    let f = faces(s.take(i + 1)).len() as int;
    let g = blended(s.take(i + 1)).len() as int;
    if s[i].is_face() {
        assert(faces(s).take(f)[f - 1] == s[i]);
    } else {
        assert(blended(s).take(g)[g - 1] == s[i]);
    }
}

/// The reordering is stable and puts faces first: of two instances of
/// the same class the one inserted earlier stays earlier, and a face
/// stands before every instance that is not a face.
pub proof fn lemma_faces_first_stable(s: Seq<Instance>, i: int, j: int)
    requires
        0 <= i < s.len(),
        0 <= j < s.len(),
    ensures
        i < j && s[i].is_face() == s[j].is_face() ==> sorted_position(s, i) < sorted_position(s, j),
        s[i].is_face() && !s[j].is_face() ==> sorted_position(s, i) < sorted_position(s, j),
        i != j ==> sorted_position(s, i) != sorted_position(s, j),
{
    lemma_sorted_position(s, i);
    lemma_sorted_position(s, j);
    if i < j {
        lemma_position_monotone(s, i, j);
    } else if j < i {
        lemma_position_monotone(s, j, i);
    }
}

proof fn lemma_position_monotone(s: Seq<Instance>, i: int, j: int)
    requires
        0 <= i < j < s.len(),
    ensures
        s[i].is_face() ==> faces(s.take(i)).len() < faces(s.take(j)).len(),
        !s[i].is_face() ==> blended(s.take(i)).len() < blended(s.take(j)).len(),
{
    let t = s.take(j);
    assert(t.take(i + 1) =~= s.take(i).push(s[i]));
    lemma_classes_push(s.take(i), s[i]);
    lemma_classes_of_prefix(t, i + 1);
}

/// The reordered batch holds the same instances as the batch itself,
/// each as often.
pub proof fn lemma_faces_first_permutes(s: Seq<Instance>)
    ensures
        faces_first(s).len() == s.len(),
        faces_first(s).to_multiset() == s.to_multiset(),
    decreases s.len(),
{
    broadcast use vstd::seq_lib::group_to_multiset_ensures;

    lemma_classes_split(s);
    if s.len() == 0 {
        assert(faces_first(s) =~= s);
    } else {
        let t = s.drop_last();
        let x = s.last();
        lemma_faces_first_permutes(t);
        lemma_classes_split(t);
        assert(s =~= t.push(x));
        vstd::seq_lib::lemma_multiset_commutative(faces(t), blended(t));
        vstd::seq_lib::lemma_multiset_commutative(faces(s), blended(s));
        assert(faces_first(s).to_multiset() =~= faces_first(t).to_multiset().insert(x));
    }
}

/// In a reordered batch no face stands behind another instance, and the
/// faces at its front are all of its faces.
pub proof fn lemma_faces_first_partitioned(s: Seq<Instance>)
    ensures
        is_partitioned(faces_first(s)),
        leading_faces(faces_first(s)) == faces(s).len(),
{
    lemma_classes_split(s);
    let r = faces_first(s);
    let f = faces(s).len() as int;
    assert forall|k: int| 0 <= k < r.len() implies (#[trigger] r[k]).is_face() == (k < f) by {
        if k >= f {
            assert(r[k] == blended(s)[k - f]);
        }
    }
    lemma_leading_faces_at(r, f);
}

/// The split index is the one place where faces end: an index up to
/// which all instances are faces, and which is the end of the batch or
/// holds an instance that is not a face.
pub proof fn lemma_leading_faces_at(s: Seq<Instance>, n: int)
    requires
        0 <= n <= s.len(),
        forall|k: int| 0 <= k < n ==> (#[trigger] s[k]).is_face(),
        n == s.len() || !s[n].is_face(),
    ensures
        leading_faces(s) == n,
    decreases n,
{
    if n > 0 {
        let t = s.drop_first();
        assert forall|k: int| 0 <= k < n - 1 implies (#[trigger] t[k]).is_face() by {
            assert(t[k] == s[k + 1]);
        }
        lemma_leading_faces_at(t, n - 1);
    }
}

/// What `leading_faces` counts: faces only, ended by the end of the
/// batch or by an instance that is not a face.
pub proof fn lemma_leading_faces(s: Seq<Instance>)
    ensures
        leading_faces(s) <= s.len(),
        forall|k: int| 0 <= k < leading_faces(s) ==> (#[trigger] s[k]).is_face(),
        leading_faces(s) == s.len() || !s[leading_faces(s) as int].is_face(),
        is_partitioned(s) ==> forall|k: int|
            leading_faces(s) <= k < s.len() ==> !(#[trigger] s[k]).is_face(),
    decreases s.len(),
{
    if s.len() > 0 && s.first().is_face() {
        let t = s.drop_first();
        lemma_leading_faces(t);
        assert forall|k: int| 0 <= k < leading_faces(s) implies (#[trigger] s[k]).is_face() by {
            if k > 0 {
                assert(s[k] == t[k - 1]);
            }
        }
        if is_partitioned(s) {
            assert forall|i: int, j: int|
                0 <= i < j < t.len() && t[j].is_face() implies t[i].is_face() by {
                assert(t[i] == s[i + 1] && t[j] == s[j + 1]);
            }
            assert forall|k: int| leading_faces(s) <= k < s.len() implies !(#[trigger] s[
                k
            ]).is_face() by {
                assert(s[k] == t[k - 1]);
            }
        }
    }
}

/// Reordering a batch that is already partitioned changes nothing, so
/// reordering twice is the same as reordering once.
pub proof fn lemma_faces_first_idempotent(s: Seq<Instance>)
    ensures
        is_partitioned(s) ==> faces_first(s) == s,
        faces_first(faces_first(s)) == faces_first(s),
{
    if is_partitioned(s) {
        lemma_partitioned_fixed(s);
    }
    lemma_faces_first_partitioned(s);
    lemma_partitioned_fixed(faces_first(s));
}

proof fn lemma_partitioned_fixed(s: Seq<Instance>)
    requires
        is_partitioned(s),
    ensures
        faces_first(s) == s,
    decreases s.len(),
{
    if s.len() == 0 {
        assert(faces_first(s) =~= s);
    } else {
        let t = s.drop_last();
        let x = s.last();
        assert(is_partitioned(t)) by {
            assert forall|i: int, j: int|
                0 <= i < j < t.len() && t[j].is_face() implies t[i].is_face() by {
                assert(t[i] == s[i] && t[j] == s[j]);
            }
        }
        lemma_partitioned_fixed(t);
        lemma_classes_split(t);
        if x.is_face() {
            // every earlier instance is a face, so nothing is blended
            if blended(t).len() > 0 {
                let k = faces(t).len() as int;
                assert(faces_first(t)[k] == blended(t)[0]);
                assert(t[k] == s[k]);
                assert(s[k].is_face());
            }
            assert(faces_first(s) =~= s);
        } else {
            assert(s =~= t.push(x));
            assert(faces(t) + blended(t).push(x) =~= (faces(t) + blended(t)).push(x));
        }
    }
}

/// Moves the faces of `batch` to its front, keeping the order of
/// insertion within the faces and within the rest.
pub fn sort_faces_first(batch: &mut Vec<Instance>)
    ensures
        final(batch)@ == faces_first(old(batch)@),
{
    let mut front: Vec<Instance> = Vec::new();
    let mut back: Vec<Instance> = Vec::new();
    let n = batch.len();
    let mut i: usize = 0;
    while i < n
        invariant
            n == batch@.len(),
            0 <= i <= n,
            front@ == faces(batch@.take(i as int)),
            back@ == blended(batch@.take(i as int)),
        decreases n - i,
    {
        let item = batch[i];
        proof {
            assert(batch@.take(i + 1) =~= batch@.take(i as int).push(item));
            lemma_classes_push(batch@.take(i as int), item);
        }
        if item.is_face() {
            front.push(item);
        } else {
            back.push(item);
        }
        i += 1;
    }
    proof {
        assert(batch@.take(n as int) =~= batch@);
    }
    front.append(&mut back);
    *batch = front;
}

/// Counts the faces at the front of `batch`: the index at which the
/// depth-writing draw ends and the blended draw begins.
pub fn split_index(batch: &[Instance]) -> (split: usize)
    ensures
        split == leading_faces(batch@),
{
    let n = batch.len();
    let mut i: usize = 0;
    while i < n && batch[i].is_face()
        invariant
            n == batch@.len(),
            0 <= i <= n,
            forall|k: int| 0 <= k < i ==> (#[trigger] batch@[k]).is_face(),
        decreases n - i,
    {
        i += 1;
    }
    proof {
        lemma_leading_faces_at(batch@, i as int);
    }
    i
}

} // verus!
