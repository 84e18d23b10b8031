//! Small shared helpers: URL canonicalization, task slot paths, and
//! collision-free id generation over id-keyed collections.

use vstd::prelude::*;
use vstd::string::StrSliceExecFns;
use crate::outside::random_id_candidate;

verus! {

/// The ids present in an id-keyed association list.
pub open spec fn ids_of<T>(s: Seq<(u64, T)>) -> Seq<u64> {
    s.map_values(|p: (u64, T)| p.0)
}

/// The canonical form of a project master URL: every `/` becomes `_`.
pub open spec fn spec_canonical_url(s: Seq<char>) -> Seq<char> {
    s.map(|_i: int, c: char| if c == '/' { '_' } else { c })
}

/// Canonicalizes a project master URL for use as a registry key:
/// every `/` becomes `_`.
pub fn canonicalize_url(s: &str) -> (r: String)
    ensures
        r@ == spec_canonical_url(s@),
{
    let ghost mapped = spec_canonical_url(s@);
    let n = s.unicode_len();
    let mut out = String::new();
    let mut i: usize = 0;
    while i < n
        invariant
            n == s@.len(),
            i <= n,
            mapped == spec_canonical_url(s@),
            out@ == mapped.take(i as int),
        decreases n - i,
    {
        let c = s.get_char(i);
        let c2 = if c == '/' {
            '_'
        } else {
            c
        };
        out.push(c2);
        proof {
            assert(out@ == mapped.take(i + 1 as int));
        }
        i = i + 1;
    }
    proof {
        assert(mapped.take(n as int) == mapped);
    }
    out
}

/// The directory that holds a task's work slot, below the supervisor root.
pub fn task_path(root: &str, id_text: &str) -> (r: String)
    ensures
        r@ == root@ + "/tasks/"@ + id_text@,
{
    let mut out = root.to_owned();
    out.append("/tasks/");
    out.append(id_text);
    out
}


/// Whether `c` is whitespace: the Unicode White_Space set, as `str::trim`
/// understands it.
pub open spec fn spec_is_space(c: char) -> bool {
    let u = c as u32;
    ||| (0x09 <= u && u <= 0x0D)
    ||| u == 0x20
    ||| u == 0x85
    ||| u == 0xA0
    ||| u == 0x1680
    ||| (0x2000 <= u && u <= 0x200A)
    ||| u == 0x2028
    ||| u == 0x2029
    ||| u == 0x202F
    ||| u == 0x205F
    ||| u == 0x3000
}

/// Whether `c` is whitespace.
pub fn is_space(c: char) -> (r: bool)
    ensures
        r == spec_is_space(c),
{
    let u = c as u32;
    (0x09 <= u && u <= 0x0D) || u == 0x20 || u == 0x85 || u == 0xA0 || u == 0x1680 || (0x2000 <= u
        && u <= 0x200A) || u == 0x2028 || u == 0x2029 || u == 0x202F || u == 0x205F || u == 0x3000
}

/// `s` without its leading whitespace.
pub open spec fn spec_trim_start(s: Seq<char>) -> Seq<char>
    decreases s.len(),
{
    if s.len() == 0 {
        s
    } else if spec_is_space(s[0]) {
        spec_trim_start(s.drop_first())
    } else {
        s
    }
}

/// `s` without its trailing whitespace.
pub open spec fn spec_trim_end(s: Seq<char>) -> Seq<char>
    decreases s.len(),
{
    if s.len() == 0 {
        s
    } else if spec_is_space(s.last()) {
        spec_trim_end(s.drop_last())
    } else {
        s
    }
}

/// `s` without leading and trailing whitespace.
pub open spec fn spec_trim(s: Seq<char>) -> Seq<char> {
    spec_trim_end(spec_trim_start(s))
}

/// Dropping the leading whitespace is skipping to the first non-space.
proof fn lemma_trim_start_at(s: Seq<char>, a: int)
    requires
        0 <= a <= s.len(),
        forall|j: int| 0 <= j < a ==> spec_is_space(#[trigger] s[j]),
        a < s.len() ==> !spec_is_space(s[a]),
    ensures
        spec_trim_start(s) == s.skip(a),
    decreases a,
{
    if a == 0 {
        assert(s.skip(0) =~= s);
    } else {
        assert(spec_is_space(s[0]));
        let rest = s.drop_first();
        assert(forall|j: int| 0 <= j < a - 1 ==> spec_is_space(#[trigger] rest[j]));
        lemma_trim_start_at(rest, a - 1);
        assert(rest.skip(a - 1) =~= s.skip(a));
    }
}

/// Dropping the trailing whitespace is keeping up to the last non-space.
proof fn lemma_trim_end_at(t: Seq<char>, m: int)
    requires
        0 <= m <= t.len(),
        forall|j: int| m <= j < t.len() ==> spec_is_space(#[trigger] t[j]),
        m > 0 ==> !spec_is_space(t[m - 1]),
    ensures
        spec_trim_end(t) == t.take(m),
    decreases t.len(),
{
    if t.len() == 0 {
        assert(t.take(0) =~= t);
    } else if spec_is_space(t.last()) {
        assert(m < t.len());
        let rest = t.drop_last();
        lemma_trim_end_at(rest, m);
        assert(rest.take(m) =~= t.take(m));
    } else {
        assert(m == t.len());
        assert(t.take(m) =~= t);
    }
}

/// `s` with its leading and trailing whitespace removed, as `str::trim`
/// removes it.
pub fn trim_chars(s: &str) -> (r: String)
    ensures
        r@ == spec_trim(s@),
{
    let n = s.unicode_len();
    let mut a: usize = 0;
    while a < n && is_space(s.get_char(a))
        invariant
            n == s@.len(),
            a <= n,
            forall|j: int| 0 <= j < a ==> spec_is_space(#[trigger] s@[j]),
        decreases n - a,
    {
        a = a + 1;
    }
    let mut b: usize = n;
    while b > a && is_space(s.get_char(b - 1))
        invariant
            n == s@.len(),
            a <= b <= n,
            forall|j: int| b <= j < n ==> spec_is_space(#[trigger] s@[j]),
        decreases b,
    {
        b = b - 1;
    }
    proof {
        lemma_trim_start_at(s@, a as int);
        let t = s@.skip(a as int);
        assert(forall|j: int|
            b - a <= j < t.len() ==> spec_is_space(#[trigger] t[j])) by {
            assert(forall|j: int| b - a <= j < t.len() ==> t[j] == s@[j + a]);
        }
        lemma_trim_end_at(t, b - a);
        assert(t.take(b - a) =~= s@.subrange(a as int, b as int));
    }
    let mut out = String::new();
    let mut i: usize = a;
    while i < b
        invariant
            a <= i <= b <= n,
            n == s@.len(),
            out@ == s@.subrange(a as int, i as int),
        decreases b - i,
    {
        let c = s.get_char(i);
        out.push(c);
        proof {
            assert(out@ =~= s@.subrange(a as int, i + 1 as int));
        }
        i = i + 1;
    }
    out
}

/// Whether an id is present in an id-keyed association list.
pub fn contains_id<T>(coll: &Vec<(u64, T)>, id: u64) -> (r: bool)
    ensures
        r == ids_of(coll@).contains(id),
{
    let mut i: usize = 0;
    while i < coll.len()
        invariant
            i <= coll@.len(),
            forall|j: int| 0 <= j < i ==> coll@[j].0 != id,
        decreases coll@.len() - i,
    {
        if coll[i].0 == id {
            proof {
                assert(ids_of(coll@)[i as int] == id);
            }
            return true;
        }
        i = i + 1;
    }
    proof {
        assert forall|j: int| 0 <= j < ids_of(coll@).len() implies ids_of(coll@)[j] != id by {
            assert(coll@[j].0 != id);
        }
    }
    false
}

/// If every id up to and including `k` occurs in a duplicate-free sequence,
/// the sequence holds at least `k + 1` entries.
proof fn lemma_prefix_ids_bound(ids: Seq<u64>, k: u64)
    requires
        ids.no_duplicates(),
        forall|j: u64| j <= k ==> ids.contains(j),
    ensures
        k + 1 <= ids.len(),
{
    let f = |x: u64| x as int;
    let ids_int = ids.map_values(f);
    assert(vstd::relations::injective(f));
    ids.lemma_no_duplicates_injective(f);
    let r = vstd::set_lib::set_int_range(0, k + 1);
    vstd::set_lib::lemma_int_range(0, k + 1);
    assert forall|x: int| r.contains(x) implies ids_int.to_set().contains(x) by {
        let xu = x as u64;
        assert(ids.contains(xu));
        let idx = choose|i: int| 0 <= i < ids.len() && ids[i] == xu;
        assert(ids_int[idx] == x);
        assert(ids_int.contains(x));
    }
    vstd::set_lib::lemma_len_subset(r, ids_int.to_set());
    ids_int.unique_seq_to_set();
}

/// The smallest id absent from a duplicate-free id list.
fn smallest_absent_id(present: &Vec<u64>) -> (id: u64)
    requires
        present@.no_duplicates(),
    ensures
        !present@.contains(id),
{
    let mut k: u64 = 0;
    loop
        invariant
            present@.no_duplicates(),
            forall|j: u64| j < k ==> present@.contains(j),
            k <= present@.len(),
        decreases present@.len() - k,
    {
        if !contains_u64(present, k) {
            return k;
        }
        proof {
            lemma_prefix_ids_bound(present@, k);
            assert(present.len() == present@.len());
        }
        k = k + 1;
    }
}

/// Picks an id absent from a duplicate-free id list: random candidates first,
/// and, should those all collide, the smallest absent id.
fn pick_unused_id(present: &Vec<u64>) -> (id: u64)
    requires
        present@.no_duplicates(),
    ensures
        !present@.contains(id),
{
    let mut attempts: usize = 0;
    while attempts < 64
        invariant
            attempts <= 64,
        decreases 64 - attempts,
    {
        let k = random_id_candidate();
        if !contains_u64(present, k) {
            return k;
        }
        attempts = attempts + 1;
    }
    smallest_absent_id(present)
}

/// The id column of an id-keyed association list, as a list of its own.
fn id_column<T>(coll: &Vec<(u64, T)>) -> (r: Vec<u64>)
    ensures
        r@ == ids_of(coll@),
{
    let mut out: Vec<u64> = Vec::new();
    let mut i: usize = 0;
    while i < coll.len()
        invariant
            i <= coll@.len(),
            out@ == ids_of(coll@).take(i as int),
        decreases coll@.len() - i,
    {
        out.push(coll[i].0);
        proof {
            assert(out@ == ids_of(coll@).take(i + 1 as int));
        }
        i = i + 1;
    }
    proof {
        assert(ids_of(coll@).take(coll@.len() as int) == ids_of(coll@));
    }
    out
}

/// Generates an id not yet present in the collection and inserts the value
/// under it: the generate-and-check-exists discipline that keeps ids
/// collision-free by construction.
pub fn insert_unique<T>(coll: &mut Vec<(u64, T)>, v: T) -> (id: u64)
    requires
        ids_of(old(coll)@).no_duplicates(),
    ensures
        !ids_of(old(coll)@).contains(id),
        final(coll)@ == old(coll)@.push((id, v)),
        ids_of(final(coll)@).no_duplicates(),
{
    let ids = id_column(coll);
    let id = pick_unused_id(&ids);
    coll.push((id, v));
    proof {
        assert(ids_of(coll@) =~= ids_of(old(coll)@).push(id));
    }
    id
}

/// Generates an id that collides neither with the collection nor with the
/// reservation set, and records it in the reservation set: the reserve phase
/// of two-phase task creation.
pub fn reserve_unique<T>(coll: &Vec<(u64, T)>, reserve: &mut Vec<u64>) -> (id: u64)
    requires
        ids_of(coll@).no_duplicates(),
        old(reserve)@.no_duplicates(),
        forall|x: u64| old(reserve)@.contains(x) ==> !ids_of(coll@).contains(x),
    ensures
        !ids_of(coll@).contains(id),
        !old(reserve)@.contains(id),
        final(reserve)@ == old(reserve)@.push(id),
        final(reserve)@.no_duplicates(),
        forall|x: u64| final(reserve)@.contains(x) ==> !ids_of(coll@).contains(x),
{
    let mut present = id_column(coll);
    let mut i: usize = 0;
    while i < reserve.len()
        invariant
            i <= reserve@.len(),
            present@ == ids_of(coll@) + reserve@.take(i as int),
        decreases reserve@.len() - i,
    {
        present.push(reserve[i]);
        proof {
            assert(present@ == ids_of(coll@) + reserve@.take(i + 1 as int));
        }
        i = i + 1;
    }
    proof {
        assert(reserve@.take(reserve@.len() as int) == reserve@);
        assert forall|a: int, b: int|
            0 <= a < ids_of(coll@).len() && 0 <= b < reserve@.len() implies ids_of(coll@)[a]
            != reserve@[b] by {
            assert(reserve@.contains(reserve@[b]));
            assert(ids_of(coll@).contains(ids_of(coll@)[a]));
        }
        vstd::seq_lib::lemma_no_dup_in_concat(ids_of(coll@), reserve@);
    }
    let id = pick_unused_id(&present);
    proof {
        assert(!ids_of(coll@).contains(id) && !reserve@.contains(id)) by {
            if ids_of(coll@).contains(id) {
                let j = choose|j: int|
                    0 <= j < ids_of(coll@).len() && ids_of(coll@)[j] == id;
                assert(present@[j] == id);
            }
            if reserve@.contains(id) {
                let j = choose|j: int| 0 <= j < reserve@.len() && reserve@[j] == id;
                assert(present@[ids_of(coll@).len() + j] == id);
            }
        }
    }
    reserve.push(id);
    proof {
        assert forall|x: u64| reserve@.contains(x) implies !ids_of(coll@).contains(x) by {
            let j = choose|j: int| 0 <= j < reserve@.len() && reserve@[j] == x;
            if j < old(reserve)@.len() {
                assert(old(reserve)@.contains(x));
            } else {
                assert(x == id);
            }
        }
    }
    id
}

/// Whether a plain id list contains an id.
pub fn contains_u64(coll: &Vec<u64>, id: u64) -> (r: bool)
    ensures
        r == coll@.contains(id),
{
    let mut i: usize = 0;
    while i < coll.len()
        invariant
            i <= coll@.len(),
            forall|j: int| 0 <= j < i ==> coll@[j] != id,
        decreases coll@.len() - i,
    {
        if coll[i] == id {
            return true;
        }
        i = i + 1;
    }
    false
}

} // verus!
