//! Two sorting demos, bubble sort and insertion sort, that print the array
//! after every pass.
use vstd::prelude::*;
use crate::myrust::MyPrint;
use crate::text::{dec, debug_i32s, debug_list, decimal, ints_i32, line};

verus! {

broadcast use {vstd::seq_lib::to_multiset_update, vstd::multiset::group_multiset_axioms};

/// Ascending order.
pub open spec fn sorted(s: Seq<i32>) -> bool {
    forall|a: int, b: int| 0 <= a < b < s.len() ==> s[a] <= s[b]
}

/// The line printed for the array after `label` passes.
pub open spec fn trace_line(label: int, s: Seq<i32>) -> Seq<char> {
    line(dec(label) + ": "@ + debug_list(ints_i32(s)))
}

// ---------------------------------------------------------------------
// Bubble sort
// ---------------------------------------------------------------------

/// One comparison of bubble sort: neighbours `j` and `j + 1` are swapped
/// when out of order.
pub open spec fn swap_if(s: Seq<i32>, j: int) -> Seq<i32> {
    if s[j] > s[j + 1] {
        s.update(j, s[j + 1]).update(j + 1, s[j])
    } else {
        s
    }
}

/// The comparisons at `0..m`, in order.
pub open spec fn bubble_inner(s: Seq<i32>, m: nat) -> Seq<i32>
    decreases m,
{
    if m == 0 {
        s
    } else {
        swap_if(bubble_inner(s, (m - 1) as nat), m - 1)
    }
}

/// Pass `i` of bubble sort: the comparisons at `0..len - 1 - i`.
pub open spec fn bubble_pass(s: Seq<i32>, i: int) -> Seq<i32> {
    bubble_inner(s, (s.len() - 1 - i) as nat)
}

/// The array after the first `k` passes of bubble sort.
pub open spec fn bubble_after(s: Seq<i32>, k: nat) -> Seq<i32>
    decreases k,
{
    if k == 0 {
        s
    } else {
        bubble_pass(bubble_after(s, (k - 1) as nat), k - 1)
    }
}

/// What the bubble sort demo prints for `s`: the array before the first
/// pass, then after each pass.
pub open spec fn bubble_chunks(s: Seq<i32>) -> Seq<Seq<char>> {
    Seq::new(s.len() + 1, |k: int| trace_line(k, bubble_after(s, k as nat)))
}

/// The array that both demos sort.
pub open spec fn demo_array() -> Seq<i32> {
    seq![5, 1, 4, 2, 8]
}

fn print_trace(print_out: &mut MyPrint, label: usize, arr: &Vec<i32>)
    requires
        label <= i64::MAX,
    ensures
        final(print_out).chunks() == old(print_out).chunks().push(trace_line(label as int, arr@)),
        final(print_out).inputs() == old(print_out).inputs(),
{
    let mut st = decimal(label as i64);
    st.append(": ");
    st.append(debug_i32s(arr).as_str());
    print_out.print_line(st);
}

fn bubble_sort_traced(arr: &mut Vec<i32>, print_out: &mut MyPrint)
    requires
        old(arr)@.len() < i64::MAX,
    ensures
        final(print_out).chunks() == old(print_out).chunks() + bubble_chunks(old(arr)@),
        final(print_out).inputs() == old(print_out).inputs(),
        final(arr)@ == bubble_after(old(arr)@, old(arr)@.len()),
{
    let ghost s = arr@;
    print_trace(print_out, 0, arr);
    let n = arr.len();
    let mut i: usize = 0;
    while i < n
        invariant
            i <= n,
            n == s.len(),
            n < i64::MAX,
            arr@ == bubble_after(s, i as nat),
            arr@.len() == n,
            print_out.chunks() == old(print_out).chunks() + bubble_chunks(s).take(i + 1),
            print_out.inputs() == old(print_out).inputs(),
        decreases n - i,
    {
        let ghost before = arr@;
        let m = n - 1 - i;
        let mut j: usize = 0;
        while j < m
            invariant
                j <= m,
                m == n - 1 - i,
                arr@ == bubble_inner(before, j as nat),
                arr@.len() == n,
                before.len() == n,
            decreases m - j,
        {
            if arr[j] > arr[j + 1] {
                let left = arr[j];
                let right = arr[j + 1];
                arr.set(j, right);
                arr.set(j + 1, left);
            }
            j = j + 1;
        }
        i = i + 1;
        assert(arr@ == bubble_after(s, i as nat));
        print_trace(print_out, i, arr);
        assert(print_out.chunks() =~= old(print_out).chunks() + bubble_chunks(s).take(i + 1));
    }
    assert(bubble_chunks(s).take(n + 1) =~= bubble_chunks(s));
}

/// Bubble sort on `[5, 1, 4, 2, 8]`, printing the array before the first
/// pass and after each pass, labelled `0:` to `5:`.
pub fn sort_bubble(print_out: &mut MyPrint)
    ensures
        final(print_out).chunks() == old(print_out).chunks() + bubble_chunks(demo_array()),
        final(print_out).inputs() == old(print_out).inputs(),
{
    let mut arr: Vec<i32> = Vec::new();
    arr.push(5);
    arr.push(1);
    arr.push(4);
    arr.push(2);
    arr.push(8);
    assert(arr@ =~= demo_array());
    bubble_sort_traced(&mut arr, print_out);
}

// ---------------------------------------------------------------------
// Insertion sort
// ---------------------------------------------------------------------

/// Moving `key` left from position `j`: elements greater than `key` shift
/// one place right, and `key` goes in the gap.
pub open spec fn shift(s: Seq<i32>, key: i32, j: nat) -> Seq<i32>
    decreases j,
{
    if j > 0 && s[j - 1] > key {
        shift(s.update(j as int, s[j - 1]), key, (j - 1) as nat)
    } else {
        s.update(j as int, key)
    }
}

/// Pass `i` of insertion sort: the element at `i` is inserted into the
/// part before it.
pub open spec fn insert_pass(s: Seq<i32>, i: nat) -> Seq<i32> {
    shift(s, s[i as int], i)
}

/// The array after the passes for positions `1..=k` of insertion sort.
pub open spec fn insert_after(s: Seq<i32>, k: nat) -> Seq<i32>
    decreases k,
{
    if k == 0 {
        s
    } else {
        insert_pass(insert_after(s, (k - 1) as nat), k)
    }
}

/// What the insertion sort demo prints for `s`: the array before the first
/// pass, then after the pass for each position `1..len`, labelled by it.
pub open spec fn insert_chunks(s: Seq<i32>) -> Seq<Seq<char>> {
    Seq::new(
        if s.len() == 0 {
            1
        } else {
            s.len()
        },
        |k: int| trace_line(k, insert_after(s, k as nat)),
    )
}

fn insertion_sort_traced(arr: &mut Vec<i32>, print_out: &mut MyPrint)
    requires
        old(arr)@.len() < i64::MAX,
    ensures
        final(print_out).chunks() == old(print_out).chunks() + insert_chunks(old(arr)@),
        final(print_out).inputs() == old(print_out).inputs(),
        old(arr)@.len() > 0 ==> final(arr)@ == insert_after(old(arr)@, (old(arr)@.len() - 1) as nat),
{
    let ghost s = arr@;
    print_trace(print_out, 0, arr);
    let n = arr.len();
    if n == 0 {
        assert(print_out.chunks() =~= old(print_out).chunks() + insert_chunks(s));
        return;
    }
    let mut i: usize = 1;
    while i < n
        invariant
            1 <= i <= n,
            n == s.len(),
            n < i64::MAX,
            arr@ == insert_after(s, (i - 1) as nat),
            arr@.len() == n,
            print_out.chunks() == old(print_out).chunks() + insert_chunks(s).take(i as int),
            print_out.inputs() == old(print_out).inputs(),
        decreases n - i,
    {
        let ghost before = arr@;
        let key = arr[i];
        let mut j = i;
        while j > 0 && arr[j - 1] > key
            invariant
                j <= i < n,
                arr@.len() == n,
                before.len() == n,
                key == before[i as int],
                shift(arr@, key, j as nat) == shift(before, key, i as nat),
            decreases j,
        {
            arr[j] = arr[j - 1];
            j -= 1;
        }
        arr[j] = key;
        assert(arr@ == insert_after(s, i as nat));
        print_trace(print_out, i, arr);
        i = i + 1;
        assert(print_out.chunks() =~= old(print_out).chunks() + insert_chunks(s).take(i as int));
    }
    assert(insert_chunks(s).take(n as int) =~= insert_chunks(s));
}

/// Insertion sort on `[5, 1, 4, 2, 8]`, printing the array before the
/// first pass, labelled `0:`, and after the pass for each position `i` in
/// `1..5`, labelled `i:`.
pub fn sort_insert(print_out: &mut MyPrint)
    ensures
        final(print_out).chunks() == old(print_out).chunks() + insert_chunks(demo_array()),
        final(print_out).inputs() == old(print_out).inputs(),
{
    let mut arr: Vec<i32> = Vec::new();
    arr.push(5);
    arr.push(1);
    arr.push(4);
    arr.push(2);
    arr.push(8);
    assert(arr@ =~= demo_array());
    insertion_sort_traced(&mut arr, print_out);
}

// ---------------------------------------------------------------------
// What the sorts promise
// ---------------------------------------------------------------------

proof fn lemma_swap_multiset(s: Seq<i32>, a: int, b: int)
    requires
        0 <= a < s.len(),
        0 <= b < s.len(),
    ensures
        s.update(a, s[b]).update(b, s[a]).to_multiset() == s.to_multiset(),
{
    broadcast use vstd::seq_lib::to_multiset_contains;

    let t = s.update(a, s[b]);
    if a == b {
        assert(s.update(a, s[b]).update(b, s[a]) =~= s);
    } else {
        assert(t[b] == s[b]);
        let m = s.to_multiset();
        assert(s.contains(s[a]));
        assert(m.count(s[a]) > 0);
        assert(t.to_multiset() == m.insert(s[b]).remove(s[a]));
        assert(t.update(b, s[a]).to_multiset() == t.to_multiset().insert(s[a]).remove(s[b]));
        assert(m.insert(s[b]).remove(s[a]).insert(s[a]).remove(s[b]) =~= m);
    }
}

proof fn lemma_swap_if(s: Seq<i32>, j: int)
    requires
        0 <= j,
        j + 1 < s.len(),
    ensures
        swap_if(s, j).len() == s.len(),
        swap_if(s, j).to_multiset() == s.to_multiset(),
        swap_if(s, j)[j] <= swap_if(s, j)[j + 1],
        swap_if(s, j)[j + 1] == (if s[j] > s[j + 1] { s[j] } else { s[j + 1] }),
        forall|k: int| 0 <= k < s.len() && k != j && k != j + 1 ==> swap_if(s, j)[k] == s[k],
{
    if s[j] > s[j + 1] {
        lemma_swap_multiset(s, j, j + 1);
    }
}

proof fn lemma_bubble_inner(s: Seq<i32>, m: nat)
    requires
        m < s.len(),
    ensures
        bubble_inner(s, m).len() == s.len(),
        bubble_inner(s, m).to_multiset() == s.to_multiset(),
        forall|k: int| 0 <= k <= m ==> bubble_inner(s, m)[k] <= bubble_inner(s, m)[m as int],
        forall|k: int| m < k < s.len() ==> bubble_inner(s, m)[k] == s[k],
    decreases m,
{
    if m > 0 {
        lemma_bubble_inner(s, (m - 1) as nat);
        let t = bubble_inner(s, (m - 1) as nat);
        lemma_swap_if(t, m - 1);
    }
}

proof fn lemma_bubble_inner_bound(s: Seq<i32>, m: nat, x: i32)
    requires
        m < s.len(),
        forall|k: int| 0 <= k <= m ==> s[k] <= x,
    ensures
        forall|k: int| 0 <= k <= m ==> bubble_inner(s, m)[k] <= x,
    decreases m,
{
    if m > 0 {
        lemma_bubble_inner_bound(s, (m - 1) as nat, x);
        lemma_bubble_inner(s, (m - 1) as nat);
        let t = bubble_inner(s, (m - 1) as nat);
        lemma_swap_if(t, m - 1);
        assert(t[m as int] == s[m as int]);
        assert(s[m as int] <= x);
        assert(t[m - 1] <= x);
        let u = bubble_inner(s, m);
        assert(u == swap_if(t, m - 1));
        assert forall|k: int| 0 <= k <= m implies u[k] <= x by {
            if k < m - 1 {
                assert(u[k] == t[k]);
                assert(t[k] <= x);
            }
        }
    }
}

proof fn lemma_bubble_after(s: Seq<i32>, k: nat)
    requires
        k <= s.len(),
    ensures
        bubble_after(s, k).len() == s.len(),
        bubble_after(s, k).to_multiset() == s.to_multiset(),
        forall|a: int, b: int|
            s.len() - k <= a < b < s.len() ==> #[trigger] bubble_after(s, k)[a]
                <= #[trigger] bubble_after(s, k)[b],
        forall|a: int, b: int|
            0 <= a < s.len() - k <= b < s.len() ==> #[trigger] bubble_after(s, k)[a]
                <= #[trigger] bubble_after(s, k)[b],
    decreases k,
{
    if k > 0 {
        let n = s.len();
        lemma_bubble_after(s, (k - 1) as nat);
        let t = bubble_after(s, (k - 1) as nat);
        let m = (n - k) as nat;
        lemma_bubble_inner(t, m);
        let u = bubble_inner(t, m);
        assert(u == bubble_after(s, k));
        assert forall|a: int, b: int| 0 <= a <= m && m < b < n implies #[trigger] u[a]
            <= #[trigger] u[b] by {
            assert forall|c: int| 0 <= c <= m implies t[c] <= t[b] by {
                assert(t[c] <= t[b]);
            }
            lemma_bubble_inner_bound(t, m, t[b]);
        }
        assert forall|a: int, b: int| n - k <= a < b < n implies #[trigger] u[a] <= #[trigger] u[b] by {
            if a == m {
                assert(u[a] <= u[b]);
            } else {
                assert(t[a] <= t[b]);
            }
        }
        assert forall|a: int, b: int| 0 <= a < n - k <= b < n implies #[trigger] u[a]
            <= #[trigger] u[b] by {
            if b == m {
            } else {
                assert(u[a] <= u[b]);
            }
        }
    }
}

/// Bubble sort sorts: after as many passes as the array is long, the
/// array is in ascending order and holds the same elements as before.
pub proof fn law_bubble_sorts(s: Seq<i32>)
    ensures
        sorted(bubble_after(s, s.len())),
        bubble_after(s, s.len()).to_multiset() == s.to_multiset(),
{
    lemma_bubble_after(s, s.len());
    let t = bubble_after(s, s.len());
    assert forall|a: int, b: int| 0 <= a < b < t.len() implies t[a] <= t[b] by {
        assert(t[a] <= t[b]);
    }
}

proof fn lemma_shift(s: Seq<i32>, orig: Seq<i32>, key: i32, j: nat, i: int)
    requires
        j <= i < s.len(),
        forall|a: int, b: int| 0 <= a < b < j ==> #[trigger] s[a] <= #[trigger] s[b],
        forall|a: int, b: int| j < a < b <= i ==> #[trigger] s[a] <= #[trigger] s[b],
        forall|a: int, b: int| 0 <= a < j && j < b <= i ==> #[trigger] s[a] <= #[trigger] s[b],
        forall|b: int| j < b <= i ==> #[trigger] s[b] > key,
        s.update(j as int, key).to_multiset() == orig.to_multiset(),
    ensures
        shift(s, key, j).len() == s.len(),
        shift(s, key, j).to_multiset() == orig.to_multiset(),
        forall|a: int, b: int|
            0 <= a < b <= i ==> #[trigger] shift(s, key, j)[a] <= #[trigger] shift(s, key, j)[b],
        forall|k: int| i < k < s.len() ==> shift(s, key, j)[k] == s[k],
    decreases j,
{
    if j > 0 && s[j - 1] > key {
        let s2 = s.update(j as int, s[j - 1]);
        let u = s.update(j as int, key);
        lemma_swap_multiset(u, j - 1, j as int);
        assert(u.update(j - 1, u[j as int]).update(j as int, u[j - 1]) =~= s2.update(j - 1, key));
        assert forall|a: int, b: int| j - 1 < a < b <= i implies #[trigger] s2[a] <= #[trigger] s2[b] by {
            if a == j {
                assert(s[j - 1] <= s[b]);
            } else {
                assert(s[a] <= s[b]);
            }
        }
        assert forall|a: int, b: int| 0 <= a < j - 1 && j - 1 < b <= i implies #[trigger] s2[a]
            <= #[trigger] s2[b] by {
            if b == j {
                assert(s[a] <= s[j - 1]);
            } else {
                assert(s[a] <= s[b]);
            }
        }
        assert forall|b: int| j - 1 < b <= i implies #[trigger] s2[b] > key by {
            if b == j {
            } else {
                assert(s[b] > key);
            }
        }
        lemma_shift(s2, orig, key, (j - 1) as nat, i);
        assert(shift(s, key, j) == shift(s2, key, (j - 1) as nat));
        assert forall|k: int| i < k < s.len() implies shift(s, key, j)[k] == s[k] by {
            assert(s2[k] == s[k]);
        }
    } else {
        let r = s.update(j as int, key);
        assert forall|a: int, b: int| 0 <= a < b <= i implies #[trigger] r[a] <= #[trigger] r[b] by {
            if b == j {
                if a < j - 1 {
                    assert(s[a] <= s[j - 1]);
                }
            } else if a == j {
                assert(s[b] > key);
            } else if b < j {
                assert(s[a] <= s[b]);
            } else if a < j {
                assert(s[a] <= s[b]);
            } else {
                assert(s[a] <= s[b]);
            }
        }
    }
}

proof fn lemma_insert_after(s: Seq<i32>, k: nat)
    requires
        k < s.len(),
    ensures
        insert_after(s, k).len() == s.len(),
        insert_after(s, k).to_multiset() == s.to_multiset(),
        forall|a: int, b: int|
            0 <= a < b <= k ==> #[trigger] insert_after(s, k)[a] <= #[trigger] insert_after(s, k)[b],
    decreases k,
{
    if k > 0 {
        lemma_insert_after(s, (k - 1) as nat);
        let t = insert_after(s, (k - 1) as nat);
        assert(t.update(k as int, t[k as int]) =~= t);
        lemma_shift(t, t, t[k as int], k, k as int);
        assert(insert_after(s, k) == shift(t, t[k as int], k));
    }
}

/// Insertion sort sorts: after the passes for every position, the array is
/// in ascending order and holds the same elements as before.
pub proof fn law_insertion_sorts(s: Seq<i32>)
    requires
        s.len() > 0,
    ensures
        sorted(insert_after(s, (s.len() - 1) as nat)),
        insert_after(s, (s.len() - 1) as nat).to_multiset() == s.to_multiset(),
{
    lemma_insert_after(s, (s.len() - 1) as nat);
    let t = insert_after(s, (s.len() - 1) as nat);
    assert forall|a: int, b: int| 0 <= a < b < t.len() implies t[a] <= t[b] by {
        assert(t[a] <= t[b]);
    }
}

proof fn lemma_sorted_unique(a: Seq<i32>, b: Seq<i32>)
    requires
        sorted(a),
        sorted(b),
        a.to_multiset() == b.to_multiset(),
    ensures
        a == b,
    decreases a.len(),
{
    broadcast use {
        vstd::seq_lib::to_multiset_remove,
        vstd::seq_lib::to_multiset_contains,
        vstd::seq_lib::to_multiset_len,
    };

    vstd::seq_lib::to_multiset_len(a);
    vstd::seq_lib::to_multiset_len(b);
    if a.len() == 0 {
        assert(b.len() == 0);
        assert(a =~= b);
    } else {
        assert(b.len() == a.len());
        assert(a.contains(a[0]));
        assert(b.to_multiset().count(a[0]) > 0);
        assert(b.contains(a[0]));
        let ib = choose|i: int| 0 <= i < b.len() && b[i] == a[0];
        assert(b[0] <= b[ib]);
        assert(b.contains(b[0]));
        vstd::seq_lib::to_multiset_contains(b, b[0]);
        vstd::seq_lib::to_multiset_contains(a, b[0]);
        assert(a.contains(b[0]));
        let ia = choose|i: int| 0 <= i < a.len() && a[i] == b[0];
        assert(a[0] <= a[ia]);
        assert(a[0] == b[0]);
        assert(a.remove(0) =~= a.drop_first());
        assert(b.remove(0) =~= b.drop_first());
        lemma_sorted_unique(a.drop_first(), b.drop_first());
        assert forall|k: int| 0 <= k < a.len() implies a[k] == b[k] by {
            if k > 0 {
                assert(a[k] == a.drop_first()[k - 1]);
                assert(b[k] == b.drop_first()[k - 1]);
            }
        }
        assert(a =~= b);
    }
}

/// Both demos end with the same array: on every non-empty array, bubble
/// sort and insertion sort give the same result.
pub proof fn law_sorts_agree(s: Seq<i32>)
    requires
        s.len() > 0,
    ensures
        bubble_after(s, s.len()) == insert_after(s, (s.len() - 1) as nat),
{
    law_bubble_sorts(s);
    law_insertion_sorts(s);
    lemma_sorted_unique(bubble_after(s, s.len()), insert_after(s, (s.len() - 1) as nat));
}

} // verus!
