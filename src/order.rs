use vstd::prelude::*;
use crate::chars::chars_of;
use crate::task::Task;

verus! {

/// `a` comes no later than `b` in lexicographic order of characters (the
/// order of `str`'s comparison, as UTF-8 keeps code point order).
pub open spec fn text_le(a: Seq<char>, b: Seq<char>) -> bool
    decreases a.len(),
{
    if a.len() == 0 {
        true
    } else if b.len() == 0 {
        false
    } else if a[0] != b[0] {
        (a[0] as u32) < (b[0] as u32)
    } else {
        text_le(a.drop_first(), b.drop_first())
    }
}

/// The orders in which tasks are listed.
#[derive(Clone, Copy, Debug, PartialEq, Eq, Structural)]
pub enum TaskOrder {
    /// Oldest first by creation time.
    CreatedFirst,
    /// Most recently updated first.
    UpdatedLast,
}

/// `a` may stand before `b` in `order` (ties included).
pub open spec fn in_order(order: TaskOrder, a: Task, b: Task) -> bool {
    match order {
        TaskOrder::CreatedFirst => text_le(a.created_at@, b.created_at@),
        TaskOrder::UpdatedLast => text_le(b.updated_at@, a.updated_at@),
    }
}

/// `s` with `t` placed, from the end, after every task that may stand
/// before it: in a sorted list, after its ties.
pub open spec fn insert_ordered(order: TaskOrder, s: Seq<Task>, t: Task) -> Seq<Task>
    decreases s.len(),
{
    if s.len() == 0 {
        seq![t]
    } else if in_order(order, s.last(), t) {
        s.push(t)
    } else {
        insert_ordered(order, s.drop_last(), t).push(s.last())
    }
}

/// `s` sorted by `order`; ties keep their order.
pub open spec fn sort_ordered(order: TaskOrder, s: Seq<Task>) -> Seq<Task>
    decreases s.len(),
{
    if s.len() == 0 {
        s
    } else {
        insert_ordered(order, sort_ordered(order, s.drop_last()), s.last())
    }
}

/// `s` ordered by creation time, oldest first; ties keep their order.
pub open spec fn sort_by_created(s: Seq<Task>) -> Seq<Task> {
    sort_ordered(TaskOrder::CreatedFirst, s)
}

pub proof fn lemma_insert_len_contains(order: TaskOrder, s: Seq<Task>, t: Task)
    ensures
        insert_ordered(order, s, t).len() == s.len() + 1,
        forall|x: Task| #[trigger] insert_ordered(order, s, t).contains(x) ==> x == t || s.contains(x),
    decreases s.len(),
{
    if s.len() > 0 && !in_order(order, s.last(), t) {
        lemma_insert_len_contains(order, s.drop_last(), t);
        let r = insert_ordered(order, s, t);
        assert forall|x: Task| #[trigger] r.contains(x) implies x == t || s.contains(x) by {
            let k = choose|k: int| 0 <= k < r.len() && r[k] == x;
            if k == r.len() - 1 {
                assert(s[s.len() - 1] == x);
            } else {
                assert(insert_ordered(order, s.drop_last(), t)[k] == x);
                assert(insert_ordered(order, s.drop_last(), t).contains(x));
                if x != t {
                    let m = choose|m: int| 0 <= m < s.drop_last().len() && s.drop_last()[m] == x;
                    assert(s[m] == x);
                }
            }
        }
    } else if s.len() > 0 {
        let r = insert_ordered(order, s, t);
        assert forall|x: Task| #[trigger] r.contains(x) implies x == t || s.contains(x) by {
            let k = choose|k: int| 0 <= k < r.len() && r[k] == x;
            if k < s.len() {
                assert(s[k] == x);
            }
        }
    }
}

/// Sorting keeps the length and brings in no new task.
pub proof fn lemma_sort_len_contains(order: TaskOrder, s: Seq<Task>)
    ensures
        sort_ordered(order, s).len() == s.len(),
        forall|x: Task| #[trigger] sort_ordered(order, s).contains(x) ==> s.contains(x),
    decreases s.len(),
{
    if s.len() > 0 {
        lemma_sort_len_contains(order, s.drop_last());
        lemma_insert_len_contains(order, sort_ordered(order, s.drop_last()), s.last());
        assert forall|x: Task| #[trigger] sort_ordered(order, s).contains(x) implies s.contains(x) by {
            if x != s.last() {
                assert(sort_ordered(order, s.drop_last()).contains(x));
                let m = choose|m: int| 0 <= m < s.drop_last().len() && s.drop_last()[m] == x;
                assert(s[m] == x);
            } else {
                assert(s[s.len() - 1] == x);
            }
        }
    }
}

/// Every two texts are ordered one way or the other.
pub proof fn lemma_text_le_total(a: Seq<char>, b: Seq<char>)
    ensures
        text_le(a, b) || text_le(b, a),
    decreases a.len(),
{
    if a.len() > 0 && b.len() > 0 && a[0] == b[0] {
        lemma_text_le_total(a.drop_first(), b.drop_first());
    } else if a.len() > 0 && b.len() > 0 {
        vstd::utf8::char_u32_cast(a[0], a[0] as u32);
        vstd::utf8::char_u32_cast(b[0], b[0] as u32);
    }
}

pub proof fn lemma_text_le_transitive(a: Seq<char>, b: Seq<char>, c: Seq<char>)
    requires
        text_le(a, b),
        text_le(b, c),
    ensures
        text_le(a, c),
    decreases a.len(),
{
    if a.len() > 0 && b.len() > 0 && c.len() > 0 && a[0] == b[0] && b[0] == c[0] {
        lemma_text_le_transitive(a.drop_first(), b.drop_first(), c.drop_first());
    }
}

pub proof fn lemma_in_order_total(order: TaskOrder, a: Task, b: Task)
    ensures
        in_order(order, a, b) || in_order(order, b, a),
{
    lemma_text_le_total(a.created_at@, b.created_at@);
    lemma_text_le_total(a.updated_at@, b.updated_at@);
}

pub proof fn lemma_in_order_transitive(order: TaskOrder, a: Task, b: Task, c: Task)
    requires
        in_order(order, a, b),
        in_order(order, b, c),
    ensures
        in_order(order, a, c),
{
    match order {
        TaskOrder::CreatedFirst => lemma_text_le_transitive(
            a.created_at@,
            b.created_at@,
            c.created_at@,
        ),
        TaskOrder::UpdatedLast => lemma_text_le_transitive(
            c.updated_at@,
            b.updated_at@,
            a.updated_at@,
        ),
    }
}

/// Each task may stand before every one after it.
pub open spec fn is_sorted(order: TaskOrder, s: Seq<Task>) -> bool {
    forall|i: int, j: int|
        0 <= i < j < s.len() ==> in_order(order, #[trigger] s[i], #[trigger] s[j])
}

proof fn lemma_insert_keeps_sorted(order: TaskOrder, s: Seq<Task>, t: Task)
    requires
        is_sorted(order, s),
    ensures
        is_sorted(order, insert_ordered(order, s, t)),
    decreases s.len(),
{
    lemma_insert_len_contains(order, s, t);
    if s.len() == 0 {
    } else if in_order(order, s.last(), t) {
        let r = s.push(t);
        assert forall|i: int, j: int| 0 <= i < j < r.len() implies in_order(order, #[trigger] r[i], #[trigger] r[j]) by {
            if j == s.len() && i < s.len() - 1 {
                lemma_in_order_transitive(order, s[i], s.last(), t);
            }
        }
    } else {
        let d = s.drop_last();
        let last = s.last();
        lemma_insert_keeps_sorted(order, d, t);
        lemma_insert_len_contains(order, d, t);
        lemma_in_order_total(order, last, t);
        let m = insert_ordered(order, d, t);
        let r = m.push(last);
        assert forall|i: int, j: int| 0 <= i < j < r.len() implies in_order(order, #[trigger] r[i], #[trigger] r[j]) by {
            if j == m.len() {
                assert(m.contains(m[i]));
                if m[i] != t {
                    let k = choose|k: int| 0 <= k < d.len() && d[k] == m[i];
                    assert(s[k] == m[i]);
                    assert(in_order(order, s[k], s[s.len() - 1]));
                }
            }
        }
    }
}

/// The sorted list is in order.
pub proof fn lemma_sort_is_sorted(order: TaskOrder, s: Seq<Task>)
    ensures
        is_sorted(order, sort_ordered(order, s)),
    decreases s.len(),
{
    if s.len() > 0 {
        lemma_sort_is_sorted(order, s.drop_last());
        lemma_insert_keeps_sorted(order, sort_ordered(order, s.drop_last()), s.last());
    }
}

/// Inserting at `p`, after every task that may stand before `t` and before
/// every one that may not, is `insert_ordered`.
proof fn lemma_insert_at(order: TaskOrder, s: Seq<Task>, t: Task, p: int)
    requires
        0 <= p <= s.len(),
        forall|j: int| p <= j < s.len() ==> !in_order(order, #[trigger] s[j], t),
        p == 0 || in_order(order, s[p - 1], t),
    ensures
        insert_ordered(order, s, t) == s.insert(p, t),
    decreases s.len(),
{
    if s.len() == 0 {
        assert(s.insert(p, t) =~= seq![t]);
    } else if in_order(order, s.last(), t) {
        assert(p == s.len());
        assert(s.insert(p, t) =~= s.push(t));
    } else {
        assert(p < s.len());
        lemma_insert_at(order, s.drop_last(), t, p);
        assert(s.drop_last().insert(p, t).push(s.last()) =~= s.insert(p, t));
    }
}

/// Whether `a` comes no later than `b`, comparing as `str` does.
pub fn text_le_exec(a: &str, b: &str) -> (r: bool)
    ensures
        r == text_le(a@, b@),
{
    let x = chars_of(a);
    let y = chars_of(b);
    let mut i: usize = 0;
    proof {
        assert(a@.skip(0) =~= a@);
        assert(b@.skip(0) =~= b@);
    }
    while i < x.len() && i < y.len() && x[i] == y[i]
        invariant
            i <= x.len(),
            i <= y.len(),
            x@ == a@,
            y@ == b@,
            text_le(a@, b@) == text_le(a@.skip(i as int), b@.skip(i as int)),
        decreases x.len() - i,
    {
        proof {
            assert(a@.skip(i as int).drop_first() =~= a@.skip(i as int + 1));
            assert(b@.skip(i as int).drop_first() =~= b@.skip(i as int + 1));
        }
        i = i + 1;
    }
    if i == x.len() {
        true
    } else if i == y.len() {
        false
    } else {
        (x[i] as u32) < (y[i] as u32)
    }
}

/// Whether `a` may stand before `b` in `order`.
fn in_order_exec(order: TaskOrder, a: &Task, b: &Task) -> (r: bool)
    ensures
        r == in_order(order, *a, *b),
{
    match order {
        TaskOrder::CreatedFirst => text_le_exec(a.created_at.as_str(), b.created_at.as_str()),
        TaskOrder::UpdatedLast => text_le_exec(b.updated_at.as_str(), a.updated_at.as_str()),
    }
}

/// The tasks sorted by `order`; ties keep their given order.
pub fn sort_tasks<'a>(tasks: Vec<&'a Task>, order: TaskOrder) -> (r: Vec<&'a Task>)
    ensures
        r@.map_values(|t: &Task| *t) == sort_ordered(order, tasks@.map_values(|t: &Task| *t)),
{
    let ghost all = tasks@.map_values(|t: &Task| *t);
    let mut out: Vec<&Task> = Vec::new();
    let mut i: usize = 0;
    while i < tasks.len()
        invariant
            i <= tasks.len(),
            all == tasks@.map_values(|t: &Task| *t),
            out@.map_values(|t: &Task| *t) == sort_ordered(order, all.take(i as int)),
        decreases tasks.len() - i,
    {
        let t: &Task = tasks[i];
        let ghost s = out@.map_values(|t: &Task| *t);
        let mut p: usize = out.len();
        while p > 0 && !in_order_exec(order, out[p - 1], t)
            invariant
                p <= out.len(),
                s == out@.map_values(|t: &Task| *t),
                forall|j: int| p <= j < s.len() ==> !in_order(order, #[trigger] s[j], *t),
            decreases p,
        {
            p = p - 1;
        }
        proof {
            lemma_insert_at(order, s, *t, p as int);
            assert(all.take(i as int + 1).drop_last() =~= all.take(i as int));
            assert(all.take(i as int + 1).last() == *t);
        }
        out.insert(p, t);
        proof {
            assert(out@.map_values(|t: &Task| *t) =~= s.insert(p as int, *t));
        }
        i = i + 1;
    }
    proof {
        assert(all.take(i as int) =~= all);
    }
    out
}

} // verus!
