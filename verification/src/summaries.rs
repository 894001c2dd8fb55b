//! Spending summaries: totals and counts by month, and by category for a
//! period.
//!
//! The store hands over the caller's rows; the aggregation itself is computed
//! and proved here. Totals are exact sums in cents, wide enough that they
//! cannot overflow for any number of storable rows.

use vstd::prelude::*;
use crate::categories::opt_text;
use crate::ids::Id;
use crate::records::{Category, ExpenseWithCategory, MAX_AMOUNT_CENTS};
use crate::time::Date;

verus! {

/// The sum, in cents, of the amounts of the rows satisfying `pred`.
pub open spec fn total_where(
    s: Seq<ExpenseWithCategory>,
    pred: spec_fn(ExpenseWithCategory) -> bool,
) -> int
    decreases s.len(),
{
    if s.len() == 0 {
        0
    } else {
        total_where(s.drop_last(), pred) + if pred(s.last()) {
            s.last().amount_cents as int
        } else {
            0
        }
    }
}

/// How many rows satisfy `pred`.
pub open spec fn count_where(
    s: Seq<ExpenseWithCategory>,
    pred: spec_fn(ExpenseWithCategory) -> bool,
) -> int
    decreases s.len(),
{
    if s.len() == 0 {
        0
    } else {
        count_where(s.drop_last(), pred) + if pred(s.last()) {
            1int
        } else {
            0
        }
    }
}

/// Whether the expense falls in the given month.
pub open spec fn in_month(e: ExpenseWithCategory, year: i32, month: u8) -> bool {
    e.expense_date.year == year && e.expense_date.month == month
}

/// Whether the expense belongs to the category and falls on or after `from`.
pub open spec fn in_category_since(e: ExpenseWithCategory, cid: Seq<char>, from: Date) -> bool {
    e.category_id@ == cid && e.expense_date.spec_on_or_after(from)
}

/// One month's spending: the month, the exact total in cents, and how many
/// expenses it covers.
#[derive(Debug, Clone, Copy, PartialEq, Eq, Structural)]
pub struct MonthlySummary {
    pub year: i32,
    pub month: u8,
    pub total_cents: u128,
    pub expense_count: u64,
}

/// One category's spending over a period, with the category's display fields.
#[derive(Debug)]
pub struct CategorySummary {
    pub category_id: Id,
    pub category_name: String,
    pub category_color: Option<String>,
    pub category_icon: Option<String>,
    pub total_cents: u128,
    pub expense_count: u64,
}


impl Clone for CategorySummary {
    fn clone(&self) -> (r: CategorySummary)
        ensures
            r == *self,
    {
        CategorySummary {
            category_id: self.category_id.clone(),
            category_name: self.category_name.clone(),
            category_color: crate::records::clone_opt_string(&self.category_color),
            category_icon: crate::records::clone_opt_string(&self.category_icon),
            total_cents: self.total_cents,
            expense_count: self.expense_count,
        }
    }
}

/// Sums total and count of the rows in the given month.
fn month_totals(rows: &Vec<ExpenseWithCategory>, year: i32, month: u8) -> (r: (u128, u64))
    requires
        forall|i: int| 0 <= i < rows@.len() ==> (#[trigger] rows@[i]).wf(),
    ensures
        r.0 == total_where(rows@, |e: ExpenseWithCategory| in_month(e, year, month)),
        r.1 == count_where(rows@, |e: ExpenseWithCategory| in_month(e, year, month)),
{
    let ghost pred = |e: ExpenseWithCategory| in_month(e, year, month);
    let n = rows.len();
    let mut total: u128 = 0;
    let mut count: u64 = 0;
    let mut i: usize = 0;
    proof {
        assert(rows@.subrange(0, 0) =~= Seq::<ExpenseWithCategory>::empty());
    }
    while i < n
        invariant
            i <= n,
            n == rows@.len(),
            forall|j: int| 0 <= j < rows@.len() ==> (#[trigger] rows@[j]).wf(),
            total == total_where(rows@.subrange(0, i as int), pred),
            count == count_where(rows@.subrange(0, i as int), pred),
            total <= i * MAX_AMOUNT_CENTS,
            count <= i,
            pred == (|e: ExpenseWithCategory| in_month(e, year, month)),
        decreases n - i,
    {
        proof {
            let prefix = rows@.subrange(0, i as int);
            let next = rows@.subrange(0, i + 1);
            assert(next =~= prefix.push(rows@[i as int]));
            assert(next.drop_last() =~= prefix);
            assert(next.last() == rows@[i as int]);
            assert((i + 1) * MAX_AMOUNT_CENTS == i * MAX_AMOUNT_CENTS + MAX_AMOUNT_CENTS);
            assert(usize::MAX * MAX_AMOUNT_CENTS < u128::MAX);
        }
        let e = &rows[i];
        if e.expense_date.year == year && e.expense_date.month == month {
            total = total + e.amount_cents as u128;
            count = count + 1;
        }
        i = i + 1;
    }
    proof {
        assert(rows@.subrange(0, n as int) =~= rows@);
    }
    (total, count)
}

/// Sums total and count of the rows of a category dated on or after `from`.
fn category_totals(rows: &Vec<ExpenseWithCategory>, cid: &Id, from: Date) -> (r: (u128, u64))
    requires
        forall|i: int| 0 <= i < rows@.len() ==> (#[trigger] rows@[i]).wf(),
    ensures
        r.0 == total_where(rows@, |e: ExpenseWithCategory| in_category_since(e, cid@, from)),
        r.1 == count_where(rows@, |e: ExpenseWithCategory| in_category_since(e, cid@, from)),
{
    let ghost pred = |e: ExpenseWithCategory| in_category_since(e, cid@, from);
    let n = rows.len();
    let mut total: u128 = 0;
    let mut count: u64 = 0;
    let mut i: usize = 0;
    proof {
        assert(rows@.subrange(0, 0) =~= Seq::<ExpenseWithCategory>::empty());
    }
    while i < n
        invariant
            i <= n,
            n == rows@.len(),
            forall|j: int| 0 <= j < rows@.len() ==> (#[trigger] rows@[j]).wf(),
            total == total_where(rows@.subrange(0, i as int), pred),
            count == count_where(rows@.subrange(0, i as int), pred),
            total <= i * MAX_AMOUNT_CENTS,
            count <= i,
            pred == (|e: ExpenseWithCategory| in_category_since(e, cid@, from)),
        decreases n - i,
    {
        proof {
            let prefix = rows@.subrange(0, i as int);
            let next = rows@.subrange(0, i + 1);
            assert(next =~= prefix.push(rows@[i as int]));
            assert(next.drop_last() =~= prefix);
            assert(next.last() == rows@[i as int]);
            assert((i + 1) * MAX_AMOUNT_CENTS == i * MAX_AMOUNT_CENTS + MAX_AMOUNT_CENTS);
            assert(usize::MAX * MAX_AMOUNT_CENTS < u128::MAX);
        }
        let e = &rows[i];
        let matching = e.category_id == *cid && e.expense_date.on_or_after(&from);
        if matching {
            total = total + e.amount_cents as u128;
            count = count + 1;
        }
        i = i + 1;
    }
    proof {
        assert(rows@.subrange(0, n as int) =~= rows@);
    }
    (total, count)
}

/// Whether `keys` contains the month `(y, m)`.
pub open spec fn has_key(keys: Seq<(i32, u8)>, y: i32, m: u8) -> bool {
    exists|k: int| 0 <= k < keys.len() && keys[k] == (y, m)
}

/// Whether some row falls in the month `(y, m)`.
pub open spec fn some_row_in_month(rows: Seq<ExpenseWithCategory>, y: i32, m: u8) -> bool {
    exists|j: int| 0 <= j < rows.len() && in_month(rows[j], y, m)
}

/// Whether the summaries report the month `(y, m)`.
pub open spec fn reports_month(r: Seq<MonthlySummary>, y: i32, m: u8) -> bool {
    exists|k: int| 0 <= k < r.len() && r[k].year == y && r[k].month == m
}

/// Collects each distinct month among the rows, in order of first appearance:
/// no month twice, every row's month present, every key some row's month.
#[verifier::rlimit(30)]
fn month_keys(rows: &Vec<ExpenseWithCategory>) -> (keys: Vec<(i32, u8)>)
    ensures
        forall|k1: int, k2: int|
            0 <= k1 < k2 < keys@.len() ==> (#[trigger] keys@[k1]) != (#[trigger] keys@[k2]),
        forall|j: int|
            0 <= j < rows@.len() ==> has_key(
                keys@,
                (#[trigger] rows@[j]).expense_date.year,
                rows@[j].expense_date.month,
            ),
        forall|k: int|
            0 <= k < keys@.len() ==> some_row_in_month(
                rows@,
                (#[trigger] keys@[k]).0,
                keys@[k].1,
            ),
{
    let n = rows.len();
    let mut keys: Vec<(i32, u8)> = Vec::new();
    let mut i: usize = 0;
    while i < n
        invariant
            i <= n,
            n == rows@.len(),
            forall|k1: int, k2: int|
                0 <= k1 < k2 < keys@.len() ==> (#[trigger] keys@[k1]) != (#[trigger] keys@[k2]),
            forall|j: int|
                0 <= j < i ==> has_key(
                    keys@,
                    (#[trigger] rows@[j]).expense_date.year,
                    rows@[j].expense_date.month,
                ),
            forall|k: int|
                0 <= k < keys@.len() ==> some_row_in_month(
                    rows@,
                    (#[trigger] keys@[k]).0,
                    keys@[k].1,
                ),
        decreases n - i,
    {
        let y = rows[i].expense_date.year;
        let m = rows[i].expense_date.month;
        let mut found = false;
        let mut k: usize = 0;
        let kn = keys.len();
        while k < kn
            invariant
                k <= kn,
                kn == keys@.len(),
                found <==> exists|k2: int| 0 <= k2 < k && #[trigger] keys@[k2] == (y, m),
            decreases kn - k,
        {
            if keys[k].0 == y && keys[k].1 == m {
                proof {
                    assert(keys@[k as int] == (y, m));
                }
                found = true;
            }
            k = k + 1;
        }
        let ghost keys_before = keys@;
        if !found {
            keys.push((y, m));
        }
        proof {
            assert(forall|k2: int|
                0 <= k2 < keys_before.len() ==> #[trigger] keys@[k2] == keys_before[k2]);
            assert forall|j: int|
                0 <= j < i + 1 implies has_key(
                keys@,
                (#[trigger] rows@[j]).expense_date.year,
                rows@[j].expense_date.month,
            ) by {
                let yy = rows@[j].expense_date.year;
                let mm = rows@[j].expense_date.month;
                if j == i {
                    if found {
                        let k2 = choose|k2: int|
                            0 <= k2 < keys_before.len() && #[trigger] keys_before[k2] == (y, m);
                        assert(keys@[k2] == (y, m));
                    } else {
                        assert(keys@[keys@.len() - 1] == (y, m));
                    }
                } else {
                    let k2 = choose|k2: int|
                        0 <= k2 < keys_before.len() && #[trigger] keys_before[k2] == (yy, mm);
                    assert(keys@[k2] == (yy, mm));
                }
            }
            assert forall|k2: int|
                0 <= k2 < keys@.len() implies some_row_in_month(
                rows@,
                (#[trigger] keys@[k2]).0,
                keys@[k2].1,
            ) by {
                if k2 < keys_before.len() {
                    assert(keys@[k2] == keys_before[k2]);
                } else {
                    assert(keys@[k2] == (y, m));
                    assert(in_month(rows@[i as int], y, m));
                }
            }
            assert forall|k1: int, k2: int|
                0 <= k1 < k2 < keys@.len() implies (#[trigger] keys@[k1]) != (
            #[trigger] keys@[k2]) by {
                if k2 >= keys_before.len() {
                    assert(keys@[k2] == (y, m));
                    assert(keys@[k1] == keys_before[k1]);
                }
            }
        }
        i = i + 1;
    }
    keys
}

/// The months of the caller's spending, each once, with the exact total and
/// count of that month's expenses over all the given rows. Every row's month
/// is reported, no month is reported twice, and every reported month is some
/// row's month.
#[verifier::rlimit(30)]
pub fn monthly_summaries(rows: &Vec<ExpenseWithCategory>) -> (r: Vec<MonthlySummary>)
    requires
        forall|i: int| 0 <= i < rows@.len() ==> (#[trigger] rows@[i]).wf(),
    ensures
        forall|k: int|
            0 <= k < r@.len() ==> (#[trigger] r@[k]).total_cents == total_where(
                rows@,
                |e: ExpenseWithCategory| in_month(e, r@[k].year, r@[k].month),
            ) && r@[k].expense_count == count_where(
                rows@,
                |e: ExpenseWithCategory| in_month(e, r@[k].year, r@[k].month),
            ),
        forall|k1: int, k2: int|
            0 <= k1 < k2 < r@.len() ==> !((#[trigger] r@[k1]).year == (#[trigger] r@[k2]).year
                && r@[k1].month == r@[k2].month),
        forall|i: int|
            0 <= i < rows@.len() ==> reports_month(
                r@,
                (#[trigger] rows@[i]).expense_date.year,
                rows@[i].expense_date.month,
            ),
        forall|k: int|
            0 <= k < r@.len() ==> some_row_in_month(rows@, (#[trigger] r@[k]).year, r@[k].month),
{
    let keys = month_keys(rows);
    let mut out: Vec<MonthlySummary> = Vec::new();
    let mut k: usize = 0;
    let kn = keys.len();
    while k < kn
        invariant
            k <= kn,
            kn == keys@.len(),
            out@.len() == k,
            forall|i2: int| 0 <= i2 < rows@.len() ==> (#[trigger] rows@[i2]).wf(),
            forall|k2: int|
                0 <= k2 < k ==> (#[trigger] out@[k2]).year == keys@[k2].0 && out@[k2].month
                    == keys@[k2].1,
            forall|k2: int|
                0 <= k2 < k ==> (#[trigger] out@[k2]).total_cents == total_where(
                    rows@,
                    |e: ExpenseWithCategory| in_month(e, keys@[k2].0, keys@[k2].1),
                ) && out@[k2].expense_count == count_where(
                    rows@,
                    |e: ExpenseWithCategory| in_month(e, keys@[k2].0, keys@[k2].1),
                ),
            forall|k1: int, k2: int|
                0 <= k1 < k2 < keys@.len() ==> (#[trigger] keys@[k1]) != (#[trigger] keys@[k2]),
            forall|j: int|
                0 <= j < rows@.len() ==> has_key(
                    keys@,
                    (#[trigger] rows@[j]).expense_date.year,
                    rows@[j].expense_date.month,
                ),
            forall|k2: int|
                0 <= k2 < keys@.len() ==> some_row_in_month(
                    rows@,
                    (#[trigger] keys@[k2]).0,
                    keys@[k2].1,
                ),
        decreases kn - k,
    {
        let (y, m) = keys[k];
        let (total, count) = month_totals(rows, y, m);
        out.push(MonthlySummary { year: y, month: m, total_cents: total, expense_count: count });
        k = k + 1;
    }
    proof {
        assert forall|i: int|
            0 <= i < rows@.len() implies reports_month(
            out@,
            (#[trigger] rows@[i]).expense_date.year,
            rows@[i].expense_date.month,
        ) by {
            let yy = rows@[i].expense_date.year;
            let mm = rows@[i].expense_date.month;
            let k2 = choose|k2: int| 0 <= k2 < keys@.len() && #[trigger] keys@[k2] == (yy, mm);
            assert(out@[k2].year == yy && out@[k2].month == mm);
        }
        assert forall|k1: int, k2: int|
            0 <= k1 < k2 < out@.len() implies !((#[trigger] out@[k1]).year == (
        #[trigger] out@[k2]).year && out@[k1].month == out@[k2].month) by {
            assert(keys@[k1] != keys@[k2]);
            assert(keys@[k1] == (keys@[k1].0, keys@[k1].1));
            assert(keys@[k2] == (keys@[k2].0, keys@[k2].1));
        }
    }
    out
}

/// One summary per given category, in their given order: the exact total and
/// count of that category's expenses dated on or after `from`, zero for a
/// category with none, and the category's display fields carried through.
pub fn category_summaries(categories: &Vec<Category>, rows: &Vec<ExpenseWithCategory>, from: Date) -> (r:
    Vec<CategorySummary>)
    requires
        forall|i: int| 0 <= i < rows@.len() ==> (#[trigger] rows@[i]).wf(),
    ensures
        r@.len() == categories@.len(),
        forall|k: int|
            0 <= k < r@.len() ==> (#[trigger] r@[k]).category_id@ == categories@[k].id@
                && r@[k].category_name@ == categories@[k].name@ && opt_text(r@[k].category_color)
                == opt_text(categories@[k].color) && opt_text(r@[k].category_icon) == opt_text(
                categories@[k].icon,
            ),
        forall|k: int|
            0 <= k < r@.len() ==> (#[trigger] r@[k]).total_cents == total_where(
                rows@,
                |e: ExpenseWithCategory| in_category_since(e, categories@[k].id@, from),
            ) && r@[k].expense_count == count_where(
                rows@,
                |e: ExpenseWithCategory| in_category_since(e, categories@[k].id@, from),
            ),
{
    let n = categories.len();
    let mut out: Vec<CategorySummary> = Vec::new();
    let mut k: usize = 0;
    while k < n
        invariant
            k <= n,
            n == categories@.len(),
            out@.len() == k,
            forall|i: int| 0 <= i < rows@.len() ==> (#[trigger] rows@[i]).wf(),
            forall|k2: int|
                0 <= k2 < k ==> (#[trigger] out@[k2]).category_id@ == categories@[k2].id@
                    && out@[k2].category_name@ == categories@[k2].name@ && opt_text(
                    out@[k2].category_color,
                ) == opt_text(categories@[k2].color) && opt_text(out@[k2].category_icon)
                    == opt_text(categories@[k2].icon),
            forall|k2: int|
                0 <= k2 < k ==> (#[trigger] out@[k2]).total_cents == total_where(
                    rows@,
                    |e: ExpenseWithCategory| in_category_since(e, categories@[k2].id@, from),
                ) && out@[k2].expense_count == count_where(
                    rows@,
                    |e: ExpenseWithCategory| in_category_since(e, categories@[k2].id@, from),
                ),
        decreases n - k,
    {
        let c = &categories[k];
        let (total, count) = category_totals(rows, &c.id, from);
        out.push(
            CategorySummary {
                category_id: c.id.clone(),
                category_name: c.name.clone(),
                category_color: crate::records::clone_opt_string(&c.color),
                category_icon: crate::records::clone_opt_string(&c.icon),
                total_cents: total,
                expense_count: count,
            },
        );
        k = k + 1;
    }
    out
}


/// Whether `a` comes no later than `b` in the monthly report: newest first,
/// by year and then by month.
pub open spec fn month_order(a: MonthlySummary, b: MonthlySummary) -> bool {
    if a.year != b.year {
        a.year > b.year
    } else {
        a.month >= b.month
    }
}

/// Whether the summaries stand newest month first.
pub open spec fn months_newest_first(s: Seq<MonthlySummary>) -> bool {
    forall|i: int, j: int| 0 <= i < j < s.len() ==> month_order(s[i], s[j])
}

/// Decides the monthly report order for a pair.
fn month_order_at(a: &MonthlySummary, b: &MonthlySummary) -> (r: bool)
    ensures
        r == month_order(*a, *b),
{
    if a.year != b.year {
        a.year > b.year
    } else {
        a.month >= b.month
    }
}

/// Orders monthly summaries newest first: the result is the same collection of
/// summaries, sorted.
pub fn sort_months_newest_first(v: Vec<MonthlySummary>) -> (r: Vec<MonthlySummary>)
    ensures
        r@.len() == v@.len(),
        months_newest_first(r@),
        r@.to_multiset() == v@.to_multiset(),
{
    broadcast use vstd::seq_lib::group_to_multiset_ensures;
    broadcast use vstd::multiset::group_multiset_axioms;

    let n = v.len();
    let mut out: Vec<MonthlySummary> = Vec::new();
    let mut i: usize = 0;
    proof {
        assert(v@.subrange(0, 0) =~= Seq::<MonthlySummary>::empty());
        assert(out@.to_multiset() =~= v@.subrange(0, 0).to_multiset());
    }
    while i < n
        invariant
            i <= n,
            n == v@.len(),
            out@.len() == i,
            months_newest_first(out@),
            out@.to_multiset() == v@.subrange(0, i as int).to_multiset(),
        decreases n - i,
    {
        let x = v[i];
        let m = out.len();
        let mut k: usize = 0;
        while k < m && month_order_at(&out[k], &x)
            invariant
                k <= m,
                m == out@.len(),
                forall|t: int| 0 <= t < k ==> month_order(out@[t], x),
            decreases m - k,
        {
            k = k + 1;
        }
        let ghost before = out@;
        out.insert(k, x);
        proof {
            let after = out@;
            assert(forall|t: int| 0 <= t < k ==> after[t] == before[t]);
            assert(after[k as int] == x);
            assert(forall|t: int| k < t < after.len() ==> after[t] == before[t - 1]);
            assert(k < before.len() ==> month_order(x, before[k as int]));
            assert forall|a: int, b: int|
                0 <= a < b < after.len() implies month_order(after[a], after[b]) by {
                if b == k {
                    assert(month_order(before[a], x));
                } else if a == k {
                    assert(month_order(x, before[k as int]));
                    if k < b - 1 {
                        assert(month_order(before[k as int], before[b - 1]));
                    }
                } else if a < k && k < b {
                    if a < b - 1 {
                        assert(month_order(before[a], before[b - 1]));
                    }
                }
            }
            vstd::seq_lib::to_multiset_insert(before, k as int, x);
            assert(after.to_multiset() =~= before.to_multiset().insert(x));
            vstd::seq_lib::to_multiset_build(v@.subrange(0, i as int), v@[i as int]);
            assert(v@.subrange(0, i + 1) =~= v@.subrange(0, i as int).push(v@[i as int]));
        }
        i = i + 1;
    }
    proof {
        assert(v@.subrange(0, n as int) =~= v@);
    }
    out
}

/// Whether `a` comes no later than `b` in the category report: the larger
/// total first.
pub open spec fn category_order(a: CategorySummary, b: CategorySummary) -> bool {
    a.total_cents >= b.total_cents
}

/// Whether the summaries stand largest total first.
pub open spec fn categories_largest_first(s: Seq<CategorySummary>) -> bool {
    forall|i: int, j: int| 0 <= i < j < s.len() ==> category_order(s[i], s[j])
}

/// Orders category summaries by total, largest first: the result is the same
/// collection of summaries, sorted.
pub fn sort_categories_largest_first(v: Vec<CategorySummary>) -> (r: Vec<CategorySummary>)
    ensures
        r@.len() == v@.len(),
        categories_largest_first(r@),
        r@.to_multiset() == v@.to_multiset(),
{
    broadcast use vstd::seq_lib::group_to_multiset_ensures;
    broadcast use vstd::multiset::group_multiset_axioms;

    let n = v.len();
    let mut rest = v;
    let mut out: Vec<CategorySummary> = Vec::new();
    let ghost whole = rest@;
    let mut i: usize = 0;
    proof {
        assert(rest@.subrange(0, 0) =~= Seq::<CategorySummary>::empty());
        assert(out@.to_multiset() =~= rest@.subrange(0, 0).to_multiset());
    }
    while i < n
        invariant
            i <= n,
            n == rest@.len(),
            rest@ == whole,
            out@.len() == i,
            categories_largest_first(out@),
            out@.to_multiset() == whole.subrange(0, i as int).to_multiset(),
        decreases n - i,
    {
        let x = rest[i].clone();
        proof {
            assert(x == whole[i as int]);
        }
        let m = out.len();
        let mut k: usize = 0;
        while k < m && out[k].total_cents >= x.total_cents
            invariant
                k <= m,
                m == out@.len(),
                forall|t: int| 0 <= t < k ==> category_order(out@[t], x),
            decreases m - k,
        {
            k = k + 1;
        }
        let ghost before = out@;
        let ghost xg = x;
        out.insert(k, x);
        proof {
            let after = out@;
            assert(forall|t: int| 0 <= t < k ==> after[t] == before[t]);
            assert(after[k as int] == xg);
            assert(forall|t: int| k < t < after.len() ==> after[t] == before[t - 1]);
            assert(k < before.len() ==> category_order(xg, before[k as int]));
            assert forall|a: int, b: int|
                0 <= a < b < after.len() implies category_order(after[a], after[b]) by {
                if b == k {
                    assert(category_order(before[a], xg));
                } else if a == k {
                    assert(category_order(xg, before[k as int]));
                    if k < b - 1 {
                        assert(category_order(before[k as int], before[b - 1]));
                    }
                } else if a < k && k < b {
                    if a < b - 1 {
                        assert(category_order(before[a], before[b - 1]));
                    }
                }
            }
            vstd::seq_lib::to_multiset_insert(before, k as int, xg);
            assert(after.to_multiset() =~= before.to_multiset().insert(xg));
            vstd::seq_lib::to_multiset_build(whole.subrange(0, i as int), whole[i as int]);
            assert(whole.subrange(0, i + 1) =~= whole.subrange(0, i as int).push(whole[i as int]));
        }
        i = i + 1;
    }
    proof {
        assert(whole.subrange(0, n as int) =~= whole);
    }
    out
}

/// The English name of a month, as the store's month formatting gives it.
pub fn month_name(month: u8) -> (r: String)
    requires
        1 <= month <= 12,
    ensures
        r@ == spec_month_name(month),
{
    match month {
        1 => "January".to_owned(),
        2 => "February".to_owned(),
        3 => "March".to_owned(),
        4 => "April".to_owned(),
        5 => "May".to_owned(),
        6 => "June".to_owned(),
        7 => "July".to_owned(),
        8 => "August".to_owned(),
        9 => "September".to_owned(),
        10 => "October".to_owned(),
        11 => "November".to_owned(),
        _ => "December".to_owned(),
    }
}

/// What `month_name` returns.
pub open spec fn spec_month_name(month: u8) -> Seq<char> {
    if month == 1 {
        "January"@
    } else if month == 2 {
        "February"@
    } else if month == 3 {
        "March"@
    } else if month == 4 {
        "April"@
    } else if month == 5 {
        "May"@
    } else if month == 6 {
        "June"@
    } else if month == 7 {
        "July"@
    } else if month == 8 {
        "August"@
    } else if month == 9 {
        "September"@
    } else if month == 10 {
        "October"@
    } else if month == 11 {
        "November"@
    } else {
        "December"@
    }
}

} // verus!
