//! Expense handling: creation, update plans, owned lookup, deletion, and
//! filtered listing.
//!
//! Every read and write is scoped to the authenticated owner; an expense of
//! another user is reported exactly as an absent one. Updates travel as a plan
//! of fields to set, each bound as a parameter by the store layer.

use vstd::prelude::*;
use crate::errors::{AppError, AppResult};
use crate::ids::Id;
use crate::records::ExpenseWithCategory;
use crate::validate::{CreateExpense, ExpenseQuery, UpdateExpense, create_expense_valid, update_expense_valid, validate_create_expense, validate_update_expense};

verus! {

/// Admits an expense creation exactly when the payload is valid and the named
/// category exists and is the caller's; a foreign or absent category is one
/// and the same not-found answer.
pub fn check_create_expense(payload: &CreateExpense, category_exists: bool) -> (r: Result<
    (),
    AppError,
>)
    ensures
        r is Ok <==> create_expense_valid(payload) && category_exists,
        !create_expense_valid(payload) ==> (r matches Err(e) && e.is_validation()),
        create_expense_valid(payload) && !category_exists ==> (r matches Err(e)
            && e matches AppError::NotFound(m) && m@ == "Category not found"@),
{
    match validate_create_expense(payload) {
        Ok(_) => {
            if !category_exists {
                Err(AppError::NotFound("Category not found".to_owned()))
            } else {
                Ok(())
            }
        },
        Err(e) => Err(e),
    }
}

/// The fields an expense update will set; every one present is handed to the
/// store as a bound parameter. An empty plan still touches the row's
/// updated-at stamp, as the store layer does unconditionally.
#[derive(Debug)]
pub struct ExpenseUpdate {
    pub category_id: Option<Id>,
    pub amount_cents: Option<i64>,
    pub description: Option<String>,
    pub expense_date: Option<crate::time::Date>,
}

/// The spec view of an optional identifier field.
pub open spec fn opt_id_view(o: Option<Id>) -> Option<Seq<char>> {
    match o {
        Some(id) => Some(id@),
        None => None,
    }
}

/// Plans an expense update from the payload, the row's existence, and — when
/// the payload names a new category — whether that category exists for the
/// caller. The order of refusals is: invalid payload, absent expense, absent
/// category; otherwise the plan carries exactly the payload's fields, an empty
/// payload included.
pub fn plan_update_expense(
    payload: &UpdateExpense,
    expense_exists: bool,
    category_exists: bool,
) -> (r: Result<ExpenseUpdate, AppError>)
    ensures
        r is Ok <==> update_expense_valid(payload) && expense_exists && (
        payload.category_id is Some ==> category_exists),
        r matches Ok(u) ==> opt_id_view(u.category_id) == opt_id_view(payload.category_id)
            && u.amount_cents == payload.amount_cents && crate::categories::opt_text(u.description)
            == crate::categories::opt_text(payload.description) && u.expense_date
            == payload.expense_date,
        !update_expense_valid(payload) ==> (r matches Err(e) && e.is_validation()),
        update_expense_valid(payload) && !expense_exists ==> (r matches Err(e)
            && e matches AppError::NotFound(m) && m@ == "Expense not found"@),
        update_expense_valid(payload) && expense_exists && payload.category_id is Some
            && !category_exists ==> (r matches Err(e) && e matches AppError::NotFound(m) && m@
            == "Category not found"@),
{
    if let Err(e) = validate_update_expense(payload) {
        return Err(e);
    }
    if !expense_exists {
        return Err(AppError::NotFound("Expense not found".to_owned()));
    }
    if payload.category_id.is_some() && !category_exists {
        return Err(AppError::NotFound("Category not found".to_owned()));
    }
    Ok(
        ExpenseUpdate {
            category_id: match &payload.category_id {
                Some(id) => Some(id.clone()),
                None => None,
            },
            amount_cents: payload.amount_cents,
            description: crate::records::clone_opt_string(&payload.description),
            expense_date: payload.expense_date,
        },
    )
}

/// What an owned lookup yields: the row when it exists and belongs to the
/// caller, nothing otherwise.
pub open spec fn expense_lookup_outcome(row: Option<ExpenseWithCategory>, caller: Seq<char>) -> Option<
    ExpenseWithCategory,
> {
    match row {
        Some(e) => {
            if e.user_id@ == caller {
                Some(e)
            } else {
                None
            }
        },
        None => None,
    }
}

/// Resolves an expense fetched by identifier for `caller`: the row exactly
/// when it is the caller's own, and the one not-found error otherwise —
/// whether the row was absent or another user's is not distinguishable.
pub fn find_expense(row: Option<ExpenseWithCategory>, caller: &Id) -> (r: AppResult<
    ExpenseWithCategory,
>)
    ensures
        r matches Ok(e) ==> expense_lookup_outcome(row, caller@) == Some(e),
        r is Err <==> expense_lookup_outcome(row, caller@) is None,
        r matches Err(e) ==> (e matches AppError::NotFound(m) && m@ == "Expense not found"@),
{
    match row {
        Some(e) => {
            if e.user_id == *caller {
                Ok(e)
            } else {
                Err(AppError::NotFound("Expense not found".to_owned()))
            }
        },
        None => Err(AppError::NotFound("Expense not found".to_owned())),
    }
}

/// A row of another user resolves exactly as an absent row: ownership
/// mismatches are indistinguishable from true absence.
pub proof fn lemma_foreign_expense_reads_as_absent(row: ExpenseWithCategory, caller: Seq<char>)
    requires
        row.user_id@ != caller,
    ensures
        expense_lookup_outcome(Some(row), caller) == expense_lookup_outcome(None, caller),
{
}

/// Reads the store's answer to a scoped delete: no row deleted means the
/// expense was absent — or someone else's, which is reported identically.
pub fn check_expense_delete_result(rows_affected: u64) -> (r: Result<(), AppError>)
    ensures
        r is Ok <==> rows_affected > 0,
        r matches Err(e) ==> (e matches AppError::NotFound(m) && m@ == "Expense not found"@),
{
    if rows_affected == 0 {
        Err(AppError::NotFound("Expense not found".to_owned()))
    } else {
        Ok(())
    }
}

/// Whether an expense passes the listing filters: on or after the start date,
/// on or before the end date, and of the named category, each only when given.
pub open spec fn expense_matches(e: ExpenseWithCategory, q: &ExpenseQuery) -> bool {
    &&& (q.start_date matches Some(d) ==> e.expense_date.spec_on_or_after(d))
    &&& (q.end_date matches Some(d) ==> d.spec_on_or_after(e.expense_date))
    &&& (q.category_id matches Some(c) ==> e.category_id@ == c@)
}

/// Decides the listing filters for one expense.
pub fn expense_matches_query(e: &ExpenseWithCategory, q: &ExpenseQuery) -> (r: bool)
    ensures
        r == expense_matches(*e, q),
{
    let start_ok = match &q.start_date {
        Some(d) => e.expense_date.on_or_after(d),
        None => true,
    };
    let end_ok = match &q.end_date {
        Some(d) => d.on_or_after(&e.expense_date),
        None => true,
    };
    let cat_ok = match &q.category_id {
        Some(c) => e.category_id == *c,
        None => true,
    };
    start_ok && end_ok && cat_ok
}

/// Lists exactly the expenses that pass the filters, in their stored order.
pub fn filter_expenses(rows: Vec<ExpenseWithCategory>, q: &ExpenseQuery) -> (r: Vec<
    ExpenseWithCategory,
>)
    ensures
        r@ == rows@.filter(|e: ExpenseWithCategory| expense_matches(e, q)),
{
    let ghost pred = |e: ExpenseWithCategory| expense_matches(e, q);
    let n = rows.len();
    let mut out: Vec<ExpenseWithCategory> = Vec::new();
    let mut i: usize = 0;
    proof {
        reveal_with_fuel(Seq::filter, 1);
        assert(rows@.subrange(0, 0).filter(pred) =~= Seq::<ExpenseWithCategory>::empty());
    }
    while i < n
        invariant
            i <= n,
            n == rows@.len(),
            out@ == rows@.subrange(0, i as int).filter(
                |e: ExpenseWithCategory| expense_matches(e, q),
            ),
        decreases n - i,
    {
        let keep = expense_matches_query(&rows[i], q);
        proof {
            reveal(Seq::filter);
            let prefix = rows@.subrange(0, i as int);
            let next = rows@.subrange(0, i + 1);
            assert(next =~= prefix.push(rows@[i as int]));
            assert(next.drop_last() =~= prefix);
            assert(next.last() == rows@[i as int]);
        }
        if keep {
            out.push(rows[i].clone());
        }
        i = i + 1;
    }
    proof {
        assert(rows@.subrange(0, n as int) =~= rows@);
    }
    out
}

} // verus!
