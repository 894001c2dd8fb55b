//! Category handling: creation, update plans, deletion, and owned lookup.
//!
//! A category name is unique per user, never across users. Updates are carried
//! as a plan of fields to set, each bound as a parameter by the store layer —
//! no value is ever spliced into a statement. A category of another user is
//! reported exactly as an absent one.

use vstd::prelude::*;
use crate::errors::{AppError, AppResult};
use crate::ids::Id;
use crate::records::Category;
use crate::validate::{CreateCategory, UpdateCategory, create_category_valid, update_category_valid, validate_create_category, validate_update_category};

verus! {

/// Whether some category among `rows` of user `user_id` already carries
/// `name`, not counting the row identified by `exclude`.
pub open spec fn name_taken_in(
    rows: Seq<Category>,
    user_id: Seq<char>,
    name: Seq<char>,
    exclude: Option<Seq<char>>,
) -> bool {
    exists|i: int|
        0 <= i < rows.len() && rows[i].user_id@ == user_id && rows[i].name@ == name && (
        exclude matches Some(x) ==> rows[i].id@ != x)
}

/// The spec view of an optional identifier argument.
pub open spec fn opt_id_text(o: Option<&Id>) -> Option<Seq<char>> {
    match o {
        Some(id) => Some(id@),
        None => None,
    }
}

/// Decides name uniqueness over the given rows: true exactly when some row of
/// `user_id` other than `exclude` carries `name`.
pub fn category_name_taken(
    rows: &Vec<Category>,
    user_id: &Id,
    name: &String,
    exclude: Option<&Id>,
) -> (r: bool)
    ensures
        r == name_taken_in(rows@, user_id@, name@, opt_id_text(exclude)),
{
    let n = rows.len();
    let mut i: usize = 0;
    while i < n
        invariant
            i <= n,
            n == rows@.len(),
            !name_taken_in(rows@.subrange(0, i as int), user_id@, name@, opt_id_text(exclude)),
        decreases n - i,
    {
        let row = &rows[i];
        let same_owner = row.user_id == *user_id;
        let same_name = row.name == *name;
        let excluded = match exclude {
            Some(x) => row.id == *x,
            None => false,
        };
        if same_owner && same_name && !excluded {
            proof {
                assert(rows@.subrange(0, n as int) =~= rows@);
                assert(rows@[i as int].user_id@ == user_id@ && rows@[i as int].name@ == name@ && (
                opt_id_text(exclude) matches Some(x) ==> rows@[i as int].id@ != x));
            }
            return true;
        }
        proof {
            assert(forall|j: int|
                0 <= j < i + 1 ==> rows@.subrange(0, i + 1)[j] == rows@.subrange(0, i as int).push(
                    rows@[i as int],
                )[j]);
            assert(rows@.subrange(0, i + 1) =~= rows@.subrange(0, i as int).push(rows@[i as int]));
        }
        i = i + 1;
    }
    proof {
        assert(rows@.subrange(0, n as int) =~= rows@);
    }
    false
}

/// Another user's rows never occupy a name: extending the rows with a category
/// of a different owner leaves `name_taken_in` as it was, so the same name can
/// be created by each user independently.
pub proof fn lemma_name_scoped_per_user(
    rows: Seq<Category>,
    row: Category,
    user_id: Seq<char>,
    name: Seq<char>,
    exclude: Option<Seq<char>>,
)
    requires
        row.user_id@ != user_id,
    ensures
        name_taken_in(rows.push(row), user_id, name, exclude) == name_taken_in(
            rows,
            user_id,
            name,
            exclude,
        ),
{
    if name_taken_in(rows.push(row), user_id, name, exclude) {
        let i = choose|i: int|
            0 <= i < rows.push(row).len() && rows.push(row)[i].user_id@ == user_id && rows.push(
                row,
            )[i].name@ == name && (exclude matches Some(x) ==> rows.push(row)[i].id@ != x);
        assert(i < rows.len() && rows.push(row)[i] == rows[i]);
    }
    if name_taken_in(rows, user_id, name, exclude) {
        let i = choose|i: int|
            0 <= i < rows.len() && rows[i].user_id@ == user_id && rows[i].name@ == name && (
            exclude matches Some(x) ==> rows[i].id@ != x);
        assert(rows.push(row)[i] == rows[i]);
    }
}

/// Admits a category creation exactly when the payload is valid and the name
/// is still free for this user.
pub fn check_create_category(payload: &CreateCategory, name_exists: bool) -> (r: Result<
    (),
    AppError,
>)
    ensures
        r is Ok <==> create_category_valid(payload) && !name_exists,
        r matches Err(e) ==> e.is_validation(),
        create_category_valid(payload) && name_exists ==> (r matches Err(e)
            && e.spec_client_message() == "Category name already exists"@),
{
    match validate_create_category(payload) {
        Ok(_) => {
            if name_exists {
                Err(AppError::Validation("Category name already exists".to_owned()))
            } else {
                Ok(())
            }
        },
        Err(e) => Err(e),
    }
}

/// The fields a category update will set; every one present is handed to the
/// store as a bound parameter.
#[derive(Debug)]
pub struct CategoryUpdate {
    pub name: Option<String>,
    pub color: Option<String>,
    pub icon: Option<String>,
}

/// The spec view of an optional text field.
pub open spec fn opt_text(o: Option<String>) -> Option<Seq<char>> {
    match o {
        Some(s) => Some(s@),
        None => None,
    }
}

/// Plans a category update from the payload, the row's existence and the
/// uniqueness answer for the new name. The order of refusals is: invalid
/// payload, absent row, taken name, empty update; otherwise the plan carries
/// exactly the payload's fields.
pub fn plan_update_category(
    payload: &UpdateCategory,
    category_exists: bool,
    name_taken: bool,
) -> (r: Result<CategoryUpdate, AppError>)
    ensures
        r is Ok <==> update_category_valid(payload) && category_exists && !(payload.name is Some
            && name_taken) && (payload.name is Some || payload.color is Some
            || payload.icon is Some),
        r matches Ok(u) ==> opt_text(u.name) == opt_text(payload.name) && opt_text(u.color)
            == opt_text(payload.color) && opt_text(u.icon) == opt_text(payload.icon),
        !update_category_valid(payload) ==> (r matches Err(e) && e.is_validation()),
        update_category_valid(payload) && !category_exists ==> (r matches Err(e)
            && e matches AppError::NotFound(m) && m@ == "Category not found"@),
        update_category_valid(payload) && category_exists && payload.name is Some && name_taken ==> (
        r matches Err(e) && e.is_validation() && e.spec_client_message()
            == "Category name already exists"@),
        update_category_valid(payload) && category_exists && !(payload.name is Some && name_taken)
            && payload.name is None && payload.color is None && payload.icon is None ==> (
        r matches Err(e) && e.is_validation() && e.spec_client_message() == "No fields to update"@),
{
    if let Err(e) = validate_update_category(payload) {
        return Err(e);
    }
    if !category_exists {
        return Err(AppError::NotFound("Category not found".to_owned()));
    }
    if payload.name.is_some() && name_taken {
        return Err(AppError::Validation("Category name already exists".to_owned()));
    }
    if payload.name.is_none() && payload.color.is_none() && payload.icon.is_none() {
        return Err(AppError::Validation("No fields to update".to_owned()));
    }
    Ok(
        CategoryUpdate {
            name: payload.name.clone(),
            color: payload.color.clone(),
            icon: payload.icon.clone(),
        },
    )
}

/// Refuses to delete a category that still has expenses.
pub fn check_category_deletable(has_expenses: bool) -> (r: Result<(), AppError>)
    ensures
        r is Ok <==> !has_expenses,
        r matches Err(e) ==> e.is_validation() && e.spec_client_message()
            == "Cannot delete category with existing expenses"@,
{
    if has_expenses {
        Err(AppError::Validation("Cannot delete category with existing expenses".to_owned()))
    } else {
        Ok(())
    }
}

/// Reads the store's answer to a scoped delete: no row deleted means the
/// category was absent — or someone else's, which is reported identically.
pub fn check_delete_result(rows_affected: u64) -> (r: Result<(), AppError>)
    ensures
        r is Ok <==> rows_affected > 0,
        r matches Err(e) ==> (e matches AppError::NotFound(m) && m@ == "Category not found"@),
{
    if rows_affected == 0 {
        Err(AppError::NotFound("Category not found".to_owned()))
    } else {
        Ok(())
    }
}

/// What an owned lookup yields: the row when it exists and belongs to the
/// caller, nothing otherwise.
pub open spec fn category_lookup_outcome(row: Option<Category>, caller: Seq<char>) -> Option<
    Category,
> {
    match row {
        Some(c) => {
            if c.user_id@ == caller {
                Some(c)
            } else {
                None
            }
        },
        None => None,
    }
}

/// Resolves a category fetched by identifier for `caller`: the row exactly
/// when it is the caller's own, and the one not-found error otherwise —
/// whether the row was absent or another user's is not distinguishable.
pub fn find_category(row: Option<Category>, caller: &Id) -> (r: AppResult<Category>)
    ensures
        r matches Ok(c) ==> category_lookup_outcome(row, caller@) == Some(c),
        r is Err <==> category_lookup_outcome(row, caller@) is None,
        r matches Err(e) ==> (e matches AppError::NotFound(m) && m@ == "Category not found"@),
{
    match row {
        Some(c) => {
            if c.user_id == *caller {
                Ok(c)
            } else {
                Err(AppError::NotFound("Category not found".to_owned()))
            }
        },
        None => Err(AppError::NotFound("Category not found".to_owned())),
    }
}

/// A row of another user resolves exactly as an absent row: ownership
/// mismatches are indistinguishable from true absence.
pub proof fn lemma_foreign_category_reads_as_absent(row: Category, caller: Seq<char>)
    requires
        row.user_id@ != caller,
    ensures
        category_lookup_outcome(Some(row), caller) == category_lookup_outcome(None, caller),
{
}

} // verus!
