//! Request payloads and their field validation.
//!
//! Each payload is checked against its declared constraints before any work is
//! done; the outcome is exact, including which message the client sees first.
//! Lengths count characters, not bytes.

use vstd::prelude::*;
use validator::ValidateEmail;
use crate::errors::AppError;
use crate::ids::Id;
use crate::records::MAX_AMOUNT_CENTS;
use crate::time::Date;

verus! {

/// Whether `s` is an email address under the HTML5 grammar that the validator
/// crate implements.
pub uninterp spec fn spec_is_email(s: Seq<char>) -> bool;

/// Relies on validator::ValidateEmail::validate_email, the HTML5 email check:
/// a deterministic function of the string alone.
#[verifier::external_body]
fn check_email(s: &str) -> (r: bool)
    ensures
        r == spec_is_email(s@),
{
    s.validate_email()
}

/// A registration request.
#[derive(Debug)]
pub struct CreateUser {
    /// Must be an email address.
    pub email: String,
    /// Plain text; hashed before storage. At least eight characters.
    pub password: String,
    /// Must not be empty.
    pub full_name: String,
}

/// What registration demands of its payload.
pub open spec fn create_user_valid(p: &CreateUser) -> bool {
    spec_is_email(p.email@) && p.password@.len() >= 8 && p.full_name@.len() >= 1
}

/// Checks a registration payload, reporting the first offending field in
/// declaration order.
pub fn validate_create_user(p: &CreateUser) -> (r: Result<(), AppError>)
    ensures
        r is Ok <==> create_user_valid(p),
        r matches Err(e) ==> e.is_validation(),
        !spec_is_email(p.email@) ==> (r matches Err(e) && e.spec_client_message()
            == "Invalid email address"@),
        spec_is_email(p.email@) && p.password@.len() < 8 ==> (r matches Err(e)
            && e.spec_client_message() == "Password must be at least 8 characters"@),
        spec_is_email(p.email@) && p.password@.len() >= 8 && p.full_name@.len() == 0 ==> (r matches Err(
            e,
        ) && e.spec_client_message() == "Full name is required"@),
{
    if !check_email(p.email.as_str()) {
        Err(AppError::Validation("Invalid email address".to_owned()))
    } else if p.password.as_str().unicode_len() < 8 {
        Err(AppError::Validation("Password must be at least 8 characters".to_owned()))
    } else if p.full_name.as_str().unicode_len() < 1 {
        Err(AppError::Validation("Full name is required".to_owned()))
    } else {
        Ok(())
    }
}

/// A login request.
#[derive(Debug)]
pub struct LoginRequest {
    /// Must be an email address.
    pub email: String,
    /// Checked against the stored credential, never stored itself.
    pub password: String,
}

/// What login demands of its payload.
pub open spec fn login_request_valid(p: &LoginRequest) -> bool {
    spec_is_email(p.email@)
}

/// Checks a login payload.
pub fn validate_login_request(p: &LoginRequest) -> (r: Result<(), AppError>)
    ensures
        r is Ok <==> login_request_valid(p),
        r matches Err(e) ==> e.is_validation() && e.spec_client_message()
            == "Invalid email address"@,
{
    if !check_email(p.email.as_str()) {
        Err(AppError::Validation("Invalid email address".to_owned()))
    } else {
        Ok(())
    }
}

/// A request to create a category.
#[derive(Debug)]
pub struct CreateCategory {
    /// One to a hundred characters; unique per user, which is checked against
    /// the store separately.
    pub name: String,
    pub color: Option<String>,
    pub icon: Option<String>,
}

/// What category creation demands of its payload.
pub open spec fn create_category_valid(p: &CreateCategory) -> bool {
    1 <= p.name@.len() <= 100
}

/// Checks a category-creation payload.
pub fn validate_create_category(p: &CreateCategory) -> (r: Result<(), AppError>)
    ensures
        r is Ok <==> create_category_valid(p),
        r matches Err(e) ==> e.is_validation() && e.spec_client_message()
            == "Category name must be 1-100 characters"@,
{
    let n = p.name.as_str().unicode_len();
    if n < 1 || n > 100 {
        Err(AppError::Validation("Category name must be 1-100 characters".to_owned()))
    } else {
        Ok(())
    }
}

/// A request to update a category; absent fields stay as they are.
#[derive(Debug)]
pub struct UpdateCategory {
    pub name: Option<String>,
    pub color: Option<String>,
    pub icon: Option<String>,
}

/// What a category update demands of its payload.
pub open spec fn update_category_valid(p: &UpdateCategory) -> bool {
    p.name matches Some(n) ==> 1 <= n@.len() <= 100
}

/// Checks a category-update payload.
pub fn validate_update_category(p: &UpdateCategory) -> (r: Result<(), AppError>)
    ensures
        r is Ok <==> update_category_valid(p),
        r matches Err(e) ==> e.is_validation() && e.spec_client_message()
            == "Category name must be 1-100 characters"@,
{
    match &p.name {
        Some(name) => {
            let n = name.as_str().unicode_len();
            if n < 1 || n > 100 {
                Err(AppError::Validation("Category name must be 1-100 characters".to_owned()))
            } else {
                Ok(())
            }
        },
        None => Ok(()),
    }
}

/// A request to record an expense.
#[derive(Debug)]
pub struct CreateExpense {
    /// Must name a category of the caller, which is checked against the store
    /// separately.
    pub category_id: Id,
    /// In cents; positive and within the store's precision.
    pub amount_cents: i64,
    /// Must not be empty.
    pub description: String,
    pub expense_date: Date,
}

/// What recording an expense demands of its payload.
pub open spec fn create_expense_valid(p: &CreateExpense) -> bool {
    &&& 1 <= p.amount_cents <= MAX_AMOUNT_CENTS
    &&& p.description@.len() >= 1
    &&& p.expense_date.wf()
}

/// Checks an expense-creation payload: the amount first, then the description,
/// then the date.
pub fn validate_create_expense(p: &CreateExpense) -> (r: Result<(), AppError>)
    ensures
        r is Ok <==> create_expense_valid(p),
        r matches Err(e) ==> e.is_validation(),
        !(1 <= p.amount_cents <= MAX_AMOUNT_CENTS) ==> (r matches Err(e)
            && e.spec_client_message() == "Amount must be greater than 0"@),
{
    if p.amount_cents < 1 || p.amount_cents > MAX_AMOUNT_CENTS as i64 {
        Err(AppError::Validation("Amount must be greater than 0".to_owned()))
    } else if p.description.as_str().unicode_len() < 1 {
        Err(AppError::Validation("Description is required".to_owned()))
    } else if !p.expense_date.is_wf() {
        Err(AppError::Validation("Invalid expense date".to_owned()))
    } else {
        Ok(())
    }
}

/// A request to update an expense; absent fields stay as they are.
#[derive(Debug)]
pub struct UpdateExpense {
    pub category_id: Option<Id>,
    pub amount_cents: Option<i64>,
    pub description: Option<String>,
    pub expense_date: Option<Date>,
}

/// What an expense update demands of its payload.
pub open spec fn update_expense_valid(p: &UpdateExpense) -> bool {
    &&& (p.amount_cents matches Some(a) ==> 1 <= a <= MAX_AMOUNT_CENTS)
    &&& (p.expense_date matches Some(d) ==> d.wf())
}

/// Checks an expense-update payload.
pub fn validate_update_expense(p: &UpdateExpense) -> (r: Result<(), AppError>)
    ensures
        r is Ok <==> update_expense_valid(p),
        r matches Err(e) ==> e.is_validation(),
{
    match &p.amount_cents {
        Some(a) => {
            if *a < 1 || *a > MAX_AMOUNT_CENTS as i64 {
                return Err(AppError::Validation("Amount must be greater than 0".to_owned()));
            }
        },
        None => {},
    }
    match &p.expense_date {
        Some(d) => {
            if !d.is_wf() {
                return Err(AppError::Validation("Invalid expense date".to_owned()));
            }
        },
        None => {},
    }
    Ok(())
}

/// The filters a listing of expenses may carry.
#[derive(Debug)]
pub struct ExpenseQuery {
    /// Keep expenses on or after this date.
    pub start_date: Option<Date>,
    /// Keep expenses on or before this date.
    pub end_date: Option<Date>,
    /// Keep expenses of this category.
    pub category_id: Option<Id>,
}

} // verus!
