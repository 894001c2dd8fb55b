//! The stored entities and the response shapes built from them.
//!
//! Rows live in the relational store; the library sees them as plain values.
//! Monetary amounts are integer cents (the store holds twelve-digit decimals
//! with two fraction digits, so an amount fits well under `2^40`); instants are
//! Unix seconds.

use vstd::prelude::*;
use crate::ids::Id;
use crate::time::Date;

verus! {

/// The largest storable amount, in cents: 9,999,999,999.99 in decimal form.
pub const MAX_AMOUNT_CENTS: u64 = 999_999_999_999;

/// The amounts the store accepts: positive and within the declared precision.
pub open spec fn valid_amount(cents: u64) -> bool {
    1 <= cents <= MAX_AMOUNT_CENTS
}

/// A user row.
#[derive(Debug)]
pub struct User {
    pub id: Id,
    pub email: String,
    /// The stored credential: a PHC string, opaque here, never sent out.
    pub password_hash: String,
    pub full_name: String,
    pub created_at: i64,
    pub updated_at: i64,
}

/// A category row.
#[derive(Debug)]
pub struct Category {
    pub id: Id,
    pub user_id: Id,
    pub name: String,
    pub color: Option<String>,
    pub icon: Option<String>,
    pub created_at: i64,
}

/// An expense row joined with its category's display fields.
#[derive(Debug)]
pub struct ExpenseWithCategory {
    pub id: Id,
    pub user_id: Id,
    pub category_id: Id,
    pub category_name: String,
    pub category_color: Option<String>,
    pub category_icon: Option<String>,
    pub amount_cents: u64,
    pub description: String,
    pub expense_date: Date,
    pub created_at: i64,
    pub updated_at: i64,
}

impl ExpenseWithCategory {
    /// The row invariant the store maintains: a real date and a storable amount.
    pub open spec fn wf(&self) -> bool {
        self.expense_date.wf() && valid_amount(self.amount_cents)
    }
}

/// A user as sent to clients: the user row without the stored credential. The
/// type has no hash field at all, so the credential cannot leak through it.
#[derive(Debug)]
pub struct UserResponse {
    pub id: Id,
    pub email: String,
    pub full_name: String,
    pub created_at: i64,
}

impl UserResponse {
    /// Strips a user row down to its client-visible fields, each kept as it
    /// was stored.
    pub fn of_user(user: &User) -> (r: UserResponse)
        ensures
            r.id@ == user.id@,
            r.email@ == user.email@,
            r.full_name@ == user.full_name@,
            r.created_at == user.created_at,
    {
        UserResponse {
            id: user.id.clone(),
            email: user.email.clone(),
            full_name: user.full_name.clone(),
            created_at: user.created_at,
        }
    }
}

/// What a successful registration or login returns: a fresh token and the
/// client-visible user.
#[derive(Debug)]
pub struct AuthResponse {
    pub token: String,
    pub user: UserResponse,
}


/// Clones an optional text field, preserving its value.
pub fn clone_opt_string(o: &Option<String>) -> (r: Option<String>)
    ensures
        r == *o,
{
    match o {
        Some(s) => Some(s.clone()),
        None => None,
    }
}

impl Clone for User {
    fn clone(&self) -> (r: User)
        ensures
            r == *self,
    {
        User {
            id: self.id.clone(),
            email: self.email.clone(),
            password_hash: self.password_hash.clone(),
            full_name: self.full_name.clone(),
            created_at: self.created_at,
            updated_at: self.updated_at,
        }
    }
}

impl Clone for Category {
    fn clone(&self) -> (r: Category)
        ensures
            r == *self,
    {
        Category {
            id: self.id.clone(),
            user_id: self.user_id.clone(),
            name: self.name.clone(),
            color: clone_opt_string(&self.color),
            icon: clone_opt_string(&self.icon),
            created_at: self.created_at,
        }
    }
}

impl Clone for ExpenseWithCategory {
    fn clone(&self) -> (r: ExpenseWithCategory)
        ensures
            r == *self,
    {
        ExpenseWithCategory {
            id: self.id.clone(),
            user_id: self.user_id.clone(),
            category_id: self.category_id.clone(),
            category_name: self.category_name.clone(),
            category_color: clone_opt_string(&self.category_color),
            category_icon: clone_opt_string(&self.category_icon),
            amount_cents: self.amount_cents,
            description: self.description.clone(),
            expense_date: self.expense_date,
            created_at: self.created_at,
            updated_at: self.updated_at,
        }
    }
}

impl Clone for UserResponse {
    fn clone(&self) -> (r: UserResponse)
        ensures
            r == *self,
    {
        UserResponse {
            id: self.id.clone(),
            email: self.email.clone(),
            full_name: self.full_name.clone(),
            created_at: self.created_at,
        }
    }
}

} // verus!
