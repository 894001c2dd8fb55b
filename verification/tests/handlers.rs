//! The handler decision logic: validation, account flows, ownership scoping,
//! update plans, filters and summaries, driven over an in-test store of rows.

use expense_tracker::accounts::{
    check_login, check_registration, current_user_response, issue_auth_response,
    registration_credential,
};
use expense_tracker::categories::{
    category_name_taken, check_category_deletable, check_create_category, check_delete_result,
    find_category, plan_update_category,
};
use expense_tracker::errors::AppError;
use expense_tracker::expenses::{
    check_create_expense, check_expense_delete_result, expense_matches_query, filter_expenses,
    find_expense, plan_update_expense,
};
use expense_tracker::auth::authenticate;
use expense_tracker::ids::Id;
use expense_tracker::records::{Category, ExpenseWithCategory, User};
use expense_tracker::summaries::{
    category_summaries, month_name, monthly_summaries, sort_categories_largest_first,
    sort_months_newest_first,
};
use expense_tracker::time::{days_in_month, is_leap_year, Date};
use expense_tracker::token::TokenError;
use expense_tracker::validate::{
    validate_create_category, validate_create_expense, validate_create_user,
    validate_update_category, validate_update_expense, CreateCategory, CreateExpense, CreateUser,
    ExpenseQuery, LoginRequest, UpdateCategory, UpdateExpense,
};

const SECRET: &str = "an-adequately-long-test-secret-0123456789";
const NOW: i64 = 1_700_000_000;
const ALICE: &str = "11111111-1111-4111-8111-111111111111";
const BOB: &str = "22222222-2222-4222-8222-222222222222";
const CAT_FOOD: &str = "33333333-3333-4333-8333-333333333333";
const CAT_TRAVEL: &str = "44444444-4444-4444-8444-444444444444";
const EXP_ONE: &str = "55555555-5555-4555-8555-555555555555";
const EXP_TWO: &str = "66666666-6666-4666-8666-666666666666";
const EXP_THREE: &str = "77777777-7777-4777-8777-777777777777";

fn id(text: &str) -> Id {
    Id::parse(text).unwrap()
}

fn date(y: i32, m: u8, d: u8) -> Date {
    Date::new(y, m, d).unwrap()
}

fn alice_row() -> User {
    User {
        id: id(ALICE),
        email: "a@b.com".to_owned(),
        password_hash: registration_credential(&CreateUser {
            email: "a@b.com".to_owned(),
            password: "longenough1".to_owned(),
            full_name: "A B".to_owned(),
        })
        .unwrap(),
        full_name: "A B".to_owned(),
        created_at: NOW - 100,
        updated_at: NOW - 100,
    }
}

fn food_category(owner: &str) -> Category {
    Category {
        id: id(CAT_FOOD),
        user_id: id(owner),
        name: "Food".to_owned(),
        color: Some("#FF6B6B".to_owned()),
        icon: None,
        created_at: NOW - 50,
    }
}

fn expense(eid: &str, owner: &str, cat: &str, cents: u64, day: Date) -> ExpenseWithCategory {
    ExpenseWithCategory {
        id: id(eid),
        user_id: id(owner),
        category_id: id(cat),
        category_name: "Food".to_owned(),
        category_color: None,
        category_icon: None,
        amount_cents: cents,
        description: "something".to_owned(),
        expense_date: day,
        created_at: NOW - 10,
        updated_at: NOW - 10,
    }
}

#[test]
fn register_then_current_user_returns_same_email() {
    let payload = CreateUser {
        email: "a@b.com".to_owned(),
        password: "longenough1".to_owned(),
        full_name: "A B".to_owned(),
    };
    assert!(validate_create_user(&payload).is_ok());
    assert!(check_registration(&payload, false).is_ok());
    let row = alice_row();
    let response = issue_auth_response(&row, SECRET, 24, NOW).unwrap();
    assert_eq!(response.user.email, "a@b.com");
    assert_eq!(response.user.full_name, "A B");
    let header = format!("Bearer {}", response.token);
    let auth = authenticate(Some(&header), Some(SECRET), NOW + 5).unwrap();
    assert_eq!(auth.user_id, row.id);
    let me = current_user_response(Some(&row)).unwrap();
    assert_eq!(me.email, "a@b.com");
}

#[test]
fn register_rejects_taken_email() {
    let payload = CreateUser {
        email: "a@b.com".to_owned(),
        password: "longenough1".to_owned(),
        full_name: "A B".to_owned(),
    };
    let err = check_registration(&payload, true).unwrap_err();
    assert_eq!(err.status_code(), 400);
    assert_eq!(err.client_message(), "Email already registered");
}

#[test]
fn registration_validation_messages() {
    let bad_email = CreateUser {
        email: "not-an-email".to_owned(),
        password: "longenough1".to_owned(),
        full_name: "A B".to_owned(),
    };
    let err = validate_create_user(&bad_email).unwrap_err();
    assert_eq!(err.client_message(), "Invalid email address");
    let short_password = CreateUser {
        email: "a@b.com".to_owned(),
        password: "short".to_owned(),
        full_name: "A B".to_owned(),
    };
    let err = validate_create_user(&short_password).unwrap_err();
    assert_eq!(err.client_message(), "Password must be at least 8 characters");
    let eight = CreateUser {
        email: "a@b.com".to_owned(),
        password: "12345678".to_owned(),
        full_name: "A B".to_owned(),
    };
    assert!(validate_create_user(&eight).is_ok());
    let no_name = CreateUser {
        email: "a@b.com".to_owned(),
        password: "longenough1".to_owned(),
        full_name: "".to_owned(),
    };
    let err = validate_create_user(&no_name).unwrap_err();
    assert_eq!(err.client_message(), "Full name is required");
}

#[test]
fn login_failures_are_indistinguishable() {
    let row = alice_row();
    let wrong_password = LoginRequest {
        email: "a@b.com".to_owned(),
        password: "not-the-password".to_owned(),
    };
    let e1 = check_login(&wrong_password, Some(&row)).unwrap_err();
    let unknown_account = LoginRequest {
        email: "nobody@b.com".to_owned(),
        password: "longenough1".to_owned(),
    };
    let e2 = check_login(&unknown_account, None).unwrap_err();
    assert_eq!(e1.status_code(), 401);
    assert_eq!(e2.status_code(), 401);
    assert_eq!(e1.client_message(), e2.client_message());
    assert_eq!(e1.client_message(), "Invalid credentials");
}

#[test]
fn login_with_right_password_succeeds() {
    let row = alice_row();
    let request = LoginRequest {
        email: "a@b.com".to_owned(),
        password: "longenough1".to_owned(),
    };
    assert!(check_login(&request, Some(&row)).is_ok());
}

#[test]
fn duplicate_category_name_per_user_only() {
    let rows = vec![food_category(ALICE)];
    let taken_for_alice = category_name_taken(&rows, &id(ALICE), &"Food".to_owned(), None);
    assert!(taken_for_alice);
    let taken_for_bob = category_name_taken(&rows, &id(BOB), &"Food".to_owned(), None);
    assert!(!taken_for_bob);
    let payload = CreateCategory { name: "Food".to_owned(), color: None, icon: None };
    let err = check_create_category(&payload, taken_for_alice).unwrap_err();
    assert_eq!(err.status_code(), 400);
    assert_eq!(err.client_message(), "Category name already exists");
    assert!(check_create_category(&payload, taken_for_bob).is_ok());
}

#[test]
fn name_taken_ignores_excluded_row() {
    let rows = vec![food_category(ALICE)];
    assert!(!category_name_taken(&rows, &id(ALICE), &"Food".to_owned(), Some(&id(CAT_FOOD))));
    assert!(category_name_taken(&rows, &id(ALICE), &"Food".to_owned(), Some(&id(CAT_TRAVEL))));
}

#[test]
fn category_name_length_bounds() {
    let ok = CreateCategory { name: "x".repeat(100), color: None, icon: None };
    assert!(validate_create_category(&ok).is_ok());
    let too_long = CreateCategory { name: "x".repeat(101), color: None, icon: None };
    let err = validate_create_category(&too_long).unwrap_err();
    assert_eq!(err.client_message(), "Category name must be 1-100 characters");
    let empty = CreateCategory { name: String::new(), color: None, icon: None };
    assert!(validate_create_category(&empty).is_err());
}

#[test]
fn category_update_plan_paths() {
    let empty = UpdateCategory { name: None, color: None, icon: None };
    assert!(validate_update_category(&empty).is_ok());
    let err = plan_update_category(&empty, true, false).unwrap_err();
    assert_eq!(err.client_message(), "No fields to update");
    let rename = UpdateCategory { name: Some("Groceries".to_owned()), color: None, icon: None };
    let err = plan_update_category(&rename, false, false).unwrap_err();
    assert_eq!(err.status_code(), 404);
    assert_eq!(err.client_message(), "Category not found");
    let err = plan_update_category(&rename, true, true).unwrap_err();
    assert_eq!(err.client_message(), "Category name already exists");
    let plan = plan_update_category(&rename, true, false).unwrap();
    assert_eq!(plan.name.as_deref(), Some("Groceries"));
    assert!(plan.color.is_none() && plan.icon.is_none());
}

#[test]
fn category_delete_paths() {
    let err = check_category_deletable(true).unwrap_err();
    assert_eq!(err.client_message(), "Cannot delete category with existing expenses");
    assert!(check_category_deletable(false).is_ok());
    let err = check_delete_result(0).unwrap_err();
    assert_eq!(err.status_code(), 404);
    assert!(check_delete_result(1).is_ok());
}

#[test]
fn foreign_category_reads_as_absent() {
    let bobs = Category { user_id: id(BOB), ..food_category(BOB) };
    let foreign = find_category(Some(bobs), &id(ALICE)).unwrap_err();
    let absent = find_category(None, &id(ALICE)).unwrap_err();
    assert_eq!(foreign.status_code(), 404);
    assert_eq!(absent.status_code(), 404);
    assert_eq!(foreign.client_message(), absent.client_message());
    let own = find_category(Some(food_category(ALICE)), &id(ALICE)).unwrap();
    assert_eq!(own.name, "Food");
}

#[test]
fn foreign_expense_reads_as_absent_not_forbidden() {
    let bobs = expense(EXP_ONE, BOB, CAT_FOOD, 4250, date(2024, 1, 15));
    let foreign = find_expense(Some(bobs), &id(ALICE)).unwrap_err();
    let absent = find_expense(None, &id(ALICE)).unwrap_err();
    assert_eq!(foreign.status_code(), 404);
    assert_ne!(foreign.status_code(), 403);
    assert_eq!(absent.status_code(), 404);
    assert_eq!(foreign.client_message(), absent.client_message());
    assert_eq!(foreign.client_message(), "Expense not found");
    let own = find_expense(Some(expense(EXP_ONE, ALICE, CAT_FOOD, 4250, date(2024, 1, 15))), &id(ALICE))
        .unwrap();
    assert_eq!(own.amount_cents, 4250);
}

#[test]
fn expense_creation_checks() {
    let ok = CreateExpense {
        category_id: id(CAT_FOOD),
        amount_cents: 4250,
        description: "Lunch at restaurant".to_owned(),
        expense_date: date(2024, 1, 15),
    };
    assert!(validate_create_expense(&ok).is_ok());
    assert!(check_create_expense(&ok, true).is_ok());
    let err = check_create_expense(&ok, false).unwrap_err();
    assert_eq!(err.status_code(), 404);
    assert_eq!(err.client_message(), "Category not found");
    let zero = CreateExpense { amount_cents: 0, ..expense_payload() };
    let err = validate_create_expense(&zero).unwrap_err();
    assert_eq!(err.client_message(), "Amount must be greater than 0");
    let negative = CreateExpense { amount_cents: -5, ..expense_payload() };
    assert!(validate_create_expense(&negative).is_err());
    let too_big = CreateExpense { amount_cents: 1_000_000_000_000, ..expense_payload() };
    assert!(validate_create_expense(&too_big).is_err());
    let max = CreateExpense { amount_cents: 999_999_999_999, ..expense_payload() };
    assert!(validate_create_expense(&max).is_ok());
    let blank = CreateExpense { description: String::new(), ..expense_payload() };
    let err = validate_create_expense(&blank).unwrap_err();
    assert_eq!(err.client_message(), "Description is required");
}

fn expense_payload() -> CreateExpense {
    CreateExpense {
        category_id: id(CAT_FOOD),
        amount_cents: 4250,
        description: "Lunch at restaurant".to_owned(),
        expense_date: date(2024, 1, 15),
    }
}

#[test]
fn expense_update_plan_paths() {
    let empty = UpdateExpense {
        category_id: None,
        amount_cents: None,
        description: None,
        expense_date: None,
    };
    assert!(validate_update_expense(&empty).is_ok());
    let plan = plan_update_expense(&empty, true, false).unwrap();
    assert!(plan.category_id.is_none() && plan.amount_cents.is_none());
    let err = plan_update_expense(&empty, false, false).unwrap_err();
    assert_eq!(err.client_message(), "Expense not found");
    let recategorize = UpdateExpense {
        category_id: Some(id(CAT_TRAVEL)),
        amount_cents: Some(4500),
        description: None,
        expense_date: None,
    };
    let err = plan_update_expense(&recategorize, true, false).unwrap_err();
    assert_eq!(err.client_message(), "Category not found");
    let plan = plan_update_expense(&recategorize, true, true).unwrap();
    assert_eq!(plan.category_id.unwrap(), id(CAT_TRAVEL));
    assert_eq!(plan.amount_cents, Some(4500));
    let bad_amount = UpdateExpense {
        category_id: None,
        amount_cents: Some(0),
        description: None,
        expense_date: None,
    };
    assert!(plan_update_expense(&bad_amount, true, true).is_err());
    assert!(check_expense_delete_result(0).is_err());
    assert!(check_expense_delete_result(2).is_ok());
}

#[test]
fn expense_filters_apply_exactly() {
    let rows = vec![
        expense(EXP_ONE, ALICE, CAT_FOOD, 1000, date(2024, 1, 10)),
        expense(EXP_TWO, ALICE, CAT_TRAVEL, 2000, date(2024, 1, 20)),
        expense(EXP_THREE, ALICE, CAT_FOOD, 3000, date(2024, 2, 5)),
    ];
    let unfiltered = ExpenseQuery { start_date: None, end_date: None, category_id: None };
    assert_eq!(filter_expenses(clone_rows(&rows), &unfiltered).len(), 3);
    let january = ExpenseQuery {
        start_date: Some(date(2024, 1, 1)),
        end_date: Some(date(2024, 1, 31)),
        category_id: None,
    };
    let kept = filter_expenses(clone_rows(&rows), &january);
    assert_eq!(kept.len(), 2);
    assert_eq!(kept[0].id, id(EXP_ONE));
    assert_eq!(kept[1].id, id(EXP_TWO));
    let food = ExpenseQuery { start_date: None, end_date: None, category_id: Some(id(CAT_FOOD)) };
    let kept = filter_expenses(clone_rows(&rows), &food);
    assert_eq!(kept.len(), 2);
    assert_eq!(kept[0].id, id(EXP_ONE));
    assert_eq!(kept[1].id, id(EXP_THREE));
    let food_in_january = ExpenseQuery {
        start_date: Some(date(2024, 1, 1)),
        end_date: Some(date(2024, 1, 31)),
        category_id: Some(id(CAT_FOOD)),
    };
    let kept = filter_expenses(clone_rows(&rows), &food_in_january);
    assert_eq!(kept.len(), 1);
    assert_eq!(kept[0].id, id(EXP_ONE));
    assert!(expense_matches_query(&rows[0], &food_in_january));
    assert!(!expense_matches_query(&rows[1], &food_in_january));
}

fn clone_rows(rows: &Vec<ExpenseWithCategory>) -> Vec<ExpenseWithCategory> {
    rows.iter().cloned().collect()
}

#[test]
fn monthly_summaries_group_and_sum_exactly() {
    let rows = vec![
        expense(EXP_ONE, ALICE, CAT_FOOD, 1000, date(2024, 1, 10)),
        expense(EXP_TWO, ALICE, CAT_TRAVEL, 2000, date(2024, 1, 20)),
        expense(EXP_THREE, ALICE, CAT_FOOD, 3000, date(2024, 2, 5)),
    ];
    let summaries = monthly_summaries(&rows);
    assert_eq!(summaries.len(), 2);
    let january = summaries.iter().find(|s| s.month == 1).unwrap();
    assert_eq!(january.year, 2024);
    assert_eq!(january.total_cents, 3000);
    assert_eq!(january.expense_count, 2);
    let february = summaries.iter().find(|s| s.month == 2).unwrap();
    assert_eq!(february.total_cents, 3000);
    assert_eq!(february.expense_count, 1);
    assert!(monthly_summaries(&Vec::new()).is_empty());
}

#[test]
fn category_summaries_cover_every_category() {
    let categories = vec![food_category(ALICE), Category {
        id: id(CAT_TRAVEL),
        user_id: id(ALICE),
        name: "Travel".to_owned(),
        color: None,
        icon: Some("icon-plane".to_owned()),
        created_at: NOW - 40,
    }];
    let rows = vec![
        expense(EXP_ONE, ALICE, CAT_FOOD, 1000, date(2024, 1, 10)),
        expense(EXP_TWO, ALICE, CAT_FOOD, 2500, date(2024, 1, 20)),
        expense(EXP_THREE, ALICE, CAT_FOOD, 9000, date(2023, 12, 28)),
    ];
    let from = date(2024, 1, 10).month_start();
    assert_eq!(from, date(2024, 1, 1));
    let summaries = category_summaries(&categories, &rows, from);
    assert_eq!(summaries.len(), 2);
    assert_eq!(summaries[0].category_name, "Food");
    assert_eq!(summaries[0].total_cents, 3500);
    assert_eq!(summaries[0].expense_count, 2);
    assert_eq!(summaries[1].category_name, "Travel");
    assert_eq!(summaries[1].total_cents, 0);
    assert_eq!(summaries[1].expense_count, 0);
}

#[test]
fn month_names_match_calendar() {
    assert_eq!(month_name(1), "January");
    assert_eq!(month_name(6), "June");
    assert_eq!(month_name(12), "December");
}

#[test]
fn calendar_rules() {
    assert!(is_leap_year(2024));
    assert!(!is_leap_year(2023));
    assert!(!is_leap_year(1900));
    assert!(is_leap_year(2000));
    assert_eq!(days_in_month(2024, 2), 29);
    assert_eq!(days_in_month(2023, 2), 28);
    assert_eq!(days_in_month(2024, 4), 30);
    assert_eq!(days_in_month(2024, 12), 31);
    assert!(Date::new(2024, 2, 29).is_some());
    assert!(Date::new(2023, 2, 29).is_none());
    assert!(Date::new(2024, 13, 1).is_none());
    assert!(Date::new(2024, 0, 1).is_none());
    assert!(Date::new(2024, 6, 31).is_none());
    assert!(date(2024, 1, 15).on_or_after(&date(2024, 1, 15)));
    assert!(date(2024, 2, 1).on_or_after(&date(2024, 1, 31)));
    assert!(!date(2023, 12, 31).on_or_after(&date(2024, 1, 1)));
}

#[test]
fn error_mapping_matches_status_codes() {
    assert_eq!(AppError::Database("boom".to_owned()).status_code(), 500);
    assert_eq!(AppError::Database("boom".to_owned()).client_message(), "Database error occurred");
    assert_eq!(AppError::Unauthorized.status_code(), 401);
    assert_eq!(AppError::Unauthorized.client_message(), "Unauthorized");
    assert_eq!(AppError::NotFound("Expense not found".to_owned()).status_code(), 404);
    assert_eq!(AppError::Validation("bad".to_owned()).status_code(), 400);
    assert_eq!(AppError::PasswordHash.status_code(), 500);
    assert_eq!(AppError::PasswordHash.client_message(), "Authentication processing error");
    assert_eq!(AppError::Jwt(TokenError::Malformed).status_code(), 401);
    assert_eq!(AppError::Jwt(TokenError::Malformed).client_message(), "Invalid token");
}

#[test]
fn monthly_report_sorts_newest_first() {
    let rows = vec![
        expense(EXP_ONE, ALICE, CAT_FOOD, 1000, date(2023, 12, 10)),
        expense(EXP_TWO, ALICE, CAT_TRAVEL, 2000, date(2024, 2, 20)),
        expense(EXP_THREE, ALICE, CAT_FOOD, 3000, date(2024, 1, 5)),
    ];
    let sorted = sort_months_newest_first(monthly_summaries(&rows));
    let keys: Vec<(i32, u8)> = sorted.iter().map(|s| (s.year, s.month)).collect();
    assert_eq!(keys, vec![(2024, 2), (2024, 1), (2023, 12)]);
}

#[test]
fn category_report_sorts_largest_total_first() {
    let categories = vec![
        food_category(ALICE),
        Category {
            id: id(CAT_TRAVEL),
            user_id: id(ALICE),
            name: "Travel".to_owned(),
            color: None,
            icon: None,
            created_at: NOW - 40,
        },
    ];
    let rows = vec![
        expense(EXP_ONE, ALICE, CAT_FOOD, 1000, date(2024, 1, 10)),
        expense(EXP_TWO, ALICE, CAT_TRAVEL, 9000, date(2024, 1, 20)),
    ];
    let sorted =
        sort_categories_largest_first(category_summaries(&categories, &rows, date(2024, 1, 1)));
    assert_eq!(sorted[0].category_name, "Travel");
    assert_eq!(sorted[0].total_cents, 9000);
    assert_eq!(sorted[1].category_name, "Food");
    assert_eq!(sorted[1].total_cents, 1000);
}
