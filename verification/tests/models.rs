//! The record constructors keep their parts unchanged.

use shishutsukan::{Expense, Genre};

#[test]
fn test_expense_model() {
    let expense = Expense::new("2025-01-15".to_string(), "食費".to_string(), 1000);
    assert_eq!(expense.date, "2025-01-15");
    assert_eq!(expense.genre, "食費");
    assert_eq!(expense.amount, 1000);
}

#[test]
fn test_genre_model() {
    let genre = Genre::new("娯楽費".to_string());
    assert_eq!(genre.name, "娯楽費");
}

#[test]
fn test_expense_creation() {
    let expense = Expense::new("2025-01-15".to_string(), "食費".to_string(), 1000);
    assert_eq!(expense.date, "2025-01-15");
    assert_eq!(expense.genre, "食費");
    assert_eq!(expense.amount, 1000);
}

#[test]
fn test_genre_creation() {
    let genre = Genre::new("娯楽費".to_string());
    assert_eq!(genre.name, "娯楽費");
}
