//! Tests of the textual formatting helpers and the error value.

use stu::error::AppError;
use stu::event::{CompleteInitializeResult, CompleteLoadObjectsResult};
use stu::format::{digits, format_bucket_item, format_count, format_datetime, format_dir_item,
    format_file_item, format_list_count};
use stu::item::{BucketItem, DateTimeValue, ObjectItem};
use stu::layout::{Rect, calc_loading_dialog_rect};

fn dt() -> DateTimeValue {
    DateTimeValue { year: 2024, month: 1, day: 2, hour: 3, minute: 4, second: 5 }
}

#[test]
fn digits_counts_decimal_digits() {
    assert_eq!(digits(0), 1);
    assert_eq!(digits(9), 1);
    assert_eq!(digits(10), 2);
    assert_eq!(digits(99), 2);
    assert_eq!(digits(100), 3);
    assert_eq!(digits(12345), 5);
}

#[test]
fn format_count_aligns_to_total_width() {
    assert_eq!(format_count(3, 20), "  3 / 20 ");
    assert_eq!(format_count(12, 20), " 12 / 20 ");
    assert_eq!(format_count(1, 5), " 1 / 5 ");
    assert_eq!(format_count(100, 100), " 100 / 100 ");
}

#[test]
fn format_list_count_is_empty_for_empty_list() {
    assert_eq!(format_list_count(0, 0), "");
    assert_eq!(format_list_count(20, 2), "  3 / 20 ");
    assert_eq!(format_list_count(3, 0), " 1 / 3 ");
}

#[test]
fn format_bucket_item_pads_to_width() {
    assert_eq!(format_bucket_item(&"ab".to_string(), 8), " ab   ");
    assert_eq!(format_bucket_item(&"abcd".to_string(), 8), " abcd ");
    assert_eq!(format_bucket_item(&"abcdefgh".to_string(), 8), " abcdefgh ");
}

#[test]
fn format_dir_item_appends_slash() {
    assert_eq!(format_dir_item(&"ab".to_string(), 10), " ab/    ");
    assert_eq!(format_dir_item(&"abcdef".to_string(), 10), " abcdef/ ");
}

#[test]
fn format_datetime_is_zero_padded() {
    assert_eq!(format_datetime(&dt()), "2024-01-02 03:04:05");
    let d = DateTimeValue { year: 999, month: 12, day: 31, hour: 23, minute: 59, second: 0 };
    assert_eq!(format_datetime(&d), "0999-12-31 23:59:00");
}

#[test]
fn format_file_item_with_details_shows_date_and_size() {
    let r = format_file_item(&"a.txt".to_string(), 1024, &dt(), 60, true);
    let expected = format!(" {:<17}    {}    {:>10} ", "a.txt", "2024-01-02 03:04:05", "1 KiB");
    assert_eq!(r, expected);
    assert_eq!(r.len(), 56);
}

#[test]
fn format_file_item_size_labels_follow_magnitude() {
    let r = format_file_item(&"x".to_string(), 0, &dt(), 50, true);
    assert!(r.ends_with("       0 B "));
    let r = format_file_item(&"x".to_string(), 1536, &dt(), 50, true);
    assert!(r.ends_with("  1.50 KiB "));
    let r = format_file_item(&"x".to_string(), 1048576, &dt(), 50, true);
    assert!(r.ends_with("     1 MiB "));
}

#[test]
fn format_file_item_plain_shows_name_only() {
    let r = format_file_item(&"a.txt".to_string(), 1024, &dt(), 12, false);
    assert_eq!(r, " a.txt  ");
}

#[test]
fn loading_dialog_is_centered() {
    let r = calc_loading_dialog_rect(Rect { x: 0, y: 0, width: 80, height: 25 });
    assert_eq!(r, Rect { x: 25, y: 10, width: 30, height: 5 });
    let r = calc_loading_dialog_rect(Rect { x: 5, y: 2, width: 31, height: 6 });
    assert_eq!(r, Rect { x: 5, y: 2, width: 30, height: 5 });
}

#[test]
fn app_error_constructors() {
    let e = AppError::msg("just a message".to_string());
    assert_eq!(e.msg, "just a message");
    assert_eq!(e.cause, None);

    let e = AppError::new("failed to read".to_string(), "io: broken pipe".to_string());
    assert_eq!(e.msg, "failed to read");
    assert_eq!(e.cause, Some("io: broken pipe".to_string()));

    let e = AppError::error("io: broken pipe".to_string());
    assert_eq!(e.msg, "io: broken pipe");
    assert_eq!(e.cause, Some("io: broken pipe".to_string()));
}

#[test]
fn complete_results_pass_success_and_failure_through() {
    let ok = CompleteInitializeResult::new(Ok(vec![BucketItem { name: "a".to_string() }]));
    assert_eq!(ok.unwrap().buckets.len(), 1);
    let e = CompleteInitializeResult::new(Err(AppError::msg("boom".to_string())));
    assert_eq!(e.unwrap_err().msg, "boom");

    let ok = CompleteLoadObjectsResult::new(Ok(vec![ObjectItem::Dir { name: "d".to_string() }]));
    assert_eq!(ok.unwrap().items.len(), 1);
    let e = CompleteLoadObjectsResult::new(Err(AppError::msg("gone".to_string())));
    assert_eq!(e.unwrap_err().msg, "gone");
}
