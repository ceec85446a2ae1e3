use sit_stand_reminder::config::StorageConfig;
use sit_stand_reminder::error::{step_result, ErrorKind};
use sit_stand_reminder::notification::{
    format_played_entry, format_shown_entry, log_notification, log_notification_at,
    show_notification, show_notification_at,
};

fn line_breaks(text: &str) -> usize {
    text.chars().filter(|c| *c == '\n').count()
}

fn is_local_timestamp(text: &str) -> bool {
    chrono::DateTime::parse_from_str(text, "%Y-%m-%d %H:%M:%S%.f %:z").is_ok()
}

fn all_digits(text: &[u8]) -> bool {
    text.iter().all(|c| c.is_ascii_digit())
}

fn is_date(text: &[u8]) -> bool {
    let n = text.len();
    if n < 10 {
        return false;
    }
    let year = &text[..n - 6];
    let year_ok = if n == 10 {
        all_digits(year)
    } else {
        (year[0] == b'+' || year[0] == b'-') && all_digits(&year[1..])
    };
    year_ok
        && text[n - 6] == b'-'
        && all_digits(&text[n - 5..n - 3])
        && text[n - 3] == b'-'
        && all_digits(&text[n - 2..])
}

fn is_time(text: &[u8]) -> bool {
    let n = text.len();
    (n == 8 || n == 12 || n == 15 || n == 18)
        && all_digits(&text[0..2])
        && text[2] == b':'
        && all_digits(&text[3..5])
        && text[5] == b':'
        && all_digits(&text[6..8])
        && (n == 8 || (text[8] == b'.' && all_digits(&text[9..])))
}

fn is_offset(text: &[u8]) -> bool {
    let n = text.len();
    (n == 6 || n == 9)
        && (text[0] == b'+' || text[0] == b'-')
        && all_digits(&text[1..3])
        && text[3] == b':'
        && all_digits(&text[4..6])
        && (n == 6 || (text[6] == b':' && all_digits(&text[7..9])))
}

fn has_timestamp_shape(text: &str) -> bool {
    let parts: Vec<&str> = text.split(' ').collect();
    parts.len() == 3
        && is_date(parts[0].as_bytes())
        && is_time(parts[1].as_bytes())
        && is_offset(parts[2].as_bytes())
}

#[test]
fn timestamp_shape_of_known_texts() {
    assert!(has_timestamp_shape("2024-05-01 09:30:00 +02:00"));
    assert!(has_timestamp_shape("2024-05-01 09:30:00.123456789 -05:30:15"));
    assert!(has_timestamp_shape("+12024-05-01 09:30:00.250 +00:00"));
    assert!(!has_timestamp_shape(""));
    assert!(!has_timestamp_shape("2024-05-01T09:30:00 +02:00"));
    assert!(!has_timestamp_shape("2024-05-01 09:30:00"));
}

#[test]
fn shown_entry_has_the_exact_format() {
    let entry = format_shown_entry("2024-05-01 09:30:00 +02:00", "Reminder", "Time to stand");
    assert_eq!(
        entry,
        "Notification shown at: 2024-05-01 09:30:00 +02:00 - Title: Reminder, Body: Time to stand\n"
    );
}

#[test]
fn played_entry_has_the_exact_format() {
    let entry = format_played_entry("2024-05-01 09:30:00 +02:00");
    assert_eq!(entry, "Notification played at: 2024-05-01 09:30:00 +02:00\n");
}

#[test]
fn empty_fields_leave_the_frame() {
    assert_eq!(format_shown_entry("", "", ""), "Notification shown at:  - Title: , Body: \n");
    assert_eq!(format_played_entry(""), "Notification played at: \n");
}

#[test]
fn show_notification_appends_one_line_naming_title_and_body() {
    let mut log = String::from("an earlier line\n");
    let before = line_breaks(&log);
    let pending = show_notification(String::from("Reminder"), String::from("Time to stand"));
    let entry = String::from(pending.entry());
    log.push_str(&entry);
    assert!(entry.contains("Title: Reminder"));
    assert!(entry.contains("Body: Time to stand"));
    assert!(entry.ends_with('\n'));
    assert_eq!(line_breaks(&entry), 1);
    assert_eq!(line_breaks(&log), before + 1);
    let again = show_notification(String::from("Reminder"), String::from("Time to stand"));
    log.push_str(again.entry());
    assert_eq!(line_breaks(&log), before + 2);
}

#[test]
fn show_notification_stamps_the_local_time() {
    let pending = show_notification(String::from("Reminder"), String::from("Time to stand"));
    let entry = pending.entry();
    let head = "Notification shown at: ";
    let tail = " - Title: Reminder, Body: Time to stand\n";
    assert!(entry.starts_with(head));
    assert!(entry.ends_with(tail));
    let stamp = &entry[head.len()..entry.len() - tail.len()];
    assert!(is_local_timestamp(stamp));
    assert!(stamp.chars().all(|c| c.is_ascii_digit() || " -+:.".contains(c)));
    assert!(stamp.len() >= 26);
    assert!(has_timestamp_shape(stamp));
}

#[test]
fn line_breaks_in_title_and_body_are_kept() {
    let pending = show_notification(String::from("two\nlines"), String::from("a\nb\nc"));
    assert_eq!(line_breaks(pending.entry()), 4);
}

#[test]
fn failed_append_ends_the_operation_before_any_notification() {
    let pending = show_notification(String::from("Reminder"), String::from("Time to stand"));
    match pending.appended(Err(String::from("Permission denied (os error 13)"))) {
        Err(failure) => {
            assert_eq!(failure.kind, ErrorKind::Io);
            assert_eq!(failure.message, "Permission denied (os error 13)");
        }
        Ok(_) => panic!("no notification may follow a failed append"),
    }
}

#[test]
fn successful_append_hands_on_title_and_body() {
    let pending = show_notification_at(
        "2024-05-01 09:30:00 +02:00",
        String::from("Reminder"),
        String::from("Time to stand"),
    );
    let notice = pending.appended(Ok(())).unwrap();
    assert_eq!(notice.title(), "Reminder");
    assert_eq!(notice.body(), "Time to stand");
    assert!(notice.shown(Ok(())).is_ok());
}

#[test]
fn failed_notification_is_reported_and_the_line_stays() {
    let mut log = String::new();
    let pending = show_notification_at("t", String::from("Reminder"), String::from("Stand"));
    log.push_str(pending.entry());
    let notice = pending.appended(Ok(())).unwrap();
    let failure = notice.shown(Err(String::from("no notification daemon"))).unwrap_err();
    assert_eq!(failure.kind, ErrorKind::Notification);
    assert_eq!(failure.into_message(), "no notification daemon");
    assert_eq!(log, "Notification shown at: t - Title: Reminder, Body: Stand\n");
}

#[test]
fn log_notification_writes_one_line_with_the_time() {
    let pending = log_notification();
    let entry = String::from(pending.entry());
    let head = "Notification played at: ";
    assert!(entry.starts_with(head));
    assert!(entry.ends_with('\n'));
    assert_eq!(line_breaks(&entry), 1);
    let stamp = &entry[head.len()..entry.len() - 1];
    assert!(is_local_timestamp(stamp));
    assert!(stamp.len() >= 26);
    assert!(has_timestamp_shape(stamp));
    assert!(pending.appended(Ok(())).is_ok());
}

#[test]
fn log_notification_reports_a_failed_append() {
    let pending = log_notification_at("2024-05-01 09:30:00 +02:00");
    assert_eq!(pending.entry(), "Notification played at: 2024-05-01 09:30:00 +02:00\n");
    let failure = pending.appended(Err(String::from("read-only file system"))).unwrap_err();
    assert_eq!(failure.kind, ErrorKind::Io);
    assert_eq!(failure.message, "read-only file system");
}

#[test]
fn step_results_keep_kind_and_message() {
    assert!(step_result(ErrorKind::Io, Ok(())).is_ok());
    let failure = step_result(ErrorKind::Notification, Err(String::from("refused"))).unwrap_err();
    assert_eq!(failure.kind, ErrorKind::Notification);
    assert_eq!(failure.message, "refused");
}

#[test]
fn default_paths_are_the_fixed_names() {
    let config = StorageConfig::default();
    assert_eq!(config.preferences_path, "preferences.json");
    assert_eq!(config.log_path, "notification_log.txt");
    let config = StorageConfig::new(String::from("/tmp/p.json"), String::from("/tmp/l.txt"));
    assert_eq!(config.preferences_path, "/tmp/p.json");
    assert_eq!(config.log_path, "/tmp/l.txt");
}
