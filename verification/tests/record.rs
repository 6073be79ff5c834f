use tomatoton::{encode_record, status_label_str, u64_to_dec, LogError, Pomodoro, Status, Timestamp};

#[test]
fn decimal_rendering_is_exact() {
    assert_eq!(u64_to_dec(0), "0");
    assert_eq!(u64_to_dec(7), "7");
    assert_eq!(u64_to_dec(10), "10");
    assert_eq!(u64_to_dec(1500), "1500");
    assert_eq!(u64_to_dec(u64::MAX), "18446744073709551615");
}

#[test]
fn status_labels_are_exact() {
    assert_eq!(status_label_str(Status::Completed), "Completed");
    assert_eq!(status_label_str(Status::Aborted), "Aborted");
    assert_eq!(status_label_str(Status::Running), "Running");
}

#[test]
fn break_record_line_at_epoch() {
    let p = Pomodoro::new_break(Timestamp::from_secs(0), 300);
    let line = encode_record(&p).unwrap();
    assert_eq!(line, "1970-01-01T00:00:00+00:00\t0\t300\tRunning\tBreak\n");
}

#[test]
fn aborted_task_record_line() {
    let mut p = Pomodoro::new_task(Timestamp::from_secs(0), 1500, String::from("A simple task"));
    p.update(Timestamp::from_secs(300));
    p.abort();
    let line = encode_record(&p).unwrap();
    assert_eq!(line, "1970-01-01T00:00:00+00:00\t300\t1500\tAborted\tTask\tA simple task\n");
}

#[test]
fn completed_task_record_line() {
    let mut p = Pomodoro::new_task(Timestamp::from_secs(1_000_000), 60, String::from("t"));
    p.update(Timestamp::from_secs(1_000_090));
    let line = encode_record(&p).unwrap();
    assert_eq!(line, "1970-01-12T13:46:40+00:00\t90\t60\tCompleted\tTask\tt\n");
}

#[test]
fn negative_seconds_lie_before_the_epoch() {
    let p = Pomodoro::new_break(Timestamp::from_secs(-1), 5);
    let line = encode_record(&p).unwrap();
    assert_eq!(line, "1969-12-31T23:59:59+00:00\t0\t5\tRunning\tBreak\n");
}

#[test]
fn description_with_tab_is_quoted() {
    let p = Pomodoro::new_task(Timestamp::from_secs(0), 10, String::from("a\tb"));
    let line = encode_record(&p).unwrap();
    assert_eq!(line, "1970-01-01T00:00:00+00:00\t0\t10\tRunning\tTask\t\"a\tb\"\n");
}

#[test]
fn description_with_quotes_is_doubled() {
    let p = Pomodoro::new_task(Timestamp::from_secs(0), 10, String::from("say \"hi\""));
    let line = encode_record(&p).unwrap();
    assert_eq!(
        line,
        "1970-01-01T00:00:00+00:00\t0\t10\tRunning\tTask\t\"say \"\"hi\"\"\"\n"
    );
}

#[test]
fn description_with_newline_is_quoted() {
    let p = Pomodoro::new_task(Timestamp::from_secs(0), 10, String::from("a\nb"));
    let line = encode_record(&p).unwrap();
    assert_eq!(line, "1970-01-01T00:00:00+00:00\t0\t10\tRunning\tTask\t\"a\nb\"\n");
}

#[test]
fn out_of_range_start_time_is_a_serialization_error() {
    let p = Pomodoro::new_break(Timestamp::from_secs(i64::MAX), 5);
    assert_eq!(encode_record(&p), Err(LogError::SerializationError));
    let q = Pomodoro::new_break(Timestamp::from_secs(i64::MIN), 5);
    assert_eq!(encode_record(&q), Err(LogError::SerializationError));
}

#[test]
fn each_record_is_one_line() {
    let mut p = Pomodoro::new_task(Timestamp::from_secs(0), 25, String::from("first"));
    p.update(Timestamp::from_secs(25));
    let a = encode_record(&p).unwrap();
    let b = encode_record(&Pomodoro::new_break(Timestamp::from_secs(100), 5)).unwrap();
    let c = encode_record(&Pomodoro::new_task(Timestamp::from_secs(7), 9, String::from("third")))
        .unwrap();
    for line in [&a, &b, &c] {
        assert_eq!(line.matches('\n').count(), 1);
        assert!(line.ends_with('\n'));
    }
}

#[test]
fn appending_records_concatenates_lines() {
    let a = encode_record(&Pomodoro::new_break(Timestamp::from_secs(0), 1)).unwrap();
    let b = encode_record(&Pomodoro::new_break(Timestamp::from_secs(2), 3)).unwrap();
    let c = encode_record(&Pomodoro::new_task(Timestamp::from_secs(4), 5, String::from("x")))
        .unwrap();

    let mut content = String::new();
    content.push_str(&a);
    let after_one = content.clone();
    content.push_str(&b);
    let after_two = content.clone();
    content.push_str(&c);

    // Prior content stays a byte-identical prefix of the grown log.
    assert!(content.as_bytes().starts_with(after_two.as_bytes()));
    assert!(after_two.as_bytes().starts_with(after_one.as_bytes()));
    // Three appended records read back as exactly three lines.
    assert_eq!(content.lines().count(), 3);
    assert_eq!(content.matches('\n').count(), 3);
}
