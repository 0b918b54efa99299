use parami_exam::datetime::LocalDateTime;
use parami_exam::submission::{
    plan_field, plan_field_with_id, submission_reply, ExamForm, FieldPlan,
};

fn at(year: i32, month: u32, day: u32, hour: u32, minute: u32, second: u32, nanosecond: u32) -> LocalDateTime {
    LocalDateTime { year, month, day, hour, minute, second, nanosecond }
}

#[test]
fn form_starts_empty_with_pretty_time() {
    let form = ExamForm::new(at(2024, 3, 5, 7, 8, 9, 123_456_789)).unwrap();
    assert_eq!(form.created_at_pretty, "2024-03-05 07:08:09");
    assert!(form.id.is_none());
    assert_eq!(form.student_name, "");
    assert_eq!(form.task_name, "");
    assert!(form.answer_file.is_none());
    assert_eq!(form.created_at.year, 2024);
}

#[test]
fn pretty_time_pads_small_years_and_shows_leap_second() {
    let form = ExamForm::new(at(987, 12, 31, 23, 59, 59, 1_500_000_000)).unwrap();
    assert_eq!(form.created_at_pretty, "0987-12-31 23:59:60");
}

#[test]
fn invalid_date_times_give_no_form() {
    assert!(ExamForm::new(at(2023, 2, 29, 0, 0, 0, 0)).is_none());
    assert!(ExamForm::new(at(2024, 2, 29, 0, 0, 0, 0)).is_some());
    assert!(ExamForm::new(at(1900, 2, 29, 0, 0, 0, 0)).is_none());
    assert!(ExamForm::new(at(2000, 2, 29, 0, 0, 0, 0)).is_some());
    assert!(ExamForm::new(at(2024, 4, 31, 0, 0, 0, 0)).is_none());
    assert!(ExamForm::new(at(2024, 13, 1, 0, 0, 0, 0)).is_none());
    assert!(ExamForm::new(at(2024, 1, 0, 0, 0, 0, 0)).is_none());
    assert!(ExamForm::new(at(2024, 1, 1, 24, 0, 0, 0)).is_none());
    assert!(ExamForm::new(at(2024, 1, 1, 0, 60, 0, 0)).is_none());
    assert!(ExamForm::new(at(2024, 1, 1, 0, 0, 60, 0)).is_none());
    assert!(ExamForm::new(at(2024, 1, 1, 0, 0, 58, 1_000_000_000)).is_none());
    assert!(ExamForm::new(at(2024, 1, 1, 0, 0, 59, 2_000_000_000)).is_none());
    assert!(ExamForm::new(at(-4, 2, 29, 0, 0, 0, 0)).is_some());
    assert!(ExamForm::new(at(262143, 1, 1, 0, 0, 0, 0)).is_none());
    assert!(ExamForm::new(at(-262144, 1, 1, 0, 0, 0, 0)).is_none());
    assert!(ExamForm::new(at(262142, 12, 31, 0, 0, 0, 0)).is_some());
    assert!(ExamForm::new(at(-262143, 1, 1, 0, 0, 0, 0)).is_some());
}

#[test]
fn validity_agrees_with_chrono() {
    for year in [-401, -400, -100, -4, -1, 0, 1, 4, 100, 400, 1900, 2000, 2023, 2024] {
        for month in 0..=13u32 {
            for day in [0u32, 1, 28, 29, 30, 31, 32] {
                let ours = ExamForm::new(at(year, month, day, 12, 0, 0, 0)).is_some();
                let chrono = chrono::NaiveDate::from_ymd_opt(year, month, day).is_some();
                assert_eq!(ours, chrono, "{}-{}-{}", year, month, day);
            }
        }
    }
}

#[test]
fn plan_reads_names() {
    assert!(matches!(plan_field_with_id(Some("student_name"), None, "X"), FieldPlan::ReadStudentName));
    assert!(matches!(plan_field_with_id(Some("task_name"), Some("f"), "X"), FieldPlan::ReadTaskName));
    assert!(matches!(plan_field_with_id(Some("other"), None, "X"), FieldPlan::Skip));
    assert!(matches!(plan_field_with_id(None, Some("a.xcf"), "X"), FieldPlan::Skip));
    assert!(matches!(plan_field_with_id(Some("answer_file"), None, "X"), FieldPlan::Skip));
}

#[test]
fn plan_stores_answer_file() {
    let plan = plan_field_with_id(Some("answer_file"), Some("work.xcf"), "01ARZ3NDEKTSV4RRFFQ69G5FAV");
    match plan {
        FieldPlan::StoreAnswerFile { disk_path, public_path } => {
            assert_eq!(disk_path, "assets/exam_files/01ARZ3NDEKTSV4RRFFQ69G5FAV-work.xcf");
            assert_eq!(public_path, "/assets/exam_files/01ARZ3NDEKTSV4RRFFQ69G5FAV-work.xcf");
        },
        _ => panic!("expected a file to store"),
    }
}

#[test]
fn plan_with_new_ulid() {
    let plan = plan_field(Some("answer_file"), Some("work.xcf"));
    match plan {
        FieldPlan::StoreAnswerFile { disk_path, public_path } => {
            let stored = disk_path.strip_prefix("assets/exam_files/").unwrap();
            assert_eq!(stored.len(), 26 + "-work.xcf".len());
            assert!(stored.ends_with("-work.xcf"));
            assert!(stored[..26].chars().all(|c| "0123456789ABCDEFGHJKMNPQRSTVWXYZ".contains(c)));
            assert_eq!(public_path, format!("/{}", disk_path));
        },
        _ => panic!("expected a file to store"),
    }
    let other = plan_field(Some("answer_file"), Some("work.xcf"));
    match other {
        FieldPlan::StoreAnswerFile { disk_path: second, .. } => assert_ne!(second.len(), 0),
        _ => panic!("expected a file to store"),
    }
    assert!(matches!(plan_field(Some("student_name"), None), FieldPlan::ReadStudentName));
    assert!(matches!(plan_field(None, None), FieldPlan::Skip));
}

#[test]
fn record_fills_the_form() {
    let mut form = ExamForm::new(at(2024, 1, 1, 0, 0, 0, 0)).unwrap();
    form.record(&FieldPlan::ReadStudentName, Some("Aung".to_string()));
    form.record(&FieldPlan::ReadTaskName, Some("task_1_crop_image".to_string()));
    let plan = plan_field_with_id(Some("answer_file"), Some("a.xcf"), "ID");
    form.record(&plan, None);
    form.record(&FieldPlan::Skip, Some("ignored".to_string()));
    assert_eq!(form.student_name, "Aung");
    assert_eq!(form.task_name, "task_1_crop_image");
    assert_eq!(form.answer_file.as_deref(), Some("/assets/exam_files/ID-a.xcf"));
    form.record(&FieldPlan::ReadStudentName, None);
    assert_eq!(form.student_name, "");
    form.record(&FieldPlan::ReadTaskName, Some("task_2_enhance_image".to_string()));
    assert_eq!(form.task_name, "task_2_enhance_image");
}

#[test]
fn reply_names_first_record() {
    let ids = vec!["exam:abc".to_string(), "exam:def".to_string()];
    assert_eq!(submission_reply(&ids), Ok("Answer submitted Successful.. AnswerID: exam:abc".to_string()));
    assert_eq!(submission_reply(&Vec::new()), Err(500));
}

#[test]
fn pretty_time_signs_years_outside_four_digits() {
    let cases = [
        (10000, "+10000-01-02 03:04:05"),
        (262142, "+262142-01-02 03:04:05"),
        (-1, "-0001-01-02 03:04:05"),
        (-9999, "-9999-01-02 03:04:05"),
        (-10000, "-10000-01-02 03:04:05"),
        (-262143, "-262143-01-02 03:04:05"),
        (0, "0000-01-02 03:04:05"),
        (9999, "9999-01-02 03:04:05"),
    ];
    for (year, text) in cases {
        let form = ExamForm::new(at(year, 1, 2, 3, 4, 5, 0)).unwrap();
        assert_eq!(form.created_at_pretty, text);
        let chrono_text = chrono::NaiveDate::from_ymd_opt(year, 1, 2)
            .unwrap()
            .and_hms_nano_opt(3, 4, 5, 0)
            .unwrap()
            .format("%Y-%m-%d %H:%M:%S")
            .to_string();
        assert_eq!(chrono_text, text);
    }
}

fn fill(fields: &[(Option<&str>, Option<&str>, Option<&str>)]) -> ExamForm {
    let mut form = ExamForm::new(at(2024, 6, 1, 10, 0, 0, 0)).unwrap();
    for (i, (name, file_name, text)) in fields.iter().enumerate() {
        let id = format!("{:026}", i);
        let plan = plan_field_with_id(*name, *file_name, &id);
        form.record(&plan, text.map(|t| t.to_string()));
    }
    form
}

#[test]
fn other_fields_leave_the_form_alone() {
    let own = [
        (Some("student_name"), None, Some("Aung")),
        (Some("answer_file"), Some("a.xcf"), None),
        (Some("task_name"), None, Some("task_3_black_and_white_image")),
    ];
    let mixed = [
        (Some("comment"), None, Some("hello")),
        (Some("student_name"), None, Some("Aung")),
        (None, Some("stray.xcf"), None),
        (Some("answer_file"), Some("a.xcf"), None),
        (Some("Student_Name"), None, Some("Other")),
        (Some("task_name"), None, Some("task_3_black_and_white_image")),
        (Some(""), None, Some("")),
    ];
    let a = fill(&own);
    let b = fill(&mixed);
    assert_eq!(a.student_name, b.student_name);
    assert_eq!(a.task_name, b.task_name);
    assert_eq!(a.answer_file.unwrap().rsplit('-').next(), b.answer_file.unwrap().rsplit('-').next());
}

#[test]
fn last_field_of_a_name_wins() {
    let form = fill(&[
        (Some("student_name"), None, Some("First")),
        (Some("task_name"), None, Some("task_1_crop_image")),
        (Some("student_name"), None, Some("Second")),
        (Some("answer_file"), Some("x.xcf"), None),
    ]);
    assert_eq!(form.student_name, "Second");
    assert_eq!(form.task_name, "task_1_crop_image");
}

#[test]
fn different_ids_give_different_paths() {
    let a = plan_field_with_id(Some("answer_file"), Some("same.xcf"), "01ARZ3NDEKTSV4RRFFQ69G5FAV");
    let b = plan_field_with_id(Some("answer_file"), Some("same.xcf"), "01ARZ3NDEKTSV4RRFFQ69G5FAW");
    match (a, b) {
        (
            FieldPlan::StoreAnswerFile { disk_path: d1, public_path: p1 },
            FieldPlan::StoreAnswerFile { disk_path: d2, public_path: p2 },
        ) => {
            assert_ne!(d1, d2);
            assert_ne!(p1, p2);
        },
        _ => panic!("expected files to store"),
    }
}
