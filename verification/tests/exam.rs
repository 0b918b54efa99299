use parami_exam::exam::{exam_tasks, max_total_upload_size, EXAM_TABLE, SAVE_STEP, UPLOAD_STEP};
use parami_exam::templates::exam_page;

#[test]
fn upload_limit_is_280_megabytes() {
    assert_eq!(max_total_upload_size(), 280_000_000);
    assert_eq!(max_total_upload_size(), 280 * 1000 * 1000);
}

#[test]
fn exam_table_name() {
    assert_eq!(EXAM_TABLE, "exam");
}

#[test]
fn eight_tasks_in_order() {
    let tasks = exam_tasks();
    assert_eq!(tasks.len(), 8);
    for (i, task) in tasks.iter().enumerate() {
        assert_eq!(task.task_id, (i + 1).to_string());
        assert!(task.title.starts_with(&format!("Task {}: ", i + 1)));
        assert!(task.task_name.starts_with(&format!("task_{}_", i + 1)));
    }
}

#[test]
fn every_task_has_three_steps() {
    for task in exam_tasks() {
        assert_eq!(task.description.len(), 3);
        assert!(task.description[0].starts_with("1. "));
        assert_eq!(task.description[1], SAVE_STEP);
        assert_eq!(task.description[2], UPLOAD_STEP);
        assert!(!task.image_paths.is_empty());
        for path in &task.image_paths {
            assert!(path.starts_with("assets/images/"));
        }
    }
}

#[test]
fn task_names_and_ids_are_distinct() {
    let tasks = exam_tasks();
    for i in 0..tasks.len() {
        for j in i + 1..tasks.len() {
            assert_ne!(tasks[i].task_name, tasks[j].task_name);
            assert_ne!(tasks[i].task_id, tasks[j].task_id);
        }
    }
}

#[test]
fn first_and_seventh_task_contents() {
    let tasks = exam_tasks();
    assert_eq!(tasks[0].title, "Task 1: Crop a landscape image to 1920x1080 pixel (10 marks)");
    assert_eq!(tasks[0].image_paths, vec!["assets/images/nature-mountain-river-landscape.jpg"]);
    assert_eq!(tasks[0].task_name, "task_1_crop_image");
    assert_eq!(
        tasks[6].image_paths,
        vec!["assets/images/camels.jpg", "assets/images/desert.jpg"]
    );
    assert_eq!(tasks[6].task_name, "task_7_camel_to_another_desert");
    assert_eq!(tasks[7].task_name, "task_8_train_motion");
    assert_eq!(SAVE_STEP, "2. Save the project as a .xcf file (.xcf project ဖိုင်အဖြစ် သိမ်းပါ)");
}

#[test]
fn exam_page_lists_the_tasks() {
    let page = exam_page();
    let tasks = exam_tasks();
    assert_eq!(page.tasks.len(), tasks.len());
    for (a, b) in page.tasks.iter().zip(tasks.iter()) {
        assert_eq!(a.task_id, b.task_id);
        assert_eq!(a.title, b.title);
        assert_eq!(a.description, b.description);
        assert_eq!(a.image_paths, b.image_paths);
        assert_eq!(a.task_name, b.task_name);
    }
}
