use vstd::prelude::*;

use crate::exam::{exam_tasks, is_exam_task_list, Task};

verus! {

/// The data of the home page: none.
pub struct IndexTemplate {}

/// The data of the categories page: none.
pub struct CategoriesPageTemplate {}

/// The data of the exam page: the tasks it lists.
pub struct ExamPageTemplate {
    pub tasks: Vec<Task>,
}

/// What the exam page shows: the tasks of the exam, in order.
pub fn exam_page() -> (page: ExamPageTemplate)
    ensures
        is_exam_task_list(page.tasks@),
{
    ExamPageTemplate { tasks: exam_tasks() }
}

} // verus!
