use vstd::prelude::*;

verus! {

/// The database table that holds the submitted answers.
pub const EXAM_TABLE: &'static str = "exam";

/// The most that the requests of the exam page may carry, in megabytes.
pub const MAX_TOTAL_UPLOAD_MEGABYTES: u64 = 280;

/// The second step of every task: how to save the work.
pub const SAVE_STEP: &'static str = "2. Save the project as a .xcf file (.xcf project ဖိုင်အဖြစ် သိမ်းပါ)";

/// The third step of every task: how to hand the work in.
pub const UPLOAD_STEP: &'static str = "3. Upload the .xcf file below (.xcf ဖိုင်ကို  submit တင်ပါ။";

/// `bytesize::ByteSize::mb`, read back in bytes with `ByteSize::as_u64`: the
/// contract claims that `size` megabytes are `size * 1_000_000` bytes, the
/// crate's megabyte being its constant `MB`, 10^6 bytes. The product must fit in
/// a `u64`, since `mb` multiplies without a check.
#[verifier::external_body]
fn megabytes_in_bytes(size: u64) -> (bytes: u64)
    requires
        size * 1_000_000 <= u64::MAX,
    ensures
        bytes == size * 1_000_000,
{
    bytesize::ByteSize::mb(size).as_u64()
}

/// The most bytes that a request to the exam page may carry:
/// `MAX_TOTAL_UPLOAD_MEGABYTES` megabytes.
pub fn max_total_upload_size() -> (limit: usize)
    ensures
        limit == MAX_TOTAL_UPLOAD_MEGABYTES * 1_000_000,
        limit == 280_000_000,
{
    let bytes = megabytes_in_bytes(MAX_TOTAL_UPLOAD_MEGABYTES);
    bytes as usize
}

/// One task of the exam, as the exam page shows it.
pub struct Task {
    pub task_id: String,
    pub title: String,
    pub description: Vec<String>,
    pub image_paths: Vec<String>,
    pub task_name: String,
}

/// The text of each string of `v`, in order.
pub open spec fn texts(v: Seq<String>) -> Seq<Seq<char>> {
    v.map_values(|s: String| s@)
}

/// Whether `t` is the task with the given id, title, first step, images and
/// name, whose steps are that first step, then saving, then handing in.
pub open spec fn task_is(
    t: Task,
    task_id: Seq<char>,
    title: Seq<char>,
    first_step: Seq<char>,
    image_paths: Seq<Seq<char>>,
    task_name: Seq<char>,
) -> bool {
    &&& t.task_id@ == task_id
    &&& t.title@ == title
    &&& texts(t.description@) == seq![first_step, SAVE_STEP@, UPLOAD_STEP@]
    &&& texts(t.image_paths@) == image_paths
    &&& t.task_name@ == task_name
}

/// Whether `tasks` are the eight tasks of the exam, in order.
pub open spec fn is_exam_task_list(tasks: Seq<Task>) -> bool {
    &&& tasks.len() == 8
    &&& task_is(
        tasks[0],
        "1"@,
        "Task 1: Crop a landscape image to 1920x1080 pixel (10 marks)"@,
        "1. Crop a landscape image to 1920x1080 pixel (1920x1080 pixel ရှိသော image ပုံထွက်အောင် ဖြတ်ထုတ်ပါ)"@,
        seq!["assets/images/nature-mountain-river-landscape.jpg"@],
        "task_1_crop_image"@,
    )
    &&& task_is(
        tasks[1],
        "2"@,
        "Task 2: Exposure  သုံးပြီး ပုံတောက်လာအောင် လုပ်ပါ။ (10 marks)"@,
        "1. Exposure သုံးပြီး ပုံတောက်လာအောင် လုပ်ပါ။"@,
        seq!["assets/images/apple-underexposed.jpg"@],
        "task_2_enhance_image"@,
    )
    &&& task_is(
        tasks[2],
        "3"@,
        "Task 3: Black and White color သို့ပြောင်းပေးပါ။ (10 marks)"@,
        "1. ပုံကို Black & White ပြောင်းပေးပါ။ "@,
        seq!["assets/images/dramatic_color_image.webp"@],
        "task_3_black_and_white_image"@,
    )
    &&& task_is(
        tasks[3],
        "4"@,
        "Task 4: လှပသောအသားအရည် ဖြစ်အောင် လုပ်ပေးပါ။ (15 Marks)"@,
        "1. လှပသောအသားအရည် ဖြစ်အောင် လုပ်ပေးပါ။"@,
        seq!["assets/images/skin_imperfections.png"@],
        "task_4_skin_imperfections"@,
    )
    &&& task_is(
        tasks[4],
        "5"@,
        "Task 5: ကမ်းချေမှ လူကို ဖျောက်ပါ။ (15 Marks)"@,
        "1. ကမ်းချေမှ လူကို ဖျောက်ပါ။"@,
        seq!["assets/images/person-on-a-beach.jpg"@],
        "task_5_person-on-a-beach"@,
    )
    &&& task_is(
        tasks[5],
        "6"@,
        "Task 6: To နဲ့ From မှာ စာများထည့်ပါ။ (10 Marks)"@,
        "1. To နဲ့ From မှာ စာများထည့်ပါ။"@,
        seq!["assets/images/letter.jpg"@],
        "task_6_letter"@,
    )
    &&& task_is(
        tasks[6],
        "7"@,
        "Task 7: ကုလားအုတ် ကို ဖြတ်ထုတ်ပြီး ကန္တာရ ပုံနောက်တစ်ခုမှ သွားထည့်ပါ။ (15 Marks)"@,
        "1. ကုလားအုတ် ကို ဖြတ်ထုတ်ပြီး ကန္တာရ ပုံနောက်တစ်ခုမှ သွားထည့်ပါ။"@,
        seq!["assets/images/camels.jpg"@, "assets/images/desert.jpg"@],
        "task_7_camel_to_another_desert"@,
    )
    &&& task_is(
        tasks[7],
        "8"@,
        "Task 8: ရထားကြီး အရှိန်နဲ့ အလျင်မြန်စွာ မောင်းနေပုံလုပ်ပါ။ (20 Marks)"@,
        "1. ရထားကြီး အရှိန်နဲ့ အလျင်မြန်စွာ မောင်းနေပုံလုပ်ပါ။ "@,
        seq!["assets/images/train.jpg"@],
        "task_8_train_motion"@,
    )
}

fn paths(first: &str, second: Option<&str>) -> (v: Vec<String>)
    ensures
        texts(v@) == match second {
            Some(p) => seq![first@, p@],
            None => seq![first@],
        },
{
    let mut v = vec![first.to_owned()];
    if let Some(p) = second {
        v.push(p.to_owned());
    }
    assert(texts(v@) =~= match second {
        Some(p) => seq![first@, p@],
        None => seq![first@],
    });
    v
}

fn task(
    task_id: &str,
    title: &str,
    first_step: &str,
    image_paths: Vec<String>,
    task_name: &str,
) -> (t: Task)
    ensures
        task_is(t, task_id@, title@, first_step@, texts(image_paths@), task_name@),
{
    let description = vec![first_step.to_owned(), SAVE_STEP.to_owned(), UPLOAD_STEP.to_owned()];
    assert(texts(description@) =~= seq![first_step@, SAVE_STEP@, UPLOAD_STEP@]);
    Task {
        task_id: task_id.to_owned(),
        title: title.to_owned(),
        description,
        image_paths,
        task_name: task_name.to_owned(),
    }
}

/// The tasks of the exam, in the order in which the exam page lists them.
pub fn exam_tasks() -> (tasks: Vec<Task>)
    ensures
        is_exam_task_list(tasks@),
{
    let tasks = vec![
        task(
            "1",
            "Task 1: Crop a landscape image to 1920x1080 pixel (10 marks)",
            "1. Crop a landscape image to 1920x1080 pixel (1920x1080 pixel ရှိသော image ပုံထွက်အောင် ဖြတ်ထုတ်ပါ)",
            paths("assets/images/nature-mountain-river-landscape.jpg", None),
            "task_1_crop_image",
        ),
        task(
            "2",
            "Task 2: Exposure  သုံးပြီး ပုံတောက်လာအောင် လုပ်ပါ။ (10 marks)",
            "1. Exposure သုံးပြီး ပုံတောက်လာအောင် လုပ်ပါ။",
            paths("assets/images/apple-underexposed.jpg", None),
            "task_2_enhance_image",
        ),
        task(
            "3",
            "Task 3: Black and White color သို့ပြောင်းပေးပါ။ (10 marks)",
            "1. ပုံကို Black & White ပြောင်းပေးပါ။ ",
            paths("assets/images/dramatic_color_image.webp", None),
            "task_3_black_and_white_image",
        ),
        task(
            "4",
            "Task 4: လှပသောအသားအရည် ဖြစ်အောင် လုပ်ပေးပါ။ (15 Marks)",
            "1. လှပသောအသားအရည် ဖြစ်အောင် လုပ်ပေးပါ။",
            paths("assets/images/skin_imperfections.png", None),
            "task_4_skin_imperfections",
        ),
        task(
            "5",
            "Task 5: ကမ်းချေမှ လူကို ဖျောက်ပါ။ (15 Marks)",
            "1. ကမ်းချေမှ လူကို ဖျောက်ပါ။",
            paths("assets/images/person-on-a-beach.jpg", None),
            "task_5_person-on-a-beach",
        ),
        task(
            "6",
            "Task 6: To နဲ့ From မှာ စာများထည့်ပါ။ (10 Marks)",
            "1. To နဲ့ From မှာ စာများထည့်ပါ။",
            paths("assets/images/letter.jpg", None),
            "task_6_letter",
        ),
        task(
            "7",
            "Task 7: ကုလားအုတ် ကို ဖြတ်ထုတ်ပြီး ကန္တာရ ပုံနောက်တစ်ခုမှ သွားထည့်ပါ။ (15 Marks)",
            "1. ကုလားအုတ် ကို ဖြတ်ထုတ်ပြီး ကန္တာရ ပုံနောက်တစ်ခုမှ သွားထည့်ပါ။",
            paths("assets/images/camels.jpg", Some("assets/images/desert.jpg")),
            "task_7_camel_to_another_desert",
        ),
        task(
            "8",
            "Task 8: ရထားကြီး အရှိန်နဲ့ အလျင်မြန်စွာ မောင်းနေပုံလုပ်ပါ။ (20 Marks)",
            "1. ရထားကြီး အရှိန်နဲ့ အလျင်မြန်စွာ မောင်းနေပုံလုပ်ပါ။ ",
            paths("assets/images/train.jpg", None),
            "task_8_train_motion",
        ),
    ];
    tasks
}

/// Every task of the exam has an id and a name of its own: no two tasks share
/// either, so an answer's task name tells which task it answers.
pub proof fn lemma_exam_tasks_distinct(tasks: Seq<Task>)
    requires
        is_exam_task_list(tasks),
    ensures
        forall|i: int, j: int|
            #![trigger tasks[i], tasks[j]]
            0 <= i < j < tasks.len() ==> tasks[i].task_name@ != tasks[j].task_name@
                && tasks[i].task_id@ != tasks[j].task_id@,
{
    assert forall|i: int, j: int|
        #![trigger tasks[i], tasks[j]]
        0 <= i < j < tasks.len() implies tasks[i].task_name@ != tasks[j].task_name@
            && tasks[i].task_id@ != tasks[j].task_id@ by {
        reveal_strlit("task_1_crop_image");
        reveal_strlit("1");
        reveal_strlit("task_2_enhance_image");
        reveal_strlit("2");
        reveal_strlit("task_3_black_and_white_image");
        reveal_strlit("3");
        reveal_strlit("task_4_skin_imperfections");
        reveal_strlit("4");
        reveal_strlit("task_5_person-on-a-beach");
        reveal_strlit("5");
        reveal_strlit("task_6_letter");
        reveal_strlit("6");
        reveal_strlit("task_7_camel_to_another_desert");
        reveal_strlit("7");
        reveal_strlit("task_8_train_motion");
        reveal_strlit("8");
        assert(tasks[i].task_name@[5] != tasks[j].task_name@[5]);
        assert(tasks[i].task_id@[0] != tasks[j].task_id@[0]);
    }
}

} // verus!
