use vstd::prelude::*;

use crate::datetime::{format_date_time, LocalDateTime};

verus! {

/// The form field that carries the student's name.
pub const STUDENT_NAME_FIELD: &'static str = "student_name";

/// The form field that carries the name of the task answered.
pub const TASK_NAME_FIELD: &'static str = "task_name";

/// The form field that carries the answer's file.
pub const ANSWER_FILE_FIELD: &'static str = "answer_file";

/// Where on disk the answers' files are stored.
pub const EXAM_FILES_DIR: &'static str = "assets/exam_files/";

/// Where the server offers the stored answers' files.
pub const EXAM_FILES_URL: &'static str = "/assets/exam_files/";

/// The start of the reply to a submitted answer, before the answer's id.
pub const SUBMITTED_MESSAGE: &'static str = "Answer submitted Successful.. AnswerID: ";

/// The status code of the reply when the database stored nothing.
pub const INTERNAL_SERVER_ERROR: u16 = 500;

/// Whether `c` belongs to Crockford's base-32 alphabet, in upper case.
pub open spec fn is_crockford_char(c: char) -> bool {
    ||| '0' as int <= c as int <= '9' as int
    ||| ('A' as int <= c as int <= 'Z' as int && c != 'I' && c != 'L' && c != 'O' && c != 'U')
}

/// Whether `id` is the text of a ULID: 26 characters of Crockford's base-32
/// alphabet.
pub open spec fn is_ulid_text(id: Seq<char>) -> bool {
    &&& id.len() == 26
    &&& forall|i: int| 0 <= i < id.len() ==> is_crockford_char(#[trigger] id[i])
}

/// `ulid::Ulid::new`, written out by `Ulid::to_string`: a new ULID from the
/// clock and a random number, in Crockford's base-32. The contract claims only
/// what every outcome has, the 26 characters of that alphabet that `to_string`
/// writes; which ULID comes out rests on the time and on chance.
#[verifier::external_body]
fn new_ulid() -> (id: String)
    ensures
        is_ulid_text(id@),
{
    ulid::Ulid::new().to_string()
}

/// The name under which an answer's file `file_name` is stored, made unique by
/// the ULID `id`.
pub open spec fn stored_file_name(id: Seq<char>, file_name: Seq<char>) -> Seq<char> {
    id + "-"@ + file_name
}

/// Where on disk the answer's file `file_name` is stored under the ULID `id`.
pub open spec fn answer_disk_path(id: Seq<char>, file_name: Seq<char>) -> Seq<char> {
    EXAM_FILES_DIR@ + stored_file_name(id, file_name)
}

/// Where the server offers the answer's file `file_name` stored under the
/// ULID `id`.
pub open spec fn answer_public_path(id: Seq<char>, file_name: Seq<char>) -> Seq<char> {
    EXAM_FILES_URL@ + stored_file_name(id, file_name)
}

/// What to do with a field of a submitted form.
pub enum FieldPlan {
    /// Read the field's text as the student's name.
    ReadStudentName,
    /// Read the field's text as the name of the task answered.
    ReadTaskName,
    /// Write the field's content to `disk_path`, creating the directories on
    /// the way; the answer is then offered at `public_path`.
    StoreAnswerFile { disk_path: String, public_path: String },
    /// Leave the field aside.
    Skip,
}

/// The text of an optional string.
pub open spec fn opt_text(s: Option<&str>) -> Option<Seq<char>> {
    match s {
        Some(t) => Some(t@),
        None => None,
    }
}

/// Whether `plan` is what to do with a field named `name` (none read as the
/// empty name) and carrying the file `file_name`, if any, where a file to store
/// is given the ULID `id`: the student's and the task's name are read, the
/// answer's file is stored if the field has a file name, and anything else is
/// left aside.
pub open spec fn is_plan_for(
    plan: FieldPlan,
    name: Option<Seq<char>>,
    file_name: Option<Seq<char>>,
    id: Seq<char>,
) -> bool {
    let name = match name {
        Some(n) => n,
        None => Seq::<char>::empty(),
    };
    if name == STUDENT_NAME_FIELD@ {
        plan is ReadStudentName
    } else if name == TASK_NAME_FIELD@ {
        plan is ReadTaskName
    } else if name == ANSWER_FILE_FIELD@ && file_name is Some {
        &&& plan is StoreAnswerFile
        &&& plan->disk_path@ == answer_disk_path(id, file_name->0)
        &&& plan->public_path@ == answer_public_path(id, file_name->0)
    } else {
        plan is Skip
    }
}

fn same_text(a: &str, b: &str) -> (r: bool)
    ensures
        r == (a@ == b@),
{
    a.to_owned() == b.to_owned()
}

/// What to do with a field named `name`, carrying the file `file_name`, if
/// any; a file to store is named after the ULID `id`.
pub fn plan_field_with_id(name: Option<&str>, file_name: Option<&str>, id: &str) -> (plan: FieldPlan)
    ensures
        is_plan_for(plan, opt_text(name), opt_text(file_name), id@),
        plan matches FieldPlan::StoreAnswerFile { disk_path, public_path } ==> {
            &&& file_name is Some
            &&& public_path@ == seq!['/'] + disk_path@
            &&& disk_path@ == "assets/exam_files/"@ + id@ + "-"@ + file_name->0@
        },
{
    proof {
        reveal_strlit("assets/exam_files/");
        reveal_strlit("/assets/exam_files/");
    }
    let name_opt = name;
    let name = match name {
        Some(n) => n,
        None => "",
    };
    proof {
        reveal_strlit("");
    }
    assert(name@ == match opt_text(name_opt) { Some(n) => n, None => Seq::<char>::empty() });
    if same_text(name, STUDENT_NAME_FIELD) {
        FieldPlan::ReadStudentName
    } else if same_text(name, TASK_NAME_FIELD) {
        FieldPlan::ReadTaskName
    } else if same_text(name, ANSWER_FILE_FIELD) {
        match file_name {
            Some(f) => {
                let stored = id.to_owned().concat("-").concat(f);
                let disk_path = EXAM_FILES_DIR.to_owned().concat(stored.as_str());
                let public_path = EXAM_FILES_URL.to_owned().concat(stored.as_str());
                assert(stored@ =~= stored_file_name(id@, f@));
                FieldPlan::StoreAnswerFile { disk_path, public_path }
            },
            None => FieldPlan::Skip,
        }
    } else {
        FieldPlan::Skip
    }
}

/// What to do with a field named `name`, carrying the file `file_name`, if
/// any; a file to store is named after a new ULID.
pub fn plan_field(name: Option<&str>, file_name: Option<&str>) -> (plan: FieldPlan)
    ensures
        exists|id: Seq<char>| is_ulid_text(id) && #[trigger] is_plan_for(plan, opt_text(name), opt_text(file_name), id),
        plan matches FieldPlan::StoreAnswerFile { disk_path, public_path } ==> {
            &&& file_name is Some
            &&& public_path@ == seq!['/'] + disk_path@
        },
{
    let is_answer_file = match name {
        Some(n) => same_text(n, ANSWER_FILE_FIELD),
        None => false,
    };
    if is_answer_file && file_name.is_some() {
        let id = new_ulid();
        let plan = plan_field_with_id(name, file_name, id.as_str());
        assert(is_plan_for(plan, opt_text(name), opt_text(file_name), id@));
        plan
    } else {
        let ghost id = Seq::new(26, |i: int| 'A');
        let plan = plan_field_with_id(name, file_name, "");
        proof {
            reveal_strlit("answer_file");
            assert(ANSWER_FILE_FIELD@.len() == 11);
            assert(is_ulid_text(id));
            assert(is_plan_for(plan, opt_text(name), opt_text(file_name), ""@));
            assert(is_plan_for(plan, opt_text(name), opt_text(file_name), id));
        }
        plan
    }
}

/// An answer's file is offered at the path under which it is stored on
/// disk, with a leading `/`; both end in the file's own name.
pub proof fn lemma_answer_paths(id: Seq<char>, file_name: Seq<char>)
    ensures
        answer_public_path(id, file_name) == seq!['/'] + answer_disk_path(id, file_name),
        answer_disk_path(id, file_name).subrange(
            answer_disk_path(id, file_name).len() - file_name.len(),
            answer_disk_path(id, file_name).len() as int,
        ) == file_name,
{
    reveal_strlit("assets/exam_files/");
    reveal_strlit("/assets/exam_files/");
    assert(answer_public_path(id, file_name) =~= seq!['/'] + answer_disk_path(id, file_name));
    assert(answer_disk_path(id, file_name).subrange(
        answer_disk_path(id, file_name).len() - file_name.len(),
        answer_disk_path(id, file_name).len() as int,
    ) =~= file_name);
}

/// A submitted answer, as the database stores it.
pub struct ExamForm {
    /// The record's id, which the database sets.
    pub id: Option<String>,
    pub student_name: String,
    pub task_name: String,
    /// Where the server offers the answer's file, if one came.
    pub answer_file: Option<String>,
    pub created_at: LocalDateTime,
    /// `created_at` as `YYYY-MM-DD HH:MM:SS`.
    pub created_at_pretty: String,
}

/// The text of a field whose reading may have failed: a failed reading gives
/// the empty text.
pub open spec fn text_or_empty(text: Option<String>) -> Seq<char> {
    match text {
        Some(t) => t@,
        None => Seq::<char>::empty(),
    }
}

impl ExamForm {
    /// The empty form of an answer submitted at `created_at`: no id, no names
    /// and no file yet. There is none where `created_at` names no date-time.
    pub fn new(created_at: LocalDateTime) -> (form: Option<ExamForm>)
        ensures
            form is Some <==> created_at.valid(),
            form matches Some(f) ==> {
                &&& f.id is None
                &&& f.student_name@ == Seq::<char>::empty()
                &&& f.task_name@ == Seq::<char>::empty()
                &&& f.answer_file is None
                &&& f.created_at == created_at
                &&& f.created_at_pretty@ == created_at.pretty()
            },
    {
        if !created_at.is_valid() {
            return None;
        }
        let created_at_pretty = format_date_time(&created_at);
        Some(ExamForm {
            id: None,
            student_name: String::new(),
            task_name: String::new(),
            answer_file: None,
            created_at,
            created_at_pretty,
        })
    }

    /// Takes in the outcome of the field that `plan` was made for: the text
    /// read, if the plan reads one (`None` where the reading failed), or the
    /// stored file, once the plan's file is written. A later field of the same
    /// name overrides an earlier one.
    pub fn record(&mut self, plan: &FieldPlan, text: Option<String>)
        ensures
            match *plan {
                FieldPlan::ReadStudentName => *final(self) == (ExamForm {
                    student_name: final(self).student_name,
                    ..*old(self)
                }) && final(self).student_name@ == text_or_empty(text),
                FieldPlan::ReadTaskName => *final(self) == (ExamForm {
                    task_name: final(self).task_name,
                    ..*old(self)
                }) && final(self).task_name@ == text_or_empty(text),
                FieldPlan::StoreAnswerFile { public_path, .. } => *final(self) == (ExamForm {
                    answer_file: Some(public_path),
                    ..*old(self)
                }),
                FieldPlan::Skip => *final(self) == *old(self),
            },
            answers(*final(self)) == apply_plan(answers(*old(self)), *plan, text_or_empty(text)),
            *plan is ReadStudentName ==> match text {
                Some(t) => final(self).student_name@ == t@,
                None => final(self).student_name@.len() == 0,
            },
            *plan is ReadTaskName ==> match text {
                Some(t) => final(self).task_name@ == t@,
                None => final(self).task_name@.len() == 0,
            },
    {
        match plan {
            FieldPlan::ReadStudentName => {
                self.student_name = match text {
                    Some(t) => t,
                    None => String::new(),
                };
            },
            FieldPlan::ReadTaskName => {
                self.task_name = match text {
                    Some(t) => t,
                    None => String::new(),
                };
            },
            FieldPlan::StoreAnswerFile { public_path, .. } => {
                self.answer_file = Some(public_path.clone());
            },
            FieldPlan::Skip => {},
        }
    }
}

/// The reply to a submitted answer, given the ids of the records that the
/// database created for it: the first one's id, or the status code 500 where
/// it created none.
pub fn submission_reply(created_ids: &Vec<String>) -> (reply: Result<String, u16>)
    ensures
        created_ids.len() == 0 ==> reply == Err::<String, u16>(INTERNAL_SERVER_ERROR),
        created_ids.len() > 0 ==> (reply matches Ok(text) && text@ == SUBMITTED_MESSAGE@ + created_ids[0]@),
{
    if created_ids.len() == 0 {
        return Err(INTERNAL_SERVER_ERROR);
    }
    Ok(SUBMITTED_MESSAGE.to_owned().concat(created_ids[0].as_str()))
}

/// Two different ULIDs store two answers' files at different places, whatever
/// the files' names: neither the disk paths nor the offered paths meet.
pub proof fn lemma_distinct_ids_distinct_paths(
    id1: Seq<char>,
    file_name1: Seq<char>,
    id2: Seq<char>,
    file_name2: Seq<char>,
)
    requires
        is_ulid_text(id1),
        is_ulid_text(id2),
        id1 != id2,
    ensures
        answer_disk_path(id1, file_name1) != answer_disk_path(id2, file_name2),
        answer_public_path(id1, file_name1) != answer_public_path(id2, file_name2),
{
    let k = choose|k: int| 0 <= k < 26 && id1[k] != id2[k];
    assert(exists|k: int| 0 <= k < 26 && id1[k] != id2[k]) by {
        if forall|k: int| 0 <= k < 26 ==> id1[k] == id2[k] {
            assert(id1 =~= id2);
        }
    }
    let d1 = answer_disk_path(id1, file_name1);
    let d2 = answer_disk_path(id2, file_name2);
    let n = EXAM_FILES_DIR@.len() as int;
    assert(d1[n + k] == id1[k]);
    assert(d2[n + k] == id2[k]);
    let p1 = answer_public_path(id1, file_name1);
    let p2 = answer_public_path(id2, file_name2);
    let m = EXAM_FILES_URL@.len() as int;
    assert(p1[m + k] == id1[k]);
    assert(p2[m + k] == id2[k]);
}

/// What a submitted answer holds of its form's fields: the student's name,
/// the task's name, and where its file is offered, if it has one.
pub open spec fn answers(form: ExamForm) -> (Seq<char>, Seq<char>, Option<Seq<char>>) {
    (
        form.student_name@,
        form.task_name@,
        match form.answer_file {
            Some(p) => Some(p@),
            None => None,
        },
    )
}

/// What `answers` become once `plan` is carried out, with `text` the text read
/// (empty where the reading failed).
pub open spec fn apply_plan(
    answers: (Seq<char>, Seq<char>, Option<Seq<char>>),
    plan: FieldPlan,
    text: Seq<char>,
) -> (Seq<char>, Seq<char>, Option<Seq<char>>) {
    match plan {
        FieldPlan::ReadStudentName => (text, answers.1, answers.2),
        FieldPlan::ReadTaskName => (answers.0, text, answers.2),
        FieldPlan::StoreAnswerFile { public_path, .. } => (answers.0, answers.1, Some(public_path@)),
        FieldPlan::Skip => answers,
    }
}

/// A field of a submitted form as it arrives, with what came of it: its name,
/// its file name, the text read from it (empty where the reading failed or
/// nothing was read) and the ULID given to its file, if one was stored.
pub type ReceivedField = (Option<Seq<char>>, Option<Seq<char>>, Seq<char>, Seq<char>);

/// The name of a received field, none read as the empty name.
pub open spec fn received_name(field: ReceivedField) -> Seq<char> {
    match field.0 {
        Some(n) => n,
        None => Seq::<char>::empty(),
    }
}

/// Whether a received field is one that the form takes in: the student's name,
/// the task's name or the answer's file.
pub open spec fn is_form_field(field: ReceivedField) -> bool {
    let name = received_name(field);
    name == STUDENT_NAME_FIELD@ || name == TASK_NAME_FIELD@ || name == ANSWER_FILE_FIELD@
}

/// What `answers` become once `field` is taken in.
pub open spec fn apply_field(
    answers: (Seq<char>, Seq<char>, Option<Seq<char>>),
    field: ReceivedField,
) -> (Seq<char>, Seq<char>, Option<Seq<char>>) {
    let name = received_name(field);
    if name == STUDENT_NAME_FIELD@ {
        (field.2, answers.1, answers.2)
    } else if name == TASK_NAME_FIELD@ {
        (answers.0, field.2, answers.2)
    } else if name == ANSWER_FILE_FIELD@ && field.1 is Some {
        (answers.0, answers.1, Some(answer_public_path(field.3, field.1->0)))
    } else {
        answers
    }
}

/// What `answers` become once the fields `fields` are taken in, in order.
pub open spec fn apply_fields(
    answers: (Seq<char>, Seq<char>, Option<Seq<char>>),
    fields: Seq<ReceivedField>,
) -> (Seq<char>, Seq<char>, Option<Seq<char>>)
    decreases fields.len(),
{
    if fields.len() == 0 {
        answers
    } else {
        apply_field(apply_fields(answers, fields.drop_last()), fields.last())
    }
}

/// The fields of `fields` that the form takes in, in order.
pub open spec fn form_fields(fields: Seq<ReceivedField>) -> Seq<ReceivedField>
    decreases fields.len(),
{
    if fields.len() == 0 {
        fields
    } else if is_form_field(fields.last()) {
        form_fields(fields.drop_last()).push(fields.last())
    } else {
        form_fields(fields.drop_last())
    }
}

/// Carrying out the plan made for a field, as `ExamForm::record` does, takes
/// the field in as `apply_field` says.
pub proof fn lemma_plan_applies_field(
    answers: (Seq<char>, Seq<char>, Option<Seq<char>>),
    plan: FieldPlan,
    name: Option<Seq<char>>,
    file_name: Option<Seq<char>>,
    text: Seq<char>,
    id: Seq<char>,
)
    requires
        is_plan_for(plan, name, file_name, id),
    ensures
        apply_plan(answers, plan, text) == apply_field(answers, (name, file_name, text, id)),
{
}

/// A field that is none of the form's own leaves the answers as they are.
pub proof fn lemma_other_field_ignored(
    answers: (Seq<char>, Seq<char>, Option<Seq<char>>),
    field: ReceivedField,
)
    requires
        !is_form_field(field),
    ensures
        apply_field(answers, field) == answers,
{
}

/// Fields that are none of the form's own, wherever they come among the
/// others, change nothing: the answers are those of the form's own fields
/// alone.
pub proof fn lemma_other_fields_ignored(
    answers: (Seq<char>, Seq<char>, Option<Seq<char>>),
    fields: Seq<ReceivedField>,
)
    ensures
        apply_fields(answers, fields) == apply_fields(answers, form_fields(fields)),
    decreases fields.len(),
{
    if fields.len() > 0 {
        lemma_other_fields_ignored(answers, fields.drop_last());
        let kept = form_fields(fields.drop_last());
        if is_form_field(fields.last()) {
            assert(kept.push(fields.last()).drop_last() =~= kept);
        }
    }
}

/// Of several fields of the same name, the last one wins: after a field of the
/// student's name, or of the task's name, the later fields of other names leave
/// that name as the field gave it.
pub proof fn lemma_last_field_wins(
    answers: (Seq<char>, Seq<char>, Option<Seq<char>>),
    before: Seq<ReceivedField>,
    field: ReceivedField,
    after: Seq<ReceivedField>,
)
    requires
        received_name(field) == STUDENT_NAME_FIELD@ || received_name(field) == TASK_NAME_FIELD@,
        forall|i: int| 0 <= i < after.len() ==> received_name(#[trigger] after[i]) != received_name(field),
    ensures
        received_name(field) == STUDENT_NAME_FIELD@ ==> apply_fields(answers, before.push(field) + after).0 == field.2,
        received_name(field) == TASK_NAME_FIELD@ ==> apply_fields(answers, before.push(field) + after).1 == field.2,
    decreases after.len(),
{
    reveal_strlit("student_name");
    reveal_strlit("task_name");
    assert(STUDENT_NAME_FIELD@ != TASK_NAME_FIELD@) by {
        assert(STUDENT_NAME_FIELD@.len() != TASK_NAME_FIELD@.len());
    }
    let all = before.push(field) + after;
    if after.len() == 0 {
        assert(all =~= before.push(field));
        assert(all.drop_last() =~= before);
    } else {
        let shorter = after.drop_last();
        lemma_last_field_wins(answers, before, field, shorter);
        assert(all.drop_last() =~= before.push(field) + shorter);
        assert(all.last() == after.last());
        assert(received_name(after[after.len() - 1]) != received_name(field));
    }
}

/// The plan for an answer's file writes the file where it offers it: the
/// offered path is the disk path with a leading `/`, and the disk path is the
/// exam files' directory, the ULID, a `-` and the whole file name, so the file
/// keeps its name after the ULID.
pub proof fn lemma_stored_file_plan(
    plan: FieldPlan,
    name: Option<Seq<char>>,
    file_name: Option<Seq<char>>,
    id: Seq<char>,
)
    requires
        is_plan_for(plan, name, file_name, id),
        plan is StoreAnswerFile,
    ensures
        file_name is Some,
        plan->public_path@ == seq!['/'] + plan->disk_path@,
        plan->disk_path@ == "assets/exam_files/"@ + id + "-"@ + file_name->0,
        plan->disk_path@.subrange(
            plan->disk_path@.len() - file_name->0.len(),
            plan->disk_path@.len() as int,
        ) == file_name->0,
{
    reveal_strlit("assets/exam_files/");
    reveal_strlit("/assets/exam_files/");
    let f = file_name->0;
    let d = plan->disk_path@;
    assert(d =~= "assets/exam_files/"@ + id + "-"@ + f);
    assert(plan->public_path@ =~= seq!['/'] + d);
    assert(d.subrange(d.len() - f.len(), d.len() as int) =~= f);
}

/// A field's text, read whole, is taken in unchanged; only a failed reading
/// gives the empty text.
pub proof fn lemma_read_text_kept(t: String)
    ensures
        text_or_empty(Some(t)) == t@,
        text_or_empty(None).len() == 0,
{
}

/// Taking in a name field gives that name the field's whole text, and leaves
/// the other answers as they were; an answer file is offered at the path
/// under its ULID and its whole name.
pub proof fn lemma_field_sets_its_answer(
    answers: (Seq<char>, Seq<char>, Option<Seq<char>>),
    field: ReceivedField,
)
    ensures
        received_name(field) == STUDENT_NAME_FIELD@ ==> apply_field(answers, field) == (
            field.2,
            answers.1,
            answers.2,
        ),
        received_name(field) == TASK_NAME_FIELD@ ==> apply_field(answers, field) == (
            answers.0,
            field.2,
            answers.2,
        ),
        received_name(field) == ANSWER_FILE_FIELD@ && field.1 is Some ==> apply_field(answers, field)
            == (answers.0, answers.1, Some("/assets/exam_files/"@ + field.3 + "-"@ + field.1->0)),
{
    reveal_strlit("student_name");
    reveal_strlit("task_name");
    reveal_strlit("answer_file");
    reveal_strlit("/assets/exam_files/");
    assert(STUDENT_NAME_FIELD@.len() == 12);
    assert(TASK_NAME_FIELD@.len() == 9);
    assert(ANSWER_FILE_FIELD@.len() == 11);
    if received_name(field) == ANSWER_FILE_FIELD@ && field.1 is Some {
        assert(answer_public_path(field.3, field.1->0) =~= "/assets/exam_files/"@ + field.3 + "-"@ + field.1->0);
    }
}

} // verus!
