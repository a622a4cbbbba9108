use vstd::prelude::*;
use vstd::std_specs::cmp::PartialEqSpec;

verus! {

#[derive(Clone, Copy, Debug, PartialEq, Eq, Structural)]
pub struct CurrentStatus {
    pub status: u8,
    pub apply_process_type: u8,
}

#[derive(Clone, Debug)]
pub struct PositionInfo {
    pub apply_position_txt: String,
    pub interview_position_txt: String,
    pub sub_direction_id_txt: Option<String>,
}

#[derive(Clone, Copy, Debug, PartialEq, Eq, Structural)]
pub struct ResumeStatus {
    pub status: u8,
    pub is_public: u8,
}

#[derive(Clone, Debug)]
pub struct AssessmentInfo {
    pub status: u8,
    pub test_address: String,
    pub mobile_tail: String,
}

#[derive(Clone, Debug)]
pub struct WrittenTestInfo {
    pub status: u8,
    pub item_list: Vec<ListItem>,
}

#[derive(Clone, Debug)]
pub struct CampusRecruitI {
    pub id: u32,
    pub item_list: Vec<ListItem>,
    pub recruit_type: u32,
    pub recruit_type_name: String,
}

#[derive(Clone, Debug)]
pub struct CampusRecruitII {
    pub reply_token: Option<String>,
    pub item_list: Vec<ListItem>,
    pub bgid: u32,
}

/// One step of a recruiting round, with the state the site reports for it.
#[derive(Clone, Copy, Debug)]
pub struct ListItem {
    pub step_id: u32,
    pub status: u8,
}

/// The whole state of one application, as the recruiting site reports it.
#[derive(Clone, Debug)]
pub struct ApplicationProgress {
    pub resume_id: u32,
    pub current_status: CurrentStatus,
    pub assessment_info: AssessmentInfo,
    pub position_info: PositionInfo,
    pub resume_status: ResumeStatus,
    pub written_test_info: WrittenTestInfo,
    pub campus_recruit_one: CampusRecruitI,
    pub campus_recruit_two: CampusRecruitII,
}

#[derive(Clone, Debug)]
pub struct GetApplyProcessResponse {
    pub message: String,
    pub status: u16,
    pub data: ApplicationProgress,
}

/// Two optional texts are equal: both absent, or both present with the same
/// characters.
pub open spec fn same_opt_text(a: Option<String>, b: Option<String>) -> bool {
    match (a, b) {
        (None, None) => true,
        (Some(x), Some(y)) => x@ == y@,
        _ => false,
    }
}

fn opt_text_eq(a: &Option<String>, b: &Option<String>) -> (r: bool)
    ensures
        r == same_opt_text(*a, *b),
{
    match (a, b) {
        (None, None) => true,
        (Some(x), Some(y)) => *x == *y,
        _ => false,
    }
}

fn items_eq(a: &Vec<ListItem>, b: &Vec<ListItem>) -> (r: bool)
    ensures
        r == (a@ == b@),
{
    let r = *a == *b;
    proof {
        if r {
            assert(a@ =~= b@);
        } else if a@ == b@ {
            assert forall|i: int| 0 <= i < a.len() implies a[i].eq_spec(&b[i]) by {
                assert(a@[i] == b@[i]);
            }
        }
    }
    r
}

impl PartialEq for ListItem {
    fn eq(&self, o: &ListItem) -> (r: bool) {
        self.step_id == o.step_id && self.status == o.status
    }
}

impl vstd::std_specs::cmp::PartialEqSpecImpl for ListItem {
    open spec fn obeys_eq_spec() -> bool {
        true
    }

    open spec fn eq_spec(&self, o: &ListItem) -> bool {
        *self == *o
    }
}

impl PartialEq for PositionInfo {
    fn eq(&self, o: &PositionInfo) -> (r: bool) {
        self.apply_position_txt == o.apply_position_txt && self.interview_position_txt
            == o.interview_position_txt && opt_text_eq(
            &self.sub_direction_id_txt,
            &o.sub_direction_id_txt,
        )
    }
}

impl vstd::std_specs::cmp::PartialEqSpecImpl for PositionInfo {
    open spec fn obeys_eq_spec() -> bool {
        true
    }

    open spec fn eq_spec(&self, o: &PositionInfo) -> bool {
        same_position(*self, *o)
    }
}

pub open spec fn same_position(a: PositionInfo, b: PositionInfo) -> bool {
        &&& a.apply_position_txt@ == b.apply_position_txt@
        &&& a.interview_position_txt@ == b.interview_position_txt@
        &&& same_opt_text(a.sub_direction_id_txt, b.sub_direction_id_txt)
}

impl PartialEq for AssessmentInfo {
    fn eq(&self, o: &AssessmentInfo) -> (r: bool) {
        self.status == o.status && self.test_address == o.test_address && self.mobile_tail
            == o.mobile_tail
    }
}

impl vstd::std_specs::cmp::PartialEqSpecImpl for AssessmentInfo {
    open spec fn obeys_eq_spec() -> bool {
        true
    }

    open spec fn eq_spec(&self, o: &AssessmentInfo) -> bool {
        same_assessment(*self, *o)
    }
}

pub open spec fn same_assessment(a: AssessmentInfo, b: AssessmentInfo) -> bool {
        &&& a.status == b.status
        &&& a.test_address@ == b.test_address@
        &&& a.mobile_tail@ == b.mobile_tail@
}

impl PartialEq for WrittenTestInfo {
    fn eq(&self, o: &WrittenTestInfo) -> (r: bool) {
        self.status == o.status && items_eq(&self.item_list, &o.item_list)
    }
}

impl vstd::std_specs::cmp::PartialEqSpecImpl for WrittenTestInfo {
    open spec fn obeys_eq_spec() -> bool {
        true
    }

    open spec fn eq_spec(&self, o: &WrittenTestInfo) -> bool {
        same_written_test(*self, *o)
    }
}

pub open spec fn same_written_test(a: WrittenTestInfo, b: WrittenTestInfo) -> bool {
        &&& a.status == b.status
        &&& a.item_list@ == b.item_list@
}

impl PartialEq for CampusRecruitI {
    fn eq(&self, o: &CampusRecruitI) -> (r: bool) {
        self.id == o.id && items_eq(&self.item_list, &o.item_list) && self.recruit_type
            == o.recruit_type && self.recruit_type_name == o.recruit_type_name
    }
}

impl vstd::std_specs::cmp::PartialEqSpecImpl for CampusRecruitI {
    open spec fn obeys_eq_spec() -> bool {
        true
    }

    open spec fn eq_spec(&self, o: &CampusRecruitI) -> bool {
        same_round_one(*self, *o)
    }
}

pub open spec fn same_round_one(a: CampusRecruitI, b: CampusRecruitI) -> bool {
        &&& a.id == b.id
        &&& a.item_list@ == b.item_list@
        &&& a.recruit_type == b.recruit_type
        &&& a.recruit_type_name@ == b.recruit_type_name@
}

impl PartialEq for CampusRecruitII {
    fn eq(&self, o: &CampusRecruitII) -> (r: bool) {
        opt_text_eq(&self.reply_token, &o.reply_token) && items_eq(&self.item_list, &o.item_list)
            && self.bgid == o.bgid
    }
}

impl vstd::std_specs::cmp::PartialEqSpecImpl for CampusRecruitII {
    open spec fn obeys_eq_spec() -> bool {
        true
    }

    open spec fn eq_spec(&self, o: &CampusRecruitII) -> bool {
        same_round_two(*self, *o)
    }
}

pub open spec fn same_round_two(a: CampusRecruitII, b: CampusRecruitII) -> bool {
        &&& same_opt_text(a.reply_token, b.reply_token)
        &&& a.item_list@ == b.item_list@
        &&& a.bgid == b.bgid
}

impl PartialEq for ApplicationProgress {
    fn eq(&self, o: &ApplicationProgress) -> (r: bool) {
        self.resume_id == o.resume_id && self.current_status == o.current_status
            && self.assessment_info == o.assessment_info && self.position_info == o.position_info
            && self.resume_status == o.resume_status && self.written_test_info
            == o.written_test_info && self.campus_recruit_one == o.campus_recruit_one
            && self.campus_recruit_two == o.campus_recruit_two
    }
}

impl vstd::std_specs::cmp::PartialEqSpecImpl for ApplicationProgress {
    open spec fn obeys_eq_spec() -> bool {
        true
    }

    open spec fn eq_spec(&self, o: &ApplicationProgress) -> bool {
        same_progress(*self, *o)
    }
}

/// Full structural equality of two application states: every field, down to
/// each text and item.
pub open spec fn same_progress(a: ApplicationProgress, b: ApplicationProgress) -> bool {
        &&& a.resume_id == b.resume_id
        &&& a.current_status == b.current_status
        &&& same_assessment(a.assessment_info, b.assessment_info)
        &&& same_position(a.position_info, b.position_info)
        &&& a.resume_status == b.resume_status
        &&& same_written_test(a.written_test_info, b.written_test_info)
        &&& same_round_one(a.campus_recruit_one, b.campus_recruit_one)
        &&& same_round_two(a.campus_recruit_two, b.campus_recruit_two)
}

} // verus!
