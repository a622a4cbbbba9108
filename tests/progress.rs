use qazer::tencent::model::{
    ApplicationProgress, AssessmentInfo, CampusRecruitI, CampusRecruitII, CurrentStatus, ListItem,
    PositionInfo, ResumeStatus, WrittenTestInfo,
};
use qazer::tencent::progress::{recruit_one_step, recruit_two_step, Error, Step};

fn item(step_id: u32, status: u8) -> ListItem {
    ListItem { step_id, status }
}

fn progress(resume: u8, assessment: u8, written: u8, r1: Vec<ListItem>, r2: Vec<ListItem>) -> ApplicationProgress {
    ApplicationProgress {
        resume_id: 7,
        current_status: CurrentStatus { status: 1, apply_process_type: 0 },
        assessment_info: AssessmentInfo {
            status: assessment,
            test_address: String::from("addr"),
            mobile_tail: String::from("1234"),
        },
        position_info: PositionInfo {
            apply_position_txt: String::from("backend"),
            interview_position_txt: String::from("backend"),
            sub_direction_id_txt: None,
        },
        resume_status: ResumeStatus { status: resume, is_public: 0 },
        written_test_info: WrittenTestInfo { status: written, item_list: vec![] },
        campus_recruit_one: CampusRecruitI {
            id: 1,
            item_list: r1,
            recruit_type: 2,
            recruit_type_name: String::from("campus"),
        },
        campus_recruit_two: CampusRecruitII { reply_token: None, item_list: r2, bgid: 3 },
    }
}

#[test]
fn resume_not_sent_has_no_step() {
    assert_eq!(progress(1, 0, 0, vec![], vec![]).get_current_step(), Ok(None));
}

#[test]
fn resume_in_screening_is_cv_deliverance() {
    assert_eq!(progress(2, 2, 2, vec![], vec![]).get_current_step(), Ok(Some(Step::CvDeliverance)));
}

#[test]
fn assessment_then_written_test() {
    assert_eq!(progress(3, 2, 2, vec![], vec![]).get_current_step(), Ok(Some(Step::Examination)));
    assert_eq!(progress(3, 3, 2, vec![], vec![]).get_current_step(), Ok(Some(Step::WrittenTest)));
}

#[test]
fn round_one_takes_highest_step_under_way() {
    let r1 = vec![item(1, 2), item(3, 2), item(2, 3)];
    assert_eq!(progress(3, 3, 3, r1, vec![]).get_current_step(), Ok(Some(Step::SecondaryInterview)));
    let r1 = vec![item(5, 2), item(1, 3)];
    assert_eq!(progress(3, 3, 3, r1, vec![]).get_current_step(), Ok(Some(Step::HrInterview)));
}

#[test]
fn round_one_unknown_step_is_an_error() {
    let r1 = vec![item(4, 2), item(1, 3)];
    assert_eq!(progress(3, 3, 3, r1, vec![]).get_current_step(), Err(Error::UnknownStep(4)));
}

#[test]
fn round_one_at_opening_step_has_no_step() {
    let r1 = vec![item(2, 1), item(1, 1)];
    assert_eq!(progress(3, 3, 3, r1, vec![item(1, 2)]).get_current_step(), Ok(None));
}

#[test]
fn round_two_follows_a_finished_round_one() {
    let r1 = vec![item(1, 3), item(2, 3)];
    let r2 = vec![item(1, 3), item(2, 2)];
    assert_eq!(progress(3, 3, 3, r1, r2).get_current_step(), Ok(Some(Step::EmployeeConfirmation)));
}

#[test]
fn nothing_under_way_is_completed() {
    let r1 = vec![item(1, 3), item(2, 3)];
    let r2 = vec![item(1, 3)];
    assert_eq!(progress(3, 3, 3, r1, r2).get_current_step(), Ok(Some(Step::Completed)));
    assert_eq!(progress(3, 3, 3, vec![], vec![]).get_current_step(), Ok(Some(Step::Completed)));
}

#[test]
fn step_numbers_map_to_stages() {
    assert_eq!(recruit_one_step(1), Ok(Step::GroupInterview));
    assert_eq!(recruit_one_step(2), Ok(Step::PreliminaryInterview));
    assert_eq!(recruit_one_step(3), Ok(Step::SecondaryInterview));
    assert_eq!(recruit_one_step(5), Ok(Step::HrInterview));
    assert_eq!(recruit_one_step(4), Err(Error::UnknownStep(4)));
    assert_eq!(recruit_two_step(1), Ok(Step::EmployerAssessment));
    assert_eq!(recruit_two_step(2), Ok(Step::EmployeeConfirmation));
    assert_eq!(recruit_two_step(3), Ok(Step::OfferConfirmation));
    assert_eq!(recruit_two_step(0), Err(Error::UnknownStep(0)));
}

#[test]
fn progress_equality_is_structural() {
    let a = progress(3, 3, 3, vec![item(1, 2)], vec![]);
    let mut b = a.clone();
    assert!(a == b);
    b.position_info.sub_direction_id_txt = Some(String::from("x"));
    assert!(a != b);
    let mut c = a.clone();
    c.campus_recruit_one.item_list[0].status = 3;
    assert!(a != c);
    let mut d = a.clone();
    d.assessment_info.mobile_tail.push('9');
    assert!(a != d);
}
