use crate::tencent::model::{ApplicationProgress, ListItem};
use vstd::prelude::*;

verus! {

/// The stage an application has reached.
#[derive(Clone, Copy, Debug, PartialEq, Eq, Structural)]
pub enum Step {
    CvDeliverance,
    Examination,
    WrittenTest,
    GroupInterview,
    PreliminaryInterview,
    SecondaryInterview,
    HrInterview,
    EmployerAssessment,
    EmployeeConfirmation,
    OfferConfirmation,
    SignUp,
    Completed,
}

/// A step number that no known stage carries.
#[derive(Clone, Copy, Debug, PartialEq, Eq, Structural)]
pub enum Error {
    UnknownStep(u32),
}

/// The status the site gives a step that is under way.
pub open spec fn in_progress(s: Seq<ListItem>, j: int, in_progress_only: bool) -> bool {
    !in_progress_only || s[j].status == 2
}

/// Among the first `n` items (those under way only, if asked), `i` has the
/// highest step number, and is the first of the items that share it.
pub open spec fn is_top_in(s: Seq<ListItem>, n: int, i: int, in_progress_only: bool) -> bool {
    &&& 0 <= i < n <= s.len()
    &&& in_progress(s, i, in_progress_only)
    &&& forall|j: int|
        0 <= j < n && in_progress(s, j, in_progress_only) ==> #[trigger] s[j].step_id
            <= s[i].step_id
    &&& forall|j: int|
        0 <= j < i && in_progress(s, j, in_progress_only) ==> #[trigger] s[j].step_id
            < s[i].step_id
}

pub open spec fn is_top(s: Seq<ListItem>, i: int, in_progress_only: bool) -> bool {
    is_top_in(s, s.len() as int, i, in_progress_only)
}

/// Among the first `n` items, `i` has the lowest step number, and is the
/// last of the items that share it.
pub open spec fn is_bottom_in(s: Seq<ListItem>, n: int, i: int) -> bool {
    &&& 0 <= i < n <= s.len()
    &&& forall|j: int| 0 <= j < n ==> s[i].step_id <= #[trigger] s[j].step_id
    &&& forall|j: int| i < j < n ==> s[i].step_id < #[trigger] s[j].step_id
}

pub open spec fn is_bottom(s: Seq<ListItem>, i: int) -> bool {
    is_bottom_in(s, s.len() as int, i)
}

/// The step under way in a round: of the items under way, the one with the
/// highest step number (the first of equals).
pub open spec fn current_item(s: Seq<ListItem>) -> Option<ListItem> {
    if exists|i: int| is_top(s, i, true) {
        Some(s[choose|i: int| is_top(s, i, true)])
    } else {
        None
    }
}

/// The first round has started but not gone past its opening step: its
/// lowest step (the last of equals) is just open and its highest step (the
/// first of equals) is not done.
pub open spec fn round_one_waiting(s: Seq<ListItem>) -> bool {
    s.len() > 0 && s[choose|i: int| is_bottom(s, i)].status == 1 && s[choose|i: int|
        is_top(s, i, false)].status < 3
}

pub open spec fn recruit_one(step_id: u32) -> Result<Step, Error> {
    if step_id == 1 {
        Ok(Step::GroupInterview)
    } else if step_id == 2 {
        Ok(Step::PreliminaryInterview)
    } else if step_id == 3 {
        Ok(Step::SecondaryInterview)
    } else if step_id == 5 {
        Ok(Step::HrInterview)
    } else {
        Err(Error::UnknownStep(step_id))
    }
}

pub open spec fn recruit_two(step_id: u32) -> Result<Step, Error> {
    if step_id == 1 {
        Ok(Step::EmployerAssessment)
    } else if step_id == 2 {
        Ok(Step::EmployeeConfirmation)
    } else if step_id == 3 {
        Ok(Step::OfferConfirmation)
    } else {
        Err(Error::UnknownStep(step_id))
    }
}

pub open spec fn as_current(r: Result<Step, Error>) -> Result<Option<Step>, Error> {
    match r {
        Ok(s) => Ok(Some(s)),
        Err(e) => Err(e),
    }
}

/// The stage an application has reached, read from its state.
pub open spec fn current_step(ap: ApplicationProgress) -> Result<Option<Step>, Error> {
    let r1 = ap.campus_recruit_one.item_list@;
    let r2 = ap.campus_recruit_two.item_list@;
    if ap.resume_status.status < 2 {
        Ok(None)
    } else if ap.resume_status.status < 3 {
        Ok(Some(Step::CvDeliverance))
    } else if ap.assessment_info.status == 2 {
        Ok(Some(Step::Examination))
    } else if ap.written_test_info.status == 2 {
        Ok(Some(Step::WrittenTest))
    } else if current_item(r1) is Some {
        as_current(recruit_one(current_item(r1).unwrap().step_id))
    } else if round_one_waiting(r1) {
        Ok(None)
    } else if current_item(r2) is Some {
        as_current(recruit_two(current_item(r2).unwrap().step_id))
    } else {
        Ok(Some(Step::Completed))
    }
}

proof fn lemma_top_unique(s: Seq<ListItem>, i: int, k: int, in_progress_only: bool)
    requires
        is_top(s, i, in_progress_only),
        is_top(s, k, in_progress_only),
    ensures
        i == k,
{
    if i < k {
        assert(s[i].step_id < s[k].step_id);
    } else if k < i {
        assert(s[k].step_id < s[i].step_id);
    }
}

proof fn lemma_bottom_unique(s: Seq<ListItem>, i: int, k: int)
    requires
        is_bottom(s, i),
        is_bottom(s, k),
    ensures
        i == k,
{
    if i < k {
        assert(s[i].step_id < s[k].step_id);
    } else if k < i {
        assert(s[k].step_id < s[i].step_id);
    }
}

/// The item with the highest step number (of those under way only, if asked),
/// the first of equals.
fn find_top(items: &Vec<ListItem>, in_progress_only: bool) -> (r: Option<usize>)
    ensures
        r matches Some(i) ==> is_top(items@, i as int, in_progress_only),
        r is None ==> forall|j: int|
            0 <= j < items@.len() ==> !#[trigger] in_progress(items@, j, in_progress_only),
{
    let mut best: Option<usize> = None;
    let mut i: usize = 0;
    while i < items.len()
        invariant
            i <= items@.len(),
            best matches Some(b) ==> is_top_in(items@, i as int, b as int, in_progress_only),
            best is None ==> forall|j: int|
                0 <= j < i ==> !#[trigger] in_progress(items@, j, in_progress_only),
        decreases items@.len() - i,
    {
        let item = items[i];
        if !in_progress_only || item.status == 2 {
            match best {
                None => {
                    best = Some(i);
                },
                Some(b) => {
                    if items[b].step_id < item.step_id {
                        best = Some(i);
                    }
                },
            }
        }
        i = i + 1;
    }
    best
}

/// The item with the lowest step number, the last of equals.
fn find_bottom(items: &Vec<ListItem>) -> (r: Option<usize>)
    ensures
        r matches Some(i) ==> is_bottom(items@, i as int),
        r is None ==> items@.len() == 0,
{
    if items.len() == 0 {
        return None;
    }
    let mut b: usize = 0;
    let mut i: usize = 1;
    while i < items.len()
        invariant
            1 <= i <= items@.len(),
            is_bottom_in(items@, i as int, b as int),
        decreases items@.len() - i,
    {
        if items[i].step_id <= items[b].step_id {
            b = i;
        }
        i = i + 1;
    }
    Some(b)
}

/// The step under way in a round, if any.
fn current_in(items: &Vec<ListItem>) -> (r: Option<ListItem>)
    ensures
        r == current_item(items@),
{
    match find_top(items, true) {
        Some(i) => {
            proof {
                let k = choose|k: int| is_top(items@, k, true);
                lemma_top_unique(items@, i as int, k, true);
            }
            Some(items[i])
        },
        None => {
            assert(!exists|k: int| is_top(items@, k, true)) by {
                if exists|k: int| is_top(items@, k, true) {
                    let k = choose|k: int| is_top(items@, k, true);
                    assert(in_progress(items@, k, true));
                }
            }
            None
        },
    }
}

/// Whether the first round sits at its opening step.
fn waiting_in_round_one(items: &Vec<ListItem>) -> (r: bool)
    ensures
        r == round_one_waiting(items@),
{
    match (find_bottom(items), find_top(items, false)) {
        (Some(lo), Some(hi)) => {
            proof {
                let a = choose|k: int| is_bottom(items@, k);
                lemma_bottom_unique(items@, lo as int, a);
                let c = choose|k: int| is_top(items@, k, false);
                lemma_top_unique(items@, hi as int, c, false);
            }
            items[lo].status == 1 && items[hi].status < 3
        },
        (None, _) => false,
        (Some(_), None) => {
            assert(in_progress(items@, 0, false));
            false
        },
    }
}

/// The stage that a step number of the first round stands for.
pub fn recruit_one_step(step_id: u32) -> (r: Result<Step, Error>)
    ensures
        r == recruit_one(step_id),
{
    match step_id {
        1 => Ok(Step::GroupInterview),
        2 => Ok(Step::PreliminaryInterview),
        3 => Ok(Step::SecondaryInterview),
        5 => Ok(Step::HrInterview),
        _ => Err(Error::UnknownStep(step_id)),
    }
}

/// The stage that a step number of the second round stands for.
pub fn recruit_two_step(step_id: u32) -> (r: Result<Step, Error>)
    ensures
        r == recruit_two(step_id),
{
    match step_id {
        1 => Ok(Step::EmployerAssessment),
        2 => Ok(Step::EmployeeConfirmation),
        3 => Ok(Step::OfferConfirmation),
        _ => Err(Error::UnknownStep(step_id)),
    }
}

impl ApplicationProgress {
    /// The stage the application has reached: `Ok(None)` where the state
    /// names none yet, an error where a round names a step that no stage has.
    pub fn get_current_step(&self) -> (r: Result<Option<Step>, Error>)
        ensures
            r == current_step(*self),
    {
        if self.resume_status.status < 3 {
            return if self.resume_status.status < 2 {
                Ok(None)
            } else {
                Ok(Some(Step::CvDeliverance))
            };
        }
        if self.assessment_info.status == 2 {
            return Ok(Some(Step::Examination));
        }
        if self.written_test_info.status == 2 {
            return Ok(Some(Step::WrittenTest));
        }
        let r1 = &self.campus_recruit_one.item_list;
        if let Some(item) = current_in(r1) {
            return match recruit_one_step(item.step_id) {
                Ok(s) => Ok(Some(s)),
                Err(e) => Err(e),
            };
        }
        if waiting_in_round_one(r1) {
            return Ok(None);
        }
        if let Some(item) = current_in(&self.campus_recruit_two.item_list) {
            return match recruit_two_step(item.step_id) {
                Ok(s) => Ok(Some(s)),
                Err(e) => Err(e),
            };
        }
        Ok(Some(Step::Completed))
    }
}

} // verus!
