//! Pull request records and the scores derived from them.

use crate::timestamp::{whole_hours, Timestamp};
use vstd::prelude::*;

verus! {

/// A snapshot of one pull request, as far as ranking needs it.
///
/// The values are taken as given: no field is checked, and every combination
/// of them has a score.
#[derive(Clone, Debug)]
pub struct Pr {
    /// Human-readable title.
    pub title: String,
    /// Canonical link to the pull request.
    pub url: String,
    /// When the latest commit was pushed, where that is known.
    pub last_commit_pushed_date: Option<Timestamp>,
    /// Outcome code of the test run; `1` stands for passing.
    pub tests_result: i64,
    /// Unresolved review conversations.
    pub open_conversations: i64,
    /// Approving reviews.
    pub num_approvals: i64,
    /// People asked to review, or taking part in it.
    pub num_reviewers: i64,
    /// Lines added.
    pub additions: i64,
    /// Lines removed.
    pub deletions: i64,
    /// `1` where the branch starts from the main branch, `0` where it does not.
    pub based_on_main_branch: i64,
}

/// A pull request together with its score.
#[derive(Clone, Debug)]
pub struct ScoredPr {
    pub pr: Pr,
    pub score: Score,
}

/// The eight contributions to the rank of a pull request, each in tenths of a
/// point.
#[derive(Clone, Copy, Debug)]
pub struct Score {
    age: i128,
    tests_result: i128,
    open_conversations: i128,
    num_approvals: i128,
    num_reviewers: i128,
    additions: i128,
    deletions: i128,
    based_on_main_branch: i128,
}

/// What a [`Score`] stands for: eight amounts in tenths of a point.
pub struct ScoreView {
    pub age: int,
    pub tests_result: int,
    pub open_conversations: int,
    pub num_approvals: int,
    pub num_reviewers: int,
    pub additions: int,
    pub deletions: int,
    pub based_on_main_branch: int,
}

impl ScoreView {
    /// The sum of the eight contributions.
    pub open spec fn total(self) -> int {
        self.age + self.tests_result + self.open_conversations + self.num_approvals
            + self.num_reviewers + self.additions + self.deletions + self.based_on_main_branch
    }
}

impl View for Score {
    type V = ScoreView;

    closed spec fn view(&self) -> ScoreView {
        ScoreView {
            age: self.age as int,
            tests_result: self.tests_result as int,
            open_conversations: self.open_conversations as int,
            num_approvals: self.num_approvals as int,
            num_reviewers: self.num_reviewers as int,
            additions: self.additions as int,
            deletions: self.deletions as int,
            based_on_main_branch: self.based_on_main_branch as int,
        }
    }
}

/// The width of the title column in a rendered line, in characters.
pub const TITLE_WIDTH: usize = 60;

/// A title as it fills the title column: cut after [`TITLE_WIDTH`] characters
/// where it is longer, followed by spaces up to that width where it is shorter.
pub open spec fn title_column(title: Seq<char>) -> Seq<char> {
    if title.len() >= TITLE_WIDTH {
        title.subrange(0, TITLE_WIDTH as int)
    } else {
        title + Seq::new((TITLE_WIDTH - title.len()) as nat, |i: int| ' ')
    }
}

/// The line that shows a pull request: the title column, one space, and the
/// link as it is.
pub open spec fn rendered(title: Seq<char>, url: Seq<char>) -> Seq<char> {
    title_column(title) + seq![' '] + url
}

impl Pr {
    /// The line that shows this pull request in a list.
    pub fn render(&self) -> (line: String)
        ensures
            line@ == rendered(self.title@, self.url@),
    {
        proof {
            reveal_strlit(" ");
        }
        let title = self.title.as_str();
        let len: usize = title.unicode_len();
        let mut line = String::new();
        if len >= TITLE_WIDTH {
            line.append(title.substring_char(0, TITLE_WIDTH));
        } else {
            line.append(title);
            let mut width: usize = len;
            while width < TITLE_WIDTH
                invariant
                    len == self.title@.len(),
                    len <= width <= TITLE_WIDTH,
                    " "@ == seq![' '],
                    line@ == self.title@ + Seq::new((width - len) as nat, |i: int| ' '),
                decreases TITLE_WIDTH - width,
            {
                line.append(" ");
                width += 1;
            }
        }
        line.append(" ");
        line.append(self.url.as_str());
        line
    }
}

/// No contribution to a score lies further from zero than this many tenths.
const CONTRIBUTION_LIMIT: i128 = 0x1_0000_0000_0000_0000_0000;

/// The age of a push at the instant `now`, in whole hours rounded toward
/// zero; zero where the time of the push is not known.
pub open spec fn age_hours(pushed: Option<Timestamp>, now: Timestamp) -> int {
    match pushed {
        Some(at) => whole_hours(now@ - at@),
        None => 0,
    }
}

/// The score of `pr` at the instant `now`, where a repository asks for
/// `required_approvals` approvals.
///
/// Half a point for each hour since the last push. Two hundred points off for
/// each step of the test outcome above `1`, and as many on for each step below
/// it. Thirty points off for each open conversation. Eighty points off for
/// each approval beyond the required number, fifty for each person reviewing
/// beyond that number, and as many on for each one short of it. Half a point
/// off for each line added, a tenth for each line removed. Two hundred points
/// for a branch that starts from the main branch.
pub open spec fn score_model(required_approvals: int, pr: Pr, now: Timestamp) -> ScoreView {
    ScoreView {
        age: 5 * age_hours(pr.last_commit_pushed_date, now),
        tests_result: -2000 * (pr.tests_result - 1),
        open_conversations: -300 * pr.open_conversations,
        num_approvals: -800 * (pr.num_approvals - required_approvals),
        num_reviewers: -500 * (pr.num_reviewers - required_approvals),
        additions: -5 * pr.additions,
        deletions: -1 * pr.deletions,
        based_on_main_branch: 2000 * pr.based_on_main_branch,
    }
}

/// The age of a push at the instant `now`, in whole hours.
pub fn age_at(pushed: Option<Timestamp>, now: Timestamp) -> (hours: i64)
    ensures
        hours == age_hours(pushed, now),
{
    match pushed {
        Some(at) => now.hours_since(&at),
        None => 0,
    }
}

/// The age of a push at the moment of the call, in whole hours.
///
/// The clock decides what "now" is, so two calls may differ; a push whose time
/// is not known has age zero whatever the clock says.
pub fn age(pushed: Option<Timestamp>) -> (hours: i64)
    ensures
        exists|now: Timestamp| hours == #[trigger] age_hours(pushed, now),
        pushed is None ==> hours == 0,
{
    let now = Timestamp::now();
    age_at(pushed, now)
}

impl Score {
    #[verifier::type_invariant]
    spec fn within_limit(self) -> bool {
        &&& -CONTRIBUTION_LIMIT <= self.age <= CONTRIBUTION_LIMIT
        &&& -CONTRIBUTION_LIMIT <= self.tests_result <= CONTRIBUTION_LIMIT
        &&& -CONTRIBUTION_LIMIT <= self.open_conversations <= CONTRIBUTION_LIMIT
        &&& -CONTRIBUTION_LIMIT <= self.num_approvals <= CONTRIBUTION_LIMIT
        &&& -CONTRIBUTION_LIMIT <= self.num_reviewers <= CONTRIBUTION_LIMIT
        &&& -CONTRIBUTION_LIMIT <= self.additions <= CONTRIBUTION_LIMIT
        &&& -CONTRIBUTION_LIMIT <= self.deletions <= CONTRIBUTION_LIMIT
        &&& -CONTRIBUTION_LIMIT <= self.based_on_main_branch <= CONTRIBUTION_LIMIT
    }

    /// Scores `pr` at the instant `now`.
    pub fn from_pr_at(required_approvals: u8, pr: &Pr, now: Timestamp) -> (score: Score)
        ensures
            score@ == score_model(required_approvals as int, *pr, now),
    {
        let required: i128 = required_approvals as i128;
        let hours: i128 = age_at(pr.last_commit_pushed_date, now) as i128;
        Score {
            age: hours * 5,
            tests_result: -((pr.tests_result as i128 - 1) * 2000),
            open_conversations: -(pr.open_conversations as i128 * 300),
            num_approvals: -((pr.num_approvals as i128 - required) * 800),
            num_reviewers: -((pr.num_reviewers as i128 - required) * 500),
            additions: -(pr.additions as i128 * 5),
            deletions: -(pr.deletions as i128),
            based_on_main_branch: pr.based_on_main_branch as i128 * 2000,
        }
    }

    /// Scores `pr` at the moment of the call.
    ///
    /// The clock decides what "now" is, so only the age may differ from one
    /// call to the next, and only where the time of the last push is known.
    pub fn from_pr(required_approvals: u8, pr: &Pr) -> (score: Score)
        ensures
            exists|now: Timestamp|
                score@ == #[trigger] score_model(required_approvals as int, *pr, now),
            pr.last_commit_pushed_date is None ==> forall|now: Timestamp|
                score@ == #[trigger] score_model(required_approvals as int, *pr, now),
    {
        let now = Timestamp::now();
        Score::from_pr_at(required_approvals, pr, now)
    }

    /// The sum of the eight contributions: the key by which pull requests are
    /// ranked, higher first.
    pub fn total(&self) -> (sum: i128)
        ensures
            sum == self@.total(),
    {
        proof {
            use_type_invariant(self);
        }
        self.age + self.tests_result + self.open_conversations + self.num_approvals
            + self.num_reviewers + self.additions + self.deletions + self.based_on_main_branch
    }

    /// Half a point for each hour since the last push.
    pub fn age(&self) -> (tenths: i128)
        ensures
            tenths == self@.age,
    {
        self.age
    }

    /// The contribution of the test outcome.
    pub fn tests_result(&self) -> (tenths: i128)
        ensures
            tenths == self@.tests_result,
    {
        self.tests_result
    }

    /// The contribution of the open conversations.
    pub fn open_conversations(&self) -> (tenths: i128)
        ensures
            tenths == self@.open_conversations,
    {
        self.open_conversations
    }

    /// The contribution of the approvals, held against the required number.
    pub fn num_approvals(&self) -> (tenths: i128)
        ensures
            tenths == self@.num_approvals,
    {
        self.num_approvals
    }

    /// The contribution of the people reviewing, held against the required
    /// number of approvals.
    pub fn num_reviewers(&self) -> (tenths: i128)
        ensures
            tenths == self@.num_reviewers,
    {
        self.num_reviewers
    }

    /// The contribution of the lines added.
    pub fn additions(&self) -> (tenths: i128)
        ensures
            tenths == self@.additions,
    {
        self.additions
    }

    /// The contribution of the lines removed.
    pub fn deletions(&self) -> (tenths: i128)
        ensures
            tenths == self@.deletions,
    {
        self.deletions
    }

    /// The contribution of a branch that starts from the main branch.
    pub fn based_on_main_branch(&self) -> (tenths: i128)
        ensures
            tenths == self@.based_on_main_branch,
    {
        self.based_on_main_branch
    }
}

} // verus!
