//! What holds of every score, whatever the pull request.

use crate::timestamp::Timestamp;
use crate::types::{score_model, Pr, ScoreView};
use vstd::prelude::*;

verus! {

/// A score looks at nothing but the seven counts and the time of the last
/// push: two records that agree in those have the same score at the same
/// instant, whatever their titles and links.
pub proof fn lemma_score_ignores_title_and_url(
    required_approvals: u8,
    a: Pr,
    b: Pr,
    now: Timestamp,
)
    requires
        a.last_commit_pushed_date == b.last_commit_pushed_date,
        a.tests_result == b.tests_result,
        a.open_conversations == b.open_conversations,
        a.num_approvals == b.num_approvals,
        a.num_reviewers == b.num_reviewers,
        a.additions == b.additions,
        a.deletions == b.deletions,
        a.based_on_main_branch == b.based_on_main_branch,
    ensures
        score_model(required_approvals as int, a, now) == score_model(
            required_approvals as int,
            b,
            now,
        ),
{
}

/// Of the eight contributions only the age depends on the instant taken as
/// "now": the other seven are the same at any two instants.
pub proof fn lemma_only_age_depends_on_now(
    required_approvals: u8,
    pr: Pr,
    now: Timestamp,
    later: Timestamp,
)
    ensures
        score_model(required_approvals as int, pr, later) == (ScoreView {
            age: score_model(required_approvals as int, pr, later).age,
            ..score_model(required_approvals as int, pr, now)
        }),
{
}

/// Passing tests cost nothing: where the test outcome is `1`, its
/// contribution is zero.
pub proof fn lemma_passing_tests_cost_nothing(required_approvals: u8, pr: Pr, now: Timestamp)
    requires
        pr.tests_result == 1,
    ensures
        score_model(required_approvals as int, pr, now).tests_result == 0,
{
}

/// A pull request with exactly the required number of approvals gets nothing
/// for them and loses nothing.
pub proof fn lemma_required_approvals_contribute_nothing(
    required_approvals: u8,
    pr: Pr,
    now: Timestamp,
)
    requires
        pr.num_approvals == required_approvals,
    ensures
        score_model(required_approvals as int, pr, now).num_approvals == 0,
{
}

/// Each further approval moves the contribution of the approvals down by
/// eighty points: one approval beyond the required number stands at minus
/// eighty, one short of it at plus eighty.
pub proof fn lemma_each_approval_is_eighty_points(
    required_approvals: u8,
    fewer: Pr,
    more: Pr,
    now: Timestamp,
)
    requires
        more.num_approvals == fewer.num_approvals + 1,
    ensures
        score_model(required_approvals as int, more, now).num_approvals == score_model(
            required_approvals as int,
            fewer,
            now,
        ).num_approvals - 800,
        fewer.num_approvals == required_approvals ==> score_model(
            required_approvals as int,
            more,
            now,
        ).num_approvals == -800,
        more.num_approvals == required_approvals ==> score_model(
            required_approvals as int,
            fewer,
            now,
        ).num_approvals == 800,
{
}

/// A pull request whose last push has no known time has age zero, at every
/// instant and whatever its other fields.
pub proof fn lemma_unknown_push_has_no_age(required_approvals: u8, pr: Pr, now: Timestamp)
    requires
        pr.last_commit_pushed_date is None,
    ensures
        score_model(required_approvals as int, pr, now).age == 0,
{
}

/// One more open conversation, all else unchanged, lowers the total by
/// exactly thirty points.
pub proof fn lemma_open_conversation_costs_thirty_points(
    required_approvals: u8,
    pr: Pr,
    now: Timestamp,
)
    requires
        pr.open_conversations < i64::MAX,
    ensures
        score_model(
            required_approvals as int,
            (Pr { open_conversations: (pr.open_conversations + 1) as i64, ..pr }),
            now,
        ).total() == score_model(required_approvals as int, pr, now).total() - 300,
{
}

/// One more line added, all else unchanged, lowers the total by exactly half
/// a point.
pub proof fn lemma_added_line_costs_half_a_point(required_approvals: u8, pr: Pr, now: Timestamp)
    requires
        pr.additions < i64::MAX,
    ensures
        score_model(
            required_approvals as int,
            (Pr { additions: (pr.additions + 1) as i64, ..pr }),
            now,
        ).total() == score_model(required_approvals as int, pr, now).total() - 5,
{
}

} // verus!
