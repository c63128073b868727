//! How the session is going: percentages against their limits, states, captions
//! and issues.

use crate::localization::Strings;
use crate::models::Percent;
use crate::sections::panel_issue_from_poll_status;
use crate::sections::panel_model_issue;
use crate::sections::panel_model_sections;
use crate::sections::panel_usage_status;
use crate::sections::state_from_utilization;
use crate::sections::PanelIssue;
use crate::sections::PanelModelSection;
use crate::sections::PanelUsageStatus;
use crate::sections::ResetTimes;
use crate::sections::SessionState;
use crate::state::AppState;
use crate::state::UsagePollStatus;
use vstd::arithmetic::power2::lemma_pow2_adds;
use vstd::arithmetic::power2::lemma_pow2_pos;
use vstd::arithmetic::power2::lemma_pow2_strictly_increases;
use vstd::arithmetic::power2::pow2;
use vstd::prelude::*;

verus! {

/// The bits of the doubles 40, 50, 80, 85 and 100. Doubles that are not negative
/// order as their bits do, up to the bits of infinity.
pub const FORTY: u64 = 0x4044_0000_0000_0000;

pub const FIFTY: u64 = 0x4049_0000_0000_0000;

pub const EIGHTY: u64 = 0x4054_0000_0000_0000;

pub const EIGHTY_FIVE: u64 = 0x4055_4000_0000_0000;

pub const HUNDRED: u64 = 0x4059_0000_0000_0000;

pub const INFINITY: u64 = 0x7FF0_0000_0000_0000;

/// A whole number, and the bits of the double of the same value.
pub open spec fn is_double_of(n: nat, bits: u64) -> bool {
    exists|k: nat| #[trigger] spells(n, bits, k)
}

/// `bits` are those of the double of `n`, which lies between `2^k` and `2^(k+1)`.
pub open spec fn spells(n: nat, bits: u64, k: nat) -> bool {
    &&& k <= 31
    &&& pow2(k) <= n < 2 * pow2(k)
    &&& bits == (1023 + k) * 0x10_0000_0000_0000 + (n * pow2((52 - k) as nat)
        - 0x10_0000_0000_0000)
}

proof fn lemma_bits_of_a_double(p: Percent)
    ensures
        p.bits < 0x8000_0000_0000_0000 ==> p.bits == p.exponent() * 0x10_0000_0000_0000
            + p.fraction(),
        p.fraction() < 0x10_0000_0000_0000,
{
}

/// A percentage is at least a threshold exactly when its bits are at least those of
/// the threshold and at most those of infinity: below are the smaller numbers,
/// above are the numbers that are none and the negative ones.
pub proof fn percentages_compare_as_their_bits(p: Percent, threshold: u32, bits: u64, r: bool)
    requires
        call_ensures(Percent::at_least, (p, threshold), r),
        threshold > 0,
        is_double_of(threshold as nat, bits),
    ensures
        r <==> bits <= p.bits <= INFINITY,
{
    let k = choose|k: nat| #[trigger] spells(threshold as nat, bits, k);
    lemma_threshold_in_bits(p, threshold as nat, bits, k);
}

proof fn lemma_threshold_in_bits(p: Percent, t: nat, bits: u64, k: nat)
    requires
        t > 0,
        spells(t, bits, k),
    ensures
        p.reaches(t) <==> bits <= p.bits <= INFINITY,
{
    lemma_bits_of_a_double(p);
    vstd::arithmetic::power2::lemma2_to64();
    vstd::arithmetic::power2::lemma2_to64_rest();
    let d = pow2((52 - k) as nat);
    lemma_pow2_adds(k, (52 - k) as nat);
    lemma_pow2_pos((52 - k) as nat);
    let s = t * d;
    assert(pow2(k) * d == 0x10_0000_0000_0000);
    assert(0x10_0000_0000_0000 <= s < 0x20_0000_0000_0000) by (nonlinear_arith)
        requires
            s == t * d,
            pow2(k) <= t < 2 * pow2(k),
            pow2(k) * d == 0x10_0000_0000_0000,
            d > 0,
    ;
    let big = 1023 + k;
    let e = p.exponent();
    let f = p.fraction();
    // The threshold is `s * 2^(big - 1)` in multiples of the smallest double.
    let u = pow2((big - 1) as nat);
    lemma_pow2_pos((big - 1) as nat);
    lemma_pow2_adds((52 - k) as nat, (big - 1) as nat);
    assert(d * u == pow2(1074));
    assert(t * (d * u) == s * u) by (nonlinear_arith)
        requires
            s == t * d,
    ;
    if p.bits < 0x8000_0000_0000_0000 && e < 0x7FF {
        if e == 0 {
            assert(s * u > f) by (nonlinear_arith)
                requires
                    s >= 0x10_0000_0000_0000,
                    u >= 1,
                    f < 0x10_0000_0000_0000,
            ;
        } else {
            let v = pow2((e - 1) as nat);
            let m = 0x10_0000_0000_0000 + f;
            lemma_pow2_pos((e - 1) as nat);
            if e < big {
                lemma_pow2_adds(1, (e - 1) as nat);
                if e < big - 1 {
                    lemma_pow2_strictly_increases(e, (big - 1) as nat);
                }
                assert(2 * v <= u);
                assert(m * v < s * u) by (nonlinear_arith)
                    requires
                        m < 0x20_0000_0000_0000,
                        s >= 0x10_0000_0000_0000,
                        2 * v <= u,
                        v > 0,
                ;
            } else if e > big {
                lemma_pow2_adds(1, (big - 1) as nat);
                if big < e - 1 {
                    lemma_pow2_strictly_increases(big, (e - 1) as nat);
                }
                assert(2 * u <= v);
                assert(m * v > s * u) by (nonlinear_arith)
                    requires
                        m >= 0x10_0000_0000_0000,
                        s < 0x20_0000_0000_0000,
                        2 * u <= v,
                        u > 0,
                ;
            } else {
                assert(m * u >= s * u <==> m >= s) by (nonlinear_arith)
                    requires
                        u > 0,
                ;
            }
        }
    }
}

proof fn lemma_limits_in_bits(p: Percent)
    ensures
        p.reaches(40) <==> FORTY <= p.bits <= INFINITY,
        p.reaches(50) <==> FIFTY <= p.bits <= INFINITY,
        p.reaches(80) <==> EIGHTY <= p.bits <= INFINITY,
        p.reaches(85) <==> EIGHTY_FIVE <= p.bits <= INFINITY,
        p.reaches(100) <==> HUNDRED <= p.bits <= INFINITY,
{
    vstd::arithmetic::power2::lemma2_to64();
    vstd::arithmetic::power2::lemma2_to64_rest();
    lemma_threshold_in_bits(p, 40, FORTY, 5);
    lemma_threshold_in_bits(p, 50, FIFTY, 5);
    lemma_threshold_in_bits(p, 80, EIGHTY, 6);
    lemma_threshold_in_bits(p, 85, EIGHTY_FIVE, 6);
    lemma_threshold_in_bits(p, 100, HUNDRED, 6);
}

/// A session goes steady from 40 percent on, slows down from 85 on, and is capped
/// from 100 on; below that, and where nothing is known, there is plenty left.
pub proof fn session_states_have_their_limits(p: Percent, r: SessionState, unknown: SessionState)
    requires
        call_ensures(state_from_utilization, (Some(p),), r),
        call_ensures(state_from_utilization, (None,), unknown),
    ensures
        r is Capped <==> HUNDRED <= p.bits <= INFINITY,
        r is SlowingDown <==> EIGHTY_FIVE <= p.bits < HUNDRED,
        r is GoingSteady <==> FORTY <= p.bits < EIGHTY_FIVE,
        r is PlentyLeft <==> p.bits < FORTY || p.bits > INFINITY,
        unknown is PlentyLeft,
{
    lemma_limits_in_bits(p);
}

/// A window calls for caution from 50 percent on, is near its limit from 80 on, and
/// at it from 100 on.
pub proof fn usage_has_its_limits(p: Percent, r: PanelUsageStatus, unknown: PanelUsageStatus)
    requires
        call_ensures(panel_usage_status, (Some(p),), r),
        call_ensures(panel_usage_status, (None,), unknown),
    ensures
        r is AtLimit <==> HUNDRED <= p.bits <= INFINITY,
        r is NearLimit <==> EIGHTY <= p.bits < HUNDRED,
        r is Caution <==> FIFTY <= p.bits < EIGHTY,
        r is Normal <==> p.bits < FIFTY || p.bits > INFINITY,
        unknown is Unknown,
{
    lemma_limits_in_bits(p);
}

/// What went wrong with a model: what the last poll failed of, or that a poll that
/// went well brought nothing for it. A model with fresh figures has no issue.
pub proof fn issues_tell_what_went_wrong(
    status: Option<UsagePollStatus>,
    base: Option<PanelIssue>,
    ok: bool,
    has_data: bool,
    r: Option<PanelIssue>,
)
    requires
        call_ensures(panel_issue_from_poll_status, (status,), base),
        call_ensures(panel_model_issue, (base, ok, has_data), r),
    ensures
        ok && has_data ==> r is None,
        ok && !has_data ==> r == Some(PanelIssue::Partial),
        !ok ==> {
            &&& r == Some(PanelIssue::MissingCredentials) <==> status == Some(
                UsagePollStatus::NoCredentials,
            )
            &&& r == Some(PanelIssue::TokenExpired) <==> status == Some(
                UsagePollStatus::AuthRequired,
            ) || status == Some(UsagePollStatus::TokenExpired)
            &&& r == Some(PanelIssue::Network) <==> status == Some(UsagePollStatus::RequestFailed)
            &&& r != Some(PanelIssue::Partial)
        },
{
}

/// What the panel tells of a model is what the last answer said of it, with states
/// and limits that go by its percentages. It is told of exactly when it is shown.
pub proof fn section_tells_the_answer(
    s: AppState,
    strings: Strings,
    times: ResetTimes,
    r: Vec<PanelModelSection>,
)
    requires
        call_ensures(panel_model_sections, (&s, &strings, times), r),
    ensures
        s.prefs.show_claude_code ==> r@.len() == 1,
        !s.prefs.show_claude_code ==> r@.len() == 0,
        s.prefs.show_claude_code ==> {
            let c = r@[0];
            let known = s.figures.data is Some && s.figures.data->0.claude_code is Some;
            let u = s.figures.data->0.claude_code->0;
            &&& c.name == strings.claude_code_model
            &&& c.session.reset_time == times.session
            &&& c.weekly.reset_time == times.weekly
            &&& known ==> {
                &&& c.session.percentage == Some(u.session.percentage)
                &&& c.weekly.percentage == Some(u.weekly.percentage)
                &&& c.session.resets_at == u.session.resets_at
                &&& c.weekly.resets_at == u.weekly.resets_at
                &&& c.message_count == u.session.message_count
                &&& c.token_count == u.session.token_count
                &&& c.user_label == u.user_label
                &&& c.email == u.email
                &&& c.session_state is Capped <==> HUNDRED <= u.session.percentage.bits <= INFINITY
                &&& c.session_state is SlowingDown <==> EIGHTY_FIVE <= u.session.percentage.bits
                    < HUNDRED
                &&& c.session_state is GoingSteady <==> FORTY <= u.session.percentage.bits
                    < EIGHTY_FIVE
                &&& c.session.status is AtLimit <==> HUNDRED <= u.session.percentage.bits
                    <= INFINITY
                &&& c.session.status is NearLimit <==> EIGHTY <= u.session.percentage.bits
                    < HUNDRED
                &&& c.session.status is Caution <==> FIFTY <= u.session.percentage.bits < EIGHTY
                &&& c.weekly.status is AtLimit <==> HUNDRED <= u.weekly.percentage.bits <= INFINITY
                &&& c.weekly.status is NearLimit <==> EIGHTY <= u.weekly.percentage.bits < HUNDRED
                &&& c.weekly.status is Caution <==> FIFTY <= u.weekly.percentage.bits < EIGHTY
                &&& !(c.session.status is Unknown)
                &&& !(c.weekly.status is Unknown)
            }
            &&& !known ==> {
                &&& c.session.percentage is None
                &&& c.weekly.percentage is None
                &&& c.session.resets_at is None
                &&& c.weekly.resets_at is None
                &&& c.message_count is None
                &&& c.token_count is None
                &&& c.user_label is None
                &&& c.email is None
                &&& c.session_state is PlentyLeft
                &&& c.session.status is Unknown
                &&& c.weekly.status is Unknown
            }
            &&& s.polling.last_poll_ok && known ==> c.issue is None
            &&& s.polling.last_poll_ok && !known ==> c.issue == Some(PanelIssue::Partial)
            &&& !s.polling.last_poll_ok ==> {
                &&& c.issue == Some(PanelIssue::MissingCredentials)
                    <==> s.polling.last_poll_status == Some(UsagePollStatus::NoCredentials)
                &&& c.issue == Some(PanelIssue::Network) <==> s.polling.last_poll_status == Some(
                    UsagePollStatus::RequestFailed,
                )
                &&& c.issue == Some(PanelIssue::TokenExpired) <==> s.polling.last_poll_status
                    == Some(UsagePollStatus::AuthRequired) || s.polling.last_poll_status == Some(
                    UsagePollStatus::TokenExpired,
                )
            }
        },
{
    if s.figures.data is Some && s.figures.data->0.claude_code is Some {
        let u = s.figures.data->0.claude_code->0;
        lemma_limits_in_bits(u.session.percentage);
        lemma_limits_in_bits(u.weekly.percentage);
    }
}

} // verus!
