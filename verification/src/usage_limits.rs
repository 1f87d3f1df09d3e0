//! What the usage service is asked, and what its answer means.
//!
//! Nothing here talks to the network. `fetch_usage_limits` says what to send;
//! `fetch_step` says, for each thing that can then happen, whether to read on or
//! what the attempt came to. An attempt is never repeated here: when to try
//! again is for the shared state to decide.

use vstd::prelude::*;

use crate::text;
use crate::text::{chars, parse_unsigned};
use crate::usage_limits_state::Outcome;

verus! {

/// Where usage is asked for.
pub const USAGE_URL: &'static str = "https://api.anthropic.com/api/oauth/usage";

/// How long one request may take, in milliseconds.
pub const REQUEST_TIMEOUT_MS: u64 = 5000;

/// A 64-bit floating-point number, held as its IEEE 754 bit pattern. Such
/// numbers are carried from the answer to the display; no decision looks into
/// them.
#[derive(Clone, Copy, Debug, PartialEq, Eq, Structural)]
pub struct FloatBits {
    pub bits: u64,
}

impl FloatBits {
    pub open spec fn spec_zero() -> FloatBits {
        FloatBits { bits: 0 }
    }

    /// 0.0, of which every bit is clear.
    #[verifier::when_used_as_spec(spec_zero)]
    pub fn zero() -> (r: FloatBits)
        ensures
            r == FloatBits::spec_zero(),
    {
        FloatBits { bits: 0 }
    }
}

/// Usage limits in the flat form in which they are kept and shown.
///
/// The `*_epoch` fields are for limits that come with Unix times instead of
/// timestamps; the service sends timestamps, so there they are `None`.
#[derive(Debug)]
pub struct UsageLimitsData {
    pub five_hour_pct: FloatBits,
    pub seven_day_pct: FloatBits,
    /// ISO 8601; empty where the service gives none.
    pub five_hour_resets_at: String,
    /// ISO 8601; empty where the service gives none.
    pub seven_day_resets_at: String,
    pub five_hour_resets_at_epoch: Option<u64>,
    pub seven_day_resets_at_epoch: Option<u64>,
    pub extra_usage_enabled: Option<bool>,
    pub extra_usage_monthly_limit: Option<FloatBits>,
    pub extra_usage_used_credits: Option<FloatBits>,
    pub extra_usage_utilization: Option<FloatBits>,
    pub seven_day_opus_pct: Option<FloatBits>,
    pub seven_day_opus_resets_at: Option<String>,
    pub seven_day_sonnet_pct: Option<FloatBits>,
    pub seven_day_sonnet_resets_at: Option<String>,
    pub seven_day_cowork_pct: Option<FloatBits>,
    pub seven_day_cowork_resets_at: Option<String>,
    pub seven_day_oauth_apps_pct: Option<FloatBits>,
    pub seven_day_oauth_apps_resets_at: Option<String>,
}

/// The view of `UsageLimitsData`: its strings are sequences of characters.
#[verifier::ext_equal]
pub struct UsageLimits {
    pub five_hour_pct: FloatBits,
    pub seven_day_pct: FloatBits,
    pub five_hour_resets_at: Seq<char>,
    pub seven_day_resets_at: Seq<char>,
    pub five_hour_resets_at_epoch: Option<u64>,
    pub seven_day_resets_at_epoch: Option<u64>,
    pub extra_usage_enabled: Option<bool>,
    pub extra_usage_monthly_limit: Option<FloatBits>,
    pub extra_usage_used_credits: Option<FloatBits>,
    pub extra_usage_utilization: Option<FloatBits>,
    pub seven_day_opus_pct: Option<FloatBits>,
    pub seven_day_opus_resets_at: Option<Seq<char>>,
    pub seven_day_sonnet_pct: Option<FloatBits>,
    pub seven_day_sonnet_resets_at: Option<Seq<char>>,
    pub seven_day_cowork_pct: Option<FloatBits>,
    pub seven_day_cowork_resets_at: Option<Seq<char>>,
    pub seven_day_oauth_apps_pct: Option<FloatBits>,
    pub seven_day_oauth_apps_resets_at: Option<Seq<char>>,
}

impl View for UsageLimitsData {
    type V = UsageLimits;

    open spec fn view(&self) -> UsageLimits {
        UsageLimits {
            five_hour_pct: self.five_hour_pct,
            seven_day_pct: self.seven_day_pct,
            five_hour_resets_at: self.five_hour_resets_at@,
            seven_day_resets_at: self.seven_day_resets_at@,
            five_hour_resets_at_epoch: self.five_hour_resets_at_epoch,
            seven_day_resets_at_epoch: self.seven_day_resets_at_epoch,
            extra_usage_enabled: self.extra_usage_enabled,
            extra_usage_monthly_limit: self.extra_usage_monthly_limit,
            extra_usage_used_credits: self.extra_usage_used_credits,
            extra_usage_utilization: self.extra_usage_utilization,
            seven_day_opus_pct: self.seven_day_opus_pct,
            seven_day_opus_resets_at: self.seven_day_opus_resets_at.deep_view(),
            seven_day_sonnet_pct: self.seven_day_sonnet_pct,
            seven_day_sonnet_resets_at: self.seven_day_sonnet_resets_at.deep_view(),
            seven_day_cowork_pct: self.seven_day_cowork_pct,
            seven_day_cowork_resets_at: self.seven_day_cowork_resets_at.deep_view(),
            seven_day_oauth_apps_pct: self.seven_day_oauth_apps_pct,
            seven_day_oauth_apps_resets_at: self.seven_day_oauth_apps_resets_at.deep_view(),
        }
    }
}

impl DeepView for UsageLimitsData {
    type V = UsageLimits;

    open spec fn deep_view(&self) -> UsageLimits {
        self@
    }
}

impl Clone for UsageLimitsData {
    fn clone(&self) -> (r: Self)
        ensures
            r == *self,
    {
        UsageLimitsData {
            five_hour_pct: self.five_hour_pct,
            seven_day_pct: self.seven_day_pct,
            five_hour_resets_at: self.five_hour_resets_at.clone(),
            seven_day_resets_at: self.seven_day_resets_at.clone(),
            five_hour_resets_at_epoch: self.five_hour_resets_at_epoch,
            seven_day_resets_at_epoch: self.seven_day_resets_at_epoch,
            extra_usage_enabled: self.extra_usage_enabled,
            extra_usage_monthly_limit: self.extra_usage_monthly_limit,
            extra_usage_used_credits: self.extra_usage_used_credits,
            extra_usage_utilization: self.extra_usage_utilization,
            seven_day_opus_pct: self.seven_day_opus_pct,
            seven_day_opus_resets_at: self.seven_day_opus_resets_at.clone(),
            seven_day_sonnet_pct: self.seven_day_sonnet_pct,
            seven_day_sonnet_resets_at: self.seven_day_sonnet_resets_at.clone(),
            seven_day_cowork_pct: self.seven_day_cowork_pct,
            seven_day_cowork_resets_at: self.seven_day_cowork_resets_at.clone(),
            seven_day_oauth_apps_pct: self.seven_day_oauth_apps_pct,
            seven_day_oauth_apps_resets_at: self.seven_day_oauth_apps_resets_at.clone(),
        }
    }
}

/// Limits of which nothing is known.
pub open spec fn no_limits() -> UsageLimits {
    UsageLimits {
        five_hour_pct: FloatBits::zero(),
        seven_day_pct: FloatBits::zero(),
        five_hour_resets_at: Seq::empty(),
        seven_day_resets_at: Seq::empty(),
        five_hour_resets_at_epoch: None,
        seven_day_resets_at_epoch: None,
        extra_usage_enabled: None,
        extra_usage_monthly_limit: None,
        extra_usage_used_credits: None,
        extra_usage_utilization: None,
        seven_day_opus_pct: None,
        seven_day_opus_resets_at: None,
        seven_day_sonnet_pct: None,
        seven_day_sonnet_resets_at: None,
        seven_day_cowork_pct: None,
        seven_day_cowork_resets_at: None,
        seven_day_oauth_apps_pct: None,
        seven_day_oauth_apps_resets_at: None,
    }
}

impl Default for UsageLimitsData {
    fn default() -> (r: Self)
        ensures
            r@ == no_limits(),
    {
        UsageLimitsData {
            five_hour_pct: FloatBits::zero(),
            seven_day_pct: FloatBits::zero(),
            five_hour_resets_at: String::new(),
            seven_day_resets_at: String::new(),
            five_hour_resets_at_epoch: None,
            seven_day_resets_at_epoch: None,
            extra_usage_enabled: None,
            extra_usage_monthly_limit: None,
            extra_usage_used_credits: None,
            extra_usage_utilization: None,
            seven_day_opus_pct: None,
            seven_day_opus_resets_at: None,
            seven_day_sonnet_pct: None,
            seven_day_sonnet_resets_at: None,
            seven_day_cowork_pct: None,
            seven_day_cowork_resets_at: None,
            seven_day_oauth_apps_pct: None,
            seven_day_oauth_apps_resets_at: None,
        }
    }
}

/// The body of an answer, part by part as the service nests it.
#[derive(Debug)]
pub struct ApiResponse {
    pub five_hour: Option<UsagePeriod>,
    pub seven_day: Option<UsagePeriod>,
    pub seven_day_opus: Option<UsagePeriod>,
    pub seven_day_sonnet: Option<UsagePeriod>,
    pub seven_day_cowork: Option<UsagePeriod>,
    pub seven_day_oauth_apps: Option<UsagePeriod>,
    pub extra_usage: Option<ExtraUsageResponse>,
}

#[derive(Debug)]
pub struct UsagePeriod {
    pub utilization: FloatBits,
    pub resets_at: Option<String>,
}

#[derive(Debug)]
pub struct ExtraUsageResponse {
    pub is_enabled: Option<bool>,
    pub monthly_limit: Option<FloatBits>,
    pub used_credits: Option<FloatBits>,
    pub utilization: Option<FloatBits>,
}

/// Utilization of a period, where the answer has it.
pub open spec fn period_pct(p: Option<UsagePeriod>) -> Option<FloatBits> {
    match p {
        Some(period) => Some(period.utilization),
        None => None,
    }
}

/// When a period resets, where the answer says so.
pub open spec fn period_reset(p: Option<UsagePeriod>) -> Option<Seq<char>> {
    match p {
        Some(period) => period.resets_at.deep_view(),
        None => None,
    }
}

/// The limits that an answer reports. The two standard periods are always
/// there: at zero, and with an empty reset, where the answer leaves them out.
pub open spec fn reported_limits(api: ApiResponse) -> UsageLimits {
    let extra = api.extra_usage;
    UsageLimits {
        five_hour_pct: period_pct(api.five_hour).unwrap_or(FloatBits::zero()),
        seven_day_pct: period_pct(api.seven_day).unwrap_or(FloatBits::zero()),
        five_hour_resets_at: period_reset(api.five_hour).unwrap_or(Seq::empty()),
        seven_day_resets_at: period_reset(api.seven_day).unwrap_or(Seq::empty()),
        five_hour_resets_at_epoch: None,
        seven_day_resets_at_epoch: None,
        extra_usage_enabled: if extra is Some {
            extra->0.is_enabled
        } else {
            None
        },
        extra_usage_monthly_limit: if extra is Some {
            extra->0.monthly_limit
        } else {
            None
        },
        extra_usage_used_credits: if extra is Some {
            extra->0.used_credits
        } else {
            None
        },
        extra_usage_utilization: if extra is Some {
            extra->0.utilization
        } else {
            None
        },
        seven_day_opus_pct: period_pct(api.seven_day_opus),
        seven_day_opus_resets_at: period_reset(api.seven_day_opus),
        seven_day_sonnet_pct: period_pct(api.seven_day_sonnet),
        seven_day_sonnet_resets_at: period_reset(api.seven_day_sonnet),
        seven_day_cowork_pct: period_pct(api.seven_day_cowork),
        seven_day_cowork_resets_at: period_reset(api.seven_day_cowork),
        seven_day_oauth_apps_pct: period_pct(api.seven_day_oauth_apps),
        seven_day_oauth_apps_resets_at: period_reset(api.seven_day_oauth_apps),
    }
}

/// A period that an answer may leave out.
fn optional_period(p: Option<UsagePeriod>) -> (r: (Option<FloatBits>, Option<String>))
    ensures
        r.0 == period_pct(p),
        r.1.deep_view() == period_reset(p),
        p matches Some(period) ==> r.0 == Some(period.utilization) && r.1 == period.resets_at,
        p is None ==> r.0 is None && r.1 is None,
{
    match p {
        Some(period) => (Some(period.utilization), period.resets_at),
        None => (None, None),
    }
}

/// A period that is shown in any case.
fn standard_period(p: Option<UsagePeriod>) -> (r: (FloatBits, String))
    ensures
        r.0 == period_pct(p).unwrap_or(FloatBits::zero()),
        r.1@ == period_reset(p).unwrap_or(Seq::empty()),
{
    match p {
        Some(period) => {
            let reset: String = match period.resets_at {
                Some(at) => at,
                None => String::new(),
            };
            (period.utilization, reset)
        },
        None => (FloatBits::zero(), String::new()),
    }
}

/// Turns the body of an answer into limits. The argument is the body as it was
/// read from JSON, or what the reader complained of.
pub fn parse_api_response(body: Result<ApiResponse, String>) -> (r: Result<
    UsageLimitsData,
    String,
>)
    ensures
        r is Ok <==> body is Ok,
        body matches Ok(api) ==> r->Ok_0@ == reported_limits(api),
        body matches Ok(api) ==> {
            let d = r->Ok_0;
            &&& (api.five_hour matches Some(p) ==> {
                &&& d.five_hour_pct == p.utilization
                &&& p.resets_at matches Some(at) ==> d.five_hour_resets_at@ == at@
                &&& p.resets_at is None ==> d.five_hour_resets_at@.len() == 0
            })
            &&& (api.five_hour is None ==> {
                &&& d.five_hour_pct.bits == 0
                &&& d.five_hour_resets_at@.len() == 0
            })
            &&& (api.seven_day matches Some(p) ==> {
                &&& d.seven_day_pct == p.utilization
                &&& p.resets_at matches Some(at) ==> d.seven_day_resets_at@ == at@
                &&& p.resets_at is None ==> d.seven_day_resets_at@.len() == 0
            })
            &&& (api.seven_day is None ==> {
                &&& d.seven_day_pct.bits == 0
                &&& d.seven_day_resets_at@.len() == 0
            })
            &&& (api.seven_day_opus matches Some(p) ==> {
                &&& d.seven_day_opus_pct == Some(p.utilization)
                &&& d.seven_day_opus_resets_at == p.resets_at
            })
            &&& (api.seven_day_opus is None ==> {
                &&& d.seven_day_opus_pct is None
                &&& d.seven_day_opus_resets_at is None
            })
            &&& (api.seven_day_sonnet matches Some(p) ==> {
                &&& d.seven_day_sonnet_pct == Some(p.utilization)
                &&& d.seven_day_sonnet_resets_at == p.resets_at
            })
            &&& (api.seven_day_sonnet is None ==> {
                &&& d.seven_day_sonnet_pct is None
                &&& d.seven_day_sonnet_resets_at is None
            })
            &&& (api.seven_day_cowork matches Some(p) ==> {
                &&& d.seven_day_cowork_pct == Some(p.utilization)
                &&& d.seven_day_cowork_resets_at == p.resets_at
            })
            &&& (api.seven_day_cowork is None ==> {
                &&& d.seven_day_cowork_pct is None
                &&& d.seven_day_cowork_resets_at is None
            })
            &&& (api.seven_day_oauth_apps matches Some(p) ==> {
                &&& d.seven_day_oauth_apps_pct == Some(p.utilization)
                &&& d.seven_day_oauth_apps_resets_at == p.resets_at
            })
            &&& (api.seven_day_oauth_apps is None ==> {
                &&& d.seven_day_oauth_apps_pct is None
                &&& d.seven_day_oauth_apps_resets_at is None
            })
            &&& (api.extra_usage matches Some(e) ==> {
                &&& d.extra_usage_enabled == e.is_enabled
                &&& d.extra_usage_monthly_limit == e.monthly_limit
                &&& d.extra_usage_used_credits == e.used_credits
                &&& d.extra_usage_utilization == e.utilization
            })
            &&& (api.extra_usage is None ==> {
                &&& d.extra_usage_enabled is None
                &&& d.extra_usage_monthly_limit is None
                &&& d.extra_usage_used_credits is None
                &&& d.extra_usage_utilization is None
            })
            &&& (d.five_hour_resets_at_epoch is None && d.seven_day_resets_at_epoch is None)
        },
        body matches Err(e) ==> r->Err_0@ == "unexpected response format: "@ + e@,
{
    let api: ApiResponse = match body {
        Ok(api) => api,
        Err(e) => {
            let message: String = String::from_str("unexpected response format: ");
            return Err(message.concat(e.as_str()));
        },
    };
    let (five_h_pct, five_h_reset) = standard_period(api.five_hour);
    let (seven_d_pct, seven_d_reset) = standard_period(api.seven_day);
    let (opus_pct, opus_reset) = optional_period(api.seven_day_opus);
    let (sonnet_pct, sonnet_reset) = optional_period(api.seven_day_sonnet);
    let (cowork_pct, cowork_reset) = optional_period(api.seven_day_cowork);
    let (oauth_apps_pct, oauth_apps_reset) = optional_period(api.seven_day_oauth_apps);
    let (enabled, monthly_limit, used_credits, utilization) = match api.extra_usage {
        Some(e) => (e.is_enabled, e.monthly_limit, e.used_credits, e.utilization),
        None => (None, None, None, None),
    };
    Ok(
        UsageLimitsData {
            five_hour_pct: five_h_pct,
            seven_day_pct: seven_d_pct,
            five_hour_resets_at: five_h_reset,
            seven_day_resets_at: seven_d_reset,
            five_hour_resets_at_epoch: None,
            seven_day_resets_at_epoch: None,
            extra_usage_enabled: enabled,
            extra_usage_monthly_limit: monthly_limit,
            extra_usage_used_credits: used_credits,
            extra_usage_utilization: utilization,
            seven_day_opus_pct: opus_pct,
            seven_day_opus_resets_at: opus_reset,
            seven_day_sonnet_pct: sonnet_pct,
            seven_day_sonnet_resets_at: sonnet_reset,
            seven_day_cowork_pct: cowork_pct,
            seven_day_cowork_resets_at: cowork_reset,
            seven_day_oauth_apps_pct: oauth_apps_pct,
            seven_day_oauth_apps_resets_at: oauth_apps_reset,
        },
    )
}

/// Each part of an answer is reported under its own name, as the answer has it,
/// and nothing is reported of a part that the answer leaves out. Only the two
/// standard periods are reported in any case: at zero, and without a reset.
pub proof fn law_answer_is_reported_part_by_part(api: ApiResponse)
    ensures
        api.five_hour matches Some(p) ==> {
            &&& reported_limits(api).five_hour_pct == p.utilization
            &&& p.resets_at matches Some(at) ==> reported_limits(api).five_hour_resets_at == at@
            &&& p.resets_at is None ==> reported_limits(api).five_hour_resets_at.len() == 0
        },
        api.five_hour is None ==> {
            &&& reported_limits(api).five_hour_pct.bits == 0
            &&& reported_limits(api).five_hour_resets_at.len() == 0
        },
        api.seven_day matches Some(p) ==> {
            &&& reported_limits(api).seven_day_pct == p.utilization
            &&& p.resets_at matches Some(at) ==> reported_limits(api).seven_day_resets_at == at@
            &&& p.resets_at is None ==> reported_limits(api).seven_day_resets_at.len() == 0
        },
        api.seven_day is None ==> {
            &&& reported_limits(api).seven_day_pct.bits == 0
            &&& reported_limits(api).seven_day_resets_at.len() == 0
        },
        api.seven_day_opus matches Some(p) ==> {
            &&& reported_limits(api).seven_day_opus_pct == Some(p.utilization)
            &&& p.resets_at matches Some(at) ==> reported_limits(api).seven_day_opus_resets_at
                == Some(at@)
            &&& p.resets_at is None ==> reported_limits(api).seven_day_opus_resets_at is None
        },
        api.seven_day_opus is None ==> {
            &&& reported_limits(api).seven_day_opus_pct is None
            &&& reported_limits(api).seven_day_opus_resets_at is None
        },
        api.seven_day_sonnet matches Some(p) ==> {
            &&& reported_limits(api).seven_day_sonnet_pct == Some(p.utilization)
            &&& p.resets_at matches Some(at) ==> reported_limits(api).seven_day_sonnet_resets_at
                == Some(at@)
            &&& p.resets_at is None ==> reported_limits(api).seven_day_sonnet_resets_at is None
        },
        api.seven_day_sonnet is None ==> {
            &&& reported_limits(api).seven_day_sonnet_pct is None
            &&& reported_limits(api).seven_day_sonnet_resets_at is None
        },
        api.seven_day_cowork matches Some(p) ==> {
            &&& reported_limits(api).seven_day_cowork_pct == Some(p.utilization)
            &&& p.resets_at matches Some(at) ==> reported_limits(api).seven_day_cowork_resets_at
                == Some(at@)
            &&& p.resets_at is None ==> reported_limits(api).seven_day_cowork_resets_at is None
        },
        api.seven_day_cowork is None ==> {
            &&& reported_limits(api).seven_day_cowork_pct is None
            &&& reported_limits(api).seven_day_cowork_resets_at is None
        },
        api.seven_day_oauth_apps matches Some(p) ==> {
            &&& reported_limits(api).seven_day_oauth_apps_pct == Some(p.utilization)
            &&& p.resets_at matches Some(at) ==> reported_limits(api).seven_day_oauth_apps_resets_at
                == Some(at@)
            &&& p.resets_at is None ==> reported_limits(api).seven_day_oauth_apps_resets_at is None
        },
        api.seven_day_oauth_apps is None ==> {
            &&& reported_limits(api).seven_day_oauth_apps_pct is None
            &&& reported_limits(api).seven_day_oauth_apps_resets_at is None
        },
        api.extra_usage matches Some(e) ==> {
            &&& reported_limits(api).extra_usage_enabled == e.is_enabled
            &&& reported_limits(api).extra_usage_monthly_limit == e.monthly_limit
            &&& reported_limits(api).extra_usage_used_credits == e.used_credits
            &&& reported_limits(api).extra_usage_utilization == e.utilization
        },
        api.extra_usage is None ==> {
            &&& reported_limits(api).extra_usage_enabled is None
            &&& reported_limits(api).extra_usage_monthly_limit is None
            &&& reported_limits(api).extra_usage_used_credits is None
            &&& reported_limits(api).extra_usage_utilization is None
        },
        reported_limits(api).five_hour_resets_at_epoch is None,
        reported_limits(api).seven_day_resets_at_epoch is None,
{
}

/// A view shows each field under its own name.
pub proof fn law_limits_are_viewed_field_by_field(d: UsageLimitsData)
    ensures
        d@.five_hour_pct == d.five_hour_pct,
        d@.five_hour_resets_at == d.five_hour_resets_at@,
        d@.five_hour_resets_at_epoch == d.five_hour_resets_at_epoch,
        d@.seven_day_pct == d.seven_day_pct,
        d@.seven_day_resets_at == d.seven_day_resets_at@,
        d@.seven_day_resets_at_epoch == d.seven_day_resets_at_epoch,
        d@.seven_day_opus_pct == d.seven_day_opus_pct,
        d.seven_day_opus_resets_at matches Some(at) ==> d@.seven_day_opus_resets_at == Some(
            at@,
        ),
        d.seven_day_opus_resets_at is None ==> d@.seven_day_opus_resets_at is None,
        d@.seven_day_sonnet_pct == d.seven_day_sonnet_pct,
        d.seven_day_sonnet_resets_at matches Some(at) ==> d@.seven_day_sonnet_resets_at == Some(
            at@,
        ),
        d.seven_day_sonnet_resets_at is None ==> d@.seven_day_sonnet_resets_at is None,
        d@.seven_day_cowork_pct == d.seven_day_cowork_pct,
        d.seven_day_cowork_resets_at matches Some(at) ==> d@.seven_day_cowork_resets_at == Some(
            at@,
        ),
        d.seven_day_cowork_resets_at is None ==> d@.seven_day_cowork_resets_at is None,
        d@.seven_day_oauth_apps_pct == d.seven_day_oauth_apps_pct,
        d.seven_day_oauth_apps_resets_at matches Some(at) ==> d@.seven_day_oauth_apps_resets_at == Some(
            at@,
        ),
        d.seven_day_oauth_apps_resets_at is None ==> d@.seven_day_oauth_apps_resets_at is None,
        d@.extra_usage_enabled == d.extra_usage_enabled,
        d@.extra_usage_monthly_limit == d.extra_usage_monthly_limit,
        d@.extra_usage_used_credits == d.extra_usage_used_credits,
        d@.extra_usage_utilization == d.extra_usage_utilization,
        d.deep_view() == d@,
{
}

/// Limits of which nothing is known are those that an answer without any part
/// reports.
pub proof fn law_nothing_is_known_by_default(api: ApiResponse)
    requires
        api.five_hour is None && api.seven_day is None,
        api.seven_day_opus is None && api.seven_day_sonnet is None,
        api.seven_day_cowork is None && api.seven_day_oauth_apps is None,
        api.extra_usage is None,
    ensures
        no_limits() == reported_limits(api),
{
}

/// What one attempt to fetch usage came to.
#[derive(Debug)]
pub enum UsageFetchOutcome {
    Success(UsageLimitsData),
    Unauthorized,
    RateLimited { retry_after_seconds: Option<u64> },
    ServerError { status: u16 },
    NetworkError,
    InvalidResponse,
}

/// Seconds that a `Retry-After` header names, where it names them as a number.
pub open spec fn retry_after(header: Option<Seq<char>>) -> Option<u64> {
    match header {
        Some(h) => text::unsigned_number(h),
        None => None,
    }
}

/// Reads a `Retry-After` header as whole seconds. One that is malformed counts
/// as absent.
pub fn parse_retry_after(header: Option<&str>) -> (r: Option<u64>)
    ensures
        r == retry_after(text::chars_of_option(header)),
{
    match header {
        Some(h) => {
            let letters: Vec<char> = chars(h);
            parse_unsigned(letters.as_slice())
        },
        None => None,
    }
}

/// What a status means on its own; `None` where the body has to be read.
pub open spec fn status_outcome(status: u16, header: Option<Seq<char>>) -> Option<
    UsageFetchOutcome,
> {
    if status == 200 {
        None
    } else if status == 401 {
        Some(UsageFetchOutcome::Unauthorized)
    } else if status == 429 {
        Some(UsageFetchOutcome::RateLimited { retry_after_seconds: retry_after(header) })
    } else {
        Some(UsageFetchOutcome::ServerError { status })
    }
}

/// Maps the status of an answer, and its `Retry-After` header, to an outcome;
/// `None` for 200, where the body decides.
pub fn classify_status(status: u16, retry_after_header: Option<&str>) -> (r: Option<
    UsageFetchOutcome,
>)
    ensures
        r == status_outcome(status, text::chars_of_option(retry_after_header)),
{
    match status {
        200 => None,
        401 => Some(UsageFetchOutcome::Unauthorized),
        429 => Some(
            UsageFetchOutcome::RateLimited {
                retry_after_seconds: parse_retry_after(retry_after_header),
            },
        ),
        s => Some(UsageFetchOutcome::ServerError { status: s }),
    }
}

/// A `Retry-After` header that writes a number of seconds in decimal is read as
/// that number.
pub proof fn law_retry_after_reads_seconds(seconds: u64)
    ensures
        retry_after(Some(text::decimal(seconds as nat))) == Some(seconds),
{
    let written = text::decimal(seconds as nat);
    text::law_decimal_reads_back(seconds as nat);
    text::lemma_number_has_no(written, '+');
}

/// A malformed `Retry-After` header changes nothing.
pub proof fn law_malformed_retry_after_counts_as_absent(status: u16, header: Seq<char>)
    requires
        text::unsigned_number(header) is None,
    ensures
        status_outcome(status, Some(header)) == status_outcome(status, None),
{
}

/// Only a status of 200 has its body read. 401 is a refusal of the token, 429 a
/// limit on the rate, and every other status is an error of the service, which is
/// told apart by its status. The header matters for 429 alone.
pub proof fn law_statuses_are_told_apart(status: u16, header: Option<Seq<char>>)
    ensures
        status_outcome(status, header) is None <==> status == 200,
        status_outcome(status, header) == Some(UsageFetchOutcome::Unauthorized) <==> status == 401,
        status == 429 <==> status_outcome(status, header) is Some && status_outcome(
            status,
            header,
        )->0 is RateLimited,
        status != 200 && status != 401 && status != 429 ==> status_outcome(status, header) == Some(
            UsageFetchOutcome::ServerError { status },
        ),
        status != 429 ==> status_outcome(status, header) == status_outcome(status, None),
{
}

/// A service that limits the rate is waited for as long as its header says, read
/// as a number of seconds: digits, perhaps behind a plus. Where there is no header,
/// or none of this form, it names no time.
pub proof fn law_rate_limit_carries_its_header(digits: Seq<char>)
    ensures
        status_outcome(429, None) == Some(
            UsageFetchOutcome::RateLimited { retry_after_seconds: None },
        ),
        text::is_number(digits) && text::number_value(digits) <= u64::MAX ==> {
            let limited = Some(
                UsageFetchOutcome::RateLimited {
                    retry_after_seconds: Some(text::number_value(digits) as u64),
                },
            );
            &&& status_outcome(429, Some(digits)) == limited
            &&& status_outcome(429, Some(seq!['+'] + digits)) == limited
        },
        !text::is_number(digits) || text::number_value(digits) > u64::MAX ==> {
            &&& status_outcome(429, Some(seq!['+'] + digits)) == status_outcome(429, None)
            &&& digits.len() == 0 || digits[0] != '+' ==> status_outcome(429, Some(digits))
                == status_outcome(429, None)
        },
{
    text::law_numbers_are_read_for_what_they_write(digits);
}

/// How a request is made.
#[derive(Clone, Copy, Debug, PartialEq, Eq, Structural)]
pub enum HttpMethod {
    Get,
}

/// A request to send. It has no body.
#[derive(Debug)]
pub struct UsageRequest {
    pub method: HttpMethod,
    pub url: String,
    /// Name and value of each header, in the order in which they are set.
    pub headers: Vec<(String, String)>,
    pub timeout_ms: u64,
}

/// The headers of a usage request that a client of this name and version sends.
pub open spec fn usage_headers(
    token: Seq<char>,
    client_name: Seq<char>,
    version: Option<Seq<char>>,
) -> Seq<(Seq<char>, Seq<char>)> {
    seq![
        ("Authorization"@, "Bearer "@ + token),
        ("Content-Type"@, "application/json"@),
        ("User-Agent"@, client_name + "/"@ + version.unwrap_or("unknown"@)),
        ("anthropic-beta"@, "oauth-2025-04-20"@),
    ]
}

/// A request bears the token, and so differs from a request for another token; it
/// says which client and version sends it, and the rest is the same for all.
pub proof fn law_request_names_token_and_client(
    token: Seq<char>,
    client_name: Seq<char>,
    version: Seq<char>,
    other_token: Seq<char>,
)
    ensures
        ({
            let headers = usage_headers(token, client_name, Some(version));
            &&& headers.len() == 4
            &&& headers[0] == ("Authorization"@, "Bearer "@ + token)
            &&& headers[1] == ("Content-Type"@, "application/json"@)
            &&& headers[2] == ("User-Agent"@, client_name + "/"@ + version)
            &&& headers[3] == ("anthropic-beta"@, "oauth-2025-04-20"@)
            &&& token != other_token ==> headers[0] != usage_headers(
                other_token,
                client_name,
                Some(version),
            )[0]
        }),
        usage_headers(token, client_name, None) == usage_headers(
            token,
            client_name,
            Some("unknown"@),
        ),
{
    let n = "Bearer "@.len() as int;
    assert(("Bearer "@ + token).skip(n) =~= token);
    assert(("Bearer "@ + other_token).skip(n) =~= other_token);
}

fn header(name: &str, value: String) -> (r: (String, String))
    ensures
        r.0@ == name@,
        r.1 == value,
{
    (String::from_str(name), value)
}

/// Says what to send to fetch the usage of the account that `token` belongs to,
/// in the name of a client and its version. All but the token, the name and the
/// version is fixed. The name is the one by which the service knows the client;
/// the caller has to give it, and nothing is said here of which it is.
pub fn fetch_usage_limits(token: &str, client_name: &str, claude_version: Option<&str>) -> (r:
    UsageRequest)
    ensures
        r.method == HttpMethod::Get,
        r.url@ == USAGE_URL@,
        r.url@ == "https://api.anthropic.com/api/oauth/usage"@,
        r.timeout_ms == REQUEST_TIMEOUT_MS,
        r.timeout_ms == 5000,
        r.headers.deep_view() == usage_headers(
            token@,
            client_name@,
            text::chars_of_option(claude_version),
        ),
{
    let version: &str = match claude_version {
        Some(v) => v,
        None => "unknown",
    };
    let mut headers: Vec<(String, String)> = Vec::new();
    headers.push(header("Authorization", String::from_str("Bearer ").concat(token)));
    headers.push(header("Content-Type", String::from_str("application/json")));
    let agent: String = String::from_str(client_name).concat("/").concat(version);
    headers.push(header("User-Agent", agent));
    headers.push(header("anthropic-beta", String::from_str("oauth-2025-04-20")));
    assert(headers.deep_view() =~= usage_headers(
        token@,
        client_name@,
        text::chars_of_option(claude_version),
    ));
    UsageRequest {
        method: HttpMethod::Get,
        url: String::from_str(USAGE_URL),
        headers,
        timeout_ms: REQUEST_TIMEOUT_MS,
    }
}

/// What happens to a request that was sent.
#[derive(Debug)]
pub enum FetchEvent {
    /// No answer came.
    TransportFailed,
    /// An answer came: its status, and its `Retry-After` header.
    Answered { status: u16, retry_after: Option<String> },
    /// The body could not be read as text.
    BodyUnreadable,
    /// The body was read; as JSON it is this, or was refused for this reason.
    BodyRead(Result<ApiResponse, String>),
}

/// What to do next.
#[derive(Debug)]
pub enum FetchAction {
    ReadBody,
    Finish(UsageFetchOutcome),
}

/// What a fetch has come to when this has happened; `None` where the body has yet
/// to be read.
pub open spec fn fetch_outcome(event: FetchEvent) -> Option<Outcome> {
    match event {
        FetchEvent::TransportFailed => Some(Outcome::NetworkError),
        FetchEvent::Answered { status, retry_after: header } => match status_outcome(
            status,
            header.deep_view(),
        ) {
            Some(outcome) => Some(outcome@),
            None => None,
        },
        FetchEvent::BodyUnreadable => Some(Outcome::InvalidResponse),
        FetchEvent::BodyRead(Ok(api)) => Some(Outcome::Success(reported_limits(api))),
        FetchEvent::BodyRead(Err(_)) => Some(Outcome::InvalidResponse),
    }
}

/// A fetch succeeds if and only if a body came that could be read, and then with
/// the limits that this body reports; a body is read only of a 200. Without an
/// answer it is a network error, and with a body that cannot be read, or makes no
/// sense, an invalid answer. A token is refused by a 401 and the rate is limited by a
/// 429, and by nothing else.
pub proof fn law_fetch_comes_to_what_was_answered(event: FetchEvent)
    ensures
        fetch_outcome(event) matches Some(Outcome::Success(limits)) ==> {
            &&& event is BodyRead && event->BodyRead_0 is Ok
            &&& limits == reported_limits(event->BodyRead_0->Ok_0)
        },
        event is BodyRead && event->BodyRead_0 is Ok ==> fetch_outcome(event) is Some
            && fetch_outcome(event)->0 is Success,
        fetch_outcome(event) is None <==> event is Answered && event->status == 200,
        event is TransportFailed <==> fetch_outcome(event) == Some(Outcome::NetworkError),
        event is BodyUnreadable || (event is BodyRead && event->BodyRead_0 is Err)
            <==> fetch_outcome(event) == Some(Outcome::InvalidResponse),
        event is Answered && event->status == 401 <==> fetch_outcome(event) == Some(
            Outcome::Unauthorized,
        ),
        event is Answered && event->status == 429 <==> fetch_outcome(event) is Some
            && fetch_outcome(event)->0 is RateLimited,
        event is Answered && event->status != 200 && event->status != 401 && event->status != 429
            ==> fetch_outcome(event) == Some(Outcome::ServerError(event->status)),
{
    if event is Answered {
        law_statuses_are_told_apart(event->status, event->retry_after.deep_view());
    }
}

/// Takes a fetch one step further.
pub fn fetch_step(event: FetchEvent) -> (r: FetchAction)
    ensures
        match fetch_outcome(event) {
            Some(outcome) => r matches FetchAction::Finish(o) && o@ == outcome,
            None => r is ReadBody,
        },
        match event {
            FetchEvent::TransportFailed => r == FetchAction::Finish(
                UsageFetchOutcome::NetworkError,
            ),
            FetchEvent::Answered { status, retry_after: header } => match status_outcome(
                status,
                header.deep_view(),
            ) {
                Some(outcome) => r == FetchAction::Finish(outcome),
                None => r == FetchAction::ReadBody,
            },
            FetchEvent::BodyUnreadable => r == FetchAction::Finish(
                UsageFetchOutcome::InvalidResponse,
            ),
            FetchEvent::BodyRead(Ok(api)) => r matches FetchAction::Finish(outcome)
                && outcome matches UsageFetchOutcome::Success(data) && data@ == reported_limits(
                api,
            ),
            FetchEvent::BodyRead(Err(_)) => r == FetchAction::Finish(
                UsageFetchOutcome::InvalidResponse,
            ),
        },
{
    match event {
        FetchEvent::TransportFailed => FetchAction::Finish(UsageFetchOutcome::NetworkError),
        FetchEvent::Answered { status, retry_after: header } => {
            let classified: Option<UsageFetchOutcome> = match &header {
                Some(h) => classify_status(status, Some(h.as_str())),
                None => classify_status(status, None),
            };
            match classified {
                Some(outcome) => FetchAction::Finish(outcome),
                None => FetchAction::ReadBody,
            }
        },
        FetchEvent::BodyUnreadable => FetchAction::Finish(UsageFetchOutcome::InvalidResponse),
        FetchEvent::BodyRead(body) => match parse_api_response(body) {
            Ok(data) => FetchAction::Finish(UsageFetchOutcome::Success(data)),
            Err(_) => FetchAction::Finish(UsageFetchOutcome::InvalidResponse),
        },
    }
}

} // verus!
