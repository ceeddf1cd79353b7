//! The usage-statistics endpoint: per-day counters of sent and retrieved
//! messages. A day's `date` arrives as an RFC 3339 timestamp string; the
//! decoder keeps the text and accepts only what chrono's parser accepts.

use vstd::prelude::*;
use crate::json::{
    JsonV, JsonValue, parse_json_text, json_of_text, obj_get, spec_req_str, spec_req_u64,
    spec_req_arr, get_req_str, get_req_u64, get_req_arr, lemma_obj_view,
};
use crate::http::{HttpMethod, HttpPlan, RequestBody};

verus! {

/// The timestamp a string parses to, in seconds since the epoch, if chrono
/// accepts it. What this is, only chrono says; the library treats it as a
/// fixed function of the characters.
pub uninterp spec fn utc_timestamp_of(s: Seq<char>) -> Option<i64>;

/// Relies on chrono's `DateTime::parse_from_rfc3339` and `timestamp`:
/// whether a string parses, and to which instant, depend on the characters
/// alone.
#[verifier::external_body]
fn parse_utc_timestamp(s: &str) -> (r: Option<i64>)
    ensures
        r == utc_timestamp_of(s@),
{
    match chrono::DateTime::parse_from_rfc3339(s) {
        Ok(d) => Some(d.timestamp()),
        Err(_) => None,
    }
}

/// Counters of messages sent on one day.
#[derive(Debug, Clone)]
pub struct Sent {
    pub sms: u64,
    pub email: u64,
}

impl DeepView for Sent {
    type V = Sent;

    open spec fn deep_view(&self) -> Sent {
        *self
    }
}

pub open spec fn spec_sent_from_json(j: JsonV) -> Option<Sent> {
    match j {
        JsonV::Obj(fields) => match (spec_req_u64(fields, "sms"@), spec_req_u64(
            fields,
            "email"@,
        )) {
            (Some(sms), Some(email)) => Some(Sent { sms, email }),
            _ => None,
        },
        _ => None,
    }
}

impl Sent {
    pub fn from_json(j: &JsonValue) -> (r: Option<Sent>)
        ensures
            r == spec_sent_from_json(j.deep_view()),
    {
        match j {
            JsonValue::Obj(fields) => {
                proof {
                    lemma_obj_view(*fields);
                }
                let sms = match get_req_u64(fields, "sms") {
                    Some(x) => x,
                    None => {
                        return None;
                    },
                };
                let email = match get_req_u64(fields, "email") {
                    Some(x) => x,
                    None => {
                        return None;
                    },
                };
                Some(Sent { sms, email })
            },
            _ => None,
        }
    }
}

/// Counters of messages retrieved on one day, by channel.
#[derive(Debug, Clone)]
pub struct Retrieved {
    pub web_private: u64,
    pub web_public: u64,
    pub api_email: u64,
    pub api_error: u64,
}

impl DeepView for Retrieved {
    type V = Retrieved;

    open spec fn deep_view(&self) -> Retrieved {
        *self
    }
}

pub open spec fn spec_retrieved_from_json(j: JsonV) -> Option<Retrieved> {
    match j {
        JsonV::Obj(fields) => {
            let web_private = spec_req_u64(fields, "web_private"@);
            let web_public = spec_req_u64(fields, "web_public"@);
            let api_email = spec_req_u64(fields, "api_email"@);
            let api_error = spec_req_u64(fields, "api_error"@);
            if web_private is Some && web_public is Some && api_email is Some && api_error
                is Some {
                Some(
                    Retrieved {
                        web_private: web_private.unwrap(),
                        web_public: web_public.unwrap(),
                        api_email: api_email.unwrap(),
                        api_error: api_error.unwrap(),
                    },
                )
            } else {
                None
            }
        },
        _ => None,
    }
}

impl Retrieved {
    pub fn from_json(j: &JsonValue) -> (r: Option<Retrieved>)
        ensures
            r == spec_retrieved_from_json(j.deep_view()),
    {
        match j {
            JsonValue::Obj(fields) => {
                proof {
                    lemma_obj_view(*fields);
                }
                let web_private = match get_req_u64(fields, "web_private") {
                    Some(x) => x,
                    None => {
                        return None;
                    },
                };
                let web_public = match get_req_u64(fields, "web_public") {
                    Some(x) => x,
                    None => {
                        return None;
                    },
                };
                let api_email = match get_req_u64(fields, "api_email") {
                    Some(x) => x,
                    None => {
                        return None;
                    },
                };
                let api_error = match get_req_u64(fields, "api_error") {
                    Some(x) => x,
                    None => {
                        return None;
                    },
                };
                Some(Retrieved { web_private, web_public, api_email, api_error })
            },
            _ => None,
        }
    }
}

/// One day of usage: the day's timestamp as transmitted, and its counters.
#[derive(Debug, Clone)]
pub struct Stats {
    pub date: String,
    pub retrieved: Retrieved,
    pub sent: Sent,
}

#[verifier::ext_equal]
pub struct StatsView {
    pub date: Seq<char>,
    pub retrieved: Retrieved,
    pub sent: Sent,
}

impl DeepView for Stats {
    type V = StatsView;

    open spec fn deep_view(&self) -> StatsView {
        StatsView { date: self.date.deep_view(), retrieved: self.retrieved, sent: self.sent }
    }
}

/// The day a document decodes to: the date string must parse as a
/// timestamp, the counters must be well formed.
pub open spec fn spec_stats_from_json(j: JsonV) -> Option<StatsView> {
    match j {
        JsonV::Obj(fields) => {
            let date = match spec_req_str(fields, "date"@) {
                Some(d) => if utc_timestamp_of(d) is Some {
                    Some(d)
                } else {
                    None
                },
                None => None,
            };
            let retrieved = match obj_get(fields, "retrieved"@) {
                Some(jr) => spec_retrieved_from_json(jr),
                None => None,
            };
            let sent = match obj_get(fields, "sent"@) {
                Some(js) => spec_sent_from_json(js),
                None => None,
            };
            if date is Some && retrieved is Some && sent is Some {
                Some(
                    StatsView {
                        date: date.unwrap(),
                        retrieved: retrieved.unwrap(),
                        sent: sent.unwrap(),
                    },
                )
            } else {
                None
            }
        },
        _ => None,
    }
}

impl Stats {
    pub fn from_json(j: &JsonValue) -> (r: Option<Stats>)
        ensures
            r.deep_view() == spec_stats_from_json(j.deep_view()),
    {
        match j {
            JsonValue::Obj(fields) => {
                proof {
                    lemma_obj_view(*fields);
                }
                let date = match get_req_str(fields, "date") {
                    Some(d) => d,
                    None => {
                        return None;
                    },
                };
                if parse_utc_timestamp(date.as_str()).is_none() {
                    return None;
                }
                let retrieved = match crate::json::json_obj_get(fields, "retrieved") {
                    Some(jr) => match Retrieved::from_json(jr) {
                        Some(x) => x,
                        None => {
                            return None;
                        },
                    },
                    None => {
                        return None;
                    },
                };
                let sent = match crate::json::json_obj_get(fields, "sent") {
                    Some(js) => match Sent::from_json(js) {
                        Some(x) => x,
                        None => {
                            return None;
                        },
                    },
                    None => {
                        return None;
                    },
                };
                Some(Stats { date, retrieved, sent })
            },
            _ => None,
        }
    }
}

/// The team's usage listing.
#[derive(Debug, Clone)]
pub struct UsageStatistica {
    pub stats: Vec<Stats>,
}

#[verifier::ext_equal]
pub struct UsageStatisticaView {
    pub stats: Seq<StatsView>,
}

impl DeepView for UsageStatistica {
    type V = UsageStatisticaView;

    open spec fn deep_view(&self) -> UsageStatisticaView {
        UsageStatisticaView { stats: self.stats.deep_view() }
    }
}

pub open spec fn spec_stats_list_from_json(items: Seq<JsonV>) -> Option<Seq<StatsView>> {
    if forall|i: int| 0 <= i < items.len() ==> (#[trigger] spec_stats_from_json(items[i])) is Some {
        Some(items.map_values(|x: JsonV| spec_stats_from_json(x).unwrap()))
    } else {
        None
    }
}

proof fn lemma_stats_list_from_json_some(s: Seq<JsonV>)
    requires
        forall|i: int| 0 <= i < s.len() ==> (#[trigger] spec_stats_from_json(s[i])) is Some,
    ensures
        spec_stats_list_from_json(s) is Some,
        spec_stats_list_from_json(s).unwrap().len() == s.len(),
        forall|k: int|
            0 <= k < s.len() ==> #[trigger] spec_stats_list_from_json(s).unwrap()[k]
                == spec_stats_from_json(s[k]).unwrap(),
{
}

fn stats_list_from_json(items: &Vec<JsonValue>) -> (r: Option<Vec<Stats>>)
    ensures
        r.deep_view() == spec_stats_list_from_json(items.deep_view()),
{
    let ghost iv = items.deep_view();
    let mut out: Vec<Stats> = Vec::new();
    proof {
        lemma_stats_list_from_json_some(iv.take(0));
        assert(spec_stats_list_from_json(iv.take(0)).unwrap() =~~= out.deep_view());
    }
    let mut i: usize = 0;
    while i < items.len()
        invariant
            0 <= i <= items.len(),
            iv == items.deep_view(),
            iv.len() == items.len(),
            spec_stats_list_from_json(iv.take(i as int)) == Some(out.deep_view()),
        decreases items.len() - i,
    {
        proof {
            assert(iv[i as int] == items@[i as int].deep_view());
        }
        match Stats::from_json(&items[i]) {
            Some(x) => {
                let ghost pre = out.deep_view();
                out.push(x);
                proof {
                    assert forall|j: int| 0 <= j < i + 1 implies (#[trigger] spec_stats_from_json(
                        iv.take(i as int + 1)[j],
                    )) is Some by {
                        assert(iv.take(i as int + 1)[j] == iv[j]);
                        if j < i {
                            assert(spec_stats_list_from_json(iv.take(i as int)) is Some);
                            assert(spec_stats_from_json(iv.take(i as int)[j]) is Some);
                        }
                    }
                    lemma_stats_list_from_json_some(iv.take(i as int));
                    lemma_stats_list_from_json_some(iv.take(i as int + 1));
                    let next = spec_stats_list_from_json(iv.take(i as int + 1));
                    assert(out.deep_view() =~~= pre.push(x.deep_view()));
                    assert(next.unwrap() =~~= out.deep_view());
                    assert(next == Some(out.deep_view()));
                }
            },
            None => {
                proof {
                    assert(spec_stats_from_json(iv[i as int]) is None);
                }
                return None;
            },
        }
        i = i + 1;
    }
    proof {
        assert(iv.take(items.len() as int) =~= iv);
    }
    Some(out)
}

/// The response the statistics endpoint decodes to.
pub open spec fn spec_usage_statistica_from_json(j: JsonV) -> Option<UsageStatisticaView> {
    match j {
        JsonV::Obj(fields) => match spec_req_arr(fields, "stats"@) {
            Some(items) => match spec_stats_list_from_json(items) {
                Some(sts) => Some(UsageStatisticaView { stats: sts }),
                None => None,
            },
            None => None,
        },
        _ => None,
    }
}

pub open spec fn spec_usage_statistica_from_text(s: Seq<char>) -> Option<UsageStatisticaView> {
    match json_of_text(s) {
        Some(j) => spec_usage_statistica_from_json(j),
        None => None,
    }
}

impl UsageStatistica {
    pub fn from_json(j: &JsonValue) -> (r: Option<UsageStatistica>)
        ensures
            r.deep_view() == spec_usage_statistica_from_json(j.deep_view()),
    {
        match j {
            JsonValue::Obj(fields) => {
                proof {
                    lemma_obj_view(*fields);
                }
                match get_req_arr(fields, "stats") {
                    Some(items) => match stats_list_from_json(items) {
                        Some(sts) => Some(UsageStatistica { stats: sts }),
                        None => None,
                    },
                    None => None,
                }
            },
            _ => None,
        }
    }

    /// Decodes the usage listing from a response body.
    pub fn from_text(body: &str) -> (r: Option<UsageStatistica>)
        ensures
            r.deep_view() == spec_usage_statistica_from_text(body@),
    {
        match parse_json_text(body) {
            Some(j) => Self::from_json(&j),
            None => None,
        }
    }
}

/// Plans fetching the team's usage statistics.
pub fn get_usage_statistica() -> (p: HttpPlan)
    ensures
        p.method == HttpMethod::Get,
        p.path@ == "/api/v2/team/stats"@,
        p.body is Empty,
{
    HttpPlan {
        method: HttpMethod::Get,
        path: "/api/v2/team/stats".to_owned(),
        body: RequestBody::Empty,
    }
}

} // verus!