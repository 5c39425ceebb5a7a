//! The typed endpoint model: a closed set of request variants, each rendered
//! deterministically into its relative URL string.
//!
//! Rendering is total: every representable value produces a string. Optional
//! season-stats filters are appended in a fixed order (team, conference,
//! startWeek, endWeek, seasonType, category), each only when present, and
//! spaces in team and conference values are escaped as `%20`.

use vstd::prelude::*;

use crate::decimal::{dec_str, u64_to_string};
use crate::escape::{escape_spaces, escape_spaces_str};

verus! {

/// The type of season a stats query covers.
#[derive(Clone, Copy, PartialEq, Eq, Debug)]
pub enum SeasonType {
    Regular,
    Postseason,
    Both,
}

/// The statistical category a stats query covers.
#[derive(Clone, Copy, PartialEq, Eq, Debug)]
pub enum StatCategory {
    Passing,
    Rushing,
    Receiving,
    Defensive,
    Interceptions,
    Kicking,
    KickReturns,
    PuntReturns,
    Punting,
}

/// Filters for a season-stats query. Every field is independently optional;
/// any subset may be present.
#[derive(PartialEq, Debug)]
pub struct SeasonStatsParameters {
    pub team: Option<String>,
    pub conference: Option<String>,
    pub start_week: Option<u8>,
    pub end_week: Option<u8>,
    pub season_type: Option<SeasonType>,
    pub category: Option<StatCategory>,
}

/// One addressable resource on the remote API, optionally parameterized.
#[derive(PartialEq, Debug)]
pub enum Endpoint {
    Conferences,
    Teams(Option<String>),
    SeasonStats(u16, Option<SeasonStatsParameters>),
}

/// The lowercase wire token of a season type.
pub open spec fn season_type_token(t: SeasonType) -> Seq<char> {
    match t {
        SeasonType::Regular => "regular"@,
        SeasonType::Postseason => "postseason"@,
        SeasonType::Both => "both"@,
    }
}

/// The wire token of a stat category; the two multi-word tokens are
/// mixed-case.
pub open spec fn category_token(c: StatCategory) -> Seq<char> {
    match c {
        StatCategory::Passing => "passing"@,
        StatCategory::Rushing => "rushing"@,
        StatCategory::Receiving => "receiving"@,
        StatCategory::Defensive => "defensive"@,
        StatCategory::Interceptions => "interceptions"@,
        StatCategory::Kicking => "kicking"@,
        StatCategory::KickReturns => "kickReturns"@,
        StatCategory::PuntReturns => "puntReturns"@,
        StatCategory::Punting => "punting"@,
    }
}

/// What an optional string-valued filter contributes to the query string:
/// nothing when absent, `prefix` then the space-escaped value when present.
pub open spec fn opt_text_part(prefix: Seq<char>, v: Option<String>) -> Seq<char> {
    match v {
        Option::None => Seq::empty(),
        Option::Some(s) => prefix + escape_spaces(s@),
    }
}

/// What an optional week-number filter contributes to the query string.
pub open spec fn opt_week_part(prefix: Seq<char>, v: Option<u8>) -> Seq<char> {
    match v {
        Option::None => Seq::empty(),
        Option::Some(n) => prefix + dec_str(n as nat),
    }
}

/// What an optional season-type filter contributes to the query string.
pub open spec fn opt_season_type_part(v: Option<SeasonType>) -> Seq<char> {
    match v {
        Option::None => Seq::empty(),
        Option::Some(t) => "&seasonType="@ + season_type_token(t),
    }
}

/// What an optional category filter contributes to the query string.
pub open spec fn opt_category_part(v: Option<StatCategory>) -> Seq<char> {
    match v {
        Option::None => Seq::empty(),
        Option::Some(c) => "&category="@ + category_token(c),
    }
}

/// What the optional filter record contributes to a season-stats query
/// string: the present fields, in the fixed order team, conference,
/// startWeek, endWeek, seasonType, category.
pub open spec fn params_query(p: Option<SeasonStatsParameters>) -> Seq<char> {
    match p {
        Option::None => Seq::empty(),
        Option::Some(ps) => opt_text_part("&team="@, ps.team) + opt_text_part(
            "&conference="@,
            ps.conference,
        ) + opt_week_part("&startWeek="@, ps.start_week) + opt_week_part(
            "&endWeek="@,
            ps.end_week,
        ) + opt_season_type_part(ps.season_type) + opt_category_part(ps.category),
    }
}

/// The relative URL string of an endpoint.
pub open spec fn rendered(e: Endpoint) -> Seq<char> {
    match e {
        Endpoint::Conferences => "conferences"@,
        Endpoint::Teams(conf) => match conf {
            Option::None => "teams"@,
            Option::Some(c) => "teams?conference="@ + c@,
        },
        Endpoint::SeasonStats(year, params) => "stats/player/season?year="@ + dec_str(
            year as nat,
        ) + params_query(params),
    }
}

/// Rendering is deterministic: equal endpoint values render to equal
/// strings.
pub proof fn lemma_render_deterministic(a: Endpoint, b: Endpoint)
    requires
        a == b,
    ensures
        rendered(a) == rendered(b),
{
}

/// For every year, a season-stats endpoint without a filter record renders
/// as the base string followed by the year alone.
pub proof fn lemma_season_stats_base(year: u16)
    ensures
        rendered(Endpoint::SeasonStats(year, Option::None)) == "stats/player/season?year="@
            + dec_str(year as nat),
{
    assert(rendered(Endpoint::SeasonStats(year, Option::None)) =~= "stats/player/season?year="@
        + dec_str(year as nat));
}

/// Present filters always appear in the fixed order team, conference,
/// startWeek, endWeek, seasonType, category, directly after the base string
/// and year, whatever order the record's fields were filled in.
#[verifier::rlimit(50)]
pub proof fn lemma_params_fixed_order(year: u16, ps: SeasonStatsParameters)
    ensures
        rendered(Endpoint::SeasonStats(year, Option::Some(ps))) == "stats/player/season?year="@
            + dec_str(year as nat) + opt_text_part("&team="@, ps.team) + opt_text_part(
            "&conference="@,
            ps.conference,
        ) + opt_week_part("&startWeek="@, ps.start_week) + opt_week_part("&endWeek="@, ps.end_week)
            + opt_season_type_part(ps.season_type) + opt_category_part(ps.category),
{
    assert(rendered(Endpoint::SeasonStats(year, Option::Some(ps)))
        =~= "stats/player/season?year="@ + dec_str(year as nat) + opt_text_part("&team="@, ps.team)
        + opt_text_part("&conference="@, ps.conference) + opt_week_part(
        "&startWeek="@,
        ps.start_week,
    ) + opt_week_part("&endWeek="@, ps.end_week) + opt_season_type_part(ps.season_type)
        + opt_category_part(ps.category));
}

/// A filter record with every field absent renders identically to an absent
/// record: no trailing separator and no empty fragment is left behind.
pub proof fn lemma_empty_params_like_none(year: u16)
    ensures
        rendered(
            Endpoint::SeasonStats(
                year,
                Option::Some(
                    SeasonStatsParameters {
                        team: Option::None,
                        conference: Option::None,
                        start_week: Option::None,
                        end_week: Option::None,
                        season_type: Option::None,
                        category: Option::None,
                    },
                ),
            ),
        ) == rendered(Endpoint::SeasonStats(year, Option::None)),
{
    let ps = SeasonStatsParameters {
        team: Option::None,
        conference: Option::None,
        start_week: Option::None,
        end_week: Option::None,
        season_type: Option::None,
        category: Option::None,
    };
    assert(params_query(Option::Some(ps)) =~= Seq::<char>::empty());
    assert(rendered(Endpoint::SeasonStats(year, Option::Some(ps))) =~= rendered(
        Endpoint::SeasonStats(year, Option::None),
    ));
}

fn season_type_str(t: &SeasonType) -> (r: &'static str)
    ensures
        r@ == season_type_token(*t),
{
    match t {
        SeasonType::Regular => "regular",
        SeasonType::Postseason => "postseason",
        SeasonType::Both => "both",
    }
}

fn category_str(c: &StatCategory) -> (r: &'static str)
    ensures
        r@ == category_token(*c),
{
    match c {
        StatCategory::Passing => "passing",
        StatCategory::Rushing => "rushing",
        StatCategory::Receiving => "receiving",
        StatCategory::Defensive => "defensive",
        StatCategory::Interceptions => "interceptions",
        StatCategory::Kicking => "kicking",
        StatCategory::KickReturns => "kickReturns",
        StatCategory::PuntReturns => "puntReturns",
        StatCategory::Punting => "punting",
    }
}

fn append_text_part(s: &mut String, prefix: &str, v: &Option<String>)
    ensures
        final (s)@ == old(s)@ + opt_text_part(prefix@, *v),
{
    match v {
        Option::None => {
            proof {
                assert(s@ =~= old(s)@ + opt_text_part(prefix@, *v));
            }
        },
        Option::Some(t) => {
            s.append(prefix);
            let esc = escape_spaces_str(t.as_str());
            s.append(esc.as_str());
            proof {
                assert(s@ =~= old(s)@ + opt_text_part(prefix@, *v));
            }
        },
    }
}

fn append_week_part(s: &mut String, prefix: &str, v: &Option<u8>)
    ensures
        final (s)@ == old(s)@ + opt_week_part(prefix@, *v),
{
    match v {
        Option::None => {
            proof {
                assert(s@ =~= old(s)@ + opt_week_part(prefix@, *v));
            }
        },
        Option::Some(n) => {
            s.append(prefix);
            let w = u64_to_string(*n as u64);
            s.append(w.as_str());
            proof {
                assert(s@ =~= old(s)@ + opt_week_part(prefix@, *v));
            }
        },
    }
}

fn append_season_type_part(s: &mut String, v: &Option<SeasonType>)
    ensures
        final (s)@ == old(s)@ + opt_season_type_part(*v),
{
    match v {
        Option::None => {
            proof {
                assert(s@ =~= old(s)@ + opt_season_type_part(*v));
            }
        },
        Option::Some(t) => {
            s.append("&seasonType=");
            s.append(season_type_str(t));
            proof {
                assert(s@ =~= old(s)@ + opt_season_type_part(*v));
            }
        },
    }
}

fn append_category_part(s: &mut String, v: &Option<StatCategory>)
    ensures
        final (s)@ == old(s)@ + opt_category_part(*v),
{
    match v {
        Option::None => {
            proof {
                assert(s@ =~= old(s)@ + opt_category_part(*v));
            }
        },
        Option::Some(c) => {
            s.append("&category=");
            s.append(category_str(c));
            proof {
                assert(s@ =~= old(s)@ + opt_category_part(*v));
            }
        },
    }
}

fn append_params(s: &mut String, ps: &SeasonStatsParameters)
    ensures
        final (s)@ == old(s)@ + params_query(Option::Some(*ps)),
{
    append_text_part(s, "&team=", &ps.team);
    append_text_part(s, "&conference=", &ps.conference);
    append_week_part(s, "&startWeek=", &ps.start_week);
    append_week_part(s, "&endWeek=", &ps.end_week);
    append_season_type_part(s, &ps.season_type);
    append_category_part(s, &ps.category);
    proof {
        assert(s@ =~= old(s)@ + params_query(Option::Some(*ps)));
    }
}

impl Endpoint {
    /// Renders this endpoint into its relative URL string. Pure and total:
    /// every value, including one with every filter absent, produces a
    /// string, and the result is determined by the value alone.
    pub fn render(&self) -> (r: String)
        ensures
            r@ == rendered(*self),
    {
        match self {
            Endpoint::Conferences => String::from_str("conferences"),
            Endpoint::Teams(conf) => match conf {
                Option::None => String::from_str("teams"),
                Option::Some(c) => {
                    let mut s = String::from_str("teams?conference=");
                    s.append(c.as_str());
                    s
                },
            },
            Endpoint::SeasonStats(year, params) => {
                let mut s = String::from_str("stats/player/season?year=");
                let year_str = u64_to_string(*year as u64);
                s.append(year_str.as_str());
                match params {
                    Option::None => {
                        proof {
                            assert(s@ =~= rendered(*self));
                        }
                        s
                    },
                    Option::Some(ps) => {
                        append_params(&mut s, ps);
                        proof {
                            assert(s@ =~= rendered(*self));
                        }
                        s
                    },
                }
            },
        }
    }
}

} // verus!
