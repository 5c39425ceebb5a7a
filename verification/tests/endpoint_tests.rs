use cfbd::{Endpoint, SeasonStatsParameters, SeasonType, StatCategory};

fn no_params() -> SeasonStatsParameters {
    SeasonStatsParameters {
        team: None,
        conference: None,
        start_week: None,
        end_week: None,
        season_type: None,
        category: None,
    }
}

#[test]
fn cfb_test_season_type_stattype_season_stats() {
    let parameters = SeasonStatsParameters {
        team: None,
        conference: None,
        start_week: None,
        end_week: None,
        season_type: Some(SeasonType::Regular),
        category: Some(StatCategory::Passing),
    };
    let endpoint = Endpoint::SeasonStats(2003, Some(parameters));
    assert_eq!(
        endpoint.render(),
        String::from("stats/player/season?year=2003&seasonType=regular&category=passing")
    );
}

#[test]
fn cfb_test_empty_season_stats() {
    let parameters = no_params();
    let endpoint = Endpoint::SeasonStats(2003, Some(parameters));
    assert_eq!(
        endpoint.render(),
        String::from("stats/player/season?year=2003")
    );
}

#[test]
fn utils_test_season_type_stattype_season_stats() {
    let parameters = SeasonStatsParameters {
        team: None,
        conference: None,
        start_week: None,
        end_week: None,
        season_type: Some(SeasonType::Regular),
        category: Some(StatCategory::Passing),
    };
    let endpoint = Endpoint::SeasonStats(2003, Some(parameters));
    assert_eq!(
        endpoint.render(),
        String::from("stats/player/season?year=2003&seasonType=regular&category=passing")
    );
}

#[test]
fn utils_test_empty_season_stats() {
    let parameters = no_params();
    let endpoint = Endpoint::SeasonStats(2003, Some(parameters));
    assert_eq!(
        endpoint.render(),
        String::from("stats/player/season?year=2003")
    );
}

#[test]
fn test_conferences_endpoint_renders_literal() {
    assert_eq!(Endpoint::Conferences.render(), String::from("conferences"));
}

#[test]
fn test_teams_endpoint_without_filter() {
    assert_eq!(Endpoint::Teams(None).render(), String::from("teams"));
}

#[test]
fn test_teams_endpoint_with_conference() {
    let endpoint = Endpoint::Teams(Some(String::from("SEC")));
    assert_eq!(endpoint.render(), String::from("teams?conference=SEC"));
}

#[test]
fn test_season_stats_without_params_other_year() {
    let endpoint = Endpoint::SeasonStats(1999, None);
    assert_eq!(
        endpoint.render(),
        String::from("stats/player/season?year=1999")
    );
}

#[test]
fn test_empty_params_matches_absent_params() {
    let with_empty = Endpoint::SeasonStats(2022, Some(no_params())).render();
    let with_none = Endpoint::SeasonStats(2022, None).render();
    assert_eq!(with_empty, with_none);
}

#[test]
fn test_render_is_deterministic() {
    let a = Endpoint::Teams(Some(String::from("Big Ten"))).render();
    let b = Endpoint::Teams(Some(String::from("Big Ten"))).render();
    assert_eq!(a, b);
}

#[test]
fn test_team_name_with_space_is_escaped() {
    let parameters = SeasonStatsParameters {
        team: Some(String::from("Notre Dame")),
        ..no_params()
    };
    let endpoint = Endpoint::SeasonStats(2003, Some(parameters));
    assert_eq!(
        endpoint.render(),
        String::from("stats/player/season?year=2003&team=Notre%20Dame")
    );
}

#[test]
fn test_conference_name_with_spaces_is_escaped() {
    let parameters = SeasonStatsParameters {
        conference: Some(String::from("Mountain West Conference")),
        ..no_params()
    };
    let endpoint = Endpoint::SeasonStats(2010, Some(parameters));
    assert_eq!(
        endpoint.render(),
        String::from("stats/player/season?year=2010&conference=Mountain%20West%20Conference")
    );
}

#[test]
fn test_all_params_appear_in_fixed_order() {
    let parameters = SeasonStatsParameters {
        category: Some(StatCategory::KickReturns),
        season_type: Some(SeasonType::Postseason),
        end_week: Some(14),
        start_week: Some(1),
        conference: Some(String::from("Big Ten")),
        team: Some(String::from("Ohio State")),
    };
    let endpoint = Endpoint::SeasonStats(2021, Some(parameters));
    assert_eq!(
        endpoint.render(),
        String::from(
            "stats/player/season?year=2021&team=Ohio%20State&conference=Big%20Ten\
             &startWeek=1&endWeek=14&seasonType=postseason&category=kickReturns"
        )
    );
}

#[test]
fn test_week_bounds_render_in_decimal() {
    let parameters = SeasonStatsParameters {
        start_week: Some(0),
        end_week: Some(255),
        ..no_params()
    };
    let endpoint = Endpoint::SeasonStats(2003, Some(parameters));
    assert_eq!(
        endpoint.render(),
        String::from("stats/player/season?year=2003&startWeek=0&endWeek=255")
    );
}

#[test]
fn test_all_category_tokens() {
    let cases = [
        (StatCategory::Passing, "passing"),
        (StatCategory::Rushing, "rushing"),
        (StatCategory::Receiving, "receiving"),
        (StatCategory::Defensive, "defensive"),
        (StatCategory::Interceptions, "interceptions"),
        (StatCategory::Kicking, "kicking"),
        (StatCategory::KickReturns, "kickReturns"),
        (StatCategory::PuntReturns, "puntReturns"),
        (StatCategory::Punting, "punting"),
    ];
    for (category, token) in cases {
        let parameters = SeasonStatsParameters {
            category: Some(category),
            ..no_params()
        };
        let endpoint = Endpoint::SeasonStats(2000, Some(parameters));
        assert_eq!(
            endpoint.render(),
            format!("stats/player/season?year=2000&category={token}")
        );
    }
}

#[test]
fn test_all_season_type_tokens() {
    let cases = [
        (SeasonType::Regular, "regular"),
        (SeasonType::Postseason, "postseason"),
        (SeasonType::Both, "both"),
    ];
    for (season_type, token) in cases {
        let parameters = SeasonStatsParameters {
            season_type: Some(season_type),
            ..no_params()
        };
        let endpoint = Endpoint::SeasonStats(2000, Some(parameters));
        assert_eq!(
            endpoint.render(),
            format!("stats/player/season?year=2000&seasonType={token}")
        );
    }
}
