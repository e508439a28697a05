use strava::activities::{activity_url, athlete_activities_url};
use strava::api::AccessToken;
use strava::error::ApiError;
use strava::http::{
    classify_status, handle_get_response, handle_post_response, refresh_request, Response,
    StatusAction,
};
use strava::segmentefforts::list_for_segment_url;
use strava::uploads::{upload_post_url, upload_status_url};

fn unauthorized(body: &str) -> Response {
    Response { status: 401, body: body.to_string() }
}

#[test]
fn every_authenticated_accessor_rejects_a_401_without_parsing() {
    let token = AccessToken::new("T".to_string());
    // One request per accessor: fetch an activity, list the athlete's
    // activities, list a segment's efforts, fetch an upload, create an
    // upload. The first four are GETs, the last is a POST.
    let gets = [
        activity_url(&token, "5"),
        athlete_activities_url(&token),
        list_for_segment_url(&token, 646257),
        upload_status_url(&token, 42),
    ];
    for url in gets {
        assert!(url.contains("access_token=T"));
        match handle_get_response(unauthorized("not the target type")) {
            Err(ApiError::Unauthorized) => (),
            other => panic!("expected Unauthorized for {}, got {:?}", url, other),
        }
    }
    let post_url = upload_post_url(&token);
    assert!(post_url.contains("access_token=T"));
    match handle_post_response(unauthorized("not the target type")) {
        Err(ApiError::Unauthorized) => (),
        other => panic!("expected Unauthorized for {}, got {:?}", post_url, other),
    }
}

#[test]
fn upload_create_maps_a_400_to_bad_request_with_the_body() {
    let response = Response { status: 400, body: "invalid distance".to_string() };
    match handle_post_response(response) {
        Err(ApiError::BadRequest(message)) => assert_eq!(message, "invalid distance"),
        other => panic!("expected BadRequest, got {:?}", other),
    }
}

#[test]
fn get_hands_every_non_401_body_on_for_parsing() {
    for status in [200u16, 204, 400, 404, 500] {
        let response = Response { status, body: "{\"id\": 1}".to_string() };
        match handle_get_response(response) {
            Ok(body) => assert_eq!(body, "{\"id\": 1}"),
            other => panic!("expected the body for status {}, got {:?}", status, other),
        }
    }
}

#[test]
fn post_hands_every_other_status_body_on_for_parsing() {
    for status in [200u16, 201, 404, 500] {
        let response = Response { status, body: "{}".to_string() };
        match handle_post_response(response) {
            Ok(body) => assert_eq!(body, "{}"),
            other => panic!("expected the body for status {}, got {:?}", status, other),
        }
    }
}

#[test]
fn the_status_policy_is_checked_before_any_parsing() {
    assert_eq!(classify_status(401, false), StatusAction::RejectUnauthorized);
    assert_eq!(classify_status(401, true), StatusAction::RejectUnauthorized);
    assert_eq!(classify_status(400, true), StatusAction::RejectBadRequest);
    assert_eq!(classify_status(400, false), StatusAction::Parse);
    assert_eq!(classify_status(200, true), StatusAction::Parse);
    assert_eq!(classify_status(200, false), StatusAction::Parse);
}

#[test]
fn refresh_request_carries_the_four_oauth_parameters() {
    let rt = strava::api::RefreshToken::new(
        "RSECRET".to_string(),
        "CID".to_string(),
        "CSECRET".to_string(),
    );
    let (url, params) = refresh_request(&rt);
    assert_eq!(url, "https://www.strava.com/api/v3/oauth/token");
    let pairs: Vec<(&str, &str)> =
        params.iter().map(|p| (p.name.as_str(), p.value.as_str())).collect();
    assert_eq!(
        pairs,
        vec![
            ("client_id", "CID"),
            ("client_secret", "CSECRET"),
            ("grant_type", "refresh_token"),
            ("refresh_token", "RSECRET"),
        ]
    );
}

#[test]
fn accessor_urls_are_exact() {
    let token = AccessToken::new("T".to_string());
    assert_eq!(
        activity_url(&token, "321934"),
        "https://www.strava.com/api/v3/activities/321934?access_token=T"
    );
    assert_eq!(
        athlete_activities_url(&token),
        "https://www.strava.com/api/v3/athlete/activities?access_token=T"
    );
    assert_eq!(
        list_for_segment_url(&token, 646257),
        "https://www.strava.com/api/v3/segments/646257/all_efforts?access_token=T"
    );
    assert_eq!(
        upload_status_url(&token, 0),
        "https://www.strava.com/api/v3/uploads/0?access_token=T"
    );
    assert_eq!(
        upload_status_url(&token, 4294967295),
        "https://www.strava.com/api/v3/uploads/4294967295?access_token=T"
    );
    assert_eq!(
        upload_post_url(&token),
        "https://www.strava.com/api/v3/uploads?access_token=T"
    );
}
