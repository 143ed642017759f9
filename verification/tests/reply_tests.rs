use travel_api::db::datetime::SqlDateTime;
use travel_api::db::statement::StoreError;
use travel_api::middleware::auth::generate_token_at;
use travel_api::middleware::auth::validate_token_at;
use travel_api::middleware::auth::AuthToken;
use travel_api::middleware::auth::TokenError;
use travel_api::models::user::User;
use travel_api::routes::auth::login_reply;
use travel_api::routes::auth::registration_reply;
use travel_api::routes::auth::LoginResponse;
use travel_api::routes::auth::RegisterResponse;
use travel_api::routes::endpoint::Endpoint;
use travel_api::routes::route_option::route_deletion_reply;
use travel_api::routes::route_option::routes_deletion_reply;
use travel_api::routes::route_option::ErrorResponse;
use travel_api::routes::route_option::GenerateOptionsQuery;
use travel_api::routes::route_option::MessageResponse;
use travel_api::routes::route_option::Rejection;
use travel_api::routes::route_option::BAD_REQUEST;
use travel_api::routes::route_option::CONFLICT;
use travel_api::routes::route_option::CREATED;
use travel_api::routes::route_option::DEFAULT_COUNT;
use travel_api::routes::route_option::FORBIDDEN;
use travel_api::routes::route_option::INTERNAL_SERVER_ERROR;
use travel_api::routes::route_option::NOT_FOUND;
use travel_api::routes::route_option::NO_CONTENT;
use travel_api::routes::route_option::OK;
use travel_api::routes::route_option::UNAUTHORIZED;
use travel_api::routes::travel_plan::PlanAction;
use travel_api::services::auth_service::AuthError;
use travel_api::services::auth_service::AuthService;
use travel_api::services::route_option_service::RouteOptionError;
use travel_api::services::travel_plan_service::TravelPlanError;

fn refusal(status: u16, words: &str) -> Rejection {
    Rejection { status, body: ErrorResponse { error: words.to_string() } }
}

fn alice() -> User {
    User {
        id: "user-1".to_string(),
        username: "alice".to_string(),
        password_hash: "hash".to_string(),
        email: "a@x.com".to_string(),
        created_at: SqlDateTime { secs: 1, nanos: 0 },
    }
}

#[test]
fn statuses_are_the_usual_ones() {
    assert_eq!(
        [OK, CREATED, NO_CONTENT, BAD_REQUEST, UNAUTHORIZED, FORBIDDEN, NOT_FOUND, CONFLICT],
        [200, 201, 204, 400, 401, 403, 404, 409]
    );
    assert_eq!(INTERNAL_SERVER_ERROR, 500);
    assert_eq!(DEFAULT_COUNT, 3);
    assert_eq!(GenerateOptionsQuery { count: Some(7) }.count_or_default(), 7);
    assert_eq!(GenerateOptionsQuery { count: Some(0) }.count_or_default(), 0);
    assert_eq!(Rejection::new(418, "teapot"), refusal(418, "teapot"));
}

#[test]
fn plan_failures_are_refused_by_their_kind() {
    let reject = travel_api::routes::travel_plan::reject;
    assert_eq!(
        reject(&TravelPlanError::NotFound, PlanAction::Access),
        refusal(404, "Travel plan not found")
    );
    assert_eq!(
        reject(&TravelPlanError::NotFound, PlanAction::Create),
        refusal(404, "Resource not found")
    );
    assert_eq!(
        reject(&TravelPlanError::Unauthorized, PlanAction::Access),
        refusal(403, "You don't have permission to access this travel plan")
    );
    assert_eq!(
        reject(&TravelPlanError::Unauthorized, PlanAction::Create),
        refusal(403, "You don't have permission to create this travel plan")
    );
    assert_eq!(
        reject(&TravelPlanError::Unauthorized, PlanAction::Update),
        refusal(403, "You don't have permission to update this travel plan")
    );
    assert_eq!(
        reject(&TravelPlanError::Unauthorized, PlanAction::Delete),
        refusal(403, "You don't have permission to delete this travel plan")
    );
    assert_eq!(
        reject(&TravelPlanError::DatabaseError("table users is locked".to_string()), PlanAction::Update),
        refusal(500, "Database error")
    );
}

#[test]
fn route_failures_are_refused_by_their_kind() {
    let of = Rejection::of_route_error;
    assert_eq!(
        of(&RouteOptionError::TravelPlanError(TravelPlanError::NotFound)),
        refusal(404, "Travel plan not found")
    );
    assert_eq!(
        of(&RouteOptionError::TravelPlanError(TravelPlanError::Unauthorized)),
        refusal(403, "You don't have permission to access this travel plan")
    );
    assert_eq!(
        of(&RouteOptionError::TravelPlanError(TravelPlanError::DatabaseError("x".to_string()))),
        refusal(500, "Database error")
    );
    assert_eq!(of(&RouteOptionError::RouteNotFound), refusal(404, "Route option not found"));
    assert_eq!(
        of(&RouteOptionError::InvalidRouteOption),
        refusal(400, "Route option does not belong to the specified travel plan")
    );
    assert_eq!(
        of(&RouteOptionError::DatabaseError("disk I/O error".to_string())),
        refusal(500, "Database error")
    );
}

#[test]
fn deletions_are_answered_with_a_message() {
    assert_eq!(
        route_deletion_reply(Ok(true), "r-1"),
        Ok(MessageResponse { message: "Route option with ID: r-1 deleted successfully".to_string() })
    );
    assert_eq!(route_deletion_reply(Ok(false), "r-1"), Err(refusal(404, "Route option not found")));
    assert_eq!(
        route_deletion_reply(Err(RouteOptionError::InvalidRouteOption), "r-1"),
        Err(refusal(400, "Route option does not belong to the specified travel plan"))
    );
    assert_eq!(
        routes_deletion_reply(Ok(12), "p-1"),
        Ok(MessageResponse {
            message: "Deleted 12 route options for travel plan ID: p-1".to_string()
        })
    );
    assert_eq!(
        routes_deletion_reply(Err(RouteOptionError::DatabaseError("x".to_string())), "p-1"),
        Err(refusal(500, "Database error"))
    );
}

#[test]
fn credential_failures_are_refused_by_their_kind() {
    let reject = travel_api::routes::auth::reject;
    assert_eq!(reject(&AuthError::UsernameTaken), refusal(409, "Username already exists"));
    assert_eq!(reject(&AuthError::InvalidCredentials), refusal(401, "Invalid username or password"));
    assert_eq!(reject(&AuthError::DatabaseError("x".to_string())), refusal(500, "Database error"));
    assert_eq!(
        reject(&AuthError::TokenGenerationError("x".to_string())),
        refusal(500, "Token generation error")
    );
}

#[test]
fn registration_and_login_are_answered_with_their_bodies() {
    assert_eq!(
        registration_reply(Ok(alice())),
        Ok(RegisterResponse {
            message: "User registered successfully".to_string(),
            user_id: "user-1".to_string(),
        })
    );
    assert_eq!(
        registration_reply(Err(AuthError::UsernameTaken)),
        Err(refusal(409, "Username already exists"))
    );
    assert_eq!(
        login_reply(Ok((alice(), "t.o.k".to_string(), 86_400))),
        Ok(LoginResponse {
            token: "t.o.k".to_string(),
            token_type: "Bearer".to_string(),
            expires_in: 86_400,
            user_id: "user-1".to_string(),
            username: "alice".to_string(),
        })
    );
    assert_eq!(
        login_reply(Err(AuthError::InvalidCredentials)),
        Err(refusal(401, "Invalid username or password"))
    );
}

#[test]
fn credential_decisions_follow_what_was_found() {
    assert_eq!(AuthService::check_available(Ok(None)), Ok(()));
    assert_eq!(AuthService::check_available(Ok(Some(alice()))), Err(AuthError::UsernameTaken));
    assert_eq!(
        AuthService::check_available(Err(StoreError::Engine("no such table".to_string()))),
        Err(AuthError::DatabaseError("no such table".to_string()))
    );
    assert_eq!(AuthService::accept(Ok(Some(alice()))), Ok(alice()));
    assert_eq!(AuthService::accept(Ok(None)), Err(AuthError::InvalidCredentials));
    assert_eq!(
        AuthService::accept(Err(StoreError::Hash("Invalid hash".to_string()))),
        Err(AuthError::DatabaseError("Invalid hash".to_string()))
    );
    let issued = AuthToken {
        token: "t.o.k".to_string(),
        token_type: "Bearer".to_string(),
        expires_in: 86_400,
    };
    assert_eq!(
        AuthService::open_session(alice(), Ok(issued)),
        Ok((alice(), "t.o.k".to_string(), 86_400))
    );
    assert_eq!(
        AuthService::open_session(alice(), Err(TokenError::Signing("no key".to_string()))),
        Err(AuthError::TokenGenerationError("no key".to_string()))
    );
}

#[test]
fn tokens_make_the_round_trip_for_any_claims() {
    let odd = User {
        id: "id \"quoted\" \\ \u{1F600}".to_string(),
        username: "na\u{0}me\n".to_string(),
        ..alice()
    };
    for at in [-100_000i64, -86_400, -1, 0, i64::MAX - 86_400] {
        let issued = generate_token_at(&odd, "", at).unwrap();
        let claims = validate_token_at(&issued.token, "", at).unwrap();
        assert_eq!(claims.sub, odd.id);
        assert_eq!(claims.username, odd.username);
        assert_eq!(claims.iat, at);
        assert_eq!(claims.exp, at + 86_400);
        assert_eq!(validate_token_at(&issued.token, "", at + 86_400), Err(TokenError::Expired));
    }
}

#[test]
fn each_endpoint_answers_success_with_its_status() {
    assert_eq!(Endpoint::Register.success(), 201);
    assert_eq!(Endpoint::CreateTravelPlan.success(), 201);
    assert_eq!(Endpoint::DeleteTravelPlan.success(), 204);
    for endpoint in [
        Endpoint::Login,
        Endpoint::GetTravelPlans,
        Endpoint::GetTravelPlanById,
        Endpoint::UpdateTravelPlan,
        Endpoint::GetRouteOptions,
        Endpoint::GenerateRouteOptions,
        Endpoint::GetRouteOptionById,
        Endpoint::DeleteRouteOption,
        Endpoint::DeleteAllRouteOptions,
    ] {
        assert_eq!(endpoint.success(), 200);
        assert!(endpoint.has_body());
    }
    assert!(Endpoint::Register.has_body());
    assert!(Endpoint::CreateTravelPlan.has_body());
    assert!(!Endpoint::DeleteTravelPlan.has_body());
}

#[test]
fn an_answer_has_the_status_of_success_or_of_its_refusal() {
    let done: Result<u8, Rejection> = Ok(1);
    assert_eq!(Endpoint::Register.status_of(&done), 201);
    assert_eq!(Endpoint::Login.status_of(&done), 200);
    assert_eq!(Endpoint::DeleteTravelPlan.status_of(&done), 204);
    let refused: Result<u8, Rejection> = Err(refusal(CONFLICT, "Username already exists"));
    assert_eq!(Endpoint::Register.status_of(&refused), 409);
    let absent: Result<u8, Rejection> = Err(refusal(NOT_FOUND, "Travel plan not found"));
    assert_eq!(Endpoint::DeleteTravelPlan.status_of(&absent), 404);
}
