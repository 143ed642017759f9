use rusqlite::Connection;
use travel_api::db::datetime::SqlDateTime;
use travel_api::db::schema::initialize_database;
use travel_api::db::statement::Store;
use travel_api::middleware::auth::validate_token;
use travel_api::middleware::auth::AuthenticatedUser;
use travel_api::models::point_of_interest::PointOfInterest;
use travel_api::models::point_of_interest::CATEGORIES;
use travel_api::models::route_option::RouteOption;
use travel_api::models::travel_plan::NewTravelPlan;
use travel_api::models::travel_plan::TravelPlan;
use travel_api::models::travel_plan::UpdateTravelPlan;
use travel_api::models::user::LoginCredentials;
use travel_api::models::user::NewUser;
use travel_api::models::user::User;
use travel_api::routes::auth::identify;
use travel_api::routes::auth::login;
use travel_api::routes::auth::register;
use travel_api::routes::route_option::delete_all_route_options;
use travel_api::routes::route_option::delete_route_option;
use travel_api::routes::route_option::generate_route_options;
use travel_api::routes::route_option::get_route_option_by_id;
use travel_api::routes::route_option::get_route_options;
use travel_api::routes::route_option::GenerateOptionsQuery;
use travel_api::routes::route_option::Rejection;
use travel_api::routes::travel_plan::create_travel_plan;
use travel_api::routes::travel_plan::delete_travel_plan;
use travel_api::routes::travel_plan::get_travel_plan_by_id;
use travel_api::routes::travel_plan::get_travel_plans;
use travel_api::routes::travel_plan::update_travel_plan;
use travel_api::services::auth_service::AuthError;
use travel_api::services::auth_service::AuthService;
use travel_api::services::route_option_service::RouteOptionError;
use travel_api::services::route_option_service::RouteOptionService;
use travel_api::services::travel_plan_service::TravelPlanError;
use travel_api::services::travel_plan_service::TravelPlanService;

fn database() -> Connection {
    let conn = Connection::open_in_memory().unwrap();
    initialize_database(&mut Store::new(&conn)).unwrap();
    conn
}

fn insert_user(conn: &Connection, id: &str, username: &str) -> AuthenticatedUser {
    conn.execute(
        "INSERT INTO users (id, username, password_hash, email, created_at) VALUES (?1, ?2, ?3, ?4, ?5)",
        [id, username, "no-hash", &format!("{}@example.com", username), "2024-01-01T00:00:00+00:00"],
    )
    .unwrap();
    AuthenticatedUser { user_id: id.to_string(), username: username.to_string() }
}

fn test_plan() -> NewTravelPlan {
    NewTravelPlan {
        user_id: "whoever".to_string(),
        name: "Test Travel Plan".to_string(),
        description: Some("A test travel plan".to_string()),
        start_location: "New York".to_string(),
        end_location: "Los Angeles".to_string(),
        start_date: Some(SqlDateTime { secs: 1_700_000_000, nanos: 0 }),
        end_date: Some(SqlDateTime { secs: 1_700_086_400, nanos: 500 }),
    }
}

fn count_rows(conn: &Connection, table: &str) -> i64 {
    conn.query_row(&format!("SELECT COUNT(*) FROM {}", table), [], |row| row.get(0)).unwrap()
}

#[test]
fn test_user_registration() {
    let conn = database();
    let mut store = Store::new(&conn);
    let user_data = NewUser {
        username: "testuser".to_string(),
        password: "password123".to_string(),
        email: "test@example.com".to_string(),
    };
    let response = register(&mut store, &user_data).unwrap();
    assert_eq!(response.message, "User registered successfully");
    assert!(!response.user_id.is_empty());
    let again = register(&mut store, &user_data).unwrap_err();
    assert_eq!(again.status, 409);
    assert_eq!(again.body.error, "Username already exists");
}

#[test]
fn test_user_login() {
    let conn = database();
    let mut store = Store::new(&conn);
    let user_data = NewUser {
        username: "testuser".to_string(),
        password: "password123".to_string(),
        email: "test@example.com".to_string(),
    };
    let registered = register(&mut store, &user_data).unwrap();
    let response = login(
        &mut store,
        &LoginCredentials { username: "testuser".to_string(), password: "password123".to_string() },
    )
    .unwrap();
    assert!(!response.token.is_empty());
    assert_eq!(response.token_type, "Bearer");
    assert_eq!(response.expires_in, 86_400);
    assert_eq!(response.user_id, registered.user_id);
    assert_eq!(response.username, "testuser");
    let wrong = login(
        &mut store,
        &LoginCredentials { username: "testuser".to_string(), password: "wrongpassword".to_string() },
    )
    .unwrap_err();
    assert_eq!(wrong.status, 401);
    let unknown = login(
        &mut store,
        &LoginCredentials {
            username: "nonexistentuser".to_string(),
            password: "password123".to_string(),
        },
    )
    .unwrap_err();
    assert_eq!(unknown.status, 401);
    assert_eq!(unknown.body.error, wrong.body.error);
}

#[test]
fn password_is_stored_as_a_hash_that_it_matches() {
    let conn = database();
    let mut store = Store::new(&conn);
    let user = User::create(
        &mut store,
        &NewUser {
            username: "carol".to_string(),
            password: "pw123456".to_string(),
            email: "c@x.com".to_string(),
        },
    )
    .unwrap();
    assert_ne!(user.password_hash, "pw123456");
    assert!(user.password_hash.starts_with("$2"));
    let stored = User::find_by_username(&mut store, "carol").unwrap().unwrap();
    assert_eq!(stored, user);
    assert_eq!(User::find_by_id(&mut store, &user.id).unwrap(), Some(stored));
    let found = User::find_by_username(&mut store, "carol").unwrap();
    assert_eq!(User::check_password(found, "pw123456").unwrap().map(|u| u.id), Some(user.id));
    let found = User::find_by_username(&mut store, "carol").unwrap();
    assert_eq!(User::check_password(found, "other").unwrap(), None);
    assert_eq!(User::check_password(None, "pw123456").unwrap(), None);
}

#[test]
fn unreadable_hash_is_a_hash_error() {
    let conn = database();
    let mut store = Store::new(&conn);
    insert_user(&conn, "user-1", "dave");
    let credentials =
        LoginCredentials { username: "dave".to_string(), password: "pw".to_string() };
    let failed = User::authenticate(&mut store, &credentials).unwrap_err();
    assert!(matches!(failed, travel_api::db::statement::StoreError::Hash(_)));
    assert!(matches!(AuthService::login(&mut store, &credentials), Err(AuthError::DatabaseError(_))));
}

#[test]
fn test_create_travel_plan() {
    let conn = database();
    let mut store = Store::new(&conn);
    let user = insert_user(&conn, "user-1", "testuser");
    let created = create_travel_plan(&mut store, &user, &test_plan()).unwrap();
    assert!(!created.travel_plan.id.is_empty());
    assert_eq!(created.travel_plan.user_id, "user-1");
    assert_eq!(created.travel_plan.name, "Test Travel Plan");
    assert_eq!(created.travel_plan.description, Some("A test travel plan".to_string()));
    assert_eq!(created.travel_plan.start_location, "New York");
    assert_eq!(created.travel_plan.end_location, "Los Angeles");
    assert_eq!(created.travel_plan.start_date, Some(SqlDateTime { secs: 1_700_000_000, nanos: 0 }));
    assert_eq!(created.travel_plan.created_at, created.travel_plan.updated_at);
    assert!(!created.has_routes_generated);
    assert_eq!(TravelPlan::find_by_id(&mut store, &created.travel_plan.id).unwrap(), Some(created.travel_plan));
}

#[test]
fn test_get_travel_plans() {
    let conn = database();
    let mut store = Store::new(&conn);
    let user = insert_user(&conn, "user-1", "testuser");
    let other = insert_user(&conn, "user-2", "other");
    for i in 1..=3 {
        let mut plan = test_plan();
        plan.name = format!("Test Travel Plan {}", i);
        plan.description = Some(format!("A test travel plan {}", i));
        create_travel_plan(&mut store, &user, &plan).unwrap();
    }
    create_travel_plan(&mut store, &other, &test_plan()).unwrap();
    let plans = get_travel_plans(&mut store, &user).unwrap();
    assert_eq!(plans.len(), 3);
    assert!(plans.iter().all(|p| p.travel_plan.user_id == "user-1"));
    assert!(plans.iter().all(|p| !p.has_routes_generated));
    for pair in plans.windows(2) {
        assert!(pair[0].travel_plan.created_at.secs >= pair[1].travel_plan.created_at.secs);
    }
    assert_eq!(get_travel_plans(&mut store, &other).unwrap().len(), 1);
    assert_eq!(TravelPlan::get_all(&mut store).unwrap().len(), 4);
}

#[test]
fn test_get_travel_plan_by_id() {
    let conn = database();
    let mut store = Store::new(&conn);
    let user = insert_user(&conn, "user-1", "testuser");
    let created = create_travel_plan(&mut store, &user, &test_plan()).unwrap();
    let fetched = get_travel_plan_by_id(&mut store, &user, &created.travel_plan.id).unwrap();
    assert_eq!(fetched.travel_plan.id, created.travel_plan.id);
    assert_eq!(fetched.travel_plan.user_id, "user-1");
    assert_eq!(fetched.travel_plan.name, "Test Travel Plan");
    assert_eq!(fetched.travel_plan.description, Some("A test travel plan".to_string()));
    assert_eq!(fetched.travel_plan.start_location, "New York");
    assert_eq!(fetched.travel_plan.end_location, "Los Angeles");
    assert_eq!(fetched, created);
    let missing = get_travel_plan_by_id(&mut store, &user, "nonexistent-id").unwrap_err();
    assert_eq!(missing.status, 404);
    assert_eq!(missing.body.error, "Travel plan not found");
}

#[test]
fn test_update_travel_plan() {
    let conn = database();
    let mut store = Store::new(&conn);
    let user = insert_user(&conn, "user-1", "testuser");
    let created = create_travel_plan(&mut store, &user, &test_plan()).unwrap();
    let update = UpdateTravelPlan {
        name: Some("Updated Travel Plan".to_string()),
        description: Some("An updated test travel plan".to_string()),
        start_location: Some("Boston".to_string()),
        end_location: Some("San Francisco".to_string()),
        start_date: None,
        end_date: None,
    };
    let updated = update_travel_plan(&mut store, &user, &created.travel_plan.id, &update).unwrap();
    assert_eq!(updated.travel_plan.id, created.travel_plan.id);
    assert_eq!(updated.travel_plan.user_id, "user-1");
    assert_eq!(updated.travel_plan.name, "Updated Travel Plan");
    assert_eq!(updated.travel_plan.description, Some("An updated test travel plan".to_string()));
    assert_eq!(updated.travel_plan.start_location, "Boston");
    assert_eq!(updated.travel_plan.end_location, "San Francisco");
    assert_eq!(updated.travel_plan.start_date, created.travel_plan.start_date);
    assert_eq!(updated.travel_plan.end_date, created.travel_plan.end_date);
    assert_eq!(updated.travel_plan.created_at, created.travel_plan.created_at);
    let stored = get_travel_plan_by_id(&mut store, &user, &created.travel_plan.id).unwrap();
    assert_eq!(stored, updated);
}

#[test]
fn update_without_fields_changes_only_the_instant() {
    let conn = database();
    let mut store = Store::new(&conn);
    let user = insert_user(&conn, "user-1", "testuser");
    let created = create_travel_plan(&mut store, &user, &test_plan()).unwrap();
    let nothing = UpdateTravelPlan {
        name: None,
        description: None,
        start_location: None,
        end_location: None,
        start_date: None,
        end_date: None,
    };
    let updated = update_travel_plan(&mut store, &user, &created.travel_plan.id, &nothing).unwrap();
    let mut expected = created.travel_plan.copy();
    expected.updated_at = updated.travel_plan.updated_at;
    assert_eq!(updated.travel_plan, expected);
    let some = UpdateTravelPlan { name: Some("Twice".to_string()), ..nothing };
    let first = update_travel_plan(&mut store, &user, &created.travel_plan.id, &some).unwrap();
    let second = update_travel_plan(&mut store, &user, &created.travel_plan.id, &some).unwrap();
    let mut first_plan = first.travel_plan;
    first_plan.updated_at = second.travel_plan.updated_at;
    assert_eq!(first_plan, second.travel_plan);
}

#[test]
fn test_delete_travel_plan() {
    let conn = database();
    let mut store = Store::new(&conn);
    let user = insert_user(&conn, "user-1", "testuser");
    let created = create_travel_plan(&mut store, &user, &test_plan()).unwrap();
    assert_eq!(delete_travel_plan(&mut store, &user, &created.travel_plan.id), Ok(()));
    let gone = get_travel_plan_by_id(&mut store, &user, &created.travel_plan.id).unwrap_err();
    assert_eq!(gone.status, 404);
    let again = delete_travel_plan(&mut store, &user, &created.travel_plan.id).unwrap_err();
    assert_eq!(again.status, 404);
}

#[test]
fn deleting_a_plan_removes_its_routes_and_their_points() {
    let conn = database();
    let mut store = Store::new(&conn);
    let user = insert_user(&conn, "user-1", "testuser");
    let doomed = create_travel_plan(&mut store, &user, &test_plan()).unwrap();
    let kept = create_travel_plan(&mut store, &user, &test_plan()).unwrap();
    let three = GenerateOptionsQuery { count: Some(3) };
    let routes = generate_route_options(&mut store, &user, &doomed.travel_plan.id, &three).unwrap();
    let others = generate_route_options(&mut store, &user, &kept.travel_plan.id, &three).unwrap();
    assert_eq!(count_rows(&conn, "route_options"), 6);
    assert_eq!(count_rows(&conn, "points_of_interest"), 30);
    assert_eq!(delete_travel_plan(&mut store, &user, &doomed.travel_plan.id), Ok(()));
    assert_eq!(RouteOption::find_by_travel_plan_id(&mut store, &doomed.travel_plan.id).unwrap(), vec![]);
    for entry in &routes {
        assert_eq!(RouteOption::find_by_id(&mut store, &entry.route.id).unwrap(), None);
        assert_eq!(PointOfInterest::find_by_route_option_id(&mut store, &entry.route.id).unwrap(), vec![]);
        for poi in &entry.points_of_interest {
            assert_eq!(PointOfInterest::find_by_id(&mut store, &poi.id).unwrap(), None);
        }
    }
    assert_eq!(count_rows(&conn, "travel_plans"), 1);
    assert_eq!(count_rows(&conn, "route_options"), 3);
    assert_eq!(count_rows(&conn, "points_of_interest"), 15);
    assert_eq!(get_route_options(&mut store, &user, &kept.travel_plan.id).unwrap(), others);
}

#[test]
fn test_generate_route_options() {
    let conn = database();
    let mut store = Store::new(&conn);
    let user = insert_user(&conn, "user-1", "testuser");
    let plan = create_travel_plan(&mut store, &user, &test_plan()).unwrap().travel_plan;
    let response =
        generate_route_options(&mut store, &user, &plan.id, &GenerateOptionsQuery { count: Some(3) })
            .unwrap();
    assert_eq!(response.len(), 3);
    for entry in &response {
        assert!(!entry.route.id.is_empty());
        assert!(!entry.route.name.is_empty());
        assert!(!entry.route.start_coordinates.is_empty());
        assert!(!entry.route.end_coordinates.is_empty());
        assert_eq!(entry.route.travel_plan_id, plan.id);
        assert!(!entry.points_of_interest.is_empty());
        for poi in &entry.points_of_interest {
            assert!(!poi.id.is_empty());
            assert!(!poi.name.is_empty());
            assert!(!poi.coordinates.is_empty());
            assert_eq!(poi.route_option_id, entry.route.id);
        }
    }
    let listed = get_travel_plan_by_id(&mut store, &user, &plan.id).unwrap();
    assert!(listed.has_routes_generated);
    assert!(get_travel_plans(&mut store, &user).unwrap()[0].has_routes_generated);
}

#[test]
fn generated_routes_have_the_shape_of_their_position() {
    let conn = database();
    let mut store = Store::new(&conn);
    let user = insert_user(&conn, "user-1", "testuser");
    let plan = create_travel_plan(&mut store, &user, &test_plan()).unwrap().travel_plan;
    let generated =
        RouteOptionService::generate_route_options(&mut store, &plan.id, "user-1", 5).unwrap();
    assert_eq!(generated.len(), 5);
    let openings = ["Scenic", "Fastest", "Alternative", "Scenic", "Fastest"];
    for (i, entry) in generated.iter().enumerate() {
        let route = &entry.route;
        assert_eq!(route.name, format!("Route Option {}", i + 1));
        assert_eq!(
            route.description,
            Some(format!("{} route from New York to Los Angeles", openings[i]))
        );
        let distance = route.distance.unwrap();
        assert!((10_000..=1_000_000).contains(&distance));
        let duration = route.duration.unwrap();
        assert!((30..=720).contains(&duration));
        assert_eq!(route.start_coordinates, generated[0].route.start_coordinates);
        assert_eq!(route.end_coordinates, generated[0].route.end_coordinates);
        let waypoints: Vec<&str> = route.waypoints.as_ref().unwrap().split(';').collect();
        assert!((1..=4).contains(&waypoints.len()));
        let pois = &entry.points_of_interest;
        assert_eq!(pois.len(), 3);
        assert_eq!(pois[0].coordinates, route.start_coordinates);
        assert_eq!(pois[2].coordinates, route.end_coordinates);
        assert!(waypoints.contains(&pois[1].coordinates.as_str()));
        for poi in pois {
            let category = poi.category.as_ref().unwrap();
            assert!(CATEGORIES.contains(&category.as_str()));
            assert!(poi.description.is_some());
        }
        assert_eq!(&PointOfInterest::find_by_route_option_id(&mut store, &route.id).unwrap(), pois);
    }
}

#[test]
fn each_count_gives_that_many_routes_with_two_to_five_points() {
    let conn = database();
    let mut store = Store::new(&conn);
    let user = insert_user(&conn, "user-1", "testuser");
    for count in 0..=6usize {
        let plan = create_travel_plan(&mut store, &user, &test_plan()).unwrap().travel_plan;
        let generated =
            RouteOptionService::generate_route_options(&mut store, &plan.id, "user-1", count).unwrap();
        assert_eq!(generated.len(), count);
        assert_eq!(RouteOptionService::poi_count(count), 2 + count % 4);
        for entry in &generated {
            assert_eq!(entry.points_of_interest.len(), 2 + count % 4);
            assert!((2..=5).contains(&entry.points_of_interest.len()));
            assert!(entry.points_of_interest.iter().all(|p| p.route_option_id == entry.route.id));
        }
    }
}

#[test]
fn generation_defaults_to_three_routes() {
    let conn = database();
    let mut store = Store::new(&conn);
    let user = insert_user(&conn, "user-1", "testuser");
    let plan = create_travel_plan(&mut store, &user, &test_plan()).unwrap().travel_plan;
    let query = GenerateOptionsQuery { count: None };
    assert_eq!(query.count_or_default(), 3);
    assert_eq!(generate_route_options(&mut store, &user, &plan.id, &query).unwrap().len(), 3);
}

#[test]
fn test_get_route_options() {
    let conn = database();
    let mut store = Store::new(&conn);
    let user = insert_user(&conn, "user-1", "testuser");
    let plan = create_travel_plan(&mut store, &user, &test_plan()).unwrap().travel_plan;
    assert_eq!(get_route_options(&mut store, &user, &plan.id).unwrap(), vec![]);
    let generated =
        generate_route_options(&mut store, &user, &plan.id, &GenerateOptionsQuery { count: Some(3) })
            .unwrap();
    let response = get_route_options(&mut store, &user, &plan.id).unwrap();
    assert_eq!(response.len(), 3);
    assert_eq!(response, generated);
}

#[test]
fn test_get_route_option_by_id() {
    let conn = database();
    let mut store = Store::new(&conn);
    let user = insert_user(&conn, "user-1", "testuser");
    let plan = create_travel_plan(&mut store, &user, &test_plan()).unwrap().travel_plan;
    let generated =
        generate_route_options(&mut store, &user, &plan.id, &GenerateOptionsQuery { count: Some(1) })
            .unwrap();
    let route_id = generated[0].route.id.clone();
    let response = get_route_option_by_id(&mut store, &user, &plan.id, &route_id).unwrap();
    assert_eq!(response.route.id, route_id);
    assert_eq!(response.route.travel_plan_id, plan.id);
    assert!(!response.points_of_interest.is_empty());
    assert_eq!(response, generated[0]);
    let missing = get_route_option_by_id(&mut store, &user, &plan.id, "nonexistent-id").unwrap_err();
    assert_eq!(missing.status, 404);
    assert_eq!(missing.body.error, "Route option not found");
}

#[test]
fn route_of_another_plan_is_an_invalid_route_option() {
    let conn = database();
    let mut store = Store::new(&conn);
    let user = insert_user(&conn, "user-1", "testuser");
    let first = create_travel_plan(&mut store, &user, &test_plan()).unwrap().travel_plan;
    let second = create_travel_plan(&mut store, &user, &test_plan()).unwrap().travel_plan;
    let one = GenerateOptionsQuery { count: Some(1) };
    let route_id = generate_route_options(&mut store, &user, &first.id, &one).unwrap()[0].route.id.clone();
    assert_eq!(
        RouteOptionService::get_route_option_by_id(&mut store, &second.id, &route_id, "user-1"),
        Err(RouteOptionError::InvalidRouteOption)
    );
    assert_eq!(
        RouteOptionService::get_route_option_by_id(&mut store, &second.id, "none", "user-1"),
        Err(RouteOptionError::RouteNotFound)
    );
    let refused = get_route_option_by_id(&mut store, &user, &second.id, &route_id).unwrap_err();
    assert_eq!(refused.status, 400);
    assert_eq!(refused.body.error, "Route option does not belong to the specified travel plan");
    let refused = delete_route_option(&mut store, &user, &second.id, &route_id).unwrap_err();
    assert_eq!(refused.status, 400);
    assert_eq!(count_rows(&conn, "route_options"), 1);
    assert_eq!(count_rows(&conn, "points_of_interest"), 3);
}

#[test]
fn deleting_one_route_removes_its_points_first() {
    let conn = database();
    let mut store = Store::new(&conn);
    let user = insert_user(&conn, "user-1", "testuser");
    let plan = create_travel_plan(&mut store, &user, &test_plan()).unwrap().travel_plan;
    let two = GenerateOptionsQuery { count: Some(2) };
    let generated = generate_route_options(&mut store, &user, &plan.id, &two).unwrap();
    let doomed = &generated[0];
    let done = delete_route_option(&mut store, &user, &plan.id, &doomed.route.id).unwrap();
    assert_eq!(
        done.message,
        format!("Route option with ID: {} deleted successfully", doomed.route.id)
    );
    assert_eq!(PointOfInterest::find_by_route_option_id(&mut store, &doomed.route.id).unwrap(), vec![]);
    let left = get_route_options(&mut store, &user, &plan.id).unwrap();
    assert_eq!(left.len(), 1);
    assert_eq!(left[0], generated[1]);
    let again = delete_route_option(&mut store, &user, &plan.id, &doomed.route.id).unwrap_err();
    assert_eq!(again.status, 404);
}

#[test]
fn deleting_all_routes_says_how_many_went() {
    let conn = database();
    let mut store = Store::new(&conn);
    let user = insert_user(&conn, "user-1", "testuser");
    let plan = create_travel_plan(&mut store, &user, &test_plan()).unwrap().travel_plan;
    let none = delete_all_route_options(&mut store, &user, &plan.id).unwrap();
    assert_eq!(none.message, format!("Deleted 0 route options for travel plan ID: {}", plan.id));
    let four = GenerateOptionsQuery { count: Some(4) };
    generate_route_options(&mut store, &user, &plan.id, &four).unwrap();
    assert_eq!(count_rows(&conn, "points_of_interest"), 8);
    let done = delete_all_route_options(&mut store, &user, &plan.id).unwrap();
    assert_eq!(done.message, format!("Deleted 4 route options for travel plan ID: {}", plan.id));
    assert_eq!(count_rows(&conn, "route_options"), 0);
    assert_eq!(count_rows(&conn, "points_of_interest"), 0);
    assert_eq!(count_rows(&conn, "travel_plans"), 1);
    assert_eq!(RouteOptionService::delete_all_route_options(&mut store, &plan.id, "user-1"), Ok(0));
}

#[test]
fn another_user_is_refused_everywhere() {
    let conn = database();
    let mut store = Store::new(&conn);
    let alice = insert_user(&conn, "user-a", "alice");
    let bob = insert_user(&conn, "user-b", "bob");
    let plan = create_travel_plan(&mut store, &alice, &test_plan()).unwrap().travel_plan;
    let two = GenerateOptionsQuery { count: Some(2) };
    let routes = generate_route_options(&mut store, &alice, &plan.id, &two).unwrap();
    let route_id = routes[0].route.id.clone();
    let rename = UpdateTravelPlan {
        name: Some("Mine now".to_string()),
        description: None,
        start_location: None,
        end_location: None,
        start_date: None,
        end_date: None,
    };
    assert_eq!(
        TravelPlanService::get_travel_plan_by_id(&mut store, &plan.id, "user-b"),
        Err(TravelPlanError::Unauthorized)
    );
    assert_eq!(
        TravelPlanService::update_travel_plan(&mut store, &plan.id, &rename, "user-b"),
        Err(TravelPlanError::Unauthorized)
    );
    assert_eq!(
        TravelPlanService::delete_travel_plan(&mut store, &plan.id, "user-b"),
        Err(TravelPlanError::Unauthorized)
    );
    let unauthorized = RouteOptionError::TravelPlanError(TravelPlanError::Unauthorized);
    assert_eq!(
        RouteOptionService::get_route_options(&mut store, &plan.id, "user-b"),
        Err(RouteOptionError::TravelPlanError(TravelPlanError::Unauthorized))
    );
    assert_eq!(
        RouteOptionService::generate_route_options(&mut store, &plan.id, "user-b", 1).unwrap_err(),
        unauthorized
    );
    assert_eq!(
        RouteOptionService::get_route_option_by_id(&mut store, &plan.id, &route_id, "user-b").unwrap_err(),
        unauthorized
    );
    assert_eq!(
        RouteOptionService::delete_route_option(&mut store, &plan.id, &route_id, "user-b").unwrap_err(),
        unauthorized
    );
    assert_eq!(
        RouteOptionService::delete_all_route_options(&mut store, &plan.id, "user-b").unwrap_err(),
        unauthorized
    );
    assert_eq!(get_travel_plan_by_id(&mut store, &bob, &plan.id).unwrap_err().status, 403);
    assert_eq!(update_travel_plan(&mut store, &bob, &plan.id, &rename).unwrap_err().status, 403);
    assert_eq!(delete_travel_plan(&mut store, &bob, &plan.id).unwrap_err().status, 403);
    assert_eq!(get_route_options(&mut store, &bob, &plan.id).unwrap_err().status, 403);
    assert_eq!(get_travel_plans(&mut store, &bob).unwrap(), vec![]);
    let untouched = get_travel_plan_by_id(&mut store, &alice, &plan.id).unwrap();
    assert_eq!(untouched.travel_plan, plan);
    assert_eq!(get_route_options(&mut store, &alice, &plan.id).unwrap(), routes);
}

#[test]
fn owner_in_the_fields_is_ignored() {
    let conn = database();
    let mut store = Store::new(&conn);
    let alice = insert_user(&conn, "user-a", "alice");
    let mut fields = test_plan();
    fields.user_id = "user-b".to_string();
    let created = create_travel_plan(&mut store, &alice, &fields).unwrap();
    assert_eq!(created.travel_plan.user_id, "user-a");
    assert_eq!(
        TravelPlanService::get_travel_plan_by_id(&mut store, &created.travel_plan.id, "user-b"),
        Err(TravelPlanError::Unauthorized)
    );
}

#[test]
fn register_login_plan_routes_and_a_stranger() {
    let conn = database();
    let mut store = Store::new(&conn);
    let alice = NewUser {
        username: "alice".to_string(),
        password: "pw123456".to_string(),
        email: "a@x.com".to_string(),
    };
    let registered = register(&mut store, &alice).unwrap();
    let session = login(
        &mut store,
        &LoginCredentials { username: "alice".to_string(), password: "pw123456".to_string() },
    )
    .unwrap();
    assert_eq!(validate_token(&session.token).unwrap().sub, registered.user_id);
    let header = format!("Bearer {}", session.token);
    let caller = identify(Some(&header)).unwrap();
    assert_eq!(caller.user_id, registered.user_id);
    let fields = NewTravelPlan {
        user_id: String::new(),
        name: "Trip".to_string(),
        description: None,
        start_location: "NYC".to_string(),
        end_location: "LA".to_string(),
        start_date: None,
        end_date: None,
    };
    let plan = create_travel_plan(&mut store, &caller, &fields).unwrap().travel_plan;
    assert_eq!(plan.user_id, registered.user_id);
    let routes =
        generate_route_options(&mut store, &caller, &plan.id, &GenerateOptionsQuery { count: Some(3) })
            .unwrap();
    assert_eq!(routes.len(), 3);
    let bob = insert_user(&conn, "user-b", "bob");
    let refused = get_travel_plan_by_id(&mut store, &bob, &plan.id).unwrap_err();
    assert_eq!(refused.status, 403);
    assert_eq!(refused.body.error, "You don't have permission to access this travel plan");
}

#[test]
fn store_failure_answers_with_the_same_words() {
    let conn = Connection::open_in_memory().unwrap();
    let mut store = Store::new(&conn);
    let user = AuthenticatedUser { user_id: "user-1".to_string(), username: "u".to_string() };
    let failed = get_travel_plans(&mut store, &user).unwrap_err();
    assert_eq!(failed.status, 500);
    assert_eq!(failed.body.error, "Database error");
    let failed = create_travel_plan(&mut store, &user, &test_plan()).unwrap_err();
    assert_eq!(failed.status, 500);
    assert_eq!(failed.body.error, "Database error");
    match TravelPlanService::get_travel_plan_by_id(&mut store, "p", "user-1") {
        Err(TravelPlanError::DatabaseError(cause)) => assert!(cause.contains("travel_plans")),
        other => panic!("unexpected {:?}", other),
    }
    let failed = get_route_options(&mut store, &user, "p").unwrap_err();
    assert_eq!(failed.status, 500);
    assert_eq!(failed.body.error, "Database error");
}

#[test]
fn a_plan_with_an_unwritable_date_is_refused_and_nothing_is_stored() {
    let conn = database();
    let mut store = Store::new(&conn);
    let user = insert_user(&conn, "user-1", "testuser");
    let fields = NewTravelPlan {
        end_date: Some(SqlDateTime { secs: i64::MAX, nanos: 0 }),
        ..test_plan()
    };
    assert_eq!(
        TravelPlanService::create_travel_plan(&mut store, &fields, "user-1"),
        Err(TravelPlanError::DatabaseError("Timestamp out of range".to_string()))
    );
    assert_eq!(
        create_travel_plan(&mut store, &user, &fields),
        Err(Rejection::new(500, "Database error"))
    );
    assert_eq!(count_rows(&conn, "travel_plans"), 0);
}

#[test]
fn a_plan_that_the_store_refuses_is_answered_with_the_same_words() {
    let conn = database();
    let mut store = Store::new(&conn);
    let stranger = AuthenticatedUser { user_id: "nobody".to_string(), username: "n".to_string() };
    match TravelPlanService::create_travel_plan(&mut store, &test_plan(), "nobody") {
        Err(TravelPlanError::DatabaseError(words)) => assert!(words.contains("FOREIGN KEY")),
        other => panic!("unexpected outcome: {:?}", other),
    }
    assert_eq!(
        create_travel_plan(&mut store, &stranger, &test_plan()),
        Err(Rejection::new(500, "Database error"))
    );
    assert_eq!(count_rows(&conn, "travel_plans"), 0);
}
