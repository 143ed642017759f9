use rusqlite::Connection;
use travel_api::db::cascade::run_atomically;
use travel_api::db::cascade::Deletion;
use travel_api::db::datetime::instant_at;
use travel_api::db::datetime::optional_instant_at;
use travel_api::db::datetime::InvalidType;
use travel_api::db::datetime::NullableSqlDateTime;
use travel_api::db::datetime::SqlDateTime;
use travel_api::db::schema::initialize_database;
use travel_api::db::schema::TABLES;
use travel_api::db::statement::is_bindable;
use travel_api::db::statement::optional_integer;
use travel_api::db::statement::optional_integer_at;
use travel_api::db::statement::optional_text;
use travel_api::db::statement::optional_text_at;
use travel_api::db::statement::text;
use travel_api::db::statement::text_at;
use travel_api::db::statement::SqlValue;
use travel_api::db::statement::Statement;
use travel_api::db::statement::Store;
use travel_api::db::statement::StoreError;
use travel_api::db::statement::UNBOUND_REAL;
use travel_api::models::point_of_interest::NewPointOfInterest;
use travel_api::models::point_of_interest::PointOfInterest;
use travel_api::models::point_of_interest::UpdatePointOfInterest;
use travel_api::models::route_option::NewRouteOption;
use travel_api::models::route_option::RouteOption;
use travel_api::models::route_option::UpdateRouteOption;
use travel_api::models::travel_plan::NewTravelPlan;
use travel_api::models::travel_plan::TravelPlan;
use travel_api::models::travel_plan::UpdateTravelPlan;
use travel_api::models::user::User;
use travel_api::services::route_option_service::RouteOptionError;
use travel_api::services::route_option_service::RouteOptionService;
use travel_api::services::travel_plan_service::TravelPlanError;
use travel_api::services::travel_plan_service::TravelPlanService;

fn database() -> Connection {
    let conn = Connection::open_in_memory().unwrap();
    initialize_database(&mut Store::new(&conn)).unwrap();
    conn
}

fn store_with_plan() -> (Connection, TravelPlan) {
    let conn = database();
    conn.execute(
        "INSERT INTO users (id, username, password_hash, email, created_at) VALUES ('user-1', 'u', 'h', 'u@x', 5)",
        [],
    )
    .unwrap();
    let fields = NewTravelPlan {
        user_id: String::new(),
        name: "Trip".to_string(),
        description: None,
        start_location: "Oslo".to_string(),
        end_location: "Rome".to_string(),
        start_date: None,
        end_date: None,
    };
    let plan = TravelPlan::create(&mut Store::new(&conn), &fields, "user-1").unwrap();
    (conn, plan)
}

fn epoch(secs: i64) -> SqlDateTime {
    SqlDateTime { secs, nanos: 0 }
}

fn plan_of(owner: &str) -> TravelPlan {
    TravelPlan {
        id: "plan-1".to_string(),
        user_id: owner.to_string(),
        name: "Trip".to_string(),
        description: None,
        start_location: "NYC".to_string(),
        end_location: "LA".to_string(),
        start_date: None,
        end_date: Some(epoch(20)),
        created_at: epoch(1),
        updated_at: epoch(2),
    }
}

fn route_of(plan: &str) -> RouteOption {
    RouteOption {
        id: "route-1".to_string(),
        travel_plan_id: plan.to_string(),
        name: "Route Option 1".to_string(),
        description: None,
        distance: Some(12_345),
        duration: Some(45),
        start_coordinates: "1.000000,2.000000".to_string(),
        end_coordinates: "3.000000,4.000000".to_string(),
        waypoints: None,
        created_at: epoch(3),
    }
}

#[test]
fn values_travel_to_the_engine_and_back() {
    let conn = Connection::open_in_memory().unwrap();
    let mut store = Store::new(&conn);
    assert_eq!(store.run(&Statement::plain("CREATE TABLE t (a, b, c, d)")), Ok(0));
    let params = vec![
        text("x"),
        SqlValue::Integer(-7),
        SqlValue::Null,
        SqlValue::Blob(vec![1, 2, 3]),
    ];
    assert_eq!(store.run(&Statement { sql: "INSERT INTO t (a, b, c, d) VALUES (?1, ?2, ?3, ?4)", params: params.clone() }), Ok(1));
    assert_eq!(
        store.fetch(&Statement::keyed("SELECT a, b, c, d FROM t WHERE a = ?1", "x")),
        Ok(vec![params])
    );
    assert_eq!(store.fetch(&Statement::keyed("SELECT a FROM t WHERE a = ?1", "y")), Ok(vec![]));
    assert_eq!(
        store.fetch(&Statement::plain("SELECT 1.5, b FROM t")),
        Ok(vec![vec![SqlValue::Real, SqlValue::Integer(-7)]])
    );
    assert_eq!(store.run(&Statement::keyed("DELETE FROM t WHERE a = ?1", "x")), Ok(1));
    assert_eq!(store.run(&Statement::keyed("DELETE FROM t WHERE a = ?1", "x")), Ok(0));
}

#[test]
fn engine_failure_keeps_the_engine_message() {
    let conn = Connection::open_in_memory().unwrap();
    let mut store = Store::new(&conn);
    match store.run(&Statement::plain("DELETE FROM missing")) {
        Err(StoreError::Engine(message)) => {
            assert!(message.contains("missing"));
            assert_eq!(StoreError::Engine(message.clone()).message(), message);
        },
        other => panic!("unexpected {:?}", other),
    }
    assert!(matches!(store.fetch(&Statement::plain("SELECT * FROM missing")), Err(StoreError::Engine(_))));
}

#[test]
fn store_errors_describe_themselves() {
    assert_eq!(StoreError::MissingColumn(3).message(), "Invalid column index");
    assert_eq!(StoreError::InvalidColumnType(3).message(), "Invalid column type");
    assert_eq!(StoreError::Hash("bad cost".to_string()).message(), "bad cost");
    assert_eq!(StoreError::Timestamp.message(), "Timestamp out of range");
}

#[test]
fn cells_are_read_by_kind() {
    let row = vec![text("a"), SqlValue::Null, SqlValue::Integer(5), SqlValue::Real];
    assert_eq!(text_at(&row, 0), Ok("a".to_string()));
    assert_eq!(text_at(&row, 1), Err(StoreError::InvalidColumnType(1)));
    assert_eq!(text_at(&row, 4), Err(StoreError::MissingColumn(4)));
    assert_eq!(optional_text_at(&row, 0), Ok(Some("a".to_string())));
    assert_eq!(optional_text_at(&row, 1), Ok(None));
    assert_eq!(optional_text_at(&row, 2), Err(StoreError::InvalidColumnType(2)));
    assert_eq!(optional_text_at(&row, 9), Err(StoreError::MissingColumn(9)));
    assert_eq!(optional_integer_at(&row, 2), Ok(Some(5)));
    assert_eq!(optional_integer_at(&row, 1), Ok(None));
    assert_eq!(optional_integer_at(&row, 3), Err(StoreError::InvalidColumnType(3)));
    assert_eq!(optional_integer_at(&row, 4), Err(StoreError::MissingColumn(4)));
    assert_eq!(optional_text(&Some("t".to_string())), text("t"));
    assert_eq!(optional_text(&None), SqlValue::Null);
    assert_eq!(optional_integer(Some(4)), SqlValue::Integer(4));
    assert_eq!(optional_integer(None), SqlValue::Null);
}

#[test]
fn instants_are_read_from_text_and_from_seconds() {
    assert_eq!(
        SqlDateTime::column_result(&text("2024-01-01T00:00:00Z")),
        Ok(SqlDateTime { secs: 1_704_067_200, nanos: 0 })
    );
    assert_eq!(
        SqlDateTime::column_result(&text("2024-01-01T01:00:00.5+01:00")),
        Ok(SqlDateTime { secs: 1_704_067_200, nanos: 500_000_000 })
    );
    assert_eq!(
        SqlDateTime::column_result(&text("2024-01-01 00:00:01")),
        Ok(SqlDateTime { secs: 1_704_067_201, nanos: 0 })
    );
    assert_eq!(SqlDateTime::column_result(&SqlValue::Integer(1_431_648_000)), Ok(epoch(1_431_648_000)));
    assert_eq!(SqlDateTime::column_result(&SqlValue::Integer(i64::MAX)), Err(InvalidType));
    assert_eq!(SqlDateTime::column_result(&text("yesterday")), Err(InvalidType));
    assert_eq!(SqlDateTime::column_result(&SqlValue::Null), Err(InvalidType));
    assert_eq!(SqlDateTime::column_result(&SqlValue::Real), Err(InvalidType));
    assert_eq!(SqlDateTime::column_result(&SqlValue::Blob(vec![])), Err(InvalidType));
    assert_eq!(
        NullableSqlDateTime::column_result(&SqlValue::Null),
        Ok(NullableSqlDateTime(None))
    );
    assert_eq!(
        NullableSqlDateTime::column_result(&SqlValue::Integer(7)),
        Ok(NullableSqlDateTime(Some(epoch(7))))
    );
    assert_eq!(NullableSqlDateTime::column_result(&text("never")), Err(InvalidType));
}

#[test]
fn instants_are_written_as_rfc3339() {
    assert_eq!(epoch(0).to_sql(), Ok(text("1970-01-01T00:00:00+00:00")));
    assert_eq!(
        SqlDateTime { secs: 1_704_067_200, nanos: 500_000_000 }.to_sql(),
        Ok(text("2024-01-01T00:00:00.500+00:00"))
    );
    assert_eq!(epoch(i64::MAX).to_sql(), Err(StoreError::Timestamp));
    assert_eq!(NullableSqlDateTime(None).to_sql(), Ok(SqlValue::Null));
    assert_eq!(NullableSqlDateTime(Some(epoch(0))).to_sql(), Ok(text("1970-01-01T00:00:00+00:00")));
    let written = SqlDateTime { secs: 1_704_067_200, nanos: 123 }.to_sql().unwrap();
    assert_eq!(
        SqlDateTime::column_result(&written),
        Ok(SqlDateTime { secs: 1_704_067_200, nanos: 123 })
    );
}

#[test]
fn instants_exist_within_the_calendar() {
    assert_eq!(SqlDateTime::from_timestamp(0, 0), Some(epoch(0)));
    assert_eq!(SqlDateTime::from_timestamp(-1, 999_999_999), Some(SqlDateTime { secs: -1, nanos: 999_999_999 }));
    assert_eq!(SqlDateTime::from_timestamp(i64::MAX, 0), None);
    assert_eq!(SqlDateTime::from_timestamp(i64::MIN, 0), None);
    assert_eq!(SqlDateTime::from_timestamp(0, 2_000_000_000), None);
}

#[test]
fn instant_cells_are_read_by_index() {
    let row = vec![SqlValue::Integer(5), SqlValue::Null, text("soon")];
    assert_eq!(instant_at(&row, 0), Ok(epoch(5)));
    assert_eq!(instant_at(&row, 1), Err(StoreError::InvalidColumnType(1)));
    assert_eq!(instant_at(&row, 2), Err(StoreError::InvalidColumnType(2)));
    assert_eq!(instant_at(&row, 3), Err(StoreError::MissingColumn(3)));
    assert_eq!(optional_instant_at(&row, 0), Ok(Some(epoch(5))));
    assert_eq!(optional_instant_at(&row, 1), Ok(None));
    assert_eq!(optional_instant_at(&row, 2), Err(StoreError::InvalidColumnType(2)));
    assert_eq!(optional_instant_at(&row, 3), Err(StoreError::MissingColumn(3)));
}

#[test]
fn rows_are_read_into_records() {
    let user_row = vec![text("u"), text("alice"), text("hash"), text("a@x.com"), SqlValue::Integer(9)];
    assert_eq!(
        User::from_row(&user_row),
        Ok(User {
            id: "u".to_string(),
            username: "alice".to_string(),
            password_hash: "hash".to_string(),
            email: "a@x.com".to_string(),
            created_at: epoch(9),
        })
    );
    assert_eq!(User::from_row(&user_row[..4].to_vec()), Err(StoreError::MissingColumn(4)));
    assert_eq!(User::first(&Vec::new()), Ok(None));
    assert_eq!(User::all(&vec![user_row.clone(), vec![]]), Err(StoreError::MissingColumn(0)));
    assert_eq!(User::all(&vec![user_row.clone(), user_row.clone()]).unwrap().len(), 2);
    let plan_row = vec![
        text("plan-1"),
        text("user-1"),
        text("Trip"),
        SqlValue::Null,
        text("NYC"),
        text("LA"),
        SqlValue::Null,
        SqlValue::Integer(20),
        SqlValue::Integer(1),
        SqlValue::Integer(2),
    ];
    assert_eq!(TravelPlan::from_row(&plan_row), Ok(plan_of("user-1")));
    assert_eq!(TravelPlan::first(&vec![plan_row.clone()]), Ok(Some(plan_of("user-1"))));
    let mut bad = plan_row.clone();
    bad[1] = SqlValue::Integer(1);
    assert_eq!(TravelPlan::from_row(&bad), Err(StoreError::InvalidColumnType(1)));
    assert_eq!(
        TravelPlan::all(&vec![plan_row.clone(), bad.clone(), vec![]]),
        Err(StoreError::InvalidColumnType(1))
    );
    let route_row = vec![
        text("route-1"),
        text("plan-1"),
        text("Route Option 1"),
        SqlValue::Null,
        SqlValue::Integer(12_345),
        SqlValue::Integer(45),
        text("1.000000,2.000000"),
        text("3.000000,4.000000"),
        SqlValue::Null,
        SqlValue::Integer(3),
    ];
    assert_eq!(RouteOption::from_row(&route_row), Ok(route_of("plan-1")));
    let mut real = route_row.clone();
    real[4] = SqlValue::Real;
    assert_eq!(RouteOption::from_row(&real), Err(StoreError::InvalidColumnType(4)));
    assert_eq!(RouteOption::all(&vec![route_row.clone()]), Ok(vec![route_of("plan-1")]));
    let poi_row = vec![
        text("poi-1"),
        text("route-1"),
        text("City Park"),
        text("A beautiful park with scenic views."),
        text("Park"),
        text("1.000000,2.000000"),
        text("2024-01-01 00:00:00"),
    ];
    let poi = PointOfInterest::from_row(&poi_row).unwrap();
    assert_eq!(poi.category, Some("Park".to_string()));
    assert_eq!(poi.created_at, epoch(1_704_067_200));
    assert_eq!(PointOfInterest::first(&vec![]), Ok(None));
    assert_eq!(PointOfInterest::all(&vec![poi_row.clone(), poi_row]).unwrap().len(), 2);
}

#[test]
fn partial_update_replaces_only_what_is_present() {
    let plan = plan_of("user-1");
    let update = UpdateTravelPlan {
        name: Some("Renamed".to_string()),
        description: Some("Now described".to_string()),
        start_location: None,
        end_location: None,
        start_date: Some(epoch(10)),
        end_date: None,
    };
    let updated = plan.updated(&update, epoch(99));
    assert_eq!(
        updated,
        TravelPlan {
            name: "Renamed".to_string(),
            description: Some("Now described".to_string()),
            start_date: Some(epoch(10)),
            updated_at: epoch(99),
            ..plan_of("user-1")
        }
    );
    assert_eq!(updated.updated(&update, epoch(99)), updated);
    let nothing = UpdateTravelPlan {
        name: None,
        description: None,
        start_location: None,
        end_location: None,
        start_date: None,
        end_date: None,
    };
    assert_eq!(
        plan.updated(&nothing, epoch(7)),
        TravelPlan { updated_at: epoch(7), ..plan_of("user-1") }
    );
    assert_eq!(plan.copy(), plan);
}

#[test]
fn plan_is_built_for_its_creator() {
    let fields = NewTravelPlan {
        user_id: "someone else".to_string(),
        name: "Trip".to_string(),
        description: None,
        start_location: "NYC".to_string(),
        end_location: "LA".to_string(),
        start_date: None,
        end_date: Some(epoch(20)),
    };
    let built = TravelPlan::build("plan-1".to_string(), "user-1", &fields, epoch(1));
    assert_eq!(built, TravelPlan { updated_at: epoch(1), ..plan_of("user-1") });
}

#[test]
fn routes_and_points_are_stored_updated_and_deleted() {
    let (conn, plan) = store_with_plan();
    let mut store = Store::new(&conn);
    let fields = NewRouteOption {
        travel_plan_id: plan.id.clone(),
        name: "By hand".to_string(),
        description: None,
        distance: Some(1_500),
        duration: None,
        start_coordinates: "0.000000,0.000000".to_string(),
        end_coordinates: "1.000000,1.000000".to_string(),
        waypoints: Some("0.500000,0.500000".to_string()),
    };
    let route = RouteOption::create(&mut store, &fields).unwrap();
    assert_eq!(route.distance, Some(1_500));
    assert_eq!(RouteOption::find_by_id(&mut store, &route.id).unwrap(), Some(route.copy()));
    let update = UpdateRouteOption {
        name: Some("Renamed".to_string()),
        description: None,
        distance: None,
        duration: Some(90),
        waypoints: None,
    };
    let updated = route.update(&mut store, &update).unwrap();
    assert_eq!(updated.name, "Renamed");
    assert_eq!(updated.duration, Some(90));
    assert_eq!(updated.distance, Some(1_500));
    assert_eq!(updated.waypoints, route.waypoints);
    assert_eq!(RouteOption::find_by_id(&mut store, &route.id).unwrap(), Some(updated));
    let poi = PointOfInterest::create(
        &mut store,
        &NewPointOfInterest {
            route_option_id: route.id.clone(),
            name: "Spot".to_string(),
            description: None,
            category: None,
            coordinates: "0.500000,0.500000".to_string(),
        },
    )
    .unwrap();
    let changed = poi
        .update(
            &mut store,
            &UpdatePointOfInterest {
                name: None,
                description: Some("Nice".to_string()),
                category: Some("Park".to_string()),
            },
        )
        .unwrap();
    assert_eq!(changed.name, "Spot");
    assert_eq!(changed.category, Some("Park".to_string()));
    assert_eq!(PointOfInterest::find_by_id(&mut store, &poi.id).unwrap(), Some(changed));
    assert_eq!(PointOfInterest::delete_by_route_option_id(&mut store, &route.id), Ok(1));
    assert_eq!(PointOfInterest::delete(&mut store, &poi.id), Ok(false));
    assert_eq!(RouteOption::delete(&mut store, &route.id), Ok(true));
    assert_eq!(RouteOption::delete(&mut store, &route.id), Ok(false));
}

#[test]
fn generators_without_a_parent_make_nothing() {
    let conn = database();
    let mut store = Store::new(&conn);
    assert_eq!(RouteOption::generate_random_options(&mut store, "no-plan", 3), Ok(vec![]));
    assert_eq!(PointOfInterest::generate_random_pois(&mut store, "no-route", 3), Ok(vec![]));
}

#[test]
fn generators_look_their_parent_up() {
    let (conn, plan) = store_with_plan();
    let mut store = Store::new(&conn);
    let routes = RouteOption::generate_random_options(&mut store, &plan.id, 2).unwrap();
    assert_eq!(routes.len(), 2);
    assert_eq!(routes[1].name, "Route Option 2");
    assert_eq!(routes[1].description, Some("Fastest route from Oslo to Rome".to_string()));
    let pois = PointOfInterest::generate_random_pois(&mut store, &routes[0].id, 4).unwrap();
    assert_eq!(pois.len(), 4);
    assert_eq!(pois[0].coordinates, routes[0].start_coordinates);
    assert_eq!(pois[3].coordinates, routes[0].end_coordinates);
    assert!(pois.iter().all(|p| p.route_option_id == routes[0].id));
    let id = routes[1].id.as_str();
    let lone = PointOfInterest::generate_for(&mut store, id, "start", "end", &None, 1).unwrap();
    assert_eq!(lone[0].coordinates, "start");
    let free = PointOfInterest::generate_for(&mut store, id, "start", "end", &None, 3).unwrap();
    assert_eq!(free[2].coordinates, "end");
    assert_eq!(free[1].coordinates.split(',').count(), 2);
}

#[test]
fn synthesized_fields_follow_the_tables() {
    let route = NewRouteOption::synthesize(
        "plan-1",
        2,
        "A",
        "B",
        "1.000000,2.000000",
        "3.000000,4.000000",
        10_000,
        30,
        &vec!["5.000000,6.000000".to_string(), "7.000000,8.000000".to_string()],
    );
    assert_eq!(
        route,
        NewRouteOption {
            travel_plan_id: "plan-1".to_string(),
            name: "Route Option 3".to_string(),
            description: Some("Alternative route from A to B".to_string()),
            distance: Some(10_000),
            duration: Some(30),
            start_coordinates: "1.000000,2.000000".to_string(),
            end_coordinates: "3.000000,4.000000".to_string(),
            waypoints: Some("5.000000,6.000000;7.000000,8.000000".to_string()),
        }
    );
    let bare = NewRouteOption::synthesize("p", 0, "A", "B", "s", "e", 1, 2, &Vec::new());
    assert_eq!(bare.waypoints, None);
    assert_eq!(bare.description, Some("Scenic route from A to B".to_string()));
    let poi = NewPointOfInterest::synthesize("route-1", 0, 1, 2, "c".to_string());
    assert_eq!(
        poi,
        NewPointOfInterest {
            route_option_id: "route-1".to_string(),
            name: "The Tasty Restaurant".to_string(),
            description: Some(
                "A family-friendly restaurant with excellent food and service.".to_string()
            ),
            category: Some("Restaurant".to_string()),
            coordinates: "c".to_string(),
        }
    );
    let site = NewPointOfInterest::synthesize("route-1", 9, 4, 1, "c".to_string());
    assert_eq!(site.name, "Traditional Site");
    assert_eq!(site.category, Some("Historical Site".to_string()));
    assert_eq!(
        site.description,
        Some("A well-preserved historical site with rich heritage.".to_string())
    );
    let mount = NewPointOfInterest::synthesize("route-1", 6, 0, 0, "c".to_string());
    assert_eq!(mount.name, "Mount Everest");
    assert_eq!(
        mount.description,
        Some("A majestic mountain offering challenging hiking trails.".to_string())
    );
    let hotel = NewPointOfInterest::synthesize("route-1", 3, 4, 3, "c".to_string());
    assert_eq!(hotel.name, "Hotel Plaza");
    assert_eq!(hotel.description, Some("A modern hotel with excellent amenities.".to_string()));
}

#[test]
fn points_are_placed_along_the_route() {
    let waypoints = Some("a;b;c".to_string());
    assert_eq!(PointOfInterest::place(0, 4, "start", "end", &waypoints), "start");
    assert_eq!(PointOfInterest::place(3, 4, "start", "end", &waypoints), "end");
    for _ in 0..50 {
        let middle = PointOfInterest::place(1, 4, "start", "end", &waypoints);
        assert!(["a", "b", "c"].contains(&middle.as_str()));
    }
    assert_eq!(PointOfInterest::place(0, 1, "start", "end", &waypoints), "start");
}

#[test]
fn ownership_check_decides_on_what_was_found() {
    assert_eq!(TravelPlanService::authorize(Ok(None), "user-1"), Err(TravelPlanError::NotFound));
    assert_eq!(TravelPlanService::authorize(Ok(Some(plan_of("user-1"))), "user-1"), Ok(plan_of("user-1")));
    assert_eq!(
        TravelPlanService::authorize(Ok(Some(plan_of("user-1"))), "user-2"),
        Err(TravelPlanError::Unauthorized)
    );
    assert_eq!(
        TravelPlanService::authorize(Err(StoreError::Engine("disk full".to_string())), "user-1"),
        Err(TravelPlanError::DatabaseError("disk full".to_string()))
    );
    let mixed = vec![plan_of("user-1"), plan_of("user-2"), plan_of("user-1")];
    assert_eq!(
        TravelPlanService::keep_owned(&mixed, "user-1"),
        vec![plan_of("user-1"), plan_of("user-1")]
    );
    assert_eq!(TravelPlanService::keep_owned(&mixed, "user-3"), vec![]);
    let none: Result<Vec<RouteOption>, StoreError> = Ok(vec![]);
    assert!(!TravelPlanService::annotate(plan_of("u"), &none).has_routes_generated);
    let failed: Result<Vec<RouteOption>, StoreError> = Err(StoreError::Timestamp);
    assert!(!TravelPlanService::annotate(plan_of("u"), &failed).has_routes_generated);
    let some: Result<Vec<RouteOption>, StoreError> = Ok(vec![route_of("plan-1")]);
    assert!(TravelPlanService::annotate(plan_of("u"), &some).has_routes_generated);
}

#[test]
fn route_check_decides_on_what_was_found() {
    assert_eq!(RouteOptionService::check_route(Ok(None), "plan-1"), Err(RouteOptionError::RouteNotFound));
    assert_eq!(
        RouteOptionService::check_route(Ok(Some(route_of("plan-1"))), "plan-1"),
        Ok(route_of("plan-1"))
    );
    assert_eq!(
        RouteOptionService::check_route(Ok(Some(route_of("plan-2"))), "plan-1"),
        Err(RouteOptionError::InvalidRouteOption)
    );
    assert_eq!(
        RouteOptionService::check_route(Err(StoreError::Engine("locked".to_string())), "plan-1"),
        Err(RouteOptionError::DatabaseError("locked".to_string()))
    );
    assert_eq!(
        RouteOptionService::join(route_of("plan-1"), Err(StoreError::Engine("locked".to_string()))),
        Err(RouteOptionError::DatabaseError("locked".to_string()))
    );
    assert_eq!(
        RouteOptionError::from(TravelPlanError::NotFound),
        RouteOptionError::TravelPlanError(TravelPlanError::NotFound)
    );
}

#[test]
fn cascades_delete_leaves_before_parents() {
    let routes = vec![route_of("plan-1"), RouteOption { id: "route-2".to_string(), ..route_of("plan-1") }];
    assert_eq!(
        TravelPlanService::deletions("plan-1", &routes),
        vec![
            Deletion::PoisOfRoute("route-1".to_string()),
            Deletion::PoisOfRoute("route-2".to_string()),
            Deletion::RoutesOfPlan("plan-1".to_string()),
            Deletion::Plan("plan-1".to_string()),
        ]
    );
    assert_eq!(
        TravelPlanService::deletions("plan-1", &Vec::new()),
        vec![Deletion::RoutesOfPlan("plan-1".to_string()), Deletion::Plan("plan-1".to_string())]
    );
    assert_eq!(
        RouteOptionService::routes_deletions("plan-1", &routes),
        vec![
            Deletion::PoisOfRoute("route-1".to_string()),
            Deletion::PoisOfRoute("route-2".to_string()),
            Deletion::RoutesOfPlan("plan-1".to_string()),
        ]
    );
    assert_eq!(
        RouteOptionService::route_deletions("route-1"),
        vec![Deletion::PoisOfRoute("route-1".to_string()), Deletion::Route("route-1".to_string())]
    );
    assert_eq!(Deletion::Plan("p".to_string()).sql(), "DELETE FROM travel_plans WHERE id = ?1");
    assert_eq!(Deletion::Route("r".to_string()).key(), "r");
}

#[test]
fn cascade_outcomes_read_the_last_count() {
    assert_eq!(TravelPlanService::deleted(Ok(vec![3, 1, 1])), Ok(()));
    assert_eq!(TravelPlanService::deleted(Ok(vec![3, 1, 0])), Err(TravelPlanError::NotFound));
    assert_eq!(TravelPlanService::deleted(Ok(vec![])), Err(TravelPlanError::NotFound));
    assert_eq!(
        TravelPlanService::deleted(Err(StoreError::Engine("busy".to_string()))),
        Err(TravelPlanError::DatabaseError("busy".to_string()))
    );
    assert_eq!(RouteOptionService::route_removed(Ok(vec![2, 1])), Ok(true));
    assert_eq!(RouteOptionService::route_removed(Ok(vec![2, 0])), Ok(false));
    assert_eq!(RouteOptionService::routes_removed(Ok(vec![2, 5, 4])), Ok(4));
    assert_eq!(RouteOptionService::routes_removed(Ok(vec![])), Ok(0));
}

#[test]
fn failed_cascade_is_rolled_back() {
    let (conn, plan) = store_with_plan();
    let mut store = Store::new(&conn);
    let routes = RouteOption::generate_random_options(&mut store, &plan.id, 2).unwrap();
    let first = PointOfInterest::generate_random_pois(&mut store, &routes[0].id, 2).unwrap();
    PointOfInterest::generate_random_pois(&mut store, &routes[1].id, 2).unwrap();
    let steps = vec![
        Deletion::PoisOfRoute(routes[0].id.clone()),
        Deletion::RoutesOfPlan(plan.id.clone()),
        Deletion::Plan(plan.id.clone()),
    ];
    match run_atomically(&mut store, &steps) {
        Err(StoreError::Engine(message)) => assert!(message.contains("FOREIGN KEY")),
        other => panic!("unexpected {:?}", other),
    }
    assert_eq!(PointOfInterest::find_by_route_option_id(&mut store, &routes[0].id), Ok(first));
    assert_eq!(RouteOption::find_by_travel_plan_id(&mut store, &plan.id).unwrap().len(), 2);
    assert_eq!(TravelPlan::find_by_id(&mut store, &plan.id).unwrap(), Some(plan.copy()));
    assert_eq!(
        run_atomically(&mut store, &TravelPlanService::deletions(&plan.id, &routes)),
        Ok(vec![2, 2, 2, 1])
    );
    assert_eq!(TravelPlan::find_by_id(&mut store, &plan.id), Ok(None));
}

#[test]
fn store_failure_in_a_delete_is_a_database_error() {
    let (conn, plan) = store_with_plan();
    let mut store = Store::new(&conn);
    conn.execute("DROP TABLE points_of_interest", []).unwrap();
    RouteOption::generate_random_options(&mut store, &plan.id, 1).unwrap();
    assert!(matches!(
        TravelPlanService::delete_travel_plan(&mut store, &plan.id, "user-1"),
        Err(TravelPlanError::DatabaseError(_))
    ));
    assert_eq!(RouteOption::find_by_travel_plan_id(&mut store, &plan.id).unwrap().len(), 1);
    assert_eq!(TravelPlan::find_by_id(&mut store, &plan.id).unwrap(), Some(plan.copy()));
    assert!(matches!(
        RouteOptionService::generate_route_options(&mut store, &plan.id, "user-1", 2),
        Err(RouteOptionError::DatabaseError(_))
    ));
    assert_eq!(RouteOption::find_by_travel_plan_id(&mut store, &plan.id).unwrap().len(), 1);
}

#[test]
fn users_are_listed_updated_and_deleted() {
    let conn = database();
    let mut store = Store::new(&conn);
    conn.execute(
        "INSERT INTO users (id, username, password_hash, email, created_at) VALUES ('u1', 'a', 'h', 'a@x', 5)",
        [],
    )
    .unwrap();
    let mut user = User::find_by_id(&mut store, "u1").unwrap().unwrap();
    assert_eq!(user.created_at, epoch(5));
    user.email = "new@x".to_string();
    assert_eq!(user.update(&mut store), Ok(()));
    assert_eq!(User::get_all(&mut store).unwrap(), vec![user]);
    assert_eq!(User::delete(&mut store, "u1"), Ok(true));
    assert_eq!(User::delete(&mut store, "u1"), Ok(false));
    assert_eq!(User::find_by_username(&mut store, "a"), Ok(None));
}

#[test]
fn statements_bind_the_fields_in_the_order_of_the_columns() {
    let plan = plan_of("user-1");
    assert_eq!(
        plan.insertion(),
        Ok(Statement {
            sql: travel_api::models::travel_plan::INSERT_PLAN,
            params: vec![
                text("plan-1"),
                text("user-1"),
                text("Trip"),
                SqlValue::Null,
                text("NYC"),
                text("LA"),
                SqlValue::Null,
                text("1970-01-01T00:00:20+00:00"),
                text("1970-01-01T00:00:01+00:00"),
                text("1970-01-01T00:00:02+00:00"),
            ],
        })
    );
    assert_eq!(
        plan.modification(),
        Ok(Statement {
            sql: travel_api::models::travel_plan::UPDATE_PLAN,
            params: vec![
                text("Trip"),
                SqlValue::Null,
                text("NYC"),
                text("LA"),
                SqlValue::Null,
                text("1970-01-01T00:00:20+00:00"),
                text("1970-01-01T00:00:02+00:00"),
                text("plan-1"),
            ],
        })
    );
    let unstorable = TravelPlan { created_at: epoch(i64::MAX), ..plan_of("user-1") };
    assert_eq!(unstorable.insertion(), Err(StoreError::Timestamp));
    let route = route_of("plan-1");
    assert_eq!(
        route.insertion().unwrap().params,
        vec![
            text("route-1"),
            text("plan-1"),
            text("Route Option 1"),
            SqlValue::Null,
            SqlValue::Integer(12_345),
            SqlValue::Integer(45),
            text("1.000000,2.000000"),
            text("3.000000,4.000000"),
            SqlValue::Null,
            text("1970-01-01T00:00:03+00:00"),
        ]
    );
    assert_eq!(
        route.modification().params,
        vec![
            text("Route Option 1"),
            SqlValue::Null,
            SqlValue::Integer(12_345),
            SqlValue::Integer(45),
            SqlValue::Null,
            text("route-1"),
        ]
    );
    let user = User {
        id: "u".to_string(),
        username: "alice".to_string(),
        password_hash: "hash".to_string(),
        email: "a@x.com".to_string(),
        created_at: epoch(9),
    };
    assert_eq!(
        user.insertion().unwrap().params,
        vec![text("u"), text("alice"), text("hash"), text("a@x.com"), text("1970-01-01T00:00:09+00:00")]
    );
    assert_eq!(user.modification().params, vec![text("alice"), text("a@x.com"), text("u")]);
    let poi = PointOfInterest {
        id: "poi-1".to_string(),
        route_option_id: "route-1".to_string(),
        name: "City Park".to_string(),
        description: None,
        category: Some("Park".to_string()),
        coordinates: "1.000000,2.000000".to_string(),
        created_at: epoch(4),
    };
    assert_eq!(
        poi.insertion().unwrap().params,
        vec![
            text("poi-1"),
            text("route-1"),
            text("City Park"),
            SqlValue::Null,
            text("Park"),
            text("1.000000,2.000000"),
            text("1970-01-01T00:00:04+00:00"),
        ]
    );
    assert_eq!(
        poi.modification().params,
        vec![text("City Park"), SqlValue::Null, text("Park"), text("poi-1")]
    );
    assert_eq!(
        Deletion::PoisOfRoute("route-1".to_string()).statement(),
        Statement {
            sql: "DELETE FROM points_of_interest WHERE route_option_id = ?1",
            params: vec![text("route-1")],
        }
    );
    assert_eq!(Statement::keyed("SELECT ?1", "k").params, vec![text("k")]);
    assert_eq!(Statement::plain("SELECT 1").params, vec![]);
    let conn = Connection::open_in_memory().unwrap();
    let mut store = Store::new(&conn);
    assert_eq!(store.fetch(&Statement::keyed("SELECT ?1", "k")), Ok(vec![vec![text("k")]]));
    assert_eq!(store.run(&Statement::plain("CREATE TABLE t (a)")), Ok(0));
}

#[test]
fn dates_that_cannot_be_written_are_refused_before_the_store_is_asked() {
    let conn = Connection::open_in_memory().unwrap();
    let mut store = Store::new(&conn);
    let fields = NewTravelPlan {
        user_id: String::new(),
        name: "Trip".to_string(),
        description: None,
        start_location: "Oslo".to_string(),
        end_location: "Rome".to_string(),
        start_date: Some(epoch(i64::MAX)),
        end_date: None,
    };
    assert_eq!(TravelPlan::create(&mut store, &fields, "user-1"), Err(StoreError::Timestamp));
    let update = UpdateTravelPlan {
        name: None,
        description: None,
        start_location: None,
        end_location: None,
        start_date: None,
        end_date: Some(SqlDateTime { secs: 0, nanos: 2_000_000_000 }),
    };
    assert_eq!(plan_of("user-1").update(&mut store, &update), Err(StoreError::Timestamp));
    assert!(matches!(
        plan_of("user-1").update(&mut store, &UpdateTravelPlan { end_date: None, ..update }),
        Err(StoreError::Engine(_))
    ));
}

#[test]
fn parents_are_read_from_their_rows() {
    let plan_row = vec![text("Oslo"), text("Rome")];
    assert_eq!(RouteOption::places(&plan_row), Ok(("Oslo".to_string(), "Rome".to_string())));
    assert_eq!(RouteOption::places(&vec![text("Oslo")]), Err(StoreError::MissingColumn(1)));
    assert_eq!(
        RouteOption::places(&vec![SqlValue::Null, text("Rome")]),
        Err(StoreError::InvalidColumnType(0))
    );
    let route_row = vec![text("1,2"), text("3,4"), SqlValue::Null];
    assert_eq!(
        PointOfInterest::positions(&route_row),
        Ok(("1,2".to_string(), "3,4".to_string(), None))
    );
    let with_waypoints = vec![text("1,2"), text("3,4"), text("5,6;7,8")];
    assert_eq!(
        PointOfInterest::positions(&with_waypoints),
        Ok(("1,2".to_string(), "3,4".to_string(), Some("5,6;7,8".to_string())))
    );
    assert_eq!(
        PointOfInterest::positions(&vec![text("1,2"), text("3,4"), SqlValue::Integer(1)]),
        Err(StoreError::InvalidColumnType(2))
    );
}

#[test]
fn the_ownership_check_looks_the_plan_up() {
    let (conn, plan) = store_with_plan();
    let mut store = Store::new(&conn);
    assert_eq!(TravelPlanService::owned(&mut store, &plan.id, "user-1"), Ok(plan.copy()));
    assert_eq!(
        TravelPlanService::owned(&mut store, &plan.id, "user-2"),
        Err(TravelPlanError::Unauthorized)
    );
    assert_eq!(TravelPlanService::owned(&mut store, "none", "user-1"), Err(TravelPlanError::NotFound));
    assert_eq!(RouteOptionService::owned_plan(&mut store, &plan.id, "user-1"), Ok(plan.copy()));
    assert_eq!(
        RouteOptionService::owned_plan(&mut store, &plan.id, "user-2"),
        Err(RouteOptionError::TravelPlanError(TravelPlanError::Unauthorized))
    );
    assert_eq!(
        RouteOptionService::owned_plan(&mut store, "none", "user-1"),
        Err(RouteOptionError::TravelPlanError(TravelPlanError::NotFound))
    );
    assert!(!TravelPlanService::marked(&mut store, plan.copy()).has_routes_generated);
    RouteOption::generate_random_options(&mut store, &plan.id, 1).unwrap();
    let marked = TravelPlanService::marked(&mut store, plan.copy());
    assert!(marked.has_routes_generated);
    assert_eq!(marked.travel_plan, plan);
}

fn has_table(conn: &Connection, name: &str) -> bool {
    let found: i64 = conn
        .query_row(
            "SELECT COUNT(*) FROM sqlite_master WHERE type = 'table' AND name = ?1",
            [name],
            |row| row.get(0),
        )
        .unwrap();
    found == 1
}

#[test]
fn tables_are_created_in_their_order_and_only_once() {
    assert_eq!(TABLES.len(), 4);
    let conn = Connection::open_in_memory().unwrap();
    assert_eq!(initialize_database(&mut Store::new(&conn)), Ok(()));
    for name in ["users", "travel_plans", "route_options", "points_of_interest"] {
        assert!(has_table(&conn, name));
    }
    assert_eq!(initialize_database(&mut Store::new(&conn)), Ok(()));
}

#[test]
fn a_refused_table_ends_the_creation_of_the_tables() {
    let conn = Connection::open_in_memory().unwrap();
    conn.execute("CREATE TABLE other (x INTEGER)", []).unwrap();
    conn.execute("CREATE INDEX route_options ON other (x)", []).unwrap();
    let res = initialize_database(&mut Store::new(&conn));
    match res {
        Err(StoreError::Engine(words)) => assert!(words.contains("route_options")),
        other => panic!("unexpected outcome: {:?}", other),
    }
    assert!(has_table(&conn, "users"));
    assert!(has_table(&conn, "travel_plans"));
    assert!(!has_table(&conn, "route_options"));
    assert!(!has_table(&conn, "points_of_interest"));
}

#[test]
fn a_text_cell_that_is_not_utf8_is_an_engine_error() {
    let conn = Connection::open_in_memory().unwrap();
    let mut store = Store::new(&conn);
    assert!(matches!(
        store.fetch(&Statement::plain("SELECT CAST(X'ff' AS TEXT)")),
        Err(StoreError::Engine(_))
    ));
    assert_eq!(
        store.fetch(&Statement::plain("SELECT CAST(X'41' AS TEXT), X'ff'")),
        Ok(vec![vec![text("A"), SqlValue::Blob(vec![255])]])
    );
}

#[test]
fn a_real_parameter_is_refused_before_the_engine_is_asked() {
    let conn = Connection::open_in_memory().unwrap();
    let mut store = Store::new(&conn);
    assert_eq!(store.run(&Statement::plain("CREATE TABLE t (a, b)")), Ok(0));
    let refused = Err(StoreError::Engine("A floating-point parameter cannot be bound".to_string()));
    let insert = Statement {
        sql: "INSERT INTO t (a, b) VALUES (?1, ?2)",
        params: vec![SqlValue::Integer(1), SqlValue::Real],
    };
    assert!(!is_bindable(&insert.params));
    assert!(is_bindable(&vec![SqlValue::Integer(1), SqlValue::Null]));
    assert!(is_bindable(&Vec::new()));
    assert_eq!(store.run(&insert), refused);
    let select = Statement { sql: "SELECT a FROM t WHERE b IS ?1", params: vec![SqlValue::Real] };
    assert_eq!(store.fetch(&select), Err(StoreError::Engine(UNBOUND_REAL.to_string())));
    assert_eq!(store.fetch(&Statement::plain("SELECT COUNT(*) FROM t")), Ok(vec![vec![SqlValue::Integer(0)]]));
}
