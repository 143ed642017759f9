pub mod auth_service;
pub mod route_option_service;
pub mod travel_plan_service;
