pub mod auth;
pub mod endpoint;
pub mod route_option;
pub mod travel_plan;
