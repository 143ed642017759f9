pub mod point_of_interest;
pub mod route_option;
pub mod travel_plan;
pub mod user;
