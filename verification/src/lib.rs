pub mod controller;
pub mod launch;
pub mod model;
