pub mod app;
pub mod auth;
pub mod db;
pub mod middleware;
pub mod models;
pub mod password;
pub mod phc;
pub mod result;
pub mod util;
