pub mod models;
pub mod rest;
