//! Physical layer stuff

pub mod lxt970a;
