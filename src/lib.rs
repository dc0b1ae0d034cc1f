//! Verified logic of three small engine demos: a compute-shader Game of Life,
//! a paddle-and-ball toy and a roster of randomly arriving people.
use vstd::prelude::*;

pub mod conway;
pub mod text;
pub mod hello;
pub mod paddle;
