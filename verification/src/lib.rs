//! Binds a robot description to a rigid-body simulation and keeps the
//! renderer's view of each link in step with its physics body.
//!
//! A robot arrives as a description (its links, with what is drawn for each)
//! and a physics template made from the same file. [`events`] carries a
//! request to load a robot through to a spawn attempt and retries the
//! attempt until the robot is there. [`spawn`] vets the robot; the caller
//! has the physics engine put the template into its tables; [`spawn`] then
//! holds what the engine handed back against the tables and makes one entity
//! per drawn link, each tied to the body of its link. From then on [`frame`]
//! moves every entity to where its body is, once per tick.
//!
//! Real numbers cross this crate as bit patterns: the crate routes them and
//! never computes with them.

pub mod description;
pub mod error;
pub mod events;
pub mod frame;
pub mod physics;
pub mod spawn;
pub mod visual;
