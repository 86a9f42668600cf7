//! Daily raffle of tribute records into capacity-bounded pools.
//!
//! A raffle day is cut into twenty-four runs. The first run of a day plans the
//! capacity of a pool from the allocation rate and the total interest of the
//! day's tributes, packs the tributes into pools first-fit in their given
//! order, and stores the assignment. Every run, the first included, then mints
//! one record per tribute of the pool whose number is the run's index.

pub mod contract;
pub mod counter;
pub mod date;
pub mod decimal;
pub mod distribution;
pub mod error;
pub mod ids;
pub mod mint;
pub mod msg;
pub mod nft;
pub mod nod;
pub mod packer;
pub mod planner;
pub mod query;
pub mod response;
pub mod state;
pub mod text;
pub mod tribute;
pub mod vector;
