pub mod aur;
pub mod callbacks;
pub mod cli;
pub mod config;
pub mod configfile;
pub mod flow;
pub mod lookup;
pub mod pacconf;
pub mod query;
pub mod render;
pub mod size;
pub mod text;
pub mod transaction;
pub mod update;
