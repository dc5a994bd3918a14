pub mod cli;
pub mod layout;
pub mod pipeline;
pub mod plan;
pub mod steps;
