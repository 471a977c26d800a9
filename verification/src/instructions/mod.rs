//! The accounts and handlers of each instruction of the program.
pub mod buy;
pub mod checks;
pub mod delist;
pub mod initialize;
pub mod list;
pub mod offer;
pub mod withdraw;
