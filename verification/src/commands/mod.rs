//! One module per subcommand: the decisions each command takes while the
//! caller loads files, runs analyses and prints.
pub mod compare_suite;
pub mod energy;
pub mod generate;
pub mod info;
pub mod noise;
pub mod sine;
pub mod sweep;
pub mod twotone;
