pub mod commands;
