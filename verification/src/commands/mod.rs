//! What each subcommand decides, apart from the prompts, files, processes and requests it
//! drives.

pub mod new;
pub mod run;
pub mod generate;
pub mod content;
pub mod publish;
pub mod upgrade;
pub mod completions;
