//! The arguments of the command line.

use vstd::prelude::*;

verus! {

/// The directory that holds the migration files unless another is named.
pub const DEFAULT_MIGRATIONS_DIR: &'static str = "/migrations";

/// The command line.
#[derive(Clone, Debug)]
pub struct Cli {
    /// The chosen subcommand.
    pub command: Command,
}

/// All available commands.
#[derive(Clone, Debug)]
pub enum Command {
    /// Start the server.
    Start,
    /// Run the migrations on the database.
    Migrate {
        /// The directory where the migration files are located.
        migrations_dir: String,
    },
    /// Create new migrations.
    MakeMigrations {
        /// The directory where the migration files are located.
        migrations_dir: String,
    },
}

} // verus!
