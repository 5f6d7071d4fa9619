use vstd::prelude::*;

verus! {

/// The command-line options.
#[derive(Debug, Clone)]
pub struct Args {
    /// A configuration file to use instead of the default one.
    pub config_path: Option<String>,
    /// Check the configuration and exit without starting.
    pub validate: bool,
    /// Use the default configuration and ignore configuration files.
    pub use_defaults: bool,
    /// Neither save nor load the window layout.
    pub no_persistence: bool,
    /// Delete the saved layout.
    pub reset_layout: bool,
    /// Log up to informational messages only.
    pub quiet: bool,
    /// Log everything.
    pub verbose: bool,
    /// Run in a console window.
    pub console: bool,
}

impl Default for Args {
    fn default() -> (a: Self)
        ensures
            a.config_path is None,
            !a.validate && !a.use_defaults && !a.no_persistence && !a.reset_layout,
            !a.quiet && !a.verbose && !a.console,
    {
        Args {
            config_path: None,
            validate: false,
            use_defaults: false,
            no_persistence: false,
            reset_layout: false,
            quiet: false,
            verbose: false,
            console: false,
        }
    }
}

} // verus!
