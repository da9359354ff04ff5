//! The decisions taken when the program starts: whether to open a debug
//! console, whether to write a default configuration file, and whether the
//! program was started again by itself.

use vstd::prelude::*;

verus! {

/// The name of the configuration file, next to the executable.
pub fn config_file_name() -> (name: &'static str)
    ensures
        name@ == "config.toml"@,
{
    "config.toml"
}

/// The text of the configuration file that is written when there is none.
pub fn default_config_text() -> (text: &'static str)
    ensures
        text@ == "debug_console = false\nsensitivity = 1.0\n"@,
{
    "debug_console = false\nsensitivity = 1.0\n"
}

/// Whether a debug console is opened. `configured` is the `debug_console`
/// setting when the configuration file could be read and parsed, and
/// `None` otherwise, in which case the console is opened. In a special
/// location no console is opened, whatever the setting.
pub open spec fn console_wanted(configured: Option<bool>, special: bool) -> bool {
    !special && match configured {
        Some(b) => b,
        None => true,
    }
}

/// Whether a debug console is opened.
pub fn console_enabled(configured: Option<bool>, special: bool) -> (open: bool)
    ensures
        open == console_wanted(configured, special),
{
    if special {
        false
    } else {
        match configured {
            Some(b) => b,
            None => true,
        }
    }
}

/// What has happened so far while providing the configuration file.
#[derive(Clone, Copy, PartialEq, Eq, Debug, Structural)]
pub enum ConfigFileEvent {
    /// The program's folder was found; `special` tells whether it is a
    /// special location.
    Located { special: bool },
    /// The folder was searched for the configuration file.
    Searched { found: bool },
    /// The default file was written, or writing it failed.
    Written { ok: bool },
}

/// What to do next while providing the configuration file.
#[derive(Clone, Copy, PartialEq, Eq, Debug, Structural)]
pub enum ConfigFileAction {
    /// Look for the configuration file in the program's folder.
    Search,
    /// Write the default configuration file there.
    WriteDefault,
    /// Report that the default file was created.
    ReportCreated,
    /// Report that the default file could not be created.
    ReportFailure,
    /// Nothing more to do.
    Finish,
}

/// The next step: nothing is done in a special location, an existing file
/// is never overwritten, a missing one is written, and the outcome of the
/// write is reported.
pub open spec fn config_file_step_spec(event: ConfigFileEvent) -> ConfigFileAction {
    match event {
        ConfigFileEvent::Located { special } => if special {
            ConfigFileAction::Finish
        } else {
            ConfigFileAction::Search
        },
        ConfigFileEvent::Searched { found } => if found {
            ConfigFileAction::Finish
        } else {
            ConfigFileAction::WriteDefault
        },
        ConfigFileEvent::Written { ok } => if ok {
            ConfigFileAction::ReportCreated
        } else {
            ConfigFileAction::ReportFailure
        },
    }
}

/// The next step while providing the configuration file.
pub fn config_file_step(event: ConfigFileEvent) -> (action: ConfigFileAction)
    ensures
        action == config_file_step_spec(event),
{
    match event {
        ConfigFileEvent::Located { special } => if special {
            ConfigFileAction::Finish
        } else {
            ConfigFileAction::Search
        },
        ConfigFileEvent::Searched { found } => if found {
            ConfigFileAction::Finish
        } else {
            ConfigFileAction::WriteDefault
        },
        ConfigFileEvent::Written { ok } => if ok {
            ConfigFileAction::ReportCreated
        } else {
            ConfigFileAction::ReportFailure
        },
    }
}

/// The file is written only after a search in an ordinary location found
/// none: a special location ends the work at once, and an existing file
/// ends it too.
pub proof fn lemma_config_file_written_only_when_missing(special: bool, found: bool)
    ensures
        config_file_step_spec((ConfigFileEvent::Located { special })) == ConfigFileAction::Search
            <==> !special,
        config_file_step_spec((ConfigFileEvent::Searched { found }))
            == ConfigFileAction::WriteDefault <==> !found,
        forall|e: ConfigFileEvent|
            #[trigger] config_file_step_spec(e) == ConfigFileAction::WriteDefault ==> e
                == (ConfigFileEvent::Searched { found: false }),
{
}

/// In a special location no console is opened, whatever the configuration
/// says; elsewhere an unreadable configuration opens one.
pub proof fn lemma_console_in_special_location(configured: Option<bool>)
    ensures
        !console_wanted(configured, true),
        console_wanted(None, false),
        console_wanted(configured, false) <==> configured != Some(false),
{
}

/// The steps, one by one: a special location ends the work and an ordinary
/// one starts a search; a found file ends the work and a missing one is
/// written; a successful write is reported as created and a failed one as
/// a failure.
pub proof fn lemma_config_file_steps(special: bool, found: bool, ok: bool)
    ensures
        config_file_step_spec((ConfigFileEvent::Located { special })) == if special {
            ConfigFileAction::Finish
        } else {
            ConfigFileAction::Search
        },
        config_file_step_spec((ConfigFileEvent::Searched { found })) == if found {
            ConfigFileAction::Finish
        } else {
            ConfigFileAction::WriteDefault
        },
        config_file_step_spec((ConfigFileEvent::Written { ok })) == if ok {
            ConfigFileAction::ReportCreated
        } else {
            ConfigFileAction::ReportFailure
        },
{
}

/// The restart flag, character by character.
pub proof fn lemma_restart_flag_text()
    ensures
        restart_flag() =~= seq!['-', '-', 'w', 'a', 's', '-', 'r', 'e', 's', 't', 'a', 'r', 't', 'e', 'd'],
{
    reveal_strlit("--was-restarted");
}

/// The argument that marks a program started again by itself.
pub open spec fn restart_flag() -> Seq<char> {
    "--was-restarted"@
}

/// Whether the program was started again by itself: one of its arguments
/// is exactly `--was-restarted`.
pub fn was_restarted(args: &Vec<String>) -> (restarted: bool)
    ensures
        restarted == exists|i: int| 0 <= i < args@.len() && #[trigger] args@[i]@ == restart_flag(),
{
    let flag = String::from_str("--was-restarted");
    let mut i: usize = 0;
    while i < args.len()
        invariant
            i <= args@.len(),
            flag@ == restart_flag(),
            forall|k: int| 0 <= k < i ==> #[trigger] args@[k]@ != restart_flag(),
        decreases args@.len() - i,
    {
        if args[i] == flag {
            return true;
        }
        i = i + 1;
    }
    false
}

} // verus!
