//! The per-user conversation state machine.
//!
//! Each user is `Idle` (no entry), or `PlatformSelected` (an entry with a
//! platform and no description). A platform-selection command always starts a
//! fresh entry; a start or reset command removes the entry; a text message
//! while a platform is selected hands platform and description to the
//! synthesis orchestrator and clears the entry unconditionally, so one
//! description is processed at most once per platform selection.

use crate::models::{UserState, UserStateView};
use crate::prompts::{
    ANDROID_PROMPT, IOS_PROMPT, MACOS_PROMPT, RESET_MESSAGE, WELCOME_MESSAGE, WINDOWS_PROMPT,
};
use std::collections::HashMap;
use vstd::prelude::*;

verus! {

broadcast use vstd::std_specs::hash::group_hash_axioms;

/// The commands the inbound event source can deliver for a user.
#[derive(Clone, Copy, Debug)]
pub enum Command {
    Start,
    CreateIosTheme,
    CreateAndroidTheme,
    CreateMacosTheme,
    CreateWindowsTheme,
    Reset,
}

/// Whether a command selects a platform (as opposed to clearing the entry).
pub open spec fn is_platform_command(cmd: Command) -> bool {
    match cmd {
        Command::Start => false,
        Command::Reset => false,
        _ => true,
    }
}

/// The platform identifier a platform-selection command picks.
pub open spec fn platform_name(cmd: Command) -> Seq<char> {
    match cmd {
        Command::CreateIosTheme => "iOS"@,
        Command::CreateAndroidTheme => "Android"@,
        Command::CreateMacosTheme => "macOS"@,
        Command::CreateWindowsTheme => "Windows"@,
        _ => Seq::empty(),
    }
}

/// The entry a platform-selection command installs: platform set, no
/// description — any prior partial state is discarded.
pub open spec fn fresh_entry(cmd: Command) -> UserStateView {
    UserStateView { platform: Some(platform_name(cmd)), theme_description: None }
}

/// How a command transforms the state table: platform selection installs a
/// fresh entry, start and reset remove the user's entry whatever it held.
pub open spec fn command_step(
    m: Map<u64, UserStateView>,
    user: u64,
    cmd: Command,
) -> Map<u64, UserStateView> {
    if is_platform_command(cmd) {
        m.insert(user, fresh_entry(cmd))
    } else {
        m.remove(user)
    }
}

/// The reply each command earns.
pub open spec fn command_reply(cmd: Command) -> Seq<char> {
    match cmd {
        Command::Start => WELCOME_MESSAGE@,
        Command::Reset => RESET_MESSAGE@,
        Command::CreateIosTheme => IOS_PROMPT@,
        Command::CreateAndroidTheme => ANDROID_PROMPT@,
        Command::CreateMacosTheme => MACOS_PROMPT@,
        Command::CreateWindowsTheme => WINDOWS_PROMPT@,
    }
}

/// Whether a text message from `user` triggers a synthesis call: the user has
/// selected a platform and not yet supplied a description.
pub open spec fn text_ready(m: Map<u64, UserStateView>, user: u64) -> bool {
    m.contains_key(user) && m[user].platform is Some && m[user].theme_description is None
}

/// How a text message transforms the state table: a triggering message
/// consumes the entry (success or failure of the synthesis call that follows
/// cannot resurrect it); any other message changes nothing.
pub open spec fn text_step(m: Map<u64, UserStateView>, user: u64) -> Map<u64, UserStateView> {
    if text_ready(m, user) {
        m.remove(user)
    } else {
        m
    }
}

/// What the dispatcher must do with a user's text message.
pub enum TextAction {
    /// No platform selected (or a description already consumed): no response.
    Ignored,
    /// Run one synthesis call with this platform and description.
    Synthesize(String, String),
}

/// The shared table of in-progress requests, one entry per user identifier.
pub struct StateTable {
    users: HashMap<u64, UserState>,
}

impl View for StateTable {
    type V = Map<u64, UserStateView>;

    closed spec fn view(&self) -> Map<u64, UserStateView> {
        self.users@.map_values(|s: UserState| s@)
    }
}

impl StateTable {
    /// An empty table: every user idle.
    pub fn new() -> (t: Self)
        ensures
            t@ == Map::<u64, UserStateView>::empty(),
    {
        let t = StateTable { users: HashMap::new() };
        proof {
            assert(t@ =~= Map::<u64, UserStateView>::empty());
        }
        t
    }

    /// Applies one command for `user` and picks the reply to send.
    pub fn handle_command(&mut self, user: u64, cmd: Command) -> (reply: &'static str)
        ensures
            final(self)@ == command_step(old(self)@, user, cmd),
            reply@ == command_reply(cmd),
    {
        match cmd {
            Command::Start => {
                self.users.remove(&user);
                proof {
                    assert(self@ =~= old(self)@.remove(user));
                }
                WELCOME_MESSAGE
            },
            Command::Reset => {
                self.users.remove(&user);
                proof {
                    assert(self@ =~= old(self)@.remove(user));
                }
                RESET_MESSAGE
            },
            Command::CreateIosTheme => {
                let entry = UserState {
                    platform: Some(String::from_str("iOS")),
                    theme_description: None,
                };
                self.users.insert(user, entry);
                proof {
                    assert(self@ =~= old(self)@.insert(user, fresh_entry(cmd)));
                }
                IOS_PROMPT
            },
            Command::CreateAndroidTheme => {
                let entry = UserState {
                    platform: Some(String::from_str("Android")),
                    theme_description: None,
                };
                self.users.insert(user, entry);
                proof {
                    assert(self@ =~= old(self)@.insert(user, fresh_entry(cmd)));
                }
                ANDROID_PROMPT
            },
            Command::CreateMacosTheme => {
                let entry = UserState {
                    platform: Some(String::from_str("macOS")),
                    theme_description: None,
                };
                self.users.insert(user, entry);
                proof {
                    assert(self@ =~= old(self)@.insert(user, fresh_entry(cmd)));
                }
                MACOS_PROMPT
            },
            Command::CreateWindowsTheme => {
                let entry = UserState {
                    platform: Some(String::from_str("Windows")),
                    theme_description: None,
                };
                self.users.insert(user, entry);
                proof {
                    assert(self@ =~= old(self)@.insert(user, fresh_entry(cmd)));
                }
                WINDOWS_PROMPT
            },
        }
    }

    /// Applies one text message for `user`: if a platform is selected and no
    /// description was consumed yet, the entry is cleared and the platform
    /// and description are handed out for one synthesis call; otherwise the
    /// message is ignored.
    pub fn handle_text(&mut self, user: u64, text: &str) -> (action: TextAction)
        ensures
            final(self)@ == text_step(old(self)@, user),
            (match action {
                TextAction::Synthesize(p, d) => text_ready(old(self)@, user) && Some(p@) == old(
                    self,
                )@[user].platform && d@ == text@,
                TextAction::Ignored => !text_ready(old(self)@, user),
            }),
    {
        let ready = match self.users.get(&user) {
            Some(entry) => entry.platform.is_some() && entry.theme_description.is_none(),
            None => false,
        };
        if !ready {
            return TextAction::Ignored;
        }
        let entry = match self.users.remove(&user) {
            Some(entry) => entry,
            None => unreached(),
        };
        let platform = match entry.platform {
            Some(p) => p,
            None => unreached(),
        };
        proof {
            assert(self@ =~= old(self)@.remove(user));
        }
        TextAction::Synthesize(platform, String::from_str(text))
    }
}

/// Resetting clears the user's entry whatever it held, and a following
/// platform-selection command starts a fresh `PlatformSelected` entry carrying
/// no trace of any earlier description.
pub proof fn lemma_reset_then_create_starts_fresh(
    m: Map<u64, UserStateView>,
    user: u64,
    cmd: Command,
)
    requires
        is_platform_command(cmd),
    ensures
        !command_step(m, user, Command::Reset).contains_key(user),
        text_ready(command_step(command_step(m, user, Command::Reset), user, cmd), user),
        command_step(command_step(m, user, Command::Reset), user, cmd)[user] == fresh_entry(cmd),
{
}

} // verus!
