//! What is kept between sessions, and what is made of it before the remote
//! login: the user name offered at the prompt and the target of the login.

use crate::record::NodeRecord;
use vstd::prelude::*;

verus! {

/// The directory below the home directory that holds the directory of the
/// preferences.
pub const CONFIG_PARENT: &'static str = ".config";

/// The directory of the preferences.
pub const CONFIG_DIR: &'static str = "ssh-tailscale";

/// The file of the preferences.
pub const CONFIG_FILE: &'static str = "config.json";

/// The user name offered at the prompt when none was kept.
pub const FALLBACK_USERNAME: &'static str = "ubuntu";

/// The preferences kept between sessions. An empty text stands for a
/// preference that was never set.
#[derive(Debug, PartialEq, Eq)]
pub struct Config {
    /// The user name entered last time.
    pub default_username: String,
    /// The name of the node selected last time.
    pub last_selected_node: String,
}

impl Default for Config {
    /// The preferences of a first session: nothing is set.
    fn default() -> (config: Config)
        ensures
            config.default_username@.len() == 0,
            config.last_selected_node@.len() == 0,
    {
        Config { default_username: String::new(), last_selected_node: String::new() }
    }
}

impl Config {
    /// The user name that the prompt offers: the one kept, or the fallback
    /// where none is kept.
    pub open spec fn offered_username(self) -> Seq<char> {
        if self.default_username@.len() > 0 {
            self.default_username@
        } else {
            FALLBACK_USERNAME@
        }
    }

    /// The user name that the prompt offers.
    pub fn prompt_default(&self) -> (name: String)
        ensures
            name@ == self.offered_username(),
    {
        if !self.default_username.as_str().is_empty() {
            self.default_username.clone()
        } else {
            FALLBACK_USERNAME.to_owned()
        }
    }

    /// Keeps the name of the node that was selected.
    pub fn remember_node(&mut self, node: &NodeRecord)
        ensures
            final(self).last_selected_node@ == node@.name,
            final(self).default_username == old(self).default_username,
    {
        self.last_selected_node = node.name().to_owned();
    }

    /// Keeps the user name that was entered, and says whether it differs
    /// from the one kept before, in which case the preferences have to be
    /// written out again.
    pub fn remember_username(&mut self, username: &str) -> (changed: bool)
        ensures
            changed == (username@ != old(self).default_username@),
            final(self).default_username@ == username@,
            final(self).last_selected_node == old(self).last_selected_node,
    {
        let entered = username.to_owned();
        let changed = entered != self.default_username;
        if changed {
            self.default_username = entered;
        }
        changed
    }
}

/// The target of a remote login: the user name, an `@`, and the address.
pub open spec fn login_target_of(username: Seq<char>, ip: Seq<char>) -> Seq<char> {
    (username + seq!['@']) + ip
}

/// The one argument of the remote login for a user name and the node that
/// was confirmed: the node is named by its address.
pub fn login_target(username: &str, node: &NodeRecord) -> (target: String)
    ensures
        target@ == login_target_of(username@, node@.ip),
{
    let mut target = username.to_owned();
    target.push('@');
    target.append(node.ip());
    target
}

} // verus!
