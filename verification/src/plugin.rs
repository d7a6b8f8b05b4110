//! The Studio plugin installer.
//!
//! The app ships one plugin file and keeps a copy of it in the user's Roblox
//! plugins directory; the installed file's identity is its byte content.
//! `PluginStore` is the installer's record of that file: the callers read the
//! disk into it, let the verified decision run, and write back exactly when
//! the decision says so. Installing is idempotent: after it the stored bytes
//! equal the bundled bytes, and a second install always finds them current.
//! The directory itself comes from the user's home directory, which only the
//! OS knows; the path arithmetic around it is verified.

use vstd::prelude::*;
use vstd::string::StringExecFns;

verus! {

/// What an install run did.
#[derive(Clone, Copy, PartialEq, Eq, Structural, Debug)]
pub enum InstallOutcome {
    /// The bundled bytes were (re)written.
    Installed,
    /// A file with exactly the bundled bytes was already there.
    AlreadyCurrent,
}

/// The installer's record of the on-disk plugin file: `None` when absent,
/// else its bytes.
pub struct PluginStore {
    pub file: Option<Vec<u8>>,
}

/// The stored bytes after an install: always exactly the bundled bytes.
pub open spec fn spec_installed(contents: Option<Seq<u8>>, bundled: Seq<u8>) -> Option<Seq<u8>> {
    Some(bundled)
}

/// What an install reports: `AlreadyCurrent` exactly when the stored bytes
/// already equal the bundled bytes, else `Installed`.
pub open spec fn spec_install_outcome(
    contents: Option<Seq<u8>>,
    bundled: Seq<u8>,
) -> InstallOutcome {
    if contents == Some(bundled) {
        InstallOutcome::AlreadyCurrent
    } else {
        InstallOutcome::Installed
    }
}

impl PluginStore {
    /// The stored file as contracts speak of it.
    pub open spec fn contents(self) -> Option<Seq<u8>> {
        match self.file {
            Some(bytes) => Some(bytes@),
            None => None,
        }
    }

    /// A record of an absent file.
    pub fn absent() -> (s: PluginStore)
        ensures
            s.contents() is None,
    {
        PluginStore { file: None }
    }

    /// A record of a present file with the given bytes.
    pub fn present(bytes: Vec<u8>) -> (s: PluginStore)
        ensures
            s.contents() == Some(bytes@),
    {
        PluginStore { file: Some(bytes) }
    }

    /// Whether the plugin file is there at all, whatever its bytes.
    pub fn is_plugin_installed(&self) -> (r: bool)
        ensures
            r == (self.contents() is Some),
    {
        match &self.file {
            Some(_) => true,
            None => false,
        }
    }

    /// Install the bundled bytes: compare first, write only on absence or
    /// mismatch. Afterwards the stored bytes equal the bundled bytes, and the
    /// outcome says whether anything had to be written.
    pub fn install_plugin(&mut self, bundled: &Vec<u8>) -> (r: InstallOutcome)
        ensures
            final(self).contents() == spec_installed(old(self).contents(), bundled@),
            r == spec_install_outcome(old(self).contents(), bundled@),
    {
        let current = match &self.file {
            Some(existing) => bytes_equal(existing, bundled),
            None => false,
        };
        if current {
            InstallOutcome::AlreadyCurrent
        } else {
            self.file = Some(bundled.clone());
            InstallOutcome::Installed
        }
    }

    /// Remove the plugin file if it is there, else do nothing. The result
    /// says whether there was one to remove.
    pub fn uninstall_plugin(&mut self) -> (r: bool)
        ensures
            final(self).contents() is None,
            r == (old(self).contents() is Some),
    {
        let was_there = self.is_plugin_installed();
        self.file = None;
        was_there
    }
}

/// Whether two byte vectors hold the same bytes.
pub fn bytes_equal(a: &Vec<u8>, b: &Vec<u8>) -> (r: bool)
    ensures
        r == (a@ == b@),
{
    if a.len() != b.len() {
        return false;
    }
    let n = a.len();
    let mut i: usize = 0;
    while i < n
        invariant
            n == a@.len() == b@.len(),
            0 <= i <= n,
            forall|j: int| 0 <= j < i ==> a@[j] == b@[j],
        decreases n - i,
    {
        if a[i] != b[i] {
            return false;
        }
        i += 1;
    }
    proof {
        assert(a@ =~= b@);
    }
    true
}

/// Installing twice: the first run reports `Installed` on absence or
/// mismatch and `AlreadyCurrent` on a pre-existing matching file; a second
/// run always reports `AlreadyCurrent`; and after either run the stored
/// bytes equal the bundled bytes.
pub proof fn lemma_install_idempotent(contents: Option<Seq<u8>>, bundled: Seq<u8>)
    ensures
        spec_installed(contents, bundled) == Some(bundled),
        contents != Some(bundled) ==> spec_install_outcome(contents, bundled)
            == InstallOutcome::Installed,
        contents == Some(bundled) ==> spec_install_outcome(contents, bundled)
            == InstallOutcome::AlreadyCurrent,
        spec_install_outcome(spec_installed(contents, bundled), bundled)
            == InstallOutcome::AlreadyCurrent,
        spec_installed(spec_installed(contents, bundled), bundled) == Some(bundled),
{
}

/// Relies on dirs::home_dir for the user's home directory. Its answer
/// depends on the environment ($HOME, the user database), so nothing is
/// promised of it.
#[verifier::external_body]
fn home_dir_string() -> (r: Option<String>) {
    dirs::home_dir().map(|p| p.to_string_lossy().into_owned())
}

/// The plugins directory under a given home directory.
pub fn plugins_dir_for(home: &str) -> (r: String)
    ensures
        r@ == home@ + "/Documents/Roblox/Plugins"@,
{
    let s = String::from_str(home);
    s.concat("/Documents/Roblox/Plugins")
}

/// The plugin file path under a given home directory.
pub fn plugin_path_for(home: &str) -> (r: String)
    ensures
        r@ == home@ + "/Documents/Roblox/Plugins/DetAI.rbxm"@,
{
    let dir = plugins_dir_for(home);
    let r = dir.concat("/DetAI.rbxm");
    proof {
        reveal_strlit("/Documents/Roblox/Plugins");
        reveal_strlit("/DetAI.rbxm");
        reveal_strlit("/Documents/Roblox/Plugins/DetAI.rbxm");
        assert(r@ =~= home@ + "/Documents/Roblox/Plugins/DetAI.rbxm"@);
    }
    r
}

/// The plugins directory, if the OS reports a home directory.
pub fn get_plugins_dir() -> (r: Option<String>)
    ensures
        r matches Some(d) ==> exists|home: Seq<char>|
            d@ == #[trigger] (home + "/Documents/Roblox/Plugins"@),
{
    match home_dir_string() {
        Some(home) => Some(plugins_dir_for(home.as_str())),
        None => None,
    }
}

/// The plugin file path, if the OS reports a home directory.
pub fn get_plugin_path() -> (r: Option<String>)
    ensures
        r matches Some(p) ==> exists|home: Seq<char>|
            p@ == #[trigger] (home + "/Documents/Roblox/Plugins/DetAI.rbxm"@),
{
    match home_dir_string() {
        Some(home) => Some(plugin_path_for(home.as_str())),
        None => None,
    }
}

} // verus!
