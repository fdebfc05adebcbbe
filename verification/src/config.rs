//! Where the pool is and how this process names itself to it.
//!
//! The environment comes first, then the stored file. With neither there is no
//! pool, and the host keeps its own credentials.

use crate::text::{hexadecimal, hexadecimal_text, opt_str, opt_text, trim,
    trim_end_slashes, trimmed, without_trailing_slashes};
use vstd::prelude::*;
use vstd::utf8::encode_utf8;

verus! {

/// The host's name in a device id where the environment names none.
pub const DEFAULT_HOST: &'static str = "codext";

/// The working directory in a device id where there is none.
pub const UNKNOWN_WORKSPACE: &'static str = "unknown";

/// Start value of the workspace hash (64-bit FNV-1a).
pub const HASH_START: u64 = 0xcbf2_9ce4_8422_2325;

/// Factor of the workspace hash (64-bit FNV-1a).
pub const HASH_FACTOR: u64 = 0x100_0000_01b3;

/// The contents of the stored file.
pub struct StoredConfig {
    pub base_url: String,
    pub key: String,
    /// The account that this home directory asks for by default.
    pub account: Option<String>,
}

/// The contents of the stored file as mathematical values.
pub struct StoredView {
    pub base_url: Seq<char>,
    pub key: Seq<char>,
    pub account: Option<Seq<char>>,
}

impl View for StoredConfig {
    type V = StoredView;

    open spec fn view(&self) -> StoredView {
        StoredView {
            base_url: self.base_url@,
            key: self.key@,
            account: opt_text(self.account),
        }
    }
}

/// What the environment says. Each value is `None` where it is not set.
pub struct PoolEnvironment {
    pub url: Option<String>,
    pub key: Option<String>,
    pub account: Option<String>,
    pub device_id: Option<String>,
    pub hostname: Option<String>,
    pub computername: Option<String>,
    /// The working directory.
    pub workspace: Option<String>,
}

/// What the environment says as mathematical values.
pub struct EnvironmentView {
    pub url: Option<Seq<char>>,
    pub key: Option<Seq<char>>,
    pub account: Option<Seq<char>>,
    pub device_id: Option<Seq<char>>,
    pub hostname: Option<Seq<char>>,
    pub computername: Option<Seq<char>>,
    pub workspace: Option<Seq<char>>,
}

impl View for PoolEnvironment {
    type V = EnvironmentView;

    open spec fn view(&self) -> EnvironmentView {
        EnvironmentView {
            url: opt_text(self.url),
            key: opt_text(self.key),
            account: opt_text(self.account),
            device_id: opt_text(self.device_id),
            hostname: opt_text(self.hostname),
            computername: opt_text(self.computername),
            workspace: opt_text(self.workspace),
        }
    }
}

/// How to reach the pool.
pub struct Config {
    pub base_url: String,
    pub key: String,
    /// The name under which the pool knows this workspace's lease.
    pub device_id: String,
    /// The account that this run asks for: preferred, not required. `None`
    /// leaves the choice to the pool.
    pub want_account: Option<String>,
}

/// How to reach the pool, as mathematical values.
pub struct ConfigView {
    pub base_url: Seq<char>,
    pub key: Seq<char>,
    pub device_id: Seq<char>,
    pub want_account: Option<Seq<char>>,
}

impl View for Config {
    type V = ConfigView;

    open spec fn view(&self) -> ConfigView {
        ConfigView {
            base_url: self.base_url@,
            key: self.key@,
            device_id: self.device_id@,
            want_account: opt_text(self.want_account),
        }
    }
}

/// A set value without surrounding white space; `None` where nothing is left.
pub open spec fn non_blank(value: Option<Seq<char>>) -> Option<Seq<char>> {
    match value {
        Some(text) if trimmed(text).len() > 0 => Some(trimmed(text)),
        _ => None,
    }
}

/// `first` where there is one, else `second`.
pub open spec fn first_of(first: Option<Seq<char>>, second: Option<Seq<char>>) -> Option<
    Seq<char>,
> {
    match first {
        Some(_) => first,
        None => second,
    }
}

/// The stored file, unless its address or key is blank.
pub open spec fn usable(stored: Option<StoredView>) -> Option<StoredView> {
    match stored {
        Some(file) if trimmed(file.base_url).len() > 0 && trimmed(file.key).len() > 0 => stored,
        _ => None,
    }
}

/// The 64-bit FNV-1a hash of `bytes`.
pub open spec fn hash_of(bytes: Seq<u8>) -> u64
    decreases bytes.len(),
{
    if bytes.len() == 0 {
        HASH_START
    } else {
        (hash_of(bytes.drop_last()) ^ (bytes.last() as u64)).wrapping_mul(HASH_FACTOR)
    }
}

/// The tag of a working directory: its hash in sixteen hexadecimal digits.
pub open spec fn tag_of(workspace: Option<Seq<char>>) -> Seq<char> {
    let path = match workspace {
        Some(path) => path,
        None => UNKNOWN_WORKSPACE@,
    };
    hexadecimal(hash_of(encode_utf8(path)) as nat, 16)
}

/// The host's name.
pub open spec fn label_of(hostname: Option<Seq<char>>, computername: Option<Seq<char>>) -> Seq<
    char,
> {
    match first_of(hostname, computername) {
        Some(name) => name,
        None => DEFAULT_HOST@,
    }
}

/// The device id: the one that is set, else host name and workspace tag. It
/// holds nothing of the running process, so that runs in one directory share a
/// lease, and nothing of the directory's name.
pub open spec fn device_id_of(env: EnvironmentView) -> Seq<char> {
    match non_blank(env.device_id) {
        Some(id) => id,
        None => label_of(env.hostname, env.computername) + "-"@ + tag_of(env.workspace),
    }
}

/// The address that is configured.
pub open spec fn url_of(stored: Option<StoredView>, env: EnvironmentView) -> Option<Seq<char>> {
    first_of(
        non_blank(env.url),
        match usable(stored) {
            Some(file) => Some(trimmed(file.base_url)),
            None => None,
        },
    )
}

/// The key that is configured.
pub open spec fn key_of(stored: Option<StoredView>, env: EnvironmentView) -> Option<Seq<char>> {
    first_of(
        non_blank(env.key),
        match usable(stored) {
            Some(file) => Some(trimmed(file.key)),
            None => None,
        },
    )
}

/// The account that is asked for.
pub open spec fn wanted_of(stored: Option<StoredView>, env: EnvironmentView) -> Option<Seq<char>> {
    first_of(
        non_blank(env.account),
        match usable(stored) {
            Some(file) => non_blank(file.account),
            None => None,
        },
    )
}

/// The configuration that the stored file and the environment give together.
pub open spec fn configured(stored: Option<StoredView>, env: EnvironmentView) -> Option<ConfigView> {
    match (url_of(stored, env), key_of(stored, env)) {
        (Some(url), Some(key)) => Some(
            ConfigView {
                base_url: without_trailing_slashes(url),
                key,
                device_id: device_id_of(env),
                want_account: wanted_of(stored, env),
            },
        ),
        _ => None,
    }
}

/// The stored file as a mathematical value, where there is one.
pub open spec fn stored_view(stored: Option<StoredConfig>) -> Option<StoredView> {
    match stored {
        Some(file) => Some(file@),
        None => None,
    }
}

/// A configuration as a mathematical value, where there is one.
pub open spec fn config_view(config: Option<Config>) -> Option<ConfigView> {
    match config {
        Some(config) => Some(config@),
        None => None,
    }
}

/// A set value without surrounding white space; `None` where nothing is left.
pub fn env_non_empty(value: &Option<String>) -> (r: Option<String>)
    ensures
        opt_text(r) == non_blank(opt_text(*value)),
{
    match value {
        Some(value) => {
            let value = trim(value.as_str());
            if value.is_empty() {
                None
            } else {
                Some(value.to_owned())
            }
        },
        None => None,
    }
}

/// The host's name.
pub fn host_label(hostname: &Option<String>, computername: &Option<String>) -> (r: String)
    ensures
        r@ == label_of(opt_text(*hostname), opt_text(*computername)),
{
    match hostname {
        Some(name) => name.clone(),
        None => match computername {
            Some(name) => name.clone(),
            None => DEFAULT_HOST.to_owned(),
        },
    }
}

/// A short stable tag of the working directory. Only the hash is used: the
/// path holds names that are not for the pool.
pub fn workspace_tag(workspace: Option<&str>) -> (r: String)
    ensures
        r@ == tag_of(opt_str(workspace)),
{
    let path = match workspace {
        Some(path) => path,
        None => UNKNOWN_WORKSPACE,
    };
    let bytes = path.as_bytes();
    let mut hash: u64 = HASH_START;
    let mut i: usize = 0;
    while i < bytes.len()
        invariant
            i <= bytes@.len(),
            hash == hash_of(bytes@.take(i as int)),
        decreases bytes@.len() - i,
    {
        assert(bytes@.take(i + 1).drop_last() =~= bytes@.take(i as int));
        hash = (hash ^ (bytes[i] as u64)).wrapping_mul(HASH_FACTOR);
        i = i + 1;
    }
    assert(bytes@.take(i as int) =~= bytes@);
    hexadecimal_text(hash, 16)
}

/// Whether the stored file holds an address and a key.
fn is_usable(stored: &StoredConfig) -> (r: bool)
    ensures
        r == (usable(Some(stored@)) is Some),
{
    !trim(stored.base_url.as_str()).is_empty() && !trim(stored.key.as_str()).is_empty()
}

impl Config {
    /// Reads the configuration from the stored file and the environment.
    /// `None` means that no pool is configured.
    pub fn load(stored: Option<StoredConfig>, env: &PoolEnvironment) -> (r: Option<Config>)
        ensures
            config_view(r) == configured(stored_view(stored), env@),
    {
        let stored = match stored {
            Some(file) => if is_usable(&file) {
                Some(file)
            } else {
                None
            },
            None => None,
        };
        let base_url = match env_non_empty(&env.url) {
            Some(url) => url,
            None => match &stored {
                Some(file) => trim(file.base_url.as_str()).to_owned(),
                None => {
                    return None;
                },
            },
        };
        let key = match env_non_empty(&env.key) {
            Some(key) => key,
            None => match &stored {
                Some(file) => trim(file.key.as_str()).to_owned(),
                None => {
                    return None;
                },
            },
        };
        let want_account = match env_non_empty(&env.account) {
            Some(account) => Some(account),
            None => match &stored {
                Some(file) => env_non_empty(&file.account),
                None => None,
            },
        };
        let device_id = match env_non_empty(&env.device_id) {
            Some(id) => id,
            None => {
                let tag = workspace_tag(crate::text::as_opt_str(&env.workspace));
                host_label(&env.hostname, &env.computername).concat("-").concat(tag.as_str())
            },
        };
        Some(
            Config {
                base_url: trim_end_slashes(base_url.as_str()).to_owned(),
                key,
                device_id,
                want_account,
            },
        )
    }
}

} // verus!
