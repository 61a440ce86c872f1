//! The player's settings and their defaults.

use vstd::prelude::*;

verus! {

/// All settings of the player.
#[derive(Debug)]
pub struct Config {
    pub server: ServerConfig,
    pub auth: AuthConfig,
    pub player: PlayerConfig,
    pub cache: CacheConfig,
}

/// Where the Subsonic server is.
#[derive(Debug)]
pub struct ServerConfig {
    pub base: String,
}

/// The account used on the server.
#[derive(Debug)]
pub struct AuthConfig {
    pub username: String,
    pub password: String,
}

/// How the player presents itself and how far ahead it loads songs.
#[derive(Debug)]
pub struct PlayerConfig {
    pub device: String,
    pub preload: usize,
}

/// Where downloaded songs are kept on disk, if anywhere.
#[derive(Debug)]
pub struct CacheConfig {
    pub location: Option<String>,
}

impl Default for ServerConfig {
    /// A server on this machine, on port 8080.
    fn default() -> (r: Self)
        ensures
            r.base@ == "http://localhost:8080/"@,
    {
        ServerConfig { base: String::from_str("http://localhost:8080/") }
    }
}

impl Default for AuthConfig {
    /// Empty user name and password.
    fn default() -> (r: Self)
        ensures
            r.username@ == Seq::<char>::empty(),
            r.password@ == Seq::<char>::empty(),
    {
        AuthConfig { username: String::new(), password: String::new() }
    }
}

impl Default for PlayerConfig {
    /// The device name "navrs", loading five songs ahead.
    fn default() -> (r: Self)
        ensures
            r.device@ == "navrs"@,
            r.preload == 5,
    {
        PlayerConfig { device: String::from_str("navrs"), preload: 5 }
    }
}

impl Default for CacheConfig {
    /// No disk cache.
    fn default() -> (r: Self)
        ensures
            r.location is None,
    {
        CacheConfig { location: None }
    }
}

impl Default for Config {
    /// Every section at its own default.
    fn default() -> (r: Self)
        ensures
            r.server.base@ == "http://localhost:8080/"@,
            r.auth.username@ == Seq::<char>::empty(),
            r.auth.password@ == Seq::<char>::empty(),
            r.player.device@ == "navrs"@,
            r.player.preload == 5,
            r.cache.location is None,
    {
        Config {
            server: ServerConfig::default(),
            auth: AuthConfig::default(),
            player: PlayerConfig::default(),
            cache: CacheConfig::default(),
        }
    }
}

/// `base` with the relative path `part` appended, as a path: no separator
/// after an empty base, one separator otherwise.
pub open spec fn path_join(base: Seq<char>, part: Seq<char>) -> Seq<char> {
    if base.len() == 0 {
        part
    } else if base.last() == '/' {
        base + part
    } else {
        base + seq!['/'] + part
    }
}

/// Appends the relative path `part` to `base`.
fn push_path(base: &mut String, part: &str)
    ensures
        final(base)@ == path_join(old(base)@, part@),
{
    let n = base.unicode_len();
    if n == 0 {
        base.append(part);
    } else {
        let last = base.as_str().get_char(n - 1);
        if last != '/' {
            base.append("/");
            proof { reveal_strlit("/"); }
        }
        base.append(part);
    }
}

/// Where the settings are read from: `force` when given, otherwise
/// `.config/navrs/config.toml` under `home` (under `/root` when the home
/// directory is unknown).
pub fn default_config_path(force: Option<String>, home: Option<String>) -> (r: String)
    ensures
        force is Some ==> r == force->0,
        force is None ==> r@ == path_join(
            path_join(
                path_join(match home {
                    Some(h) => h@,
                    None => "/root"@,
                }, ".config"@),
                "navrs"@,
            ),
            "config.toml"@,
        ),
{
    if let Some(ovr) = force {
        return ovr;
    }
    let mut out = match home {
        Some(h) => h,
        None => String::from_str("/root"),
    };
    push_path(&mut out, ".config");
    push_path(&mut out, "navrs");
    push_path(&mut out, "config.toml");
    out
}

} // verus!
