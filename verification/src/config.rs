//! Where the front end keeps its files, and the address the proxy listens
//! on.
use vstd::prelude::*;
use crate::text::push_str;

verus! {

/// The configuration directory could not be determined.
#[derive(Debug, Clone, Copy, PartialEq, Eq, Structural)]
pub enum ConfigError {
    ConfigDirNotFound,
}

impl ConfigError {
    /// The error's text, as its `Display` writes it.
    pub fn to_text(&self) -> (r: String)
        ensures
            r@ == "Configuration directory not found"@,
    {
        let mut r = String::new();
        push_str(&mut r, "Configuration directory not found");
        r
    }
}

/// `base` joined with `rel` as `Path::join` does on Unix: an absolute
/// `rel` replaces `base`, and a `/` goes between them unless `base` is
/// empty or already ends with one.
pub open spec fn path_join(base: Seq<char>, rel: Seq<char>) -> Seq<char> {
    if rel.len() > 0 && rel[0] == '/' {
        rel
    } else if base.len() == 0 || base.last() == '/' {
        base + rel
    } else {
        base + seq!['/'] + rel
    }
}

/// `base` joined with `rel`.
pub fn join_path(base: &str, rel: &str) -> (r: String)
    ensures
        r@ == path_join(base@, rel@),
{
    let b = crate::text::chars_of(base);
    let rv = crate::text::chars_of(rel);
    if rv.len() > 0 && rv[0] == '/' {
        return rel.to_string();
    }
    let mut r = base.to_string();
    if b.len() > 0 && b[b.len() - 1] != '/' {
        r.push('/');
    }
    push_str(&mut r, rel);
    r
}

/// The configuration directory: the one the `CHARLOTTE_CONFIG_DIR`
/// variable names, else `.config/charlotte` in the home directory.
pub open spec fn config_dir_of(dir_var: Option<Seq<char>>, home: Option<Seq<char>>) -> Option<
    Seq<char>,
> {
    match dir_var {
        Some(d) => Some(d),
        None => match home {
            Some(h) => Some(path_join(h, ".config/charlotte"@)),
            None => None,
        },
    }
}

/// The front end's configuration.
#[derive(Debug, PartialEq)]
pub struct Config {
    pub server_host: String,
    pub server_port: u16,
    pub config_dir: String,
    pub certs_dir: String,
}

impl Config {
    /// The configuration for a proxy on `server_host:server_port`, given the
    /// value of the `CHARLOTTE_CONFIG_DIR` variable and the home directory,
    /// where they are known. Fails when neither is.
    pub fn new(
        server_host: String,
        server_port: u16,
        config_dir_var: Option<String>,
        home_dir: Option<String>,
    ) -> (r: Result<Config, ConfigError>)
        ensures
            match config_dir_of(
                match config_dir_var {
                    Some(d) => Some(d@),
                    None => None,
                },
                match home_dir {
                    Some(h) => Some(h@),
                    None => None,
                },
            ) {
                Some(dir) => r matches Ok(c) && c.server_host == server_host && c.server_port
                    == server_port && c.config_dir@ == dir && c.certs_dir@ == path_join(
                    dir,
                    "certs"@,
                ),
                None => r == Err::<Config, ConfigError>(ConfigError::ConfigDirNotFound),
            },
    {
        let config_dir = match Self::default_directory(config_dir_var, home_dir) {
            Some(d) => d,
            None => return Err(ConfigError::ConfigDirNotFound),
        };
        let certs_dir = join_path(config_dir.as_str(), "certs");
        Ok(Config { server_host, server_port, config_dir, certs_dir })
    }

    /// The configuration directory, when it can be determined.
    pub fn default_directory(config_dir_var: Option<String>, home_dir: Option<String>) -> (r:
        Option<String>)
        ensures
            match r {
                Some(d) => config_dir_of(
                    match config_dir_var {
                        Some(d) => Some(d@),
                        None => None,
                    },
                    match home_dir {
                        Some(h) => Some(h@),
                        None => None,
                    },
                ) == Some(d@),
                None => config_dir_var is None && home_dir is None,
            },
    {
        match config_dir_var {
            Some(d) => Some(d),
            None => match home_dir {
                Some(h) => Some(join_path(h.as_str(), ".config/charlotte")),
                None => None,
            },
        }
    }
}

} // verus!
