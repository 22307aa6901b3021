//! The settings that the gateway runs with.

use vstd::prelude::*;
use crate::caching::view_of;
use crate::number::{parse_u32, parsed_u32};
use crate::text::{chars_of, extend_chars, string_of};

verus! {

/// Everything that can be configured.
#[derive(Debug, Clone)]
pub struct Settings {
    /// Base URLs of the upstream gateways, in the order in which they are tried.
    pub ipfs_gateways: Vec<String>,
    /// The cache root; a relative path is taken from the working directory.
    pub ipfs_cache_directory: String,
    /// Sent with every outbound request.
    pub user_agent: String,
    /// Time allowed for connecting and for the whole request, in milliseconds.
    pub connect_timeout: u64,
    /// How long a gateway is left alone after it answered 429.
    pub pause_gateway_seconds: i64,
    /// Age, counted from the last access, at which an entry is evicted.
    pub delete_after_days: i64,
    /// The largest body, in bytes, that is cached.
    pub max_content_length: u64,
    /// The port that the HTTP server listens on.
    pub server_port: u16,
    pub db_max_connections: u32,
    pub db_min_connections: u32,
    /// The output dimensions that may be asked for.
    pub permitted_resize_dimensions: Vec<Dimension>,
    /// The local IPFS binary, if one is used.
    pub ipfs: IpfsConfig,
}

/// Width and height of a transcoded image or video.
#[derive(Debug, Clone, Copy, PartialEq, Eq, Structural)]
pub struct Dimension {
    pub width: u32,
    pub height: u32,
}

/// Where the local IPFS binary is and whether it is used.
#[derive(Debug, Clone)]
pub struct IpfsConfig {
    pub enabled: bool,
    pub binary_path: String,
}

/// The cache root as an absolute path: the configured directory itself when
/// it starts with `/`, else that directory beneath the working directory.
pub open spec fn absolute_cache_directory(configured: Seq<char>, current_dir: Seq<char>) -> Seq<
    char,
> {
    if configured.len() > 0 && configured[0] == '/' {
        configured
    } else {
        current_dir + seq!['/'] + configured
    }
}

/// Which database the object store lives in.
#[derive(Debug, PartialEq, Eq)]
pub struct Database {
    /// The URL to connect to.
    pub url: String,
    /// A file to create, if it does not exist, before connecting.
    pub create_file: Option<String>,
}

/// The database to use: the one that the environment names, else the file
/// `objects.sqlite` in the working directory.
pub fn database_url(from_environment: Option<String>) -> (database: Database)
    ensures
        database.url@ == (match from_environment {
            Some(url) => url@,
            None => "sqlite://objects.sqlite"@,
        }),
        view_of(database.create_file) == (match from_environment {
            Some(_) => None,
            None => Some("objects.sqlite"@),
        }),
{
    match from_environment {
        Some(url) => Database { url, create_file: None },
        None => Database {
            url: "sqlite://objects.sqlite".to_owned(),
            create_file: Some("objects.sqlite".to_owned()),
        },
    }
}

/// The port to listen on: the one that the environment names, if it names a
/// port, else the configured one.
pub open spec fn port_of(configured: u16, from_environment: Option<Seq<char>>) -> u16 {
    match from_environment {
        Some(text) => match parsed_u32(text) {
            Some(port) => if port <= u16::MAX {
                port as u16
            } else {
                configured
            },
            None => configured,
        },
        None => configured,
    }
}

impl Settings {
    /// The port to listen on, given the value of `PORT` in the environment.
    pub fn listen_port(&self, from_environment: &Option<String>) -> (port: u16)
        ensures
            port == port_of(self.server_port, view_of(*from_environment)),
    {
        match from_environment {
            None => self.server_port,
            Some(text) => match parse_u32(&chars_of(text.as_str())) {
                Some(port) => if port <= 0xffff {
                    port as u16
                } else {
                    self.server_port
                },
                None => self.server_port,
            },
        }
    }

    /// The cache root as an absolute path, given the working directory.
    pub fn full_ipfs_cache_directory(&self, current_dir: &str) -> (full: String)
        ensures
            full@ == absolute_cache_directory(self.ipfs_cache_directory@, current_dir@),
    {
        let configured = chars_of(self.ipfs_cache_directory.as_str());
        if configured.len() > 0 && configured[0] == '/' {
            string_of(&configured)
        } else {
            let mut full = chars_of(current_dir);
            full.push('/');
            extend_chars(&mut full, &configured);
            proof {
                assert(full@ =~= current_dir@ + seq!['/'] + configured@);
            }
            string_of(&full)
        }
    }

    /// Whether `dimension` is on the whitelist of output dimensions.
    pub fn permits(&self, dimension: Dimension) -> (permitted: bool)
        ensures
            permitted == self.permitted_resize_dimensions@.contains(dimension),
    {
        let mut i: usize = 0;
        while i < self.permitted_resize_dimensions.len()
            invariant
                i <= self.permitted_resize_dimensions.len(),
                forall|j: int| 0 <= j < i ==> self.permitted_resize_dimensions@[j] != dimension,
            decreases self.permitted_resize_dimensions.len() - i,
        {
            if self.permitted_resize_dimensions[i] == dimension {
                return true;
            }
            i += 1;
        }
        false
    }
}

} // verus!
