//! The media module: which services it can use, and the status it reports.

use vstd::prelude::*;
use crate::config::MediaConfig;
use crate::media::jellyfin::{trim_base_url, JellyfinError};
use crate::media::types::{MediaStatus, ServerInfo};
use crate::server::manager::ContainerError;
use crate::server::types::{ContainerInfo, ContainerStatus};
use crate::text::{clone_strings, owned, str_eq, trim_end_char, views};

verus! {

/// Media module errors.
#[derive(Debug)]
pub enum MediaError {
    /// A Jellyfin API call failed.
    Jellyfin(JellyfinError),
    /// A container operation failed.
    Container(ContainerError),
    /// The service needed is not configured.
    NotConfigured,
    /// A library path does not exist.
    InvalidPath(String),
}

impl MediaError {
    /// The error message.
    pub fn message(&self) -> (r: String)
        ensures
            match self {
                MediaError::NotConfigured => r@ == "media module not configured"@,
                MediaError::InvalidPath(p) => r@ == "library path does not exist: "@ + p@,
                _ => true,
            },
    {
        match self {
            MediaError::Jellyfin(e) => {
                let m = e.message();
                owned("Jellyfin API error: ").concat(m.as_str())
            },
            MediaError::Container(e) => {
                let m = e.message();
                owned("container error: ").concat(m.as_str())
            },
            MediaError::NotConfigured => owned("media module not configured"),
            MediaError::InvalidPath(p) => owned("library path does not exist: ").concat(p.as_str()),
        }
    }
}

/// Whether the list of running containers holds the Jellyfin container running.
pub open spec fn jellyfin_listed(listed: Seq<ContainerInfo>, name: Seq<char>) -> bool {
    exists|i: int| 0 <= i < listed.len() && (#[trigger] listed[i]).name@ == name && listed[i].status == ContainerStatus::Running
}

/// The media module.
pub struct MediaManager {
    config: MediaConfig,
    has_containers: bool,
    api_key: Option<String>,
}

impl MediaManager {
    /// The module configuration.
    pub closed spec fn config_of(&self) -> MediaConfig {
        self.config
    }

    /// Whether container management is available.
    pub closed spec fn containers_available(&self) -> bool {
        self.has_containers
    }

    /// Whether a Jellyfin client can be made (an API key was found).
    pub closed spec fn client_available(&self) -> bool {
        self.api_key is Some
    }

    /// A module from its configuration, whether containers can be managed, and the
    /// Jellyfin API key if one was found.
    pub fn new(config: MediaConfig, has_containers: bool, api_key: Option<String>) -> (r: MediaManager)
        ensures
            r.config_of() == config,
            r.containers_available() == has_containers,
            r.client_available() == api_key is Some,
    {
        MediaManager { config, has_containers, api_key }
    }

    /// The URL and key of the Jellyfin client, when a key was found; the URL loses
    /// its trailing slashes.
    pub fn client_settings(&self) -> (r: Option<(String, String)>)
        ensures
            r is Some == self.client_available(),
            r matches Some(p) ==> p.0@ == trim_end_char(self.config_of().jellyfin_url@, '/'),
    {
        match &self.api_key {
            Some(k) => Some((trim_base_url(self.config.jellyfin_url.as_str()), k.clone())),
            None => None,
        }
    }

    /// Each configured library path with whether it exists (as the caller found).
    pub fn validate_paths(&self, exists: &Vec<bool>) -> (r: Vec<(String, bool)>)
        requires
            exists@.len() == self.config_of().library_paths@.len(),
        ensures
            r@.len() == exists@.len(),
            forall|i: int| 0 <= i < r@.len() ==> (#[trigger] r@[i]).0@ == self.config_of().library_paths@[i]@ && r@[i].1 == exists@[i],
    {
        let mut out: Vec<(String, bool)> = Vec::new();
        let mut i: usize = 0;
        while i < exists.len()
            invariant
                i <= exists.len(),
                exists@.len() == self.config.library_paths@.len(),
                out@.len() == i,
                forall|j: int| 0 <= j < i ==> (#[trigger] out@[j]).0@ == self.config.library_paths@[j]@ && out@[j].1 == exists@[j],
            decreases exists.len() - i,
        {
            out.push((self.config.library_paths[i].clone(), exists[i]));
            i = i + 1;
        }
        out
    }

    /// Whether the Jellyfin container runs, given the running containers as listed
    /// (nothing when containers cannot be listed).
    pub fn is_container_running(&self, listed: Option<&Vec<ContainerInfo>>) -> (r: bool)
        ensures
            r == (self.containers_available() && listed is Some
                && jellyfin_listed(listed->0@, self.config_of().jellyfin_container@)),
    {
        if !self.has_containers {
            return false;
        }
        match listed {
            None => false,
            Some(l) => {
                let mut i: usize = 0;
                while i < l.len()
                    invariant
                        i <= l.len(),
                        self.has_containers,
                        listed == Some(l),
                        forall|j: int| 0 <= j < i ==> !((#[trigger] l@[j]).name@ == self.config.jellyfin_container@
                            && l@[j].status == ContainerStatus::Running),
                    decreases l.len() - i,
                {
                    if str_eq(l[i].name.as_str(), self.config.jellyfin_container.as_str()) && l[i].status.is_running() {
                        assert(l@[i as int].name@ == self.config.jellyfin_container@ && l@[i as int].status == ContainerStatus::Running);
                        assert(jellyfin_listed(l@, self.config.jellyfin_container@));
                        return true;
                    }
                    i = i + 1;
                }
                false
            },
        }
    }

    /// Checks that containers can be managed: `NotConfigured` otherwise.
    pub fn require_containers(&self) -> (r: Result<(), MediaError>)
        ensures
            r is Ok <==> self.containers_available(),
            r is Err ==> r matches Err(MediaError::NotConfigured),
    {
        if self.has_containers { Ok(()) } else { Err(MediaError::NotConfigured) }
    }

    /// Checks that the Jellyfin API can be asked: `NotConfigured` otherwise.
    pub fn require_client(&self) -> (r: Result<(), MediaError>)
        ensures
            r is Ok <==> self.client_available(),
            r is Err ==> r matches Err(MediaError::NotConfigured),
    {
        if self.api_key.is_some() { Ok(()) } else { Err(MediaError::NotConfigured) }
    }

    /// The module status from what was observed: the API counts as reachable only
    /// with a client, and server, libraries and sessions are read only from a
    /// reachable API (a failed read counts as none).
    pub fn status(
        &self,
        container_running: bool,
        api_reachable: bool,
        server: Option<ServerInfo>,
        library_count: Option<usize>,
        session_count: Option<usize>,
    ) -> (r: MediaStatus)
        ensures
            r.container_running == container_running,
            r.api_reachable == (self.client_available() && api_reachable),
            r.api_reachable ==> r.server == server,
            !r.api_reachable ==> r.server is None,
            r.library_count == if r.api_reachable { match library_count { Some(n) => n, None => 0 } } else { 0 },
            r.active_sessions == if r.api_reachable { match session_count { Some(n) => n, None => 0 } } else { 0 },
            r.hw_transcode_enabled == self.config_of().hw_transcode,
            views(r.library_paths@) == views(self.config_of().library_paths@),
    {
        let reachable = self.api_key.is_some() && api_reachable;
        let paths = clone_strings(&self.config.library_paths);
        MediaStatus {
            container_running,
            api_reachable: reachable,
            server: if reachable { server } else { None },
            library_count: if reachable { match library_count { Some(n) => n, None => 0 } } else { 0 },
            active_sessions: if reachable { match session_count { Some(n) => n, None => 0 } } else { 0 },
            hw_transcode_enabled: self.config.hw_transcode,
            library_paths: paths,
        }
    }

    /// The Jellyfin container name.
    pub fn container_name(&self) -> (r: &str)
        ensures
            r@ == self.config_of().jellyfin_container@,
    {
        self.config.jellyfin_container.as_str()
    }

    /// The configuration.
    pub fn config(&self) -> (r: &MediaConfig)
        ensures
            *r == self.config_of(),
    {
        &self.config
    }
}

} // verus!
