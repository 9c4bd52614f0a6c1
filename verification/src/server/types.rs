//! Container types.

use vstd::prelude::*;
use crate::text::{ascii_lower, is_ascii_seq, lowercase, owned, str_eq, to_lowercase};

verus! {

/// Container status.
#[derive(Clone, Copy, Debug, PartialEq, Eq, Structural)]
pub enum ContainerStatus {
    Running,
    Paused,
    Restarting,
    Exited,
    Dead,
    Created,
    Removing,
    Unknown,
}

/// The status a lower-cased Docker/Podman state string denotes.
pub open spec fn status_from_lower(s: Seq<char>) -> ContainerStatus {
    if s == "running"@ {
        ContainerStatus::Running
    } else if s == "paused"@ {
        ContainerStatus::Paused
    } else if s == "restarting"@ {
        ContainerStatus::Restarting
    } else if s == "exited"@ {
        ContainerStatus::Exited
    } else if s == "dead"@ {
        ContainerStatus::Dead
    } else if s == "created"@ {
        ContainerStatus::Created
    } else if s == "removing"@ {
        ContainerStatus::Removing
    } else {
        ContainerStatus::Unknown
    }
}

/// The display name of a status.
pub open spec fn container_status_name(s: ContainerStatus) -> Seq<char> {
    match s {
        ContainerStatus::Running => "running"@,
        ContainerStatus::Paused => "paused"@,
        ContainerStatus::Restarting => "restarting"@,
        ContainerStatus::Exited => "exited"@,
        ContainerStatus::Dead => "dead"@,
        ContainerStatus::Created => "created"@,
        ContainerStatus::Removing => "removing"@,
        ContainerStatus::Unknown => "unknown"@,
    }
}

impl ContainerStatus {
    /// Parses a Docker/Podman state string, ignoring case; anything unrecognised is `Unknown`.
    pub fn from_state(state: &str) -> (r: ContainerStatus)
        ensures
            r == status_from_lower(lowercase(state@)),
            is_ascii_seq(state@) ==> lowercase(state@) == ascii_lower(state@),
    {
        let lower = to_lowercase(state);
        let l = lower.as_str();
        if str_eq(l, "running") {
            ContainerStatus::Running
        } else if str_eq(l, "paused") {
            ContainerStatus::Paused
        } else if str_eq(l, "restarting") {
            ContainerStatus::Restarting
        } else if str_eq(l, "exited") {
            ContainerStatus::Exited
        } else if str_eq(l, "dead") {
            ContainerStatus::Dead
        } else if str_eq(l, "created") {
            ContainerStatus::Created
        } else if str_eq(l, "removing") {
            ContainerStatus::Removing
        } else {
            ContainerStatus::Unknown
        }
    }

    /// Whether the container is running.
    pub fn is_running(&self) -> (r: bool)
        ensures
            r == (*self == ContainerStatus::Running),
    {
        match self {
            ContainerStatus::Running => true,
            _ => false,
        }
    }

    /// The display string of the status.
    pub fn as_str(&self) -> (r: &'static str)
        ensures
            r@ == container_status_name(*self),
    {
        match self {
            ContainerStatus::Running => "running",
            ContainerStatus::Paused => "paused",
            ContainerStatus::Restarting => "restarting",
            ContainerStatus::Exited => "exited",
            ContainerStatus::Dead => "dead",
            ContainerStatus::Created => "created",
            ContainerStatus::Removing => "removing",
            ContainerStatus::Unknown => "unknown",
        }
    }

    /// The display string as an owned string (what `Display` prints).
    pub fn to_string(&self) -> (r: String)
        ensures
            r@ == container_status_name(*self),
    {
        owned(self.as_str())
    }
}

/// Basic container information.
#[derive(Debug)]
pub struct ContainerInfo {
    /// Container ID (short form).
    pub id: String,
    /// Container name.
    pub name: String,
    /// Image name.
    pub image: String,
    /// Current status.
    pub status: ContainerStatus,
    /// Status message (e.g., "Up 2 hours").
    pub status_message: String,
    /// Port mappings as "host:container" strings.
    pub ports: Vec<String>,
    /// Creation timestamp (Unix seconds).
    pub created: i64,
}

/// Every status reads back from its display name: `ContainerStatus::from_state(s.as_str())` is `s`.
pub proof fn law_status_name_round_trip(s: ContainerStatus)
    ensures
        is_ascii_seq(container_status_name(s)),
        status_from_lower(ascii_lower(container_status_name(s))) == s,
{
    reveal_strlit("running");
    reveal_strlit("paused");
    reveal_strlit("restarting");
    reveal_strlit("exited");
    reveal_strlit("dead");
    reveal_strlit("created");
    reveal_strlit("removing");
    reveal_strlit("unknown");
    let n = container_status_name(s);
    assert(ascii_lower(n) =~= n);
    match s {
        ContainerStatus::Running => {},
        ContainerStatus::Paused => { assert(n != "running"@); },
        ContainerStatus::Restarting => { assert(n != "running"@ && n != "paused"@); },
        ContainerStatus::Exited => { assert(n[0] != "paused"@[0]); assert(n != "running"@ && n != "paused"@ && n != "restarting"@); },
        ContainerStatus::Dead => { assert(n != "running"@ && n != "paused"@ && n != "restarting"@ && n != "exited"@); },
        ContainerStatus::Created => {
            assert(n[0] != "paused"@[0] && n[0] != "exited"@[0]);
            assert(n != "running"@ && n != "paused"@ && n != "restarting"@ && n != "exited"@ && n != "dead"@);
        },
        ContainerStatus::Removing => {
            assert(n[0] != "running"@[0] || n[1] != "running"@[1]);
            assert(n != "running"@ && n != "paused"@ && n != "restarting"@ && n != "exited"@ && n != "dead"@);
            assert(n != "created"@);
        },
        ContainerStatus::Unknown => {
            assert(n[0] != "running"@[0] && n[0] != "removing"@[0] && n[0] != "created"@[0] && n[0] != "restarting"@[0]);
            assert(n != "running"@ && n != "paused"@ && n != "restarting"@ && n != "exited"@ && n != "dead"@);
            assert(n != "created"@ && n != "removing"@);
        },
    }
}

} // verus!
