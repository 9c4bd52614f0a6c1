//! Records kept in the state database: module states, the audit log, anomalies,
//! actions, tasks and task steps.
//!
//! Storing and reading them is the caller's; instants are kept as RFC 3339 text,
//! as the database holds them.

use vstd::prelude::*;
use crate::clock::{format_rfc3339, in_range, now_millis, rfc3339};
use crate::text::owned;

verus! {

/// Errors of the state database.
#[derive(Debug)]
pub enum StateError {
    /// The database failed (its message).
    Database(String),
    /// A migration failed.
    Migration(String),
    /// The state directory could not be created (the system's message).
    CreateDir(String),
    /// No record has the key.
    NotFound(String),
}

impl StateError {
    /// The error message.
    pub fn message(&self) -> (r: String)
        ensures
            match self {
                StateError::Database(e) => r@ == "database error: "@ + e@,
                StateError::Migration(e) => r@ == "migration error: "@ + e@,
                StateError::CreateDir(e) => r@ == "failed to create state directory: "@ + e@,
                StateError::NotFound(k) => r@ == "record not found: "@ + k@,
            },
    {
        match self {
            StateError::Database(e) => owned("database error: ").concat(e.as_str()),
            StateError::Migration(e) => owned("migration error: ").concat(e.as_str()),
            StateError::CreateDir(e) => owned("failed to create state directory: ").concat(e.as_str()),
            StateError::NotFound(k) => owned("record not found: ").concat(k.as_str()),
        }
    }
}

/// Module state record.
#[derive(Debug)]
pub struct ModuleState {
    pub module: String,
    pub enabled: bool,
    pub status: String,
    pub last_error: Option<String>,
    pub updated_at: String,
}

impl ModuleState {
    /// A state for a module, updated at `now`: enabled, stopped, without error.
    pub fn new_at(module: &str, now: i64) -> (r: ModuleState)
        requires
            in_range(now as int),
        ensures
            r.module@ == module@,
            r.enabled,
            r.status@ == "stopped"@,
            r.last_error is None,
            r.updated_at@ == rfc3339(now as int),
    {
        ModuleState {
            module: owned(module),
            enabled: true,
            status: owned("stopped"),
            last_error: None,
            updated_at: format_rfc3339(now),
        }
    }

    /// A state for a module, updated now.
    pub fn new(module: &str) -> (r: ModuleState)
        ensures
            r.module@ == module@,
            r.enabled,
            r.status@ == "stopped"@,
            r.last_error is None,
    {
        ModuleState::new_at(module, now_millis())
    }

    /// The state with another status.
    pub fn with_status(self, status: &str) -> (r: ModuleState)
        ensures
            r.status@ == status@,
            r.module == self.module,
            r.enabled == self.enabled,
            r.last_error == self.last_error,
            r.updated_at == self.updated_at,
    {
        let mut s = self;
        s.status = owned(status);
        s
    }

    /// The state with an error.
    pub fn with_error(self, error: &str) -> (r: ModuleState)
        ensures
            r.last_error matches Some(e) && e@ == error@,
            r.module == self.module,
            r.enabled == self.enabled,
            r.status == self.status,
            r.updated_at == self.updated_at,
    {
        let mut s = self;
        s.last_error = Some(owned(error));
        s
    }

    /// The state marked disabled.
    pub fn disabled(self) -> (r: ModuleState)
        ensures
            !r.enabled,
            r.module == self.module,
            r.status == self.status,
            r.last_error == self.last_error,
            r.updated_at == self.updated_at,
    {
        let mut s = self;
        s.enabled = false;
        s
    }
}

/// Audit log entry.
#[derive(Debug)]
pub struct AuditEntry {
    pub id: i64,
    pub timestamp: String,
    pub module: String,
    pub action: String,
    pub details: Option<String>,
    pub user_id: Option<String>,
}

/// Anomaly record.
#[derive(Debug)]
pub struct AnomalyRecord {
    pub id: String,
    pub event_type: String,
    pub event_data: String,
    pub severity: String,
    pub detected_at: String,
    pub resolved_at: Option<String>,
    pub resolved_by: Option<String>,
}

impl AnomalyRecord {
    /// A record detected at `now`, unresolved.
    pub fn new_at(id: &str, event_type: &str, event_data: &str, severity: &str, now: i64) -> (r: AnomalyRecord)
        requires
            in_range(now as int),
        ensures
            r.id@ == id@,
            r.event_type@ == event_type@,
            r.event_data@ == event_data@,
            r.severity@ == severity@,
            r.detected_at@ == rfc3339(now as int),
            r.resolved_at is None,
            r.resolved_by is None,
    {
        AnomalyRecord {
            id: owned(id),
            event_type: owned(event_type),
            event_data: owned(event_data),
            severity: owned(severity),
            detected_at: format_rfc3339(now),
            resolved_at: None,
            resolved_by: None,
        }
    }

    /// A record detected now, unresolved.
    pub fn new(id: &str, event_type: &str, event_data: &str, severity: &str) -> (r: AnomalyRecord)
        ensures
            r.id@ == id@,
            r.event_type@ == event_type@,
            r.event_data@ == event_data@,
            r.severity@ == severity@,
            r.resolved_at is None,
            r.resolved_by is None,
    {
        AnomalyRecord::new_at(id, event_type, event_data, severity, now_millis())
    }

    /// Marks the record resolved by someone at `now`.
    pub fn resolve_at(&mut self, resolved_by: &str, now: i64)
        requires
            in_range(now as int),
        ensures
            final(self).resolved_at matches Some(t) && t@ == rfc3339(now as int),
            final(self).resolved_by matches Some(b) && b@ == resolved_by@,
            final(self).id == old(self).id,
            final(self).event_type == old(self).event_type,
            final(self).event_data == old(self).event_data,
            final(self).severity == old(self).severity,
            final(self).detected_at == old(self).detected_at,
    {
        self.resolved_at = Some(format_rfc3339(now));
        self.resolved_by = Some(owned(resolved_by));
    }

    /// Marks the record resolved by someone now.
    pub fn resolve(&mut self, resolved_by: &str)
        ensures
            final(self).resolved_at is Some,
            final(self).resolved_by matches Some(b) && b@ == resolved_by@,
            final(self).id == old(self).id,
            final(self).event_type == old(self).event_type,
            final(self).event_data == old(self).event_data,
            final(self).severity == old(self).severity,
            final(self).detected_at == old(self).detected_at,
    {
        self.resolve_at(resolved_by, now_millis());
    }
}

/// Action record.
#[derive(Debug)]
pub struct ActionRecord {
    pub id: String,
    pub anomaly_id: String,
    pub action_type: String,
    pub action_data: String,
    pub created_at: String,
    pub requires_approval: bool,
    pub approved_by: Option<String>,
    pub approved_at: Option<String>,
    pub executed_at: Option<String>,
    pub status: String,
    pub result: Option<String>,
    pub retries: i32,
}

impl ActionRecord {
    /// A record created at `now`: awaiting approval when approval is required,
    /// pending otherwise.
    pub fn new_at(id: &str, anomaly_id: &str, action_type: &str, action_data: &str, requires_approval: bool, now: i64) -> (r: ActionRecord)
        requires
            in_range(now as int),
        ensures
            r.id@ == id@,
            r.anomaly_id@ == anomaly_id@,
            r.action_type@ == action_type@,
            r.action_data@ == action_data@,
            r.created_at@ == rfc3339(now as int),
            r.requires_approval == requires_approval,
            r.approved_by is None && r.approved_at is None && r.executed_at is None,
            r.status@ == if requires_approval { "awaiting_approval"@ } else { "pending"@ },
            r.result is None,
            r.retries == 0,
    {
        ActionRecord {
            id: owned(id),
            anomaly_id: owned(anomaly_id),
            action_type: owned(action_type),
            action_data: owned(action_data),
            created_at: format_rfc3339(now),
            requires_approval,
            approved_by: None,
            approved_at: None,
            executed_at: None,
            status: if requires_approval { owned("awaiting_approval") } else { owned("pending") },
            result: None,
            retries: 0,
        }
    }

    /// A record created now.
    pub fn new(id: &str, anomaly_id: &str, action_type: &str, action_data: &str, requires_approval: bool) -> (r: ActionRecord)
        ensures
            r.id@ == id@,
            r.anomaly_id@ == anomaly_id@,
            r.action_type@ == action_type@,
            r.action_data@ == action_data@,
            r.requires_approval == requires_approval,
            r.approved_by is None && r.approved_at is None && r.executed_at is None,
            r.status@ == if requires_approval { "awaiting_approval"@ } else { "pending"@ },
            r.result is None,
            r.retries == 0,
    {
        ActionRecord::new_at(id, anomaly_id, action_type, action_data, requires_approval, now_millis())
    }
}

/// Task record.
#[derive(Debug)]
pub struct TaskRecord {
    pub id: String,
    pub title: String,
    pub description: Option<String>,
    pub created_at: String,
    pub created_by: Option<String>,
    pub priority: String,
    pub status: String,
    pub steps: Option<String>,
    pub current_step_index: i32,
    pub context: Option<String>,
    pub result: Option<String>,
}

impl TaskRecord {
    /// A record created at `now`: normal priority, queued, with nothing else set.
    pub fn new_at(id: &str, title: &str, now: i64) -> (r: TaskRecord)
        requires
            in_range(now as int),
        ensures
            r.id@ == id@,
            r.title@ == title@,
            r.description is None,
            r.created_at@ == rfc3339(now as int),
            r.created_by is None,
            r.priority@ == "normal"@,
            r.status@ == "queued"@,
            r.steps is None,
            r.current_step_index == 0,
            r.context is None,
            r.result is None,
    {
        TaskRecord {
            id: owned(id),
            title: owned(title),
            description: None,
            created_at: format_rfc3339(now),
            created_by: None,
            priority: owned("normal"),
            status: owned("queued"),
            steps: None,
            current_step_index: 0,
            context: None,
            result: None,
        }
    }

    /// A record created now.
    pub fn new(id: &str, title: &str) -> (r: TaskRecord)
        ensures
            r.id@ == id@,
            r.title@ == title@,
            r.description is None,
            r.created_by is None,
            r.priority@ == "normal"@,
            r.status@ == "queued"@,
            r.steps is None,
            r.current_step_index == 0,
            r.context is None,
            r.result is None,
    {
        TaskRecord::new_at(id, title, now_millis())
    }

    /// The record with a description.
    pub fn with_description(self, description: &str) -> (r: TaskRecord)
        ensures
            r.description matches Some(d) && d@ == description@,
            r == (TaskRecord { description: r.description, ..self }),
    {
        let mut s = self;
        s.description = Some(owned(description));
        s
    }

    /// The record with a priority.
    pub fn with_priority(self, priority: &str) -> (r: TaskRecord)
        ensures
            r.priority@ == priority@,
            r == (TaskRecord { priority: r.priority, ..self }),
    {
        let mut s = self;
        s.priority = owned(priority);
        s
    }

    /// The record with its author.
    pub fn with_created_by(self, created_by: &str) -> (r: TaskRecord)
        ensures
            r.created_by matches Some(c) && c@ == created_by@,
            r == (TaskRecord { created_by: r.created_by, ..self }),
    {
        let mut s = self;
        s.created_by = Some(owned(created_by));
        s
    }
}

/// Task step record.
#[derive(Debug)]
pub struct TaskStepRecord {
    pub id: String,
    pub task_id: String,
    pub step_index: i32,
    pub description: String,
    pub step_type: String,
    pub status: String,
    pub iterations: Option<String>,
}

impl TaskStepRecord {
    /// A pending step record without iterations.
    pub fn new(id: &str, task_id: &str, step_index: i32, description: &str, step_type: &str) -> (r: TaskStepRecord)
        ensures
            r.id@ == id@,
            r.task_id@ == task_id@,
            r.step_index == step_index,
            r.description@ == description@,
            r.step_type@ == step_type@,
            r.status@ == "pending"@,
            r.iterations is None,
    {
        TaskStepRecord {
            id: owned(id),
            task_id: owned(task_id),
            step_index,
            description: owned(description),
            step_type: owned(step_type),
            status: owned("pending"),
            iterations: None,
        }
    }
}

} // verus!
