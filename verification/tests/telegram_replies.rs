use henry::coding::types::SessionInfo;
use henry::health::{HealthStatus, ModuleHealth};
use henry::maint::types::BackupInfo;
use henry::server::types::{ContainerInfo, ContainerStatus};
use henry::telegram::assistant::{
    agent_toggled_reply, ask_reply, format_agent_status, new_session_reply, task_created_reply,
};
use henry::telegram::commands::{
    agent_request, claude_request, container_request, maint_request, media_request, reactive_request,
    AgentRequest, ClaudeRequest, ContainerRequest, MaintRequest, MediaRequest, ReactiveRequest,
};
use henry::telegram::reply::{format_modules, unauthorized_text, TelegramError};
use henry::telegram::services::{container_reply, format_containers, media_reply};
use henry::telegram::upkeep::{engine_op_reply, format_maint_backups, EngineOp};
use henry::agent::types::AgentState;

#[test]
fn container_command_parsing() {
    match container_request("  START web ") {
        ContainerRequest::Start(n) => assert_eq!(n, "web"),
        other => panic!("unexpected {:?}", other),
    }
    match container_request("logs db 20") {
        ContainerRequest::Logs { name, tail } => {
            assert_eq!(name, "db");
            assert_eq!(tail, 20);
        }
        other => panic!("unexpected {:?}", other),
    }
    match container_request("logs db many") {
        ContainerRequest::Logs { tail, .. } => assert_eq!(tail, 50),
        other => panic!("unexpected {:?}", other),
    }
    match container_request("stop") {
        ContainerRequest::Usage(u) => assert_eq!(u, "Usage: /container stop <name>"),
        other => panic!("unexpected {:?}", other),
    }
    match container_request("") {
        ContainerRequest::Usage(u) => assert_eq!(u, "Usage: /container <start|stop|restart|logs> <name>"),
        other => panic!("unexpected {:?}", other),
    }
}

#[test]
fn other_command_parsing() {
    assert!(matches!(media_request(""), MediaRequest::Status));
    assert!(matches!(media_request("libs"), MediaRequest::Libraries));
    assert!(matches!(media_request("logs 7"), MediaRequest::Logs(7)));
    assert!(matches!(media_request("dance"), MediaRequest::Usage));
    match claude_request("ask what is   up") {
        ClaudeRequest::Ask(q) => assert_eq!(q, "what is up"),
        other => panic!("unexpected {:?}", other),
    }
    assert_eq!(maint_request("Check"), MaintRequest::Update);
    assert_eq!(maint_request("schedule"), MaintRequest::Jobs);
    assert!(matches!(reactive_request("history"), ReactiveRequest::History(10)));
    match reactive_request("approve") {
        ReactiveRequest::Usage(u) => assert_eq!(u, "Usage: /reactive approve <action_id>"),
        other => panic!("unexpected {:?}", other),
    }
    match agent_request("new Fix disk - clean the logs") {
        AgentRequest::New { title, description } => {
            assert_eq!(title, "Fix disk");
            assert_eq!(description, "clean the logs");
        }
        other => panic!("unexpected {:?}", other),
    }
    match agent_request("new just a title") {
        AgentRequest::New { title, description } => {
            assert_eq!(title, "just a title");
            assert_eq!(description, "just a title");
        }
        other => panic!("unexpected {:?}", other),
    }
    match agent_request("input t1 path=/var/log=x") {
        AgentRequest::Input { task_id, key, value } => {
            assert_eq!(task_id, "t1");
            assert_eq!(key, "path");
            assert_eq!(value, "/var/log=x");
        }
        other => panic!("unexpected {:?}", other),
    }
    match agent_request("input t1 novalue") {
        AgentRequest::Usage(u) => assert_eq!(u, "Usage: /agent input <task_id> <key>=<value>"),
        other => panic!("unexpected {:?}", other),
    }
}

#[test]
fn modules_reply() {
    assert_eq!(format_modules(&Vec::new()), "No modules registered.");
    let a = ModuleHealth::new("http").healthy();
    let b = ModuleHealth::new("media").disabled();
    let c = ModuleHealth::new("agent").degraded("slow");
    assert_eq!(format_modules(&vec![a, b, c]), "Modules:\n  OK http\n  OFF media\n  WARN agent");
    let _ = HealthStatus::Unknown;
    assert_eq!(unauthorized_text(), "Unauthorized. Access denied.");
    assert_eq!(TelegramError::InvalidToken.message(), "bot token not found or invalid");
}

fn container(name: &str, image: &str, status: ContainerStatus) -> ContainerInfo {
    ContainerInfo {
        id: "abc".to_string(),
        name: name.to_string(),
        image: image.to_string(),
        status,
        status_message: String::new(),
        ports: Vec::new(),
        created: 0,
    }
}

#[test]
fn containers_reply() {
    let list = vec![container("web", "nginx", ContainerStatus::Running), container("db", "pg", ContainerStatus::Dead)];
    assert_eq!(format_containers(&Ok(list)), "Containers:\n  RUN web (nginx)\n  ? db (pg)");
    assert_eq!(format_containers(&Ok(Vec::new())), "No containers found.");
    assert_eq!(format_containers(&Err("down".to_string())), "Error listing containers: down");
}

#[test]
fn container_logs_truncated() {
    let req = ContainerRequest::Logs { name: "web".to_string(), tail: 50 };
    let long = "x".repeat(4100);
    let r = container_reply(&req, &Ok(long));
    assert!(r.starts_with("Logs for web (truncated):\n```\n"));
    assert_eq!(r.len(), "Logs for web (truncated):\n```\n".len() + 4000 + "...\n```".len());
    assert_eq!(container_reply(&req, &Ok(String::new())), "No logs for container: web");
    assert_eq!(container_reply(&req, &Ok("a\nb".to_string())), "Logs for web:\n```\na\nb\n```");
    let start = ContainerRequest::Start("web".to_string());
    assert_eq!(container_reply(&start, &Ok(String::new())), "Started container: web");
    assert_eq!(container_reply(&start, &Err("boom".to_string())), "Error starting web: boom");
}

#[test]
fn media_operation_replies() {
    assert_eq!(media_reply(&MediaRequest::Start, "jellyfin", &Ok(String::new())), "Started Jellyfin container: jellyfin");
    assert_eq!(media_reply(&MediaRequest::Scan, "jellyfin", &Err("no".to_string())), "Error triggering scan: no");
    assert_eq!(media_reply(&MediaRequest::Logs(5), "jellyfin", &Ok(String::new())), "No Jellyfin logs.");
}

#[test]
fn claude_replies() {
    let mut s = SessionInfo::new("abc".to_string(), "/w".to_string());
    s.set_running(42);
    assert_eq!(new_session_reply(&Ok(s)), "Started coding session:\n  ID: abc\n  Workspace: /w\n  PID: 42");
    assert_eq!(ask_reply(&Err("x".to_string())), "Error: x");
    let long = "é".repeat(2100);
    let r = ask_reply(&Ok(long));
    assert!(r.ends_with("...\n\n(truncated)"));
    assert_eq!(r.len(), 4000 + "...\n\n(truncated)".len());
}

#[test]
fn agent_replies() {
    assert_eq!(format_agent_status(AgentState::Idle, 3, true), "Agent Status:\n  State: idle\n  Pending Tasks: 3\n  Enabled: true");
    assert_eq!(task_created_reply(&Ok("0123456789abcdef".to_string())), "Task created: 01234567");
    assert_eq!(agent_toggled_reply(true), "Agent engine paused.");
}

#[test]
fn backups_listing_caps_at_ten() {
    let mut list = Vec::new();
    for i in 0..12 {
        list.push(BackupInfo {
            name: format!("b{}", i),
            path: String::new(),
            created_at: 1_700_000_000_000,
            size: 500,
            compressed: true,
        });
    }
    let r = format_maint_backups(&Ok(list));
    assert!(r.starts_with("Backups:\n  b0 (500 B) - "));
    assert!(r.ends_with("\n  ... and 2 more"));
    assert_eq!(r.lines().count(), 12);
    assert_eq!(format_maint_backups(&Ok(Vec::new())), "No backups found.");
}

#[test]
fn engine_operation_replies() {
    assert_eq!(engine_op_reply(&EngineOp::Approve("a1".to_string()), &Ok(())), "Action a1 approved.");
    assert_eq!(engine_op_reply(&EngineOp::Pause, &Err("closed".to_string())), "Error pausing: closed");
}

use henry::telegram::commands::{help_text, parse_bot_command, BotCommand};

#[test]
fn test_command_descriptions() {
    let desc = help_text().to_string();
    assert!(desc.contains("help"));
    assert!(desc.contains("status"));
    assert!(desc.contains("media"));
    assert!(desc.contains("reactive"));
}

#[test]
fn bot_command_parsing() {
    assert_eq!(parse_bot_command("/status", "henrybot"), Some((BotCommand::Status, String::new())));
    assert_eq!(parse_bot_command("/status@henrybot", "henrybot"), Some((BotCommand::Status, String::new())));
    assert_eq!(parse_bot_command("/status@otherbot", "henrybot"), None);
    assert_eq!(parse_bot_command("/status now", "henrybot"), None);
    assert_eq!(
        parse_bot_command("/container start  web", "henrybot"),
        Some((BotCommand::Container, "start  web".to_string()))
    );
    assert_eq!(parse_bot_command("/agent", "henrybot"), Some((BotCommand::Agent, String::new())));
    assert_eq!(parse_bot_command("hello", "henrybot"), None);
    assert_eq!(parse_bot_command("/unknown", "henrybot"), None);
}
