use ngrok_bot::access::{check_chat_access, check_user_access, Access};
use ngrok_bot::cmds::{error_cmd, help_cmd, kill_ngrok_cmd, list_ngrok_cmd, start_cmd, Command, CommandResponse};
use ngrok_bot::config::NgrokCmd;
use ngrok_bot::discovery::{select_public_url, TunnelError};
use ngrok_bot::dispatch::{chat_declined_message, handle_selection, start_report, SelectionError};
use ngrok_bot::keyboard::{ButtonQuery, Keyboard};
use ngrok_bot::supervisor::Ngrok;
use tokio::sync::oneshot::channel;

fn profile(description: &str, connection_type: &str, port: u32, users: Vec<u64>, howto: Option<&str>) -> NgrokCmd {
    NgrokCmd {
        description: description.to_string(),
        connection_type: connection_type.to_string(),
        port,
        permitted_users: users,
        howto: howto.map(|h| h.to_string()),
    }
}

fn running() -> Ngrok {
    let mut n = Ngrok::new();
    let (send, _recv) = channel::<()>();
    n.start("http", 3000, Some(send)).unwrap();
    n
}

#[test]
fn user_gate() {
    let p = profile("web", "http", 80, vec![1, 2], None);
    assert_eq!(check_user_access(2, &p), Access::Granted);
    assert_eq!(check_user_access(3, &p), Access::Declined);
}

#[test]
fn chat_gate() {
    assert_eq!(check_chat_access(-5, &[1, -5]), Access::Granted);
    assert_eq!(check_chat_access(7, &[1, -5]), Access::Declined);
    assert_eq!(check_chat_access(7, &[]), Access::Declined);
    assert_eq!(chat_declined_message(), "This chat is not permitted to use the bot");
}

#[test]
fn menu_hides_profiles_without_access() {
    let cmds = vec![
        profile("web", "http", 3000, vec![10], None),
        profile("ssh", "tcp", 22, vec![20], None),
    ];
    match list_ngrok_cmd(Some(10), &cmds) {
        CommandResponse::WithMarkup { keyboard: Keyboard::NgrokCmds(v), .. } => {
            assert_eq!(v, vec![(0, "web".to_string())]);
        }
        _ => panic!("expected a menu"),
    }
    match list_ngrok_cmd(Some(20), &cmds) {
        CommandResponse::WithMarkup { keyboard: Keyboard::NgrokCmds(v), .. } => {
            assert_eq!(v, vec![(1, "ssh".to_string())]);
        }
        _ => panic!("expected a menu"),
    }
}

#[test]
fn menu_keeps_configuration_order() {
    let cmds = vec![
        profile("a", "http", 1, vec![5], None),
        profile("b", "http", 2, vec![6], None),
        profile("c", "tcp", 3, vec![5, 6], None),
    ];
    match list_ngrok_cmd(Some(5), &cmds) {
        CommandResponse::WithMarkup { msg, keyboard: Keyboard::NgrokCmds(v) } => {
            assert_eq!(msg, "🤖 Choose ngrok config to start expose target:");
            assert_eq!(v, vec![(0, "a".to_string()), (2, "c".to_string())]);
        }
        _ => panic!("expected a menu"),
    }
}

#[test]
fn menu_empty_for_user_without_access() {
    let cmds = vec![profile("web", "http", 3000, vec![10], None)];
    match list_ngrok_cmd(Some(11), &cmds) {
        CommandResponse::WithoutMarkup { msg } => assert!(msg.starts_with("🤖 No commands for you")),
        _ => panic!("expected a plain message"),
    }
}

#[test]
fn menu_refuses_unknown_sender() {
    let cmds = vec![profile("web", "http", 3000, vec![10], None)];
    match list_ngrok_cmd(None, &cmds) {
        CommandResponse::WithoutMarkup { msg } => assert_eq!(msg, "🤖 I don't know who the fuck are you. Sorry, mate. Don't speak to strangers."),
        _ => panic!("expected a plain message"),
    }
}

#[test]
fn kill_command_on_idle_reports_dead() {
    let mut n = Ngrok::new();
    match kill_ngrok_cmd(&mut n) {
        CommandResponse::WithoutMarkup { msg } => assert_eq!(msg, "💀 Ngrok actually dead..."),
        _ => panic!("expected a plain message"),
    }
    assert!(!n.is_run());
}

#[test]
fn kill_command_on_running_kills() {
    let mut n = running();
    match kill_ngrok_cmd(&mut n) {
        CommandResponse::WithoutMarkup { msg } => assert_eq!(msg, "🫡 Ngrok killed!"),
        _ => panic!("expected a plain message"),
    }
    assert!(!n.is_run());
}

#[test]
fn command_list_and_texts() {
    assert_eq!(Command::gather_commands_as_str(), "/start, /ngrok, /killngrok, /help");
    match help_cmd() {
        CommandResponse::WithoutMarkup { msg } => {
            assert_eq!(msg, "🤖 Available commands:\n/start, /ngrok, /killngrok, /help.")
        }
        _ => panic!("expected a plain message"),
    }
    match error_cmd() {
        CommandResponse::WithoutMarkup { msg } => {
            assert!(msg.starts_with("💅🏻 This command does not exist, you dummy!\n\nHere are available commands:\n"));
            assert!(msg.ends_with("/start, /ngrok, /killngrok, /help."));
        }
        _ => panic!("expected a plain message"),
    }
    match start_cmd() {
        CommandResponse::WithMarkup { msg, keyboard: Keyboard::Startup } => assert_eq!(msg, "🤖 Press /ngrok"),
        _ => panic!("expected the start menu"),
    }
}

#[test]
fn discovery_empty_list() {
    assert!(matches!(select_public_url(&vec![]), Err(TunnelError::NoTunnelsYet)));
}

#[test]
fn discovery_bad_url() {
    let r = select_public_url(&vec!["not a url".to_string()]);
    assert!(matches!(r, Err(TunnelError::InvalidPublicUrl)));
}

#[test]
fn discovery_first_url() {
    let r = select_public_url(&vec!["https://a.ngrok.io".to_string(), "tcp://b.ngrok.io:1".to_string()]).unwrap();
    assert_eq!(reqwest::Url::parse(&r).unwrap(), reqwest::Url::parse("https://a.ngrok.io").unwrap());
    assert_eq!(r, "https://a.ngrok.io/");
}

#[test]
fn discovery_needs_running_process() {
    let n = Ngrok::new();
    let r = n.fetch_url(Ok(Some(vec!["https://a.ngrok.io".to_string()])));
    assert!(matches!(r, Err(TunnelError::NotRunning)));
}

#[test]
fn discovery_failures() {
    let n = running();
    assert!(matches!(n.fetch_url(Err("refused".to_string())), Err(TunnelError::Unreachable(m)) if m == "refused"));
    assert!(matches!(n.fetch_url(Ok(None)), Err(TunnelError::MalformedResponse)));
    assert!(matches!(n.fetch_url(Ok(Some(vec![]))), Err(TunnelError::NoTunnelsYet)));
    assert_eq!(
        TunnelError::NoTunnelsYet.message(),
        "Can't get the tunnel from ngrok API: Error: no tunnels were returned by Ngrok"
    );
}

#[test]
fn selection_out_of_range() {
    let cmds = vec![profile("web", "http", 3000, vec![10], None)];
    let r = handle_selection(Some(1), &[1], 10, Some(ButtonQuery::Ngrok { cmd_idx: 1 }), &cmds);
    assert!(matches!(r, Err(SelectionError::InvalidSelectionIndex)));
    let r = handle_selection(Some(1), &[1], 10, Some(ButtonQuery::Ngrok { cmd_idx: 7 }), &vec![]);
    assert!(matches!(r, Err(SelectionError::InvalidSelectionIndex)));
}

#[test]
fn selection_rechecks_access() {
    let cmds = vec![profile("web", "http", 3000, vec![10], None)];
    let r = handle_selection(Some(1), &[1], 11, Some(ButtonQuery::Ngrok { cmd_idx: 0 }), &cmds);
    match r {
        Err(e) => {
            assert!(matches!(&e, SelectionError::UserDeclined(d) if d == "web"));
            assert_eq!(e.message(), "Access declined for command web");
        }
        Ok(_) => panic!("expected a refusal"),
    }
    assert_eq!(handle_selection(Some(1), &[1], 10, Some(ButtonQuery::Ngrok { cmd_idx: 0 }), &cmds).ok(), Some(0));
}

#[test]
fn selection_without_payload() {
    let cmds = vec![profile("web", "http", 3000, vec![10], None)];
    assert!(matches!(handle_selection(Some(1), &[1], 10, None, &cmds), Err(SelectionError::UnparseablePayload)));
}

#[test]
fn end_to_end_default_howto() {
    let cmds = vec![profile("web", "http", 3000, vec![10], None)];
    let idx = handle_selection(Some(1), &[1], 10, Some(ButtonQuery::Ngrok { cmd_idx: 0 }), &cmds).unwrap();
    let cmd = &cmds[idx];
    let mut n = Ngrok::new();
    let args = n.prepare_start(&cmd.connection_type, cmd.port, &None, true).unwrap();
    assert_eq!(args, vec!["http".to_string(), "3000".to_string()]);
    let (send, _recv) = channel::<()>();
    let started = n.start(&cmd.connection_type, cmd.port, Some(send));
    let found = n.fetch_url(Ok(Some(vec!["https://abc.ngrok.io".to_string()])));
    let msg = start_report(&mut n, cmd, started, found);
    assert!(msg.contains("https://abc.ngrok.io"));
    assert!(msg.contains("Nothing special, just use it"));
    assert!(msg.starts_with("Start http connection on 3000 port"));
    assert!(n.is_run());
}

#[test]
fn end_to_end_profile_howto() {
    let cmd = profile("web", "http", 3000, vec![10], Some("open it in a browser"));
    let mut n = Ngrok::new();
    let (send, _recv) = channel::<()>();
    let started = n.start("http", 3000, Some(send));
    let found = n.fetch_url(Ok(Some(vec!["https://abc.ngrok.io".to_string()])));
    let msg = start_report(&mut n, &cmd, started, found);
    assert!(msg.contains("https://abc.ngrok.io"));
    assert!(msg.contains("open it in a browser"));
}

#[test]
fn failed_discovery_kills_the_tunnel() {
    let cmd = profile("web", "http", 3000, vec![10], None);
    let mut n = Ngrok::new();
    let (send, mut recv) = channel::<()>();
    let started = n.start("http", 3000, Some(send));
    let found = n.fetch_url(Ok(Some(vec![])));
    let msg = start_report(&mut n, &cmd, started, found);
    assert_eq!(msg, "Can't get the tunnel from ngrok API: Error: no tunnels were returned by Ngrok");
    assert!(!n.is_run());
    assert_eq!(recv.try_recv(), Ok(()));
}

#[test]
fn failed_spawn_is_reported() {
    let cmd = profile("ssh", "tcp", 22, vec![10], None);
    let mut n = Ngrok::new();
    let started = n.start("tcp", 22, None);
    let found = n.fetch_url(Ok(Some(vec![])));
    let msg = start_report(&mut n, &cmd, started, found);
    assert_eq!(msg, "Failed to start tcp connection on 22 port");
    assert!(!n.is_run());
}

#[test]
fn selection_from_foreign_chat_is_declined() {
    let cmds = vec![profile("web", "http", 3000, vec![10], None)];
    let q = Some(ButtonQuery::Ngrok { cmd_idx: 0 });
    let r = handle_selection(Some(2), &[1], 10, q, &cmds);
    assert!(matches!(r, Err(SelectionError::ChatDeclined)));
    let r = handle_selection(None, &[1], 10, q, &cmds);
    assert!(matches!(r, Err(SelectionError::ChatDeclined)));
    assert_eq!(SelectionError::ChatDeclined.message(), "This chat is not permitted to use the bot");
}
