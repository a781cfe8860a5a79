use irssi_v5::bouncer::CommandOutcome;
use irssi_v5::errors::GatewayError;
use irssi_v5::provision::{
    command_result, random_password, render_config, split_addr, user_create_command, Manager,
    ProvisionStep, Provisioning, Stage,
};

fn manager() -> Manager {
    Manager::new(
        "/soju/soju.sock".to_string(),
        "/data/sessions".to_string(),
        "soju:6667".to_string(),
        "irc+insecure://irc.libera.chat".to_string(),
        "libera".to_string(),
    )
}

#[test]
fn ensure_user_twice_is_noop() {
    let mut m = manager();
    assert!(m.ensure_user("alice", false));
    let pw = "00112233445566778899aabbccddeeff";
    let first = m.config_for("alice", pw);
    m.mark("alice");
    assert!(!m.ensure_user("alice", false));
    assert!(!m.ensure_user("alice", true));
    assert_eq!(m.config_for("alice", pw), first);
}

#[test]
fn ensure_user_with_config_on_disk_marks_and_skips() {
    let mut m = manager();
    assert!(!m.ensure_user("bob", true));
    assert!(m.is_marked("bob"));
    assert!(!m.ensure_user("bob", false));
}

#[test]
fn delete_user_clears_mark_first() {
    let mut m = manager();
    m.mark("carol");
    m.mark("dave");
    assert_eq!(m.delete_user("carol"), "user delete carol");
    assert!(!m.is_marked("carol"));
    assert!(m.is_marked("dave"));
    assert!(m.ensure_user("carol", false));
}

#[test]
fn commands_and_paths() {
    let m = manager();
    assert_eq!(user_create_command("al", "pw"), "user create -username al -password pw");
    assert_eq!(
        m.network_command("al"),
        "network create -user al -name libera -addr irc+insecure://irc.libera.chat -nick al"
    );
    assert_eq!(m.user_dir("al"), "/data/sessions/al");
    assert_eq!(m.config_file("al"), "/data/sessions/al/irssi.conf");
    assert_eq!(m.socket_path(), "/soju/soju.sock");
}

#[test]
fn command_results() {
    assert_eq!(command_result(CommandOutcome::Accepted), Ok(()));
    assert_eq!(command_result(CommandOutcome::AlreadyExists), Ok(()));
    assert_eq!(command_result(CommandOutcome::Failed), Err(GatewayError::ProvisionFailed));
}

#[test]
fn split_addr_cases() {
    assert_eq!(split_addr("soju:6667"), ("soju", "6667"));
    assert_eq!(split_addr("[::1]:7000"), ("[::1]", "7000"));
    assert_eq!(split_addr("soju"), ("soju", "6667"));
    assert_eq!(split_addr("host:"), ("host", ""));
}

#[test]
fn password_is_32_lower_hex_digits() {
    let a = random_password();
    let b = random_password();
    assert_eq!(a.len(), 32);
    assert!(a.chars().all(|c| c.is_ascii_digit() || ('a'..='f').contains(&c)));
    assert_ne!(a, b);
}

#[test]
fn config_file_text() {
    let text = render_config("soju:6667", "al", "libera", "pw");
    let expected = "servers = ({\n  address = \"soju\";\n  port = 6667;\n  use_ssl = no;\n  password = \"al/libera:pw\";\n  autoconnect = yes;\n});\n\nsettings = {\n  core = {\n    real_name = \"al\";\n    user_name = \"al\";\n    nick = \"al\";\n  };\n  \"fe-text\" = { term_charset = \"UTF-8\"; };\n  \"fe-common/core\" = { term_charset = \"UTF-8\"; };\n};\n";
    assert_eq!(text, expected);
}

fn command(step: ProvisionStep) -> String {
    match step {
        ProvisionStep::Command(c) => c,
        _ => panic!("expected a command"),
    }
}

#[test]
fn provisioning_runs_both_commands_then_writes_config() {
    let mut m = manager();
    assert!(m.ensure_user("al", false));
    let (mut job, step) = Provisioning::start("al", "pw".to_string());
    assert_eq!(command(step), "user create -username al -password pw");
    let step = job.on_outcome(&m, CommandOutcome::AlreadyExists);
    assert_eq!(command(step), "network create -user al -name libera -addr irc+insecure://irc.libera.chat -nick al");
    assert_eq!(job.stage(), Stage::CreateNetwork);
    match job.on_outcome(&m, CommandOutcome::Accepted) {
        ProvisionStep::WriteConfig(text) => assert_eq!(text, render_config("soju:6667", "al", "libera", "pw")),
        _ => panic!("expected the configuration"),
    }
    assert!(!m.is_marked("al"));
    assert!(job.on_written(&mut m));
    assert_eq!(job.stage(), Stage::Done);
    assert!(m.is_marked("al"));
    assert!(!m.ensure_user("al", false));
    assert!(!job.on_written(&mut m));
}

#[test]
fn provisioning_stops_on_failed_command() {
    let m = manager();
    let (mut job, _) = Provisioning::start("al", "pw".to_string());
    match job.on_outcome(&m, CommandOutcome::Failed) {
        ProvisionStep::Fail(e) => assert_eq!(e, GatewayError::ProvisionFailed),
        _ => panic!("expected failure"),
    }
    assert_eq!(job.stage(), Stage::Failed);
    match job.on_outcome(&m, CommandOutcome::Accepted) {
        ProvisionStep::Fail(e) => assert_eq!(e, GatewayError::Internal),
        _ => panic!("expected failure"),
    }
    let (mut job2, _) = Provisioning::start("bo", "pw".to_string());
    job2.on_outcome(&m, CommandOutcome::Accepted);
    match job2.on_outcome(&m, CommandOutcome::Failed) {
        ProvisionStep::Fail(e) => assert_eq!(e, GatewayError::ProvisionFailed),
        _ => panic!("expected failure"),
    }
}
