use irssi_v5::bouncer::{classify_reply, command_field_of, handshake, quit, AdminAction, AdminExchange, CommandOutcome, Phase};

fn sent(a: AdminAction) -> String {
    match a {
        AdminAction::Send(t) => t,
        _ => panic!("expected a line to send"),
    }
}

#[test]
fn exchange_full_round_trip() {
    assert_eq!(handshake(), "NICK soju-admin\r\nUSER soju-admin 0 * :soju-admin\r\n");
    let mut x = AdminExchange::new("user create -username a -password p".to_string());
    assert!(matches!(x.on_line(":soju NOTICE * :hello\r\n"), AdminAction::Wait));
    assert_eq!(x.phase(), Phase::AwaitWelcome);
    let msg = sent(x.on_line(":soju 001 soju-admin :Welcome\r\n"));
    assert_eq!(msg, "PRIVMSG BouncerServ :user create -username a -password p\r\n");
    assert_eq!(x.phase(), Phase::AwaitReply);
    assert_eq!(sent(x.on_line("PING :tick\r\n")), "PONG :tick\r\n");
    match x.on_line(":BouncerServ!x@y NOTICE soju-admin :created user \"a\"\r\n") {
        AdminAction::Finish(o) => assert_eq!(o, CommandOutcome::Accepted),
        _ => panic!("expected the round trip to finish"),
    }
    assert_eq!(x.phase(), Phase::Finished);
    assert!(matches!(x.on_line("anything\r\n"), AdminAction::Wait));
    assert_eq!(quit(), "QUIT\r\n");
}

#[test]
fn exchange_answers_ping_before_welcome() {
    let mut x = AdminExchange::new("help".to_string());
    assert_eq!(sent(x.on_line("PING :abc\n")), "PONG :abc\r\n");
    assert_eq!(sent(x.on_line("PING\r\n")), "PONG \r\n");
}

#[test]
fn exchange_error_before_welcome_fails() {
    let mut x = AdminExchange::new("help".to_string());
    match x.on_line("ERROR :Closing link\r\n") {
        AdminAction::Finish(o) => assert_eq!(o, CommandOutcome::Failed),
        _ => panic!("expected failure"),
    }
}

#[test]
fn exchange_closed_without_reply_fails() {
    let mut x = AdminExchange::new("help".to_string());
    let _ = x.on_line(":soju 001 me :Welcome\r\n");
    assert_eq!(x.on_close(), CommandOutcome::Failed);
    assert_eq!(x.phase(), Phase::Finished);
}

#[test]
fn reply_classification_pinned_to_literal_replies() {
    assert_eq!(classify_reply(":BouncerServ NOTICE me :created user \"bob\""), CommandOutcome::Accepted);
    assert_eq!(
        classify_reply(":BouncerServ NOTICE me :Error: user \"bob\" already exists"),
        CommandOutcome::AlreadyExists
    );
    assert_eq!(classify_reply(":BouncerServ NOTICE me :ERROR: bad flag"), CommandOutcome::Failed);
    assert_eq!(classify_reply(":BouncerServ NOTICE me :Unknown command"), CommandOutcome::Failed);
    assert_eq!(classify_reply(":BouncerServ NOTICE me :dial FAILED"), CommandOutcome::Failed);
}

#[test]
fn probe_with_001_token_is_answered_not_taken_as_welcome() {
    let mut x = AdminExchange::new("help".to_string());
    assert_eq!(sent(x.on_line("PING :1001\r\n")), "PONG :1001\r\n");
    assert_eq!(x.phase(), Phase::AwaitWelcome);
    assert!(matches!(x.on_line(":soju NOTICE * :ticket 001 pending\r\n"), AdminAction::Wait));
    assert_eq!(x.phase(), Phase::AwaitWelcome);
    assert_eq!(sent(x.on_line("001 soju-admin :Welcome\r\n")), "PRIVMSG BouncerServ :help\r\n");
    assert_eq!(x.phase(), Phase::AwaitReply);
}

#[test]
fn probe_naming_the_service_is_answered_not_taken_as_reply() {
    let mut x = AdminExchange::new("help".to_string());
    let _ = x.on_line(":soju 001 me :Welcome\r\n");
    assert_eq!(sent(x.on_line("PING :NOTICE BouncerServ\r\n")), "PONG :NOTICE BouncerServ\r\n");
    assert_eq!(x.phase(), Phase::AwaitReply);
    match x.on_line(":BouncerServ NOTICE me :ok\r\n") {
        AdminAction::Finish(o) => assert_eq!(o, CommandOutcome::Accepted),
        _ => panic!("expected the round trip to finish"),
    }
    assert_eq!(sent(x.on_line("PING :late\r\n")), "PONG :late\r\n");
}

#[test]
fn command_field_of_lines() {
    assert_eq!(command_field_of(":soju 001 me :Welcome"), "001");
    assert_eq!(command_field_of("001 me"), "001");
    assert_eq!(command_field_of("PING :x"), "PING");
    assert_eq!(command_field_of(":prefixonly"), "");
}
