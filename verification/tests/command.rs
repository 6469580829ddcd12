use net_comms::command::{Command, CommandRaw};
use net_comms::error::NetCommsErrorKind;
use net_comms::message::MessageKind;
use net_comms::user::User;

fn parts(cmd: &CommandRaw) -> Vec<&str> {
    cmd.vec.iter().map(|s| s.as_str()).collect()
}

#[test]
fn input_is_cut_after_every_space() {
    let cmd = CommandRaw::from_input("send (bob, eve) hi there");
    assert_eq!(parts(&cmd), vec!["send ", "(bob, ", "eve) ", "hi ", "there"]);
    let cmd = CommandRaw::from_input("a  b ");
    assert_eq!(parts(&cmd), vec!["a ", " ", "b "]);
    assert!(CommandRaw::from_input("").vec.is_empty());
}

#[test]
fn register_keeps_parts_as_given() {
    let user = User::new(7, String::from("me"), String::from("pw"));
    match CommandRaw::from_input("register alice secret").process(&user, |_| false).unwrap() {
        Command::Register(u, who) => {
            assert_eq!(u.username, "alice ");
            assert_eq!(u.password, "secret");
            assert_eq!(who.id(), 7);
        }
        other => panic!("unexpected {:?}", other),
    }
}

#[test]
fn login_yes_no_and_unknown() {
    let user = User::default();
    assert!(matches!(
        CommandRaw::from_input("login bob pw").process(&user, |_| false).unwrap(),
        Command::Login(..)
    ));
    match CommandRaw::from_input("y").process(&user, |_| false).unwrap() {
        Command::Yes(who) => assert_eq!(who.username(), "UNKNOWN"),
        other => panic!("unexpected {:?}", other),
    }
    assert!(matches!(CommandRaw::from_input("n ").process(&user, |_| false).unwrap(), Command::No(_)));
    assert!(matches!(
        CommandRaw::from_input("dance now").process(&user, |_| false).unwrap(),
        Command::Unknown
    ));
}

#[test]
fn send_text_to_several_recipients() {
    let user = User::new(3, String::from("ann"), String::from("pw"));
    match CommandRaw::from_input("send (bob, eve) hi there").process(&user, |_| false).unwrap() {
        Command::Send(kind, who, recipients, content, file_name) => {
            assert_eq!(kind, MessageKind::Text);
            assert_eq!(who.id(), 3);
            assert_eq!(recipients, vec![String::from("bob"), String::from("eve")]);
            assert_eq!(content, b"hi there".to_vec());
            assert_eq!(file_name, None);
        }
        other => panic!("unexpected {:?}", other),
    }
}

#[test]
fn send_to_one_recipient_skips_lone_spaces() {
    let user = User::default();
    match CommandRaw::from_input("send  bob hello").process(&user, |_| false).unwrap() {
        Command::Send(_, _, recipients, content, _) => {
            assert_eq!(recipients, vec![String::from("bob")]);
            assert_eq!(content, b"hello".to_vec());
        }
        other => panic!("unexpected {:?}", other),
    }
}

#[test]
fn send_file_asks_whether_the_path_is_a_file() {
    let user = User::default();
    match CommandRaw::from_input("send bob |notes.txt").process(&user, |p| p == "notes.txt").unwrap() {
        Command::Send(kind, _, recipients, content, file_name) => {
            assert_eq!(kind, MessageKind::File);
            assert_eq!(recipients, vec![String::from("bob")]);
            assert!(content.is_empty());
            assert_eq!(file_name, Some(String::from("notes.txt")));
        }
        other => panic!("unexpected {:?}", other),
    }
    match CommandRaw::from_input("send bob |missing").process(&user, |_| false).unwrap() {
        Command::Send(kind, _, _, _, file_name) => {
            assert_eq!(kind, MessageKind::File);
            assert_eq!(file_name, None);
        }
        other => panic!("unexpected {:?}", other),
    }
}

#[test]
fn commands_missing_their_parts_are_invalid() {
    let user = User::default();
    for input in ["", "register alice", "login", "send ", "send (alice ", "send   "] {
        let cmd = CommandRaw::from_input(input);
        assert!(!cmd.can_process());
        let e = cmd.process(&user, |_| false).unwrap_err();
        assert!(matches!(e.kind, NetCommsErrorKind::InvalidCommand), "{:?}", input);
    }
}
