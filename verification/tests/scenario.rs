use ircd::{
    Config, ConfigData, ConfigWorker, Directory, LineFSM, ReaderThreadMsg, SessionEvent,
    UserWorker, Writer, WriterWorker,
};

fn config() -> Config {
    Config::new(ConfigWorker::new(ConfigData::new(
        "irc.example.org".to_string(),
        "0.0.0.0:6667".to_string(),
        "0.0.0.0:6697".to_string(),
        "secret".to_string(),
        "A test server".to_string(),
    )))
}

/// One client as the daemon sees it, with what has gone onto its wire.
struct Client {
    address: u64,
    session: UserWorker,
    writer: WriterWorker,
    wire: Vec<String>,
}

/// A daemon in one thread: every notification is delivered as soon as the
/// step that caused it is over.
struct Daemon {
    directory: Directory,
    clients: Vec<Client>,
}

impl Daemon {
    fn new() -> Self {
        Daemon { directory: Directory::new(), clients: Vec::new() }
    }

    fn connect(&mut self) -> usize {
        let user = self.directory.new_mailbox();
        let entry = self.directory.new_user(user);
        self.clients.push(Client {
            address: user.thread,
            session: UserWorker::new(Writer::new(), entry, config()),
            writer: WriterWorker::new(config()),
            wire: Vec::new(),
        });
        self.clients.len() - 1
    }

    fn settle(&mut self) {
        loop {
            for client in self.clients.iter_mut() {
                for msg in client.session.take_output() {
                    if let Some(text) = client.writer.handle_msg(msg) {
                        client.wire.push(text);
                    }
                }
            }
            let mail = self.directory.take_mail();
            if mail.is_empty() {
                return;
            }
            for delivery in mail {
                for client in self.clients.iter_mut() {
                    if client.address == delivery.to.thread {
                        let event = SessionEvent::Notification(delivery.msg);
                        client.session.step(event, &mut self.directory);
                        break;
                    }
                }
            }
        }
    }

    fn line(&mut self, who: usize, line: &str) -> bool {
        let cmd = LineFSM::new().handle_line(line.to_string()).unwrap();
        let event = SessionEvent::Line(ReaderThreadMsg::Command(cmd));
        let step = self.clients[who].session.step(event, &mut self.directory);
        assert!(!step.rejected);
        self.settle();
        step.exit
    }

    fn wire(&mut self, who: usize) -> Vec<String> {
        std::mem::take(&mut self.clients[who].wire)
    }

    fn disconnect(&mut self, who: usize) {
        let client = self.clients.remove(who);
        client.session.release(&mut self.directory);
        self.settle();
    }
}

fn lines(text: &[&str]) -> Vec<String> {
    text.iter().map(|l| format!("{}\r\n", l)).collect()
}

#[test]
fn two_clients_meet_in_a_channel() {
    let mut daemon = Daemon::new();
    let a = daemon.connect();
    let b = daemon.connect();
    daemon.line(a, "NICK A");
    daemon.line(a, "USER alice 0 * :Alice A.");
    assert_eq!(
        daemon.wire(a),
        lines(&[
            ":irc.example.org 001 A :Hello, World!",
            ":irc.example.org 002 A :Your host is irc.example.org",
            ":irc.example.org 375 :- irc.example.org Message of the Day -",
            ":irc.example.org 372 :- Hello MOTD",
            ":irc.example.org 376 :End of /MOTD command.",
            ":A MODE A :+i",
        ])
    );
    daemon.line(b, "NICK B");
    daemon.line(b, "USER bob 0 * :Bob B.");
    daemon.wire(b);

    daemon.line(a, "JOIN #x");
    assert_eq!(daemon.wire(a), lines(&[":A!alice@TODO JOIN #x"]));
    daemon.line(b, "JOIN #x");
    assert_eq!(daemon.wire(a), lines(&[":B!bob@TODO JOIN #x"]));
    assert_eq!(daemon.wire(b), lines(&[":B!bob@TODO JOIN #x"]));

    daemon.line(a, "WHO #x");
    assert_eq!(
        daemon.wire(a),
        lines(&[
            ":irc.example.org 353 A @ #x :A B",
            ":irc.example.org 366 A #x :End of /NAMES list",
        ])
    );
    assert!(daemon.wire(b).is_empty());

    daemon.line(b, "PRIVMSG #x :hello there");
    assert_eq!(daemon.wire(a), lines(&[":B!bob@TODO PRIVMSG #x :hello there"]));
    assert!(daemon.wire(b).is_empty());

    daemon.line(a, "PRIVMSG B :just you");
    assert_eq!(daemon.wire(b), lines(&[":A!alice@TODO PRIVMSG B :just you"]));

    daemon.line(a, "PRIVMSG C :anyone?");
    assert_eq!(daemon.wire(a), lines(&[":irc.example.org 401 A C :No such nick/channel"]));

    daemon.line(b, "PART #x :bye for now");
    assert_eq!(daemon.wire(a), lines(&[":B PART #x :\"bye for now\""]));
    assert_eq!(daemon.wire(b), lines(&[":B!bob@TODO PART #x :\"bye for now\""]));
}

#[test]
fn nick_in_use_is_told_on_the_wire() {
    let mut daemon = Daemon::new();
    let a = daemon.connect();
    let b = daemon.connect();
    daemon.line(a, "NICK bob");
    daemon.line(a, "USER first 0 * :First Bob");
    daemon.line(b, "NICK bob");
    daemon.line(b, "USER second 0 * :Second Bob");
    assert_eq!(daemon.wire(b), lines(&[":irc.example.org 433 * bob :Nickname is already in use."]));
}

#[test]
fn client_that_goes_away_parts_its_channels() {
    let mut daemon = Daemon::new();
    let a = daemon.connect();
    let b = daemon.connect();
    for (who, nick) in [(a, "A"), (b, "B")] {
        daemon.line(who, &format!("NICK {}", nick));
        daemon.line(who, &format!("USER {} 0 * :{}", nick, nick));
        daemon.line(who, "JOIN #x");
    }
    daemon.wire(a);
    daemon.wire(b);
    assert!(daemon.line(a, "QUIT"));
    daemon.disconnect(a);
    assert_eq!(daemon.wire(0), lines(&[":A PART #x :\"No reason provided\""]));
    daemon.line(0, "WHO #x");
    assert_eq!(
        daemon.wire(0),
        lines(&[
            ":irc.example.org 353 B @ #x :B",
            ":irc.example.org 366 B #x :End of /NAMES list",
        ])
    );
}
