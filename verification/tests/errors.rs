use ircd::ChanError;

#[test]
fn registry_errors_come_from_mailbox_errors() {
    assert_eq!(
        ircd::registry::Error::from(ChanError::SendError("DirectoryThreadMsg::NewUser")),
        ircd::registry::Error::SendError("DirectoryThreadMsg::NewUser")
    );
    assert_eq!(
        ircd::registry::Error::from(ChanError::RecvError("DirectoryThreadMsg::NewUser")),
        ircd::registry::Error::RecvError("DirectoryThreadMsg::NewUser")
    );
}

#[test]
fn connection_errors_come_from_mailbox_errors() {
    assert!(matches!(
        ircd::command::Error::from(ChanError::SendError("WriterThreadMsg::Send")),
        ircd::command::Error::SendError("WriterThreadMsg::Send")
    ));
    assert!(matches!(
        ircd::command::Error::from(ChanError::RecvError("WriterThreadMsg::Send")),
        ircd::command::Error::RecvError("WriterThreadMsg::Send")
    ));
}

#[test]
fn connection_errors_carry_io_errors() {
    let io = std::io::Error::new(std::io::ErrorKind::BrokenPipe, "gone");
    match ircd::command::Error::from(io) {
        ircd::command::Error::IoError(e) => assert_eq!(e.kind(), std::io::ErrorKind::BrokenPipe),
        other => panic!("{:?}", other),
    }
}
