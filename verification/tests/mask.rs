use ircd::Mask;

fn bob() -> Mask {
    Mask::new(
        "bob".to_string(),
        "robert".to_string(),
        "example.org".to_string(),
        "Bob B.".to_string(),
        2,
        "123456".to_string(),
        "irc.example.org".to_string(),
    )
}

#[test]
fn new_keeps_every_field() {
    let mask = bob();
    assert_eq!(mask.nick, "bob");
    assert_eq!(mask.user, "robert");
    assert_eq!(mask.host, "example.org");
    assert_eq!(mask.real, "Bob B.");
    assert_eq!(mask.hops, 2);
    assert_eq!(mask.timestamp, "123456");
    assert_eq!(mask.servername, "irc.example.org");
}

#[test]
fn short_rendering_is_nick_user_host() {
    assert_eq!(bob().for_privmsg(), "bob!robert@example.org");
}

#[test]
fn full_rendering_adds_hops_time_stamp_server_and_real_name() {
    assert_eq!(bob().full(), "bob!robert@example.org 2 123456 irc.example.org * Bob B.");
}

#[test]
fn full_rendering_begins_with_the_short_one() {
    let mask = bob();
    assert!(mask.full().starts_with(&mask.for_privmsg()));
}

#[test]
fn full_rendering_tells_hops_time_stamp_and_server_apart() {
    let mut more_hops = bob();
    more_hops.hops = 4294967295;
    assert_eq!(more_hops.full(), "bob!robert@example.org 4294967295 123456 irc.example.org * Bob B.");
    let mut later = bob();
    later.timestamp = "999".to_string();
    assert_eq!(later.full(), "bob!robert@example.org 2 999 irc.example.org * Bob B.");
    let mut elsewhere = bob();
    elsewhere.servername = "other.example".to_string();
    assert_eq!(elsewhere.full(), "bob!robert@example.org 2 123456 other.example * Bob B.");
}

#[test]
fn renderings_of_an_empty_mask_keep_the_separators() {
    let mask = Mask::new(
        String::new(),
        String::new(),
        String::new(),
        String::new(),
        0,
        String::new(),
        String::new(),
    );
    assert_eq!(mask.for_privmsg(), "!@");
    assert_eq!(mask.full(), "!@ 0   * ");
}

#[test]
fn clone_is_equal() {
    assert_eq!(bob().clone(), bob());
}
