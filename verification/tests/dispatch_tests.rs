use ticketbot::dispatch::{dispatch, lookup_command, parse_command, Command};
use ticketbot::store::{StorageError, TicketStore};

fn ready_store() -> TicketStore {
    let mut s = TicketStore::new();
    s.setup_schema().unwrap();
    s
}

#[test]
fn ping_replies_pong_and_touches_no_store() {
    let mut s = ready_store();
    let out = dispatch(&mut s, "~ping");
    assert_eq!(out.reply, Some("Pong!".to_string()));
    assert!(out.listing.is_none());
    assert!(out.error.is_none());
    assert_eq!(s.count().unwrap(), 0);
}

#[test]
fn ping_with_trailing_text_still_pongs() {
    let mut s = ready_store();
    let out = dispatch(&mut s, "~ping please");
    assert_eq!(out.reply, Some("Pong!".to_string()));
    let out2 = dispatch(&mut s, "~ping\textra\nlines");
    assert_eq!(out2.reply, Some("Pong!".to_string()));
}

#[test]
fn unregistered_command_gets_no_reply_and_no_error() {
    let mut s = ready_store();
    let out = dispatch(&mut s, "~foo");
    assert!(out.reply.is_none());
    assert!(out.listing.is_none());
    assert!(out.error.is_none());
    assert_eq!(s.count().unwrap(), 0);
}

#[test]
fn unprefixed_text_is_ignored() {
    let mut s = ready_store();
    for text in ["ping", "", "hello there", " ~ping"] {
        let out = dispatch(&mut s, text);
        assert!(out.reply.is_none());
        assert!(out.listing.is_none());
        assert!(out.error.is_none());
    }
}

#[test]
fn matching_is_case_sensitive() {
    let mut s = ready_store();
    let out = dispatch(&mut s, "~Ping");
    assert!(out.reply.is_none());
    assert!(out.error.is_none());
}

#[test]
fn create_inserts_sample_ticket_and_confirms() {
    let mut s = ready_store();
    let out = dispatch(&mut s, "~create");
    assert_eq!(out.reply, Some("Creating ticket...".to_string()));
    assert!(out.error.is_none());
    let all = s.list_all().unwrap();
    assert_eq!(all.len(), 1);
    assert_eq!(all[0].owner, "Unassigned");
    assert_eq!(all[0].description, "Test ticket");
    assert_eq!(all[0].status, "New");
}

#[test]
fn test_is_an_alias_for_create() {
    let mut s = ready_store();
    let out = dispatch(&mut s, "~test");
    assert_eq!(out.reply, Some("Creating ticket...".to_string()));
    assert_eq!(s.count().unwrap(), 1);
}

#[test]
fn list_acknowledges_and_hands_back_the_listing() {
    let mut s = ready_store();
    dispatch(&mut s, "~create");
    dispatch(&mut s, "~create");
    let out = dispatch(&mut s, "~list");
    assert_eq!(out.reply, Some("Listing Tickets...".to_string()));
    assert!(out.error.is_none());
    let listing = out.listing.unwrap();
    assert_eq!(listing.len(), 2);
    assert_ne!(listing[0].id, listing[1].id);
    assert_eq!(listing[0].owner, "Unassigned");
}

#[test]
fn list_on_empty_store_is_no_error() {
    let mut s = ready_store();
    let out = dispatch(&mut s, "~list");
    assert_eq!(out.reply, Some("Listing Tickets...".to_string()));
    assert!(out.error.is_none());
    assert!(out.listing.unwrap().is_empty());
}

#[test]
fn storage_failure_is_reported_and_next_command_still_served() {
    let mut s = ready_store();
    s.take_offline();
    let out = dispatch(&mut s, "~list");
    assert!(out.reply.is_none());
    assert!(out.listing.is_none());
    assert_eq!(out.error, Some(StorageError::Unavailable));
    let out2 = dispatch(&mut s, "~create");
    assert_eq!(out2.error, Some(StorageError::Unavailable));
    let out3 = dispatch(&mut s, "~ping");
    assert_eq!(out3.reply, Some("Pong!".to_string()));
    assert!(out3.error.is_none());
}

#[test]
fn missing_schema_failure_is_reported() {
    let mut s = TicketStore::new();
    let out = dispatch(&mut s, "~create");
    assert!(out.reply.is_none());
    assert_eq!(out.error, Some(StorageError::SchemaMissing));
}

#[test]
fn parse_command_extracts_the_name() {
    assert_eq!(parse_command("~ping"), Some("ping"));
    assert_eq!(parse_command("~list now"), Some("list"));
    assert_eq!(parse_command("~"), Some(""));
    assert_eq!(parse_command("~  x"), Some(""));
    assert_eq!(parse_command("ping"), None);
    assert_eq!(parse_command(""), None);
    assert_eq!(parse_command("say ~ping"), None);
}

#[test]
fn lookup_command_matches_the_registry() {
    assert_eq!(lookup_command("ping"), Some(Command::Ping));
    assert_eq!(lookup_command("list"), Some(Command::List));
    assert_eq!(lookup_command("test"), Some(Command::Create));
    assert_eq!(lookup_command("create"), Some(Command::Create));
    assert_eq!(lookup_command("foo"), None);
    assert_eq!(lookup_command(""), None);
    assert_eq!(lookup_command("PING"), None);
}
