use ws_ide::clients::{event_handler, Event};

#[test]
fn connected_clients_are_added_at_the_end() {
    let mut active: Vec<u32> = vec![];
    assert_eq!(event_handler(&mut active, &Event::ClientConnected(4)), None);
    assert_eq!(event_handler(&mut active, &Event::ClientConnected(2)), None);
    assert_eq!(active, vec![4, 2]);
}

#[test]
fn a_client_that_goes_leaves_at_its_first_place() {
    let mut active: Vec<u32> = vec![1, 2, 3, 2];
    assert_eq!(event_handler(&mut active, &Event::ClientDisconnected(2)), None);
    assert_eq!(active, vec![1, 3, 2]);
    event_handler(&mut active, &Event::ClientDisconnected(9));
    assert_eq!(active, vec![1, 3, 2]);
}

#[test]
fn messages_change_nothing() {
    let mut active: Vec<u32> = vec![1];
    assert_eq!(event_handler(&mut active, &Event::MessageReceived(1, "hi".to_string())), None);
    assert_eq!(active, vec![1]);
}

#[test]
fn load_terminal_names_the_user() {
    let mut active: Vec<u32> = vec![1];
    let load = event_handler(&mut active, &Event::LoadTerminal(1, "alice@x.com".to_string()));
    assert_eq!(load, Some((1, "alice@x.com".to_string())));
    assert_eq!(active, vec![1]);
}
