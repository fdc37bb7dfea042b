use musicquiz::codec::{write_frame, Command};
use musicquiz::registry::{ClientHandle, Registry};

fn registry_of(names: &[&str]) -> Registry<Vec<u8>> {
    let mut r = Registry::new();
    for n in names {
        r.register(ClientHandle { connection: Vec::new(), nickname: n.to_string() });
    }
    r
}

/// Writes `frame` to every handle, failing for the positions in `broken`,
/// then prunes.
fn broadcast(r: &mut Registry<Vec<u8>>, frame: &[u8], broken: &[usize]) {
    let mut delivered = Vec::new();
    for i in 0..r.len() {
        let ok = !broken.contains(&i);
        if ok {
            r.connection_mut(i).extend_from_slice(frame);
        }
        delivered.push(ok);
    }
    r.retain_delivered(&delivered);
}

#[test]
fn register_keeps_order() {
    let r = registry_of(&["ann", "bob", "cy"]);
    assert_eq!(r.len(), 3);
    assert_eq!(r.nicknames(), vec!["ann".to_string(), "bob".to_string(), "cy".to_string()]);
}

#[test]
fn empty_registry() {
    let mut r: Registry<Vec<u8>> = Registry::new();
    assert_eq!(r.len(), 0);
    assert!(r.nicknames().is_empty());
    r.retain_delivered(&Vec::new());
    assert_eq!(r.len(), 0);
}

#[test]
fn transfer_with_one_failing_handle() {
    let mut r = registry_of(&["one", "two", "three"]);
    let payload: Vec<u8> = (1..=10).collect();
    let mut frame = Vec::new();
    write_frame(&mut frame, Command::Transfer, &payload);
    broadcast(&mut r, &frame, &[1]);

    let mut expected = vec![2, 0, 0, 0, 0, 0, 0, 0, 10];
    expected.extend_from_slice(&payload);
    assert_eq!(r.len(), 2);
    assert_eq!(r.nicknames(), vec!["one".to_string(), "three".to_string()]);
    assert_eq!(*r.connection_mut(0), expected);
    assert_eq!(*r.connection_mut(1), expected);
}

#[test]
fn size_drops_by_the_number_of_failures() {
    let mut r = registry_of(&["a", "b", "c", "d", "e"]);
    broadcast(&mut r, &[1], &[0, 3]);
    assert_eq!(r.len(), 3);
    assert_eq!(r.nicknames(), vec!["b".to_string(), "c".to_string(), "e".to_string()]);
    broadcast(&mut r, &[3], &[]);
    assert_eq!(r.len(), 3);
    assert_eq!(*r.connection_mut(2), vec![1, 3]);
    broadcast(&mut r, &[4], &[0, 1, 2]);
    assert_eq!(r.len(), 0);
}

#[test]
fn late_registration_sees_only_later_broadcasts() {
    let mut r = registry_of(&["early"]);
    broadcast(&mut r, &[1], &[]);
    r.register(ClientHandle { connection: Vec::new(), nickname: "late".to_string() });
    broadcast(&mut r, &[3], &[]);
    assert_eq!(*r.connection_mut(0), vec![1, 3]);
    assert_eq!(*r.connection_mut(1), vec![3]);
}
