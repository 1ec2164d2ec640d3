use bout_tracker::bout::Bout;
use bout_tracker::registry::{Arguments, InternalCommand};
use bout_tracker::response::ResponseType;
use bout_tracker::wrapper::Wrapper;

fn provider_bout(id: usize) -> Bout {
    Bout::new(
        id,
        String::from("Winter Cup"),
        1609502400,
        vec![String::from("m1"), String::from("m2"), String::from("m3")],
        String::from("Alpha"),
        String::from("Beta"),
    )
}

#[test]
fn adding_an_alias_confirms_success() {
    let mut w = Wrapper::new();
    let r = w.add_command(String::from("!spirit"), InternalCommand::Insert(10, 20));
    assert_eq!(r.response_type, ResponseType::Success);
    assert_eq!(r.title, "Added command");
    assert_eq!(r.contents, "Successfully added command `!spirit`.");
    assert_eq!(w.commands.get("!spirit"), Some(&InternalCommand::Insert(10, 20)));
}

#[test]
fn removing_an_insert_alias_drops_its_tracked_state() {
    let mut w = Wrapper::new();
    w.add_command(String::from("!spirit"), InternalCommand::Insert(10, 20));
    w.processor.insert(10, 20, Ok(provider_bout(1)), Some(Arguments::Insert(String::from("nix"), 2)));
    assert!(w.processor.get_bout(10, 20).is_some());

    let r = w.remove_command("!spirit");
    assert_eq!(r.response_type, ResponseType::Success);
    assert_eq!(r.title, "Removed command");
    assert_eq!(r.contents, "Successfully removed command `!spirit`.");
    assert_eq!(w.commands.get("!spirit"), None);
    assert!(w.processor.get_bout(10, 20).is_none());

    // re-registered and invoked again, the pair starts fresh
    w.add_command(String::from("!spirit"), InternalCommand::Insert(10, 20));
    w.processor.insert(10, 20, Ok(provider_bout(1)), None);
    let slots = w.processor.get_bout(10, 20).unwrap().map_slots();
    assert!(slots.iter().all(|slot| slot.1.is_none()));
}

#[test]
fn removing_a_remove_alias_keeps_tracked_state() {
    let mut w = Wrapper::new();
    w.add_command(String::from("!clear"), InternalCommand::Remove(10, 20));
    w.processor.insert(10, 20, Ok(provider_bout(1)), None);

    let r = w.remove_command("!clear");
    assert_eq!(r.response_type, ResponseType::Success);
    assert!(w.processor.get_bout(10, 20).is_some());
}

#[test]
fn removing_an_unknown_alias_warns() {
    let mut w = Wrapper::new();
    let r = w.remove_command("!nothing");
    assert_eq!(r.response_type, ResponseType::Warning);
    assert_eq!(r.title, "Command not found");
    assert_eq!(r.contents, "The command `!nothing` could not be found.");
}
