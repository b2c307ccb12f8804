use devicehub::devices::{list_devices, Attached, ConnKind, DeviceInfo, NameCache};
use devicehub::manager::{ControlCmd, Manager, ManagerAction, ManagerEvent};

fn attached(udid: &str, connection: ConnKind) -> Attached {
    Attached { udid: udid.to_string(), connection }
}

fn devices(udids: &[&str]) -> ManagerEvent {
    ManagerEvent::Listed(
        udids
            .iter()
            .map(|udid| DeviceInfo {
                udid: udid.to_string(),
                name: "phone".to_string(),
                connection: ConnKind::Usb,
            })
            .collect(),
    )
}

fn connect(udid: &str) -> ManagerEvent {
    ManagerEvent::Control(Some(ControlCmd::Connect(udid.to_string())))
}

fn refresh() -> ManagerEvent {
    ManagerEvent::Control(Some(ControlCmd::Refresh))
}

fn step(manager: &mut Manager, event: ManagerEvent) -> ManagerAction {
    manager.step(event).expect("an event in turn")
}

fn starts(action: &ManagerAction, udid: &str) -> bool {
    matches!(action, ManagerAction::Start(u) if u == udid)
}

#[test]
fn names_are_asked_for_once() {
    let mut names = NameCache::new();
    let devs = vec![
        attached("a", ConnKind::Usb),
        attached("b", ConnKind::Network),
        attached("a", ConnKind::Other),
    ];
    assert_eq!(list_devices(&names, &devs).unwrap_err(), 0);
    names.learn(&devs[0].udid, Some("Ann's phone".to_string()));
    assert_eq!(list_devices(&names, &devs).unwrap_err(), 1);
    names.learn(&devs[1].udid, None);
    let list = list_devices(&names, &devs).unwrap();
    let shown: Vec<(&str, &str, ConnKind)> =
        list.iter().map(|d| (d.udid.as_str(), d.name.as_str(), d.connection)).collect();
    assert_eq!(
        shown,
        [
            ("a", "Ann's phone", ConnKind::Usb),
            ("b", "b", ConnKind::Network),
            ("a", "Ann's phone", ConnKind::Other),
        ]
    );
    // What is known stays.
    names.learn(&devs[1].udid, Some("late".to_string()));
    assert_eq!(names.get(&"b".to_string()).unwrap(), "b");
    assert!(names.get(&"c".to_string()).is_none());
}

#[test]
fn nothing_attached_lists_nothing() {
    assert!(list_devices(&NameCache::new(), &vec![]).unwrap().is_empty());
}

#[test]
fn a_given_device_is_connected_to() {
    let (mut manager, first) = Manager::new(Some("x".to_string()));
    assert!(matches!(first, ManagerAction::List));
    assert!(starts(&step(&mut manager, devices(&["a"])), "x"));
    assert_eq!(manager.active().unwrap(), "x");
}

#[test]
fn the_first_device_is_picked_as_soon_as_there_is_one() {
    let (mut manager, _) = Manager::new(None);
    assert!(matches!(step(&mut manager, devices(&[])), ManagerAction::Idle));
    assert!(manager.active().is_none());
    assert!(matches!(step(&mut manager, ManagerEvent::Rescan), ManagerAction::List));
    assert!(starts(&step(&mut manager, devices(&["a", "b"])), "a"));
}

#[test]
fn an_ended_session_leaves_it_idle() {
    let (mut manager, _) = Manager::new(None);
    step(&mut manager, devices(&["a"]));
    let ended = ManagerEvent::Ended(Some("cable pulled".to_string()));
    assert!(matches!(step(&mut manager, ended), ManagerAction::List));
    assert_eq!(manager.error().unwrap(), "cable pulled");
    assert!(matches!(step(&mut manager, devices(&["a"])), ManagerAction::Idle));
    assert!(manager.active().is_none());
    assert!(matches!(step(&mut manager, refresh()), ManagerAction::List));
    assert!(matches!(step(&mut manager, devices(&["a"])), ManagerAction::Idle));
    assert!(matches!(step(&mut manager, connect("a")), ManagerAction::List));
    assert!(starts(&step(&mut manager, devices(&[])), "a"));
    assert!(manager.error().is_none());
}

#[test]
fn no_device_is_picked_after_one_was_asked_for() {
    let (mut manager, _) = Manager::new(None);
    step(&mut manager, devices(&[]));
    step(&mut manager, connect("b"));
    assert!(starts(&step(&mut manager, devices(&["a"])), "b"));
    step(&mut manager, ManagerEvent::Ended(None));
    assert!(matches!(step(&mut manager, devices(&["a"])), ManagerAction::Idle));
    assert!(manager.active().is_none());
}

#[test]
fn a_switch_stops_first() {
    let (mut manager, _) = Manager::new(Some("a".to_string()));
    step(&mut manager, devices(&["a", "b"]));
    assert!(matches!(step(&mut manager, connect("b")), ManagerAction::Stop));
    assert_eq!(manager.active().unwrap(), "a");
    assert!(matches!(step(&mut manager, ManagerEvent::Stopped), ManagerAction::List));
    assert!(manager.active().is_none());
    assert!(starts(&step(&mut manager, devices(&["a", "b"])), "b"));
}

#[test]
fn the_session_goes_on_through_refreshes() {
    let (mut manager, _) = Manager::new(Some("a".to_string()));
    step(&mut manager, devices(&["a"]));
    assert!(matches!(step(&mut manager, connect("a")), ManagerAction::Attend));
    assert!(matches!(step(&mut manager, refresh()), ManagerAction::List));
    assert!(matches!(step(&mut manager, devices(&["b"])), ManagerAction::Attend));
    assert_eq!(manager.active().unwrap(), "a");
}

#[test]
fn quitting_ends_the_session() {
    for quit in [Some(ControlCmd::Quit), None] {
        let (mut manager, _) = Manager::new(Some("a".to_string()));
        step(&mut manager, devices(&["a"]));
        assert!(matches!(
            step(&mut manager, ManagerEvent::Control(quit)),
            ManagerAction::Stop
        ));
        assert!(matches!(step(&mut manager, ManagerEvent::Stopped), ManagerAction::Exit));
        assert!(manager.active().is_none());
        assert!(manager.step(ManagerEvent::Rescan).is_none());
    }
    let (mut manager, _) = Manager::new(None);
    step(&mut manager, devices(&[]));
    assert!(matches!(
        step(&mut manager, ManagerEvent::Control(None)),
        ManagerAction::Exit
    ));
}

#[test]
fn events_out_of_turn_are_refused() {
    let (mut manager, _) = Manager::new(None);
    assert!(manager.step(ManagerEvent::Stopped).is_none());
    assert!(manager.step(connect("a")).is_none());
    assert!(starts(&step(&mut manager, devices(&["a"])), "a"));
}
