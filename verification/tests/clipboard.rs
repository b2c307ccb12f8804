use devicehub::clip_sync::{
    image_preview, text_preview, Activity, ClipAction, ClipEvent, ClipStep, ClipSync, Content,
};
use devicehub::clipboard::{with_hash, ClipState, HostUpdate, TextPush};
use devicehub::pasteboard::{Entry, Snapshot};
use devicehub::picture::{encode_png, image_hash, Picture};

fn entry(uti: &str, bytes: &[u8]) -> Entry {
    Entry { uti: uti.to_string(), bytes: Some(bytes.to_vec()) }
}

fn snapshot(change_count: i64, items: Vec<Vec<Entry>>) -> Snapshot {
    Snapshot { change_count: Some(change_count), items }
}

fn text_snapshot(change_count: i64, text: &str) -> Snapshot {
    snapshot(change_count, vec![vec![entry("public.utf8-plain-text", text.as_bytes())]])
}

fn picture(shade: u8) -> Picture {
    Picture { width: 2, height: 1, rgba: vec![shade, 0, 0, 255, 0, shade, 0, 255] }
}

fn image_snapshot(change_count: i64, shade: u8) -> Snapshot {
    let png = encode_png(&picture(shade)).unwrap();
    snapshot(change_count, vec![vec![entry("public.png", &png)]])
}

fn sharing(text: Option<&str>, image: Option<u64>, count: Option<i64>) -> ClipState {
    ClipState {
        last_text: text.map(|t| t.to_string()),
        last_image: image,
        last_change_count: count,
    }
}

fn update_text(update: HostUpdate) -> Option<String> {
    match update {
        HostUpdate::Text(text) => Some(text),
        _ => None,
    }
}

#[test]
fn text_goes_by_item_and_type() {
    let mut state = sharing(None, None, None);
    let snap = snapshot(
        1,
        vec![
            vec![entry("public.html", b"<b>")],
            vec![
                entry("public.text", b"third"),
                entry("public.plain-text", b"second"),
                entry("public.plain-text", b"shadowed"),
            ],
            vec![entry("public.utf8-plain-text", b"later item")],
        ],
    );
    assert_eq!(update_text(state.apply_device_snapshot(&snap)).unwrap(), "second");
    assert_eq!(state.last_change_count, Some(1));
    assert!(state.last_text.is_none());
}

#[test]
fn text_that_is_not_utf8_or_not_there_is_passed_over() {
    let mut state = sharing(None, None, None);
    let promised = Entry { uti: "public.utf8-plain-text".to_string(), bytes: None };
    let snap = snapshot(
        1,
        vec![vec![
            promised,
            entry("public.plain-text", &[0xff, 0xfe]),
            entry("public.text", "grüße".as_bytes()),
        ]],
    );
    assert_eq!(update_text(state.apply_device_snapshot(&snap)).unwrap(), "grüße");
}

#[test]
fn a_seen_counter_is_ignored() {
    let mut state = sharing(None, None, Some(4));
    let update = state.apply_device_snapshot(&text_snapshot(4, "new"));
    assert!(matches!(update, HostUpdate::Nothing));
    let update = state.apply_device_snapshot(&text_snapshot(5, "new"));
    assert_eq!(update_text(update).unwrap(), "new");
}

#[test]
fn text_that_is_shared_is_no_news() {
    let mut state = sharing(Some("same"), None, Some(4));
    let update = state.apply_device_snapshot(&text_snapshot(5, "same"));
    assert!(matches!(update, HostUpdate::Nothing));
    assert_eq!(state.last_change_count, Some(5));
}

#[test]
fn an_image_comes_after_text() {
    let mut state = sharing(None, None, None);
    match state.apply_device_snapshot(&image_snapshot(1, 9)) {
        HostUpdate::Image { picture: p, hash } => {
            assert_eq!((p.width, p.height), (2, 1));
            assert_eq!(p.rgba, picture(9).rgba);
            assert_eq!(hash, image_hash(&p.rgba));
        }
        other => panic!("{other:?}"),
    }
    let mut both = image_snapshot(2, 9);
    both.items.push(vec![entry("public.text", b"words")]);
    assert_eq!(update_text(state.apply_device_snapshot(&both)).unwrap(), "words");
}

#[test]
fn an_image_that_is_shared_or_undecodable_is_no_news() {
    let mut state = sharing(None, Some(image_hash(&picture(9).rgba)), None);
    let update = state.apply_device_snapshot(&image_snapshot(1, 9));
    assert!(matches!(update, HostUpdate::Nothing));
    let noise = snapshot(2, vec![vec![entry("public.jpeg", b"noise")]]);
    assert!(matches!(state.apply_device_snapshot(&noise), HostUpdate::Nothing));
    let empty = snapshot(3, vec![]);
    assert!(matches!(state.apply_device_snapshot(&empty), HostUpdate::Nothing));
}

#[test]
fn decisions_take_the_decoded_picture() {
    let state = sharing(Some("t"), Some(image_hash(&picture(1).rgba)), None);
    assert!(matches!(state.image_update(None), HostUpdate::Nothing));
    assert!(matches!(state.image_update(Some(picture(1))), HostUpdate::Nothing));
    assert!(matches!(state.image_update(Some(picture(2))), HostUpdate::Image { .. }));
    assert!(matches!(state.text_update("t".to_string()), HostUpdate::Nothing));
    assert!(matches!(state.text_update("u".to_string()), HostUpdate::Text(_)));
    assert!(with_hash(3, None).is_none());
    let push = with_hash(3, Some(vec![1])).unwrap();
    assert_eq!((push.hash, push.png), (3, vec![1]));
}

#[test]
fn the_hosts_text_is_pushed_once() {
    let state = sharing(Some("old"), None, None);
    assert!(matches!(state.text_push(None), TextPush::NoText));
    assert!(matches!(state.text_push(Some(String::new())), TextPush::NoText));
    assert!(matches!(state.text_push(Some("old".to_string())), TextPush::Settled));
    match state.text_push(Some("new".to_string())) {
        TextPush::Send(text) => assert_eq!(text, "new"),
        other => panic!("{other:?}"),
    }
}

#[test]
fn the_hosts_image_is_pushed_once() {
    let hash = image_hash(&picture(9).rgba);
    let state = sharing(None, None, None);
    let push = state.image_push(&Some(picture(9))).unwrap();
    assert_eq!(push.hash, hash);
    assert_eq!(push.png, encode_png(&picture(9)).unwrap());
    assert!(sharing(None, Some(hash), None).image_push(&Some(picture(9))).is_none());
    assert!(state.image_push(&None).is_none());
    let broken = Picture { width: 9, height: 9, rgba: vec![0; 4] };
    assert!(state.image_push(&Some(broken)).is_none());
}

#[test]
fn text_and_image_exclude_each_other() {
    let mut state = sharing(Some("t"), Some(1), Some(2));
    state.share_image(5);
    assert!(state.last_text.is_none() && state.last_image == Some(5));
    state.share_text("u".to_string());
    assert!(state.last_text.as_deref() == Some("u") && state.last_image.is_none());
    state.seed_count(&None);
    assert_eq!(state.last_change_count, None);
    state.seed_count(&Some(text_snapshot(8, "x")));
    assert_eq!(state.last_change_count, Some(8));
}

fn step(sync: &mut ClipSync, event: ClipEvent) -> ClipStep {
    sync.step(event).expect("an event in turn")
}

/// Connect with this on the host and the device's counter at 1.
fn connected(text: Option<&str>, image: Option<Picture>) -> ClipSync {
    let (mut sync, first) = ClipSync::new();
    assert!(matches!(first, ClipAction::ReadHostText));
    let a = step(&mut sync, ClipEvent::HostText(text.map(|t| t.to_string())));
    assert!(matches!(a.action, ClipAction::ReadHostImage));
    let a = step(&mut sync, ClipEvent::HostImage(image));
    assert!(matches!(a.action, ClipAction::Pull));
    let a = step(&mut sync, ClipEvent::Pulled(Some(text_snapshot(1, "on the device"))));
    assert!(matches!(a.action, ClipAction::Subscribe));
    let a = step(&mut sync, ClipEvent::Subscribed);
    assert!(matches!(a.action, ClipAction::Wait));
    sync
}

fn is_text(activity: &Option<Activity>, device: bool, expected: &str) -> bool {
    match activity {
        Some(Activity { from_device, content: Content::Text(text) }) => {
            *from_device == device && text == expected
        }
        _ => false,
    }
}

#[test]
fn connecting_copies_nothing() {
    let mut sync = connected(Some("on the host"), Some(picture(3)));
    let a = step(&mut sync, ClipEvent::Tick);
    assert!(matches!(a.action, ClipAction::Pull));
    let a = step(&mut sync, ClipEvent::Pulled(Some(text_snapshot(1, "on the device"))));
    assert!(matches!(a.action, ClipAction::ReadHostText));
    let a = step(&mut sync, ClipEvent::HostText(Some("on the host".to_string())));
    assert!(matches!(a.action, ClipAction::Wait));
}

#[test]
fn connecting_copies_no_image_either() {
    let mut sync = connected(Some(""), Some(picture(3)));
    step(&mut sync, ClipEvent::Tick);
    step(&mut sync, ClipEvent::Pulled(Some(text_snapshot(1, "on the device"))));
    let a = step(&mut sync, ClipEvent::HostText(Some(String::new())));
    assert!(matches!(a.action, ClipAction::ReadHostImage));
    let a = step(&mut sync, ClipEvent::HostImage(Some(picture(3))));
    assert!(matches!(a.action, ClipAction::Wait));
}

#[test]
fn the_host_is_seeded_with_text_or_an_image() {
    let mut state = sharing(Some("t"), Some(1), None);
    state.seed_image(Some(5));
    assert!(state.last_text.as_deref() == Some("t") && state.last_image.is_none());
    let mut state = sharing(Some(""), None, None);
    state.seed_image(Some(5));
    assert!(state.last_text.is_none() && state.last_image == Some(5));
    let mut state = sharing(None, None, None);
    state.seed_image(None);
    assert!(state.last_text.is_none() && state.last_image.is_none());
}

#[test]
fn device_text_reaches_the_host_and_stays() {
    let mut sync = connected(None, None);
    let a = step(&mut sync, ClipEvent::Pushed(Some(text_snapshot(2, "hi"))));
    match a.action {
        ClipAction::WriteHostText(text) => assert_eq!(text, "hi"),
        other => panic!("{other:?}"),
    }
    let a = step(&mut sync, ClipEvent::HostWritten(true));
    assert!(matches!(a.action, ClipAction::Wait));
    assert!(is_text(&a.activity, true, "hi"));
    step(&mut sync, ClipEvent::Tick);
    let a = step(&mut sync, ClipEvent::Pulled(Some(text_snapshot(2, "hi"))));
    assert!(matches!(a.action, ClipAction::ReadHostText));
    let a = step(&mut sync, ClipEvent::HostText(Some("hi".to_string())));
    assert!(matches!(a.action, ClipAction::Wait));
    assert!(a.activity.is_none());
}

#[test]
fn host_text_reaches_the_device_and_stays() {
    let mut sync = connected(None, None);
    step(&mut sync, ClipEvent::Tick);
    step(&mut sync, ClipEvent::Pulled(Some(text_snapshot(1, "on the device"))));
    let a = step(&mut sync, ClipEvent::HostText(Some("yo".to_string())));
    match a.action {
        ClipAction::WriteDeviceText(text) => assert_eq!(text, "yo"),
        other => panic!("{other:?}"),
    }
    let a = step(&mut sync, ClipEvent::DeviceWritten(true));
    assert!(matches!(a.action, ClipAction::Pull));
    assert!(is_text(&a.activity, false, "yo"));
    let a = step(&mut sync, ClipEvent::Pulled(Some(text_snapshot(2, "yo"))));
    assert!(matches!(a.action, ClipAction::Wait));
    let a = step(&mut sync, ClipEvent::Pushed(Some(text_snapshot(2, "yo"))));
    assert!(matches!(a.action, ClipAction::Wait));
    let a = step(&mut sync, ClipEvent::Pushed(Some(text_snapshot(3, "yo"))));
    assert!(matches!(a.action, ClipAction::Wait));
}

#[test]
fn images_cross_in_both_directions() {
    let mut sync = connected(None, None);
    let a = step(&mut sync, ClipEvent::Pushed(Some(image_snapshot(2, 5))));
    match a.action {
        ClipAction::WriteHostImage(p) => assert_eq!(p.rgba, picture(5).rgba),
        other => panic!("{other:?}"),
    }
    let a = step(&mut sync, ClipEvent::HostWritten(true));
    assert!(matches!(
        a.activity,
        Some(Activity { from_device: true, content: Content::Image { width: 2, height: 1 } })
    ));
    step(&mut sync, ClipEvent::Tick);
    step(&mut sync, ClipEvent::Pulled(Some(image_snapshot(2, 5))));
    step(&mut sync, ClipEvent::HostText(None));
    let a = step(&mut sync, ClipEvent::HostImage(Some(picture(5))));
    assert!(matches!(a.action, ClipAction::Wait));
    step(&mut sync, ClipEvent::Tick);
    step(&mut sync, ClipEvent::Pulled(Some(image_snapshot(2, 5))));
    step(&mut sync, ClipEvent::HostText(Some(String::new())));
    let a = step(&mut sync, ClipEvent::HostImage(Some(picture(6))));
    match a.action {
        ClipAction::WriteDeviceImage(png) => {
            assert_eq!(png, encode_png(&picture(6)).unwrap())
        }
        other => panic!("{other:?}"),
    }
    let a = step(&mut sync, ClipEvent::DeviceWritten(true));
    assert!(matches!(
        a.activity,
        Some(Activity { from_device: false, content: Content::Image { width: 2, height: 1 } })
    ));
    let a = step(&mut sync, ClipEvent::Pulled(None));
    assert!(matches!(a.action, ClipAction::Wait));
    // Even under an unknown counter the echo is recognised by its hash.
    let a = step(&mut sync, ClipEvent::Pushed(Some(image_snapshot(3, 6))));
    assert!(matches!(a.action, ClipAction::Wait));
}

#[test]
fn a_failed_write_is_tried_again_with_the_next_change() {
    let mut sync = connected(None, None);
    step(&mut sync, ClipEvent::Pushed(Some(text_snapshot(2, "hi"))));
    let a = step(&mut sync, ClipEvent::HostWritten(false));
    assert!(matches!(a.action, ClipAction::Wait));
    assert!(a.activity.is_none());
    let a = step(&mut sync, ClipEvent::Pushed(Some(text_snapshot(2, "hi"))));
    assert!(matches!(a.action, ClipAction::Wait));
    let a = step(&mut sync, ClipEvent::Pushed(Some(text_snapshot(3, "hi"))));
    assert!(matches!(a.action, ClipAction::WriteHostText(_)));
}

#[test]
fn a_lost_push_adopts_the_counter() {
    let mut sync = connected(None, None);
    let a = step(&mut sync, ClipEvent::Pushed(None));
    assert!(matches!(a.action, ClipAction::Reconnect));
    let a = step(&mut sync, ClipEvent::Reconnected(true));
    assert!(matches!(a.action, ClipAction::Subscribe));
    let a = step(&mut sync, ClipEvent::Subscribed);
    assert!(matches!(a.action, ClipAction::Pull));
    let a = step(&mut sync, ClipEvent::Pulled(Some(text_snapshot(9, "meanwhile"))));
    assert!(matches!(a.action, ClipAction::Wait));
    let a = step(&mut sync, ClipEvent::Pushed(Some(text_snapshot(9, "meanwhile"))));
    assert!(matches!(a.action, ClipAction::Wait));
}

#[test]
fn other_failures_only_subscribe() {
    let mut sync = connected(None, None);
    step(&mut sync, ClipEvent::Tick);
    let a = step(&mut sync, ClipEvent::Pulled(None));
    assert!(matches!(a.action, ClipAction::Reconnect));
    let a = step(&mut sync, ClipEvent::Reconnected(true));
    assert!(matches!(a.action, ClipAction::Subscribe));
    let a = step(&mut sync, ClipEvent::Subscribed);
    assert!(matches!(a.action, ClipAction::Wait));
    step(&mut sync, ClipEvent::Tick);
    step(&mut sync, ClipEvent::Pulled(Some(text_snapshot(1, "on the device"))));
    step(&mut sync, ClipEvent::HostText(Some("yo".to_string())));
    let a = step(&mut sync, ClipEvent::DeviceWritten(false));
    assert!(matches!(a.action, ClipAction::Reconnect));
    assert!(a.activity.is_none());
    let a = step(&mut sync, ClipEvent::Reconnected(false));
    assert!(matches!(a.action, ClipAction::Wait));
    // The text is still news.
    step(&mut sync, ClipEvent::Tick);
    step(&mut sync, ClipEvent::Pulled(Some(text_snapshot(1, "on the device"))));
    let a = step(&mut sync, ClipEvent::HostText(Some("yo".to_string())));
    assert!(matches!(a.action, ClipAction::WriteDeviceText(_)));
}

#[test]
fn events_out_of_turn_change_nothing() {
    let mut sync = connected(None, None);
    assert!(sync.step(ClipEvent::HostText(Some("x".to_string()))).is_none());
    assert!(sync.step(ClipEvent::DeviceWritten(true)).is_none());
    assert!(sync.step(ClipEvent::Subscribed).is_none());
    let a = step(&mut sync, ClipEvent::Tick);
    assert!(matches!(a.action, ClipAction::Pull));
}

#[test]
fn images_have_a_preview() {
    assert_eq!(image_preview(1170, 2532), "🖼 image 1170×2532");
    assert_eq!(image_preview(0, 9), "🖼 image 0×9");
}

#[test]
fn texts_are_shown_by_their_first_characters() {
    assert_eq!(text_preview("grüße"), "grüße");
    let long = "ü".repeat(50);
    assert_eq!(text_preview(&long), "ü".repeat(48));
    assert_eq!(text_preview(&"x".repeat(48)), "x".repeat(48));
}
