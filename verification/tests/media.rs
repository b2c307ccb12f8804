use devicehub::media::{
    audio_parameters, call_id, call_info, new_ssrc, rtcp_port, ssrc_of, start_audio, start_video,
    video_parameters, Endpoints, ScreenSetup, SetupPhase, StartParameters,
};
use idevice::xpc::XPCObject;

fn ends() -> Endpoints {
    Endpoints { receiver_ip: "fd00::1".to_string(), sender_ip: "fd00::2".to_string() }
}

fn text(p: &StartParameters, key: &str) -> String {
    match p.dictionary.get(key) {
        Some(XPCObject::String(s)) => s.clone(),
        other => panic!("{key}: {other:?}"),
    }
}

fn number(p: &StartParameters, key: &str) -> u64 {
    match p.dictionary.get(key) {
        Some(XPCObject::UInt64(n)) => *n,
        other => panic!("{key}: {other:?}"),
    }
}

fn offer(p: &StartParameters) -> Vec<u8> {
    match p.dictionary.get("negotiatorOffer") {
        Some(XPCObject::Data(d)) => d.clone(),
        other => panic!("{other:?}"),
    }
}

fn options(p: &StartParameters) -> String {
    format!("{:?}", p.dictionary.get("options").unwrap())
}

#[test]
fn this_side_describes_itself() {
    let info = call_info();
    assert_eq!((info.call_id, info.client_version), (0, 1));
    assert_eq!(info.device_type, "Mac17,7");
    assert_eq!(info.framework_version, "2205.3.1");
    assert_eq!(info.os_version, "25F71");
    assert!(info.device_name.is_none() && info.audio_device_uid.is_none());
}

#[test]
fn call_ids_are_upper_case_uuids() {
    assert_eq!(
        call_id(0xa1a2a3a4_b1b2_c1c2_d1d2_d3d4d5d6d7d8),
        "A1A2A3A4-B1B2-C1C2-D1D2-D3D4D5D6D7D8"
    );
    assert_eq!(call_id(0), "00000000-0000-0000-0000-000000000000");
}

#[test]
fn a_source_id_is_the_low_half_word() {
    assert_eq!(ssrc_of(0xa1a2a3a4_b1b2_c1c2_d1d2_d3d4d5d6d7d8), 0xd5d6d7d8);
    // Chance would have to repeat itself.
    assert!((0..8).any(|_| new_ssrc() != new_ssrc()));
}

#[test]
fn rtcp_has_the_next_port() {
    assert_eq!(rtcp_port(50001), 50002);
    assert_eq!(rtcp_port(65534), 65535);
}

#[test]
fn audio_parameters_carry_what_is_asked() {
    let p = audio_parameters(&ends(), 1234, 7, Ok(vec![1, 2, 3])).unwrap();
    assert_eq!((text(&p, "receiverIP"), number(&p, "receiverPort")), ("fd00::1".into(), 1234));
    assert_eq!((text(&p, "senderIP"), number(&p, "senderPort")), ("fd00::2".into(), 50000));
    assert_eq!(text(&p, "type"), "audio");
    assert_eq!(number(&p, "clientSupportedFeatures"), 140);
    assert_eq!(offer(&p), [1, 2, 3]);
    assert!(!options(&p).contains("VideoStreamForDisplayID"));
}

#[test]
fn video_parameters_carry_what_is_asked() {
    let p = video_parameters(&ends(), 1236, 7, Ok(vec![4])).unwrap();
    assert_eq!((text(&p, "receiverIP"), number(&p, "receiverPort")), ("fd00::1".into(), 1236));
    assert_eq!((text(&p, "senderIP"), number(&p, "senderPort")), ("fd00::2".into(), 50001));
    assert_eq!(text(&p, "type"), "video");
    assert_eq!(number(&p, "clientSupportedFeatures"), 140);
    assert_eq!(offer(&p), [4]);
    assert!(options(&p).contains("VideoStreamForDisplayID"));
}

#[test]
fn a_failed_offer_is_told() {
    let failed = || Err("no room".to_string());
    assert_eq!(
        audio_parameters(&ends(), 1, 7, failed()).unwrap_err(),
        "audio offer build failed: no room"
    );
    assert_eq!(
        video_parameters(&ends(), 1, 7, failed()).unwrap_err(),
        "video offer build failed: no room"
    );
}

#[test]
fn offers_are_made_anew() {
    let a = start_audio(&ends(), 1, 7).unwrap();
    let b = start_audio(&ends(), 1, 7).unwrap();
    assert!(offer(&a).starts_with(b"bplist"));
    assert_ne!(offer(&a), offer(&b));
    let v = start_video(&ends(), 1, 7, 9).unwrap();
    assert!(offer(&v).starts_with(b"bplist"));
}

#[test]
fn audio_goes_before_video_on_one_session() {
    let (mut setup, audio) = ScreenSetup::begin(ends(), 10, 20, 9).unwrap();
    assert_eq!(setup.phase, SetupPhase::Audio);
    assert_eq!((text(&audio, "type"), number(&audio, "receiverPort")), ("audio".into(), 10));
    let session = setup.session;
    assert_eq!((session >> 76) & 0xf, 4);
    assert_eq!((session >> 62) & 3, 2);
    let video = setup.started(None).unwrap().unwrap();
    assert_eq!((text(&video, "type"), number(&video, "receiverPort")), ("video".into(), 20));
    assert_eq!(setup.session, session);
    let uuid = format!("{:?}", uuid::Uuid::from_u128(session));
    assert!(options(&audio).contains(&uuid) && options(&video).contains(&uuid));
    assert!(setup.started(None).unwrap().is_none());
    assert_eq!(setup.phase, SetupPhase::Done);
}

#[test]
fn a_stream_that_does_not_start_is_told() {
    let (mut setup, _) = ScreenSetup::begin(ends(), 10, 20, 9).unwrap();
    assert_eq!(
        setup.started(Some("busy".to_string())).unwrap_err(),
        "audio startMediaStream failed: busy"
    );
    setup.started(None).unwrap();
    assert_eq!(
        setup.started(Some("busy".to_string())).unwrap_err(),
        "video startMediaStream failed: busy"
    );
}
