use devicehub::session::{ends_session, Course, SessionStep, SessionTask};

/// The steps of a session in which these fail, up to its end or its complaint.
fn steps(failing: &[SessionStep]) -> (Vec<SessionStep>, Option<String>) {
    let mut course = Course::new();
    let mut seen = Vec::new();
    while course.step() != SessionStep::Ended {
        let step = course.step();
        seen.push(step);
        let failure = failing.contains(&step).then(|| "why".to_string());
        if let Err(message) = course.finished(failure) {
            assert_eq!(course.step(), SessionStep::Ended);
            return (seen, Some(message));
        }
    }
    (seen, None)
}

const ALL: [SessionStep; 14] = [
    SessionStep::FindDevice,
    SessionStep::OpenProxy,
    SessionStep::OpenTunnel,
    SessionStep::ConnectRsd,
    SessionStep::ShakeHands,
    SessionStep::StartMedia,
    SessionStep::ConnectTouch,
    SessionStep::ConnectKeys,
    SessionStep::ConnectPasteboard,
    SessionStep::ConnectOrientation,
    SessionStep::StartDecoder,
    SessionStep::Run,
    SessionStep::StopMedia,
    SessionStep::StopDecoder,
];

#[test]
fn the_course_is_followed() {
    assert_eq!(steps(&[]), (ALL.to_vec(), None));
}

#[test]
fn extras_and_stopping_may_fail() {
    let failing = [
        SessionStep::ConnectPasteboard,
        SessionStep::ConnectOrientation,
        SessionStep::Run,
        SessionStep::StopMedia,
        SessionStep::StopDecoder,
    ];
    assert_eq!(steps(&failing), (ALL.to_vec(), None));
}

#[test]
fn what_the_session_needs_may_not_fail() {
    let complaints = [
        (SessionStep::FindDevice, "why"),
        (SessionStep::OpenProxy, "no core device proxy: why"),
        (SessionStep::OpenTunnel, "no software tunnel: why"),
        (SessionStep::ConnectRsd, "RSD connect failed: why"),
        (SessionStep::ShakeHands, "RSD handshake failed: why"),
        (SessionStep::StartMedia, "why"),
        (SessionStep::ConnectTouch, "no universalhidservice: why"),
        (SessionStep::ConnectKeys, "no hid.indigo: why"),
        (SessionStep::StartDecoder, "failed to spawn ffmpeg: why"),
    ];
    for (step, expected) in complaints {
        let (seen, message) = steps(&[step]);
        assert_eq!(*seen.last().unwrap(), step);
        assert_eq!(message.unwrap(), expected);
    }
}

#[test]
fn the_user_is_told() {
    let mut course = Course::new();
    let mut told = Vec::new();
    loop {
        told.extend(course.status());
        if course.step() == SessionStep::Ended {
            break;
        }
        course.finished(None).unwrap();
    }
    assert_eq!(
        told,
        [
            "connecting to device...",
            "starting screen media stream...",
            "connecting HID...",
            "connected",
            "stopping...",
        ]
    );
}

#[test]
fn the_end_is_final() {
    let mut course = Course::new();
    course.finished(Some("gone".to_string())).unwrap_err();
    course.finished(None).unwrap();
    assert_eq!(course.step(), SessionStep::Ended);
    assert!(course.status().is_none());
}

#[test]
fn only_the_input_loop_ends_a_session() {
    for task in [
        SessionTask::ReceiveVideo,
        SessionTask::FeedDecoder,
        SessionTask::ReadDecoder,
        SessionTask::WatchDecoder,
        SessionTask::WatchStalls,
        SessionTask::ReceiveRtcp,
        SessionTask::SendRtcp,
        SessionTask::SyncClipboard,
    ] {
        assert!(!ends_session(task));
    }
    assert!(ends_session(SessionTask::TakeInput));
}
