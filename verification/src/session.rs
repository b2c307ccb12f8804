//! The course of a session: what is set up in which order, what it can do without,
//! and what is told along the way.
use vstd::prelude::*;
use vstd::string::StringExecFns;

verus! {

/// How long the HID surfaces take to accept a client once the media stream is up,
/// in milliseconds.
pub const HID_SETTLE_MS: u64 = 300;

/// A step of a session.
#[derive(Debug, Clone, Copy, PartialEq, Eq, Structural)]
pub enum SessionStep {
    FindDevice,
    OpenProxy,
    OpenTunnel,
    ConnectRsd,
    ShakeHands,
    /// Start the screen media stream, which also opens the way to the HID surfaces,
    /// and give them time to settle.
    StartMedia,
    ConnectTouch,
    ConnectKeys,
    ConnectPasteboard,
    ConnectOrientation,
    StartDecoder,
    /// Run until told to stop.
    Run,
    StopMedia,
    StopDecoder,
    Ended,
}

/// The steps in order.
pub open spec fn course() -> Seq<SessionStep> {
    seq![
        SessionStep::FindDevice,
        SessionStep::OpenProxy,
        SessionStep::OpenTunnel,
        SessionStep::ConnectRsd,
        SessionStep::ShakeHands,
        SessionStep::StartMedia,
        SessionStep::ConnectTouch,
        SessionStep::ConnectKeys,
        SessionStep::ConnectPasteboard,
        SessionStep::ConnectOrientation,
        SessionStep::StartDecoder,
        SessionStep::Run,
        SessionStep::StopMedia,
        SessionStep::StopDecoder,
        SessionStep::Ended,
    ]
}

/// The place of a step in the course.
pub open spec fn place(step: SessionStep) -> int {
    match step {
        SessionStep::FindDevice => 0,
        SessionStep::OpenProxy => 1,
        SessionStep::OpenTunnel => 2,
        SessionStep::ConnectRsd => 3,
        SessionStep::ShakeHands => 4,
        SessionStep::StartMedia => 5,
        SessionStep::ConnectTouch => 6,
        SessionStep::ConnectKeys => 7,
        SessionStep::ConnectPasteboard => 8,
        SessionStep::ConnectOrientation => 9,
        SessionStep::StartDecoder => 10,
        SessionStep::Run => 11,
        SessionStep::StopMedia => 12,
        SessionStep::StopDecoder => 13,
        SessionStep::Ended => 14,
    }
}

/// The step after a step; the end is followed by itself.
pub open spec fn following(step: SessionStep) -> SessionStep {
    if step is Ended {
        step
    } else {
        course()[place(step) + 1]
    }
}

/// How the complaint begins if a step fails that the session cannot do without;
/// `None` for a step that it can do without. Finding the device and starting the
/// stream complain in their own words.
pub open spec fn complaint(step: SessionStep) -> Option<Seq<char>> {
    match step {
        SessionStep::FindDevice => Some(Seq::empty()),
        SessionStep::OpenProxy => Some("no core device proxy: "@),
        SessionStep::OpenTunnel => Some("no software tunnel: "@),
        SessionStep::ConnectRsd => Some("RSD connect failed: "@),
        SessionStep::ShakeHands => Some("RSD handshake failed: "@),
        SessionStep::StartMedia => Some(Seq::empty()),
        SessionStep::ConnectTouch => Some("no universalhidservice: "@),
        SessionStep::ConnectKeys => Some("no hid.indigo: "@),
        SessionStep::StartDecoder => Some("failed to spawn ffmpeg: "@),
        _ => None,
    }
}

/// What is shown from a step on, if anything new.
pub open spec fn announcement(step: SessionStep) -> Option<Seq<char>> {
    match step {
        SessionStep::FindDevice => Some("connecting to device..."@),
        SessionStep::StartMedia => Some("starting screen media stream..."@),
        SessionStep::ConnectTouch => Some("connecting HID..."@),
        SessionStep::Run => Some("connected"@),
        SessionStep::StopMedia => Some("stopping..."@),
        _ => None,
    }
}

/// A session under way.
#[derive(Debug)]
pub struct Course {
    step: SessionStep,
}

impl View for Course {
    type V = SessionStep;

    closed spec fn view(&self) -> SessionStep {
        self.step
    }
}

impl Course {
    /// A session that is about to find its device.
    pub fn new() -> (r: Course)
        ensures
            r@ == SessionStep::FindDevice,
    {
        Course { step: SessionStep::FindDevice }
    }

    /// The step that is due.
    pub fn step(&self) -> (r: SessionStep)
        ensures
            r == self@,
    {
        self.step
    }

    /// What is to be shown now that a step is due, if anything new.
    pub fn status(&self) -> (r: Option<&'static str>)
        ensures
            match r {
                Some(text) => announcement(self@) == Some(text@),
                None => announcement(self@) is None,
            },
    {
        match self.step {
            SessionStep::FindDevice => Some("connecting to device..."),
            SessionStep::StartMedia => Some("starting screen media stream..."),
            SessionStep::ConnectTouch => Some("connecting HID..."),
            SessionStep::Run => Some("connected"),
            SessionStep::StopMedia => Some("stopping..."),
            _ => None,
        }
    }

    /// Go on after the step that was due, or end with a complaint if it failed and
    /// the session cannot do without it.
    pub fn finished(&mut self, failure: Option<String>) -> (r: Result<(), String>)
        ensures
            match (failure, complaint(old(self)@)) {
                (Some(reason), Some(prefix)) => {
                    &&& r matches Err(message)
                    &&& message@ == prefix + reason@
                    &&& final(self)@ is Ended
                },
                _ => r is Ok && final(self)@ == following(old(self)@),
            },
    {
        let (next, prefix): (SessionStep, Option<&str>) = match self.step {
            SessionStep::FindDevice => (SessionStep::OpenProxy, Some("")),
            SessionStep::OpenProxy => (SessionStep::OpenTunnel, Some("no core device proxy: ")),
            SessionStep::OpenTunnel => (SessionStep::ConnectRsd, Some("no software tunnel: ")),
            SessionStep::ConnectRsd => (SessionStep::ShakeHands, Some("RSD connect failed: ")),
            SessionStep::ShakeHands => (SessionStep::StartMedia, Some("RSD handshake failed: ")),
            SessionStep::StartMedia => (SessionStep::ConnectTouch, Some("")),
            SessionStep::ConnectTouch => (
                SessionStep::ConnectKeys,
                Some("no universalhidservice: "),
            ),
            SessionStep::ConnectKeys => (SessionStep::ConnectPasteboard, Some("no hid.indigo: ")),
            SessionStep::ConnectPasteboard => (SessionStep::ConnectOrientation, None),
            SessionStep::ConnectOrientation => (SessionStep::StartDecoder, None),
            SessionStep::StartDecoder => (SessionStep::Run, Some("failed to spawn ffmpeg: ")),
            SessionStep::Run => (SessionStep::StopMedia, None),
            SessionStep::StopMedia => (SessionStep::StopDecoder, None),
            SessionStep::StopDecoder => (SessionStep::Ended, None),
            SessionStep::Ended => (SessionStep::Ended, None),
        };
        proof {
            reveal_strlit("");
            assert(""@ =~= Seq::<char>::empty());
        }
        if let (Some(reason), Some(prefix)) = (failure, prefix) {
            self.step = SessionStep::Ended;
            let mut message = prefix.to_string();
            message.append(reason.as_str());
            return Err(message);
        }
        self.step = next;
        Ok(())
    }
}

/// The loops that run side by side while a session runs.
#[derive(Debug, Clone, Copy, PartialEq, Eq, Structural)]
pub enum SessionTask {
    ReceiveVideo,
    FeedDecoder,
    ReadDecoder,
    WatchDecoder,
    WatchStalls,
    ReceiveRtcp,
    SendRtcp,
    SyncClipboard,
    TakeInput,
}

/// Whether the session is over once a loop is. Only the input loop ends it: by being
/// told to, or because nobody is left to send input.
pub fn ends_session(task: SessionTask) -> (r: bool)
    ensures
        r == (task is TakeInput),
{
    task == SessionTask::TakeInput
}

/// The step that is due after some of the steps, each of which may have failed, from
/// a step on; the end if one failed that the session cannot do without.
pub open spec fn due_after(step: SessionStep, failed: Seq<bool>) -> SessionStep
    decreases failed.len(),
{
    if failed.len() == 0 {
        step
    } else {
        let before = due_after(step, failed.drop_last());
        if failed.last() && complaint(before) is Some {
            SessionStep::Ended
        } else {
            following(before)
        }
    }
}

/// The course is what the steps make, one after the other, and it comes to its end.
pub proof fn law_the_course_is_followed(n: nat)
    requires
        n < course().len(),
    ensures
        due_after(SessionStep::FindDevice, Seq::new(n, |i: int| false)) == course()[n as int],
    decreases n,
{
    let failed = Seq::new(n, |i: int| false);
    if n > 0 {
        law_the_course_is_followed((n - 1) as nat);
        assert(failed.drop_last() =~= Seq::new((n - 1) as nat, |i: int| false));
        assert(place(course()[n - 1]) == n - 1);
    }
}

/// No HID surface is connected to before the media stream is up: whenever one of
/// them is due, starting the stream was due before and did not fail.
pub proof fn law_media_goes_before_input(failed: Seq<bool>)
    requires
        place(SessionStep::StartMedia) < place(due_after(SessionStep::FindDevice, failed)) < place(
            SessionStep::Ended,
        ),
    ensures
        exists|n: int|
            0 <= n < failed.len() && !failed[n] && #[trigger] due_after(
                SessionStep::FindDevice,
                failed.take(n),
            ) is StartMedia,
    decreases failed.len(),
{
    let shorter = failed.drop_last();
    let before = due_after(SessionStep::FindDevice, shorter);
    assert(place(due_after(SessionStep::FindDevice, failed)) == place(before) + 1);
    if before is StartMedia {
        assert(failed.take(failed.len() - 1) =~= shorter);
        assert(!failed[failed.len() - 1]);
    } else {
        law_media_goes_before_input(shorter);
        let n = choose|n: int|
            0 <= n < shorter.len() && !shorter[n] && #[trigger] due_after(
                SessionStep::FindDevice,
                shorter.take(n),
            ) is StartMedia;
        assert(shorter.take(n) =~= failed.take(n));
        assert(!failed[n]);
    }
}

/// A session that has run stops the stream and the decoder, whatever fails, and only
/// then ends.
pub proof fn law_what_runs_is_stopped(failed: Seq<bool>)
    requires
        failed.len() == 3,
    ensures
        due_after(SessionStep::Run, failed.take(1)) is StopMedia,
        due_after(SessionStep::Run, failed.take(2)) is StopDecoder,
        due_after(SessionStep::Run, failed) is Ended,
{
    reveal_with_fuel(due_after, 4);
    assert(failed.take(1).drop_last() =~= Seq::<bool>::empty());
    assert(failed.take(2).drop_last() =~= failed.take(1));
    assert(failed.drop_last() =~= failed.take(2));
}

/// Clipboard and rotation are best-effort: the session goes on without them.
pub proof fn law_extras_may_fail(failed: bool)
    ensures
        due_after(SessionStep::ConnectPasteboard, seq![failed]) is ConnectOrientation,
        due_after(SessionStep::ConnectOrientation, seq![failed]) is StartDecoder,
{
    reveal_with_fuel(due_after, 2);
    assert(seq![failed].drop_last() =~= Seq::<bool>::empty());
}

/// A session finds its device, opens the way to it, starts the stream, connects what
/// the stream opens, decodes, runs, and stops what it started.
pub proof fn law_steps_follow_each_other()
    ensures
        following(SessionStep::FindDevice) is OpenProxy,
        following(SessionStep::OpenProxy) is OpenTunnel,
        following(SessionStep::OpenTunnel) is ConnectRsd,
        following(SessionStep::ConnectRsd) is ShakeHands,
        following(SessionStep::ShakeHands) is StartMedia,
        following(SessionStep::StartMedia) is ConnectTouch,
        following(SessionStep::ConnectTouch) is ConnectKeys,
        following(SessionStep::ConnectKeys) is ConnectPasteboard,
        following(SessionStep::ConnectPasteboard) is ConnectOrientation,
        following(SessionStep::ConnectOrientation) is StartDecoder,
        following(SessionStep::StartDecoder) is Run,
        following(SessionStep::Run) is StopMedia,
        following(SessionStep::StopMedia) is StopDecoder,
        following(SessionStep::StopDecoder) is Ended,
        following(SessionStep::Ended) is Ended,
{
}

/// A failure on the way to the device, to its stream, its input or its decoder ends
/// the session, with a complaint that says where; any other does not.
pub proof fn law_a_session_ends_without_what_it_needs(step: SessionStep)
    ensures
        complaint(step) is None <==> {
            ||| step is ConnectPasteboard
            ||| step is ConnectOrientation
            ||| step is Run
            ||| step is StopMedia
            ||| step is StopDecoder
            ||| step is Ended
        },
        due_after(step, seq![true]) == if step is ConnectPasteboard || step is ConnectOrientation
            || step is Run || step is StopMedia || step is StopDecoder {
            following(step)
        } else {
            SessionStep::Ended
        },
        due_after(step, seq![false]) == following(step),
        step is FindDevice || step is StartMedia ==> complaint(step)->0.len() == 0,
        step is OpenProxy ==> complaint(step) == Some("no core device proxy: "@),
        step is OpenTunnel ==> complaint(step) == Some("no software tunnel: "@),
        step is ConnectRsd ==> complaint(step) == Some("RSD connect failed: "@),
        step is ShakeHands ==> complaint(step) == Some("RSD handshake failed: "@),
        step is ConnectTouch ==> complaint(step) == Some("no universalhidservice: "@),
        step is ConnectKeys ==> complaint(step) == Some("no hid.indigo: "@),
        step is StartDecoder ==> complaint(step) == Some("failed to spawn ffmpeg: "@),
{
    reveal_with_fuel(due_after, 2);
    assert(seq![true].drop_last() =~= Seq::<bool>::empty());
    assert(seq![false].drop_last() =~= Seq::<bool>::empty());
}

/// What is shown changes with the device, the stream, the input, once the session
/// runs, and when it stops; in between it stays.
pub proof fn law_what_is_shown_follows_the_steps(step: SessionStep)
    ensures
        step is FindDevice ==> announcement(step) == Some("connecting to device..."@),
        step is StartMedia ==> announcement(step) == Some("starting screen media stream..."@),
        step is ConnectTouch ==> announcement(step) == Some("connecting HID..."@),
        step is Run ==> announcement(step) == Some("connected"@),
        step is StopMedia ==> announcement(step) == Some("stopping..."@),
        announcement(step) is Some ==> {
            ||| step is FindDevice
            ||| step is StartMedia
            ||| step is ConnectTouch
            ||| step is Run
            ||| step is StopMedia
        },
{
}

} // verus!
