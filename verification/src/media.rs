//! Starting the screen media stream: audio first, which establishes the session,
//! and then video on the same session.
use idevice::core_device::{
    build_screen_audio_offer, build_screen_video_offer, build_start_audio_parameters,
    build_start_video_parameters, CallInfoBlob,
};
use idevice::IdeviceError;
use uuid::Uuid;
use vstd::arithmetic::div_mod::lemma_div_denominator;
use vstd::arithmetic::power::{lemma_pow_positive, pow};
use vstd::prelude::*;
use vstd::string::StringExecFns;

use crate::rtcp::VIDEO_SENDER_PORT;
use crate::text::{chars_of, digit};

verus! {

/// The features that this side announces for screen sharing.
pub const CLIENT_SUPPORTED_FEATURES: u64 = 140;

/// The port that the device is told to send audio from.
pub const AUDIO_SENDER_PORT: u16 = 50000;

/// The display that is mirrored.
pub const DISPLAY_ID: i64 = 1;

/// How this side describes itself in an offer.
#[derive(Debug)]
pub struct CallInfo {
    pub call_id: u32,
    pub client_version: u32,
    pub device_type: String,
    pub framework_version: String,
    pub os_version: String,
    pub device_name: Option<String>,
    pub audio_device_uid: Option<String>,
}

/// What a [`CallInfo`] says.
pub struct CallInfoModel {
    pub call_id: u32,
    pub client_version: u32,
    pub device_type: Seq<char>,
    pub framework_version: Seq<char>,
    pub os_version: Seq<char>,
    pub device_name: Option<Seq<char>>,
    pub audio_device_uid: Option<Seq<char>>,
}

impl View for CallInfo {
    type V = CallInfoModel;

    open spec fn view(&self) -> CallInfoModel {
        CallInfoModel {
            call_id: self.call_id,
            client_version: self.client_version,
            device_type: self.device_type@,
            framework_version: self.framework_version@,
            os_version: self.os_version@,
            device_name: chars_of(self.device_name),
            audio_device_uid: chars_of(self.audio_device_uid),
        }
    }
}

/// How this side describes itself: in words that devices are known to accept.
pub open spec fn this_side() -> CallInfoModel {
    CallInfoModel {
        call_id: 0,
        client_version: 1,
        device_type: "Mac17,7"@,
        framework_version: "2205.3.1"@,
        os_version: "25F71"@,
        device_name: None,
        audio_device_uid: None,
    }
}

/// How this side describes itself.
pub fn call_info() -> (r: CallInfo)
    ensures
        r@ == this_side(),
{
    CallInfo {
        call_id: 0,
        client_version: 1,
        device_type: "Mac17,7".to_string(),
        framework_version: "2205.3.1".to_string(),
        os_version: "25F71".to_string(),
        device_name: None,
        audio_device_uid: None,
    }
}

/// Whether a number is that of a random UUID: its version is 4 and its variant
/// that of RFC 4122.
pub open spec fn is_random_uuid(uuid: u128) -> bool {
    &&& uuid as int / 0x1000_0000_0000_0000_0000 % 16 == 4
    &&& uuid as int / 0x4000_0000_0000_0000 % 4 == 2
}

/// Calls `uuid::Uuid::new_v4`, which is trusted to return a random UUID; which one
/// is chance. It is handed on as its number.
#[verifier::external_body]
fn random_uuid() -> (r: u128)
    ensures
        is_random_uuid(r),
{
    Uuid::new_v4().as_u128()
}

/// A digit of a UUID's text.
pub open spec fn hex_digit(n: nat) -> char {
    if n < 10 {
        digit(n)
    } else {
        ('a' as nat + n - 10) as char
    }
}

/// The digit of a UUID that stands in its text at `at`, counting from the front.
pub open spec fn uuid_char(uuid: u128, at: int) -> char {
    if at == 8 || at == 13 || at == 18 || at == 23 {
        '-'
    } else {
        let hyphens: int = if at < 8 {
            0
        } else if at < 13 {
            1
        } else if at < 18 {
            2
        } else if at < 23 {
            3
        } else {
            4
        };
        hex_digit((uuid as int / pow(16, (31 - (at - hyphens)) as nat) % 16) as nat)
    }
}

/// A UUID as text: 32 digits in groups of 8, 4, 4, 4 and 12.
pub open spec fn uuid_text(uuid: u128) -> Seq<char> {
    Seq::new(36, |at: int| uuid_char(uuid, at))
}

/// Calls `Uuid`'s `to_string`, which is trusted to write the 32 hexadecimal digits
/// in lower case, in hyphenated groups.
#[verifier::external_body]
fn uuid_to_string(uuid: u128) -> (r: String)
    ensures
        r@ == uuid_text(uuid),
{
    Uuid::from_u128(uuid).to_string()
}

/// An ASCII letter in upper case; any other character as it is.
pub open spec fn upper(c: char) -> char {
    if 'a' <= c && c <= 'z' {
        (c as int - 'a' as int + 'A' as int) as char
    } else {
        c
    }
}

/// Calls `str::to_uppercase`, which is trusted to change exactly the lower-case
/// letters of a text that is all ASCII. What it makes of other texts is not stated.
#[verifier::external_body]
fn to_uppercase(text: &str) -> (r: String)
    ensures
        (forall|i: int| 0 <= i < text@.len() ==> (#[trigger] text@[i] as int) < 128) ==> r@
            == text@.map_values(|c: char| upper(c)),
{
    text.to_uppercase()
}

/// The id of a call, made of a UUID.
pub open spec fn call_id_text(uuid: u128) -> Seq<char> {
    uuid_text(uuid).map_values(|c: char| upper(c))
}

/// The id of a call, made of a UUID: its text in upper case.
pub fn call_id(uuid: u128) -> (r: String)
    ensures
        r@ == call_id_text(uuid),
{
    let text = uuid_to_string(uuid);
    to_uppercase(text.as_str())
}

/// The RTCP source id that a UUID gives: its low 32 bits.
pub fn ssrc_of(uuid: u128) -> (r: u32)
    ensures
        r == uuid % 0x1_0000_0000,
{
    assert(uuid as u32 == uuid % 0x1_0000_0000) by (bit_vector);
    uuid as u32
}

/// A random RTCP source id for this side.
pub fn new_ssrc() -> (r: u32)
    ensures
        exists|uuid: u128| is_random_uuid(uuid) && r == #[trigger] (uuid % 0x1_0000_0000),
{
    let uuid: u128 = random_uuid();
    ssrc_of(uuid)
}

/// The port for the video's RTCP: the one after the video's own (RFC 3550).
pub fn rtcp_port(video_port: u16) -> (r: u16)
    requires
        video_port < 0xffff,
    ensures
        r == video_port + 1,
{
    video_port + 1
}

/// `idevice::IdeviceError`, the error that building an offer can end in.
#[verifier::external_type_specification]
#[verifier::external_body]
pub struct ExIdeviceError(IdeviceError);

/// Calls `format!` on an `IdeviceError`. What it writes is not stated.
#[verifier::external_body]
fn error_text(error: &IdeviceError) -> (r: String) {
    format!("{error:?}")
}

/// Whether these bytes are an audio offer that `build_screen_audio_offer` may make
/// of a call id and a description.
pub uninterp spec fn is_audio_offer(call_id: Seq<char>, info: CallInfoModel, offer: Seq<u8>) -> bool;

/// Whether these bytes are a video offer that `build_screen_video_offer` may make
/// of a call id, a description and a source id.
pub uninterp spec fn is_video_offer(
    call_id: Seq<char>,
    info: CallInfoModel,
    ssrc: u32,
    offer: Seq<u8>,
) -> bool;

/// Calls `idevice`'s `build_screen_audio_offer`, which puts the time and a random
/// number in the offer besides what it is given. Which bytes come out, and whether
/// the encoding succeeds, is not stated.
#[verifier::external_body]
fn audio_offer(call_id: &str, info: &CallInfo) -> (r: Result<Vec<u8>, IdeviceError>)
    ensures
        r matches Ok(offer) ==> is_audio_offer(call_id@, info@, offer@),
{
    let blob = CallInfoBlob {
        call_id: info.call_id,
        client_version: info.client_version,
        device_type: info.device_type.clone(),
        framework_version: info.framework_version.clone(),
        os_version: info.os_version.clone(),
        device_name: info.device_name.clone(),
        audio_device_uid: info.audio_device_uid.clone(),
    };
    build_screen_audio_offer(call_id, &blob)
}

/// Calls `idevice`'s `build_screen_video_offer`, which puts the time in the offer
/// besides what it is given. Which bytes come out, and whether the encoding
/// succeeds, is not stated.
#[verifier::external_body]
fn video_offer(call_id: &str, info: &CallInfo, ssrc: u32) -> (r: Result<Vec<u8>, IdeviceError>)
    ensures
        r matches Ok(offer) ==> is_video_offer(call_id@, info@, ssrc, offer@),
{
    let blob = CallInfoBlob {
        call_id: info.call_id,
        client_version: info.client_version,
        device_type: info.device_type.clone(),
        framework_version: info.framework_version.clone(),
        os_version: info.os_version.clone(),
        device_name: info.device_name.clone(),
        audio_device_uid: info.audio_device_uid.clone(),
    };
    build_screen_video_offer(call_id, &blob, ssrc)
}

/// The parameters of a stream, as the device's display service takes them: a
/// dictionary of `idevice`'s, which the library makes and hands on unread.
#[derive(Debug)]
#[verifier::external_body]
pub struct StartParameters {
    pub dictionary: idevice::xpc::Dictionary,
}

/// Which stream parameters ask for.
pub enum Stream {
    Audio,
    Video { display: i64 },
}

/// What stream parameters ask for: which stream, from where to where, under which
/// offer and features, in which session.
pub struct StreamRequest {
    pub stream: Stream,
    pub receiver: (Seq<char>, u16),
    pub sender: (Seq<char>, u16),
    pub offer: Seq<u8>,
    pub features: u64,
    pub session: u128,
}

/// What stream parameters ask for.
pub uninterp spec fn asked(parameters: StartParameters) -> StreamRequest;

/// Calls `idevice`'s `build_start_audio_parameters`, which is trusted to put what it
/// is given, and nothing else that varies, in a dictionary for an audio stream.
#[verifier::external_body]
fn audio_start_parameters(
    receiver_ip: &str,
    receiver_port: u16,
    sender_ip: &str,
    sender_port: u16,
    offer: Vec<u8>,
    features: u64,
    session: u128,
) -> (r: StartParameters)
    ensures
        asked(r) == (StreamRequest {
            stream: Stream::Audio,
            receiver: (receiver_ip@, receiver_port),
            sender: (sender_ip@, sender_port),
            offer: offer@,
            features,
            session,
        }),
{
    let dictionary = build_start_audio_parameters(
        receiver_ip,
        receiver_port,
        sender_ip,
        sender_port,
        offer,
        features,
        Uuid::from_u128(session),
    );
    StartParameters { dictionary }
}

/// Calls `idevice`'s `build_start_video_parameters`, which is trusted to put what it
/// is given, and nothing else that varies, in a dictionary for a video stream.
#[verifier::external_body]
fn video_start_parameters(
    receiver_ip: &str,
    receiver_port: u16,
    sender_ip: &str,
    sender_port: u16,
    offer: Vec<u8>,
    features: u64,
    display: i64,
    session: u128,
) -> (r: StartParameters)
    ensures
        asked(r) == (StreamRequest {
            stream: Stream::Video { display },
            receiver: (receiver_ip@, receiver_port),
            sender: (sender_ip@, sender_port),
            offer: offer@,
            features,
            session,
        }),
{
    let (ip, port) = (receiver_ip, receiver_port);
    let session = Uuid::from_u128(session);
    let (from, at) = (sender_ip, sender_port);
    StartParameters {
        dictionary: build_start_video_parameters(
            ip, port, from, at, offer, features, display, session,
        ),
    }
}

/// The addresses of this side, where the streams go to, and of the device, where
/// they come from.
#[derive(Debug)]
pub struct Endpoints {
    pub receiver_ip: String,
    pub sender_ip: String,
}

/// Whether these are parameters for the audio stream under an offer.
pub open spec fn asks_audio(
    parameters: StartParameters,
    ends: Endpoints,
    port: u16,
    offer: Seq<u8>,
    session: u128,
) -> bool {
    asked(parameters) == StreamRequest {
        stream: Stream::Audio,
        receiver: (ends.receiver_ip@, port),
        sender: (ends.sender_ip@, AUDIO_SENDER_PORT),
        offer,
        features: CLIENT_SUPPORTED_FEATURES,
        session,
    }
}

/// Whether these are parameters for the video stream under an offer.
pub open spec fn asks_video(
    parameters: StartParameters,
    ends: Endpoints,
    port: u16,
    offer: Seq<u8>,
    session: u128,
) -> bool {
    asked(parameters) == StreamRequest {
        stream: Stream::Video { display: DISPLAY_ID },
        receiver: (ends.receiver_ip@, port),
        sender: (ends.sender_ip@, VIDEO_SENDER_PORT),
        offer,
        features: CLIENT_SUPPORTED_FEATURES,
        session,
    }
}

fn with_reason(what: &str, reason: &String) -> (r: String)
    ensures
        r@ == what@ + reason@,
{
    let mut message = what.to_string();
    message.append(reason.as_str());
    message
}

/// The parameters for the audio stream, given its offer or why there is none.
pub fn audio_parameters(
    ends: &Endpoints,
    port: u16,
    session: u128,
    offer: Result<Vec<u8>, String>,
) -> (r: Result<StartParameters, String>)
    ensures
        match offer {
            Ok(bytes) => r matches Ok(p) && asks_audio(p, *ends, port, bytes@, session),
            Err(reason) => r matches Err(e) && e@ == "audio offer build failed: "@ + reason@,
        },
{
    match offer {
        Ok(offer) => Ok(
            audio_start_parameters(
                ends.receiver_ip.as_str(),
                port,
                ends.sender_ip.as_str(),
                AUDIO_SENDER_PORT,
                offer,
                CLIENT_SUPPORTED_FEATURES,
                session,
            ),
        ),
        Err(reason) => Err(with_reason("audio offer build failed: ", &reason)),
    }
}

/// The parameters for the video stream, given its offer or why there is none.
pub fn video_parameters(
    ends: &Endpoints,
    port: u16,
    session: u128,
    offer: Result<Vec<u8>, String>,
) -> (r: Result<StartParameters, String>)
    ensures
        match offer {
            Ok(bytes) => r matches Ok(p) && asks_video(p, *ends, port, bytes@, session),
            Err(reason) => r matches Err(e) && e@ == "video offer build failed: "@ + reason@,
        },
{
    match offer {
        Ok(offer) => Ok(
            video_start_parameters(
                ends.receiver_ip.as_str(),
                port,
                ends.sender_ip.as_str(),
                VIDEO_SENDER_PORT,
                offer,
                CLIENT_SUPPORTED_FEATURES,
                DISPLAY_ID,
                session,
            ),
        ),
        Err(reason) => Err(with_reason("video offer build failed: ", &reason)),
    }
}

/// Whether these parameters ask for the audio stream in a session, under an offer
/// for a call of its own.
pub open spec fn starts_audio(
    parameters: StartParameters,
    ends: Endpoints,
    port: u16,
    session: u128,
) -> bool {
    exists|call: u128, offer: Seq<u8>|
        is_random_uuid(call) && #[trigger] is_audio_offer(call_id_text(call), this_side(), offer)
            && asks_audio(parameters, ends, port, offer, session)
}

/// Whether these parameters ask for the video stream in a session, under an offer
/// for a call of its own that announces a source id.
pub open spec fn starts_video(
    parameters: StartParameters,
    ends: Endpoints,
    port: u16,
    session: u128,
    ssrc: u32,
) -> bool {
    exists|call: u128, offer: Seq<u8>|
        is_random_uuid(call) && #[trigger] is_video_offer(
            call_id_text(call),
            this_side(),
            ssrc,
            offer,
        ) && asks_video(parameters, ends, port, offer, session)
}

/// Make an audio offer and the parameters that carry it.
pub fn start_audio(ends: &Endpoints, port: u16, session: u128) -> (r: Result<
    StartParameters,
    String,
>)
    ensures
        match r {
            Ok(p) => starts_audio(p, *ends, port, session),
            Err(e) => "audio offer build failed: "@.is_prefix_of(e@),
        },
{
    let call: u128 = random_uuid();
    let id = call_id(call);
    let offer = match audio_offer(id.as_str(), &call_info()) {
        Ok(offer) => Ok(offer),
        Err(e) => Err(error_text(&e)),
    };
    proof {
        if offer is Err {
            lemma_prefix("audio offer build failed: "@, offer->Err_0@);
        }
    }
    audio_parameters(ends, port, session, offer)
}

/// Make a video offer and the parameters that carry it. The source id must be in
/// the offer for the device to tie this side's RTCP to the stream.
pub fn start_video(ends: &Endpoints, port: u16, session: u128, ssrc: u32) -> (r: Result<
    StartParameters,
    String,
>)
    ensures
        match r {
            Ok(p) => starts_video(p, *ends, port, session, ssrc),
            Err(e) => "video offer build failed: "@.is_prefix_of(e@),
        },
{
    let call: u128 = random_uuid();
    let id = call_id(call);
    let offer = match video_offer(id.as_str(), &call_info(), ssrc) {
        Ok(offer) => Ok(offer),
        Err(e) => Err(error_text(&e)),
    };
    proof {
        if offer is Err {
            lemma_prefix("video offer build failed: "@, offer->Err_0@);
        }
    }
    video_parameters(ends, port, session, offer)
}

proof fn lemma_prefix(a: Seq<char>, b: Seq<char>)
    ensures
        a.is_prefix_of(a + b),
{
    assert((a + b).subrange(0, a.len() as int) =~= a);
}

/// How far the setup of the screen stream has come.
#[derive(Debug, Clone, Copy, PartialEq, Eq, Structural)]
pub enum SetupPhase {
    Audio,
    Video,
    Done,
}

/// The setup of the screen stream: the audio stream, which establishes the session,
/// and once it runs the video stream on the same session.
#[derive(Debug)]
pub struct ScreenSetup {
    pub ends: Endpoints,
    pub video_port: u16,
    pub session: u128,
    pub ssrc: u32,
    pub phase: SetupPhase,
}

impl ScreenSetup {
    /// Begin with the audio stream, in a session of its own.
    pub fn begin(ends: Endpoints, audio_port: u16, video_port: u16, ssrc: u32) -> (r: Result<
        (ScreenSetup, StartParameters),
        String,
    >)
        ensures
            match r {
                Ok((setup, p)) => {
                    &&& is_random_uuid(setup.session)
                    &&& setup == (ScreenSetup {
                        ends,
                        video_port,
                        session: setup.session,
                        ssrc,
                        phase: SetupPhase::Audio,
                    })
                    &&& starts_audio(p, ends, audio_port, setup.session)
                },
                Err(e) => "audio offer build failed: "@.is_prefix_of(e@),
            },
    {
        let session: u128 = random_uuid();
        match start_audio(&ends, audio_port, session) {
            Ok(p) => {
                let setup = ScreenSetup {
                    ends,
                    video_port,
                    session,
                    ssrc,
                    phase: SetupPhase::Audio,
                };
                Ok((setup, p))
            },
            Err(e) => Err(e),
        }
    }

    /// Go on once the stream that was asked for runs, or say why it does not: audio
    /// is followed by video, and video by nothing.
    pub fn started(&mut self, failure: Option<String>) -> (r: Result<
        Option<StartParameters>,
        String,
    >)
        ensures
            match (old(self).phase, failure) {
                (SetupPhase::Audio, Some(reason)) => {
                    &&& r matches Err(e)
                    &&& e@ == "audio startMediaStream failed: "@ + reason@
                    &&& *final(self) == *old(self)
                },
                (SetupPhase::Audio, None) => match r {
                    Ok(next) => {
                        &&& next matches Some(p)
                        &&& starts_video(
                            p,
                            old(self).ends,
                            old(self).video_port,
                            old(self).session,
                            old(self).ssrc,
                        )
                        &&& *final(self) == (ScreenSetup { phase: SetupPhase::Video, ..*old(self) })
                    },
                    Err(e) => "video offer build failed: "@.is_prefix_of(e@) && *final(self)
                        == *old(self),
                },
                (SetupPhase::Video, Some(reason)) => {
                    &&& r matches Err(e)
                    &&& e@ == "video startMediaStream failed: "@ + reason@
                    &&& *final(self) == *old(self)
                },
                (SetupPhase::Video, None) => {
                    &&& r == Ok::<Option<StartParameters>, String>(None)
                    &&& *final(self) == (ScreenSetup { phase: SetupPhase::Done, ..*old(self) })
                },
                (SetupPhase::Done, _) => {
                    &&& r == Ok::<Option<StartParameters>, String>(None)
                    &&& *final(self) == *old(self)
                },
            },
    {
        match self.phase {
            SetupPhase::Audio => {
                if let Some(reason) = failure {
                    return Err(with_reason("audio startMediaStream failed: ", &reason));
                }
                match start_video(&self.ends, self.video_port, self.session, self.ssrc) {
                    Ok(p) => {
                        self.phase = SetupPhase::Video;
                        Ok(Some(p))
                    },
                    Err(e) => Err(e),
                }
            },
            SetupPhase::Video => {
                if let Some(reason) = failure {
                    return Err(with_reason("video startMediaStream failed: ", &reason));
                }
                self.phase = SetupPhase::Done;
                Ok(None)
            },
            SetupPhase::Done => Ok(None),
        }
    }
}

/// This side calls itself by words that devices are known to accept, and gives
/// neither a name nor an audio device.
pub proof fn law_this_side_is_known_to_devices()
    ensures
        this_side().call_id == 0,
        this_side().client_version == 1,
        this_side().device_type == "Mac17,7"@,
        this_side().framework_version == "2205.3.1"@,
        this_side().os_version == "25F71"@,
        this_side().device_name is None,
        this_side().audio_device_uid is None,
{
}

/// Whichever stream is started, it goes to this side's address and the port that was
/// given, comes from the device's address and the port of that stream, and belongs to
/// the session that was given, under an offer for a random call of its own. The
/// video stream is that of the main display, and its offer announces the source id.
pub proof fn law_streams_go_where_they_are_asked_to(
    parameters: StartParameters,
    ends: Endpoints,
    port: u16,
    session: u128,
    ssrc: u32,
)
    ensures
        starts_audio(parameters, ends, port, session) ==> {
            let request = asked(parameters);
            &&& request.stream is Audio
            &&& request.receiver == (ends.receiver_ip@, port)
            &&& request.sender == (ends.sender_ip@, 50000u16)
            &&& request.features == 140
            &&& request.session == session
            &&& exists|call: u128|
                is_random_uuid(call) && #[trigger] is_audio_offer(
                    call_id_text(call),
                    this_side(),
                    request.offer,
                )
        },
        starts_video(parameters, ends, port, session, ssrc) ==> {
            let request = asked(parameters);
            &&& request.stream == (Stream::Video { display: 1 })
            &&& request.receiver == (ends.receiver_ip@, port)
            &&& request.sender == (ends.sender_ip@, 50001u16)
            &&& request.features == 140
            &&& request.session == session
            &&& exists|call: u128|
                is_random_uuid(call) && #[trigger] is_video_offer(
                    call_id_text(call),
                    this_side(),
                    ssrc,
                    request.offer,
                )
        },
{
    if starts_audio(parameters, ends, port, session) {
        let (call, offer) = choose|call: u128, offer: Seq<u8>|
            is_random_uuid(call) && #[trigger] is_audio_offer(
                call_id_text(call),
                this_side(),
                offer,
            ) && asks_audio(parameters, ends, port, offer, session);
        assert(asked(parameters).offer == offer);
    }
    if starts_video(parameters, ends, port, session, ssrc) {
        let (call, offer) = choose|call: u128, offer: Seq<u8>|
            is_random_uuid(call) && #[trigger] is_video_offer(
                call_id_text(call),
                this_side(),
                ssrc,
                offer,
            ) && asks_video(parameters, ends, port, offer, session);
        assert(asked(parameters).offer == offer);
    }
}

/// The number that hexadecimal digits in upper case stand for; hyphens between them
/// count for nothing.
pub open spec fn hex_number(text: Seq<char>) -> int
    decreases text.len(),
{
    if text.len() == 0 {
        0
    } else if text.last() == '-' {
        hex_number(text.drop_last())
    } else {
        let c = text.last() as int;
        hex_number(text.drop_last()) * 16 + if c <= '9' as int {
            c - '0' as int
        } else {
            c - 'A' as int + 10
        }
    }
}

/// How many digits stand before a place in a UUID's text.
spec fn digits_before(at: int) -> int {
    if at <= 8 {
        at
    } else if at <= 13 {
        at - 1
    } else if at <= 18 {
        at - 2
    } else if at <= 23 {
        at - 3
    } else {
        at - 4
    }
}

proof fn lemma_digits_add_up(uuid: int, m: nat)
    requires
        uuid >= 0,
    ensures
        uuid / pow(16, m + 1) * 16 + uuid / pow(16, m) % 16 == uuid / pow(16, m),
{
    reveal(pow);
    lemma_pow_positive(16, m);
    let p = pow(16, m);
    assert(pow(16, m + 1) == 16 * p);
    assert(16 * p == p * 16) by (nonlinear_arith);
    lemma_div_denominator(uuid, p, 16);
}

proof fn lemma_call_id_so_far(uuid: u128, at: int)
    requires
        0 <= at <= 36,
        uuid as int / pow(16, 32) == 0,
    ensures
        hex_number(call_id_text(uuid).take(at)) == uuid as int / pow(
            16,
            (32 - digits_before(at)) as nat,
        ),
    decreases at,
{
    let text = call_id_text(uuid);
    if at > 0 {
        lemma_call_id_so_far(uuid, at - 1);
        assert(text.take(at).drop_last() =~= text.take(at - 1));
        let c = text.take(at).last();
        assert(c == upper(uuid_char(uuid, at - 1)));
        if at - 1 == 8 || at - 1 == 13 || at - 1 == 18 || at - 1 == 23 {
        } else {
            let m = (31 - digits_before(at - 1)) as nat;
            lemma_digits_add_up(uuid as int, m);
            let d = uuid as int / pow(16, m) % 16;
            assert(0 <= d < 16);
            assert(c == upper(hex_digit(d as nat)));
        }
    }
}

/// A call id is the number of its UUID in 32 digits, in groups of 8, 4, 4, 4 and 12,
/// without a lower-case letter.
pub proof fn law_a_call_id_reads_back(uuid: u128)
    ensures
        hex_number(call_id_text(uuid)) == uuid,
        call_id_text(uuid).len() == 36,
        forall|i: int|
            0 <= i < 36 ==> {
                let c = #[trigger] call_id_text(uuid)[i];
                if i == 8 || i == 13 || i == 18 || i == 23 {
                    c == '-'
                } else {
                    '0' <= c <= '9' || 'A' <= c <= 'F'
                }
            },
{
    reveal_with_fuel(pow, 33);
    assert(pow(16, 32) == 0x1_0000_0000_0000_0000_0000_0000_0000_0000);
    assert(pow(16, 0) == 1);
    lemma_call_id_so_far(uuid, 36);
    assert(uuid as int / 1 == uuid);
    assert(call_id_text(uuid).take(36) =~= call_id_text(uuid));
}

/// A description says what it holds.
pub proof fn law_a_description_says_what_it_holds(info: CallInfo)
    ensures
        info@ == (CallInfoModel {
            call_id: info.call_id,
            client_version: info.client_version,
            device_type: info.device_type@,
            framework_version: info.framework_version@,
            os_version: info.os_version@,
            device_name: chars_of(info.device_name),
            audio_device_uid: chars_of(info.audio_device_uid),
        }),
{
}

} // verus!
