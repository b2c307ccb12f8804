//! The clipboard loop: from what has just happened to what to do next.
//!
//! One connection to the device serves both directions. Device to host is driven
//! by pushed snapshots; host to device is polled, and each poll pulls a snapshot
//! first, for devices that do not push.
use vstd::prelude::*;
use vstd::string::{StrSliceExecFns, StringExecFns};

use crate::clipboard::{
    picture_view, ClipModel, ClipState, HostUpdate, TextPush, TextPushModel,
    UpdateModel, CLIPBOARD_PREVIEW_LEN,
};
use crate::pasteboard::{image_of, text_of, Snapshot, SnapshotModel};
use crate::picture::{decoded, encoded, hash_of, image_hash, Picture, PictureModel};
use crate::text::{chars_of, decimal, decimal_text};

verus! {

/// Something to do, whose outcome is reported as the [`ClipEvent`] named with it.
#[derive(Debug)]
pub enum ClipAction {
    /// Read the host's text: [`ClipEvent::HostText`].
    ReadHostText,
    /// Read the host's image: [`ClipEvent::HostImage`].
    ReadHostImage,
    /// Pull a snapshot from the device: [`ClipEvent::Pulled`].
    Pull,
    /// Ask the device to push its changes: [`ClipEvent::Subscribed`].
    Subscribe,
    /// Wait for a push or the poll interval: [`ClipEvent::Pushed`] or
    /// [`ClipEvent::Tick`].
    Wait,
    /// Put a text on the host clipboard: [`ClipEvent::HostWritten`].
    WriteHostText(String),
    /// Put an image on the host clipboard: [`ClipEvent::HostWritten`].
    WriteHostImage(Picture),
    /// Put a text on the device: [`ClipEvent::DeviceWritten`].
    WriteDeviceText(String),
    /// Put a PNG on the device: [`ClipEvent::DeviceWritten`].
    WriteDeviceImage(Vec<u8>),
    /// Connect to the pasteboard again: [`ClipEvent::Reconnected`].
    Reconnect,
}

/// Something that happened. What failed is `None` or `false`.
#[derive(Debug)]
pub enum ClipEvent {
    HostText(Option<String>),
    HostImage(Option<Picture>),
    Pulled(Option<Snapshot>),
    Subscribed,
    Pushed(Option<Snapshot>),
    Tick,
    HostWritten(bool),
    DeviceWritten(bool),
    Reconnected(bool),
}

/// What was carried over.
#[derive(Debug)]
pub enum Content {
    Text(String),
    Image { width: usize, height: usize },
}

/// A transfer that succeeded, for the user to see.
#[derive(Debug)]
pub struct Activity {
    pub from_device: bool,
    pub content: Content,
}

/// What a [`ClipAction`] does.
pub enum ActionModel {
    ReadHostText,
    ReadHostImage,
    Pull,
    Subscribe,
    Wait,
    WriteHostText(Seq<char>),
    WriteHostImage(PictureModel),
    WriteDeviceText(Seq<char>),
    WriteDeviceImage(Seq<u8>),
    Reconnect,
}

/// What a [`ClipEvent`] reports.
pub enum EventModel {
    HostText(Option<Seq<char>>),
    HostImage(Option<PictureModel>),
    Pulled(Option<SnapshotModel>),
    Subscribed,
    Pushed(Option<SnapshotModel>),
    Tick,
    HostWritten(bool),
    DeviceWritten(bool),
    Reconnected(bool),
}

/// What a [`Content`] was.
pub enum ContentModel {
    Text(Seq<char>),
    Image { width: nat, height: nat },
}

/// What an [`Activity`] tells.
pub struct ActivityModel {
    pub from_device: bool,
    pub content: ContentModel,
}

impl View for ClipAction {
    type V = ActionModel;

    open spec fn view(&self) -> ActionModel {
        match self {
            ClipAction::ReadHostText => ActionModel::ReadHostText,
            ClipAction::ReadHostImage => ActionModel::ReadHostImage,
            ClipAction::Pull => ActionModel::Pull,
            ClipAction::Subscribe => ActionModel::Subscribe,
            ClipAction::Wait => ActionModel::Wait,
            ClipAction::WriteHostText(text) => ActionModel::WriteHostText(text@),
            ClipAction::WriteHostImage(picture) => ActionModel::WriteHostImage(picture@),
            ClipAction::WriteDeviceText(text) => ActionModel::WriteDeviceText(text@),
            ClipAction::WriteDeviceImage(png) => ActionModel::WriteDeviceImage(png@),
            ClipAction::Reconnect => ActionModel::Reconnect,
        }
    }
}

/// What an optional snapshot holds.
pub open spec fn snapshot_view(snap: Option<Snapshot>) -> Option<SnapshotModel> {
    match snap {
        Some(s) => Some(s@),
        None => None,
    }
}

impl View for ClipEvent {
    type V = EventModel;

    open spec fn view(&self) -> EventModel {
        match self {
            ClipEvent::HostText(text) => EventModel::HostText(chars_of(*text)),
            ClipEvent::HostImage(picture) => EventModel::HostImage(picture_view(*picture)),
            ClipEvent::Pulled(snap) => EventModel::Pulled(snapshot_view(*snap)),
            ClipEvent::Subscribed => EventModel::Subscribed,
            ClipEvent::Pushed(snap) => EventModel::Pushed(snapshot_view(*snap)),
            ClipEvent::Tick => EventModel::Tick,
            ClipEvent::HostWritten(ok) => EventModel::HostWritten(*ok),
            ClipEvent::DeviceWritten(ok) => EventModel::DeviceWritten(*ok),
            ClipEvent::Reconnected(ok) => EventModel::Reconnected(*ok),
        }
    }
}

impl View for Content {
    type V = ContentModel;

    open spec fn view(&self) -> ContentModel {
        match self {
            Content::Text(text) => ContentModel::Text(text@),
            Content::Image { width, height } => ContentModel::Image {
                width: *width as nat,
                height: *height as nat,
            },
        }
    }
}

/// What an optional activity tells.
pub open spec fn activity_view(activity: Option<Activity>) -> Option<ActivityModel> {
    match activity {
        Some(a) => Some(ActivityModel { from_device: a.from_device, content: a.content@ }),
        None => None,
    }
}

/// What is under way.
#[derive(Debug)]
enum Phase {
    SeedText,
    SeedImage,
    SeedDevice,
    Subscribing { reseed: bool },
    Reseeding,
    Waiting,
    Pulling,
    HostText { text: String, polling: bool },
    HostImage { hash: u64, width: usize, height: usize, polling: bool },
    ReadingText,
    ReadingImage,
    DeviceText(String),
    DeviceImage { hash: u64, width: usize, height: usize },
    Confirming,
    Reconnecting { reseed: bool },
}

/// What is under way. While a text or an image is being written, it is at hand; a
/// write to the host is part of a poll or of a push, and a reconnection knows
/// whether to adopt the device's counter anew.
pub enum PhaseModel {
    SeedText,
    SeedImage,
    SeedDevice,
    Subscribing { reseed: bool },
    Reseeding,
    Waiting,
    Pulling,
    HostText { text: Seq<char>, polling: bool },
    HostImage { hash: u64, width: nat, height: nat, polling: bool },
    ReadingText,
    ReadingImage,
    DeviceText(Seq<char>),
    DeviceImage { hash: u64, width: nat, height: nat },
    Confirming,
    Reconnecting { reseed: bool },
}

spec fn phase_view(phase: Phase) -> PhaseModel {
    match phase {
        Phase::SeedText => PhaseModel::SeedText,
        Phase::SeedImage => PhaseModel::SeedImage,
        Phase::SeedDevice => PhaseModel::SeedDevice,
        Phase::Subscribing { reseed } => PhaseModel::Subscribing { reseed },
        Phase::Reseeding => PhaseModel::Reseeding,
        Phase::Waiting => PhaseModel::Waiting,
        Phase::Pulling => PhaseModel::Pulling,
        Phase::HostText { text, polling } => PhaseModel::HostText { text: text@, polling },
        Phase::HostImage { hash, width, height, polling } => PhaseModel::HostImage {
            hash,
            width: width as nat,
            height: height as nat,
            polling,
        },
        Phase::ReadingText => PhaseModel::ReadingText,
        Phase::ReadingImage => PhaseModel::ReadingImage,
        Phase::DeviceText(text) => PhaseModel::DeviceText(text@),
        Phase::DeviceImage { hash, width, height } => PhaseModel::DeviceImage {
            hash,
            width: width as nat,
            height: height as nat,
        },
        Phase::Confirming => PhaseModel::Confirming,
        Phase::Reconnecting { reseed } => PhaseModel::Reconnecting { reseed },
    }
}

/// The clipboard loop.
#[derive(Debug)]
pub struct ClipSync {
    state: ClipState,
    phase: Phase,
}

/// What a [`ClipSync`] believes and does.
pub struct SyncModel {
    pub state: ClipModel,
    pub phase: PhaseModel,
}

impl View for ClipSync {
    type V = SyncModel;

    closed spec fn view(&self) -> SyncModel {
        SyncModel { state: self.state@, phase: phase_view(self.phase) }
    }
}

/// What follows an event: what to do, and what was carried over.
#[derive(Debug)]
pub struct ClipStep {
    pub action: ClipAction,
    pub activity: Option<Activity>,
}

/// What follows an event, with where the loop then stands.
pub struct StepModel {
    pub sync: SyncModel,
    pub action: ActionModel,
    pub activity: Option<ActivityModel>,
}

/// Where the loop starts: nothing is believed yet.
pub open spec fn starting() -> SyncModel {
    SyncModel {
        state: ClipModel { last_text: None, last_image: None, last_change_count: None },
        phase: PhaseModel::SeedText,
    }
}

/// Go on with `action` and nothing to show.
pub open spec fn silent(state: ClipModel, phase: PhaseModel, action: ActionModel) -> StepModel {
    StepModel { sync: SyncModel { state, phase }, action, activity: None }
}

/// Wait for the next push or poll.
pub open spec fn at_rest(state: ClipModel) -> StepModel {
    silent(state, PhaseModel::Waiting, ActionModel::Wait)
}

/// Once the device's contents are dealt with: a poll goes on to the host's.
pub open spec fn device_done(state: ClipModel, polling: bool) -> StepModel {
    if polling {
        silent(state, PhaseModel::ReadingText, ActionModel::ReadHostText)
    } else {
        at_rest(state)
    }
}

/// Deal with a snapshot.
pub open spec fn on_snapshot(state: ClipModel, snap: SnapshotModel, polling: bool) -> StepModel {
    let next = state.counted(snap.change_count);
    match state.device_update(snap) {
        UpdateModel::Nothing => device_done(next, polling),
        UpdateModel::Text(text) => silent(
            next,
            PhaseModel::HostText { text, polling },
            ActionModel::WriteHostText(text),
        ),
        UpdateModel::Image(p) => silent(
            next,
            PhaseModel::HostImage {
                hash: hash_of(p.rgba),
                width: p.width,
                height: p.height,
                polling,
            },
            ActionModel::WriteHostImage(p),
        ),
    }
}

/// Connect again.
pub open spec fn connection_lost(state: ClipModel, reseed: bool) -> StepModel {
    silent(state, PhaseModel::Reconnecting { reseed }, ActionModel::Reconnect)
}

/// The hash of an optional picture.
pub open spec fn picture_hash(picture: Option<PictureModel>) -> Option<u64> {
    match picture {
        Some(p) => Some(hash_of(p.rgba)),
        None => None,
    }
}

/// The counter of an optional snapshot.
pub open spec fn pulled_count(snap: Option<SnapshotModel>) -> Option<i64> {
    match snap {
        Some(s) => s.change_count,
        None => None,
    }
}

/// What a transfer that succeeded shows.
pub open spec fn shown(from_device: bool, content: ContentModel) -> Option<ActivityModel> {
    Some(ActivityModel { from_device, content })
}

impl SyncModel {
    /// What follows an event; nothing if the event is out of turn.
    pub open spec fn next(self, event: EventModel) -> Option<StepModel> {
        let state = self.state;
        match (self.phase, event) {
            // Seed the state from both sides, so that nothing there is news.
            (PhaseModel::SeedText, EventModel::HostText(text)) => Some(
                silent(
                    ClipModel { last_text: text, last_image: None, ..state },
                    PhaseModel::SeedImage,
                    ActionModel::ReadHostImage,
                ),
            ),
            (PhaseModel::SeedImage, EventModel::HostImage(picture)) => Some(
                silent(
                    state.seeded(picture_hash(picture)),
                    PhaseModel::SeedDevice,
                    ActionModel::Pull,
                ),
            ),
            (PhaseModel::SeedDevice, EventModel::Pulled(snap)) => Some(
                silent(
                    state.counted(pulled_count(snap)),
                    PhaseModel::Subscribing { reseed: false },
                    ActionModel::Subscribe,
                ),
            ),
            (PhaseModel::Subscribing { reseed }, EventModel::Subscribed) => Some(
                if reseed {
                    silent(state, PhaseModel::Reseeding, ActionModel::Pull)
                } else {
                    at_rest(state)
                },
            ),
            (PhaseModel::Reseeding, EventModel::Pulled(snap)) => Some(
                at_rest(state.counted(pulled_count(snap))),
            ),
            // Device to host.
            (PhaseModel::Waiting, EventModel::Pushed(Some(snap))) => Some(
                on_snapshot(state, snap, false),
            ),
            (PhaseModel::Waiting, EventModel::Pushed(None)) => Some(connection_lost(state, true)),
            (PhaseModel::Waiting, EventModel::Tick) => Some(
                silent(state, PhaseModel::Pulling, ActionModel::Pull),
            ),
            (PhaseModel::Pulling, EventModel::Pulled(Some(snap))) => Some(
                on_snapshot(state, snap, true),
            ),
            (PhaseModel::Pulling, EventModel::Pulled(None)) => Some(connection_lost(state, false)),
            (PhaseModel::HostText { text, polling }, EventModel::HostWritten(ok)) => Some(
                if ok {
                    StepModel {
                        activity: shown(true, ContentModel::Text(text)),
                        ..device_done(state.sharing_text(text), polling)
                    }
                } else {
                    device_done(state, polling)
                },
            ),
            (
                PhaseModel::HostImage { hash, width, height, polling },
                EventModel::HostWritten(ok),
            ) => Some(
                if ok {
                    StepModel {
                        activity: shown(true, ContentModel::Image { width, height }),
                        ..device_done(state.sharing_image(hash), polling)
                    }
                } else {
                    device_done(state, polling)
                },
            ),
            // Host to device.
            (PhaseModel::ReadingText, EventModel::HostText(text)) => Some(
                match state.text_push(text) {
                    TextPushModel::NoText => silent(
                        state,
                        PhaseModel::ReadingImage,
                        ActionModel::ReadHostImage,
                    ),
                    TextPushModel::Settled => at_rest(state),
                    TextPushModel::Send(t) => silent(
                        state,
                        PhaseModel::DeviceText(t),
                        ActionModel::WriteDeviceText(t),
                    ),
                },
            ),
            (PhaseModel::ReadingImage, EventModel::HostImage(picture)) => Some(
                match (state.image_push(picture), picture) {
                    (Some(png), Some(p)) => silent(
                        state,
                        PhaseModel::DeviceImage {
                            hash: hash_of(p.rgba),
                            width: p.width,
                            height: p.height,
                        },
                        ActionModel::WriteDeviceImage(png),
                    ),
                    _ => at_rest(state),
                },
            ),
            (PhaseModel::DeviceText(text), EventModel::DeviceWritten(true)) => Some(
                StepModel {
                    activity: shown(false, ContentModel::Text(text)),
                    ..silent(
                        state.sharing_text(text),
                        PhaseModel::Confirming,
                        ActionModel::Pull,
                    )
                },
            ),
            (
                PhaseModel::DeviceImage { hash, width, height },
                EventModel::DeviceWritten(true),
            ) => Some(
                StepModel {
                    activity: shown(false, ContentModel::Image { width, height }),
                    ..silent(
                        state.sharing_image(hash),
                        PhaseModel::Confirming,
                        ActionModel::Pull,
                    )
                },
            ),
            (PhaseModel::DeviceText(_), EventModel::DeviceWritten(false)) => Some(
                connection_lost(state, false),
            ),
            (PhaseModel::DeviceImage { .. }, EventModel::DeviceWritten(false)) => Some(
                connection_lost(state, false),
            ),
            // The counter after a write, so that its echo is ignored.
            (PhaseModel::Confirming, EventModel::Pulled(snap)) => Some(
                at_rest(state.counted(pulled_count(snap))),
            ),
            (PhaseModel::Reconnecting { reseed }, EventModel::Reconnected(ok)) => Some(
                if ok {
                    silent(state, PhaseModel::Subscribing { reseed }, ActionModel::Subscribe)
                } else {
                    at_rest(state)
                },
            ),
            _ => None,
        }
    }
}

/// How an image of these dimensions is shown to the user.
pub fn image_preview(width: usize, height: usize) -> (r: String)
    ensures
        r@ == "🖼 image "@ + decimal(width as nat) + "×"@ + decimal(height as nat),
{
    let mut preview = "🖼 image ".to_string();
    preview.append(decimal_text(width).as_str());
    preview.append("×");
    preview.append(decimal_text(height).as_str());
    preview
}

/// How a text is shown to the user: by its first characters.
pub fn text_preview(text: &str) -> (r: String)
    ensures
        r@ == if text@.len() > CLIPBOARD_PREVIEW_LEN {
            text@.take(CLIPBOARD_PREVIEW_LEN as int)
        } else {
            text@
        },
        r@.len() <= 48,
        text@.len() <= 48 ==> r@ == text@,
{
    if text.unicode_len() > CLIPBOARD_PREVIEW_LEN {
        text.substring_char(0, CLIPBOARD_PREVIEW_LEN).to_string()
    } else {
        text.to_string()
    }
}

fn silent_step(action: ClipAction) -> (r: ClipStep)
    ensures
        r == (ClipStep { action, activity: None }),
{
    ClipStep { action, activity: None }
}

fn text_shown(from_device: bool, text: &String) -> (r: Option<Activity>)
    ensures
        activity_view(r) == shown(from_device, ContentModel::Text(text@)),
{
    Some(Activity { from_device, content: Content::Text(text.clone()) })
}

fn image_shown(from_device: bool, width: usize, height: usize) -> (r: Option<Activity>)
    ensures
        activity_view(r) == shown(
            from_device,
            ContentModel::Image { width: width as nat, height: height as nat },
        ),
{
    Some(Activity { from_device, content: Content::Image { width, height } })
}

impl ClipSync {
    /// The loop at its start, and its first action.
    pub fn new() -> (r: (ClipSync, ClipAction))
        ensures
            r.0@ == starting(),
            r.1@ == ActionModel::ReadHostText,
    {
        let state = ClipState { last_text: None, last_image: None, last_change_count: None };
        (ClipSync { state, phase: Phase::SeedText }, ClipAction::ReadHostText)
    }

    spec fn follows(self, step: ClipStep) -> StepModel {
        StepModel {
            sync: self@,
            action: step.action@,
            activity: activity_view(step.activity),
        }
    }

    fn rest(&mut self) -> (r: ClipStep)
        ensures
            final(self).follows(r) == at_rest(old(self)@.state),
    {
        self.phase = Phase::Waiting;
        silent_step(ClipAction::Wait)
    }

    fn finish_device(&mut self, polling: bool) -> (r: ClipStep)
        ensures
            final(self).follows(r) == device_done(old(self)@.state, polling),
    {
        if polling {
            self.phase = Phase::ReadingText;
            silent_step(ClipAction::ReadHostText)
        } else {
            self.rest()
        }
    }

    fn reconnect(&mut self, reseed: bool) -> (r: ClipStep)
        ensures
            final(self).follows(r) == connection_lost(old(self)@.state, reseed),
    {
        self.phase = Phase::Reconnecting { reseed };
        silent_step(ClipAction::Reconnect)
    }

    fn apply(&mut self, snap: &Snapshot, polling: bool) -> (r: ClipStep)
        ensures
            final(self).follows(r) == on_snapshot(old(self)@.state, snap@, polling),
    {
        match self.state.apply_device_snapshot(snap) {
            HostUpdate::Nothing => self.finish_device(polling),
            HostUpdate::Text(text) => {
                let copy = text.clone();
                self.phase = Phase::HostText { text, polling };
                silent_step(ClipAction::WriteHostText(copy))
            },
            HostUpdate::Image { picture, hash } => {
                self.phase = Phase::HostImage {
                    hash,
                    width: picture.width,
                    height: picture.height,
                    polling,
                };
                silent_step(ClipAction::WriteHostImage(picture))
            },
        }
    }

    fn push_text(&mut self, text: Option<String>) -> (r: ClipStep)
        ensures
            Some(final(self).follows(r)) == (SyncModel {
                state: old(self)@.state,
                phase: PhaseModel::ReadingText,
            }).next(EventModel::HostText(chars_of(text))),
    {
        match self.state.text_push(text) {
            TextPush::NoText => {
                self.phase = Phase::ReadingImage;
                silent_step(ClipAction::ReadHostImage)
            },
            TextPush::Settled => self.rest(),
            TextPush::Send(text) => {
                let copy = text.clone();
                self.phase = Phase::DeviceText(text);
                silent_step(ClipAction::WriteDeviceText(copy))
            },
        }
    }

    fn push_image(&mut self, picture: Option<Picture>) -> (r: ClipStep)
        ensures
            Some(final(self).follows(r)) == (SyncModel {
                state: old(self)@.state,
                phase: PhaseModel::ReadingImage,
            }).next(EventModel::HostImage(picture_view(picture))),
    {
        match (self.state.image_push(&picture), &picture) {
            (Some(push), Some(p)) => {
                self.phase = Phase::DeviceImage {
                    hash: push.hash,
                    width: p.width,
                    height: p.height,
                };
                silent_step(ClipAction::WriteDeviceImage(push.png))
            },
            _ => self.rest(),
        }
    }

    /// Say what follows an event. `None`, with nothing changed, if the event is not
    /// one that the last action leads to.
    pub fn step(&mut self, event: ClipEvent) -> (r: Option<ClipStep>)
        ensures
            match old(self)@.next(event@) {
                Some(next) => {
                    &&& r matches Some(step)
                    &&& final(self)@ == next.sync
                    &&& step.action@ == next.action
                    &&& activity_view(step.activity) == next.activity
                },
                None => r is None && final(self)@ == old(self)@,
            },
    {
        let mut phase = Phase::Waiting;
        std::mem::swap(&mut phase, &mut self.phase);
        let step = match (phase, event) {
            (Phase::SeedText, ClipEvent::HostText(text)) => {
                self.state.last_text = text;
                self.state.last_image = None;
                self.phase = Phase::SeedImage;
                silent_step(ClipAction::ReadHostImage)
            },
            (Phase::SeedImage, ClipEvent::HostImage(picture)) => {
                self.state.seed_image(
                    match picture {
                        Some(p) => Some(image_hash(p.rgba.as_slice())),
                        None => None,
                    },
                );
                self.phase = Phase::SeedDevice;
                silent_step(ClipAction::Pull)
            },
            (Phase::SeedDevice, ClipEvent::Pulled(snap)) => {
                self.state.seed_count(&snap);
                self.phase = Phase::Subscribing { reseed: false };
                silent_step(ClipAction::Subscribe)
            },
            (Phase::Subscribing { reseed }, ClipEvent::Subscribed) => {
                if reseed {
                    self.phase = Phase::Reseeding;
                    silent_step(ClipAction::Pull)
                } else {
                    self.rest()
                }
            },
            (Phase::Reseeding, ClipEvent::Pulled(snap)) => {
                self.state.seed_count(&snap);
                self.rest()
            },
            (Phase::Waiting, ClipEvent::Pushed(Some(snap))) => self.apply(&snap, false),
            (Phase::Waiting, ClipEvent::Pushed(None)) => self.reconnect(true),
            (Phase::Waiting, ClipEvent::Tick) => {
                self.phase = Phase::Pulling;
                silent_step(ClipAction::Pull)
            },
            (Phase::Pulling, ClipEvent::Pulled(Some(snap))) => self.apply(&snap, true),
            (Phase::Pulling, ClipEvent::Pulled(None)) => self.reconnect(false),
            (Phase::HostText { text, polling }, ClipEvent::HostWritten(ok)) => {
                let mut activity: Option<Activity> = None;
                if ok {
                    activity = text_shown(true, &text);
                    self.state.share_text(text);
                }
                ClipStep { activity, ..self.finish_device(polling) }
            },
            (Phase::HostImage { hash, width, height, polling }, ClipEvent::HostWritten(ok)) => {
                let mut activity: Option<Activity> = None;
                if ok {
                    activity = image_shown(true, width, height);
                    self.state.share_image(hash);
                }
                ClipStep { activity, ..self.finish_device(polling) }
            },
            (Phase::ReadingText, ClipEvent::HostText(text)) => self.push_text(text),
            (Phase::ReadingImage, ClipEvent::HostImage(picture)) => self.push_image(picture),
            (Phase::DeviceText(text), ClipEvent::DeviceWritten(ok)) => {
                if ok {
                    let activity: Option<Activity> = text_shown(false, &text);
                    self.state.share_text(text);
                    self.phase = Phase::Confirming;
                    ClipStep { action: ClipAction::Pull, activity }
                } else {
                    self.reconnect(false)
                }
            },
            (Phase::DeviceImage { hash, width, height }, ClipEvent::DeviceWritten(ok)) => {
                if ok {
                    self.state.share_image(hash);
                    self.phase = Phase::Confirming;
                    ClipStep { action: ClipAction::Pull, activity: image_shown(false, width, height) }
                } else {
                    self.reconnect(false)
                }
            },
            (Phase::Confirming, ClipEvent::Pulled(snap)) => {
                self.state.seed_count(&snap);
                self.rest()
            },
            (Phase::Reconnecting { reseed }, ClipEvent::Reconnected(ok)) => {
                if ok {
                    self.phase = Phase::Subscribing { reseed };
                    silent_step(ClipAction::Subscribe)
                } else {
                    self.rest()
                }
            },
            (phase, _) => {
                self.phase = phase;
                return None;
            },
        };
        Some(step)
    }
}

/// Whether an event reports an outcome of an action.
pub open spec fn answers(action: ActionModel, event: EventModel) -> bool {
    match action {
        ActionModel::ReadHostText => event is HostText,
        ActionModel::ReadHostImage => event is HostImage,
        ActionModel::Pull => event is Pulled,
        ActionModel::Subscribe => event is Subscribed,
        ActionModel::Wait => event is Pushed || event is Tick,
        ActionModel::WriteHostText(_) => event is HostWritten,
        ActionModel::WriteHostImage(_) => event is HostWritten,
        ActionModel::WriteDeviceText(_) => event is DeviceWritten,
        ActionModel::WriteDeviceImage(_) => event is DeviceWritten,
        ActionModel::Reconnect => event is Reconnected,
    }
}

/// The step that an event leads to.
pub open spec fn step_of(sync: SyncModel, event: EventModel) -> StepModel {
    sync.next(event)->0
}

/// The loop never gets stuck: it takes every outcome of the action that it asked
/// for, from the first on.
pub proof fn law_every_outcome_is_taken(sync: SyncModel, event: EventModel, outcome: EventModel)
    ensures
        answers(ActionModel::ReadHostText, outcome) ==> starting().next(outcome) is Some,
        sync.next(event) matches Some(step) ==> answers(step.action, outcome) ==> step.sync.next(
            outcome,
        ) is Some,
{
}

/// What is shared once both sides have been read: the host's text or, where there
/// is none to speak of, its image.
pub open spec fn found(text: Option<Seq<char>>, picture: Option<PictureModel>) -> ClipModel {
    ClipModel { last_text: text, last_image: None, last_change_count: None }.seeded(
        picture_hash(picture),
    )
}

/// Connecting copies nothing: the loop reads both sides, adopts what is there as
/// shared, subscribes, and rests.
pub proof fn law_connecting_copies_nothing(
    text: Option<Seq<char>>,
    picture: Option<PictureModel>,
    snap: Option<SnapshotModel>,
)
    ensures
        ({
            let a = step_of(starting(), EventModel::HostText(text));
            let b = step_of(a.sync, EventModel::HostImage(picture));
            let c = step_of(b.sync, EventModel::Pulled(snap));
            let d = step_of(c.sync, EventModel::Subscribed);
            &&& a.action is ReadHostImage
            &&& b.action is Pull
            &&& c.action is Subscribe
            &&& d == at_rest(found(text, picture).counted(pulled_count(snap)))
        }),
{
}

/// What was on both sides when the loop connected stays: a poll that finds the same
/// there writes nothing and changes nothing.
pub proof fn law_what_was_there_stays(
    text: Option<Seq<char>>,
    picture: Option<PictureModel>,
    snap: SnapshotModel,
)
    ensures
        ({
            let state = found(text, picture).counted(snap.change_count);
            let a = step_of(at_rest(state).sync, EventModel::Tick);
            let b = step_of(a.sync, EventModel::Pulled(Some(snap)));
            let c = step_of(b.sync, EventModel::HostText(text));
            &&& a.action is Pull
            &&& b.action is ReadHostText
            &&& c == at_rest(state) || c.action is ReadHostImage && step_of(
                c.sync,
                EventModel::HostImage(picture),
            ) == at_rest(state)
        }),
{
}

/// Only news is written: to the host a text or image of a snapshot whose counter
/// has changed, to the device a text or image that the host was found to hold, and
/// neither if both sides hold it already.
pub proof fn law_only_news_is_written(sync: SyncModel, event: EventModel)
    ensures
        sync.next(event) matches Some(step) ==> {
            let snap = match event {
                EventModel::Pushed(s) => s,
                EventModel::Pulled(s) => s,
                _ => None,
            };
            match step.action {
                ActionModel::WriteHostText(text) => {
                    &&& snap matches Some(s)
                    &&& s.change_count != sync.state.last_change_count
                    &&& text_of(s.items) == Some(text)
                    &&& sync.state.last_text != Some(text)
                },
                ActionModel::WriteHostImage(p) => {
                    &&& snap matches Some(s)
                    &&& s.change_count != sync.state.last_change_count
                    &&& text_of(s.items) is None
                    &&& sync.state.last_image != Some(hash_of(p.rgba))
                },
                ActionModel::WriteDeviceText(text) => {
                    &&& event == EventModel::HostText(Some(text))
                    &&& text.len() > 0
                    &&& sync.state.last_text != Some(text)
                },
                ActionModel::WriteDeviceImage(png) => {
                    &&& event matches EventModel::HostImage(Some(p))
                    &&& encoded(p) == Some(png)
                    &&& sync.state.last_image != Some(hash_of(p.rgba))
                },
                _ => true,
            }
        },
{
}

/// A snapshot whose counter is the one last seen changes nothing and writes nothing
/// to the host: it is the loop's own write coming back, or nothing at all.
pub proof fn law_a_seen_counter_is_ignored(state: ClipModel, snap: SnapshotModel)
    requires
        snap.change_count == state.last_change_count,
    ensures
        step_of(at_rest(state).sync, EventModel::Pushed(Some(snap))) == at_rest(state),
        on_snapshot(state, snap, true) == device_done(state, true),
{
}

/// A text that is copied on the device reaches the host, and goes no further: once
/// written, a poll that finds it on both sides rests.
pub proof fn law_device_text_reaches_the_host(
    state: ClipModel,
    snap: SnapshotModel,
    text: Seq<char>,
)
    requires
        text_of(snap.items) == Some(text),
        text.len() > 0,
        snap.change_count != state.last_change_count,
        state.last_text != Some(text),
    ensures
        ({
            let a = step_of(at_rest(state).sync, EventModel::Pushed(Some(snap)));
            let b = step_of(a.sync, EventModel::HostWritten(true));
            let shared = state.counted(snap.change_count).sharing_text(text);
            let c = step_of(b.sync, EventModel::Tick);
            let d = step_of(c.sync, EventModel::Pulled(Some(snap)));
            let e = step_of(d.sync, EventModel::HostText(Some(text)));
            &&& a.action == ActionModel::WriteHostText(text)
            &&& b.sync == at_rest(shared).sync
            &&& b.action is Wait
            &&& b.activity == shown(true, ContentModel::Text(text))
            &&& c.action is Pull
            &&& d.action is ReadHostText
            &&& e == at_rest(shared)
        }),
{
}

/// A text that is copied on the host reaches the device, and does not come back: a
/// snapshot with the counter that the write left, or with the same text under any
/// counter, writes nothing to the host.
pub proof fn law_host_text_reaches_the_device(
    state: ClipModel,
    text: Seq<char>,
    after: Option<SnapshotModel>,
    echo: SnapshotModel,
)
    requires
        text.len() > 0,
        state.last_text != Some(text),
        echo.change_count == pulled_count(after) || text_of(echo.items) == Some(text),
    ensures
        ({
            let a = step_of(device_done(state, true).sync, EventModel::HostText(Some(text)));
            let b = step_of(a.sync, EventModel::DeviceWritten(true));
            let c = step_of(b.sync, EventModel::Pulled(after));
            let shared = state.sharing_text(text).counted(pulled_count(after));
            &&& a.action == ActionModel::WriteDeviceText(text)
            &&& b.action is Pull
            &&& b.activity == shown(false, ContentModel::Text(text))
            &&& c == at_rest(shared)
            &&& step_of(c.sync, EventModel::Pushed(Some(echo))) == at_rest(
                shared.counted(echo.change_count),
            )
        }),
{
}

/// An image that is copied on the device reaches the host, and goes no further:
/// once written, a poll that finds it on both sides rests.
pub proof fn law_device_image_reaches_the_host(
    state: ClipModel,
    snap: SnapshotModel,
    file: Seq<u8>,
    p: PictureModel,
    text: Option<Seq<char>>,
)
    requires
        snap.change_count != state.last_change_count,
        text_of(snap.items) is None,
        image_of(snap.items) == Some(file),
        decoded(file) == Some(p),
        state.last_image != Some(hash_of(p.rgba)),
        text is None || text == Some(Seq::<char>::empty()),
    ensures
        ({
            let a = step_of(at_rest(state).sync, EventModel::Pushed(Some(snap)));
            let b = step_of(a.sync, EventModel::HostWritten(true));
            let shared = state.counted(snap.change_count).sharing_image(hash_of(p.rgba));
            let c = step_of(b.sync, EventModel::Tick);
            let d = step_of(c.sync, EventModel::Pulled(Some(snap)));
            let e = step_of(d.sync, EventModel::HostText(text));
            let f = step_of(e.sync, EventModel::HostImage(Some(p)));
            &&& a.action == ActionModel::WriteHostImage(p)
            &&& b.sync == at_rest(shared).sync
            &&& b.activity == shown(
                true,
                ContentModel::Image { width: p.width, height: p.height },
            )
            &&& d.action is ReadHostText
            &&& e.action is ReadHostImage
            &&& f == at_rest(shared)
        }),
{
}

/// An image that is copied on the host reaches the device as PNG, and does not come
/// back under the counter that the write left; nor is it sent again while the host
/// holds it.
pub proof fn law_host_image_reaches_the_device(
    state: ClipModel,
    p: PictureModel,
    png: Seq<u8>,
    after: Option<SnapshotModel>,
    echo: SnapshotModel,
)
    requires
        state.last_image != Some(hash_of(p.rgba)),
        encoded(p) == Some(png),
        echo.change_count == pulled_count(after),
    ensures
        ({
            let reading = device_done(state, true).sync;
            let a = step_of(reading, EventModel::HostText(None));
            let b = step_of(a.sync, EventModel::HostImage(Some(p)));
            let c = step_of(b.sync, EventModel::DeviceWritten(true));
            let d = step_of(c.sync, EventModel::Pulled(after));
            let shared = state.sharing_image(hash_of(p.rgba)).counted(pulled_count(after));
            &&& a.action is ReadHostImage
            &&& b.action == ActionModel::WriteDeviceImage(png)
            &&& c.action is Pull
            &&& c.activity == shown(
                false,
                ContentModel::Image { width: p.width, height: p.height },
            )
            &&& d == at_rest(shared)
            &&& step_of(d.sync, EventModel::Pushed(Some(echo))) == at_rest(shared)
            &&& shared.image_push(Some(p)) is None
        }),
{
}

/// Whether at most one of text and image is believed to be shared.
pub open spec fn exclusive(state: ClipModel) -> bool {
    state.last_text is None || state.last_image is None
}

/// Text and image exclude each other from the start on: every step keeps it so.
pub proof fn law_text_and_image_exclude_each_other(sync: SyncModel, event: EventModel)
    ensures
        exclusive(starting().state),
        exclusive(sync.state) ==> (sync.next(event) matches Some(step) ==> exclusive(
            step.sync.state,
        )),
{
}

/// A write that failed changes nothing that is believed.
pub proof fn law_a_failed_write_changes_nothing(sync: SyncModel, event: EventModel)
    requires
        event == EventModel::HostWritten(false) || event == EventModel::DeviceWritten(false),
    ensures
        sync.next(event) matches Some(step) ==> step.sync.state == sync.state && step.activity
            is None,
{
}

/// After a push failed and the connection is back, the device's counter is adopted
/// anew, so that what changed meanwhile is not taken for news.
pub proof fn law_a_lost_push_adopts_the_counter(state: ClipModel, snap: Option<SnapshotModel>)
    ensures
        ({
            let a = step_of(at_rest(state).sync, EventModel::Pushed(None));
            let b = step_of(a.sync, EventModel::Reconnected(true));
            let c = step_of(b.sync, EventModel::Subscribed);
            let d = step_of(c.sync, EventModel::Pulled(snap));
            &&& a.action is Reconnect
            &&& b.action is Subscribe
            &&& c.action is Pull
            &&& d == at_rest(state.counted(pulled_count(snap)))
        }),
{
}

/// After a pull failed, or a write to the device, the loop only subscribes again,
/// and leaves the host's contents for the next poll; while the connection is not
/// back it tries with the next poll.
pub proof fn law_other_failures_only_subscribe(sync: SyncModel, event: EventModel)
    requires
        sync.phase is Pulling && event == EventModel::Pulled(None) || (sync.phase is DeviceText
            || sync.phase is DeviceImage) && event == EventModel::DeviceWritten(false),
    ensures
        ({
            let a = step_of(sync, event);
            let b = step_of(a.sync, EventModel::Reconnected(true));
            let c = step_of(b.sync, EventModel::Subscribed);
            &&& a.action is Reconnect
            &&& step_of(a.sync, EventModel::Reconnected(false)) == at_rest(sync.state)
            &&& b.action is Subscribe
            &&& c == at_rest(sync.state)
        }),
{
}

/// The loop while it waits for a push or, in a poll, for the snapshot that it
/// pulled.
pub open spec fn expecting(state: ClipModel, polling: bool) -> SyncModel {
    SyncModel {
        state,
        phase: if polling {
            PhaseModel::Pulling
        } else {
            PhaseModel::Waiting
        },
    }
}

/// The snapshot, as it comes by a pull or a push.
pub open spec fn arriving(snap: SnapshotModel, polling: bool) -> EventModel {
    if polling {
        EventModel::Pulled(Some(snap))
    } else {
        EventModel::Pushed(Some(snap))
    }
}

/// Whether a step goes on past the device's contents with nothing to write: in a
/// poll to the host's text, else to waiting.
pub open spec fn moves_on(step: StepModel, polling: bool) -> bool {
    if polling {
        step.action is ReadHostText && step.sync.phase is ReadingText
    } else {
        step.action is Wait && step.sync.phase is Waiting
    }
}

/// Whether pushed or pulled, a text that is news to both the counter and what is
/// shared is written to the host. Once that succeeded both sides share the text and
/// nothing else, and it is shown; if it failed, only the counter has changed.
pub proof fn law_device_text_is_written_however_it_comes(
    state: ClipModel,
    snap: SnapshotModel,
    text: Seq<char>,
    polling: bool,
    ok: bool,
)
    requires
        snap.change_count != state.last_change_count,
        text_of(snap.items) == Some(text),
        state.last_text != Some(text),
    ensures
        ({
            let a = step_of(expecting(state, polling), arriving(snap, polling));
            let b = step_of(a.sync, EventModel::HostWritten(ok));
            &&& expecting(state, polling).next(arriving(snap, polling)) is Some
            &&& a.action == ActionModel::WriteHostText(text)
            &&& a.activity is None
            &&& moves_on(b, polling)
            &&& b.sync.state == (ClipModel {
                last_text: if ok {
                    Some(text)
                } else {
                    state.last_text
                },
                last_image: if ok {
                    None
                } else {
                    state.last_image
                },
                last_change_count: snap.change_count,
            })
            &&& ok ==> b.activity == Some(
                ActivityModel { from_device: true, content: ContentModel::Text(text) },
            )
            &&& !ok ==> b.activity is None
        }),
{
}

/// Whether pushed or pulled, an image that is news to both the counter and what is
/// shared is written to the host where there is no text, whatever else is shared.
/// Once that succeeded both sides share the image and nothing else, and it is
/// shown; if it failed, only the counter has changed.
pub proof fn law_device_image_is_written_however_it_comes(
    state: ClipModel,
    snap: SnapshotModel,
    file: Seq<u8>,
    p: PictureModel,
    polling: bool,
    ok: bool,
)
    requires
        snap.change_count != state.last_change_count,
        text_of(snap.items) is None,
        image_of(snap.items) == Some(file),
        decoded(file) == Some(p),
        state.last_image != Some(hash_of(p.rgba)),
    ensures
        ({
            let a = step_of(expecting(state, polling), arriving(snap, polling));
            let b = step_of(a.sync, EventModel::HostWritten(ok));
            &&& expecting(state, polling).next(arriving(snap, polling)) is Some
            &&& a.action == ActionModel::WriteHostImage(p)
            &&& a.activity is None
            &&& moves_on(b, polling)
            &&& b.sync.state == (ClipModel {
                last_text: if ok {
                    None
                } else {
                    state.last_text
                },
                last_image: if ok {
                    Some(hash_of(p.rgba))
                } else {
                    state.last_image
                },
                last_change_count: snap.change_count,
            })
            &&& ok ==> b.activity == Some(
                ActivityModel {
                    from_device: true,
                    content: ContentModel::Image { width: p.width, height: p.height },
                },
            )
            &&& !ok ==> b.activity is None
        }),
{
}

/// A snapshot that is no news, because its counter was seen, because both sides
/// share what it holds, or because it holds nothing that can be written, writes
/// nothing; only its counter is noted.
pub proof fn law_old_news_is_not_written(
    state: ClipModel,
    snap: SnapshotModel,
    polling: bool,
)
    requires
        ({
            let text = text_of(snap.items);
            let file = image_of(snap.items);
            ||| snap.change_count == state.last_change_count
            ||| text is Some && text == state.last_text
            ||| text is None && file is None
            ||| text is None && decoded(file->0) is None
            ||| text is None && state.last_image == Some(hash_of(decoded(file->0)->0.rgba))
        }),
    ensures
        ({
            let a = step_of(expecting(state, polling), arriving(snap, polling));
            &&& expecting(state, polling).next(arriving(snap, polling)) is Some
            &&& moves_on(a, polling)
            &&& a.activity is None
            &&& a.sync.state == (ClipModel {
                last_text: state.last_text,
                last_image: state.last_image,
                last_change_count: snap.change_count,
            })
        }),
{
}

/// In a poll, a text of the host that is not shared is written to the device. Once
/// that succeeded it is shown, both sides share it and nothing else, and the counter
/// is the one that the write left. A text that is shared ends the poll, and without
/// a text the host's image is looked at; neither changes what is believed.
pub proof fn law_host_text_is_sent_once(
    state: ClipModel,
    text: Seq<char>,
    after: SnapshotModel,
)
    requires
        text.len() > 0,
    ensures
        ({
            let reading = SyncModel { state, phase: PhaseModel::ReadingText };
            let a = step_of(reading, EventModel::HostText(Some(text)));
            let b = step_of(a.sync, EventModel::DeviceWritten(true));
            let c = step_of(b.sync, EventModel::Pulled(Some(after)));
            let none = step_of(reading, EventModel::HostText(None));
            let empty = step_of(reading, EventModel::HostText(Some(Seq::empty())));
            &&& state.last_text == Some(text) ==> a.action is Wait && a.sync == (SyncModel {
                state,
                phase: PhaseModel::Waiting,
            })
            &&& state.last_text != Some(text) ==> {
                &&& a.action == ActionModel::WriteDeviceText(text)
                &&& b.action is Pull
                &&& b.activity == Some(
                    ActivityModel { from_device: false, content: ContentModel::Text(text) },
                )
                &&& c.action is Wait
                &&& c.activity is None
                &&& c.sync.phase is Waiting
                &&& c.sync.state == (ClipModel {
                    last_text: Some(text),
                    last_image: None,
                    last_change_count: after.change_count,
                })
                &&& step_of(b.sync, EventModel::Pulled(None)).sync.state == (ClipModel {
                    last_text: Some(text),
                    last_image: None,
                    last_change_count: None,
                })
            }
            &&& none.action is ReadHostImage && none.sync.state == state
            &&& empty == none
            &&& a.activity is None && none.activity is None
        }),
{
}

/// In a poll without text, an image of the host that is not shared and can be
/// encoded is written to the device. Once that succeeded it is shown, both sides
/// share it and nothing else, and the counter is the one that the write left. Any
/// other image, or none, ends the poll and changes nothing.
pub proof fn law_host_image_is_sent_once(
    state: ClipModel,
    picture: Option<PictureModel>,
    after: SnapshotModel,
)
    ensures
        ({
            let reading = SyncModel { state, phase: PhaseModel::ReadingText };
            let looking = step_of(reading, EventModel::HostText(None));
            let a = step_of(looking.sync, EventModel::HostImage(picture));
            let b = step_of(a.sync, EventModel::DeviceWritten(true));
            let c = step_of(b.sync, EventModel::Pulled(Some(after)));
            let hash = Some(hash_of(picture->0.rgba));
            if picture is None || state.last_image == hash || encoded(picture->0) is None {
                &&& a.action is Wait
                &&& a.activity is None
                &&& a.sync == (SyncModel { state, phase: PhaseModel::Waiting })
            } else {
                &&& a.action == ActionModel::WriteDeviceImage(encoded(picture->0)->0)
                &&& a.activity is None
                &&& b.action is Pull
                &&& b.activity == Some(
                    ActivityModel {
                        from_device: false,
                        content: ContentModel::Image {
                            width: picture->0.width,
                            height: picture->0.height,
                        },
                    },
                )
                &&& c.action is Wait
                &&& c.activity is None
                &&& c.sync == (SyncModel {
                    state: ClipModel {
                        last_text: None,
                        last_image: hash,
                        last_change_count: after.change_count,
                    },
                    phase: PhaseModel::Waiting,
                })
            }
        }),
{
}

/// What connecting adopts: the counter that the device shows, the host's text and,
/// where that is missing or empty, the host's image in its place. Nothing is
/// written or shown on the way.
pub proof fn law_connecting_adopts_what_is_there(
    text: Option<Seq<char>>,
    picture: Option<PictureModel>,
    snap: Option<SnapshotModel>,
)
    ensures
        ({
            let a = step_of(starting(), EventModel::HostText(text));
            let b = step_of(a.sync, EventModel::HostImage(picture));
            let c = step_of(b.sync, EventModel::Pulled(snap));
            let d = step_of(c.sync, EventModel::Subscribed);
            let speaks = text is Some && text->0.len() > 0;
            &&& a.action is ReadHostImage && a.activity is None
            &&& b.action is Pull && b.activity is None
            &&& c.action is Subscribe && c.activity is None
            &&& d.action is Wait && d.activity is None
            &&& d.sync.phase is Waiting
            &&& speaks || picture is None ==> d.sync.state.last_text == text
                && d.sync.state.last_image is None
            &&& !speaks && picture is Some ==> d.sync.state.last_text is None
                && d.sync.state.last_image == Some(hash_of(picture->0.rgba))
            &&& snap is None ==> d.sync.state.last_change_count is None
            &&& snap is Some ==> d.sync.state.last_change_count == snap->0.change_count
        }),
{
}

/// A poll begins with a pull and changes nothing by itself; neither does losing the
/// connection, in a push or in a pull. Once it is back, a lost push adopts the
/// device's counter and a lost pull does not; until it is back the loop waits.
pub proof fn law_polling_and_reconnecting_keep_what_is_shared(
    state: ClipModel,
    snap: Option<SnapshotModel>,
)
    ensures
        ({
            let waiting = SyncModel { state, phase: PhaseModel::Waiting };
            let polled = step_of(waiting, EventModel::Tick);
            let lost = step_of(waiting, EventModel::Pushed(None));
            let lost_pull = step_of(polled.sync, EventModel::Pulled(None));
            let back = step_of(
                step_of(lost.sync, EventModel::Reconnected(true)).sync,
                EventModel::Subscribed,
            );
            let adopted = step_of(back.sync, EventModel::Pulled(snap));
            let back_pull = step_of(
                step_of(lost_pull.sync, EventModel::Reconnected(true)).sync,
                EventModel::Subscribed,
            );
            &&& polled.action is Pull
            &&& polled.activity is None
            &&& polled.sync == expecting(state, true)
            &&& lost.action is Reconnect
            &&& lost_pull.action is Reconnect
            &&& step_of(lost.sync, EventModel::Reconnected(true)).action is Subscribe
            &&& step_of(lost_pull.sync, EventModel::Reconnected(true)).action is Subscribe
            &&& step_of(lost.sync, EventModel::Reconnected(false)).sync == waiting
            &&& step_of(lost.sync, EventModel::Reconnected(false)).action is Wait
            &&& step_of(lost_pull.sync, EventModel::Reconnected(false)).sync == waiting
            &&& back.action is Pull
            &&& adopted.action is Wait
            &&& adopted.activity is None
            &&& adopted.sync.phase is Waiting
            &&& adopted.sync.state.last_text == state.last_text
            &&& adopted.sync.state.last_image == state.last_image
            &&& snap is None ==> adopted.sync.state.last_change_count is None
            &&& snap is Some ==> adopted.sync.state.last_change_count == snap->0.change_count
            &&& back_pull.action is Wait
            &&& back_pull.sync == waiting
        }),
{
}

/// The loop takes nothing but the outcomes of the action that it asked for.
pub proof fn law_nothing_is_taken_out_of_turn(
    sync: SyncModel,
    event: EventModel,
    other: EventModel,
)
    ensures
        !(other is HostText) ==> starting().next(other) is None,
        sync.next(event) matches Some(step) ==> !answers(step.action, other) ==> step.sync.next(
            other,
        ) is None,
{
}

/// What happens is taken as it is reported: texts by their characters, pictures and
/// snapshots by what they hold, and outcomes by whether they succeeded.
pub proof fn law_events_say_what_happened(event: ClipEvent)
    ensures
        match event {
            ClipEvent::HostText(Some(text)) => event@ == EventModel::HostText(Some(text@)),
            ClipEvent::HostText(None) => event@ == EventModel::HostText(None),
            ClipEvent::HostImage(Some(picture)) => event@ == EventModel::HostImage(
                Some(picture@),
            ),
            ClipEvent::HostImage(None) => event@ == EventModel::HostImage(None),
            ClipEvent::Pulled(Some(snap)) => event@ == EventModel::Pulled(Some(snap@)),
            ClipEvent::Pulled(None) => event@ == EventModel::Pulled(None),
            ClipEvent::Subscribed => event@ == EventModel::Subscribed,
            ClipEvent::Pushed(Some(snap)) => event@ == EventModel::Pushed(Some(snap@)),
            ClipEvent::Pushed(None) => event@ == EventModel::Pushed(None),
            ClipEvent::Tick => event@ == EventModel::Tick,
            ClipEvent::HostWritten(ok) => event@ == EventModel::HostWritten(ok),
            ClipEvent::DeviceWritten(ok) => event@ == EventModel::DeviceWritten(ok),
            ClipEvent::Reconnected(ok) => event@ == EventModel::Reconnected(ok),
        },
{
}

/// What is to be done, and what is shown, is all of what was decided on: the whole
/// text, picture or file, and the true dimensions.
pub proof fn law_actions_say_what_to_do(action: ClipAction, activity: Activity)
    ensures
        match action {
            ClipAction::ReadHostText => action@ == ActionModel::ReadHostText,
            ClipAction::ReadHostImage => action@ == ActionModel::ReadHostImage,
            ClipAction::Pull => action@ == ActionModel::Pull,
            ClipAction::Subscribe => action@ == ActionModel::Subscribe,
            ClipAction::Wait => action@ == ActionModel::Wait,
            ClipAction::WriteHostText(text) => action@ == ActionModel::WriteHostText(text@),
            ClipAction::WriteHostImage(picture) => action@ == ActionModel::WriteHostImage(
                picture@,
            ),
            ClipAction::WriteDeviceText(text) => action@ == ActionModel::WriteDeviceText(text@),
            ClipAction::WriteDeviceImage(png) => action@ == ActionModel::WriteDeviceImage(png@),
            ClipAction::Reconnect => action@ == ActionModel::Reconnect,
        },
        activity_view(Some(activity)) is Some,
        activity_view(Some(activity))->0.from_device == activity.from_device,
        match activity.content {
            Content::Text(text) => activity_view(Some(activity))->0.content == ContentModel::Text(
                text@,
            ),
            Content::Image { width, height } => activity_view(Some(activity))->0.content == (
            ContentModel::Image { width: width as nat, height: height as nat }),
        },
        activity_view(None) is None,
{
}

} // verus!
