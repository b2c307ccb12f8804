//! The supervisor of device sessions: which device to connect to, and when to stop.
use vstd::prelude::*;

use crate::devices::{DeviceInfo, DeviceModel};
use crate::text::chars_of;

verus! {

/// How often attached devices are listed anew while idle, in milliseconds.
pub const IDLE_RESCAN_MS: u64 = 2000;

/// How long a session may take to end when it is told to, in milliseconds.
pub const SWITCH_GRACE_MS: u64 = 3000;

/// A request from the window or one of the servers.
#[derive(Debug)]
pub enum ControlCmd {
    /// Connect to the device of this UDID.
    Connect(String),
    /// List the attached devices anew.
    Refresh,
    Quit,
}

/// Something to do, whose outcome is reported as the [`ManagerEvent`] named with it.
#[derive(Debug)]
pub enum ManagerAction {
    /// List the attached devices: [`ManagerEvent::Listed`].
    List,
    /// Wait for a request or the rescan interval: [`ManagerEvent::Control`] or
    /// [`ManagerEvent::Rescan`].
    Idle,
    /// Start a session, and attend to it.
    Start(String),
    /// Wait for a request or the session's end: [`ManagerEvent::Control`] or
    /// [`ManagerEvent::Ended`].
    Attend,
    /// Tell the session to end, and wait for it: [`ManagerEvent::Stopped`].
    Stop,
    /// There is nothing more to do.
    Exit,
}

/// Something that happened.
#[derive(Debug)]
pub enum ManagerEvent {
    Listed(Vec<DeviceInfo>),
    /// A request; `None` if whoever makes them is gone.
    Control(Option<ControlCmd>),
    Rescan,
    /// The session ended by itself, with its error if it failed.
    Ended(Option<String>),
    /// The session ended because it was told to, or has been given up on.
    Stopped,
}

/// What a [`ManagerAction`] does.
pub enum ManagerActionModel {
    List,
    Idle,
    Start(Seq<char>),
    Attend,
    Stop,
    Exit,
}

/// What a [`ManagerEvent`] reports.
pub enum ManagerEventModel {
    Listed(Seq<DeviceModel>),
    Connect(Seq<char>),
    Refresh,
    Quit,
    Rescan,
    Ended(Option<Seq<char>>),
    Stopped,
}

impl View for ManagerAction {
    type V = ManagerActionModel;

    open spec fn view(&self) -> ManagerActionModel {
        match self {
            ManagerAction::List => ManagerActionModel::List,
            ManagerAction::Idle => ManagerActionModel::Idle,
            ManagerAction::Start(udid) => ManagerActionModel::Start(udid@),
            ManagerAction::Attend => ManagerActionModel::Attend,
            ManagerAction::Stop => ManagerActionModel::Stop,
            ManagerAction::Exit => ManagerActionModel::Exit,
        }
    }
}

impl View for ManagerEvent {
    type V = ManagerEventModel;

    /// A closed request channel is as good as a request to quit.
    open spec fn view(&self) -> ManagerEventModel {
        match self {
            ManagerEvent::Listed(devs) => ManagerEventModel::Listed(
                devs@.map_values(|d: DeviceInfo| d@),
            ),
            ManagerEvent::Control(Some(ControlCmd::Connect(udid))) => ManagerEventModel::Connect(
                udid@,
            ),
            ManagerEvent::Control(Some(ControlCmd::Refresh)) => ManagerEventModel::Refresh,
            ManagerEvent::Control(Some(ControlCmd::Quit)) => ManagerEventModel::Quit,
            ManagerEvent::Control(None) => ManagerEventModel::Quit,
            ManagerEvent::Rescan => ManagerEventModel::Rescan,
            ManagerEvent::Ended(Some(error)) => ManagerEventModel::Ended(Some(error@)),
            ManagerEvent::Ended(None) => ManagerEventModel::Ended(None),
            ManagerEvent::Stopped => ManagerEventModel::Stopped,
        }
    }
}

/// What is under way.
#[derive(Debug)]
enum Phase {
    Listing,
    Idle,
    Running,
    Relisting,
    /// The session is told to end, to go on with another device or to quit.
    Stopping { next: Option<String> },
    Done,
}

/// What is under way.
pub enum PhaseModel {
    Listing,
    Idle,
    Running,
    Relisting,
    Stopping { next: Option<Seq<char>> },
    Done,
}

/// The supervisor.
#[derive(Debug)]
pub struct Manager {
    target: Option<String>,
    auto_pick: bool,
    active: Option<String>,
    error: Option<String>,
    phase: Phase,
}

/// What a [`Manager`] knows: the device to connect to next, whether to pick the
/// first one by itself, the device of the live session and the error to show.
pub struct ManagerModel {
    pub target: Option<Seq<char>>,
    pub auto_pick: bool,
    pub active: Option<Seq<char>>,
    pub error: Option<Seq<char>>,
    pub phase: PhaseModel,
}

impl View for Manager {
    type V = ManagerModel;

    closed spec fn view(&self) -> ManagerModel {
        ManagerModel {
            target: chars_of(self.target),
            auto_pick: self.auto_pick,
            active: chars_of(self.active),
            error: chars_of(self.error),
            phase: match self.phase {
                Phase::Listing => PhaseModel::Listing,
                Phase::Idle => PhaseModel::Idle,
                Phase::Running => PhaseModel::Running,
                Phase::Relisting => PhaseModel::Relisting,
                Phase::Stopping { next } => PhaseModel::Stopping { next: chars_of(next) },
                Phase::Done => PhaseModel::Done,
            },
        }
    }
}

/// What follows an event: where the supervisor then stands, and what to do.
pub struct ManagerStep {
    pub manager: ManagerModel,
    pub action: ManagerActionModel,
}

/// Where the supervisor starts: it picks the first device unless it was given one.
pub open spec fn starting(udid: Option<Seq<char>>) -> ManagerModel {
    ManagerModel {
        target: udid,
        auto_pick: udid is None,
        active: None,
        error: None,
        phase: PhaseModel::Listing,
    }
}

impl ManagerModel {
    /// Go on with an action.
    pub open spec fn going(self, phase: PhaseModel, action: ManagerActionModel) -> ManagerStep {
        ManagerStep { manager: ManagerModel { phase, ..self }, action }
    }

    /// Without a live session, with this device to connect to next.
    pub open spec fn free(self, target: Option<Seq<char>>) -> ManagerModel {
        ManagerModel { target, active: None, ..self }
    }

    /// Start a session. From the first on, no device is picked any more.
    pub open spec fn connected(self, udid: Seq<char>) -> ManagerStep {
        ManagerModel {
            target: None,
            auto_pick: false,
            active: Some(udid),
            error: None,
            ..self
        }.going(
            PhaseModel::Running,
            ManagerActionModel::Start(udid),
        )
    }

    /// Connect to the device that was asked for; failing that to the first one, if
    /// it may be picked; else be idle.
    pub open spec fn on_list(self, devs: Seq<DeviceModel>) -> ManagerStep {
        if let Some(udid) = self.target {
            self.connected(udid)
        } else if self.auto_pick && devs.len() > 0 {
            self.connected(devs[0].udid)
        } else {
            self.going(PhaseModel::Idle, ManagerActionModel::Idle)
        }
    }

    /// What follows an event; nothing if the event is out of turn.
    pub open spec fn next(self, event: ManagerEventModel) -> Option<ManagerStep> {
        let list = ManagerActionModel::List;
        match (self.phase, event) {
            (PhaseModel::Listing, ManagerEventModel::Listed(devs)) => Some(self.on_list(devs)),
            (PhaseModel::Idle, ManagerEventModel::Connect(udid)) => Some(
                self.free(Some(udid)).going(PhaseModel::Listing, list),
            ),
            (PhaseModel::Idle, ManagerEventModel::Refresh) => Some(
                self.going(PhaseModel::Listing, list),
            ),
            (PhaseModel::Idle, ManagerEventModel::Rescan) => Some(
                self.going(PhaseModel::Listing, list),
            ),
            (PhaseModel::Idle, ManagerEventModel::Quit) => Some(
                self.going(PhaseModel::Done, ManagerActionModel::Exit),
            ),
            (PhaseModel::Running, ManagerEventModel::Ended(error)) => Some(
                ManagerModel {
                    error: if error is Some {
                        error
                    } else {
                        self.error
                    },
                    ..self
                }.free(None).going(PhaseModel::Listing, list),
            ),
            (PhaseModel::Running, ManagerEventModel::Connect(udid)) => Some(
                if self.active == Some(udid) {
                    self.going(PhaseModel::Running, ManagerActionModel::Attend)
                } else {
                    self.going(
                        PhaseModel::Stopping { next: Some(udid) },
                        ManagerActionModel::Stop,
                    )
                },
            ),
            (PhaseModel::Running, ManagerEventModel::Refresh) => Some(
                self.going(PhaseModel::Relisting, list),
            ),
            (PhaseModel::Running, ManagerEventModel::Quit) => Some(
                self.going(PhaseModel::Stopping { next: None }, ManagerActionModel::Stop),
            ),
            (PhaseModel::Relisting, ManagerEventModel::Listed(_)) => Some(
                self.going(PhaseModel::Running, ManagerActionModel::Attend),
            ),
            (PhaseModel::Stopping { next: Some(udid) }, ManagerEventModel::Stopped) => Some(
                self.free(Some(udid)).going(PhaseModel::Listing, list),
            ),
            (PhaseModel::Stopping { next: None }, ManagerEventModel::Stopped) => Some(
                self.free(None).going(PhaseModel::Done, ManagerActionModel::Exit),
            ),
            _ => None,
        }
    }
}

impl Manager {
    /// A supervisor that connects to this device, or to the first one that it
    /// finds, and its first action.
    pub fn new(udid: Option<String>) -> (r: (Manager, ManagerAction))
        ensures
            r.0@ == starting(chars_of(udid)),
            r.1@ == ManagerActionModel::List,
    {
        let auto_pick = udid.is_none();
        let manager = Manager {
            target: udid,
            auto_pick,
            active: None,
            error: None,
            phase: Phase::Listing,
        };
        (manager, ManagerAction::List)
    }

    /// The device of the live session. Input is accepted exactly while there is one.
    pub fn active(&self) -> (r: Option<&String>)
        ensures
            r is Some == self@.active is Some,
            r matches Some(udid) ==> self@.active == Some(udid@),
    {
        self.active.as_ref()
    }

    /// The error that the last session left.
    pub fn error(&self) -> (r: Option<&String>)
        ensures
            r is Some == self@.error is Some,
            r matches Some(error) ==> self@.error == Some(error@),
    {
        self.error.as_ref()
    }

    fn connect(&mut self, udid: String) -> (r: ManagerAction)
        ensures
            (ManagerStep { manager: final(self)@, action: r@ }) == old(self)@.connected(udid@),
    {
        self.target = None;
        self.auto_pick = false;
        self.active = Some(udid.clone());
        self.error = None;
        self.phase = Phase::Running;
        ManagerAction::Start(udid)
    }

    fn pick(&mut self, devs: &Vec<DeviceInfo>) -> (r: ManagerAction)
        ensures
            (ManagerStep { manager: final(self)@, action: r@ }) == old(self)@.on_list(
                devs@.map_values(|d: DeviceInfo| d@),
            ),
    {
        if let Some(udid) = self.target.take() {
            return self.connect(udid);
        }
        if self.auto_pick && devs.len() > 0 {
            let first = devs[0].udid.clone();
            return self.connect(first);
        }
        self.phase = Phase::Idle;
        ManagerAction::Idle
    }

    fn list(&mut self) -> (r: ManagerAction)
        ensures
            (ManagerStep { manager: final(self)@, action: r@ }) == old(self)@.going(
                PhaseModel::Listing,
                ManagerActionModel::List,
            ),
    {
        self.phase = Phase::Listing;
        ManagerAction::List
    }

    fn leave(&mut self, target: Option<String>)
        ensures
            final(self)@ == old(self)@.free(chars_of(target)),
    {
        self.target = target;
        self.active = None;
    }

    fn is_active(&self, udid: &String) -> (r: bool)
        ensures
            r == (self@.active == Some(udid@)),
    {
        match &self.active {
            Some(active) => *active == *udid,
            None => false,
        }
    }

    /// Say what follows an event. `None`, with nothing changed, if the event is not
    /// one that the last action leads to.
    pub fn step(&mut self, event: ManagerEvent) -> (r: Option<ManagerAction>)
        ensures
            match old(self)@.next(event@) {
                Some(next) => {
                    &&& r matches Some(action)
                    &&& final(self)@ == next.manager
                    &&& action@ == next.action
                },
                None => r is None && final(self)@ == old(self)@,
            },
    {
        let mut phase = Phase::Done;
        std::mem::swap(&mut phase, &mut self.phase);
        let action = match (phase, event) {
            (Phase::Listing, ManagerEvent::Listed(devs)) => self.pick(&devs),
            (Phase::Idle, ManagerEvent::Control(Some(ControlCmd::Connect(udid)))) => {
                self.leave(Some(udid));
                self.list()
            },
            (Phase::Idle, ManagerEvent::Control(Some(ControlCmd::Refresh))) => self.list(),
            (Phase::Idle, ManagerEvent::Rescan) => self.list(),
            (Phase::Idle, ManagerEvent::Control(_)) => {
                self.phase = Phase::Done;
                ManagerAction::Exit
            },
            (Phase::Running, ManagerEvent::Ended(error)) => {
                if error.is_some() {
                    self.error = error;
                }
                self.leave(None);
                self.list()
            },
            (Phase::Running, ManagerEvent::Control(Some(ControlCmd::Connect(udid)))) => {
                if self.is_active(&udid) {
                    self.phase = Phase::Running;
                    ManagerAction::Attend
                } else {
                    self.phase = Phase::Stopping { next: Some(udid) };
                    ManagerAction::Stop
                }
            },
            (Phase::Running, ManagerEvent::Control(Some(ControlCmd::Refresh))) => {
                self.phase = Phase::Relisting;
                ManagerAction::List
            },
            (Phase::Running, ManagerEvent::Control(_)) => {
                self.phase = Phase::Stopping { next: None };
                ManagerAction::Stop
            },
            (Phase::Relisting, ManagerEvent::Listed(_)) => {
                self.phase = Phase::Running;
                ManagerAction::Attend
            },
            (Phase::Stopping { next }, ManagerEvent::Stopped) => {
                let quit = next.is_none();
                self.leave(next);
                if quit {
                    self.phase = Phase::Done;
                    ManagerAction::Exit
                } else {
                    self.list()
                }
            },
            (phase, _) => {
                self.phase = phase;
                return None;
            },
        };
        Some(action)
    }
}

/// Whether a session is live: one has been started and has not ended.
pub open spec fn live(manager: ManagerModel) -> bool {
    manager.phase is Running || manager.phase is Relisting || manager.phase is Stopping
}

/// Whether what the supervisor knows fits together: a device is active exactly
/// while a session is live, and no device is left to be picked then.
pub open spec fn consistent(manager: ManagerModel) -> bool {
    &&& live(manager) <==> manager.active is Some
    &&& live(manager) ==> !manager.auto_pick
}

/// Whether an event reports an outcome of an action.
pub open spec fn answers(action: ManagerActionModel, event: ManagerEventModel) -> bool {
    let control = event is Connect || event is Refresh || event is Quit;
    match action {
        ManagerActionModel::List => event is Listed,
        ManagerActionModel::Idle => control || event is Rescan,
        ManagerActionModel::Start(_) => control || event is Ended,
        ManagerActionModel::Attend => control || event is Ended,
        ManagerActionModel::Stop => event is Stopped,
        ManagerActionModel::Exit => false,
    }
}

/// The step that an event leads to.
pub open spec fn step_of(manager: ManagerModel, event: ManagerEventModel) -> ManagerStep {
    manager.next(event)->0
}

/// Two sessions never live at once: one is started only when none does, and the
/// device that is shown as active is that of the live one.
pub proof fn law_one_session_at_a_time(
    udid: Option<Seq<char>>,
    manager: ManagerModel,
    event: ManagerEventModel,
)
    requires
        consistent(manager),
    ensures
        consistent(starting(udid)) && !live(starting(udid)),
        manager.next(event) matches Some(step) ==> {
            &&& consistent(step.manager)
            &&& step.action matches ManagerActionModel::Start(u) ==> !live(manager)
                && step.manager.active == Some(u)
            &&& !(step.action is Start) && live(step.manager) ==> step.manager.active
                == manager.active
        },
{
}

/// The supervisor never gets stuck: it takes every outcome of the action that it
/// asked for, from the first on.
pub proof fn law_every_outcome_is_taken(
    udid: Option<Seq<char>>,
    manager: ManagerModel,
    event: ManagerEventModel,
    outcome: ManagerEventModel,
)
    ensures
        answers(ManagerActionModel::List, outcome) ==> starting(udid).next(outcome) is Some,
        manager.next(event) matches Some(step) ==> answers(step.action, outcome)
            ==> step.manager.next(outcome) is Some,
{
}

/// A device that was given is connected to, whatever is attached.
pub proof fn law_a_given_device_is_connected_to(udid: Seq<char>, devs: Seq<DeviceModel>)
    ensures
        step_of(starting(Some(udid)), ManagerEventModel::Listed(devs)).action
            == ManagerActionModel::Start(udid),
{
}

/// Without one, the first device that is found is connected to; until there is any,
/// the supervisor is idle and looks again.
pub proof fn law_the_first_device_is_picked(manager: ManagerModel, devs: Seq<DeviceModel>)
    requires
        manager.phase is Listing,
        manager.target is None,
        manager.auto_pick,
    ensures
        ({
            let a = step_of(manager, ManagerEventModel::Listed(devs));
            if devs.len() > 0 {
                &&& a.action == ManagerActionModel::Start(devs[0].udid)
                &&& !a.manager.auto_pick
            } else {
                &&& a.action is Idle
                &&& step_of(a.manager, ManagerEventModel::Rescan) == (ManagerStep {
                    manager,
                    action: ManagerActionModel::List,
                })
            }
        }),
{
}

/// A device is picked only before the first session: starting any session uses the
/// right up, it is never regained, and a device that nobody asked for is connected to
/// only by it.
pub proof fn law_a_device_is_picked_only_at_first(manager: ManagerModel, event: ManagerEventModel)
    ensures
        manager.next(event) matches Some(step) ==> {
            &&& step.manager.auto_pick ==> manager.auto_pick
            &&& step.action is Start ==> !step.manager.auto_pick
            &&& step.action is Start && manager.target is None ==> manager.auto_pick
        },
{
}

/// A session that ends by itself leaves the supervisor idle, whatever is attached,
/// and it stays so until a device is asked for.
pub proof fn law_an_ended_session_leaves_it_idle(
    manager: ManagerModel,
    error: Option<Seq<char>>,
    devs: Seq<DeviceModel>,
    again: Seq<DeviceModel>,
    event: ManagerEventModel,
)
    requires
        consistent(manager),
        manager.phase is Running,
        event is Refresh || event is Rescan,
    ensures
        ({
            let a = step_of(manager, ManagerEventModel::Ended(error));
            let b = step_of(a.manager, ManagerEventModel::Listed(devs));
            let c = step_of(b.manager, event);
            let d = step_of(c.manager, ManagerEventModel::Listed(again));
            &&& a.action is List
            &&& b.action is Idle
            &&& b.manager.active is None
            &&& error is Some ==> b.manager.error == error
            &&& c.action is List
            &&& d == b
        }),
{
}

/// Asking for another device ends the session first, and connects to that device
/// next, whatever is attached.
pub proof fn law_a_switch_stops_first(
    manager: ManagerModel,
    udid: Seq<char>,
    devs: Seq<DeviceModel>,
)
    requires
        manager.phase is Running,
        manager.active != Some(udid),
    ensures
        ({
            let a = step_of(manager, ManagerEventModel::Connect(udid));
            let b = step_of(a.manager, ManagerEventModel::Stopped);
            let c = step_of(b.manager, ManagerEventModel::Listed(devs));
            &&& a.action is Stop
            &&& b.action is List
            &&& b.manager.active is None
            &&& c.action == ManagerActionModel::Start(udid)
            &&& c.manager.error is None
        }),
{
}

/// Asking for the device that is connected changes nothing, nor does a refresh.
pub proof fn law_the_session_goes_on(
    manager: ManagerModel,
    udid: Seq<char>,
    devs: Seq<DeviceModel>,
)
    requires
        manager.phase is Running,
        manager.active == Some(udid),
    ensures
        ({
            let attending = ManagerStep { manager, action: ManagerActionModel::Attend };
            let a = step_of(manager, ManagerEventModel::Refresh);
            &&& step_of(manager, ManagerEventModel::Connect(udid)) == attending
            &&& a.action is List
            &&& step_of(a.manager, ManagerEventModel::Listed(devs)) == attending
        }),
{
}

/// A request to quit ends a live session first, and then everything.
pub proof fn law_quitting_ends_the_session(manager: ManagerModel)
    requires
        manager.phase is Idle || manager.phase is Running,
    ensures
        ({
            let a = step_of(manager, ManagerEventModel::Quit);
            let last = if manager.phase is Idle {
                a
            } else {
                step_of(a.manager, ManagerEventModel::Stopped)
            };
            &&& manager.phase is Running ==> a.action is Stop
            &&& last.action is Exit
            &&& manager.phase is Running ==> last.manager.active is None
            &&& forall|event: ManagerEventModel| last.manager.next(event) is None
        }),
{
}

/// Once the devices are listed, a session is started with the device that was asked
/// for or, failing that, with the first one, if none has been started before. It
/// begins with nothing asked for, nothing left to pick and no error. Otherwise the
/// supervisor is idle, and knows what it knew.
pub proof fn law_a_listing_settles_the_device(
    manager: ManagerModel,
    devs: Seq<DeviceModel>,
)
    requires
        manager.phase is Listing,
    ensures
        ({
            let step = step_of(manager, ManagerEventModel::Listed(devs));
            let picked = if manager.target is Some {
                manager.target
            } else if manager.auto_pick && devs.len() > 0 {
                Some(devs.first().udid)
            } else {
                None
            };
            &&& manager.next(ManagerEventModel::Listed(devs)) is Some
            &&& picked is Some ==> {
                &&& step.action == ManagerActionModel::Start(picked->0)
                &&& step.manager == (ManagerModel {
                    target: None,
                    auto_pick: false,
                    active: picked,
                    error: None,
                    phase: PhaseModel::Running,
                })
            }
            &&& picked is None ==> {
                &&& step.action is Idle
                &&& step.manager == (ManagerModel {
                    target: None,
                    auto_pick: manager.auto_pick,
                    active: manager.active,
                    error: manager.error,
                    phase: PhaseModel::Idle,
                })
            }
        }),
{
}

/// A device that is asked for while idle is connected to next, whatever is attached.
/// Looking again changes nothing that is known.
pub proof fn law_an_idle_supervisor_takes_requests(
    manager: ManagerModel,
    udid: Seq<char>,
    devs: Seq<DeviceModel>,
    event: ManagerEventModel,
)
    requires
        manager.phase is Idle,
        event is Refresh || event is Rescan,
    ensures
        ({
            let a = step_of(manager, ManagerEventModel::Connect(udid));
            let b = step_of(a.manager, ManagerEventModel::Listed(devs));
            let looked = step_of(manager, event);
            &&& a.action is List
            &&& a.manager.active is None
            &&& a.manager.error == manager.error
            &&& b.action == ManagerActionModel::Start(udid)
            &&& b.manager.active == Some(udid)
            &&& b.manager.error is None
            &&& looked.action is List
            &&& looked.manager == (ManagerModel {
                target: manager.target,
                auto_pick: manager.auto_pick,
                active: manager.active,
                error: manager.error,
                phase: PhaseModel::Listing,
            })
        }),
{
}

/// A session that ends by itself leaves its error, if it has one, to be shown until
/// the next session starts; one that is told to end leaves what was shown. Either
/// way nothing is active any more, and only a switch leaves a device to connect to.
pub proof fn law_the_error_outlasts_the_session(
    manager: ManagerModel,
    error: Option<Seq<char>>,
    udid: Seq<char>,
)
    requires
        manager.phase is Running,
        manager.active != Some(udid),
    ensures
        ({
            let ended = step_of(manager, ManagerEventModel::Ended(error));
            let stopping = step_of(manager, ManagerEventModel::Connect(udid));
            let stopped = step_of(stopping.manager, ManagerEventModel::Stopped);
            &&& ended.action is List
            &&& ended.manager == (ManagerModel {
                target: None,
                auto_pick: manager.auto_pick,
                active: None,
                error: if error is Some {
                    error
                } else {
                    manager.error
                },
                phase: PhaseModel::Listing,
            })
            &&& stopping.action is Stop
            &&& stopping.manager.active == manager.active
            &&& stopped.action is List
            &&& stopped.manager == (ManagerModel {
                target: Some(udid),
                auto_pick: manager.auto_pick,
                active: None,
                error: manager.error,
                phase: PhaseModel::Listing,
            })
        }),
{
}

/// The supervisor begins by listing, with the device that it was given to connect
/// to; only without one may it pick.
pub proof fn law_it_begins_with_what_it_was_given(udid: Option<Seq<char>>)
    ensures
        starting(udid) == (ManagerModel {
            target: udid,
            auto_pick: udid == None::<Seq<char>>,
            active: None,
            error: None,
            phase: PhaseModel::Listing,
        }),
{
}

/// The supervisor takes nothing but the outcomes of the action that it asked for.
pub proof fn law_nothing_is_taken_out_of_turn(
    udid: Option<Seq<char>>,
    manager: ManagerModel,
    event: ManagerEventModel,
    other: ManagerEventModel,
)
    ensures
        !(other is Listed) ==> starting(udid).next(other) is None,
        manager.next(event) matches Some(step) ==> !answers(step.action, other)
            ==> step.manager.next(other) is None,
{
}

/// What happens is taken as it is reported, a request channel that is closed as a
/// request to quit, and what is to be done is told with the device's whole UDID.
pub proof fn law_events_and_actions_say_what_they_mean(
    devs: Vec<DeviceInfo>,
    i: int,
    udid: String,
    error: String,
)
    ensures
        ManagerEvent::Listed(devs)@ matches ManagerEventModel::Listed(list) && list.len()
            == devs@.len() && (0 <= i < devs@.len() ==> list[i] == devs@[i]@),
        ManagerEvent::Control(Some(ControlCmd::Connect(udid)))@ == ManagerEventModel::Connect(
            udid@,
        ),
        ManagerEvent::Control(Some(ControlCmd::Refresh))@ is Refresh,
        ManagerEvent::Control(Some(ControlCmd::Quit))@ is Quit,
        ManagerEvent::Control(None)@ is Quit,
        ManagerEvent::Rescan@ is Rescan,
        ManagerEvent::Ended(Some(error))@ == ManagerEventModel::Ended(Some(error@)),
        ManagerEvent::Ended(None)@ == ManagerEventModel::Ended(None),
        ManagerEvent::Stopped@ is Stopped,
        ManagerAction::List@ is List,
        ManagerAction::Idle@ is Idle,
        ManagerAction::Start(udid)@ == ManagerActionModel::Start(udid@),
        ManagerAction::Attend@ is Attend,
        ManagerAction::Stop@ is Stop,
        ManagerAction::Exit@ is Exit,
{
}

} // verus!
