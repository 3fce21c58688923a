//! The node application: the observed gate table, the race aggregator and
//! the role state machine.
//!
//! The state machine is a pure transition function: each tick the runner
//! reads the peripherals and the transport into a [`TickInputs`], the
//! machine decides the next state and a set of [`TickEffects`], and the
//! runner performs the effects (publish a beacon, record the coordinator
//! time, push the system state to subscribers, or terminate).
pub mod gates;
pub mod json;
pub mod race;

use vstd::prelude::*;

use crate::app::gates::spec_gates_empty_view;
use crate::app::gates::Gates;
use crate::app::race::spec_race_step;
use crate::app::race::Race;
use crate::hal::button::ButtonState;
use crate::hal::gate::GateState;
use crate::hal::rgb_led::RgbLed;
use crate::hal::rgb_led::RgbLedColor;
use crate::svc::clock::CoordinatedInstant;
use crate::svc::clock::LocalInstant;
use crate::svc::clock::LocalOffset;
use crate::svc::race_node::CoordinatorBeacon;
use crate::svc::race_node::GateBeacon;
use crate::svc::race_node::NodeAddress;
use crate::svc::race_node::RaceNodeMessage;

verus! {

/// A gate that cannot synchronize within this window terminates, in wall
/// milliseconds.
pub const GATE_STARTUP_TIMEOUT_MS: u64 = 10_000;

/// A synchronized gate that hears no coordinator beacon for this window
/// falls back to startup, in wall milliseconds.
pub const COORDINATOR_ABSENT_TIMEOUT_MS: u64 = 10_000;

/// What the coordinator aggregates and the UI subscribes to.
#[derive(Debug, Copy, Clone)]
pub struct SystemState {
    pub time: CoordinatedInstant,
    pub gates: Gates,
    pub race: Race,
}

impl Default for SystemState {
    fn default() -> (r: Self)
        ensures
            r.time == CoordinatedInstant(0),
            r.gates@ =~= spec_gates_empty_view(),
            r.race == (Race { start_time: None, finish_time: None, duration: None }),
    {
        SystemState {
            time: CoordinatedInstant::from_millis(0),
            gates: Gates::default(),
            race: Race::default(),
        }
    }
}

/// Everything one tick of the state machine reads: the peripherals, the
/// clocks and the transport's observed state.
#[derive(Debug, Copy, Clone)]
pub struct TickInputs {
    pub address: NodeAddress,
    pub gate_state: GateState,
    pub button_state: ButtonState,
    pub is_wifi_up: bool,
    /// The local clock's reading; None once the clock overflowed.
    pub local_time: Option<LocalInstant>,
    /// The observed coordinator time, already filtered by freshness.
    pub coordinator_time: Option<CoordinatedInstant>,
    /// Wall milliseconds since the last coordinator beacon; `u64::MAX`
    /// when none arrived yet.
    pub time_since_coordinator_beacon_ms: u64,
    /// The observed gate table.
    pub gates: Gates,
    /// The wall clock, in milliseconds.
    pub wall_time_ms: u64,
}

/// Everything one tick of the state machine asks the runner to do.
#[derive(Debug, Copy, Clone)]
pub struct TickEffects {
    /// Stage this beacon for broadcast.
    pub publish: Option<RaceNodeMessage>,
    /// Record this node's own coordinator time in the transport.
    pub set_coordinator_time: Option<CoordinatedInstant>,
    /// Hand this snapshot to the push fan-out.
    pub push_system_state: Option<SystemState>,
    /// The node cannot serve its role and must terminate.
    pub fatal: bool,
}

/// A tick that asks for nothing.
pub open spec fn spec_no_effects() -> TickEffects {
    TickEffects { publish: None, set_coordinator_time: None, push_system_state: None, fatal: false }
}

impl TickEffects {
    pub fn none() -> (r: Self)
        ensures
            r == spec_no_effects(),
    {
        TickEffects {
            publish: None,
            set_coordinator_time: None,
            push_system_state: None,
            fatal: false,
        }
    }
}

/// A node leaves Init only while nobody is holding the button, nothing
/// blocks a gate's beam and the network is up.
pub open spec fn spec_peripherals_idle(i: TickInputs) -> bool {
    i.button_state != ButtonState::Pressed && i.gate_state != GateState::Active && i.is_wifi_up
}

/// Waiting for a role: the node watches its peripherals until it can start
/// up in the role its address says: a gate, or the coordinator.
#[derive(Debug, Copy, Clone, PartialEq, Eq, Structural)]
pub struct InitState {
    pub gate_state: GateState,
    pub button_state: ButtonState,
    pub time: LocalInstant,
}

/// The Init fields a node boots with.
pub open spec fn spec_init_default() -> InitState {
    InitState {
        gate_state: GateState::Inactive,
        button_state: ButtonState::Released,
        time: LocalInstant(0),
    }
}

impl Default for InitState {
    fn default() -> (r: Self)
        ensures
            r == spec_init_default(),
    {
        InitState {
            gate_state: GateState::Inactive,
            button_state: ButtonState::Released,
            time: LocalInstant::from_millis(0),
        }
    }
}

/// Serving as the coordinator: each tick it re-publishes its clock,
/// aggregates the observed gates into the race record and snapshots the
/// system state.
#[derive(Debug, Copy, Clone)]
pub struct CoordinatorReadyState {
    pub time: CoordinatedInstant,
    pub system_state: SystemState,
    pub any_gate_active: bool,
}

/// A gate waiting for its first coordinator beacon.
#[derive(Debug, Copy, Clone, PartialEq, Eq, Structural)]
pub struct GateStartupState {
    /// Wall time the wait began, in milliseconds.
    pub time_started_ms: u64,
}

/// A synchronized gate: it timestamps activations in coordinated time and
/// broadcasts its state.
#[derive(Debug, Copy, Clone, PartialEq, Eq, Structural)]
pub struct GateReadyState {
    pub is_wifi_connected: bool,
    pub gate_state: GateState,
    /// The synchronization offset used for dead reckoning.
    pub offset: LocalOffset,
    pub last_activation_time: Option<CoordinatedInstant>,
}

#[derive(Debug, Copy, Clone)]
pub enum AppState {
    Init(InitState),
    CoordinatorReady(CoordinatorReadyState),
    GateStartup(GateStartupState),
    GateReady(GateReadyState),
}

/// How one tick moves a node out of Init: a gate address starts the
/// startup wait, the coordinator address starts coordinating with its local
/// clock as the coordinated time and an empty system state; anything else —
/// a held button, a blocked beam, no network, a failed clock — keeps it
/// waiting.
pub open spec fn spec_init_transition(
    s: InitState,
    i: TickInputs,
    next: AppState,
    eff: TickEffects,
) -> bool {
    &&& eff == spec_no_effects()
    &&& (i.local_time is None ==> next == AppState::Init(s))
    &&& (i.local_time matches Some(lt) ==> (if i.address@ != 0 && spec_peripherals_idle(i) {
        next == AppState::GateStartup(GateStartupState { time_started_ms: i.wall_time_ms })
    } else if i.address@ == 0 && spec_peripherals_idle(i) {
        {
            &&& next matches AppState::CoordinatorReady(c)
            &&& c.time == CoordinatedInstant(lt@)
            &&& c.any_gate_active == false
            &&& c.system_state.time == CoordinatedInstant(0)
            &&& c.system_state.gates@ =~= spec_gates_empty_view()
            &&& c.system_state.race == (Race {
                start_time: None,
                finish_time: None,
                duration: None,
            })
        }
    } else {
        next == AppState::Init(s)
    }))
}

impl InitState {
    pub fn update(&self, inputs: &TickInputs) -> (r: (AppState, TickEffects))
        ensures
            spec_init_transition(*self, *inputs, r.0, r.1),
    {
        let eff = TickEffects::none();
        let local_time = match inputs.local_time {
            Some(t) => t,
            None => {
                return (AppState::Init(*self), eff);
            },
        };
        let idle = inputs.button_state != ButtonState::Pressed && inputs.gate_state
            != GateState::Active && inputs.is_wifi_up;
        if inputs.address.is_gate() && idle {
            (
                AppState::GateStartup(GateStartupState { time_started_ms: inputs.wall_time_ms }),
                eff,
            )
        } else if inputs.address.is_coordinator() && idle {
            // On the coordinator, local time is the coordinated time,
            // without any offset.
            (
                AppState::CoordinatorReady(
                    CoordinatorReadyState {
                        time: CoordinatedInstant::from_millis(local_time.as_millis()),
                        system_state: SystemState::default(),
                        any_gate_active: false,
                    },
                ),
                eff,
            )
        } else {
            (AppState::Init(*self), eff)
        }
    }
}

/// How one tick of coordinating goes: without the network the node drops
/// back to Init; without a clock reading it skips the tick; otherwise it
/// adopts its local time as the coordinated time, publishes it as a beacon,
/// records it in the transport, folds the observed gates into the race and
/// pushes the fresh snapshot to the fan-out.
pub open spec fn spec_coordinator_transition(
    s: CoordinatorReadyState,
    i: TickInputs,
    next: AppState,
    eff: TickEffects,
) -> bool {
    &&& (!i.is_wifi_up ==> next == AppState::Init(spec_init_default()) && eff == spec_no_effects())
    &&& (i.is_wifi_up && i.local_time is None ==> next == AppState::CoordinatorReady(s) && eff
        == spec_no_effects())
    &&& (i.is_wifi_up ==> (i.local_time matches Some(lt) ==> {
        let time = CoordinatedInstant(lt@);
        let ss = SystemState {
            time,
            gates: i.gates,
            race: spec_race_step(s.system_state.race, i.gates),
        };
        &&& next == AppState::CoordinatorReady(
            CoordinatorReadyState {
                time,
                system_state: ss,
                any_gate_active: i.gates@[0].active || i.gates@[3].active,
            },
        )
        &&& eff == (TickEffects {
            publish: Some(RaceNodeMessage::CoordinatorBeacon(CoordinatorBeacon { time })),
            set_coordinator_time: Some(time),
            push_system_state: Some(ss),
            fatal: false,
        })
    }))
}

impl CoordinatorReadyState {
    pub fn update(&self, inputs: &TickInputs) -> (r: (AppState, TickEffects))
        ensures
            spec_coordinator_transition(*self, *inputs, r.0, r.1),
    {
        if !inputs.is_wifi_up {
            // Without the access point the system is not reliable: start
            // again.
            return (AppState::Init(InitState::default()), TickEffects::none());
        }
        let local_time = match inputs.local_time {
            Some(t) => t,
            None => {
                return (AppState::CoordinatorReady(*self), TickEffects::none());
            },
        };
        // On the coordinator, local time is the coordinated time, without
        // any offset.
        let time = CoordinatedInstant::from_millis(local_time.as_millis());
        let gates = inputs.gates;
        let mut race = self.system_state.race;
        race.set_gates(&gates);
        let any_gate_active = gates.start_gate().is_active() || gates.finish_gate().is_active();
        let system_state = SystemState { time, gates, race };
        let eff = TickEffects {
            publish: Some(RaceNodeMessage::CoordinatorBeacon(CoordinatorBeacon { time })),
            set_coordinator_time: Some(time),
            push_system_state: Some(system_state),
            fatal: false,
        };
        (
            AppState::CoordinatorReady(
                CoordinatorReadyState { time, system_state, any_gate_active },
            ),
            eff,
        )
    }
}

/// How one tick of the startup wait goes: past the timeout a gate gives
/// up for good — resynchronizing silently could corrupt race times. Before
/// it, the first fresh coordinator time yields the offset and leaves a gate
/// ready; an offset outside the millisecond range counts as not seen.
pub open spec fn spec_gate_startup_transition(
    s: GateStartupState,
    i: TickInputs,
    next: AppState,
    eff: TickEffects,
) -> bool {
    let timed_out = i.wall_time_ms >= s.time_started_ms && i.wall_time_ms - s.time_started_ms
        > GATE_STARTUP_TIMEOUT_MS;
    &&& eff.publish is None
    &&& eff.set_coordinator_time is None
    &&& eff.push_system_state is None
    &&& eff.fatal == timed_out
    &&& (timed_out ==> next == AppState::GateStartup(s))
    &&& (!timed_out ==> (match (i.local_time, i.coordinator_time) {
        (Some(lt), Some(ct)) => if i32::MIN <= ct@ - lt@ <= i32::MAX {
            next == AppState::GateReady(
                GateReadyState {
                    is_wifi_connected: i.is_wifi_up,
                    gate_state: i.gate_state,
                    offset: LocalOffset((ct@ - lt@) as i32),
                    last_activation_time: None,
                },
            )
        } else {
            next == AppState::GateStartup(s)
        },
        _ => next == AppState::GateStartup(s),
    }))
}

impl GateStartupState {
    pub fn update(&self, inputs: &TickInputs) -> (r: (AppState, TickEffects))
        ensures
            spec_gate_startup_transition(*self, *inputs, r.0, r.1),
    {
        if inputs.wall_time_ms >= self.time_started_ms && inputs.wall_time_ms
            - self.time_started_ms > GATE_STARTUP_TIMEOUT_MS {
            // No way to recover a connection that never came up: terminate
            // and let a supervisor restart the node.
            let eff = TickEffects {
                publish: None,
                set_coordinator_time: None,
                push_system_state: None,
                fatal: true,
            };
            return (AppState::GateStartup(*self), eff);
        }
        let eff = TickEffects::none();
        let local_time = match inputs.local_time {
            Some(t) => t,
            None => {
                return (AppState::GateStartup(*self), eff);
            },
        };
        let coordinator_time = match inputs.coordinator_time {
            Some(t) => t,
            None => {
                return (AppState::GateStartup(*self), eff);
            },
        };
        let diff: i64 = coordinator_time.as_millis() as i64 - local_time.as_millis() as i64;
        if i32::MIN as i64 <= diff && diff <= i32::MAX as i64 {
            (
                AppState::GateReady(
                    GateReadyState {
                        is_wifi_connected: inputs.is_wifi_up,
                        gate_state: inputs.gate_state,
                        offset: LocalOffset::from_millis(diff as i32),
                        last_activation_time: None,
                    },
                ),
                eff,
            )
        } else {
            (AppState::GateStartup(*self), eff)
        }
    }
}

/// The beam and the button together: the button counts as an activation
/// source, which makes a gate testable by hand.
pub open spec fn spec_gate_state_or_button(gate: GateState, button: ButtonState) -> GateState {
    if gate == GateState::Active || button == ButtonState::Pressed {
        GateState::Active
    } else {
        GateState::Inactive
    }
}

pub fn gate_state_or_button(gate: GateState, button: ButtonState) -> (r: GateState)
    ensures
        r == spec_gate_state_or_button(gate, button),
{
    if gate == GateState::Active || button == ButtonState::Pressed {
        GateState::Active
    } else {
        GateState::Inactive
    }
}

/// The offset a ready gate runs this tick with: recomputed from a fresh
/// coordinator time when one is observed and in range, the stored one
/// otherwise (dead reckoning).
pub open spec fn spec_refreshed_offset(s: GateReadyState, i: TickInputs) -> LocalOffset {
    match (i.local_time, i.coordinator_time) {
        (Some(lt), Some(ct)) => if i32::MIN <= ct@ - lt@ <= i32::MAX {
            LocalOffset((ct@ - lt@) as i32)
        } else {
            s.offset
        },
        _ => s.offset,
    }
}

/// How one tick of a ready gate goes: without a clock reading, or with a
/// coordinated time out of range, it skips the tick; a coordinator silent
/// past the absence window sends it back to startup; otherwise it stamps an
/// active beam (or pressed button) with the coordinated time, keeps the
/// previous stamp when idle, and publishes its beacon.
pub open spec fn spec_gate_ready_transition(
    s: GateReadyState,
    i: TickInputs,
    next: AppState,
    eff: TickEffects,
) -> bool {
    &&& !eff.fatal
    &&& eff.set_coordinator_time is None
    &&& eff.push_system_state is None
    &&& (i.local_time is None ==> next == AppState::GateReady(s) && eff.publish is None)
    &&& (i.local_time matches Some(lt) ==> {
        let offset1 = spec_refreshed_offset(s, i);
        if !(i32::MIN <= lt@ + offset1@ <= i32::MAX) {
            next == AppState::GateReady(s) && eff.publish is None
        } else if i.time_since_coordinator_beacon_ms > COORDINATOR_ABSENT_TIMEOUT_MS {
            next == AppState::GateStartup(GateStartupState { time_started_ms: i.wall_time_ms })
                && eff.publish is None
        } else {
            let t = CoordinatedInstant((lt@ + offset1@) as i32);
            let gs = spec_gate_state_or_button(i.gate_state, i.button_state);
            let lat = if gs == GateState::Active {
                Some(t)
            } else {
                s.last_activation_time
            };
            &&& next == AppState::GateReady(
                GateReadyState {
                    is_wifi_connected: i.is_wifi_up,
                    gate_state: gs,
                    offset: offset1,
                    last_activation_time: lat,
                },
            )
            &&& eff.publish == Some(
                RaceNodeMessage::GateBeacon(
                    GateBeacon { addr: i.address, state: gs, last_activation_time: lat },
                ),
            )
        }
    })
}

impl GateReadyState {
    pub fn update(&self, inputs: &TickInputs) -> (r: (AppState, TickEffects))
        ensures
            spec_gate_ready_transition(*self, *inputs, r.0, r.1),
    {
        let eff = TickEffects::none();
        let local_time = match inputs.local_time {
            Some(t) => t,
            None => {
                return (AppState::GateReady(*self), eff);
            },
        };
        let offset = match inputs.coordinator_time {
            Some(ct) => {
                let diff: i64 = ct.as_millis() as i64 - local_time.as_millis() as i64;
                if i32::MIN as i64 <= diff && diff <= i32::MAX as i64 {
                    LocalOffset::from_millis(diff as i32)
                } else {
                    self.offset
                }
            },
            None => self.offset,
        };
        let sum: i64 = local_time.as_millis() as i64 + offset.as_millis() as i64;
        if !(i32::MIN as i64 <= sum && sum <= i32::MAX as i64) {
            return (AppState::GateReady(*self), eff);
        }
        if inputs.time_since_coordinator_beacon_ms > COORDINATOR_ABSENT_TIMEOUT_MS {
            // The coordinator appears gone, maybe a disconnection: wait for
            // it anew.
            return (
                AppState::GateStartup(GateStartupState { time_started_ms: inputs.wall_time_ms }),
                eff,
            );
        }
        let coordinated_time = CoordinatedInstant::from_millis(sum as i32);
        let gate_state = gate_state_or_button(inputs.gate_state, inputs.button_state);
        let last_activation_time = if gate_state == GateState::Active {
            Some(coordinated_time)
        } else {
            self.last_activation_time
        };
        let beacon = GateBeacon {
            addr: inputs.address,
            state: gate_state,
            last_activation_time,
        };
        (
            AppState::GateReady(
                GateReadyState {
                    is_wifi_connected: inputs.is_wifi_up,
                    gate_state,
                    offset,
                    last_activation_time,
                },
            ),
            TickEffects {
                publish: Some(RaceNodeMessage::GateBeacon(beacon)),
                set_coordinator_time: None,
                push_system_state: None,
                fatal: false,
            },
        )
    }
}

/// How one tick moves the whole machine: each state's own transition.
pub open spec fn spec_app_transition(
    state: AppState,
    i: TickInputs,
    next: AppState,
    eff: TickEffects,
) -> bool {
    match state {
        AppState::Init(s) => spec_init_transition(s, i, next, eff),
        AppState::CoordinatorReady(s) => spec_coordinator_transition(s, i, next, eff),
        AppState::GateStartup(s) => spec_gate_startup_transition(s, i, next, eff),
        AppState::GateReady(s) => spec_gate_ready_transition(s, i, next, eff),
    }
}

/// The role state machine of one node.
pub struct App {
    pub state: AppState,
}

impl App {
    /// A node boots waiting for a role.
    pub fn new() -> (r: Self)
        ensures
            r.state == AppState::Init(spec_init_default()),
    {
        App { state: AppState::Init(InitState::default()) }
    }

    /// Run one tick: step the state and hand back what the runner must do.
    pub fn update(&mut self, inputs: &TickInputs) -> (r: TickEffects)
        ensures
            spec_app_transition(old(self).state, *inputs, final(self).state, r),
    {
        let (next, eff) = match &self.state {
            AppState::Init(s) => s.update(inputs),
            AppState::CoordinatorReady(s) => s.update(inputs),
            AppState::GateStartup(s) => s.update(inputs),
            AppState::GateReady(s) => s.update(inputs),
        };
        self.state = next;
        eff
    }
}

pub const RED: u32 = 0xFF0000;

pub const YELLOW: u32 = 0xFFFF00;

pub const GREEN: u32 = 0x00FF00;

pub const LIGHT_BLUE: u32 = 0x00FFFF;

pub const WHITE: u32 = 0xFFFFFF;

/// The indicator color of a state: red while waiting (or disconnected),
/// yellow while a gate synchronizes, white for an idle coordinator and
/// light blue for one that sees an active gate, light blue for an active
/// gate, green for an idle connected one.
pub open spec fn spec_color_of(app_state: AppState) -> u32 {
    match app_state {
        AppState::Init(_) => RED,
        AppState::GateStartup(_) => YELLOW,
        AppState::CoordinatorReady(s) => if s.any_gate_active {
            LIGHT_BLUE
        } else {
            WHITE
        },
        AppState::GateReady(s) => if s.gate_state == GateState::Active {
            LIGHT_BLUE
        } else if s.is_wifi_connected {
            GREEN
        } else {
            RED
        },
    }
}

pub fn color_from_app_state(app_state: &AppState) -> (r: u32)
    ensures
        r == spec_color_of(*app_state),
{
    match app_state {
        AppState::Init(_) => RED,
        AppState::GateStartup(_) => YELLOW,
        AppState::CoordinatorReady(s) => if s.any_gate_active {
            LIGHT_BLUE
        } else {
            WHITE
        },
        AppState::GateReady(s) => if s.gate_state == GateState::Active {
            LIGHT_BLUE
        } else if s.is_wifi_connected {
            GREEN
        } else {
            RED
        },
    }
}

pub open spec fn spec_is_digit(c: char) -> bool {
    48 <= c as u32 <= 57
}

pub open spec fn spec_digit_val(c: char) -> int {
    c as u32 - 48
}

/// The number the decimal digits of `s` spell, most significant first.
pub open spec fn spec_digits_val(s: Seq<char>) -> int
    decreases s.len(),
{
    if s.len() == 0 {
        0
    } else {
        spec_digits_val(s.drop_last()) * 10 + spec_digit_val(s.last())
    }
}

/// What parsing a decimal byte yields: the spelled number, for a nonempty
/// all-digit string that spells at most 255.
pub open spec fn spec_parse_u8(s: Seq<char>) -> Option<u8> {
    if s.len() >= 1 && (forall|j: int| 0 <= j < s.len() ==> spec_is_digit(s[j]))
        && spec_digits_val(s) <= 255 {
        Some(spec_digits_val(s) as u8)
    } else {
        None
    }
}

proof fn lemma_digits_val_nonneg(s: Seq<char>)
    requires
        forall|j: int| 0 <= j < s.len() ==> spec_is_digit(s[j]),
    ensures
        spec_digits_val(s) >= 0,
    decreases s.len(),
{
    if s.len() > 0 {
        lemma_digits_val_nonneg(s.drop_last());
    }
}

proof fn lemma_digits_val_monotonic(s: Seq<char>, i: int)
    requires
        0 <= i <= s.len(),
        forall|j: int| 0 <= j < s.len() ==> spec_is_digit(s[j]),
    ensures
        spec_digits_val(s.take(i)) <= spec_digits_val(s),
    decreases s.len() - i,
{
    if i < s.len() {
        lemma_digits_val_monotonic(s, i + 1);
        assert(s.take(i + 1).drop_last() =~= s.take(i));
        assert(forall|j: int| 0 <= j < s.take(i).len() ==> spec_is_digit(s.take(i)[j]));
        lemma_digits_val_nonneg(s.take(i));
        assert(spec_digits_val(s.take(i + 1)) == spec_digits_val(s.take(i)) * 10 + spec_digit_val(
            s.take(i + 1).last(),
        ));
    } else {
        assert(s.take(i) =~= s);
    }
}

/// Parse a decimal byte: a nonempty string of digits spelling 0 to 255.
pub fn parse_u8_decimal(s: &str) -> (r: Option<u8>)
    ensures
        r == spec_parse_u8(s@),
{
    let n = s.unicode_len();
    if n == 0 {
        return None;
    }
    let mut value: u32 = 0;
    let mut i: usize = 0;
    while i < n
        invariant
            0 <= i <= n,
            n == s@.len(),
            value <= 255,
            value == spec_digits_val(s@.take(i as int)),
            forall|j: int| 0 <= j < i ==> spec_is_digit(s@[j]),
        decreases n - i,
    {
        let c = s.get_char(i);
        let code = c as u32;
        if code < 48 || code > 57 {
            return None;
        }
        proof {
            assert(s@.take(i + 1).drop_last() =~= s@.take(i as int));
        }
        value = value * 10 + (code - 48);
        i += 1;
        if value > 255 {
            proof {
                // Whatever the remaining characters are, the spelled number
                // cannot shrink below this prefix.
                if forall|j: int| 0 <= j < s@.len() ==> spec_is_digit(s@[j]) {
                    lemma_digits_val_monotonic(s@, i as int);
                }
            }
            return None;
        }
    }
    proof {
        assert(s@.take(n as int) =~= s@);
    }
    Some(value as u8)
}

/// The address override carried by the `RACEGATE_NODE_ADDRESS` environment
/// variable, as read by the runner; None means the variable is not set or
/// does not spell a byte.
pub fn address_from_env_var(value: Option<&str>) -> (r: Option<NodeAddress>)
    ensures
        value is None ==> r is None,
        value matches Some(s) ==> r == (match spec_parse_u8(s@) {
            Some(b) => Some(NodeAddress(b)),
            None => None::<NodeAddress>,
        }),
{
    match value {
        None => None,
        Some(s) => match parse_u8_decimal(s) {
            Some(b) => Some(NodeAddress::from(b)),
            None => None,
        },
    }
}

/// Drives the RGB indicator from the machine's state.
pub struct LedController<'a, L: RgbLed> {
    led: &'a L,
}

impl<'a, L: RgbLed> LedController<'a, L> {
    pub fn new(led: &'a L) -> Self {
        LedController { led }
    }

    pub fn update(&mut self, app_state: &AppState) {
        let color = color_from_app_state(app_state);
        self.led.set_color(RgbLedColor::from(color));
    }
}

} // verus!
