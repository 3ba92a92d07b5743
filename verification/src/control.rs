//! The control loop of a simulator, as a state machine.
//!
//! The loop alternates between waiting, for a new configuration or for the
//! next cycle to be due, and publishing the data points of one cycle. All
//! that it decides is decided here: `Control::step` takes what has happened,
//! an `Event`, and says what to do next, an `Action`. Waiting, publishing and
//! measuring time are left to the caller, who hands back the outcome as the
//! next event.

use crate::commands::{command_of, parse, Command, CommandErr};
use crate::device::{data_views, DataPoint, DataPointModel};
use crate::interval::Interval;
use crate::simulation::{
    applied, cycle, fresh_simulation, uniform, Simulation, SimulationModel, SimulationParameters,
};
use vstd::prelude::*;

verus! {

/// How long, in milliseconds, a stopped simulator waits before it looks
/// again for a new configuration.
pub const IDLE_TICK_MILLIS: u64 = 100;

/// What has happened since the last action.
#[derive(Clone, Copy, Debug, PartialEq, Eq, Structural)]
pub enum Event {
    /// A new configuration has arrived.
    Configured(SimulationParameters),
    /// The time to wait has passed, and no configuration has arrived.
    Expired,
    /// All data points of the cycle were published; it took this long.
    Published(Interval),
    /// A data point could not be published.
    PublishFailed,
    /// No configuration can arrive any more.
    ChannelClosed,
}

/// Why the control loop ends.
#[derive(Clone, Copy, Debug, PartialEq, Eq, Structural)]
pub enum ExitReason {
    /// A data point could not be published.
    PublishFailed,
    /// No configuration can arrive any more.
    ChannelClosed,
    /// All the cycles that were asked for have run.
    Finished,
}

/// What to do next.
#[derive(Debug)]
pub enum Action {
    /// Wait for a new configuration: no longer than the time given, and
    /// without a limit where none is given.
    Wait(Option<Interval>),
    /// Publish these data points in their order, and measure how long it
    /// takes.
    Publish(Vec<DataPoint>),
    /// Go on with what is in progress.
    Continue,
    /// End the loop.
    Exit(ExitReason),
}

/// An `Action` with its data points as their views.
pub enum ActionModel {
    Wait(Option<Interval>),
    Publish(Seq<DataPointModel>),
    Continue,
    Exit(ExitReason),
}

impl View for Action {
    type V = ActionModel;

    open spec fn view(&self) -> ActionModel {
        match self {
            Action::Wait(time) => ActionModel::Wait(*time),
            Action::Publish(points) => ActionModel::Publish(data_views(points@)),
            Action::Continue => ActionModel::Continue,
            Action::Exit(reason) => ActionModel::Exit(*reason),
        }
    }
}

/// The figures of one cycle, for metering.
#[derive(Clone, Copy, Debug, PartialEq, Eq, Structural)]
pub struct Report {
    /// Whether publishing took as long as the time between cycles, or longer.
    pub overloaded: bool,
    /// The number of data points published.
    pub datapoints: usize,
    /// The time it took to publish them.
    pub elapsed: Interval,
    /// The time from the start of one cycle to the start of the next.
    pub cycle_interval: Interval,
}

/// What `Control::step` decides.
#[derive(Debug)]
pub struct Decision {
    /// What to do next.
    pub action: Action,
    /// The figures of the cycle that has ended, if one has.
    pub report: Option<Report>,
}

/// A `Decision` with its action as a view.
pub struct DecisionModel {
    pub action: ActionModel,
    pub report: Option<Report>,
}

impl View for Decision {
    type V = DecisionModel;

    open spec fn view(&self) -> DecisionModel {
        DecisionModel { action: self.action@, report: self.report }
    }
}

/// The state of the control loop.
pub struct ControlModel {
    /// The simulation.
    pub simulation: SimulationModel,
    /// Whether the data points of a cycle are being published.
    pub publishing: bool,
    /// The number of data points of that cycle.
    pub in_flight: nat,
    /// The configuration that has arrived while a cycle was being published,
    /// the latest one if there were several.
    pub pending: Option<SimulationParameters>,
    /// The number of cycles that may still run.
    pub runs_left: nat,
}

/// What a decision does to the state, and what it says.
pub struct Outcome {
    pub state: ControlModel,
    pub decision: DecisionModel,
}

/// The time that a stopped simulator waits.
pub open spec fn idle_tick() -> Interval {
    Interval::from_millis(IDLE_TICK_MILLIS)
}

/// The control loop of the simulator instance `client_id` with `parameters`
/// in effect and nothing in progress. As many cycles may run as a counter
/// can count.
pub open spec fn configured(client_id: Seq<char>, parameters: SimulationParameters) -> ControlModel {
    ControlModel {
        simulation: fresh_simulation(client_id, parameters),
        publishing: false,
        in_flight: 0,
        pending: None,
        runs_left: usize::MAX as nat,
    }
}

/// The control loop of the simulator instance `client_id` before anything
/// has happened: stopped, with nothing in progress.
pub open spec fn initial(client_id: Seq<char>) -> ControlModel {
    configured(client_id, SimulationParameters::stopped())
}

/// How long the control loop in state `m` waits before its first cycle: the
/// time between cycles, and without a limit while it is stopped.
pub open spec fn first_wait(m: ControlModel) -> Option<Interval> {
    if m.simulation.devices.len() > 0 {
        Some(m.simulation.parameters.wait_time)
    } else {
        None
    }
}

/// The next cycle of the simulation is due, and `runs_left` cycles may still
/// run: the cycle is run and handed out for publishing. Where no cycle may
/// run any more, the loop ends.
pub open spec fn begin_cycle(
    simulation: SimulationModel,
    runs_left: nat,
    report: Option<Report>,
) -> Outcome {
    if runs_left == 0 {
        Outcome {
            state: ControlModel {
                simulation,
                publishing: false,
                in_flight: 0,
                pending: None,
                runs_left,
            },
            decision: DecisionModel { action: ActionModel::Exit(ExitReason::Finished), report },
        }
    } else {
        Outcome {
            state: ControlModel {
                simulation: SimulationModel { devices: cycle(simulation.devices).0, ..simulation },
                publishing: true,
                in_flight: cycle(simulation.devices).1.len(),
                pending: None,
                runs_left: (runs_left - 1) as nat,
            },
            decision: DecisionModel {
                action: ActionModel::Publish(cycle(simulation.devices).1),
                report,
            },
        }
    }
}

/// The simulation is stopped, and the loop waits for the idle tick.
pub open spec fn idle(simulation: SimulationModel, runs_left: nat, report: Option<Report>) -> Outcome {
    Outcome {
        state: ControlModel { simulation, publishing: false, in_flight: 0, pending: None, runs_left },
        decision: DecisionModel { action: ActionModel::Wait(Some(idle_tick())), report },
    }
}

/// The configuration `parameters` takes effect: the pool is rebuilt. Without
/// devices the loop then idles. With devices the first cycle is due at once.
pub open spec fn configure(
    simulation: SimulationModel,
    runs_left: nat,
    parameters: SimulationParameters,
    report: Option<Report>,
) -> Outcome {
    if parameters.devices == 0 {
        idle(applied(simulation, parameters), runs_left, report)
    } else {
        begin_cycle(applied(simulation, parameters), runs_left, report)
    }
}

/// The figures of a cycle of `datapoints` data points that took `elapsed` to
/// publish, where cycles start `cycle_interval` apart: the simulator is
/// overloaded where no time is left until the next cycle.
pub open spec fn cycle_report(datapoints: nat, elapsed: Interval, cycle_interval: Interval) -> Report {
    Report {
        overloaded: cycle_interval.saturating_sub(&elapsed).total_nanos() == 0,
        datapoints: datapoints as usize,
        elapsed,
        cycle_interval,
    }
}

/// What the control loop in state `m` decides when `event` happens.
///
/// * A configuration that arrives while a cycle is being published is kept
///   until that cycle has ended; a later one takes its place. Otherwise it
///   takes effect at once.
/// * When the time to wait has passed, a running simulation runs its next
///   cycle, and a stopped one idles.
/// * When a cycle has ended, its figures are reported. A configuration that
///   was kept takes effect now. Otherwise the loop waits for what is left of
///   the time between cycles.
/// * The loop ends when publishing fails, when no configuration can arrive
///   any more, and when a cycle is due but all the cycles that were asked
///   for have run.
/// * The loop goes on unchanged on an event that cannot happen in its state:
///   time that passes during a cycle, and the end of a cycle while none is
///   being published.
pub open spec fn transition(m: ControlModel, event: Event) -> Outcome {
    match event {
        Event::Configured(parameters) => if m.publishing {
            Outcome {
                state: ControlModel { pending: Some(parameters), ..m },
                decision: DecisionModel { action: ActionModel::Continue, report: None },
            }
        } else {
            configure(m.simulation, m.runs_left, parameters, None)
        },
        Event::Expired => if m.publishing {
            Outcome {
                state: m,
                decision: DecisionModel { action: ActionModel::Continue, report: None },
            }
        } else if m.simulation.devices.len() > 0 {
            begin_cycle(m.simulation, m.runs_left, None)
        } else {
            idle(m.simulation, m.runs_left, None)
        },
        Event::Published(elapsed) => if !m.publishing {
            Outcome {
                state: m,
                decision: DecisionModel { action: ActionModel::Continue, report: None },
            }
        } else {
            let report = Some(cycle_report(m.in_flight, elapsed, m.simulation.parameters.wait_time));
            match m.pending {
                Some(parameters) => configure(m.simulation, m.runs_left, parameters, report),
                None => Outcome {
                    state: ControlModel { publishing: false, in_flight: 0, ..m },
                    decision: DecisionModel {
                        action: ActionModel::Wait(
                            Some(m.simulation.parameters.wait_time.saturating_sub(&elapsed)),
                        ),
                        report,
                    },
                },
            }
        },
        Event::PublishFailed => Outcome {
            state: ControlModel { publishing: false, in_flight: 0, pending: None, ..m },
            decision: DecisionModel {
                action: ActionModel::Exit(ExitReason::PublishFailed),
                report: None,
            },
        },
        Event::ChannelClosed => Outcome {
            state: m,
            decision: DecisionModel {
                action: ActionModel::Exit(ExitReason::ChannelClosed),
                report: None,
            },
        },
    }
}

/// The states that the control loop can be in: the pool is as the
/// configuration in effect says, with that many devices and that many data
/// points in each; while a cycle is being published, one value of each data
/// point is in flight; at other times nothing is in flight and no
/// configuration is kept.
pub open spec fn consistent(m: ControlModel) -> bool {
    &&& m.simulation.devices.len() == m.simulation.parameters.devices
    &&& uniform(m.simulation.devices, m.simulation.parameters.data_points as nat)
    &&& m.publishing ==> m.in_flight == m.simulation.parameters.devices
        * m.simulation.parameters.data_points
    &&& !m.publishing ==> m.in_flight == 0 && m.pending is None
}

/// A configuration that takes effect leaves the control loop in a consistent
/// state.
proof fn lemma_configure_consistent(
    simulation: SimulationModel,
    runs_left: nat,
    parameters: SimulationParameters,
    report: Option<Report>,
)
    ensures
        consistent(configure(simulation, runs_left, parameters, report).state),
{
    let pool = applied(simulation, parameters).devices;
    crate::simulation::lemma_progress_shape(pool, pool.len());
    crate::simulation::lemma_progress_size(pool, parameters.data_points as nat, pool.len());
}

/// The control loop starts in a consistent state and never leaves them.
pub proof fn lemma_consistent(m: ControlModel, event: Event)
    requires
        consistent(m),
    ensures
        consistent(transition(m, event).state),
        forall|client_id: Seq<char>| consistent(#[trigger] initial(client_id)),
{
    let pool = m.simulation.devices;
    crate::simulation::lemma_progress_shape(pool, pool.len());
    crate::simulation::lemma_progress_size(
        pool,
        m.simulation.parameters.data_points as nat,
        pool.len(),
    );
    match event {
        Event::Configured(parameters) => {
            lemma_configure_consistent(m.simulation, m.runs_left, parameters, None);
        },
        Event::Published(elapsed) => {
            if m.pending is Some {
                lemma_configure_consistent(
                    m.simulation,
                    m.runs_left,
                    m.pending->0,
                    transition(m, event).decision.report,
                );
            }
        },
        _ => {},
    }
}

/// A control loop that starts with a configuration in effect starts in a
/// consistent state.
pub proof fn lemma_configured_consistent(client_id: Seq<char>, parameters: SimulationParameters)
    ensures
        consistent(configured(client_id, parameters)),
{
}

/// A configuration never changes the pool while a cycle is being published:
/// it is kept, and takes effect when the cycle has ended, as if it had
/// arrived then. Of two configurations that arrive during one cycle, the
/// later one is kept.
pub proof fn lemma_configuration_waits(
    m: ControlModel,
    parameters: SimulationParameters,
    later: SimulationParameters,
    elapsed: Interval,
)
    requires
        m.publishing,
    ensures
        transition(m, Event::Configured(parameters)).state.simulation == m.simulation,
        transition(m, Event::Configured(parameters)).decision.action == ActionModel::Continue,
        transition(
            transition(m, Event::Configured(parameters)).state,
            Event::Configured(later),
        ).state == transition(m, Event::Configured(later)).state,
        transition(
            transition(m, Event::Configured(parameters)).state,
            Event::Published(elapsed),
        ).state.simulation == configure(
            m.simulation,
            m.runs_left,
            parameters,
            None,
        ).state.simulation,
{
}

/// A stopped simulator never spins: when its time to wait has passed, and
/// when it is stopped once more, it runs no cycle and waits for the idle
/// tick, which is longer than nothing.
pub proof fn lemma_stopped_idles(m: ControlModel, stop: SimulationParameters)
    requires
        !m.publishing,
        m.simulation.devices.len() == 0,
        stop.devices == 0,
    ensures
        idle_tick().total_nanos() > 0,
        transition(m, Event::Expired).decision.action == ActionModel::Wait(Some(idle_tick())),
        transition(m, Event::Expired).state.simulation == m.simulation,
        transition(m, Event::Configured(stop)).decision.action == ActionModel::Wait(Some(idle_tick())),
        transition(m, Event::Configured(stop)).state.simulation.devices.len() == 0,
{
    Interval::lemma_from_millis(IDLE_TICK_MILLIS);
}

/// When a cycle has ended and no configuration was kept, the loop waits for
/// what is left of the time between cycles, and reports an overload exactly
/// where nothing is left.
pub proof fn lemma_cycle_end(m: ControlModel, elapsed: Interval)
    requires
        m.publishing,
        m.pending is None,
        elapsed.valid(),
        m.simulation.parameters.wait_time.valid(),
    ensures
        transition(m, Event::Published(elapsed)).decision.action matches ActionModel::Wait(Some(left))
            && left.total_nanos() == if m.simulation.parameters.wait_time.total_nanos()
            >= elapsed.total_nanos() {
            m.simulation.parameters.wait_time.total_nanos() - elapsed.total_nanos()
        } else {
            0
        },
        transition(m, Event::Published(elapsed)).decision.report matches Some(report)
            && report.overloaded == (m.simulation.parameters.wait_time.total_nanos()
            <= elapsed.total_nanos()),
{
    m.simulation.parameters.wait_time.lemma_saturating_sub(elapsed);
}

/// The control loop of a simulator.
pub struct Control {
    simulation: Simulation,
    publishing: bool,
    in_flight: usize,
    pending: Option<SimulationParameters>,
    runs_left: usize,
}

impl View for Control {
    type V = ControlModel;

    closed spec fn view(&self) -> ControlModel {
        ControlModel {
            simulation: self.simulation@,
            publishing: self.publishing,
            in_flight: self.in_flight as nat,
            pending: self.pending,
            runs_left: self.runs_left as nat,
        }
    }
}

impl Control {
    /// The control loop of the simulator instance `client_id`, stopped.
    pub fn new(client_id: &str) -> (control: Self)
        ensures
            control@ == initial(client_id@),
    {
        Control {
            simulation: Simulation::new(client_id, &SimulationParameters::stopped()),
            publishing: false,
            in_flight: 0,
            pending: None,
            runs_left: usize::MAX,
        }
    }

    /// The control loop of the simulator instance `client_id` with
    /// `parameters` in effect from the outset.
    pub fn with_parameters(client_id: &str, parameters: &SimulationParameters) -> (control: Self)
        ensures
            control@ == configured(client_id@, *parameters),
    {
        Control {
            simulation: Simulation::new(client_id, parameters),
            publishing: false,
            in_flight: 0,
            pending: None,
            runs_left: usize::MAX,
        }
    }

    /// What to do before anything has happened: wait for the first cycle to
    /// be due.
    pub fn first_action(&self) -> (action: Action)
        ensures
            action@ == ActionModel::Wait(first_wait(self@)),
    {
        if self.simulation.is_running() {
            Action::Wait(Some(self.simulation.parameters().wait_time))
        } else {
            Action::Wait(None)
        }
    }

    /// The number of devices in the pool.
    pub fn device_count(&self) -> (count: usize)
        ensures
            count == self@.simulation.devices.len(),
            count == self@.simulation.parameters.devices,
    {
        self.simulation.device_count()
    }

    /// The configuration in effect.
    pub fn parameters(&self) -> (parameters: SimulationParameters)
        ensures
            parameters == self@.simulation.parameters,
    {
        self.simulation.parameters()
    }

    /// Whether a cycle is being published.
    pub fn is_publishing(&self) -> (publishing: bool)
        ensures
            publishing == self@.publishing,
    {
        self.publishing
    }

    /// Allows `runs` more cycles, and no more.
    pub fn limit_runs(&mut self, runs: usize)
        ensures
            final(self)@ == (ControlModel { runs_left: runs as nat, ..old(self)@ }),
    {
        self.runs_left = runs;
    }

    /// The number of cycles that may still run.
    pub fn runs_left(&self) -> (runs: usize)
        ensures
            runs == self@.runs_left,
    {
        self.runs_left
    }

    /// Runs the next cycle and hands it out, if a cycle may still run.
    fn begin(&mut self, report: Option<Report>) -> (decision: Decision)
        ensures
            (Outcome { state: final(self)@, decision: decision@ }) == begin_cycle(
                old(self)@.simulation,
                old(self)@.runs_left,
                report,
            ),
    {
        self.pending = None;
        if self.runs_left == 0 {
            self.publishing = false;
            self.in_flight = 0;
            return Decision { action: Action::Exit(ExitReason::Finished), report };
        }
        let points = self.simulation.next_cycle();
        self.publishing = true;
        self.in_flight = points.len();
        self.runs_left -= 1;
        Decision { action: Action::Publish(points), report }
    }

    /// Lets the configuration `parameters` take effect.
    fn configure(&mut self, parameters: &SimulationParameters, report: Option<Report>) -> (decision:
        Decision)
        ensures
            (Outcome { state: final(self)@, decision: decision@ }) == configure(
                old(self)@.simulation,
                old(self)@.runs_left,
                *parameters,
                report,
            ),
    {
        self.simulation.apply(parameters);
        if parameters.devices == 0 {
            self.publishing = false;
            self.in_flight = 0;
            self.pending = None;
            Decision { action: Action::Wait(Some(Interval::from_millis(IDLE_TICK_MILLIS))), report }
        } else {
            self.begin(report)
        }
    }

    /// Takes in what has happened and decides what to do next.
    pub fn step(&mut self, event: Event) -> (decision: Decision)
        ensures
            (Outcome { state: final(self)@, decision: decision@ }) == transition(old(self)@, event),
    {
        match event {
            Event::Configured(parameters) => {
                if self.publishing {
                    self.pending = Some(parameters);
                    Decision { action: Action::Continue, report: None }
                } else {
                    self.configure(&parameters, None)
                }
            },
            Event::Expired => {
                if self.publishing {
                    Decision { action: Action::Continue, report: None }
                } else if self.simulation.is_running() {
                    self.begin(None)
                } else {
                    self.in_flight = 0;
                    self.pending = None;
                    Decision {
                        action: Action::Wait(Some(Interval::from_millis(IDLE_TICK_MILLIS))),
                        report: None,
                    }
                }
            },
            Event::Published(elapsed) => {
                if !self.publishing {
                    Decision { action: Action::Continue, report: None }
                } else {
                    let cycle_interval = self.simulation.parameters().wait_time;
                    let left = cycle_interval.saturating_sub(&elapsed);
                    let report = Some(
                        Report {
                            overloaded: left.is_zero(),
                            datapoints: self.in_flight,
                            elapsed,
                            cycle_interval,
                        },
                    );
                    match self.pending {
                        Some(parameters) => self.configure(&parameters, report),
                        None => {
                            self.publishing = false;
                            self.in_flight = 0;
                            Decision { action: Action::Wait(Some(left)), report }
                        },
                    }
                }
            },
            Event::PublishFailed => {
                self.publishing = false;
                self.in_flight = 0;
                self.pending = None;
                Decision { action: Action::Exit(ExitReason::PublishFailed), report: None }
            },
            Event::ChannelClosed => {
                Decision { action: Action::Exit(ExitReason::ChannelClosed), report: None }
            },
        }
    }

    /// Carries out a command: `Start` configures the simulation, `Stop`
    /// configures it without devices.
    pub fn run(&mut self, cmd: &Command) -> (decision: Decision)
        ensures
            (Outcome { state: final(self)@, decision: decision@ }) == transition(
                old(self)@,
                Event::Configured(cmd.parameters()),
            ),
    {
        self.step(Event::Configured(cmd.parameters()))
    }

    /// Starts the simulation with `parameters`, in place of the one that may
    /// be running.
    pub fn start(&mut self, parameters: &SimulationParameters) -> (decision: Decision)
        ensures
            (Outcome { state: final(self)@, decision: decision@ }) == transition(
                old(self)@,
                Event::Configured(*parameters),
            ),
    {
        self.step(Event::Configured(*parameters))
    }

    /// Stops the simulation.
    pub fn stop(&mut self) -> (decision: Decision)
        ensures
            (Outcome { state: final(self)@, decision: decision@ }) == transition(
                old(self)@,
                Event::Configured(SimulationParameters::stopped()),
            ),
    {
        self.step(Event::Configured(SimulationParameters::stopped()))
    }

    /// Reads a control message and carries out the command it spells. A
    /// message that spells none changes nothing, and the reason comes back.
    pub fn receive(&mut self, message: &String) -> (result: Result<Decision, CommandErr>)
        ensures
            match command_of(message@) {
                Ok(command) => result is Ok && (Outcome {
                    state: final(self)@,
                    decision: result->Ok_0@,
                }) == transition(old(self)@, Event::Configured(command.parameters())),
                Err(reason) => result == Err::<Decision, CommandErr>(reason) && final(self)@ == old(
                    self,
                )@,
            },
    {
        match parse(message) {
            Ok(command) => Ok(self.run(&command)),
            Err(reason) => Err(reason),
        }
    }
}

/// How long to wait before the first cycle where the simulation shall start
/// `until_start` milliseconds from now: that long, and not at all where no
/// time is set or the time has come.
pub fn start_delay(until_start: Option<i64>) -> (delay: Interval)
    ensures
        delay.total_nanos() == match until_start {
            Some(millis) if millis > 0 => millis * 1_000_000,
            _ => 0,
        },
{
    match until_start {
        Some(millis) if millis > 0 => Interval::from_millis(millis as u64),
        _ => Interval::zero(),
    }
}

} // verus!
