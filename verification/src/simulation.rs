//! The simulation: a pool of devices that is built from a set of parameters
//! and replaced as a whole whenever new parameters are applied.
//!
//! A simulation with an empty pool is stopped. Every other simulation is
//! running.

use crate::device::{data_views, fresh_device, DataPoint, DataPointModel, Device, DeviceModel};
use crate::interval::Interval;
use crate::random::{after, draw_u64, next_u64, seed_from_u64, seeded_words, upcoming};
use std::collections::hash_map::DefaultHasher;
use std::hash::Hasher;
use vstd::bytes::{spec_u64_to_le_bytes, u64_to_le_bytes};
use vstd::prelude::*;
use vstd::std_specs::hash::DefaultHasherAdditionalSpecFns;
use vstd::string::*;
use vstd::utf8::encode_utf8;

verus! {

/// What a simulation is built from. Parameters with no devices stop the
/// simulation.
#[derive(Clone, Copy, Debug, PartialEq, Eq, Structural)]
pub struct SimulationParameters {
    /// The number of devices.
    pub devices: usize,
    /// The number of data points of each device.
    pub data_points: usize,
    /// The time from the start of one cycle to the start of the next.
    pub wait_time: Interval,
    /// The seed of all random values.
    pub seed: u64,
}

/// The seed that a command has where it names none.
pub const DEFAULT_SEED: u64 = 1;

impl SimulationParameters {
    /// The parameters that stop a simulation: no devices, no data points, no
    /// time between cycles, and the default seed.
    pub open spec fn spec_stopped() -> Self {
        SimulationParameters {
            devices: 0,
            data_points: 0,
            wait_time: Interval::from_secs(0),
            seed: DEFAULT_SEED,
        }
    }

    /// The parameters that stop a simulation.
    #[verifier::when_used_as_spec(spec_stopped)]
    pub fn stopped() -> (p: Self)
        ensures
            p == Self::spec_stopped(),
    {
        SimulationParameters {
            devices: 0,
            data_points: 0,
            wait_time: Interval::zero(),
            seed: DEFAULT_SEED,
        }
    }
}

/// The state of a simulation: the name of the simulator instance, the
/// parameters that were applied last, and the states of its devices.
pub struct SimulationModel {
    pub client_id: Seq<char>,
    pub parameters: SimulationParameters,
    pub devices: Seq<DeviceModel>,
}

/// The seed of the stream from which a simulator instance draws the seeds of
/// its devices: the hash of the bytes of `client_id`, of one byte `0xFF` that
/// ends the name, and of the eight bytes of `seed`, lowest first.
pub open spec fn master_seed(client_id: Seq<char>, seed: u64) -> u64 {
    DefaultHasher::spec_finish(
        seq![encode_utf8(client_id), seq![0xFFu8], spec_u64_to_le_bytes(seed)],
    )
}

/// The seed of device number `i`: the 64-bit value number `i` of the stream
/// seeded with `master`.
pub open spec fn device_seed(master: u64, i: nat) -> u64 {
    next_u64(after(seeded_words(master), 2 * i))
}

/// The pool of `devices` new devices with `data_points` data points each, of
/// the simulator instance `client_id` with the seed `seed`.
pub open spec fn fresh_pool(
    client_id: Seq<char>,
    devices: nat,
    data_points: nat,
    seed: u64,
) -> Seq<DeviceModel> {
    Seq::new(
        devices,
        |i: int|
            fresh_device(
                client_id,
                i as nat,
                data_points,
                device_seed(master_seed(client_id, seed), i as nat),
            ),
    )
}

/// The simulation of the instance `client_id` right after `parameters` were
/// applied to it.
pub open spec fn fresh_simulation(
    client_id: Seq<char>,
    parameters: SimulationParameters,
) -> SimulationModel {
    SimulationModel {
        client_id,
        parameters,
        devices: fresh_pool(
            client_id,
            parameters.devices as nat,
            parameters.data_points as nat,
            parameters.seed,
        ),
    }
}

/// What applying `parameters` makes of the simulation `m`: nothing of the pool
/// of `m` is kept.
pub open spec fn applied(m: SimulationModel, parameters: SimulationParameters) -> SimulationModel {
    fresh_simulation(m.client_id, parameters)
}

/// A cycle of the pool `pool` after its first `n` devices have run theirs: the
/// pool, and the data points handed out so far.
pub open spec fn progress(pool: Seq<DeviceModel>, n: nat) -> (
    Seq<DeviceModel>,
    Seq<DataPointModel>,
)
    decreases n,
{
    if n == 0 {
        (pool, Seq::empty())
    } else {
        let (before, points) = progress(pool, (n - 1) as nat);
        let (device, more) = crate::device::cycle(before[n - 1]);
        (before.update(n - 1, device), points + more)
    }
}

/// One whole cycle of the pool `pool`: the pool afterwards, and the data
/// points of all its devices, device after device.
pub open spec fn cycle(pool: Seq<DeviceModel>) -> (Seq<DeviceModel>, Seq<DataPointModel>) {
    progress(pool, pool.len())
}

/// The pool `pool` after `n` whole cycles.
pub open spec fn after_cycles(pool: Seq<DeviceModel>, n: nat) -> Seq<DeviceModel>
    decreases n,
{
    if n == 0 {
        pool
    } else {
        cycle(after_cycles(pool, (n - 1) as nat)).0
    }
}

/// The data points of cycle number `n + 1` of the pool `pool`.
pub open spec fn cycle_output(pool: Seq<DeviceModel>, n: nat) -> Seq<DataPointModel> {
    cycle(after_cycles(pool, n)).1
}

/// A cycle keeps the number of devices, and runs each device's own cycle.
pub proof fn lemma_progress_shape(pool: Seq<DeviceModel>, n: nat)
    requires
        n <= pool.len(),
    ensures
        progress(pool, n).0.len() == pool.len(),
        forall|i: int| 0 <= i < n ==> progress(pool, n).0[i] == crate::device::cycle(pool[i]).0,
        forall|i: int| n <= i < pool.len() ==> progress(pool, n).0[i] == pool[i],
    decreases n,
{
    if n > 0 {
        lemma_progress_shape(pool, (n - 1) as nat);
    }
}

/// Whether every device of `pool` has `data_points` generators.
pub open spec fn uniform(pool: Seq<DeviceModel>, data_points: nat) -> bool {
    forall|i: int| 0 <= i < pool.len() ==> (#[trigger] pool[i]).generators.len() == data_points
}

/// Where every device has `data_points` generators, the first `n` devices
/// hand out `n * data_points` data points in a cycle, and every device still
/// has `data_points` generators afterwards.
pub proof fn lemma_progress_size(pool: Seq<DeviceModel>, data_points: nat, n: nat)
    requires
        uniform(pool, data_points),
        n <= pool.len(),
    ensures
        progress(pool, n).1.len() == n * data_points,
        uniform(progress(pool, n).0, data_points),
    decreases n,
{
    if n > 0 {
        lemma_progress_size(pool, data_points, (n - 1) as nat);
        lemma_progress_shape(pool, (n - 1) as nat);
        crate::device::lemma_progress_shape(pool[n - 1], data_points);
        assert((n - 1) * data_points + data_points == n * data_points) by (nonlinear_arith);
    }
}

/// Where every device has `data_points` generators, the data points of a
/// cycle come device after device: number `j` of them is number
/// `j % data_points` of the cycle of device number `j / data_points`.
pub proof fn lemma_progress_order(pool: Seq<DeviceModel>, data_points: nat, n: nat, j: int)
    requires
        uniform(pool, data_points),
        n <= pool.len(),
        0 <= j < n * data_points,
    ensures
        data_points > 0,
        0 <= j / (data_points as int) < n,
        progress(pool, n).1[j] == crate::device::cycle(pool[j / (data_points as int)]).1[j % (
        data_points as int)],
    decreases n,
{
    let k = data_points as int;
    assert(k > 0 && n > 0) by (nonlinear_arith)
        requires
            0 <= j < n * k,
            k >= 0,
            n >= 0,
    ;
    let before = (n - 1) as nat;
    lemma_progress_size(pool, data_points, before);
    lemma_progress_shape(pool, before);
    crate::device::lemma_progress_shape(pool[n - 1], data_points);
    assert((n - 1) * k + k == n * k) by (nonlinear_arith);
    if j < before * k {
        lemma_progress_order(pool, data_points, before, j);
    } else {
        let r = j - before * k;
        assert(j / k == n - 1 && j % k == r) by (nonlinear_arith)
            requires
                j == (n - 1) * k + r,
                0 <= r < k,
        ;
    }
}

/// A new pool hands out one data point for each data point of each device in
/// every cycle.
pub proof fn lemma_cycle_size(
    client_id: Seq<char>,
    devices: nat,
    data_points: nat,
    seed: u64,
    n: nat,
)
    ensures
        uniform(after_cycles(fresh_pool(client_id, devices, data_points, seed), n), data_points),
        after_cycles(fresh_pool(client_id, devices, data_points, seed), n).len() == devices,
        cycle_output(fresh_pool(client_id, devices, data_points, seed), n).len() == devices
            * data_points,
    decreases n,
{
    let pool = fresh_pool(client_id, devices, data_points, seed);
    if n > 0 {
        lemma_cycle_size(client_id, devices, data_points, seed, (n - 1) as nat);
        let before = after_cycles(pool, (n - 1) as nat);
        lemma_progress_size(before, data_points, before.len());
        lemma_progress_shape(before, before.len());
    }
    let now = after_cycles(pool, n);
    lemma_progress_size(now, data_points, now.len());
}

/// An empty pool hands out nothing, however often it runs.
pub proof fn lemma_empty_pool_is_silent(n: nat)
    ensures
        after_cycles(Seq::<DeviceModel>::empty(), n) == Seq::<DeviceModel>::empty(),
        cycle_output(Seq::<DeviceModel>::empty(), n) == Seq::<DataPointModel>::empty(),
    decreases n,
{
    if n > 0 {
        lemma_empty_pool_is_silent((n - 1) as nat);
    }
}

/// Two simulations of one instance whose parameters name the same seed, the
/// same number of devices and the same number of data points hand out the
/// same data points in every cycle, whatever else differs between them.
pub proof fn lemma_deterministic(
    client_id: Seq<char>,
    first: SimulationParameters,
    second: SimulationParameters,
    n: nat,
)
    requires
        first.seed == second.seed,
        first.devices == second.devices,
        first.data_points == second.data_points,
    ensures
        fresh_simulation(client_id, first).devices == fresh_simulation(client_id, second).devices,
        cycle_output(fresh_simulation(client_id, first).devices, n) == cycle_output(
            fresh_simulation(client_id, second).devices,
            n,
        ),
{
}

/// Applying parameters without devices empties the pool, and applying them
/// once more changes nothing.
pub proof fn lemma_stop_is_idempotent(m: SimulationModel, stop: SimulationParameters)
    requires
        stop.devices == 0,
    ensures
        applied(m, stop).devices == Seq::<DeviceModel>::empty(),
        applied(applied(m, stop), stop) == applied(m, stop),
{
}

/// Applying parameters to a running simulation gives the simulation that
/// applying them to a stopped one gives: every generator starts anew, and so
/// the cycles that follow hand out the same data points.
pub proof fn lemma_full_rebuild(
    running: SimulationModel,
    stopped: SimulationModel,
    parameters: SimulationParameters,
    n: nat,
)
    requires
        running.client_id == stopped.client_id,
        stopped.devices.len() == 0,
    ensures
        applied(running, parameters) == applied(stopped, parameters),
        cycle_output(applied(running, parameters).devices, n) == cycle_output(
            applied(stopped, parameters).devices,
            n,
        ),
{
}

/// The views of a pool of devices.
pub open spec fn device_views(devices: Seq<Device>) -> Seq<DeviceModel> {
    Seq::new(devices.len(), |i: int| devices[i]@)
}

/// Computes the seed of the stream from which the seeds of the devices are
/// drawn.
pub fn compute_master_seed(client_id: &str, seed: u64) -> (master: u64)
    ensures
        master == master_seed(client_id@, seed),
{
    let mut hasher = DefaultHasher::new();
    hasher.write(client_id.as_bytes());
    let mut end: Vec<u8> = Vec::new();
    end.push(0xFFu8);
    hasher.write(end.as_slice());
    let bytes = u64_to_le_bytes(seed);
    hasher.write(bytes.as_slice());
    assert(hasher@ == seq![encode_utf8(client_id@), seq![0xFFu8], spec_u64_to_le_bytes(seed)]);
    hasher.finish()
}

/// Builds the pool of a simulation.
fn build_pool(client_id: &str, parms: &SimulationParameters) -> (devices: Vec<Device>)
    ensures
        device_views(devices@) == fresh_pool(
            client_id@,
            parms.devices as nat,
            parms.data_points as nat,
            parms.seed,
        ),
{
    let master: u64 = compute_master_seed(client_id, parms.seed);
    let mut rng = seed_from_u64(master);
    let mut devices: Vec<Device> = Vec::new();
    let mut i: usize = 0;
    while i < parms.devices
        invariant
            i <= parms.devices,
            devices.len() == i,
            master == master_seed(client_id@, parms.seed),
            upcoming(rng) == after(seeded_words(master), 2 * (i as nat)),
            forall|k: int|
                0 <= k < i ==> (#[trigger] devices@[k])@ == fresh_device(
                    client_id@,
                    k as nat,
                    parms.data_points as nat,
                    device_seed(master, k as nat),
                ),
        decreases parms.devices - i,
    {
        proof {
            crate::random::lemma_after_after(seeded_words(master), 2 * (i as nat), 2);
        }
        let seed: u64 = draw_u64(&mut rng);
        let device = Device::new(client_id, i, parms.data_points, seed);
        devices.push(device);
        i += 1;
    }
    assert(device_views(devices@) == fresh_pool(
        client_id@,
        parms.devices as nat,
        parms.data_points as nat,
        parms.seed,
    ));
    devices
}

/// A simulation.
pub struct Simulation {
    client_id: String,
    parameters: SimulationParameters,
    devices: Vec<Device>,
}

impl View for Simulation {
    type V = SimulationModel;

    closed spec fn view(&self) -> SimulationModel {
        SimulationModel {
            client_id: self.client_id@,
            parameters: self.parameters,
            devices: device_views(self.devices@),
        }
    }
}

impl Simulation {
    #[verifier::type_invariant]
    spec fn well_formed(self) -> bool {
        self.devices.len() == self.parameters.devices
    }

    /// The simulation of the simulator instance `client_id` with the
    /// parameters `parms` applied: each device has a seed of its own, drawn
    /// from a stream that `client_id` and the seed of `parms` determine.
    pub fn new(client_id: &str, parms: &SimulationParameters) -> (simulation: Self)
        ensures
            simulation@ == fresh_simulation(client_id@, *parms),
    {
        let devices = build_pool(client_id, parms);
        assert(device_views(devices@).len() == devices.len());
        Simulation { client_id: String::from_str(client_id), parameters: *parms, devices }
    }

    /// Replaces the pool by the one that `parms` describes. Without devices
    /// in `parms` this stops the simulation.
    pub fn apply(&mut self, parms: &SimulationParameters)
        ensures
            final(self)@ == applied(old(self)@, *parms),
    {
        let devices = build_pool(self.client_id.as_str(), parms);
        assert(device_views(devices@).len() == devices.len());
        *self = Simulation { client_id: self.client_id.clone(), parameters: *parms, devices };
    }

    /// Whether the simulation has devices.
    pub fn is_running(&self) -> (running: bool)
        ensures
            running == (self@.devices.len() > 0),
            running == (self@.parameters.devices > 0),
    {
        proof {
            use_type_invariant(self);
        }
        self.devices.len() > 0
    }

    /// The parameters that were applied last.
    pub fn parameters(&self) -> (parms: SimulationParameters)
        ensures
            parms == self@.parameters,
            self@.devices.len() == parms.devices,
    {
        proof {
            use_type_invariant(self);
        }
        self.parameters
    }

    /// The number of devices in the pool.
    pub fn device_count(&self) -> (count: usize)
        ensures
            count == self@.devices.len(),
            count == self@.parameters.devices,
    {
        proof {
            use_type_invariant(self);
        }
        self.devices.len()
    }

    /// Runs one cycle: every device runs its cycle, in the order of the pool,
    /// and the data points come back in the order in which they were made.
    pub fn next_cycle(&mut self) -> (points: Vec<DataPoint>)
        ensures
            final(self)@.client_id == old(self)@.client_id,
            final(self)@.parameters == old(self)@.parameters,
            (final(self)@.devices, data_views(points@)) == cycle(old(self)@.devices),
    {
        proof {
            use_type_invariant(&*self);
        }
        let mut points: Vec<DataPoint> = Vec::new();
        let n: usize = self.devices.len();
        let mut i: usize = 0;
        while i < n
            invariant
                i <= n,
                n == self.devices.len(),
                n == self.parameters.devices,
                n == old(self)@.devices.len(),
                self.parameters == old(self).parameters,
                self.client_id == old(self).client_id,
                (self@.devices, data_views(points@)) == progress(old(self)@.devices, i as nat),
            decreases n - i,
        {
            let ghost before = self@.devices;
            let mut more = self.devices[i].generate();
            proof {
                assert(self@.devices == before.update(
                    i as int,
                    crate::device::cycle(before[i as int]).0,
                ));
            }
            points.append(&mut more);
            i += 1;
        }
        points
    }

    /// Runs one cycle and hands out its data points one by one.
    pub fn iter(&mut self) -> (cycle: SimulationIterator)
        ensures
            final(self)@.client_id == old(self)@.client_id,
            final(self)@.parameters == old(self)@.parameters,
            (final(self)@.devices, cycle@) == crate::simulation::cycle(old(self)@.devices),
    {
        let points = self.next_cycle();
        SimulationIterator { points, position: 0 }
    }
}

/// The data points of one cycle, to be taken one by one.
pub struct SimulationIterator {
    points: Vec<DataPoint>,
    position: usize,
}

impl View for SimulationIterator {
    type V = Seq<DataPointModel>;

    /// The data points that were not taken yet.
    closed spec fn view(&self) -> Seq<DataPointModel> {
        data_views(self.points@).skip(self.position as int)
    }
}

impl SimulationIterator {
    #[verifier::type_invariant]
    spec fn well_formed(self) -> bool {
        self.position <= self.points.len()
    }

    /// Takes the next data point; `None` once all were taken.
    pub fn next(&mut self) -> (point: Option<DataPoint>)
        ensures
            old(self)@.len() == 0 ==> point is None && final(self)@ == old(self)@,
            old(self)@.len() > 0 ==> point is Some && point->0@ == old(self)@[0] && final(self)@
                == old(self)@.drop_first(),
    {
        proof {
            use_type_invariant(&*self);
        }
        if self.position < self.points.len() {
            let point = self.points[self.position].duplicate();
            assert(data_views(self.points@).skip(self.position as int).drop_first() == data_views(
                self.points@,
            ).skip(self.position + 1));
            self.position += 1;
            Some(point)
        } else {
            None
        }
    }
}

} // verus!
