//! A simulated device: a fixed set of generators, one for each of its data
//! points, and the pseudo-random stream that feeds them.

use crate::generator::{
    create_generator, fresh, generator_name, step, Generator, GeneratorModel, GeneratorType,
    Reading,
};
use crate::random::{after, seed_from_u64, seeded_words, upcoming};
use crate::text::{decimal_text, push_decimal};
use rand::rngs::StdRng;
use vstd::prelude::*;
use vstd::string::*;

verus! {

/// One value of one data point, ready to be published.
#[derive(Debug)]
pub struct DataPoint {
    /// The topic to publish under: that of the device.
    pub topic: String,
    /// The name of the data point.
    pub name: String,
    /// The value.
    pub reading: Reading,
}

/// A `DataPoint` with its texts as sequences of characters.
pub struct DataPointModel {
    pub topic: Seq<char>,
    pub name: Seq<char>,
    pub reading: Reading,
}

impl View for DataPoint {
    type V = DataPointModel;

    open spec fn view(&self) -> DataPointModel {
        DataPointModel { topic: self.topic@, name: self.name@, reading: self.reading }
    }
}

impl DataPoint {
    /// A copy of the data point.
    pub fn duplicate(&self) -> (copy: DataPoint)
        ensures
            copy@ == self@,
    {
        DataPoint { topic: self.topic.clone(), name: self.name.clone(), reading: self.reading }
    }
}

/// The views of a list of data points.
pub open spec fn data_views(points: Seq<DataPoint>) -> Seq<DataPointModel> {
    Seq::new(points.len(), |i: int| points[i]@)
}

/// The views of a list of generators.
pub open spec fn generator_views(generators: Seq<Generator>) -> Seq<GeneratorModel> {
    Seq::new(generators.len(), |i: int| generators[i]@)
}

/// The state of a device: its name, the states of its generators in the order
/// in which they produce, and the words that its stream will still hand out.
pub struct DeviceModel {
    pub name: Seq<char>,
    pub generators: Seq<GeneratorModel>,
    pub words: Map<nat, u32>,
}

/// The name of device number `device_id` of the simulator `cluster_id`.
pub open spec fn device_name(cluster_id: Seq<char>, device_id: nat) -> Seq<char> {
    cluster_id + "_"@ + decimal_text(device_id)
}

/// The topic under which the device called `name` publishes.
pub open spec fn topic_of(name: Seq<char>) -> Seq<char> {
    "s/us/"@ + name
}

/// Generator number `i` of a device with `data_points` data points. The first
/// third of the data points, rounded down, are status registers, as many
/// after them are noise, and all the rest are sensors. The generators of each
/// kind are numbered from 0.
pub open spec fn planned_generator(data_points: nat, i: nat) -> GeneratorModel {
    let third = data_points / 3;
    if i < third {
        fresh(GeneratorType::Status, i)
    } else if i < 2 * third {
        fresh(GeneratorType::Noise, (i - third) as nat)
    } else {
        fresh(GeneratorType::Sensor, (i - 2 * third) as nat)
    }
}

/// The generators of a new device with `data_points` data points.
pub open spec fn planned_generators(data_points: nat) -> Seq<GeneratorModel> {
    Seq::new(data_points, |i: int| planned_generator(data_points, i as nat))
}

/// The new device number `device_id` of the simulator `cluster_id`, with
/// `data_points` data points and a stream seeded with `seed`.
pub open spec fn fresh_device(
    cluster_id: Seq<char>,
    device_id: nat,
    data_points: nat,
    seed: u64,
) -> DeviceModel {
    DeviceModel {
        name: device_name(cluster_id, device_id),
        generators: planned_generators(data_points),
        words: seeded_words(seed),
    }
}

/// The data point that generator `g` of the device called `name` hands out
/// with the value `reading`.
pub open spec fn data_point(name: Seq<char>, g: GeneratorModel, reading: Reading) -> DataPointModel {
    DataPointModel { topic: topic_of(name), name: generator_name(g.kind, g.id), reading }
}

/// A cycle of device `d` after its first `n` generators have produced: the
/// state of the device and the data points handed out so far. The generators
/// produce in their order, each drawing from the stream where the one before
/// it has stopped.
pub open spec fn progress(d: DeviceModel, n: nat) -> (DeviceModel, Seq<DataPointModel>)
    decreases n,
{
    if n == 0 {
        (d, Seq::empty())
    } else {
        let (before, points) = progress(d, (n - 1) as nat);
        let g = before.generators[n - 1];
        let s = step(g, before.words);
        (
            DeviceModel {
                name: before.name,
                generators: before.generators.update(n - 1, s.next),
                words: after(before.words, s.drawn),
            },
            points.push(data_point(before.name, g, s.reading)),
        )
    }
}

/// One whole cycle of device `d`: the state of the device afterwards, and one
/// data point for each generator, in the order of the generators.
pub open spec fn cycle(d: DeviceModel) -> (DeviceModel, Seq<DataPointModel>) {
    progress(d, d.generators.len())
}

/// How many of `generators` are of kind `kind`.
pub open spec fn count_kind(generators: Seq<GeneratorModel>, kind: GeneratorType) -> nat
    decreases generators.len(),
{
    if generators.len() == 0 {
        0
    } else {
        count_kind(generators.drop_last(), kind) + if generators.last().kind == kind {
            1nat
        } else {
            0nat
        }
    }
}

/// The smaller of two numbers.
pub open spec fn least(a: nat, b: nat) -> nat {
    if a <= b {
        a
    } else {
        b
    }
}

/// The kinds among the first `k` generators of a device with `data_points`
/// data points.
proof fn lemma_partition_prefix(data_points: nat, k: nat)
    requires
        k <= data_points,
    ensures
        count_kind(planned_generators(data_points).take(k as int), GeneratorType::Status) == least(
            k,
            data_points / 3,
        ),
        count_kind(planned_generators(data_points).take(k as int), GeneratorType::Noise) == least(
            k,
            2 * (data_points / 3),
        ) - least(k, data_points / 3),
        count_kind(planned_generators(data_points).take(k as int), GeneratorType::Sensor) == k
            - least(k, 2 * (data_points / 3)),
    decreases k,
{
    let all = planned_generators(data_points);
    if k > 0 {
        lemma_partition_prefix(data_points, (k - 1) as nat);
        assert(all.take(k as int).drop_last() == all.take(k - 1));
    }
}

/// A device with `n` data points has `n / 3` status registers, then `n / 3`
/// noise registers, then sensors for all the data points that are left, and
/// the generators of each kind count from 0.
pub proof fn lemma_partition(n: nat)
    ensures
        planned_generators(n).len() == n,
        count_kind(planned_generators(n), GeneratorType::Status) == n / 3,
        count_kind(planned_generators(n), GeneratorType::Noise) == n / 3,
        count_kind(planned_generators(n), GeneratorType::Sensor) == n - 2 * (n / 3),
        forall|i: int|
            0 <= i < n / 3 ==> #[trigger] planned_generators(n)[i] == fresh(
                GeneratorType::Status,
                i as nat,
            ),
        forall|i: int|
            n / 3 <= i < 2 * (n / 3) ==> #[trigger] planned_generators(n)[i] == fresh(
                GeneratorType::Noise,
                (i - n / 3) as nat,
            ),
        forall|i: int|
            2 * (n / 3) <= i < n ==> #[trigger] planned_generators(n)[i] == fresh(
                GeneratorType::Sensor,
                (i - 2 * (n / 3)) as nat,
            ),
{
    lemma_partition_prefix(n, n);
    assert(planned_generators(n).take(n as int) == planned_generators(n));
}

/// A cycle leaves the name and the number of generators of a device as they
/// were, and hands out one data point for each generator.
pub proof fn lemma_progress_shape(d: DeviceModel, n: nat)
    requires
        n <= d.generators.len(),
    ensures
        progress(d, n).0.name == d.name,
        progress(d, n).0.generators.len() == d.generators.len(),
        progress(d, n).1.len() == n,
        forall|i: int| n <= i < d.generators.len() ==> progress(d, n).0.generators[i] == d.generators[i],
    decreases n,
{
    if n > 0 {
        lemma_progress_shape(d, (n - 1) as nat);
    }
}

/// Data point number `i` of a cycle comes from generator number `i`: it has
/// that generator's name, the value of that generator's step, and the topic
/// of the device. No generator is left out, and none produces out of turn.
pub proof fn lemma_progress_points(d: DeviceModel, n: nat, i: int)
    requires
        n <= d.generators.len(),
        0 <= i < n,
    ensures
        progress(d, n).1[i].topic == topic_of(d.name),
        progress(d, n).1[i].name == generator_name(d.generators[i].kind, d.generators[i].id),
        progress(d, n).1[i].reading == step(
            d.generators[i],
            progress(d, i as nat).0.words,
        ).reading,
    decreases n,
{
    lemma_progress_shape(d, (n - 1) as nat);
    if i < n - 1 {
        lemma_progress_points(d, (n - 1) as nat, i);
    }
}

/// A simulated device.
pub struct Device {
    name: String,
    generators: Vec<Generator>,
    rng: StdRng,
}

impl View for Device {
    type V = DeviceModel;

    closed spec fn view(&self) -> DeviceModel {
        DeviceModel {
            name: self.name@,
            generators: generator_views(self.generators@),
            words: upcoming(self.rng),
        }
    }
}

impl Device {
    /// The new device number `device_id` with `data_points` data points.
    /// `cluster_id` comes first in its name and tells several simulators
    /// apart. Its stream is seeded with `seed`.
    pub fn new(cluster_id: &str, device_id: usize, data_points: usize, seed: u64) -> (device: Self)
        ensures
            device@ == fresh_device(cluster_id@, device_id as nat, data_points as nat, seed),
    {
        let mut name = String::from_str(cluster_id);
        name.append("_");
        push_decimal(&mut name, device_id as u64);
        let generators = Self::create_data_point_generators(data_points);
        let rng = seed_from_u64(seed);
        Device { name, generators, rng }
    }

    /// Runs one cycle: every generator produces once, in order, and the
    /// values come back as data points under the device's topic.
    pub fn generate(&mut self) -> (points: Vec<DataPoint>)
        ensures
            (final(self)@, data_views(points@)) == cycle(old(self)@),
    {
        let mut points: Vec<DataPoint> = Vec::new();
        let n: usize = self.generators.len();
        let mut i: usize = 0;
        while i < n
            invariant
                i <= n,
                n == self.generators.len(),
                n == old(self)@.generators.len(),
                (self@, data_views(points@)) == progress(old(self)@, i as nat),
            decreases n - i,
        {
            let ghost before = self@;
            let ghost g = before.generators[i as int];
            let mut topic = String::from_str("s/us/");
            topic.append(self.name.as_str());
            let (name, reading) = self.generators[i].generate(&mut self.rng);
            let point = DataPoint { topic, name: String::from_str(name), reading };
            proof {
                let s = step(g, before.words);
                assert(self@.generators == before.generators.update(i as int, s.next));
            }
            points.push(point);
            i += 1;
        }
        points
    }

    /// The generators of a new device with `data_points` data points: about
    /// a third each of status, noise and sensor data, in this order.
    pub fn create_data_point_generators(data_points: usize) -> (generators: Vec<Generator>)
        ensures
            generator_views(generators@) == planned_generators(data_points as nat),
    {
        let third: usize = data_points / 3;
        let mut generators: Vec<Generator> = Vec::new();
        let mut i: usize = 0;
        while i < data_points
            invariant
                i <= data_points,
                third == data_points / 3,
                generators.len() == i,
                forall|k: int|
                    0 <= k < i ==> (#[trigger] generators@[k])@ == planned_generator(
                        data_points as nat,
                        k as nat,
                    ),
            decreases data_points - i,
        {
            let generator = if i < third {
                create_generator(GeneratorType::Status, i)
            } else if i < 2 * third {
                create_generator(GeneratorType::Noise, i - third)
            } else {
                create_generator(GeneratorType::Sensor, i - 2 * third)
            };
            generators.push(generator);
            i += 1;
        }
        generators
    }
}

} // verus!
