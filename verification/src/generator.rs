//! Generators of the numerical data that simulates the data points of a
//! device.
//!
//! A generator is a small state machine. Each call of `generate` advances it
//! by one step and may draw from a stream of pseudo-random words. What a
//! generator does is stated over a model of its state, `GeneratorModel`, and
//! over the words of the stream.

use crate::random::{after, draw_u16, draw_u64, next_u16, next_u64, upcoming};
use crate::text::{decimal_text, push_decimal};
use rand::rngs::StdRng;
use vstd::prelude::*;
use vstd::string::*;

verus! {

/// A sensor's curve repeats once its counter has reached `SPREAD`.
pub const SPREAD: u32 = 100;

/// A status register hands out each value that it draws in `SUSTAIN` calls.
pub const SUSTAIN: u16 = 100;

/// The kinds of generators for data points.
#[derive(Clone, Copy, Debug, PartialEq, Eq, Structural)]
pub enum GeneratorType {
    /// Process registers: a new random 16-bit value with every call.
    Noise,
    /// An analogue sensor: a sine curve with jitter on top.
    Sensor,
    /// Status registers: a random 16-bit value that rarely changes.
    Status,
}

/// What a generator produced in one call.
///
/// A sensor's value is a decimal fraction. It is handed out as the two whole
/// numbers that determine it: with `u` the fraction in `[0, 1)` that `jitter`
/// stands for, the value is `sin(2 * pi * phase / 100) * 20 + 100 + 4 * u - 2`,
/// cut off after two decimal places.
#[derive(Clone, Copy, Debug, PartialEq, Eq, Structural)]
pub enum Reading {
    /// The value of a noise or status register.
    Register(u16),
    /// A sensor's position on its curve and the random bits of its jitter.
    Wave { phase: u32, jitter: u64 },
}

/// The state of a generator: its kind, its number among the generators of its
/// kind, its counter, and the value it holds (status registers only, and
/// there only while the counter is not 0).
pub struct GeneratorModel {
    pub kind: GeneratorType,
    pub id: nat,
    pub index: nat,
    pub value: u16,
}

/// One call of `generate`: the state afterwards, the value produced, and the
/// number of words drawn from the stream.
pub struct Step {
    pub next: GeneratorModel,
    pub reading: Reading,
    pub drawn: nat,
}

/// A generator of kind `kind` and number `id` that was never called.
pub open spec fn fresh(kind: GeneratorType, id: nat) -> GeneratorModel {
    GeneratorModel { kind, id, index: 0, value: 0 }
}

/// The states that a generator can be in.
pub open spec fn valid(g: GeneratorModel) -> bool {
    match g.kind {
        GeneratorType::Noise => g.index == 0 && g.value == 0,
        GeneratorType::Sensor => g.index <= SPREAD && g.value == 0,
        GeneratorType::Status => g.index < SUSTAIN,
    }
}

/// The value that the status register in state `g` hands out in its next
/// call: a value newly drawn where its counter is 0, else the value it holds.
pub open spec fn status_value(g: GeneratorModel, words: Map<nat, u32>) -> u16 {
    if g.index == 0 {
        next_u16(words)
    } else {
        g.value
    }
}

/// What one call does to a generator in state `g` whose stream holds `words`.
///
/// * Noise draws a 16-bit value with every call.
/// * A sensor hands out its counter as the phase and draws 64 bits of jitter;
///   the counter then goes up by one, and back to 0 from `SPREAD`.
/// * A status register counts the calls since its last draw. Where the
///   counter is 0 it draws a new 16-bit value to hold. It hands out the value
///   it holds, and the counter goes up by one, and back to 0 from
///   `SUSTAIN - 1`: each value is handed out in `SUSTAIN` calls, the first
///   value too.
pub open spec fn step(g: GeneratorModel, words: Map<nat, u32>) -> Step {
    match g.kind {
        GeneratorType::Noise => Step {
            next: g,
            reading: Reading::Register(next_u16(words)),
            drawn: 1,
        },
        GeneratorType::Sensor => Step {
            next: GeneratorModel {
                index: if g.index == SPREAD {
                    0
                } else {
                    g.index + 1
                },
                ..g
            },
            reading: Reading::Wave { phase: g.index as u32, jitter: next_u64(words) },
            drawn: 2,
        },
        GeneratorType::Status => Step {
            next: GeneratorModel {
                index: if g.index + 1 == SUSTAIN {
                    0
                } else {
                    g.index + 1
                },
                value: status_value(g, words),
                ..g
            },
            reading: Reading::Register(status_value(g, words)),
            drawn: if g.index == 0 {
                1
            } else {
                0
            },
        },
    }
}

/// The first part of a generator's name.
pub open spec fn kind_prefix(kind: GeneratorType) -> Seq<char> {
    match kind {
        GeneratorType::Noise => "noise_"@,
        GeneratorType::Sensor => "sensor_"@,
        GeneratorType::Status => "status_"@,
    }
}

/// The name of the generator of kind `kind` and number `id`: the kind in lower
/// case, an underscore, and the number in decimal.
pub open spec fn generator_name(kind: GeneratorType, id: nat) -> Seq<char> {
    kind_prefix(kind) + decimal_text(id)
}

/// The state of a generator after `n` calls that started in state `g` with
/// the stream `words`, and what is left of the stream.
pub open spec fn run(g: GeneratorModel, words: Map<nat, u32>, n: nat) -> (
    GeneratorModel,
    Map<nat, u32>,
)
    decreases n,
{
    if n == 0 {
        (g, words)
    } else {
        let (before, left) = run(g, words, (n - 1) as nat);
        (step(before, left).next, after(left, step(before, left).drawn))
    }
}

/// What call number `n + 1` produces, counted from state `g` with the stream
/// `words`.
pub open spec fn output(g: GeneratorModel, words: Map<nat, u32>, n: nat) -> Reading {
    step(run(g, words, n).0, run(g, words, n).1).reading
}

/// A generator never leaves its valid states, nor changes its kind or number.
pub proof fn lemma_step_valid(g: GeneratorModel, words: Map<nat, u32>)
    requires
        valid(g),
    ensures
        valid(step(g, words).next),
        step(g, words).next.kind == g.kind,
        step(g, words).next.id == g.id,
{
}

/// The calls of a status register whose counter stands at 0, as those of a
/// new one, fall into windows of `SUSTAIN` calls each. In the first call of
/// every window the register draws one word from the stream, and in all the
/// calls of the window it hands out the low 16 bits of that word: call number
/// `n + 1` hands out those of word number `n / SUSTAIN`.
pub proof fn lemma_status_sustain(g: GeneratorModel, words: Map<nat, u32>, n: nat)
    requires
        g.kind == GeneratorType::Status,
        g.index == 0,
    ensures
        run(g, words, n).0.kind == g.kind,
        run(g, words, n).0.id == g.id,
        run(g, words, n).0.index == n % (SUSTAIN as nat),
        run(g, words, n).1 == after(words, (n + SUSTAIN - 1) as nat / (SUSTAIN as nat)),
        n > 0 ==> run(g, words, n).0.value == next_u16(
            after(words, (n - 1) as nat / (SUSTAIN as nat)),
        ),
        output(g, words, n) == Reading::Register(next_u16(after(words, n / (SUSTAIN as nat)))),
        step(run(g, words, n).0, run(g, words, n).1).drawn == if n % (SUSTAIN as nat) == 0 {
            1nat
        } else {
            0nat
        },
    decreases n,
{
    if n > 0 {
        let m = (n - 1) as nat;
        lemma_status_sustain(g, words, m);
        crate::random::lemma_after_after(words, m / 100, 1);
    }
}

/// All calls of one window of a status register hand out one value, and the
/// windows take their values from the words of the stream one after the
/// other: call number `i + 1` of window number `window` hands out the low 16
/// bits of word number `window`.
pub proof fn lemma_status_window(g: GeneratorModel, words: Map<nat, u32>, window: nat, i: nat)
    requires
        g.kind == GeneratorType::Status,
        g.index == 0,
        i < SUSTAIN,
    ensures
        output(g, words, window * (SUSTAIN as nat) + i) == Reading::Register(
            next_u16(after(words, window)),
        ),
{
    lemma_status_sustain(g, words, window * 100 + i);
}

/// A sensor moves one phase with each call, through the phases 0 to `SPREAD`
/// and then again from 0, and takes two words of the stream for each value.
pub proof fn lemma_sensor_phase(g: GeneratorModel, words: Map<nat, u32>, n: nat)
    requires
        g.kind == GeneratorType::Sensor,
        g.index <= SPREAD,
    ensures
        run(g, words, n) == (
            GeneratorModel { index: ((g.index + n) % (SPREAD + 1) as nat), ..g },
            after(words, 2 * n),
        ),
        output(g, words, n) == (Reading::Wave {
            phase: ((g.index + n) % (SPREAD + 1) as nat) as u32,
            jitter: next_u64(after(words, 2 * n)),
        }),
    decreases n,
{
    if n > 0 {
        lemma_sensor_phase(g, words, (n - 1) as nat);
        crate::random::lemma_after_after(words, (2 * (n - 1)) as nat, 2);
        let before = (g.index + n - 1) as nat % 101;
        assert((g.index + n) % 101 == if before == 100 {
            0
        } else {
            before + 1
        });
    }
}

/// Noise hands out the low 16 bits of one word of the stream after the other.
pub proof fn lemma_noise_stream(g: GeneratorModel, words: Map<nat, u32>, n: nat)
    requires
        g.kind == GeneratorType::Noise,
    ensures
        run(g, words, n) == (g, after(words, n)),
        output(g, words, n) == Reading::Register(next_u16(after(words, n))),
    decreases n,
{
    if n > 0 {
        lemma_noise_stream(g, words, (n - 1) as nat);
        crate::random::lemma_after_after(words, (n - 1) as nat, 1);
    }
}

/// Makes the name of a generator.
fn make_name(kind: GeneratorType, id: usize) -> (name: String)
    ensures
        name@ == generator_name(kind, id as nat),
{
    let mut name = match kind {
        GeneratorType::Noise => String::from_str("noise_"),
        GeneratorType::Sensor => String::from_str("sensor_"),
        GeneratorType::Status => String::from_str("status_"),
    };
    push_decimal(&mut name, id as u64);
    name
}

/// Random numerical data in a 16-bit range, as of process registers whose
/// values change rapidly.
pub struct NoiseGenerator {
    id: usize,
    name: String,
}

impl View for NoiseGenerator {
    type V = GeneratorModel;

    closed spec fn view(&self) -> GeneratorModel {
        fresh(GeneratorType::Noise, self.id as nat)
    }
}

impl NoiseGenerator {
    #[verifier::type_invariant]
    spec fn well_formed(self) -> bool {
        self.name@ == generator_name(GeneratorType::Noise, self.id as nat)
    }

    /// The noise generator number `id`.
    pub fn new(id: usize) -> (g: Self)
        ensures
            g@ == fresh(GeneratorType::Noise, id as nat),
    {
        NoiseGenerator { id, name: make_name(GeneratorType::Noise, id) }
    }

    /// The generator's name and its next value.
    pub fn generate(&mut self, rng: &mut StdRng) -> (out: (&str, Reading))
        ensures
            out.0@ == generator_name(GeneratorType::Noise, old(self)@.id),
            out.1 == step(old(self)@, upcoming(*old(rng))).reading,
            final(self)@ == step(old(self)@, upcoming(*old(rng))).next,
            upcoming(*final(rng)) == after(
                upcoming(*old(rng)),
                step(old(self)@, upcoming(*old(rng))).drawn,
            ),
            valid(final(self)@),
    {
        proof {
            use_type_invariant(&*self);
        }
        let value: u16 = draw_u16(rng);
        (self.name.as_str(), Reading::Register(value))
    }
}

/// Numerical data in the style of an analogue sensor such as a temperature
/// resistor: it follows a curve and jitters.
pub struct SensorGenerator {
    id: usize,
    name: String,
    index: u32,
}

impl View for SensorGenerator {
    type V = GeneratorModel;

    closed spec fn view(&self) -> GeneratorModel {
        GeneratorModel {
            kind: GeneratorType::Sensor,
            id: self.id as nat,
            index: self.index as nat,
            value: 0,
        }
    }
}

impl SensorGenerator {
    #[verifier::type_invariant]
    spec fn well_formed(self) -> bool {
        &&& self.name@ == generator_name(GeneratorType::Sensor, self.id as nat)
        &&& self.index <= SPREAD
    }

    /// The sensor number `id`, at the start of its curve.
    pub fn new(id: usize) -> (g: Self)
        ensures
            g@ == fresh(GeneratorType::Sensor, id as nat),
    {
        SensorGenerator { id, name: make_name(GeneratorType::Sensor, id), index: 0 }
    }

    /// The generator's name and its next value.
    pub fn generate(&mut self, rng: &mut StdRng) -> (out: (&str, Reading))
        ensures
            out.0@ == generator_name(GeneratorType::Sensor, old(self)@.id),
            out.1 == step(old(self)@, upcoming(*old(rng))).reading,
            final(self)@ == step(old(self)@, upcoming(*old(rng))).next,
            upcoming(*final(rng)) == after(
                upcoming(*old(rng)),
                step(old(self)@, upcoming(*old(rng))).drawn,
            ),
            valid(final(self)@),
    {
        proof {
            use_type_invariant(&*self);
        }
        let jitter: u64 = draw_u64(rng);
        let phase: u32 = self.index;
        if self.index == SPREAD {
            self.index = 0;
        } else {
            self.index += 1;
        }
        (self.name.as_str(), Reading::Wave { phase, jitter })
    }
}

/// Data in the style of status registers: mostly constant, with an occasional
/// change as after an alarm or a reconfiguration.
pub struct StatusGenerator {
    id: usize,
    name: String,
    index: u16,
    current_value: u16,
}

impl View for StatusGenerator {
    type V = GeneratorModel;

    closed spec fn view(&self) -> GeneratorModel {
        GeneratorModel {
            kind: GeneratorType::Status,
            id: self.id as nat,
            index: self.index as nat,
            value: self.current_value,
        }
    }
}

impl StatusGenerator {
    #[verifier::type_invariant]
    spec fn well_formed(self) -> bool {
        &&& self.name@ == generator_name(GeneratorType::Status, self.id as nat)
        &&& self.index < SUSTAIN
    }

    /// The status register number `id`, which draws its first value in its
    /// first call.
    pub fn new(id: usize) -> (g: Self)
        ensures
            g@ == fresh(GeneratorType::Status, id as nat),
    {
        StatusGenerator {
            id,
            name: make_name(GeneratorType::Status, id),
            index: 0,
            current_value: 0,
        }
    }

    /// The generator's name and its next value.
    pub fn generate(&mut self, rng: &mut StdRng) -> (out: (&str, Reading))
        ensures
            out.0@ == generator_name(GeneratorType::Status, old(self)@.id),
            out.1 == step(old(self)@, upcoming(*old(rng))).reading,
            final(self)@ == step(old(self)@, upcoming(*old(rng))).next,
            upcoming(*final(rng)) == after(
                upcoming(*old(rng)),
                step(old(self)@, upcoming(*old(rng))).drawn,
            ),
            valid(final(self)@),
    {
        proof {
            use_type_invariant(&*self);
        }
        if self.index == 0 {
            self.current_value = draw_u16(rng);
        }
        if self.index == SUSTAIN - 1 {
            self.index = 0;
        } else {
            self.index += 1;
        }
        (self.name.as_str(), Reading::Register(self.current_value))
    }
}

/// A generator of any kind.
pub enum Generator {
    Noise(NoiseGenerator),
    Sensor(SensorGenerator),
    Status(StatusGenerator),
}

impl View for Generator {
    type V = GeneratorModel;

    open spec fn view(&self) -> GeneratorModel {
        match self {
            Generator::Noise(g) => g@,
            Generator::Sensor(g) => g@,
            Generator::Status(g) => g@,
        }
    }
}

impl Generator {
    /// The generator's name and its next value. The generator moves one step
    /// and takes from `rng` the words that the step draws.
    pub fn generate(&mut self, rng: &mut StdRng) -> (out: (&str, Reading))
        ensures
            out.0@ == generator_name(old(self)@.kind, old(self)@.id),
            out.1 == step(old(self)@, upcoming(*old(rng))).reading,
            final(self)@ == step(old(self)@, upcoming(*old(rng))).next,
            upcoming(*final(rng)) == after(
                upcoming(*old(rng)),
                step(old(self)@, upcoming(*old(rng))).drawn,
            ),
            valid(final(self)@),
    {
        match self {
            Generator::Noise(g) => g.generate(rng),
            Generator::Sensor(g) => g.generate(rng),
            Generator::Status(g) => g.generate(rng),
        }
    }
}

/// Makes the generator of kind `generator_type` and number `id`.
pub fn create_generator(generator_type: GeneratorType, id: usize) -> (g: Generator)
    ensures
        g@ == fresh(generator_type, id as nat),
{
    match generator_type {
        GeneratorType::Noise => Generator::Noise(NoiseGenerator::new(id)),
        GeneratorType::Sensor => Generator::Sensor(SensorGenerator::new(id)),
        GeneratorType::Status => Generator::Status(StatusGenerator::new(id)),
    }
}

} // verus!
