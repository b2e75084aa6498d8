//! Descriptions of noise fields.
//!
//! A field is a tree: its leaves are sources of gradient noise and constants,
//! its inner nodes combine the fields below them point by point. The tree
//! only says what is to be computed; the host evaluates it. Every scalar in
//! it is a fixed-point number with `UNIT` steps to one.

use vstd::prelude::*;

verus! {

/// The fixed-point representation of one.
pub const UNIT: i64 = 1_000_000_000;

/// The algorithm of a noise source.
#[derive(Clone, Copy, Debug, PartialEq, Eq, Structural)]
pub enum NoiseKind {
    Perlin,
    Simplex,
}

/// How fast a noise source changes along each axis. Along an axis with
/// frequency zero it does not change at all.
#[derive(Clone, Copy, Debug, PartialEq, Eq, Structural)]
pub struct Frequency {
    pub x: i64,
    pub y: i64,
    pub z: i64,
}

impl Frequency {
    /// The same frequency along every axis.
    pub fn uniform(frequency: i64) -> (result: Frequency)
        ensures
            result == (Frequency { x: frequency, y: frequency, z: frequency }),
    {
        Frequency { x: frequency, y: frequency, z: frequency }
    }
}

/// A noise field.
#[derive(Debug, PartialEq, Eq)]
pub enum Noise {
    /// The same value everywhere.
    Constant(i64),
    /// Gradient noise of one kind, frequency and seed.
    Source { kind: NoiseKind, frequency: Frequency, seed: u32 },
    /// The sum of `octaves` evaluations of `source`: each has `lacunarity`
    /// times the frequency and `persistence` times the amplitude of the one
    /// before, and the sum is scaled back to the range of `source`.
    Fbm { source: Box<Noise>, octaves: u32, persistence: i64, lacunarity: i64 },
    /// The absolute value of a field.
    Abs(Box<Noise>),
    /// A field times itself.
    Square(Box<Noise>),
    /// A field held between `min` and `max`.
    Clamp { source: Box<Noise>, min: i64, max: i64 },
    /// The sum of two fields.
    Add(Box<Noise>, Box<Noise>),
    /// The product of two fields.
    Mul(Box<Noise>, Box<Noise>),
    /// `below` where `selector` is under `low`, `above` where it is over
    /// `high`, and a linear blend of the two in between.
    Range { selector: Box<Noise>, low: i64, high: i64, below: Box<Noise>, above: Box<Noise> },
}

impl Noise {
    /// A source of Perlin noise.
    pub fn perlin(frequency: Frequency, seed: u32) -> (noise: Noise)
        ensures
            noise == (Noise::Source { kind: NoiseKind::Perlin, frequency, seed }),
    {
        Noise::Source { kind: NoiseKind::Perlin, frequency, seed }
    }

    /// A source of simplex noise.
    pub fn simplex(frequency: Frequency, seed: u32) -> (noise: Noise)
        ensures
            noise == (Noise::Source { kind: NoiseKind::Simplex, frequency, seed }),
    {
        Noise::Source { kind: NoiseKind::Simplex, frequency, seed }
    }

    /// The field that is `value` everywhere.
    pub fn constant(value: i64) -> (noise: Noise)
        ensures
            noise == Noise::Constant(value),
    {
        Noise::Constant(value)
    }

    /// Fractal summation of this field.
    pub fn fbm(self, octaves: u32, persistence: i64, lacunarity: i64) -> (noise: Noise)
        ensures
            noise == (Noise::Fbm { source: Box::new(self), octaves, persistence, lacunarity }),
    {
        Noise::Fbm { source: Box::new(self), octaves, persistence, lacunarity }
    }

    /// The absolute value of this field.
    pub fn abs(self) -> (noise: Noise)
        ensures
            noise == Noise::Abs(Box::new(self)),
    {
        Noise::Abs(Box::new(self))
    }

    /// This field times itself.
    pub fn square(self) -> (noise: Noise)
        ensures
            noise == Noise::Square(Box::new(self)),
    {
        Noise::Square(Box::new(self))
    }

    /// This field held between `min` and `max`.
    pub fn clamp(self, min: i64, max: i64) -> (noise: Noise)
        ensures
            noise == (Noise::Clamp { source: Box::new(self), min, max }),
    {
        Noise::Clamp { source: Box::new(self), min, max }
    }

    /// The sum of this field and `other`.
    pub fn add(self, other: Noise) -> (noise: Noise)
        ensures
            noise == Noise::Add(Box::new(self), Box::new(other)),
    {
        Noise::Add(Box::new(self), Box::new(other))
    }

    /// The product of this field and `other`.
    pub fn mul(self, other: Noise) -> (noise: Noise)
        ensures
            noise == Noise::Mul(Box::new(self), Box::new(other)),
    {
        Noise::Mul(Box::new(self), Box::new(other))
    }

    /// Chooses between two fields by the value of this one: `below` where it
    /// is under `low`, `above` where it is over `high`, a blend in between.
    pub fn range(self, low: i64, high: i64, below: Noise, above: Noise) -> (noise: Noise)
        ensures
            noise == (Noise::Range {
                selector: Box::new(self),
                low,
                high,
                below: Box::new(below),
                above: Box::new(above),
            }),
    {
        Noise::Range {
            selector: Box::new(self),
            low,
            high,
            below: Box::new(below),
            above: Box::new(above),
        }
    }
}

} // verus!
