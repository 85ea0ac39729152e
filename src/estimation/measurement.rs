use vstd::prelude::*;

verus! {

/// One component of a measurement vector.
#[derive(Debug, Clone, Copy, PartialEq, Eq, Structural)]
pub enum MeasurementKind {
    RightAscension,
    Declination,
    Range,
    RangeRate,
    RightAscensionRate,
    DeclinationRate,
}

/// The sensor noise term that weights a component.
#[derive(Debug, Clone, Copy, PartialEq, Eq, Structural)]
pub enum NoiseTerm {
    Angular,
    Range,
    RangeRate,
    AngularRate,
}

/// Which optional quantities an observation recorded (the two angles are
/// always recorded).
#[derive(Debug, Clone, Copy, PartialEq, Eq, Structural)]
pub struct ObservedFields {
    pub range: bool,
    pub range_rate: bool,
    pub right_ascension_rate: bool,
    pub declination_rate: bool,
}

/// Which optional noise terms a sensor specifies (the angular noise is
/// always specified).
#[derive(Debug, Clone, Copy, PartialEq, Eq, Structural)]
pub struct SensorNoiseFields {
    pub range: bool,
    pub range_rate: bool,
    pub angular_rate: bool,
}

pub open spec fn opt_component(present: bool, k: MeasurementKind) -> Seq<MeasurementKind> {
    if present {
        seq![k]
    } else {
        Seq::empty()
    }
}

/// The components of an observation's measurement vector, in order: both
/// angles, then range, range rate, right-ascension rate and declination
/// rate, each only where the observation recorded it and the sensor
/// specifies its noise. Observed and predicted vectors both follow it, so
/// they match in length and order.
pub open spec fn measurement_layout(o: ObservedFields, n: SensorNoiseFields) -> Seq<
    MeasurementKind,
> {
    seq![MeasurementKind::RightAscension, MeasurementKind::Declination] + opt_component(
        o.range && n.range,
        MeasurementKind::Range,
    ) + opt_component(o.range_rate && n.range_rate, MeasurementKind::RangeRate)
        + opt_component(
        o.right_ascension_rate && n.angular_rate,
        MeasurementKind::RightAscensionRate,
    ) + opt_component(o.declination_rate && n.angular_rate, MeasurementKind::DeclinationRate)
}

impl MeasurementKind {
    pub open spec fn spec_noise_term(self) -> NoiseTerm {
        match self {
            MeasurementKind::RightAscension | MeasurementKind::Declination => NoiseTerm::Angular,
            MeasurementKind::Range => NoiseTerm::Range,
            MeasurementKind::RangeRate => NoiseTerm::RangeRate,
            MeasurementKind::RightAscensionRate | MeasurementKind::DeclinationRate => NoiseTerm::AngularRate,
        }
    }

    /// The noise term whose inverse square weights this component.
    pub fn noise_term(&self) -> (r: NoiseTerm)
        ensures
            r == self.spec_noise_term(),
    {
        match self {
            MeasurementKind::RightAscension | MeasurementKind::Declination => NoiseTerm::Angular,
            MeasurementKind::Range => NoiseTerm::Range,
            MeasurementKind::RangeRate => NoiseTerm::RangeRate,
            MeasurementKind::RightAscensionRate | MeasurementKind::DeclinationRate => NoiseTerm::AngularRate,
        }
    }
}

impl SensorNoiseFields {
    pub open spec fn spec_has(self, t: NoiseTerm) -> bool {
        match t {
            NoiseTerm::Angular => true,
            NoiseTerm::Range => self.range,
            NoiseTerm::RangeRate => self.range_rate,
            NoiseTerm::AngularRate => self.angular_rate,
        }
    }
}

/// The components of the measurement vector of an observation made by a
/// sensor (see `measurement_layout`).
pub fn layout(o: &ObservedFields, n: &SensorNoiseFields) -> (r: Vec<MeasurementKind>)
    ensures
        r@ == measurement_layout(*o, *n),
{
    let mut r: Vec<MeasurementKind> = Vec::new();
    r.push(MeasurementKind::RightAscension);
    r.push(MeasurementKind::Declination);
    let ghost base = r@;
    if o.range && n.range {
        r.push(MeasurementKind::Range);
    }
    let ghost after_range = r@;
    if o.range_rate && n.range_rate {
        r.push(MeasurementKind::RangeRate);
    }
    let ghost after_range_rate = r@;
    if o.right_ascension_rate && n.angular_rate {
        r.push(MeasurementKind::RightAscensionRate);
    }
    let ghost after_ra_rate = r@;
    if o.declination_rate && n.angular_rate {
        r.push(MeasurementKind::DeclinationRate);
    }
    assert(base =~= seq![MeasurementKind::RightAscension, MeasurementKind::Declination]);
    assert(after_range =~= base + opt_component(o.range && n.range, MeasurementKind::Range));
    assert(after_range_rate =~= after_range + opt_component(
        o.range_rate && n.range_rate,
        MeasurementKind::RangeRate,
    ));
    assert(after_ra_rate =~= after_range_rate + opt_component(
        o.right_ascension_rate && n.angular_rate,
        MeasurementKind::RightAscensionRate,
    ));
    assert(r@ =~= after_ra_rate + opt_component(
        o.declination_rate && n.angular_rate,
        MeasurementKind::DeclinationRate,
    ));
    r
}

/// Every component of a layout is weighted by a noise term that the sensor
/// specifies, and the two angles always lead.
pub proof fn lemma_layout_weighted(o: ObservedFields, n: SensorNoiseFields)
    ensures
        measurement_layout(o, n).len() >= 2,
        measurement_layout(o, n)[0] == MeasurementKind::RightAscension,
        measurement_layout(o, n)[1] == MeasurementKind::Declination,
        forall|i: int|
            0 <= i < measurement_layout(o, n).len() ==> n.spec_has(
                (#[trigger] measurement_layout(o, n)[i]).spec_noise_term(),
            ),
{
}

} // verus!
