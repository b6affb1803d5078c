//! Which sampled values of a MeterValues request become which measured values.
//!
//! The numbers of the sampled values are read by the caller. A reading refers to each value
//! by the position of its sampled value in the request (the sampled values of all meter
//! values, in order) and by the factor by which its number is multiplied: a thousand for the
//! kilo units of power and reactive energy, one otherwise.
use vstd::prelude::*;

use crate::charge_point_state::{MultiPhaseMeasurand, PhaseMeasurand};
use crate::types::Phase;

verus! {

/// The quantity that a sampled value measures.
#[derive(Clone, Copy, Debug, PartialEq, Eq, Structural)]
pub enum MeasurandKind {
    CurrentExport,
    CurrentImport,
    CurrentOffered,
    EnergyActiveExportRegister,
    EnergyActiveImportRegister,
    EnergyReactiveExportRegister,
    EnergyReactiveImportRegister,
    EnergyActiveExportInterval,
    EnergyActiveImportInterval,
    EnergyReactiveExportInterval,
    EnergyReactiveImportInterval,
    Frequency,
    PowerActiveExport,
    PowerActiveImport,
    PowerFactor,
    PowerOffered,
    PowerReactiveExport,
    PowerReactiveImport,
    Rpm,
    SoC,
    Temperature,
    Voltage,
}

/// The unit in which a sampled value is given.
#[derive(Clone, Copy, Debug, PartialEq, Eq, Structural)]
pub enum UnitOfMeasure {
    Wh,
    KWh,
    Varh,
    Kvarh,
    W,
    Kw,
    Va,
    Kva,
    Var,
    Kvar,
    A,
    V,
    Celsius,
    Fahrenheit,
    K,
    Percent,
}

/// What is read of a sampled value besides its number: what it measures, in which unit, on
/// which phase, and whether its text is a number.
#[derive(Clone, Copy, Debug, PartialEq, Eq, Structural)]
pub struct SampledValueHeader {
    pub measurand: Option<MeasurandKind>,
    pub unit: Option<UnitOfMeasure>,
    pub phase: Option<Phase>,
    pub is_number: bool,
}

/// A value taken from the sampled value at `index`, its number multiplied by `factor`.
#[derive(Clone, Copy, Debug, PartialEq, Eq, Structural)]
pub struct SampleRef {
    pub index: usize,
    pub factor: u32,
}

/// The factor for a number given in `unit`: a thousand for kvarh, kW, kVA and kvar, one
/// for every other unit (kWh included) and for none.
pub open spec fn unit_factor(unit: Option<UnitOfMeasure>) -> u32 {
    match unit {
        Some(UnitOfMeasure::Kvarh) | Some(UnitOfMeasure::Kw) | Some(UnitOfMeasure::Kva) | Some(
            UnitOfMeasure::Kvar,
        ) => 1000,
        _ => 1,
    }
}

/// Whether `k` is measured on each phase separately.
pub open spec fn is_per_phase(k: MeasurandKind) -> bool {
    match k {
        MeasurandKind::CurrentExport | MeasurandKind::CurrentImport
        | MeasurandKind::PowerActiveExport | MeasurandKind::PowerActiveImport
        | MeasurandKind::PowerReactiveExport | MeasurandKind::PowerReactiveImport
        | MeasurandKind::Voltage => true,
        _ => false,
    }
}

/// Whether the sampled value `h` gives a value of `k`: it measures `k` and its text is a
/// number.
pub open spec fn gives(h: SampledValueHeader, k: MeasurandKind) -> bool {
    h.measurand == Some(k) && h.is_number
}

/// The reference to the value of the sampled value at `i` of `s`.
pub open spec fn sample_ref(s: Seq<SampledValueHeader>, i: int) -> SampleRef {
    SampleRef { index: i as usize, factor: unit_factor(s[i].unit) }
}

/// The values of `k` that `s` gives, each with its phase, in the order of `s`.
pub open spec fn phase_values(s: Seq<SampledValueHeader>, k: MeasurandKind) -> Seq<
    PhaseMeasurand<SampleRef>,
>
    decreases s.len(),
{
    if s.len() == 0 {
        Seq::empty()
    } else {
        let rest = phase_values(s.drop_last(), k);
        if gives(s.last(), k) {
            rest.push(
                PhaseMeasurand { value: sample_ref(s, s.len() - 1), phase: s.last().phase.unwrap() },
            )
        } else {
            rest
        }
    }
}

/// The value of `k` that `s` gives last, if any.
pub open spec fn last_value(s: Seq<SampledValueHeader>, k: MeasurandKind) -> Option<SampleRef>
    decreases s.len(),
{
    if s.len() == 0 {
        None
    } else if gives(s.last(), k) {
        Some(sample_ref(s, s.len() - 1))
    } else {
        last_value(s.drop_last(), k)
    }
}

/// Every sampled value of `s` that gives a value measured per phase names its phase.
pub open spec fn phases_named(s: Seq<SampledValueHeader>) -> bool {
    forall|i: int|
        #![trigger s[i]]
        0 <= i < s.len() && s[i].is_number && (s[i].measurand matches Some(k) && is_per_phase(k))
            ==> s[i].phase is Some
}

/// The measured values of a MeterValues request, each given by a reference to its sampled
/// value: for a quantity measured per phase the values of all phases in order, for any other
/// the value given last.
#[derive(Clone, Debug, PartialEq, Eq)]
pub struct MeterReading {
    pub current_export: MultiPhaseMeasurand<SampleRef>,
    pub current_import: MultiPhaseMeasurand<SampleRef>,
    pub current_offered: Option<SampleRef>,
    pub energy_active_export_register: Option<SampleRef>,
    pub energy_active_import_register: Option<SampleRef>,
    pub energy_reactive_export_register: Option<SampleRef>,
    pub energy_reactive_import_register: Option<SampleRef>,
    pub energy_active_export_interval: Option<SampleRef>,
    pub energy_active_import_interval: Option<SampleRef>,
    pub energy_reactive_export_interval: Option<SampleRef>,
    pub energy_reactive_import_interval: Option<SampleRef>,
    pub frequency: Option<SampleRef>,
    pub power_active_export: MultiPhaseMeasurand<SampleRef>,
    pub power_active_import: MultiPhaseMeasurand<SampleRef>,
    pub power_factor: Option<SampleRef>,
    pub power_offered: Option<SampleRef>,
    pub power_reactive_export: MultiPhaseMeasurand<SampleRef>,
    pub power_reactive_import: MultiPhaseMeasurand<SampleRef>,
    pub rpm: Option<SampleRef>,
    pub state_of_charge: Option<SampleRef>,
    pub temperature: Option<SampleRef>,
    pub voltage: MultiPhaseMeasurand<SampleRef>,
}

/// Whether `r` holds exactly the values that the sampled values `s` give.
pub open spec fn reads(r: MeterReading, s: Seq<SampledValueHeader>) -> bool {
    &&& r.current_export.measurands@ == phase_values(s, MeasurandKind::CurrentExport)
    &&& r.current_import.measurands@ == phase_values(s, MeasurandKind::CurrentImport)
    &&& r.current_offered == last_value(s, MeasurandKind::CurrentOffered)
    &&& r.energy_active_export_register == last_value(s, MeasurandKind::EnergyActiveExportRegister)
    &&& r.energy_active_import_register == last_value(s, MeasurandKind::EnergyActiveImportRegister)
    &&& r.energy_reactive_export_register == last_value(
        s,
        MeasurandKind::EnergyReactiveExportRegister,
    )
    &&& r.energy_reactive_import_register == last_value(
        s,
        MeasurandKind::EnergyReactiveImportRegister,
    )
    &&& r.energy_active_export_interval == last_value(s, MeasurandKind::EnergyActiveExportInterval)
    &&& r.energy_active_import_interval == last_value(s, MeasurandKind::EnergyActiveImportInterval)
    &&& r.energy_reactive_export_interval == last_value(
        s,
        MeasurandKind::EnergyReactiveExportInterval,
    )
    &&& r.energy_reactive_import_interval == last_value(
        s,
        MeasurandKind::EnergyReactiveImportInterval,
    )
    &&& r.frequency == last_value(s, MeasurandKind::Frequency)
    &&& r.power_active_export.measurands@ == phase_values(s, MeasurandKind::PowerActiveExport)
    &&& r.power_active_import.measurands@ == phase_values(s, MeasurandKind::PowerActiveImport)
    &&& r.power_factor == last_value(s, MeasurandKind::PowerFactor)
    &&& r.power_offered == last_value(s, MeasurandKind::PowerOffered)
    &&& r.power_reactive_export.measurands@ == phase_values(s, MeasurandKind::PowerReactiveExport)
    &&& r.power_reactive_import.measurands@ == phase_values(s, MeasurandKind::PowerReactiveImport)
    &&& r.rpm == last_value(s, MeasurandKind::Rpm)
    &&& r.state_of_charge == last_value(s, MeasurandKind::SoC)
    &&& r.temperature == last_value(s, MeasurandKind::Temperature)
    &&& r.voltage.measurands@ == phase_values(s, MeasurandKind::Voltage)
}

/// The factor for a number given in `unit`.
pub fn factor_of(unit: Option<UnitOfMeasure>) -> (r: u32)
    ensures
        r == unit_factor(unit),
{
    match unit {
        Some(UnitOfMeasure::Kvarh) | Some(UnitOfMeasure::Kw) | Some(UnitOfMeasure::Kva) | Some(
            UnitOfMeasure::Kvar,
        ) => 1000,
        _ => 1,
    }
}

/// Whether `k` is measured on each phase separately.
pub fn is_measured_per_phase(k: MeasurandKind) -> (r: bool)
    ensures
        r == is_per_phase(k),
{
    match k {
        MeasurandKind::CurrentExport | MeasurandKind::CurrentImport
        | MeasurandKind::PowerActiveExport | MeasurandKind::PowerActiveImport
        | MeasurandKind::PowerReactiveExport | MeasurandKind::PowerReactiveImport
        | MeasurandKind::Voltage => true,
        _ => false,
    }
}

/// Whether every sampled value that gives a value measured per phase names its phase.
pub fn phases_are_named(samples: &Vec<SampledValueHeader>) -> (r: bool)
    ensures
        r == phases_named(samples@),
{
    let mut i: usize = 0;
    while i < samples.len()
        invariant
            i <= samples@.len(),
            forall|j: int|
                #![trigger samples@[j]]
                0 <= j < i && samples@[j].is_number && (samples@[j].measurand matches Some(k)
                    && is_per_phase(k)) ==> samples@[j].phase is Some,
        decreases samples.len() - i,
    {
        let h = samples[i];
        if h.is_number {
            if let Some(k) = h.measurand {
                if is_measured_per_phase(k) && h.phase.is_none() {
                    assert(!phases_named(samples@)) by {
                        assert(samples@[i as int] == h);
                    }
                    return false;
                }
            }
        }
        i = i + 1;
    }
    true
}

/// The sampled values of the first `i + 1` of `s` give what those of the first `i` give and,
/// for the quantity that the one at `i` gives, its value.
proof fn lemma_one_more_sample(s: Seq<SampledValueHeader>, i: int)
    requires
        0 <= i < s.len(),
    ensures
        forall|k: MeasurandKind|
            #[trigger] phase_values(s.take(i + 1), k) == if gives(s[i], k) {
                phase_values(s.take(i), k).push(
                    PhaseMeasurand { value: sample_ref(s, i), phase: s[i].phase.unwrap() },
                )
            } else {
                phase_values(s.take(i), k)
            },
        forall|k: MeasurandKind|
            #[trigger] last_value(s.take(i + 1), k) == if gives(s[i], k) {
                Some(sample_ref(s, i))
            } else {
                last_value(s.take(i), k)
            },
{
    let t = s.take(i + 1);
    assert(t.drop_last() =~= s.take(i));
    assert(t.last() == s[i]);
    assert(sample_ref(t, i) == sample_ref(s, i));
}

/// Reads the measured values of a MeterValues request from its sampled values (those of all
/// its meter values, in order): a value measured per phase is added to the values of its
/// quantity, any other value replaces the one before it. A sampled value without a quantity,
/// or whose text is not a number, is passed over.
pub fn handle_meter_values_request(samples: &Vec<SampledValueHeader>) -> (r: MeterReading)
    requires
        phases_named(samples@),
    ensures
        reads(r, samples@),
{
    let mut current_export: Vec<PhaseMeasurand<SampleRef>> = Vec::new();
    let mut current_import: Vec<PhaseMeasurand<SampleRef>> = Vec::new();
    let mut current_offered: Option<SampleRef> = None;
    let mut energy_active_export_register: Option<SampleRef> = None;
    let mut energy_active_import_register: Option<SampleRef> = None;
    let mut energy_reactive_export_register: Option<SampleRef> = None;
    let mut energy_reactive_import_register: Option<SampleRef> = None;
    let mut energy_active_export_interval: Option<SampleRef> = None;
    let mut energy_active_import_interval: Option<SampleRef> = None;
    let mut energy_reactive_export_interval: Option<SampleRef> = None;
    let mut energy_reactive_import_interval: Option<SampleRef> = None;
    let mut frequency: Option<SampleRef> = None;
    let mut power_active_export: Vec<PhaseMeasurand<SampleRef>> = Vec::new();
    let mut power_active_import: Vec<PhaseMeasurand<SampleRef>> = Vec::new();
    let mut power_factor: Option<SampleRef> = None;
    let mut power_offered: Option<SampleRef> = None;
    let mut power_reactive_export: Vec<PhaseMeasurand<SampleRef>> = Vec::new();
    let mut power_reactive_import: Vec<PhaseMeasurand<SampleRef>> = Vec::new();
    let mut rpm: Option<SampleRef> = None;
    let mut state_of_charge: Option<SampleRef> = None;
    let mut temperature: Option<SampleRef> = None;
    let mut voltage: Vec<PhaseMeasurand<SampleRef>> = Vec::new();
    let mut i: usize = 0;
    while i < samples.len()
        invariant
            i <= samples@.len(),
            phases_named(samples@),
            current_export@ == phase_values(samples@.take(i as int), MeasurandKind::CurrentExport),
            current_import@ == phase_values(samples@.take(i as int), MeasurandKind::CurrentImport),
            current_offered == last_value(samples@.take(i as int), MeasurandKind::CurrentOffered),
            energy_active_export_register == last_value(samples@.take(i as int), MeasurandKind::EnergyActiveExportRegister),
            energy_active_import_register == last_value(samples@.take(i as int), MeasurandKind::EnergyActiveImportRegister),
            energy_reactive_export_register == last_value(samples@.take(i as int), MeasurandKind::EnergyReactiveExportRegister),
            energy_reactive_import_register == last_value(samples@.take(i as int), MeasurandKind::EnergyReactiveImportRegister),
            energy_active_export_interval == last_value(samples@.take(i as int), MeasurandKind::EnergyActiveExportInterval),
            energy_active_import_interval == last_value(samples@.take(i as int), MeasurandKind::EnergyActiveImportInterval),
            energy_reactive_export_interval == last_value(samples@.take(i as int), MeasurandKind::EnergyReactiveExportInterval),
            energy_reactive_import_interval == last_value(samples@.take(i as int), MeasurandKind::EnergyReactiveImportInterval),
            frequency == last_value(samples@.take(i as int), MeasurandKind::Frequency),
            power_active_export@ == phase_values(samples@.take(i as int), MeasurandKind::PowerActiveExport),
            power_active_import@ == phase_values(samples@.take(i as int), MeasurandKind::PowerActiveImport),
            power_factor == last_value(samples@.take(i as int), MeasurandKind::PowerFactor),
            power_offered == last_value(samples@.take(i as int), MeasurandKind::PowerOffered),
            power_reactive_export@ == phase_values(samples@.take(i as int), MeasurandKind::PowerReactiveExport),
            power_reactive_import@ == phase_values(samples@.take(i as int), MeasurandKind::PowerReactiveImport),
            rpm == last_value(samples@.take(i as int), MeasurandKind::Rpm),
            state_of_charge == last_value(samples@.take(i as int), MeasurandKind::SoC),
            temperature == last_value(samples@.take(i as int), MeasurandKind::Temperature),
            voltage@ == phase_values(samples@.take(i as int), MeasurandKind::Voltage),
        decreases samples.len() - i,
    {
        proof {
            lemma_one_more_sample(samples@, i as int);
        }
        let h = samples[i];
        if h.is_number {
            if let Some(kind) = h.measurand {
                let value = SampleRef { index: i, factor: factor_of(h.unit) };
                match kind {
                    MeasurandKind::CurrentExport => {
                        proof {
                            assert(samples@[i as int] == h);
                        }
                        current_export.push(PhaseMeasurand { value, phase: h.phase.unwrap() });
                    },
                    MeasurandKind::CurrentImport => {
                        proof {
                            assert(samples@[i as int] == h);
                        }
                        current_import.push(PhaseMeasurand { value, phase: h.phase.unwrap() });
                    },
                    MeasurandKind::CurrentOffered => current_offered = Some(value),
                    MeasurandKind::EnergyActiveExportRegister => energy_active_export_register = Some(value),
                    MeasurandKind::EnergyActiveImportRegister => energy_active_import_register = Some(value),
                    MeasurandKind::EnergyReactiveExportRegister => energy_reactive_export_register = Some(value),
                    MeasurandKind::EnergyReactiveImportRegister => energy_reactive_import_register = Some(value),
                    MeasurandKind::EnergyActiveExportInterval => energy_active_export_interval = Some(value),
                    MeasurandKind::EnergyActiveImportInterval => energy_active_import_interval = Some(value),
                    MeasurandKind::EnergyReactiveExportInterval => energy_reactive_export_interval = Some(value),
                    MeasurandKind::EnergyReactiveImportInterval => energy_reactive_import_interval = Some(value),
                    MeasurandKind::Frequency => frequency = Some(value),
                    MeasurandKind::PowerActiveExport => {
                        proof {
                            assert(samples@[i as int] == h);
                        }
                        power_active_export.push(PhaseMeasurand { value, phase: h.phase.unwrap() });
                    },
                    MeasurandKind::PowerActiveImport => {
                        proof {
                            assert(samples@[i as int] == h);
                        }
                        power_active_import.push(PhaseMeasurand { value, phase: h.phase.unwrap() });
                    },
                    MeasurandKind::PowerFactor => power_factor = Some(value),
                    MeasurandKind::PowerOffered => power_offered = Some(value),
                    MeasurandKind::PowerReactiveExport => {
                        proof {
                            assert(samples@[i as int] == h);
                        }
                        power_reactive_export.push(PhaseMeasurand { value, phase: h.phase.unwrap() });
                    },
                    MeasurandKind::PowerReactiveImport => {
                        proof {
                            assert(samples@[i as int] == h);
                        }
                        power_reactive_import.push(PhaseMeasurand { value, phase: h.phase.unwrap() });
                    },
                    MeasurandKind::Rpm => rpm = Some(value),
                    MeasurandKind::SoC => state_of_charge = Some(value),
                    MeasurandKind::Temperature => temperature = Some(value),
                    MeasurandKind::Voltage => {
                        proof {
                            assert(samples@[i as int] == h);
                        }
                        voltage.push(PhaseMeasurand { value, phase: h.phase.unwrap() });
                    },
                }
            }
        }
        i = i + 1;
    }
    assert(samples@.take(samples@.len() as int) =~= samples@);
    MeterReading {
        current_export: MultiPhaseMeasurand::new(current_export),
        current_import: MultiPhaseMeasurand::new(current_import),
        current_offered,
        energy_active_export_register,
        energy_active_import_register,
        energy_reactive_export_register,
        energy_reactive_import_register,
        energy_active_export_interval,
        energy_active_import_interval,
        energy_reactive_export_interval,
        energy_reactive_import_interval,
        frequency,
        power_active_export: MultiPhaseMeasurand::new(power_active_export),
        power_active_import: MultiPhaseMeasurand::new(power_active_import),
        power_factor,
        power_offered,
        power_reactive_export: MultiPhaseMeasurand::new(power_reactive_export),
        power_reactive_import: MultiPhaseMeasurand::new(power_reactive_import),
        rpm,
        state_of_charge,
        temperature,
        voltage: MultiPhaseMeasurand::new(voltage),
    }
}

} // verus!
