use vstd::prelude::*;

verus! {

/// When a sampled value was taken.
#[derive(Debug, Clone, Copy, PartialEq, Eq)]
pub enum ReadingContext {
    InterruptionBegin,
    InterruptionEnd,
    SampleClock,
    SamplePeriodic,
    TransactionBegin,
    TransactionEnd,
    Trigger,
    Other,
}

/// What a sampled value measures.
#[derive(Debug, Clone, Copy, PartialEq, Eq)]
pub enum Measurand {
    CurrentExport,
    CurrentImport,
    CurrentOffered,
    CurrentAvailable,
    EnergyActiveExportRegister,
    EnergyActiveImportRegister,
    EnergyReactiveExportRegister,
    EnergyReactiveImportRegister,
    EnergyActiveExportInterval,
    EnergyActiveImportInterval,
    EnergyReactiveExportInterval,
    Voltage,
    PowerActiveExport,
    PowerActiveImport,
    PowerFactor,
    PowerOffered,
    PowerReactiveExport,
    PowerReactiveImport,
    PowerApparent,
    Frequency,
    Resistance,
    CommonTemperature,
    RPM,
    SoC,
}

/// One measured value of a meter reading.
#[derive(Debug, Clone, PartialEq, Eq)]
pub struct SampledValue {
    pub value: String,
    pub context: ReadingContext,
    pub format: String,
    pub measurand: Measurand,
    pub unit: String,
}

/// A meter reading at one point in time.
#[derive(Debug, Clone, PartialEq, Eq)]
pub struct MeterValue {
    pub timestamp: String,
    pub value: String,
}

} // verus!
