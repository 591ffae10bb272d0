use vstd::prelude::*;

verus! {

/// The device a log line or a message comes from.
#[derive(Debug, PartialEq, Eq, Clone, Copy, Structural)]
pub enum Target {
    FakePeripheral,
    DeviceUnderTest,
}

/// The level of a log line a device sent.
#[derive(Debug, PartialEq, Eq, Clone, Copy, Structural)]
pub enum DeviceLevel {
    Trace,
    Debug,
    Info,
    Warn,
    Error,
}

/// The level a log line is shown at on the host.
#[derive(Debug, PartialEq, Eq, Clone, Copy, Structural)]
pub enum HostLevel {
    Trace,
    Debug,
    Info,
    Warn,
    Error,
}

/// The host level of a device log line: the same level, and warning for a
/// line that carries none.
pub open spec fn spec_host_level(level: Option<DeviceLevel>) -> HostLevel {
    match level {
        Some(DeviceLevel::Trace) => HostLevel::Trace,
        Some(DeviceLevel::Debug) => HostLevel::Debug,
        Some(DeviceLevel::Info) => HostLevel::Info,
        None | Some(DeviceLevel::Warn) => HostLevel::Warn,
        Some(DeviceLevel::Error) => HostLevel::Error,
    }
}

/// The host level of a device log line.
pub fn host_level(level: Option<DeviceLevel>) -> (res: HostLevel)
    ensures
        res == spec_host_level(level),
{
    match level {
        Some(DeviceLevel::Trace) => HostLevel::Trace,
        Some(DeviceLevel::Debug) => HostLevel::Debug,
        Some(DeviceLevel::Info) => HostLevel::Info,
        None | Some(DeviceLevel::Warn) => HostLevel::Warn,
        Some(DeviceLevel::Error) => HostLevel::Error,
    }
}

/// The name under which a device's log lines are shown.
pub open spec fn spec_target_name(target: Target) -> Seq<char> {
    match target {
        Target::FakePeripheral => "fp"@,
        Target::DeviceUnderTest => "dut"@,
    }
}

/// The name under which a device's log lines are shown.
pub fn target_name(target: Target) -> (res: &'static str)
    ensures
        res@ == spec_target_name(target),
{
    match target {
        Target::FakePeripheral => "fp",
        Target::DeviceUnderTest => "dut",
    }
}


/// What a firmware image's defmt table holds that the host's logger reads:
/// the indices of the log strings, the indices that have a known source
/// location, and whether the table's encoding can recover from lost bytes.
pub struct DefmtTableFacts {
    pub indices: Vec<u64>,
    pub located: Vec<u64>,
    pub can_recover: bool,
}

/// The facts as values.
pub open spec fn facts_view(f: DefmtTableFacts) -> (Seq<u64>, Seq<u64>, bool) {
    (f.indices@, f.located@, f.can_recover)
}

/// What `defmt_decoder` reads from the ELF file `elf`: `None` when it holds
/// no defmt table or the table or its locations do not parse; else the log
/// string indices, the indices with a location, and whether the encoding
/// can recover.
pub uninterp spec fn defmt_table(elf: Seq<u8>) -> Option<(Seq<u64>, Seq<u64>, bool)>;

/// Reads the defmt table of `elf` with `defmt_decoder::Table::parse`,
/// `Table::get_locations`, `Table::indices` and `Encoding::can_recover`.
/// The result is named, not stated: it is whatever `defmt_decoder` reads.
#[verifier::external_body]
fn defmt_table_facts(elf: &[u8]) -> (res: Option<DefmtTableFacts>)
    ensures
        res is Some <==> defmt_table(elf@) is Some,
        res matches Some(f) ==> defmt_table(elf@) == Some(facts_view(f)),
{
    let table = match defmt_decoder::Table::parse(elf) {
        Ok(Some(table)) => table,
        _ => return None,
    };
    let locations = match table.get_locations(elf) {
        Ok(locations) => locations,
        Err(_) => return None,
    };
    let indices = table.indices().map(|i| i as u64).collect();
    let located = locations.keys().copied().collect();
    Some(DefmtTableFacts { indices, located, can_recover: table.encoding().can_recover() })
}

/// Whether every log string has a known source location.
pub open spec fn spec_locations_complete(indices: Seq<u64>, located: Seq<u64>) -> bool {
    forall|i: int| 0 <= i < indices.len() ==> located.contains(#[trigger] indices[i])
}

/// Whether every log string has a known source location; only then are
/// locations shown with the log lines.
pub fn locations_complete(indices: &Vec<u64>, located: &Vec<u64>) -> (res: bool)
    ensures
        res == spec_locations_complete(indices@, located@),
{
    let mut i: usize = 0;
    while i < indices.len()
        invariant
            i <= indices@.len(),
            forall|k: int| 0 <= k < i ==> located@.contains(#[trigger] indices@[k]),
        decreases indices@.len() - i,
    {
        let wanted = indices[i];
        let mut j: usize = 0;
        let mut found = false;
        while j < located.len()
            invariant
                j <= located@.len(),
                found ==> located@.contains(wanted),
                !found ==> forall|m: int| 0 <= m < j ==> located@[m] != wanted,
            decreases located@.len() - j,
        {
            if located[j] == wanted {
                found = true;
                assert(located@[j as int] == wanted);
            }
            j = j + 1;
        }
        if !found {
            assert(!located@.contains(indices@[i as int]));
            return false;
        }
        i = i + 1;
    }
    true
}

/// How the logger of a device works: whether it shows source locations and
/// whether it goes on after a malformed frame.
#[derive(Debug, Clone, Copy, PartialEq, Eq, Structural)]
pub struct LoggerSetup {
    pub show_locations: bool,
    pub can_recover: bool,
}

/// Sets the logger up from the firmware image `elf`: `None` when the image
/// has no readable defmt table. Locations are shown only when every log
/// string has one.
pub fn logger_setup(elf: &[u8]) -> (res: Option<LoggerSetup>)
    ensures
        res is None <==> defmt_table(elf@) is None,
        res matches Some(s) ==> {
            let t = defmt_table(elf@)->0;
            &&& s.show_locations == spec_locations_complete(t.0, t.1)
            &&& s.can_recover == t.2
        },
{
    match defmt_table_facts(elf) {
        None => None,
        Some(facts) => Some(LoggerSetup {
            show_locations: locations_complete(&facts.indices, &facts.located),
            can_recover: facts.can_recover,
        }),
    }
}

/// What the defmt decoder made of the bytes received so far.
#[derive(Debug, Clone, Copy, PartialEq, Eq, Structural)]
pub enum DecodeOutcome {
    /// A log line of this level (or none).
    Frame(Option<DeviceLevel>),
    /// The next frame is not complete yet.
    NeedMore,
    /// The next frame is malformed.
    Malformed,
}

/// What the logger does next.
#[derive(Debug, Clone, Copy, PartialEq, Eq, Structural)]
pub enum LoggerAction {
    /// Show the log line at this level, then decode on.
    Log(HostLevel),
    /// Wait for more bytes from the device.
    Wait,
    /// Report the malformed frame, then decode on.
    ReportMalformed,
    /// Stop: the log cannot be followed any more.
    Stop,
}

/// The logger's reaction to a decoding step: a log line is shown at its host
/// level, an incomplete frame waits for more bytes, and a malformed frame is
/// reported when the encoding can recover and stops the logger otherwise.
pub open spec fn spec_logger_step(outcome: DecodeOutcome, can_recover: bool) -> LoggerAction {
    match outcome {
        DecodeOutcome::Frame(level) => LoggerAction::Log(spec_host_level(level)),
        DecodeOutcome::NeedMore => LoggerAction::Wait,
        DecodeOutcome::Malformed => if can_recover {
            LoggerAction::ReportMalformed
        } else {
            LoggerAction::Stop
        },
    }
}

/// The logger's reaction to a decoding step.
pub fn logger_step(outcome: DecodeOutcome, can_recover: bool) -> (res: LoggerAction)
    ensures
        res == spec_logger_step(outcome, can_recover),
{
    match outcome {
        DecodeOutcome::Frame(level) => LoggerAction::Log(host_level(level)),
        DecodeOutcome::NeedMore => LoggerAction::Wait,
        DecodeOutcome::Malformed => if can_recover {
            LoggerAction::ReportMalformed
        } else {
            LoggerAction::Stop
        },
    }
}


/// A decoded log line is shown at the level the device gave it, and a line
/// without level as a warning; an incomplete frame waits for more bytes; a
/// malformed frame is reported and skipped when the encoding can recover,
/// and stops the logger otherwise. Log lines are shown under "fp" for the
/// shield and "dut" for the device under test.
pub proof fn law_logger_reactions(can_recover: bool)
    ensures
        spec_logger_step(DecodeOutcome::Frame(Some(DeviceLevel::Trace)), can_recover) == LoggerAction::Log(HostLevel::Trace),
        spec_logger_step(DecodeOutcome::Frame(Some(DeviceLevel::Debug)), can_recover) == LoggerAction::Log(HostLevel::Debug),
        spec_logger_step(DecodeOutcome::Frame(Some(DeviceLevel::Info)), can_recover) == LoggerAction::Log(HostLevel::Info),
        spec_logger_step(DecodeOutcome::Frame(Some(DeviceLevel::Warn)), can_recover) == LoggerAction::Log(HostLevel::Warn),
        spec_logger_step(DecodeOutcome::Frame(Some(DeviceLevel::Error)), can_recover) == LoggerAction::Log(HostLevel::Error),
        spec_logger_step(DecodeOutcome::Frame(None), can_recover) == LoggerAction::Log(HostLevel::Warn),
        spec_logger_step(DecodeOutcome::NeedMore, can_recover) == LoggerAction::Wait,
        spec_logger_step(DecodeOutcome::Malformed, can_recover)
            == if can_recover { LoggerAction::ReportMalformed } else { LoggerAction::Stop },
        spec_target_name(Target::FakePeripheral) == "fp"@,
        spec_target_name(Target::DeviceUnderTest) == "dut"@,
{
}

/// Locations are complete exactly when every log string index is among the
/// located ones.
pub proof fn law_locations_complete(indices: Seq<u64>, located: Seq<u64>)
    ensures
        spec_locations_complete(indices, located) <==> indices.to_set().subset_of(located.to_set()),
{
    if spec_locations_complete(indices, located) {
        assert forall|x: u64| indices.to_set().contains(x) implies located.to_set().contains(x) by {
            let i = choose|i: int| 0 <= i < indices.len() && indices[i] == x;
            assert(located.contains(indices[i]));
        }
    } else {
        let i = choose|i: int| 0 <= i < indices.len() && !located.contains(#[trigger] indices[i]);
        assert(indices.to_set().contains(indices[i]));
        assert(!located.to_set().contains(indices[i]));
    }
}

} // verus!
