use object::{Object, ObjectSymbol};
use vstd::prelude::*;

verus! {

/// Whether probe `i` of `serials` has the serial number `wanted`.
pub open spec fn probe_matches(serials: Seq<Option<String>>, i: int, wanted: Seq<char>) -> bool {
    serials[i] matches Some(s) && s@ == wanted
}

/// The first probe, among probes with the given serial numbers (a probe
/// may have none), whose serial number is `wanted`.
pub fn find_probe(serials: &Vec<Option<String>>, wanted: &String) -> (res: Option<usize>)
    ensures
        res matches Some(i) ==> i < serials@.len() && probe_matches(serials@, i as int, wanted@)
            && forall|j: int| 0 <= j < i ==> !probe_matches(serials@, j, wanted@),
        res is None ==> forall|j: int| 0 <= j < serials@.len() ==> !probe_matches(serials@, j, wanted@),
{
    let mut i: usize = 0;
    while i < serials.len()
        invariant
            i <= serials@.len(),
            forall|j: int| 0 <= j < i ==> !probe_matches(serials@, j, wanted@),
        decreases serials@.len() - i,
    {
        match &serials[i] {
            Some(s) => {
                if s.eq(wanted) {
                    return Some(i);
                }
            },
            None => {},
        }
        i = i + 1;
    }
    None
}


/// What the `object` crate reads from the ELF file `elf` about the symbol
/// `name`: `None` when the file does not parse, else the symbol's address
/// if the file has such a symbol.
pub uninterp spec fn elf_symbol(elf: Seq<u8>, name: Seq<char>) -> Option<Option<u64>>;

/// Parses `elf` with `object::File::parse` and looks `name` up with
/// `Object::symbol_by_name`, taking its `ObjectSymbol::address`. The
/// result is named, not stated: it is whatever `object` reads.
#[verifier::external_body]
fn elf_symbol_address(elf: &[u8], name: &str) -> (res: Option<Option<u64>>)
    ensures
        res == elf_symbol(elf@, name@),
{
    match object::File::parse(elf) {
        Ok(file) => match file.symbol_by_name(name) {
            Some(symbol) => Some(Some(symbol.address())),
            None => Some(None),
        },
        Err(_) => None,
    }
}

/// The address of the RTT control block that a firmware image declares:
/// `None` when the image does not parse, `Some(None)` when it has no
/// `_SEGGER_RTT` symbol (the control block is then searched for in memory).
pub fn rtt_control_block(elf: &[u8]) -> (res: Option<Option<u64>>)
    ensures
        res == elf_symbol(elf@, "_SEGGER_RTT"@),
{
    elf_symbol_address(elf, "_SEGGER_RTT")
}

/// The RTT channels of a device the host uses, by their index among the
/// up (device to host) and down (host to device) channels.
#[derive(Debug, Clone, Copy, PartialEq, Eq, Structural)]
pub struct RttChannels {
    /// The up channel carrying the device's messages.
    pub up_control: usize,
    /// The down channel carrying the host's commands.
    pub down_control: usize,
    /// The up channel carrying the device's defmt log.
    pub defmt: usize,
}

/// Picks the channels out of `n_up` up and `n_down` down channels: the last
/// up and the last down channel carry messages, the up channel before the
/// last carries the log. `None` when there are too few channels.
pub fn rtt_channel_choice(n_up: usize, n_down: usize) -> (res: Option<RttChannels>)
    ensures
        res is Some <==> n_up >= 2 && n_down >= 1,
        res matches Some(c) ==> c == (RttChannels { up_control: (n_up - 1) as usize, down_control: (n_down - 1) as usize, defmt: (n_up - 2) as usize }),
{
    if n_up >= 2 && n_down >= 1 {
        Some(RttChannels { up_control: n_up - 1, down_control: n_down - 1, defmt: n_up - 2 })
    } else {
        None
    }
}

} // verus!
