use vstd::prelude::*;

use crate::rust::RustInfo;
use crate::simulator::{simulator_inventory, DeviceGroup, MeasuredRuntime, SimulatorInfo};
use crate::solana::SolanaInfo;

verus! {

/// Usage per backend and over all of them.
#[derive(Debug, Clone, Copy, PartialEq, Eq, Structural)]
pub struct Summary {
    pub rust_count: usize,
    pub rust_bytes: u64,
    pub solana_count: usize,
    pub solana_bytes: u64,
    pub simulator_count: usize,
    pub simulator_unavailable: usize,
    pub simulator_bytes: u64,
    pub total_bytes: u64,
}

/// `x`, or `u64::MAX` where it is larger.
pub open spec fn capped(x: int) -> int {
    if x > u64::MAX {
        u64::MAX as int
    } else {
        x
    }
}

pub open spec fn total_of(sizes: Seq<u64>) -> int
    decreases sizes.len(),
{
    if sizes.len() == 0 {
        0
    } else {
        total_of(sizes.drop_last()) + sizes.last()
    }
}

pub open spec fn count_false(flags: Seq<bool>) -> nat
    decreases flags.len(),
{
    if flags.len() == 0 {
        0
    } else {
        count_false(flags.drop_last()) + if flags.last() {
            0nat
        } else {
            1nat
        }
    }
}

/// An inventory item whose size on disk is known.
pub trait ItemSize {
    spec fn bytes(&self) -> u64;

    fn item_bytes(&self) -> (r: u64)
        ensures
            r == self.bytes(),
    ;
}

impl ItemSize for RustInfo {
    open spec fn bytes(&self) -> u64 {
        self.size
    }

    fn item_bytes(&self) -> (r: u64) {
        self.size
    }
}

impl ItemSize for SolanaInfo {
    open spec fn bytes(&self) -> u64 {
        self.size
    }

    fn item_bytes(&self) -> (r: u64) {
        self.size
    }
}

impl ItemSize for SimulatorInfo {
    open spec fn bytes(&self) -> u64 {
        self.size
    }

    fn item_bytes(&self) -> (r: u64) {
        self.size
    }
}

pub open spec fn rust_sizes(r: Seq<RustInfo>) -> Seq<u64> {
    r.map_values(|x: RustInfo| x.size)
}

pub open spec fn solana_sizes(s: Seq<SolanaInfo>) -> Seq<u64> {
    s.map_values(|x: SolanaInfo| x.size)
}

pub open spec fn simulator_sizes(m: Seq<SimulatorInfo>) -> Seq<u64> {
    m.map_values(|x: SimulatorInfo| x.size)
}

/// The summary of three inventories: counts, byte totals (held at
/// `u64::MAX` where they would exceed it) and unavailable emulator items.
pub open spec fn summary_of(r: Seq<RustInfo>, s: Seq<SolanaInfo>, m: Seq<SimulatorInfo>) -> Summary {
    Summary {
        rust_count: r.len() as usize,
        rust_bytes: capped(total_of(rust_sizes(r))) as u64,
        solana_count: s.len() as usize,
        solana_bytes: capped(total_of(solana_sizes(s))) as u64,
        simulator_count: m.len() as usize,
        simulator_unavailable: count_false(m.map_values(|x: SimulatorInfo| x.is_available)) as usize,
        simulator_bytes: capped(total_of(simulator_sizes(m))) as u64,
        total_bytes: capped(
            total_of(rust_sizes(r)) + total_of(solana_sizes(s)) + total_of(simulator_sizes(m)),
        ) as u64,
    }
}

proof fn lemma_total_nonnegative(sizes: Seq<u64>)
    ensures
        total_of(sizes) >= 0,
    decreases sizes.len(),
{
    if sizes.len() > 0 {
        lemma_total_nonnegative(sizes.drop_last());
    }
}

proof fn lemma_count_false_bound(flags: Seq<bool>)
    ensures
        count_false(flags) <= flags.len(),
    decreases flags.len(),
{
    if flags.len() > 0 {
        lemma_count_false_bound(flags.drop_last());
    }
}

/// A backend whose external tool is missing contributes an empty inventory:
/// it then counts no item and adds no byte to the total, which is the
/// other two backends' alone.
pub proof fn lemma_missing_tool_adds_nothing(
    solanas: Seq<SolanaInfo>,
    simulators: Seq<SimulatorInfo>,
    groups: Seq<DeviceGroup>,
)
    ensures
        summary_of(Seq::empty(), solanas, simulators).rust_count == 0,
        summary_of(Seq::empty(), solanas, simulators).rust_bytes == 0,
        summary_of(Seq::empty(), solanas, simulators).total_bytes == capped(
            total_of(solana_sizes(solanas)) + total_of(simulator_sizes(simulators)),
        ),
        simulator_inventory(Seq::<MeasuredRuntime>::empty(), groups).len() == 0,
{
    assert(rust_sizes(Seq::empty()) =~= Seq::<u64>::empty());
    lemma_total_nonnegative(solana_sizes(solanas));
    lemma_total_nonnegative(simulator_sizes(simulators));
}

/// Adds `x` to a total held at `u64::MAX`.
fn add_capped(acc: u64, x: u64) -> (r: u64)
    ensures
        r == capped(acc + x),
{
    acc.saturating_add(x)
}

proof fn lemma_capped_add(t: int, x: int)
    requires
        t >= 0,
        x >= 0,
    ensures
        capped(capped(t) + x) == capped(t + x),
{
}

fn capped_total<T: ItemSize>(list: &Vec<T>) -> (r: u64)
    ensures
        r == capped(total_of(list@.map_values(|x: T| x.bytes()))),
{
    let mut acc: u64 = 0;
    let mut i: usize = 0;
    while i < list.len()
        invariant
            i <= list@.len(),
            acc == capped(total_of(list@.take(i as int).map_values(|x: T| x.bytes()))),
        decreases list@.len() - i,
    {
        proof {
            let before = list@.take(i as int).map_values(|x: T| x.bytes());
            assert(list@.take(i + 1).map_values(|x: T| x.bytes()).drop_last() =~= before);
            lemma_total_nonnegative(before);
            lemma_capped_add(total_of(before), list@[i as int].bytes() as int);
        }
        acc = add_capped(acc, list[i].item_bytes());
        i = i + 1;
    }
    assert(list@.take(list@.len() as int) =~= list@);
    acc
}

fn unavailable_count(list: &Vec<SimulatorInfo>) -> (r: usize)
    ensures
        r == count_false(list@.map_values(|x: SimulatorInfo| x.is_available)),
{
    let mut down: usize = 0;
    let mut i: usize = 0;
    while i < list.len()
        invariant
            i <= list@.len(),
            down == count_false(list@.take(i as int).map_values(|x: SimulatorInfo| x.is_available)),
            down <= i,
        decreases list@.len() - i,
    {
        proof {
            assert(list@.take(i + 1).map_values(|x: SimulatorInfo| x.is_available).drop_last()
                =~= list@.take(i as int).map_values(|x: SimulatorInfo| x.is_available));
        }
        if !list[i].is_available {
            down = down + 1;
        }
        i = i + 1;
    }
    assert(list@.take(list@.len() as int) =~= list@);
    down
}

/// The status report.
pub struct Status;

impl Status {
    /// Counts and byte totals of the three inventories.
    pub fn summarize(
        rusts: &Vec<RustInfo>,
        solanas: &Vec<SolanaInfo>,
        simulators: &Vec<SimulatorInfo>,
    ) -> (r: Summary)
        ensures
            r == summary_of(rusts@, solanas@, simulators@),
    {
        let rust_bytes = capped_total(rusts);
        let solana_bytes = capped_total(solanas);
        let simulator_bytes = capped_total(simulators);
        let unavailable = unavailable_count(simulators);
        proof {
            assert(rusts@.map_values(|x: RustInfo| x.bytes()) =~= rust_sizes(rusts@));
            assert(solanas@.map_values(|x: SolanaInfo| x.bytes()) =~= solana_sizes(solanas@));
            assert(simulators@.map_values(|x: SimulatorInfo| x.bytes()) =~= simulator_sizes(
                simulators@,
            ));
        }
        proof {
            lemma_total_nonnegative(rust_sizes(rusts@));
            lemma_total_nonnegative(solana_sizes(solanas@));
            lemma_total_nonnegative(simulator_sizes(simulators@));
        }
        let t = add_capped(rust_bytes, solana_bytes);
        let total = add_capped(t, simulator_bytes);
        proof {
            let a = total_of(rust_sizes(rusts@));
            let b = total_of(solana_sizes(solanas@));
            let c = total_of(simulator_sizes(simulators@));
            lemma_capped_add(a, b);
            lemma_capped_add(a + b, c);
            assert(t == capped(a + b));
            assert(total == capped(a + b + c));
        }
        Summary {
            rust_count: rusts.len(),
            rust_bytes,
            solana_count: solanas.len(),
            solana_bytes,
            simulator_count: simulators.len(),
            simulator_unavailable: unavailable,
            simulator_bytes,
            total_bytes: total,
        }
    }
}

} // verus!
