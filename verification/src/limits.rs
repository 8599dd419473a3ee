//! The resource limits of the container and the cgroup control files that carry them.

use crate::text::{
    decimal, digits_value, is_digit, law_decimal_stands_for_number, u64_text,
};
use vstd::prelude::*;

verus! {

/// The limits that the cgroup enforces on the container.
#[derive(Debug, Clone, Copy, PartialEq, Eq, Structural)]
pub struct CgroupLimits {
    pub memory_max_bytes: u64,
    pub cpu_quota_us: u64,
    pub cpu_period_us: u64,
    pub pids_max: u32,
}

impl Default for CgroupLimits {
    /// 256 MB of memory, half of one CPU in windows of 100 ms, and 32 processes.
    fn default() -> (limits: Self)
        ensures
            limits.memory_max_bytes == 256 * 1024 * 1024,
            limits.cpu_quota_us == 50_000,
            limits.cpu_period_us == 100_000,
            limits.pids_max == 32,
    {
        CgroupLimits {
            memory_max_bytes: 256 * 1024 * 1024,
            cpu_quota_us: 50_000,
            cpu_period_us: 100_000,
            pids_max: 32,
        }
    }
}

impl CgroupLimits {
    /// The control files in the order in which they are written, each with its contents.
    pub open spec fn writes(self) -> Seq<(Seq<char>, Seq<char>)> {
        seq![
            ("memory.max"@, decimal(self.memory_max_bytes as nat)),
            (
                "cpu.max"@,
                decimal(self.cpu_quota_us as nat) + " "@ + decimal(self.cpu_period_us as nat),
            ),
            ("pids.max"@, decimal(self.pids_max as nat)),
        ]
    }

    /// (cgroup control-file name, value to write) pairs for this limit set.
    pub fn cgroup_writes(&self) -> (writes: [(&'static str, String); 3])
        ensures
            forall|i: int|
                0 <= i < 3 ==> ((#[trigger] writes@[i]).0@, writes@[i].1@) == self.writes()[i],
    {
        let mut cpu = u64_text(self.cpu_quota_us);
        cpu.append(" ");
        cpu.append(u64_text(self.cpu_period_us).as_str());
        [
            ("memory.max", u64_text(self.memory_max_bytes)),
            ("cpu.max", cpu),
            ("pids.max", u64_text(self.pids_max as u64)),
        ]
    }
}

proof fn lemma_decimal_injective(m: nat, n: nat)
    requires
        decimal(m) == decimal(n),
    ensures
        m == n,
{
    law_decimal_stands_for_number(m);
    law_decimal_stands_for_number(n);
}

proof fn lemma_pair_injective(q1: nat, p1: nat, q2: nat, p2: nat)
    requires
        decimal(q1) + " "@ + decimal(p1) == decimal(q2) + " "@ + decimal(p2),
    ensures
        q1 == q2,
        p1 == p2,
{
    reveal_strlit(" ");
    let (a, b) = (decimal(q1), decimal(q2));
    let (x, y) = (a + " "@ + decimal(p1), b + " "@ + decimal(p2));
    law_decimal_stands_for_number(q1);
    law_decimal_stands_for_number(q2);
    assert(x[a.len() as int] == ' ' && y[b.len() as int] == ' ');
    if a.len() < b.len() {
        assert(y[a.len() as int] == b[a.len() as int]);
    } else if b.len() < a.len() {
        assert(x[b.len() as int] == a[b.len() as int]);
    }
    assert(a =~= x.take(a.len() as int));
    assert(b =~= y.take(b.len() as int));
    assert(decimal(p1) =~= x.skip(a.len() as int + 1));
    assert(decimal(p2) =~= y.skip(b.len() as int + 1));
    lemma_decimal_injective(q1, q2);
    lemma_decimal_injective(p1, p2);
}

proof fn lemma_decimal_is_plain(n: nat)
    ensures
        decimal(n).len() > 0,
        forall|i: int| 0 <= i < decimal(n).len() ==> '0' <= #[trigger] decimal(n)[i] <= '9',
        decimal(n)[0] == '0' ==> decimal(n).len() == 1,
        digits_value(decimal(n)) == n,
{
    law_decimal_stands_for_number(n);
    assert forall|i: int| 0 <= i < decimal(n).len() implies '0' <= #[trigger] decimal(n)[i]
        <= '9' by {
        assert(is_digit(decimal(n)[i]));
    }
}

/// The writes carry the limits: `memory.max` holds the number of bytes, `cpu.max` the quota, one
/// space and the period, and `pids.max` the number of processes, in this order. Each number is
/// made of digits, without a leading zero, that stand for the limit.
pub proof fn law_writes_carry_limits(limits: CgroupLimits)
    ensures
        limits.writes().len() == 3,
        limits.writes()[0].0 == "memory.max"@,
        ({
            let memory = limits.writes()[0].1;
            &&& memory.len() > 0
            &&& forall|i: int| 0 <= i < memory.len() ==> '0' <= #[trigger] memory[i] <= '9'
            &&& memory[0] == '0' ==> memory.len() == 1
            &&& digits_value(memory) == limits.memory_max_bytes
        }),
        limits.writes()[1].0 == "cpu.max"@,
        exists|quota: Seq<char>, period: Seq<char>|
            {
                &&& limits.writes()[1].1 == #[trigger] (quota + seq![' '] + period)
                &&& quota.len() > 0
                &&& forall|i: int| 0 <= i < quota.len() ==> '0' <= #[trigger] quota[i] <= '9'
                &&& quota[0] == '0' ==> quota.len() == 1
                &&& digits_value(quota) == limits.cpu_quota_us
                &&& period.len() > 0
                &&& forall|i: int| 0 <= i < period.len() ==> '0' <= #[trigger] period[i] <= '9'
                &&& period[0] == '0' ==> period.len() == 1
                &&& digits_value(period) == limits.cpu_period_us
            },
        limits.writes()[2].0 == "pids.max"@,
        ({
            let pids = limits.writes()[2].1;
            &&& pids.len() > 0
            &&& forall|i: int| 0 <= i < pids.len() ==> '0' <= #[trigger] pids[i] <= '9'
            &&& pids[0] == '0' ==> pids.len() == 1
            &&& digits_value(pids) == limits.pids_max
        }),
{
    reveal_strlit(" ");
    let quota = decimal(limits.cpu_quota_us as nat);
    let period = decimal(limits.cpu_period_us as nat);
    lemma_decimal_is_plain(limits.memory_max_bytes as nat);
    lemma_decimal_is_plain(limits.cpu_quota_us as nat);
    lemma_decimal_is_plain(limits.cpu_period_us as nat);
    lemma_decimal_is_plain(limits.pids_max as nat);
    assert(limits.writes()[1].1 =~= quota + seq![' '] + period);
}

/// What is written to the control files determines the limits: two limit sets with the same
/// writes are the same.
pub proof fn law_writes_determine_limits(a: CgroupLimits, b: CgroupLimits)
    requires
        a.writes() == b.writes(),
    ensures
        a == b,
{
    assert(a.writes()[0].1 == b.writes()[0].1);
    assert(a.writes()[1].1 == b.writes()[1].1);
    assert(a.writes()[2].1 == b.writes()[2].1);
    lemma_decimal_injective(a.memory_max_bytes as nat, b.memory_max_bytes as nat);
    lemma_pair_injective(
        a.cpu_quota_us as nat,
        a.cpu_period_us as nat,
        b.cpu_quota_us as nat,
        b.cpu_period_us as nat,
    );
    lemma_decimal_injective(a.pids_max as nat, b.pids_max as nat);
}

} // verus!
