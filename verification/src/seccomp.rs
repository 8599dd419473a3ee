//! The system-call filter: a classic BPF program that lets an allowlist through and kills the
//! process on every other call.

use vstd::prelude::*;

verus! {

/// Opcode: load a 32-bit word of the call's description into the accumulator.
pub const LOAD_WORD: u16 = 0x20;

/// Opcode: jump, by `jt` or `jf`, on whether the accumulator equals `k`.
pub const JUMP_EQUAL: u16 = 0x15;

/// Opcode: end the program with the verdict `k`.
pub const RETURN: u16 = 0x06;

/// Where the description of a call holds its number.
pub const NUMBER_OFFSET: u32 = 0;

/// Where the description of a call holds its architecture.
pub const ARCH_OFFSET: u32 = 4;

/// The architecture of a 64-bit x86 call (`AUDIT_ARCH_X86_64`).
pub const ARCH_X86_64: u32 = 0xC000_003E;

/// The verdict that lets a call through (`SECCOMP_RET_ALLOW`).
pub const ALLOW: u32 = 0x7FFF_0000;

/// The verdict that kills the calling process (`SECCOMP_RET_KILL_PROCESS`).
pub const KILL_PROCESS: u32 = 0x8000_0000;

/// One instruction of a filter, laid out as the kernel's `sock_filter`.
#[derive(Debug, Clone, Copy, PartialEq, Eq, Structural)]
pub struct Instruction {
    pub code: u16,
    pub jt: u8,
    pub jf: u8,
    pub k: u32,
}

/// What a filter sees of a system call.
pub struct Syscall {
    pub arch: u32,
    pub number: u32,
}

/// The verdict of `program` on `call` from instruction `pc` on, with `acc` in the accumulator.
/// There is none where an instruction is unknown or the program runs out.
pub open spec fn evaluate(program: Seq<Instruction>, pc: int, acc: u32, call: Syscall) -> Option<
    u32,
>
    decreases
            if pc < program.len() {
                program.len() - pc
            } else {
                0
            },
{
    if pc < 0 || pc >= program.len() {
        None
    } else {
        let instruction = program[pc];
        if instruction.code == LOAD_WORD && instruction.k == NUMBER_OFFSET {
            evaluate(program, pc + 1, call.number, call)
        } else if instruction.code == LOAD_WORD && instruction.k == ARCH_OFFSET {
            evaluate(program, pc + 1, call.arch, call)
        } else if instruction.code == JUMP_EQUAL && acc == instruction.k {
            evaluate(program, pc + 1 + instruction.jt, acc, call)
        } else if instruction.code == JUMP_EQUAL {
            evaluate(program, pc + 1 + instruction.jf, acc, call)
        } else if instruction.code == RETURN {
            Some(instruction.k)
        } else {
            None
        }
    }
}

/// The verdict that `call` is due: it passes where it is a 64-bit x86 call whose number is on
/// the list, and kills its process otherwise.
pub open spec fn verdict(allowlist: Seq<u32>, call: Syscall) -> u32 {
    if call.arch == ARCH_X86_64 && allowlist.contains(call.number) {
        ALLOW
    } else {
        KILL_PROCESS
    }
}

/// The numbers, on x86-64, of the system calls that the entrypoint may make. Job control on a
/// terminal needs `setpgid` and `getpgid`, and the `cd` that is built into the shell needs
/// `chdir`. The others are a choice, made for a shell with `ls`, `cat`, `touch`, `ps` and `grep`
/// from a static BusyBox; whether a given build stays within it is for a trace of that build to
/// show.
#[verifier::opaque]
pub open spec fn allowed_calls() -> Seq<u32> {
    seq![
        0u32,  // read
        1u32,  // write
        2u32,  // open
        3u32,  // close
        4u32,  // stat
        5u32,  // fstat
        6u32,  // lstat
        7u32,  // poll
        8u32,  // lseek
        9u32,  // mmap
        10u32,  // mprotect
        11u32,  // munmap
        12u32,  // brk
        13u32,  // rt_sigaction
        14u32,  // rt_sigprocmask
        15u32,  // rt_sigreturn
        16u32,  // ioctl
        19u32,  // readv
        20u32,  // writev
        21u32,  // access
        22u32,  // pipe
        32u32,  // dup
        33u32,  // dup2
        35u32,  // nanosleep
        39u32,  // getpid
        40u32,  // sendfile
        57u32,  // fork
        58u32,  // vfork
        59u32,  // execve
        60u32,  // exit
        61u32,  // wait4
        62u32,  // kill
        63u32,  // uname
        72u32,  // fcntl
        79u32,  // getcwd
        80u32,  // chdir
        89u32,  // readlink
        95u32,  // umask
        99u32,  // sysinfo
        102u32,  // getuid
        104u32,  // getgid
        105u32,  // setuid
        106u32,  // setgid
        107u32,  // geteuid
        108u32,  // getegid
        109u32,  // setpgid
        110u32,  // getppid
        121u32,  // getpgid
        158u32,  // arch_prctl
        186u32,  // gettid
        217u32,  // getdents64
        218u32,  // set_tid_address
        228u32,  // clock_gettime
        231u32,  // exit_group
        257u32,  // openat
        280u32,  // utimensat
    ]
}

proof fn lemma_calls_increase(i: int)
    requires
        0 <= i < 55,
    ensures
        allowed_calls()[i] < allowed_calls()[i + 1],
{
    reveal(allowed_calls);
}

proof fn lemma_calls_sorted(i: int, j: int)
    requires
        0 <= i < j < 56,
    ensures
        allowed_calls()[i] < allowed_calls()[j],
    decreases j - i,
{
    if i + 1 < j {
        lemma_calls_sorted(i, j - 1);
    }
    lemma_calls_increase(j - 1);
}

/// The list holds fifty-six different calls, `chdir`, `setpgid`, `getpgid` and `execve` among
/// them.
pub proof fn law_allowed_calls()
    ensures
        allowed_calls() == seq![
            0u32, 1, 2, 3, 4, 5, 6, 7, 8, 9, 10, 11, 12, 13, 14, 15, 16, 19, 20, 21,
            22, 32, 33, 35, 39, 40, 57, 58, 59, 60, 61, 62, 63, 72, 79, 80, 89, 95,
            99, 102, 104, 105, 106, 107, 108, 109, 110, 121, 158, 186, 217, 218,
            228, 231, 257, 280,
        ],
        allowed_calls().len() == 56,
        allowed_calls().no_duplicates(),
        allowed_calls().contains(80),
        allowed_calls().contains(109),
        allowed_calls().contains(121),
        allowed_calls().contains(59),
{
    reveal(allowed_calls);
    assert(allowed_calls() =~= seq![
        0u32, 1, 2, 3, 4, 5, 6, 7, 8, 9, 10, 11, 12, 13, 14, 15, 16, 19, 20, 21, 22, 32,
        33, 35, 39, 40, 57, 58, 59, 60, 61, 62, 63, 72, 79, 80, 89, 95, 99, 102, 104,
        105, 106, 107, 108, 109, 110, 121, 158, 186, 217, 218, 228, 231, 257, 280,
    ]);
    assert(allowed_calls()[35] == 80);
    assert(allowed_calls()[45] == 109);
    assert(allowed_calls()[47] == 121);
    assert(allowed_calls()[28] == 59);
    assert forall|i: int, j: int|
        0 <= i < allowed_calls().len() && 0 <= j < allowed_calls().len() && i != j implies
        allowed_calls()[i] != allowed_calls()[j] by {
        if i < j {
            lemma_calls_sorted(i, j);
        } else {
            lemma_calls_sorted(j, i);
        }
    }
}

/// The system calls that the entrypoint may make.
pub fn default_allowlist() -> (list: Vec<u32>)
    ensures
        list@ == allowed_calls(),
        list@ == seq![
            0u32, 1, 2, 3, 4, 5, 6, 7, 8, 9, 10, 11, 12, 13, 14, 15, 16, 19, 20, 21,
            22, 32, 33, 35, 39, 40, 57, 58, 59, 60, 61, 62, 63, 72, 79, 80, 89, 95,
            99, 102, 104, 105, 106, 107, 108, 109, 110, 121, 158, 186, 217, 218,
            228, 231, 257, 280,
        ],
        list@.len() == 56,
        list@.no_duplicates(),
        list@.contains(80),
        list@.contains(109),
        list@.contains(121),
{
    let list: Vec<u32> = vec![
        0, 1, 2, 3, 4, 5, 6, 7, 8, 9, 10, 11, 12, 13, 14, 15, 16, 19, 20, 21, 22, 32,
        33, 35, 39, 40, 57, 58, 59, 60, 61, 62, 63, 72, 79, 80, 89, 95, 99, 102, 104,
        105, 106, 107, 108, 109, 110, 121, 158, 186, 217, 218, 228, 231, 257, 280,
    ];
    proof {
        reveal(allowed_calls);
        assert(list@ =~= allowed_calls());
        law_allowed_calls();
    }
    list
}

pub open spec fn load(offset: u32) -> Instruction {
    Instruction { code: LOAD_WORD, jt: 0, jf: 0, k: offset }
}

pub open spec fn skip_unless(k: u32) -> Instruction {
    Instruction { code: JUMP_EQUAL, jt: 0, jf: 1, k }
}

pub open spec fn skip_if(k: u32) -> Instruction {
    Instruction { code: JUMP_EQUAL, jt: 1, jf: 0, k }
}

pub open spec fn give(verdict: u32) -> Instruction {
    Instruction { code: RETURN, jt: 0, jf: 0, k: verdict }
}

/// The filter for `allowlist`: the architecture is tested first, each listed number in turn
/// after it, and what is left is killed.
pub open spec fn filter_program(allowlist: Seq<u32>) -> Seq<Instruction> {
    seq![load(ARCH_OFFSET), skip_if(ARCH_X86_64), give(KILL_PROCESS), load(NUMBER_OFFSET)]
        + Seq::new(
        2 * allowlist.len(),
        |i: int|
            if i % 2 == 0 {
                skip_unless(allowlist[i / 2])
            } else {
                give(ALLOW)
            },
    ) + seq![give(KILL_PROCESS)]
}

/// Builds the filter for `allowlist`.
pub fn build_filter(allowlist: &Vec<u32>) -> (program: Vec<Instruction>)
    ensures
        program@ == filter_program(allowlist@),
{
    let mut program: Vec<Instruction> = Vec::new();
    program.push(Instruction { code: LOAD_WORD, jt: 0, jf: 0, k: ARCH_OFFSET });
    program.push(Instruction { code: JUMP_EQUAL, jt: 1, jf: 0, k: ARCH_X86_64 });
    program.push(Instruction { code: RETURN, jt: 0, jf: 0, k: KILL_PROCESS });
    program.push(Instruction { code: LOAD_WORD, jt: 0, jf: 0, k: NUMBER_OFFSET });
    let mut i: usize = 0;
    while i < allowlist.len()
        invariant
            i <= allowlist@.len(),
            program@ == filter_program(allowlist@).take(4 + 2 * i),
        decreases allowlist@.len() - i,
    {
        program.push(Instruction { code: JUMP_EQUAL, jt: 0, jf: 1, k: allowlist[i] });
        program.push(Instruction { code: RETURN, jt: 0, jf: 0, k: ALLOW });
        i = i + 1;
    }
    program.push(Instruction { code: RETURN, jt: 0, jf: 0, k: KILL_PROCESS });
    assert(program@ =~= filter_program(allowlist@));
    program
}

proof fn lemma_list_decides(allowlist: Seq<u32>, j: int, call: Syscall)
    requires
        0 <= j <= allowlist.len(),
    ensures
        evaluate(filter_program(allowlist), 4 + 2 * j, call.number, call) == Some(
            if allowlist.skip(j).contains(call.number) {
                ALLOW
            } else {
                KILL_PROCESS
            },
        ),
    decreases allowlist.len() - j,
{
    let program = filter_program(allowlist);
    let rest = allowlist.skip(j);
    if j == allowlist.len() {
        assert(program[4 + 2 * j] == give(KILL_PROCESS));
    } else {
        assert(program[4 + 2 * j] == skip_unless(allowlist[j]));
        assert(program[4 + 2 * j + 1] == give(ALLOW));
        if allowlist[j] == call.number {
            assert(rest[0] == call.number);
            assert(evaluate(program, 4 + 2 * j + 1, call.number, call) == Some(ALLOW));
        } else {
            let later = allowlist.skip(j + 1);
            lemma_list_decides(allowlist, j + 1, call);
            if rest.contains(call.number) {
                let i = choose|i: int| 0 <= i < rest.len() && rest[i] == call.number;
                assert(later[i - 1] == call.number);
            }
            if later.contains(call.number) {
                let i = choose|i: int| 0 <= i < later.len() && later[i] == call.number;
                assert(rest[i + 1] == call.number);
            }
        }
    }
}

/// On every system call the filter ends with the verdict that the call is due, whatever the
/// accumulator holds at its start.
pub proof fn law_filter_gives_verdict(allowlist: Seq<u32>, acc: u32, call: Syscall)
    ensures
        evaluate(filter_program(allowlist), 0, acc, call) == Some(verdict(allowlist, call)),
{
    let program = filter_program(allowlist);
    assert(program[0] == load(ARCH_OFFSET));
    assert(program[1] == skip_if(ARCH_X86_64));
    assert(program[2] == give(KILL_PROCESS));
    assert(program[3] == load(NUMBER_OFFSET));
    lemma_list_decides(allowlist, 0, call);
    assert(allowlist.skip(0) =~= allowlist);
    reveal_with_fuel(evaluate, 5);
}

/// A filter has two instructions for each listed call and five more.
pub proof fn law_filter_length(allowlist: Seq<u32>)
    ensures
        filter_program(allowlist).len() == 2 * allowlist.len() + 5,
{
}

/// The instructions of a filter: load the architecture; kill, unless it is 64-bit x86; load the
/// number; for each listed call allow, if it is this one; and kill.
pub proof fn law_filter_instructions(allowlist: Seq<u32>, j: int)
    requires
        0 <= j < allowlist.len(),
    ensures
        ({
            let program = filter_program(allowlist);
            &&& program.len() == 2 * allowlist.len() + 5
            &&& program[0] == Instruction { code: 0x20, jt: 0, jf: 0, k: 4 }
            &&& program[1] == Instruction { code: 0x15, jt: 1, jf: 0, k: 0xC000_003E }
            &&& program[2] == Instruction { code: 0x06, jt: 0, jf: 0, k: 0x8000_0000 }
            &&& program[3] == Instruction { code: 0x20, jt: 0, jf: 0, k: 0 }
            &&& program[4 + 2 * j] == Instruction { code: 0x15, jt: 0, jf: 1, k: allowlist[j] }
            &&& program[5 + 2 * j] == Instruction { code: 0x06, jt: 0, jf: 0, k: 0x7FFF_0000 }
            &&& program.last() == Instruction { code: 0x06, jt: 0, jf: 0, k: 0x8000_0000 }
        }),
{
}

/// How an instruction is evaluated: 0x20 loads the word at an offset, 0 for the number and 4 for
/// the architecture; 0x15 jumps on equality with the accumulator; 0x06 gives its verdict.
pub proof fn law_evaluate(program: Seq<Instruction>, pc: int, acc: u32, call: Syscall)
    requires
        0 <= pc < program.len(),
    ensures
        program[pc].code == 0x20 && program[pc].k == 0 ==> evaluate(program, pc, acc, call)
            == evaluate(program, pc + 1, call.number, call),
        program[pc].code == 0x20 && program[pc].k == 4 ==> evaluate(program, pc, acc, call)
            == evaluate(program, pc + 1, call.arch, call),
        program[pc].code == 0x15 ==> evaluate(program, pc, acc, call) == evaluate(
            program,
            pc + 1 + (if acc == program[pc].k {
                program[pc].jt
            } else {
                program[pc].jf
            }),
            acc,
            call,
        ),
        program[pc].code == 0x06 ==> evaluate(program, pc, acc, call) == Some(program[pc].k),
{
}

/// The filter lets a call through exactly where it is a 64-bit x86 call with a listed number,
/// and kills the process on every other.
pub proof fn law_filter_allows_listed_only(allowlist: Seq<u32>, acc: u32, call: Syscall)
    ensures
        evaluate(filter_program(allowlist), 0, acc, call) == (if call.arch == 0xC000_003E && (
        exists|j: int| 0 <= j < allowlist.len() && #[trigger] allowlist[j] == call.number) {
            Some(0x7FFF_0000u32)
        } else {
            Some(0x8000_0000u32)
        }),
{
    law_filter_gives_verdict(allowlist, acc, call);
}

/// The filter of the entrypoint lets each of the calls that a shell cannot do without through,
/// and all the others that it lists: a 64-bit x86 call passes exactly where its number is one
/// of these.
pub proof fn law_default_filter(acc: u32, call: Syscall)
    ensures
        evaluate(filter_program(allowed_calls()), 0, acc, call) == (if call.arch == 0xC000_003E
            && seq![
            0u32, 1, 2, 3, 4, 5, 6, 7, 8, 9, 10, 11, 12, 13, 14, 15, 16, 19, 20, 21,
            22, 32, 33, 35, 39, 40, 57, 58, 59, 60, 61, 62, 63, 72, 79, 80, 89, 95,
            99, 102, 104, 105, 106, 107, 108, 109, 110, 121, 158, 186, 217, 218,
            228, 231, 257, 280,
        ].contains(call.number) {
            Some(0x7FFF_0000u32)
        } else {
            Some(0x8000_0000u32)
        }),
{
    law_allowed_calls();
    law_filter_gives_verdict(allowed_calls(), acc, call);
}

} // verus!
