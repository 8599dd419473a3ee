use ferro_vault::seccomp::{
    build_filter, default_allowlist, Instruction, ALLOW, ARCH_OFFSET, ARCH_X86_64, JUMP_EQUAL, KILL_PROCESS,
    LOAD_WORD, NUMBER_OFFSET, RETURN,
};

const ARCH_I386: u32 = 0x4000_0003;

fn evaluate(program: &[Instruction], arch: u32, number: u32) -> Option<u32> {
    let mut acc = 0xdead_beefu32;
    let mut pc = 0usize;
    while let Some(i) = program.get(pc) {
        pc += 1;
        match i.code {
            LOAD_WORD if i.k == NUMBER_OFFSET => acc = number,
            LOAD_WORD if i.k == ARCH_OFFSET => acc = arch,
            JUMP_EQUAL if acc == i.k => pc += i.jt as usize,
            JUMP_EQUAL => pc += i.jf as usize,
            RETURN => return Some(i.k),
            _ => return None,
        }
    }
    None
}

#[test]
fn listed_calls_pass_and_all_others_kill() {
    let program = build_filter(&vec![0, 1, 59, 80]);
    for number in 0..400 {
        let due = if [0, 1, 59, 80].contains(&number) { ALLOW } else { KILL_PROCESS };
        assert_eq!(evaluate(&program, ARCH_X86_64, number), Some(due));
    }
    assert_eq!(evaluate(&program, ARCH_X86_64, 0x4000_0000), Some(KILL_PROCESS));
}

#[test]
fn calls_of_another_architecture_kill_even_when_listed() {
    let program = build_filter(&vec![0, 1, 59]);
    assert_eq!(evaluate(&program, ARCH_I386, 1), Some(KILL_PROCESS));
    assert_eq!(evaluate(&program, 0, 1), Some(KILL_PROCESS));
}

#[test]
fn an_empty_allowlist_kills_everything() {
    let program = build_filter(&vec![]);
    assert_eq!(program.len(), 5);
    assert_eq!(evaluate(&program, ARCH_X86_64, 0), Some(KILL_PROCESS));
}

#[test]
fn a_filter_for_fifty_six_calls_is_complete() {
    let allowlist: Vec<u32> = (0..56).collect();
    let program = build_filter(&allowlist);
    assert_eq!(program.len(), 117);
    assert_eq!(program[0], Instruction { code: 0x20, jt: 0, jf: 0, k: 4 });
    assert_eq!(program[1], Instruction { code: 0x15, jt: 1, jf: 0, k: 0xC000_003E });
    assert_eq!(program[116], Instruction { code: 0x06, jt: 0, jf: 0, k: 0x8000_0000 });
    assert_eq!(evaluate(&program, ARCH_X86_64, 55), Some(ALLOW));
    assert_eq!(evaluate(&program, ARCH_X86_64, 56), Some(KILL_PROCESS));
}

#[test]
fn fifty_six_calls_are_allowed_by_default() {
    let list = default_allowlist();
    assert_eq!(list.len(), 56);
    let mut distinct = list.clone();
    distinct.sort();
    distinct.dedup();
    assert_eq!(distinct.len(), 56);
    let program = build_filter(&list);
    let (chdir, setpgid, getpgid, execve) = (80, 109, 121, 59);
    for number in [chdir, setpgid, getpgid, execve] {
        assert_eq!(evaluate(&program, ARCH_X86_64, number), Some(ALLOW));
    }
    let (ptrace, mount, reboot) = (101, 165, 169);
    for number in [ptrace, mount, reboot] {
        assert_eq!(evaluate(&program, ARCH_X86_64, number), Some(KILL_PROCESS));
    }
}
