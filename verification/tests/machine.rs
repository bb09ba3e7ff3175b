//! The execution engine on concrete programs: arithmetic, flags,
//! memory addressing, branches, jumps, traps and image loading.

use vm::exec::{next_step_reads_key, step, Abort, Control};
use vm::memory::{mem_read, mem_write, InputQueue, MemMapReg};
use vm::op_codes::{
    op_add, op_and, op_br, op_jmp, op_jsr, op_ld, op_ldi, op_ldr, op_lea, op_not, op_st, op_sti,
    op_str, OpCode,
};
use vm::registers::{Condflag, Register};
use vm::trap_codes::{
    trap_getc, trap_halt, trap_in, trap_out, trap_puts, trap_putsp, TrapCode,
};
use vm::utils::{extend_with_sign, load_image_bytes, update_flags};

fn new_mem() -> Vec<u16> {
    vec![0u16; 65536]
}

fn new_reg() -> Vec<u16> {
    let mut reg = vec![0u16; 10];
    reg[8] = 0x3000;
    reg
}

fn no_input() -> InputQueue {
    InputQueue::new(Vec::new())
}

#[test]
fn sign_extend_full_width_is_identity() {
    assert_eq!(extend_with_sign(16, 0x8001), 0x8001);
    assert_eq!(extend_with_sign(16, 0x1234), 0x1234);
    assert_eq!(extend_with_sign(16, 0xFFFF), 0xFFFF);
}

#[test]
fn sign_extend_five_bits() {
    assert_eq!(extend_with_sign(5, 0x1F), 0xFFFF);
    assert_eq!(extend_with_sign(5, 0x10), 0xFFF0);
    assert_eq!(extend_with_sign(5, 0x0F), 0x000F);
}

#[test]
fn sign_extend_nine_bits() {
    assert_eq!(extend_with_sign(9, 0x100), 0xFF00);
    assert_eq!(extend_with_sign(9, 0x0FF), 0x00FF);
    assert_eq!(extend_with_sign(9, 0x1FF), 0xFFFF);
}

#[test]
fn update_flags_zero_negative_positive() {
    let mut reg = new_reg();
    reg[0] = 0x0000;
    update_flags(&mut reg, 0);
    assert_eq!(reg[9], Condflag::ZERO_FL.value());
    reg[0] = 0x8000;
    update_flags(&mut reg, 0);
    assert_eq!(reg[9], Condflag::NEG_FL.value());
    reg[0] = 0x0001;
    update_flags(&mut reg, 0);
    assert_eq!(reg[9], Condflag::POS_FL.value());
}

#[test]
fn add_immediate_negative_one() {
    // ADD R0, R1, #-1: dst 0, src 1, immediate 0x1F.
    let mut reg = new_reg();
    reg[1] = 5;
    op_add(&mut reg, 0x007F);
    assert_eq!(reg[0], 4);
    assert_eq!(reg[9], 1);
}

#[test]
fn add_register_mode() {
    // ADD R0, R1, R2.
    let mut reg = new_reg();
    reg[1] = 2;
    reg[2] = 3;
    op_add(&mut reg, 0x0042);
    assert_eq!(reg[0], 5);
    assert_eq!(reg[9], 1);
}

#[test]
fn add_wraps_and_sets_zero() {
    // ADD R0, R1, #1 on R1 = 0xFFFF wraps to zero.
    let mut reg = new_reg();
    reg[1] = 0xFFFF;
    op_add(&mut reg, 0x0061);
    assert_eq!(reg[0], 0);
    assert_eq!(reg[9], 2);
}

#[test]
fn and_immediate() {
    // AND R0, R1, #6.
    let mut reg = new_reg();
    reg[1] = 0b1010;
    op_and(&mut reg, 0x1066);
    assert_eq!(reg[0], 0b0010);
    assert_eq!(reg[9], 1);
}

#[test]
fn not_complements() {
    // NOT R0, R1.
    let mut reg = new_reg();
    reg[1] = 0x00FF;
    op_not(&mut reg, 0x2040);
    assert_eq!(reg[0], 0xFF00);
    assert_eq!(reg[9], 4);
}

#[test]
fn branch_taken_on_matching_condition() {
    // BRz with offset 5, condition register holds ZERO.
    let mut reg = new_reg();
    reg[9] = Condflag::ZERO_FL.value();
    op_br(&mut reg, 0x6400 | 5);
    assert_eq!(reg[8], 0x3005);
}

#[test]
fn branch_not_taken_on_other_condition() {
    // BRn with offset 5, condition register holds ZERO.
    let mut reg = new_reg();
    reg[9] = Condflag::ZERO_FL.value();
    op_br(&mut reg, 0x6800 | 5);
    assert_eq!(reg[8], 0x3000);
}

#[test]
fn branch_backward_offset() {
    // BRp with offset -2 (0x1FE), condition register holds POSITIVE.
    let mut reg = new_reg();
    reg[9] = Condflag::POS_FL.value();
    op_br(&mut reg, 0x6200 | 0x1FE);
    assert_eq!(reg[8], 0x2FFE);
}

#[test]
fn load_reads_pc_relative() {
    // LD R0, #2 with PC already advanced to 0x3001.
    let mut reg = new_reg();
    reg[8] = 0x3001;
    let mut mem = new_mem();
    mem[0x3003] = 0x1234;
    let mut inp = no_input();
    op_ld(&mut reg, 0x3002, &mut mem, &mut inp);
    assert_eq!(reg[0], 0x1234);
    assert_eq!(reg[9], 1);
}

#[test]
fn load_indirect_follows_pointer() {
    // LDI R0, #2: address 0x3003 holds the pointer 0x4000, and
    // 0x4000 holds the value; R0 takes the value, not the pointer.
    let mut reg = new_reg();
    reg[8] = 0x3001;
    let mut mem = new_mem();
    mem[0x3003] = 0x4000;
    mem[0x4000] = 0xBEEF;
    let mut inp = no_input();
    op_ldi(&mut reg, 0xB002, &mut mem, &mut inp);
    assert_eq!(reg[0], 0xBEEF);
    assert_eq!(reg[9], 4);
}

#[test]
fn load_register_offset() {
    // LDR R0, R1, #3.
    let mut reg = new_reg();
    reg[1] = 0x5000;
    let mut mem = new_mem();
    mem[0x5003] = 0xFFFF;
    let mut inp = no_input();
    op_ldr(&mut reg, 0x7043, &mut mem, &mut inp);
    assert_eq!(reg[0], 0xFFFF);
    assert_eq!(reg[9], 4);
}

#[test]
fn store_pc_relative() {
    // ST R0, #1 with PC already advanced to 0x3001.
    let mut reg = new_reg();
    reg[8] = 0x3001;
    reg[0] = 0xAB;
    let mut mem = new_mem();
    op_st(&reg, 0x4001, &mut mem);
    assert_eq!(mem[0x3002], 0xAB);
}

#[test]
fn store_register_offset() {
    // STR R0, R1, #2.
    let mut reg = new_reg();
    reg[1] = 0x6000;
    reg[0] = 7;
    let mut mem = new_mem();
    op_str(&reg, 0x8042, &mut mem);
    assert_eq!(mem[0x6002], 7);
}

#[test]
fn store_indirect_follows_pointer() {
    // STI R0, #1: address 0x3002 holds the pointer 0x7000.
    let mut reg = new_reg();
    reg[8] = 0x3001;
    reg[0] = 0x55;
    let mut mem = new_mem();
    mem[0x3002] = 0x7000;
    let mut inp = no_input();
    op_sti(&reg, 0xC001, &mut mem, &mut inp);
    assert_eq!(mem[0x7000], 0x55);
}

#[test]
fn jump_takes_base_register() {
    // JMP R3.
    let mut reg = new_reg();
    reg[3] = 0x1234;
    op_jmp(&mut reg, 0x50C0);
    assert_eq!(reg[8], 0x1234);
}

#[test]
fn ret_is_jump_through_r7() {
    // JMP R7.
    let mut reg = new_reg();
    reg[7] = 0x3456;
    op_jmp(&mut reg, 0x51C0);
    assert_eq!(reg[8], 0x3456);
}

#[test]
fn jump_subroutine_pc_relative() {
    // JSR #0x10 executed through a full cycle from 0x3000: R7 takes
    // the address of the following instruction, PC moves by the
    // offset from there.
    let mut reg = new_reg();
    let mut mem = new_mem();
    mem[0x3000] = 0x9810;
    let mut inp = no_input();
    let mut out: Vec<u8> = Vec::new();
    let c = step(&mut reg, &mut mem, &mut inp, &mut out);
    assert_eq!(c, Control::Continue);
    assert_eq!(reg[7], 0x3001);
    assert_eq!(reg[8], 0x3011);
}

#[test]
fn jump_subroutine_register_mode() {
    // JSRR R2.
    let mut reg = new_reg();
    reg[8] = 0x3001;
    reg[2] = 0x4000;
    op_jsr(&mut reg, 0x9080);
    assert_eq!(reg[7], 0x3001);
    assert_eq!(reg[8], 0x4000);
}

#[test]
fn lea_takes_address_itself() {
    // LEA R0, #5 with PC already advanced to 0x3001.
    let mut reg = new_reg();
    reg[8] = 0x3001;
    op_lea(&mut reg, 0xE005);
    assert_eq!(reg[0], 0x3006);
    assert_eq!(reg[9], 1);
}

#[test]
fn image_round_trip() {
    // A two-word file: load address 0x3000, one word 0x1234.
    let mut mem = new_mem();
    let data: Vec<u8> = vec![0x30, 0x00, 0x12, 0x34];
    assert!(load_image_bytes(&data, &mut mem));
    assert_eq!(mem[0x3000], 0x1234);
    for a in 0..65536usize {
        if a != 0x3000 {
            assert_eq!(mem[a], 0);
        }
    }
}

#[test]
fn image_rejected_when_malformed() {
    let mut mem = new_mem();
    assert!(!load_image_bytes(&Vec::new(), &mut mem));
    assert!(!load_image_bytes(&vec![0x30], &mut mem));
    assert!(!load_image_bytes(&vec![0x30, 0x00, 0x12], &mut mem));
    // Two words starting at the last address would run past the end.
    assert!(!load_image_bytes(&vec![0xFF, 0xFF, 0x12, 0x34, 0x56, 0x78], &mut mem));
    for a in 0..65536usize {
        assert_eq!(mem[a], 0);
    }
}

#[test]
fn image_fills_to_last_address() {
    let mut mem = new_mem();
    assert!(load_image_bytes(&vec![0xFF, 0xFF, 0x12, 0x34], &mut mem));
    assert_eq!(mem[0xFFFF], 0x1234);
}

#[test]
fn putsp_packs_two_characters_low_byte_first() {
    // The word 0x4241 packs "BA": 'A' comes out first, then 'B'.
    let mut reg = new_reg();
    reg[0] = 0x5000;
    let mut mem = new_mem();
    mem[0x5000] = 0x4241;
    let mut out: Vec<u8> = Vec::new();
    trap_putsp(&reg, &mem, &mut out);
    assert_eq!(out, vec![0x41, 0x42]);
}

#[test]
fn putsp_skips_zero_high_byte() {
    let mut reg = new_reg();
    reg[0] = 0x5000;
    let mut mem = new_mem();
    mem[0x5000] = 0x0042;
    let mut out: Vec<u8> = Vec::new();
    trap_putsp(&reg, &mem, &mut out);
    assert_eq!(out, vec![0x42]);
}

#[test]
fn puts_writes_low_bytes_until_zero_word() {
    let mut reg = new_reg();
    reg[0] = 0x5000;
    let mut mem = new_mem();
    mem[0x5000] = 'H' as u16;
    mem[0x5001] = 'i' as u16;
    let mut out: Vec<u8> = Vec::new();
    trap_puts(&reg, &mem, &mut out);
    assert_eq!(out, vec![b'H', b'i']);
}

#[test]
fn puts_stops_at_end_of_memory() {
    let mut reg = new_reg();
    reg[0] = 0xFFFF;
    let mut mem = new_mem();
    mem[0xFFFF] = 0x41;
    let mut out: Vec<u8> = Vec::new();
    trap_puts(&reg, &mem, &mut out);
    assert_eq!(out, vec![0x41]);
}

#[test]
fn out_emits_low_byte_and_line_terminator() {
    let mut reg = new_reg();
    reg[0] = 0x4142;
    let mut out: Vec<u8> = Vec::new();
    trap_out(&reg, &mut out);
    assert_eq!(out, vec![0x42, b'\n']);
}

#[test]
fn getc_takes_one_byte_without_flags() {
    let mut reg = new_reg();
    reg[9] = Condflag::POS_FL.value();
    let mut inp = InputQueue::new(vec![65, 66]);
    trap_getc(&mut reg, &mut inp);
    assert_eq!(reg[0], 65);
    assert_eq!(reg[9], Condflag::POS_FL.value());
    assert_eq!(inp.len(), 1);
}

#[test]
fn getc_on_exhausted_queue_yields_zero() {
    let mut reg = new_reg();
    let mut inp = no_input();
    trap_getc(&mut reg, &mut inp);
    assert_eq!(reg[0], 0);
}

#[test]
fn trap_in_prompts_then_reads() {
    let mut reg = new_reg();
    let mut inp = InputQueue::new(vec![97]);
    let mut out: Vec<u8> = Vec::new();
    trap_in(&mut reg, &mut inp, &mut out);
    assert_eq!(out, b"Enter a character: \n".to_vec());
    assert_eq!(reg[0], 97);
}

#[test]
fn status_read_with_key_sets_both_mapped_registers() {
    let mut mem = new_mem();
    let mut inp = InputQueue::new(vec![7]);
    let v = mem_read(&mut mem, &mut inp, MemMapReg::MR_KBSR.address());
    assert_eq!(v, 0x8000);
    assert_eq!(mem[0xFE00], 0x8000);
    assert_eq!(mem[0xFE02], 7);
    assert_eq!(inp.len(), 0);
}

#[test]
fn status_read_with_zero_byte_clears_status() {
    let mut mem = new_mem();
    mem[0xFE00] = 0x8000;
    mem[0xFE02] = 9;
    let mut inp = InputQueue::new(vec![0]);
    let v = mem_read(&mut mem, &mut inp, MemMapReg::MR_KBSR.address());
    assert_eq!(v, 0);
    assert_eq!(mem[0xFE00], 0);
    assert_eq!(mem[0xFE02], 9);
}

#[test]
fn plain_reads_and_writes_do_not_touch_input() {
    let mut mem = new_mem();
    let mut inp = InputQueue::new(vec![3]);
    mem_write(&mut mem, 0x1234, 99);
    let v = mem_read(&mut mem, &mut inp, 0x1234);
    assert_eq!(v, 99);
    // The data-register address alone consumes nothing either.
    let d = mem_read(&mut mem, &mut inp, MemMapReg::MR_KBDR.address());
    assert_eq!(d, 0);
    assert_eq!(inp.len(), 1);
}

#[test]
fn step_halt_emits_shutdown_message() {
    let mut reg = new_reg();
    let mut mem = new_mem();
    mem[0x3000] = 0xF025;
    let mut inp = no_input();
    let mut out: Vec<u8> = Vec::new();
    let c = step(&mut reg, &mut mem, &mut inp, &mut out);
    assert_eq!(c, Control::Halt);
    assert_eq!(out, b"HALT Trapcode received, Halting.\n".to_vec());
    assert_eq!(reg[8], 0x3001);
}

#[test]
fn step_rti_and_reserved_are_fatal() {
    let mut reg = new_reg();
    let mut mem = new_mem();
    mem[0x3000] = 0xA000;
    let mut inp = no_input();
    let mut out: Vec<u8> = Vec::new();
    let c = step(&mut reg, &mut mem, &mut inp, &mut out);
    assert_eq!(c, Control::Fatal(Abort::Rti));
    assert_eq!(Abort::Rti.exit_code(), 10);

    let mut reg = new_reg();
    mem[0x3000] = 0xD000;
    let c = step(&mut reg, &mut mem, &mut inp, &mut out);
    assert_eq!(c, Control::Fatal(Abort::Res));
    assert_eq!(Abort::Res.exit_code(), 10);
}

#[test]
fn step_unknown_trap_is_fatal() {
    let mut reg = new_reg();
    let mut mem = new_mem();
    mem[0x3000] = 0xF0FF;
    let mut inp = no_input();
    let mut out: Vec<u8> = Vec::new();
    let c = step(&mut reg, &mut mem, &mut inp, &mut out);
    assert_eq!(c, Control::Fatal(Abort::BadTrap));
    assert_eq!(Abort::BadTrap.exit_code(), 21);
    assert_eq!(Abort::BadOpcode.exit_code(), 20);
}

#[test]
fn step_advances_pc_before_operands() {
    let mut reg = new_reg();
    let mut mem = new_mem();
    // LD R0, #0 at 0x3000 reads 0x3001: the offset counts from the
    // instruction after the current one.
    mem[0x3000] = 0x3000;
    mem[0x3001] = 0x7777;
    let mut inp = no_input();
    let mut out: Vec<u8> = Vec::new();
    let c = step(&mut reg, &mut mem, &mut inp, &mut out);
    assert_eq!(c, Control::Continue);
    assert_eq!(reg[8], 0x3001);
    assert_eq!(reg[0], 0x7777);
}

#[test]
fn step_getc_consumes_queued_byte() {
    let mut reg = new_reg();
    let mut mem = new_mem();
    mem[0x3000] = 0xF020;
    let mut inp = InputQueue::new(vec![42]);
    let mut out: Vec<u8> = Vec::new();
    let c = step(&mut reg, &mut mem, &mut inp, &mut out);
    assert_eq!(c, Control::Continue);
    assert_eq!(reg[0], 42);
    assert_eq!(inp.len(), 0);
    assert!(out.is_empty());
}

#[test]
fn step_load_of_status_address_consumes_key() {
    // LD R0, #0 fetched at 0xFDFF reads 0xFE00, the keyboard-status
    // address: the queued key is consumed and the status word loaded.
    let mut reg = new_reg();
    reg[8] = 0xFDFF;
    let mut mem = new_mem();
    mem[0xFDFF] = 0x3000;
    let mut inp = InputQueue::new(vec![5]);
    let mut out: Vec<u8> = Vec::new();
    assert!(next_step_reads_key(&reg, &mem));
    let c = step(&mut reg, &mut mem, &mut inp, &mut out);
    assert_eq!(c, Control::Continue);
    assert_eq!(reg[0], 0x8000);
    assert_eq!(mem[0xFE02], 5);
    assert_eq!(inp.len(), 0);
}

#[test]
fn next_step_reads_key_on_input_traps_only() {
    let mut mem = new_mem();
    let reg = new_reg();
    mem[0x3000] = 0xF020;
    assert!(next_step_reads_key(&reg, &mem));
    mem[0x3000] = 0xF023;
    assert!(next_step_reads_key(&reg, &mem));
    mem[0x3000] = 0xF025;
    assert!(!next_step_reads_key(&reg, &mem));
    mem[0x3000] = 0x0042;
    assert!(!next_step_reads_key(&reg, &mem));
    let mut reg = new_reg();
    reg[8] = 0xFE00;
    assert!(next_step_reads_key(&reg, &mem));
}

#[test]
fn input_queue_pops_in_order_and_grows() {
    let mut q = InputQueue::new(vec![1, 2]);
    assert_eq!(q.len(), 2);
    assert_eq!(q.pop(), 1);
    assert_eq!(q.pop(), 2);
    assert_eq!(q.pop(), 0);
    q.push(3);
    assert_eq!(q.len(), 1);
    assert_eq!(q.pop(), 3);
}

#[test]
fn named_codes_match_the_architecture() {
    assert_eq!(MemMapReg::MR_KBSR.address(), 0xFE00);
    assert_eq!(MemMapReg::MR_KBDR.address(), 0xFE02);
    assert_eq!(Register::PC.idx(), 8);
    assert_eq!(Register::CONDVAR.idx(), 9);
    assert_eq!(Register::COUNT.idx(), 10);
    assert_eq!(Register::R7.idx(), 7);
    assert_eq!(Condflag::POS_FL.value(), 1);
    assert_eq!(Condflag::ZERO_FL.value(), 2);
    assert_eq!(Condflag::NEG_FL.value(), 4);
    assert_eq!(OpCode::OP_BR.code(), 6);
    assert_eq!(OpCode::OP_TRAP.code(), 15);
    assert_eq!(TrapCode::GETC.code(), 0x20);
    assert_eq!(TrapCode::HALT.code(), 0x25);
}

#[test]
fn halt_lowers_running_flag_and_writes_message() {
    let mut running = true;
    let mut out: Vec<u8> = Vec::new();
    trap_halt(&mut running, &mut out);
    assert!(!running);
    assert_eq!(out, b"HALT Trapcode received, Halting.\n".to_vec());
}

#[test]
fn tight_program_counts_down_to_halt() {
    // At 0x3000: ADD R0, R0, #3; then BRp #-2 keeps returning to the
    // decrement at 0x3001: ADD R0, R0, #-1; HALT at 0x3003.
    let mut reg = new_reg();
    let mut mem = new_mem();
    mem[0x3000] = 0x0023; // ADD R0, R0, #3
    mem[0x3001] = 0x003F; // ADD R0, R0, #-1
    mem[0x3002] = 0x6200 | 0x1FE; // BRp #-2
    mem[0x3003] = 0xF025; // HALT
    let mut inp = no_input();
    let mut out: Vec<u8> = Vec::new();
    let mut cycles: u32 = 0;
    loop {
        match step(&mut reg, &mut mem, &mut inp, &mut out) {
            Control::Continue => {
                cycles += 1;
                assert!(cycles < 100);
            }
            Control::Halt => break,
            Control::Fatal(_) => panic!("fatal"),
        }
    }
    assert_eq!(reg[0], 0);
    assert_eq!(reg[9], Condflag::ZERO_FL.value());
}
