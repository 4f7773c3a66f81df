use gba_core::arm7tdmi;
use gba_core::Gba;

/// Build a minimal ARM ROM that sets up Mode 3 and writes a pixel.
/// This simulates what a real GBA program does on startup.
fn make_mode3_test_rom() -> Vec<u8> {
    let mut rom = vec![0u8; 0x100];

    // ARM instructions at 0x08000000:
    // Set up Mode 3 display: MOV R0, #0x0403 (DISPCNT = BG2 enable + Mode 3)
    // Note: we need to write 0x0403 to 0x04000000
    // Step 1: MOV R0, #0x04000000 (I/O base)
    // Step 2: MOV R1, #0x0403 (Mode 3 + BG2 enable)
    // Step 3: STR R1, [R0] (write DISPCNT)
    // Step 4: MOV R0, #0x06000000 (VRAM base)
    // Step 5: MOV R1, #0x001F (red in 15-bit: 0x001F = max red)
    // Step 6: STRH R1, [R0] (write pixel at 0,0)
    // Step 7: B step7 (infinite loop)

    let instructions: &[u32] = &[
        // MOV R0, #0x04000000 (0x04 ROR 8, rotate_field=4)
        0xE3A0_0404,
        // MOV R1, #0x400 (0x04 ROR 24, rotate_field=0xC)
        0xE3A0_1C04,
        // ADD R1, R1, #3 -> R1 = 0x403
        0xE281_1003,
        // STRH R1, [R0, #0] — write DISPCNT (16-bit)
        0xE1C0_10B0,
        // MOV R0, #0x06000000 (0x06 ROR 8, rotate_field=4)
        0xE3A0_0406,
        // MOV R1, #0x1F (red in 15-bit)
        0xE3A0_101F,
        // STRH R1, [R0, #0] — pixel (0,0)
        0xE1C0_10B0,
        // MOV R1, #0x7C00 (blue: 0x1F ROR 22, rotate_field=0xB)
        0xE3A0_1B1F,
        // STRH R1, [R0, #2] — pixel (1,0)
        // Halfword transfer: offset = hi_nibble[11:8] | lo_nibble[3:0] = 0|2 = 2
        0xE1C0_10B2,
        // B . (infinite loop)
        0xEAFF_FFFE,
    ];

    for (i, &inst) in instructions.iter().enumerate() {
        let offset = i * 4;
        rom[offset..offset + 4].copy_from_slice(&inst.to_le_bytes());
    }

    rom
}

#[test]
fn test_mode3_pixel_write() {
    let rom = make_mode3_test_rom();
    let mut gba = Gba::new(None, rom);

    // Skip BIOS — start at ROM entry
    gba.cpu = arm7tdmi::Cpu::new_skip_bios();

    // Run enough instructions to execute the setup code
    gba.step_n(20);

    // Verify DISPCNT was written
    assert_eq!(gba.bus.io.dispcnt, 0x0403, "DISPCNT should be Mode 3 + BG2 enable");

    // Verify VRAM has the pixel data
    let pixel0 = u16::from_le_bytes([gba.bus.vram[0], gba.bus.vram[1]]);
    assert_eq!(pixel0, 0x001F, "Pixel (0,0) should be red (0x001F)");

    let pixel1 = u16::from_le_bytes([gba.bus.vram[2], gba.bus.vram[3]]);
    assert_eq!(pixel1, 0x7C00, "Pixel (1,0) should be blue (0x7C00)");
}

#[test]
fn test_mode3_renders_to_framebuffer() {
    let rom = make_mode3_test_rom();
    let mut gba = Gba::new(None, rom);
    gba.cpu = arm7tdmi::Cpu::new_skip_bios();

    // Run one full frame
    let fb = gba.run_frame();

    // Pixel (0,0) should be red
    assert_eq!(fb[0], 0x001F, "Framebuffer pixel (0,0) should be red");
    // Pixel (1,0) should be blue
    assert_eq!(fb[1], 0x7C00, "Framebuffer pixel (1,0) should be blue");
}

#[test]
fn test_vblank_interrupt() {
    let rom = vec![0u8; 256]; // Empty ROM — CPU will loop on undefined
    let mut gba = Gba::new(None, rom);
    gba.cpu = arm7tdmi::Cpu::new_skip_bios();

    // Enable VBlank IRQ in DISPSTAT
    gba.bus.io.dispstat = 0x0008; // VBlank IRQ enable

    // Enable VBlank in IE
    gba.bus.interrupt.write_ie(0x0001); // VBlank

    // Run a frame
    gba.run_frame();

    // After a frame, VCOUNT should have cycled through 0-227
    // and VBlank IRQ should have been requested
    assert!(gba.bus.interrupt.read_if() & 1 != 0, "VBlank IRQ should be pending");
}

/// A branch lands on its target: the pipeline advances after an instruction
/// executed, not before.
///   B +0x200          ; 0x08000000
///   MOV R0, #0x12     ; 0x08000208
#[test]
fn test_branch_then_mov_pipeline() {
    // Build a ROM with:
    //   0x08000000: B +0x200 (target = 0x08000208)
    //   0x08000208: MOV R0, #0x12
    //   0x0800020C: B . (infinite loop)
    let mut rom = vec![0u8; 0x300];

    // B +0x200: offset field = (target - (PC+8)) / 4 = (0x208 - 0x8) / 4 = 0x80
    // Opcode: 0xEA000080
    let b_instr: u32 = 0xEA00_0080;
    rom[0..4].copy_from_slice(&b_instr.to_le_bytes());

    // MOV R0, #0x12 at 0x208
    let mov_instr: u32 = 0xE3A0_0012;
    rom[0x208..0x20C].copy_from_slice(&mov_instr.to_le_bytes());

    // B . at 0x20C (branch to self): offset = -2 → field = 0xFFFFFE
    let loop_instr: u32 = 0xEAFF_FFFE;
    rom[0x20C..0x210].copy_from_slice(&loop_instr.to_le_bytes());

    let mut gba = Gba::new(None, rom);
    gba.cpu = arm7tdmi::Cpu::new_skip_bios();

    // Step enough to execute: B (step 0) + MOV (step 1)
    gba.step_n(3);

    // After the MOV executed, R0 should be 0x12 — NOT 0x1F or 0x16 (0x20C word) or other.
    assert_eq!(gba.cpu.regs[0], 0x12,
        "R0 should be 0x12 (MOV R0, #0x12 @ 0x08000208); got 0x{:X}. \
         The pipeline is out of order.", gba.cpu.regs[0]);

    // PC should be inside ROM (around 0x0800020C — the B . loop)
    assert!(gba.cpu.regs[15] >= 0x0800_0000 && gba.cpu.regs[15] < 0x0900_0000,
        "PC should stay in ROM; got 0x{:08X}", gba.cpu.regs[15]);
}

/// MSR writes the status register; it is not taken for MRS, whose opcode
/// differs in one bit.
#[test]
fn test_msr_not_decoded_as_mrs() {
    // MOV R0, #0x12       ; load FIQ mode constant
    // MSR CPSR_fc, R0     ; switch to FIQ
    // B .                  ; loop
    let mut rom = vec![0u8; 0x100];
    let mov: u32 = 0xE3A0_0012;
    let msr: u32 = 0xE129_F000;
    let loop_: u32 = 0xEAFF_FFFE;
    rom[0..4].copy_from_slice(&mov.to_le_bytes());
    rom[4..8].copy_from_slice(&msr.to_le_bytes());
    rom[8..12].copy_from_slice(&loop_.to_le_bytes());

    let mut gba = Gba::new(None, rom);
    gba.cpu = arm7tdmi::Cpu::new_skip_bios();
    gba.step_n(2);

    // After MSR, mode should be FIQ (0x12)
    assert_eq!(gba.cpu.cpsr.mode().bits(), 0x12,
        "MSR should have switched to FIQ mode (0x12); got mode=0x{:X}",
        gba.cpu.cpsr.mode().bits());

    // R0 should still be 0x12 (MSR doesn't modify R0)
    assert_eq!(gba.cpu.regs[0], 0x12,
        "R0 should still be 0x12; got 0x{:X}", gba.cpu.regs[0]);

    // PC should NOT be 0x1F
    assert_ne!(gba.cpu.regs[15], 0x1F,
        "PC should not equal CPSR value (indicates MSR decoded as MRS with Rd=PC)");
}

/// Pipeline invariant: during ARM execute, regs[15] must equal
/// the executing instruction's address + 8.
#[test]
fn test_arm_pc_read_during_execute() {
    // MOV R0, PC at 0x08000000
    // Expected: R0 = 0x08000008 (address of MOV + 8)
    let mut rom = vec![0u8; 0x100];
    let mov_pc: u32 = 0xE1A0_000F; // MOV R0, R15
    rom[0..4].copy_from_slice(&mov_pc.to_le_bytes());
    // Follow with B . at 0x04 (offset = -2 field)
    let loop_instr: u32 = 0xEAFF_FFFE;
    rom[4..8].copy_from_slice(&loop_instr.to_le_bytes());

    let mut gba = Gba::new(None, rom);
    gba.cpu = arm7tdmi::Cpu::new_skip_bios();
    gba.step_n(1);

    assert_eq!(gba.cpu.regs[0], 0x0800_0008,
        "R0 should read PC as 0x08000008 (instruction_addr + 8); got 0x{:08X}",
        gba.cpu.regs[0]);
}
