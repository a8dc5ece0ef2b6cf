use nes_emulator::ppu::PixelFormat;
use nes_emulator::cartridge::Cartridge;
use nes_emulator::cpu::Cpu;
use nes_emulator::cpu::Interrupt;
use nes_emulator::framebuffer::Framebuffer;
use nes_emulator::nes::Nes;
use nes_emulator::nes::TickOutcome;
use nes_emulator::ppu::PpuStatus;
use nes_emulator::ppu::FRAME_BYTES;
use nes_emulator::system::DebugOptions;
use nes_emulator::system::Model;
use nes_emulator::system::System;

fn options() -> DebugOptions {
    DebugOptions { track_watchpoints: false, track_io_stats: false }
}

/// A 16 KiB program mirrored at 0x8000 and 0xC000, with `code` at 0xC000
/// and the RESET vector pointing there.
fn test_cartridge(code: &[u8]) -> Cartridge {
    let mut prg = vec![0xeau8; 0x4000];
    prg[..code.len()].copy_from_slice(code);
    prg[0x3ffc] = 0x00;
    prg[0x3ffd] = 0xc0;
    prg[0x3ffa] = 0x00;
    prg[0x3ffb] = 0xc0;
    prg[0x3ffe] = 0x00;
    prg[0x3fff] = 0xc0;
    Cartridge::nrom(prg, Vec::new()).unwrap()
}

fn nop_loop_machine() -> Nes {
    let mut nes = Nes::new(PixelFormat::Rgba8888, Model::Ntsc, options());
    nes.insert_cartridge(Some(test_cartridge(&[0xea, 0xea, 0x4c, 0x00, 0xc0])));
    nes.poweron();
    nes
}

#[test]
fn poweron_jumps_to_reset_vector_and_nops_take_two_cycles() {
    let mut nes = nop_loop_machine();
    assert_eq!(nes.system_cpu().pc, 0xc000);
    assert_eq!(nes.cpu_clock, 7);
    assert_eq!(nes.system_cpu().sp, 0xfd);
    let mut sys_ppu = nes.system_mut().ppu_clock();
    assert_eq!(sys_ppu, 21);
    for round in 0..3 {
        let mut cpu = *nes.system_cpu();
        let mut system = std::mem::replace(
            nes.system_mut(),
            System::new(Model::Ntsc, PixelFormat::Rgba8888, Cartridge::none(), options()),
        );
        assert_eq!(cpu.step(&mut system), 2, "round {round}");
        assert_eq!(cpu.pc, 0xc001);
        assert_eq!(cpu.step(&mut system), 2);
        assert_eq!(cpu.pc, 0xc002);
        assert_eq!(cpu.step(&mut system), 3);
        assert_eq!(cpu.pc, 0xc000);
        sys_ppu += 3 * 7;
        assert_eq!(system.ppu_clock(), sys_ppu);
        *nes.system_mut() = system;
        *nes.system_cpu() = cpu;
    }
}

#[test]
fn ninety_thousand_dots_raise_exactly_one_nmi() {
    let mut sys = System::new(Model::Ntsc, PixelFormat::Rgba8888, Cartridge::none(), options());
    sys.cpu_write(0x2000, 0x80);
    let mut nmis = 0;
    for _ in 1..29780 {
        sys.step_for_cpu_cycle();
        if sys.ppu.nmi_pending {
            sys.ppu.nmi_pending = false;
            nmis += 1;
        }
    }
    assert_eq!(sys.apu_clock(), 29780);
    assert_eq!(nmis, 1);
    // Vertical blank has ended again on the pre-render line.
    assert_eq!(sys.ppu.line, 261);
    assert!(!sys.nmi_line());
}

#[test]
fn ppu_dot_statuses_over_one_frame() {
    let mut sys = System::new(Model::Ntsc, PixelFormat::Rgba8888, Cartridge::none(), options());
    sys.ppu.ctrl = 0x80;
    let mut fb = vec![0u8; FRAME_BYTES];
    let mut raised = 0;
    let mut finished = 0;
    for _ in 0..341 * 262 {
        match sys.ppu.step(&mut fb) {
            Some(PpuStatus::RaiseNmi) => raised += 1,
            Some(PpuStatus::FinishedFrame) => finished += 1,
            Some(PpuStatus::Idle) => {}
            None => panic!("no breakpoint was set"),
        }
    }
    assert_eq!((raised, finished), (1, 1));
    assert_eq!((sys.ppu.line, sys.ppu.dot), (0, 0));
    // The backdrop is drawn opaque.
    assert_eq!(fb[3], 0xff);
}

#[test]
fn tick_frame_finishes_a_frame() {
    let mut nes = nop_loop_machine();
    let mut fb = nes.allocate_framebuffer();
    assert_eq!(nes.tick_frame(&mut fb), TickOutcome::FinishedFrame);
    assert_eq!(nes.system_mut().ppu.frames, 1);
    let frame_clock = nes.cpu_clock;
    assert!(frame_clock >= 29780 && frame_clock < 29800);
    assert_eq!(nes.tick_frame(&mut fb), TickOutcome::FinishedFrame);
    assert!(nes.cpu_clock - frame_clock >= 29780);
    assert_eq!(nes.system_mut().ppu.frames, 2);
    let lease = fb.rent_data().unwrap();
    assert_eq!(lease.data.len(), FRAME_BYTES);
    assert_eq!(lease.data[3], 0xff);
    fb.release(lease);
}

#[test]
fn tick_frame_skips_when_the_lease_is_held() {
    let mut nes = nop_loop_machine();
    let mut fb = nes.allocate_framebuffer();
    let lease = fb.rent_data().unwrap();
    let clock = nes.cpu_clock;
    assert_eq!(nes.tick_frame(&mut fb), TickOutcome::FramebufferBusy);
    assert_eq!(nes.cpu_clock, clock);
    fb.release(lease);
    assert_eq!(nes.tick_frame(&mut fb), TickOutcome::FinishedFrame);
}

#[test]
fn breakpoint_stops_and_resumes_without_repeating() {
    let mut nes = nop_loop_machine();
    nes.system_ppu().set_breakpoint(Some((100, 5)));
    let mut fb = nes.allocate_framebuffer();
    assert_eq!(nes.tick_frame(&mut fb), TickOutcome::Breakpoint);
    // The stop is noticed at the end of the CPU step in which the dot came up.
    let stopped_at = nes.system_mut().ppu_clock();
    assert!(stopped_at >= 100 * 341 + 5 && stopped_at <= 100 * 341 + 5 + 12);
    assert!(!nes.system_mut().ppu.breakpoint_hit);
    assert_eq!(nes.tick_frame(&mut fb), TickOutcome::FinishedFrame);
    assert!(nes.system_mut().ppu_clock() > stopped_at);
    nes.system_ppu().set_breakpoint(None);
    assert_eq!(nes.tick_frame(&mut fb), TickOutcome::FinishedFrame);
}

#[test]
fn nmi_enters_through_its_vector() {
    let mut nes = Nes::new(PixelFormat::Rgba8888, Model::Ntsc, options());
    // LDA #$80; STA $2000; JMP $C005 — the NMI handler sits at 0xC000 too.
    let mut code = vec![0xa9, 0x80, 0x8d, 0x00, 0x20, 0x4c, 0x05, 0xc0];
    code.resize(8, 0xea);
    nes.insert_cartridge(Some(test_cartridge(&code)));
    nes.poweron();
    let mut fb = nes.allocate_framebuffer();
    assert_eq!(nes.tick_frame(&mut fb), TickOutcome::FinishedFrame);
    // The NMI pushed PC and status on the stack.
    assert_eq!(nes.system_cpu().sp, 0xfa);
    assert!(nes.system_mut().ppu.vblank || nes.system_mut().ppu.line < 241);
}

#[test]
fn interrupt_pushes_pc_and_status() {
    let mut sys = System::new(Model::Ntsc, PixelFormat::Rgba8888, test_cartridge(&[0xea]), options());
    let mut cpu = Cpu::new();
    cpu.interrupt(&mut sys, Interrupt::Reset);
    assert_eq!(sys.apu_clock(), 7);
    cpu.pc = 0x1234;
    cpu.interrupt(&mut sys, Interrupt::Nmi);
    assert_eq!(cpu.pc, 0xc000);
    assert_eq!(cpu.sp, 0xfa);
    assert_eq!(sys.peek(0x01fd), 0x12);
    assert_eq!(sys.peek(0x01fc), 0x34);
    assert_eq!(sys.peek(0x01fb) & 0x30, 0x20);
    assert_eq!(cpu.p & 0x04, 0x04);
}

#[test]
fn irq_is_taken_only_when_enabled() {
    let mut sys = System::new(Model::Ntsc, PixelFormat::Rgba8888, test_cartridge(&[0xea]), options());
    let mut cpu = Cpu::new();
    cpu.interrupt(&mut sys, Interrupt::Reset);
    sys.apu.frame_irq = true;
    assert_eq!(cpu.step(&mut sys), 2);
    assert_eq!(cpu.pc, 0xc001);
    cpu.p &= !0x04;
    assert_eq!(cpu.step(&mut sys), 7);
    assert_eq!(cpu.pc, 0xc000);
}

#[test]
fn oam_dma_copies_a_page_and_takes_513_cycles() {
    // STA $4014 with A = 2, after LDA #$02.
    let mut sys = System::new(Model::Ntsc, PixelFormat::Rgba8888, test_cartridge(&[0xa9, 0x02, 0x8d, 0x14, 0x40]), options());
    let mut cpu = Cpu::new();
    cpu.interrupt(&mut sys, Interrupt::Reset);
    for i in 0..256u16 {
        sys.cpu_write(0x0200 + i, i as u8);
    }
    cpu.step(&mut sys);
    assert_eq!(cpu.a, 2);
    assert_eq!(cpu.step(&mut sys), 4 + 513);
    for i in 0..256usize {
        assert_eq!(sys.ppu.oam[i], i as u8);
    }
}

#[test]
fn lda_absolute_reads_memory() {
    // LDA $0010
    let mut sys = System::new(Model::Ntsc, PixelFormat::Rgba8888, test_cartridge(&[0xad, 0x10, 0x00]), options());
    let mut cpu = Cpu::new();
    cpu.interrupt(&mut sys, Interrupt::Reset);
    sys.cpu_write(0x0010, 0x80);
    assert_eq!(cpu.step(&mut sys), 4);
    assert_eq!(cpu.a, 0x80);
    assert_eq!(cpu.p & 0x82, 0x80);
}

#[test]
fn framebuffer_lease_is_exclusive() {
    let mut fb = Framebuffer::new(4, 2, PixelFormat::Bgra8888);
    let first = fb.rent_data();
    assert!(first.is_some());
    assert!(fb.rent_data().is_none());
    assert!(fb.rent_data().is_none());
    fb.release(first.unwrap());
    let again = fb.rent_data().unwrap();
    assert_eq!(again.data.len(), 32);
}

#[test]
fn nrom_rejects_bad_sizes() {
    assert!(Cartridge::nrom(vec![0; 0x1000], Vec::new()).is_none());
    assert!(Cartridge::nrom(vec![0; 0x4000], vec![0; 0x100]).is_none());
    assert!(Cartridge::nrom(vec![0; 0x8000], vec![0; 0x2000]).is_some());
}

#[test]
fn ppu_data_port_reads_through_the_buffer() {
    let mut nes = Nes::new(PixelFormat::Rgba8888, Model::Ntsc, options());
    let sys = nes.system_mut();
    sys.cpu_write(0x2006, 0x21);
    sys.cpu_write(0x2006, 0x08);
    sys.cpu_write(0x2007, 0x5e);
    sys.cpu_write(0x2006, 0x21);
    sys.cpu_write(0x2006, 0x08);
    sys.cpu_read(0x2007);
    assert_eq!(sys.cpu_read(0x2007), 0x5e);
    assert_eq!(nes.debug_read_ppu(0x2108), 0x5e);
    assert_eq!(nes.debug_read_ppu(0x2908), 0x5e);
}

#[test]
fn reset_reenters_the_program() {
    let mut nes = nop_loop_machine();
    let mut fb = nes.allocate_framebuffer();
    nes.tick_frame(&mut fb);
    nes.reset();
    assert_eq!(nes.system_cpu().pc, 0xc000);
    assert_eq!(nes.system_cpu().p & 0x04, 0x04);
}

#[test]
fn catch_up_at_target_is_a_no_op() {
    let mut sys = System::new(Model::Ntsc, PixelFormat::Rgba8888, Cartridge::none(), options());
    sys.step_for_cpu_cycle();
    assert!(sys.catch_up_ppu_drift(3));
    assert_eq!(sys.ppu_clock(), 3);
    sys.ppu.set_breakpoint(Some((0, 5)));
    assert!(!sys.catch_up_ppu_drift(9));
    assert_eq!(sys.ppu_clock(), 5);
    assert!(sys.catch_up_ppu_drift(9));
    assert_eq!(sys.ppu_clock(), 9);
}

#[test]
fn breakpoint_stops_the_cycle_on_its_dot() {
    let mut sys = System::new(Model::Ntsc, PixelFormat::Rgba8888, Cartridge::none(), options());
    sys.ppu.set_breakpoint(Some((0, 1)));
    sys.step_for_cpu_cycle();
    assert_eq!(sys.ppu_clock(), 1);
    assert!(sys.ppu.breakpoint_hit);
    assert_eq!(sys.apu_clock(), 1);
}

#[test]
fn framebuffers_carry_the_machine_pixel_format() {
    let nes = Nes::new(PixelFormat::Bgra8888, Model::Ntsc, options());
    let fb = nes.allocate_framebuffer();
    assert_eq!(fb.pixel_format, PixelFormat::Bgra8888);
    assert_eq!(nes.system.ppu.pixel_format, PixelFormat::Bgra8888);
}
