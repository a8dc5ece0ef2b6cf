use nes_emulator::ppu::PixelFormat;
use nes_emulator::apu::DmcDmaRequest;
use nes_emulator::bus::decode_read;
use nes_emulator::bus::decode_write;
use nes_emulator::bus::ReadTarget;
use nes_emulator::bus::WriteTarget;
use nes_emulator::cartridge::Cartridge;
use nes_emulator::port::PadButton;
use nes_emulator::system::DebugOptions;
use nes_emulator::system::Model;
use nes_emulator::system::System;
use nes_emulator::system::WatchOps;

fn options() -> DebugOptions {
    DebugOptions { track_watchpoints: true, track_io_stats: true }
}

fn blank_system() -> System {
    System::new(Model::Ntsc, PixelFormat::Rgba8888, Cartridge::none(), options())
}

fn rom_with(bytes: &[(usize, u8)]) -> Cartridge {
    let mut prg = vec![0u8; 0x4000];
    for &(i, b) in bytes {
        prg[i] = b;
    }
    Cartridge::nrom(prg, Vec::new()).unwrap()
}

#[test]
fn wram_is_mirrored_four_times() {
    let mut sys = blank_system();
    sys.cpu_write(0x0123, 0x5a);
    for k in 0..4u16 {
        assert_eq!(sys.peek(0x0123 + 0x0800 * k), 0x5a);
    }
    for k in 0..4u16 {
        assert_eq!(sys.cpu_read(0x0123 + 0x0800 * k), 0x5a);
    }
    sys.cpu_write(0x1fff, 0x11);
    assert_eq!(sys.peek(0x07ff), 0x11);
}

#[test]
fn ppu_registers_are_mirrored_every_eight_bytes() {
    assert_eq!(decode_read(0x3ffb), ReadTarget::PpuRegister(3));
    assert_eq!(decode_write(0x200c), WriteTarget::PpuRegister(4));
    let mut sys = blank_system();
    // OAMADDR through a mirror, then OAMDATA through another.
    sys.cpu_write(0x3ffb, 0x10);
    sys.cpu_write(0x200c, 0x77);
    assert_eq!(sys.ppu.oam[0x10], 0x77);
    assert_eq!(sys.ppu.oam_addr, 0x11);
}

#[test]
fn decoding_covers_the_io_registers() {
    assert_eq!(decode_read(0x4014), ReadTarget::OamDma);
    assert_eq!(decode_read(0x4016), ReadTarget::Port1);
    assert_eq!(decode_read(0x4017), ReadTarget::Port2);
    assert_eq!(decode_read(0x4015), ReadTarget::Apu);
    assert_eq!(decode_read(0x4020), ReadTarget::Cartridge);
    assert_eq!(decode_read(0x1234), ReadTarget::Wram(0x0234));
    assert_eq!(decode_write(0x4014), WriteTarget::OamDma);
    assert_eq!(decode_write(0x4016), WriteTarget::PortsAndApu);
    assert_eq!(decode_write(0x4017), WriteTarget::Apu);
    assert_eq!(decode_write(0xffff), WriteTarget::Cartridge);
}

#[test]
fn undriven_bits_come_from_the_last_write() {
    let mut sys = blank_system();
    sys.cpu_write(0x0000, 0xa5);
    // 0x4014 drives nothing: the whole byte is the latch.
    assert_eq!(sys.peek(0x4014), 0xa5);
    // Ports drive bit 0 only of the low five; bits 5..8 are open bus.
    assert_eq!(sys.peek(0x4017), 0xa0);
    // Status drives all but bit 5.
    assert_eq!(sys.peek(0x4015), 0x20);
    // An empty cartridge slot drives nothing.
    assert_eq!(sys.peek(0x8000), 0xa5);
    // Peeking leaves the latch alone; reading updates it.
    assert_eq!(sys.open_bus_value, 0xa5);
    assert_eq!(sys.cpu_read(0x4017), 0xa0);
    assert_eq!(sys.open_bus_value, 0xa0);
    sys.cpu_write(0x0001, 0x3c);
    assert_eq!(sys.cpu_read(0x4014), 0x3c);
}

#[test]
fn peek_has_no_side_effects() {
    let mut sys = blank_system();
    let ppu = sys.ppu_clock();
    let apu = sys.apu_clock();
    sys.peek(0x2002);
    sys.peek(0x4016);
    assert_eq!(sys.ppu_clock(), ppu);
    assert_eq!(sys.apu_clock(), apu);
}

#[test]
fn three_dots_per_cpu_cycle() {
    let mut sys = blank_system();
    for n in 1..=1000u64 {
        sys.step_for_cpu_cycle();
        assert_eq!(sys.ppu_clock(), 3 * n);
        assert_eq!(sys.apu_clock(), n);
    }
    sys.cpu_read(0x0000);
    sys.cpu_write(0x0000, 1);
    assert_eq!(sys.ppu_clock(), 3 * 1002);
}

#[test]
fn one_dma_request_at_a_time() {
    let mut sys = blank_system();
    sys.cpu_write(0x4012, 0x00);
    sys.cpu_write(0x4013, 0x00);
    sys.cpu_write(0x4015, 0x10);
    // Enabling the DMC with an empty buffer asks for a byte on the next step.
    assert_eq!(sys.dmc_dma_request, Some(DmcDmaRequest { address: 0xc000 }));
    assert!(sys.apu.dma_awaiting);
    assert_eq!(sys.serve_dmc_dma(), 2);
    assert_eq!(sys.dmc_dma_request, None);
    assert!(!sys.apu.dma_awaiting);
    assert!(sys.apu.dmc_buffer_full);
    assert_eq!(sys.apu.dmc_bytes_remaining, 0);
    assert_eq!(sys.apu.dmc_address, 0xc001);
    // Nothing outstanding: serving costs nothing.
    assert_eq!(sys.serve_dmc_dma(), 0);
}

#[test]
fn controller_reports_buttons_in_order_then_ones() {
    let mut sys = blank_system();
    sys.port1.push_button(PadButton::A);
    sys.port1.push_button(PadButton::Start);
    sys.port1.push_button(PadButton::Right);
    sys.port1.push_button(PadButton::B);
    sys.port1.release_button(PadButton::B);
    sys.cpu_write(0x4016, 0xff);
    sys.cpu_write(0x4016, 0x00);
    let bits: Vec<u8> = (0..8).map(|_| sys.cpu_read(0x4016) & 1).collect();
    assert_eq!(bits, vec![1, 0, 0, 1, 0, 0, 0, 1]);
    for _ in 0..4 {
        assert_eq!(sys.cpu_read(0x4016) & 1, 1);
    }
}

#[test]
fn strobe_high_keeps_reporting_button_a() {
    let mut sys = blank_system();
    sys.port2.push_button(PadButton::A);
    sys.cpu_write(0x4016, 0x01);
    for _ in 0..3 {
        assert_eq!(sys.cpu_read(0x4017) & 1, 1);
    }
}

#[test]
fn watch_points_replace_and_hit() {
    let mut sys = blank_system();
    sys.add_watch(0x0200, WatchOps::write());
    sys.add_watch(0x0300, WatchOps::read());
    sys.add_watch(0x0200, WatchOps::read());
    assert_eq!(sys.debug.watch_points.len(), 2);
    sys.cpu_write(0x0200, 1);
    assert!(!sys.debug.watch_hit);
    sys.dummy_cpu_read(0x0200);
    assert!(!sys.debug.watch_hit);
    sys.cpu_read(0x0200);
    assert!(sys.debug.watch_hit);
    sys.clear_watch_hit();
    assert!(!sys.debug.watch_hit);
    sys.add_watch(0x0400, WatchOps::dummy().union(WatchOps::write()));
    sys.dummy_cpu_write(0x0400, 2);
    assert!(sys.debug.watch_hit);
}

#[test]
fn io_stats_count_each_kind() {
    let mut sys = blank_system();
    sys.cpu_read(0x0010);
    sys.cpu_read(0x0010);
    sys.cpu_write(0x0010, 3);
    sys.cpu_fetch(0x0010);
    let rec = sys.debug.io_stats[0x0010];
    assert_eq!((rec.reads, rec.writes, rec.execute), (2, 1, 1));
}

#[test]
fn cartridge_space_reads_program_rom() {
    let cart = rom_with(&[(0x0000, 0x42), (0x3fff, 0x99)]);
    let mut sys = System::new(Model::Ntsc, PixelFormat::Rgba8888, cart, options());
    assert_eq!(sys.peek(0x8000), 0x42);
    assert_eq!(sys.peek(0xc000), 0x42);
    assert_eq!(sys.peek(0xffff), 0x99);
    sys.cpu_write(0x6000, 0x12);
    assert_eq!(sys.cpu_read(0x6000), 0x12);
    // 0x4020..0x6000 is undriven.
    assert_eq!(sys.cpu_read(0x5000), 0x12);
}

#[test]
fn power_cycle_clears_ram_and_keeps_watches() {
    let mut sys = blank_system();
    sys.cpu_write(0x0005, 9);
    sys.add_watch(0x0005, WatchOps::read());
    sys.cpu_read(0x0005);
    sys.power_cycle();
    assert_eq!(sys.peek(0x0005), 0);
    assert_eq!(sys.debug.watch_points.len(), 1);
    assert!(!sys.debug.watch_hit);
    assert_eq!(sys.open_bus_value, 0);
}

#[test]
fn model_clock_rates() {
    assert_eq!(Model::Ntsc.cpu_clock_hz(), 1789773);
    assert_eq!(Model::Pal.cpu_clock_hz(), 1662607);
}

#[test]
fn irq_line_follows_the_frame_sequencer() {
    let mut sys = blank_system();
    for _ in 0..29829 {
        sys.step_for_cpu_cycle();
    }
    assert!(!sys.irq_line());
    sys.step_for_cpu_cycle();
    assert!(sys.irq_line());
    // Reading the status register acknowledges it.
    assert_eq!(sys.cpu_read(0x4015) & 0x40, 0x40);
    assert!(!sys.irq_line());
}

#[test]
fn model_defaults_to_ntsc() {
    assert_eq!(Model::default(), Model::Ntsc);
}

#[test]
fn power_cycle_resets_io_stats() {
    let mut sys = blank_system();
    sys.cpu_read(0x0020);
    sys.cpu_write(0x0020, 1);
    assert_eq!(sys.debug.io_stats[0x0020].reads, 1);
    sys.power_cycle();
    let rec = sys.debug.io_stats[0x0020];
    assert_eq!((rec.reads, rec.writes, rec.execute), (0, 0, 0));
    assert_eq!(sys.debug.io_stats.len(), 0x10000);
}

#[test]
fn dmc_raises_its_interrupt_when_a_sample_ends() {
    let mut sys = blank_system();
    sys.cpu_write(0x4010, 0x80);
    sys.cpu_write(0x4013, 0x00);
    sys.cpu_write(0x4015, 0x10);
    assert!(!sys.irq_line());
    sys.serve_dmc_dma();
    assert!(sys.irq_line());
    assert_eq!(sys.peek(0x4015) & 0x80, 0x80);
    // Any write to the status register acknowledges it.
    sys.cpu_write(0x4015, 0x00);
    assert!(!sys.irq_line());
}

#[test]
fn reset_leaves_ram_ports_and_latch() {
    let mut sys = blank_system();
    sys.cpu_write(0x0042, 0x99);
    sys.port1.push_button(PadButton::B);
    sys.reset();
    assert_eq!(sys.peek(0x0042), 0x99);
    assert_eq!(sys.open_bus_value, 0x99);
    assert_eq!(sys.port1.buttons, 0x02);
}
