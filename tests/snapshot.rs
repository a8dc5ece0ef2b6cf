use nes_emulator::ppu::PixelFormat;
use nes_emulator::cartridge::Cartridge;
use nes_emulator::interface::EmulateControl;
use nes_emulator::interface::SystemBus;
use nes_emulator::interface::VideoBus;
use nes_emulator::nes::Nes;
use nes_emulator::nes::TickOutcome;
use nes_emulator::system::DebugOptions;
use nes_emulator::system::Model;
use nes_emulator::system::WatchOps;

fn machine() -> Nes {
    let mut prg = vec![0xeau8; 0x4000];
    // INX; STA $0300 (A is 0) ... ; JMP $C000
    let code = [0xe8, 0x8d, 0x00, 0x03, 0x4c, 0x00, 0xc0];
    prg[..code.len()].copy_from_slice(&code);
    prg[0x3ffc] = 0x00;
    prg[0x3ffd] = 0xc0;
    let mut nes = Nes::new(PixelFormat::Rgba8888, Model::Ntsc, DebugOptions { track_watchpoints: true, track_io_stats: false });
    nes.insert_cartridge(Some(Cartridge::nrom(prg, Vec::new()).unwrap()));
    EmulateControl::poweron(&mut nes);
    nes
}

#[test]
fn restoring_a_snapshot_replays_identically() {
    let mut nes = machine();
    let mut fb = nes.allocate_framebuffer();
    assert_eq!(nes.tick_frame(&mut fb), TickOutcome::FinishedFrame);
    let snap = nes.snapshot();
    assert_eq!(snap.cpu_clock, nes.cpu_clock);
    assert_eq!(snap.system.debug.watch_points.len(), 0);
    assert_eq!(nes.tick_frame(&mut fb), TickOutcome::FinishedFrame);
    let after_first = (nes.cpu_clock, nes.system_cpu().x, nes.system_mut().ppu_clock());
    nes.restore(snap);
    assert!(nes.cpu_clock < after_first.0);
    assert_eq!(nes.tick_frame(&mut fb), TickOutcome::FinishedFrame);
    let after_second = (nes.cpu_clock, nes.system_cpu().x, nes.system_mut().ppu_clock());
    assert_eq!(after_first, after_second);
}

#[test]
fn restore_keeps_the_debugger_state() {
    let mut nes = machine();
    let snap = nes.snapshot();
    nes.system_mut().add_watch(0x0300, WatchOps::write());
    nes.restore(snap);
    assert_eq!(nes.system_mut().debug.watch_points.len(), 1);
    let mut fb = nes.allocate_framebuffer();
    nes.tick_frame(&mut fb);
    assert!(nes.system_mut().debug.watch_hit);
}

#[test]
fn system_bus_trait_reads_and_writes_with_clocking() {
    let mut nes = machine();
    let clock = nes.cpu_clock;
    nes.write_u8(0x0010, 7);
    assert_eq!(nes.read_u8(0x0810), 7);
    assert_eq!(nes.cpu_clock, clock + 2);
    assert_eq!(nes.system_mut().apu_clock(), nes.cpu_clock);
}

#[test]
fn video_bus_trait_reaches_nametables_and_palette() {
    let mut nes = machine();
    nes.write_video_u8(0x2005, 9);
    assert_eq!(nes.read_video_u8(0x2805), 9);
    nes.write_video_u8(0x3f10, 0x21);
    assert_eq!(nes.read_video_u8(0x3f00), 0x21);
    nes.write_video_u8(0x0100, 0x44);
    assert_eq!(nes.read_video_u8(0x0100), 0x44);
}
