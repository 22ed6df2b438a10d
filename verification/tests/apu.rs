use fc_core::apu::{Apu, Dmc, Noise};
use fc_core::Region;

#[test]
fn pal_uses_2a07_dmc_and_noise_periods() {
    let mut dmc = Dmc::new(Region::Pal);
    assert_eq!(dmc.rate, 398);
    dmc.write0(0x0F, Region::Pal);
    assert_eq!(dmc.rate, 50);

    let mut noise = Noise::default();
    noise.write2(0x0F, Region::Pal);
    assert_eq!(noise.timer_period, 3778);
    noise.write2(0x0F, Region::Ntsc);
    assert_eq!(noise.timer_period, 4068);
}

fn ticks(apu: &mut Apu, n: u32) {
    for _ in 0..n {
        apu.tick();
        if let Some(req) = apu.dmc_dma() {
            apu.dmc_supply(req, 0);
        }
    }
}

#[test]
fn pulse_tone_is_active_and_sounds() {
    let mut apu = Apu::new(Region::Ntsc);
    apu.write(0x4015, 0x1F);
    apu.write(0x4000, 0b1011_1111);
    apu.write(0x4002, 0xFD);
    apu.write(0x4003, 0x08);
    let mut heard = false;
    for _ in 0..2000 {
        ticks(&mut apu, 1);
        if apu.outputs()[0] == 15 {
            heard = true;
        }
    }
    assert!(heard);
    assert!(apu.debug_channels()[0].0);
    assert_eq!(apu.read_status() & 0x01, 0x01);
}

#[test]
fn negate_sweep_keeps_pulse1_audible() {
    let mut apu = Apu::new(Region::Ntsc);
    apu.write(0x4015, 0x1F);
    apu.write(0x4000, 0b1011_1111);
    apu.write(0x4001, 0x08);
    apu.write(0x4002, 0x00);
    apu.write(0x4003, 0x09);
    let mut heard = false;
    for _ in 0..29_780 {
        ticks(&mut apu, 1);
        if apu.outputs()[0] > 0 {
            heard = true;
        }
    }
    assert!(heard);
    assert!(apu.debug_channels()[0].0);
}

#[test]
fn disabling_a_channel_clears_its_length() {
    let mut apu = Apu::new(Region::Ntsc);
    apu.write(0x4015, 0x0F);
    apu.write(0x4003, 0x08);
    apu.write(0x400F, 0x08);
    assert_eq!(apu.read_status() & 0x09, 0x09);
    apu.write(0x4015, 0x08);
    assert_eq!(apu.read_status() & 0x09, 0x08);
}

#[test]
fn four_step_sequence_raises_frame_irq_unless_inhibited() {
    let mut apu = Apu::new(Region::Ntsc);
    ticks(&mut apu, 29_830);
    assert!(apu.irq());
    assert_eq!(apu.read_status() & 0x40, 0x40);
    assert!(!apu.irq());

    let mut quiet = Apu::new(Region::Ntsc);
    quiet.write(0x4017, 0x40);
    ticks(&mut quiet, 40_000);
    assert!(!quiet.irq());
}

#[test]
fn dmc_reads_sample_bytes_and_raises_irq_at_end() {
    let mut apu = Apu::new(Region::Ntsc);
    apu.write(0x4010, 0x8F);
    apu.write(0x4012, 0x01);
    apu.write(0x4013, 0x00);
    apu.write(0x4015, 0x10);
    let req = apu.dmc_dma().expect("a fetch is requested on enable");
    assert_eq!(req.addr, 0xC040);
    assert!(apu.dmc_dma_pending(req));
    assert!(apu.dmc_supply(req, 0xFF));
    assert!(!apu.dmc_supply(req, 0xFF));
    assert!(apu.irq());
    assert_eq!(apu.read_status() & 0x80, 0x80);
    apu.write(0x4015, 0x00);
    assert!(!apu.irq());
}

#[test]
fn dmc_level_rises_with_one_bits() {
    let mut dmc = Dmc::new(Region::Ntsc);
    dmc.write1(0x40);
    assert_eq!(dmc.output(), 0x40);
    dmc.write1(0xFF);
    assert_eq!(dmc.output(), 0x7F);
}

#[test]
fn reset_silences_channels_and_keeps_frame_mode() {
    let mut apu = Apu::new(Region::Pal);
    apu.write(0x4015, 0x0F);
    apu.write(0x4003, 0x08);
    apu.write(0x4017, 0x80);
    ticks(&mut apu, 4);
    apu.reset();
    assert_eq!(apu.read_status() & 0x0F, 0);
    ticks(&mut apu, 40_000);
    assert!(!apu.irq());
}
