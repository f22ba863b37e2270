use minikernel::ata::{
    identify_dma_supported, identify_lba_supported, identify_model_bytes, identify_total_sectors,
    sector_count_allowed, AtaBus, AtaController, AtaDevice, AtaError, SimDrive, ATA_PRIMARY,
    ATA_SECONDARY, SECTOR_BYTES,
};

fn fixture_sector() -> Vec<u8> {
    let mut data = Vec::new();
    for i in 0..SECTOR_BYTES {
        data.push((i as u8) ^ 0xA5);
    }
    data
}

fn healthy_drive(sectors: usize) -> SimDrive {
    let mut identify = vec![0u16; 256];
    identify[0] = 0x0040;
    identify[49] = 0x0300; // LBA and DMA capable
    identify[60] = (sectors & 0xFFFF) as u16;
    identify[61] = (sectors >> 16) as u16;
    let mut data = Vec::new();
    for s in 0..sectors {
        for i in 0..SECTOR_BYTES {
            data.push(((i + s) as u8) ^ 0xA5);
        }
    }
    SimDrive { present: true, stuck_busy: false, faulty: false, identify, data }
}

#[test]
fn controller_addresses_its_slot() {
    let primary = AtaController::new(AtaDevice::Primary);
    assert_eq!(primary.base, ATA_PRIMARY);
    assert_eq!(primary.ctrl, ATA_PRIMARY + 0x206);
    assert!(!primary.is_slave);
    let secondary_slave = AtaController::new(AtaDevice::SecondarySlave);
    assert_eq!(secondary_slave.base, ATA_SECONDARY);
    assert!(secondary_slave.is_slave);
}

#[test]
fn identify_absent_device_returns_no_device() {
    let mut bus = AtaBus::new(ATA_PRIMARY, SimDrive::absent(), SimDrive::absent());
    let controller = AtaController::new(AtaDevice::Primary);
    assert_eq!(controller.identify(&mut bus), Err(AtaError::NoDevice));
}

#[test]
fn identify_returns_the_identification_block() {
    let drive = healthy_drive(1);
    let expected = drive.identify.clone();
    let mut bus = AtaBus::new(ATA_PRIMARY, drive, SimDrive::absent());
    let controller = AtaController::new(AtaDevice::Primary);
    let words = controller.identify(&mut bus).expect("device answers");
    assert_eq!(words, expected);
}

#[test]
fn identify_slave_slot_selects_the_slave() {
    let drive = healthy_drive(1);
    let expected = drive.identify.clone();
    let mut bus = AtaBus::new(ATA_PRIMARY, SimDrive::absent(), drive);
    let controller = AtaController::new(AtaDevice::PrimarySlave);
    let words = controller.identify(&mut bus).expect("slave answers");
    assert_eq!(words, expected);
    let master = AtaController::new(AtaDevice::Primary);
    assert_eq!(master.identify(&mut bus), Err(AtaError::NoDevice));
}

#[test]
fn identify_stuck_device_times_out() {
    let mut drive = healthy_drive(1);
    drive.stuck_busy = true;
    let mut bus = AtaBus::new(ATA_PRIMARY, drive, SimDrive::absent());
    let controller = AtaController::new(AtaDevice::Primary);
    assert_eq!(controller.identify(&mut bus), Err(AtaError::Timeout));
}

#[test]
fn identify_faulted_device_reads_as_absent() {
    let mut drive = healthy_drive(1);
    drive.faulty = true;
    let mut bus = AtaBus::new(ATA_PRIMARY, drive, SimDrive::absent());
    let controller = AtaController::new(AtaDevice::Primary);
    assert_eq!(controller.identify(&mut bus), Err(AtaError::NoDevice));
}

#[test]
fn identify_zero_first_word_reads_as_absent() {
    let mut drive = healthy_drive(1);
    drive.identify[0] = 0;
    let mut bus = AtaBus::new(ATA_PRIMARY, drive, SimDrive::absent());
    let controller = AtaController::new(AtaDevice::Primary);
    assert_eq!(controller.identify(&mut bus), Err(AtaError::NoDevice));
}

#[test]
fn read_lba_zero_matches_fixture() {
    let mut drive = healthy_drive(1);
    drive.data = fixture_sector();
    let mut bus = AtaBus::new(ATA_PRIMARY, drive, SimDrive::absent());
    let controller = AtaController::new(AtaDevice::Primary);
    let mut buffer = vec![0u8; SECTOR_BYTES];
    assert_eq!(controller.read_sectors(&mut bus, 0, 1, &mut buffer), Ok(()));
    assert_eq!(buffer, fixture_sector());
}

#[test]
fn read_two_sectors_in_order() {
    let drive = healthy_drive(3);
    let expected: Vec<u8> = drive.data[512..1536].to_vec();
    let mut bus = AtaBus::new(ATA_PRIMARY, drive, SimDrive::absent());
    let controller = AtaController::new(AtaDevice::Primary);
    let mut buffer = vec![0u8; 2 * SECTOR_BYTES];
    assert_eq!(controller.read_sectors(&mut bus, 1, 2, &mut buffer), Ok(()));
    assert_eq!(buffer, expected);
}

#[test]
fn read_count_zero_is_invalid() {
    let drive = healthy_drive(1);
    let mut bus = AtaBus::new(ATA_PRIMARY, drive, SimDrive::absent());
    let controller = AtaController::new(AtaDevice::Primary);
    let mut buffer = Vec::new();
    assert_eq!(
        controller.read_sectors(&mut bus, 0, 0, &mut buffer),
        Err(AtaError::InvalidSector)
    );
}

#[test]
fn read_past_the_device_faults() {
    let drive = healthy_drive(1);
    let mut bus = AtaBus::new(ATA_PRIMARY, drive, SimDrive::absent());
    let controller = AtaController::new(AtaDevice::Primary);
    let mut buffer = vec![0u8; SECTOR_BYTES];
    let before = buffer.clone();
    assert_eq!(
        controller.read_sectors(&mut bus, 7, 1, &mut buffer),
        Err(AtaError::DeviceFault(0x41))
    );
    assert_eq!(buffer, before);
}

#[test]
fn read_absent_device_times_out() {
    let mut bus = AtaBus::new(ATA_SECONDARY, SimDrive::absent(), SimDrive::absent());
    let controller = AtaController::new(AtaDevice::Secondary);
    let mut buffer = vec![0u8; SECTOR_BYTES];
    assert_eq!(
        controller.read_sectors(&mut bus, 0, 1, &mut buffer),
        Err(AtaError::Timeout)
    );
}

#[test]
fn sector_count_policy_bounds() {
    assert!(!sector_count_allowed(0));
    assert!(sector_count_allowed(1));
    assert!(sector_count_allowed(8));
    assert!(!sector_count_allowed(9));
}

#[test]
fn identify_word_decoders() {
    let mut words = vec![0u16; 256];
    for i in 0..20usize {
        // "AB", "CD", ... stored high byte first per word
        words[27 + i] = (((65 + 2 * i) as u16) << 8) | ((66 + 2 * i) as u16);
    }
    words[49] = 0x0200;
    words[60] = 0x5678;
    words[61] = 0x1234;
    let model = identify_model_bytes(&words);
    assert_eq!(model.len(), 40);
    assert_eq!(model[0], 65);
    assert_eq!(model[1], 66);
    assert_eq!(model[2], 67);
    assert_eq!(identify_total_sectors(&words), 0x1234_5678);
    assert!(identify_lba_supported(&words));
    assert!(!identify_dma_supported(&words));
}
