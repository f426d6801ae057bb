use synthahol_dx7::{Bank, Format};

/// A bank whose presets are all zero bytes but for a valid checksum.
fn blank_bank() -> Vec<u8> {
    let mut data = vec![0xF0, 0x43, 0x00, 0x09, 0x20, 0x00];
    data.extend(std::iter::repeat(0u8).take(4096));
    data.push(0);
    data.push(0xF7);
    data
}

#[test]
fn filename_extension() {
    assert_eq!(Format::filename_extension(), "syx");
}

#[test]
fn name() {
    assert_eq!(Format::name(), "Yamaha DX7");
}

#[test]
fn init_version_1() {
    let contents = blank_bank();
    assert!(Format::is_format(&contents));
    assert_eq!(Bank::read(&contents).unwrap().len(), 32);
}

#[test]
fn short() {
    let contents = blank_bank();
    let shortened = &contents[..3];
    assert!(!Format::is_format(&shortened));
}

#[test]
fn other_signature() {
    let mut contents = blank_bank();
    contents[3] = 0x00;
    assert!(!Format::is_format(&contents));
    assert!(Format::is_format(&[0xF0, 0x43, 0x00, 0x09, 0x20, 0x00]));
}
