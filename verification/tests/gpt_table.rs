use rf_a::gpt::table::{ContigSize, Level0Descriptor, Level1Descriptor};
use rf_a::gpt::GPIAccessType;

#[test]
fn as_block_valid() {
    assert!(Level0Descriptor(0b0001)
        .as_block()
        .is_some_and(|b| b.gpi() == GPIAccessType::NoAccess));

    assert!(Level0Descriptor(0b1111_0001)
        .as_block()
        .is_some_and(|b| b.gpi() == GPIAccessType::Any));
}

#[test]
fn as_block_invalid() {
    assert!(Level0Descriptor(0).as_block().is_none());
}

#[test]
fn create_block() {
    assert_eq!(
        Level0Descriptor::block(GPIAccessType::Realm),
        Level0Descriptor(0b1011_0001)
    );
}

#[test]
fn as_table_valid() {
    assert!(Level0Descriptor(0x0001_dead_beef_0003).as_table().is_some());
}

#[test]
fn as_table_invalid() {
    assert!(Level0Descriptor(0x0001_dead_beef_0001).as_table().is_none());
    assert!(Level0Descriptor(0x0001_dead_beef_0005).as_table().is_none());
}

#[test]
fn as_table_idx() {
    let d = Level0Descriptor(0x1000_0000_2003);
    let desc = d.as_table().unwrap();
    assert_eq!(desc.address(), 0x1000_0000_2000);

    let d = Level0Descriptor(0x1000_0001_0003);
    let desc = d.as_table().unwrap();
    assert_eq!(desc.address(), 0x1000_0001_0000);
}

#[test]
fn as_contig_valid() {
    let d = Level1Descriptor(0b11_1001_0001);
    let desc = d.as_contig().unwrap();

    assert_eq!(desc.size(), ContigSize::MB512);
    assert_eq!(desc.gpi(), GPIAccessType::NonSecure);
}

#[test]
fn as_contig_invalid() {
    assert!(Level1Descriptor(0b11_1001_0000).as_contig().is_none());
}

#[test]
fn create_contig() {
    assert_eq!(
        Level1Descriptor::contig(ContigSize::MB2, GPIAccessType::Realm),
        Level1Descriptor(0b01_1011_0001)
    );
}

#[test]
fn as_granule_valid() {
    let d = Level1Descriptor(0xB09F);
    let gpi = d.as_granule().unwrap();

    assert_eq!(gpi.gpi(0), Some(GPIAccessType::Any));
    assert_eq!(gpi.gpi(1), Some(GPIAccessType::NonSecure));
    assert_eq!(gpi.gpi(2), Some(GPIAccessType::NoAccess));
    assert_eq!(gpi.gpi(3), Some(GPIAccessType::Realm));
}

#[test]
fn as_granule_mut_valid() {
    let mut desc = Level1Descriptor(0xB09F);
    assert!(desc.as_granule_mut().is_some());
}

#[test]
fn as_granule_invalid() {
    assert!(Level1Descriptor(1).as_granule().is_none());
    assert!(Level1Descriptor(1).as_granule_mut().is_none());
}

#[test]
fn granule_set() {
    let mut desc = Level1Descriptor(0xB09F);
    let mut gpi = desc.as_granule_mut().unwrap();

    gpi.set_gpi(7, GPIAccessType::Root);
    assert_eq!(gpi.0 .0, 0x0000_0000_A000_B09F);

    gpi.set_gpi(1, GPIAccessType::Secure);
    gpi.set_gpi(14, GPIAccessType::Secure);
    assert_eq!(gpi.0 .0, 0x0800_0000_A000_B08F);
}

#[test]
fn create_granule() {
    assert_eq!(
        Level1Descriptor::granule(&[GPIAccessType::Secure; 16]).0,
        0x8888_8888_8888_8888
    );

    assert_eq!(
        Level1Descriptor::granule(&[
            GPIAccessType::NonSecure,
            GPIAccessType::Root,
            GPIAccessType::Any,
            GPIAccessType::Secure,
            GPIAccessType::NonSecure,
            GPIAccessType::Root,
            GPIAccessType::Any,
            GPIAccessType::Secure,
            GPIAccessType::NonSecure,
            GPIAccessType::Root,
            GPIAccessType::Any,
            GPIAccessType::Secure,
            GPIAccessType::NonSecure,
            GPIAccessType::Root,
            GPIAccessType::Any,
            GPIAccessType::Secure,
        ])
        .0,
        0x8FA9_8FA9_8FA9_8FA9
    );
}

fn assert_non_empty(d: Level1Descriptor) {
    assert!(d.as_granule().is_some_and(|v| !v.is_empty()));
}

fn assert_empty(d: Level1Descriptor) {
    assert!(d.as_granule().is_none_or(|v| v.is_empty()));
}

#[test]
fn granule_non_empty() {
    assert_non_empty(Level1Descriptor::granule(&[GPIAccessType::Any; 16]));
    assert_non_empty(Level1Descriptor(0xF000));
}

#[test]
fn granule_empty() {
    assert_empty(Level1Descriptor::granule(&[GPIAccessType::NoAccess; 16]));
    assert_empty(Level1Descriptor(0x3));
    assert_empty(Level1Descriptor(0x30));
}

#[test]
fn contig_invalid_shift() {
    assert_eq!(ContigSize::from_shift(30), None);
}

#[test]
fn level0_table_locates_level1_tables() {
    let config = rf_a::gpt::GranuleProtectionConfig {
        pps: rf_a::gpt::ProtectedPhysicalAddressSize::GB4,
        l0gptsz: rf_a::gpt::Level0GptSize::GB1,
        pgs: rf_a::gpt::PhysicalGranuleSize::KB4,
    };
    let mut entries = [
        Level0Descriptor(0x1000_0000_2003),
        Level0Descriptor(0b0001),
        Level0Descriptor(0x8000_3003),
        Level0Descriptor(0),
    ];
    let table = rf_a::gpt::Level0Table(&mut entries);
    // 1GB per level 0 entry, 16 granules of 4KB per level 1 entry: 2^14 entries.
    assert_eq!(table.get_l1(0x0000_1234, &config), Some((0x1000_0000_2000, 1 << 14)));
    assert_eq!(table.get_l1(0x4000_0000, &config), None);
    assert_eq!(table.get_l1(0x8000_0000, &config), Some((0x8000_3000, 1 << 14)));
    assert_eq!(table.get_l1(0xc000_0000, &config), None);
}
