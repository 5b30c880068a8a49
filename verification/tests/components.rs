use byteorder::ByteOrder;
use byteorder::LittleEndian;

use unreal_asset_registry::archive::ArchiveReader;
use unreal_asset_registry::archive::ArchiveWriter;
use unreal_asset_registry::error::Error;
use unreal_asset_registry::names::Name;
use unreal_asset_registry::names::NameTable;
use unreal_asset_registry::record::AssetPackageData;
use unreal_asset_registry::record::Md5Hash;
use unreal_asset_registry::version::CustomVersionEntry;
use unreal_asset_registry::version::EngineRelease;
use unreal_asset_registry::version::Guid;
use unreal_asset_registry::version::ObjectVersion;
use unreal_asset_registry::version::ObjectVersionUe5;
use unreal_asset_registry::version::RegistryVersion;
use unreal_asset_registry::version::VersionContext;
use unreal_asset_registry::version::resolve_version_context;

#[test]
fn writer_agrees_with_byteorder() {
    let mut w = ArchiveWriter::new();
    assert_eq!(w.written(), 0);
    w.write_u32(0xdead_beef);
    w.write_i32(-123_456);
    w.write_i64(-9_000_000_000);
    w.write_u64(0x0123_4567_89ab_cdef);
    let bytes = w.into_bytes();
    assert_eq!(bytes.len(), 24);
    assert_eq!(LittleEndian::read_u32(&bytes[0..4]), 0xdead_beef);
    assert_eq!(LittleEndian::read_i32(&bytes[4..8]), -123_456);
    assert_eq!(LittleEndian::read_i64(&bytes[8..16]), -9_000_000_000);
    assert_eq!(LittleEndian::read_u64(&bytes[16..24]), 0x0123_4567_89ab_cdef);
}

#[test]
fn reader_agrees_with_byteorder() {
    let mut raw = vec![0u8; 16];
    LittleEndian::write_i32(&mut raw[0..4], i32::MIN);
    LittleEndian::write_u32(&mut raw[4..8], u32::MAX);
    LittleEndian::write_i64(&mut raw[8..16], i64::MIN + 5);
    let mut r = ArchiveReader::new(raw);
    assert_eq!(r.remaining(), 16);
    assert_eq!(r.read_i32().unwrap(), i32::MIN);
    assert_eq!(r.read_u32().unwrap(), u32::MAX);
    assert_eq!(r.read_i64().unwrap(), i64::MIN + 5);
    assert_eq!(r.remaining(), 0);
    assert_eq!(r.read_u32().unwrap_err(), Error::IoError);
}

#[test]
fn encoded_record_field_offsets() {
    // The wire image checked byte-for-byte with an independent reader.
    let c = VersionContext {
        registry_version: RegistryVersion::PackageFileSummaryVersionChange,
        object_version: ObjectVersion::CorrectLicenseeFlag,
        object_version_ue5: ObjectVersionUe5::InitialVersion,
        custom_versions: Vec::new(),
    };
    let record = AssetPackageData {
        package_name: Name { pool_index: 7, instance_number: 3 },
        package_guid: Guid { bytes: (0u8..16).collect() },
        cooked_hash: Some(Md5Hash { bytes: (100u8..116).collect() }),
        imported_classes: Some(Vec::new()),
        disk_size: 4096,
        file_version: Some(522),
        ue5_version: Some(1004),
        file_version_licensee_ue: Some(0),
        custom_versions: Some(Vec::new()),
        flags: Some(9),
        package_build_dependencies: None,
    };
    let mut w = ArchiveWriter::new();
    record.write(&mut w, &c).unwrap();
    let bytes = w.into_bytes();
    assert_eq!(bytes.len(), 72);
    assert_eq!(LittleEndian::read_u32(&bytes[0..4]), 7);
    assert_eq!(LittleEndian::read_u32(&bytes[4..8]), 3);
    assert_eq!(LittleEndian::read_i64(&bytes[8..16]), 4096);
    assert_eq!(&bytes[16..32], &(0u8..16).collect::<Vec<u8>>()[..]);
    assert_eq!(&bytes[32..48], &(100u8..116).collect::<Vec<u8>>()[..]);
    assert_eq!(LittleEndian::read_i32(&bytes[48..52]), 522);
    assert_eq!(LittleEndian::read_i32(&bytes[52..56]), 1004);
    assert_eq!(LittleEndian::read_i32(&bytes[56..60]), 0);
    assert_eq!(LittleEndian::read_u32(&bytes[60..64]), 9);
    assert_eq!(LittleEndian::read_i32(&bytes[64..68]), 0);
    assert_eq!(LittleEndian::read_i32(&bytes[68..72]), 0);
}

#[test]
fn name_table_interns_and_resolves() {
    let mut table = NameTable::new();
    let a = table.intern(String::from("Engine"));
    let b = table.intern(String::from("Game"));
    let a2 = table.intern(String::from("Engine"));
    assert_eq!(a.pool_index, a2.pool_index);
    assert_ne!(a.pool_index, b.pool_index);
    assert_eq!(a.instance_number, 0);
    assert_eq!(table.len(), 2);
    assert_eq!(table.resolve(a).unwrap(), "Engine");
    assert_eq!(table.resolve(b).unwrap(), "Game");
    assert!(table.resolve(Name { pool_index: 99, instance_number: 0 }).is_none());
}

#[test]
fn name_table_instance_numbers_share_base_string() {
    let mut table = NameTable::new();
    let base = table.intern(String::from("Mesh"));
    let numbered = Name { pool_index: base.pool_index, instance_number: 4 };
    assert_eq!(table.resolve(base).unwrap(), table.resolve(numbered).unwrap());
}

#[test]
fn resolve_unknown_release_fails() {
    let err = resolve_version_context(EngineRelease::Unknown).unwrap_err();
    assert_eq!(err, Error::UnsupportedVersion);
}

#[test]
fn resolve_known_releases() {
    let old = resolve_version_context(EngineRelease::Ue4_27).unwrap();
    assert_eq!(old.registry_version, RegistryVersion::FixedTags);
    assert_eq!(old.object_version_ue5, ObjectVersionUe5::InitialVersion);
    let new = resolve_version_context(EngineRelease::Ue5_5).unwrap();
    assert_eq!(new.registry_version, RegistryVersion::AddedChunkHashes);
    assert_eq!(
        new.object_version_ue5,
        ObjectVersionUe5::AssetRegistryPackageBuildDependencies
    );
    assert_eq!(new.custom_versions.len(), 2);
    let editor_guid = Guid {
        bytes: vec![
            0xe4u8, 0x4b, 0x49, 0x9a, 0x7f, 0xa9, 0x01, 0x44, 0x8b, 0x9d, 0x9d, 0xe8, 0x9b, 0x03,
            0x62, 0x94,
        ],
    };
    assert_eq!(new.custom_version(&editor_guid), Some(46));
    assert_eq!(old.custom_version(&editor_guid), Some(40));
}

#[test]
fn custom_version_lookup() {
    let g1 = Guid { bytes: vec![1u8; 16] };
    let g2 = Guid { bytes: vec![2u8; 16] };
    let g3 = Guid { bytes: vec![3u8; 16] };
    let c = VersionContext {
        registry_version: RegistryVersion::AddedChunkHashes,
        object_version: ObjectVersion::CorrectLicenseeFlag,
        object_version_ue5: ObjectVersionUe5::DataResources,
        custom_versions: vec![
            CustomVersionEntry { feature_guid: g1.clone(), revision: 12 },
            CustomVersionEntry { feature_guid: g2.clone(), revision: -4 },
        ],
    };
    assert_eq!(c.custom_version(&g1), Some(12));
    assert_eq!(c.custom_version(&g2), Some(-4));
    assert_eq!(c.custom_version(&g3), None);
}

#[test]
fn guid_comparison_is_byte_for_byte() {
    let a = Guid { bytes: vec![5u8; 16] };
    let mut other_bytes = vec![5u8; 16];
    other_bytes[15] = 6;
    let b = Guid { bytes: other_bytes };
    assert!(a.same_as(&a.clone()));
    assert!(!a.same_as(&b));
}
