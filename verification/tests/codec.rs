use unreal_asset_registry::archive::ArchiveReader;
use unreal_asset_registry::archive::ArchiveWriter;
use unreal_asset_registry::error::Error;
use unreal_asset_registry::error::FieldKind;
use unreal_asset_registry::names::Name;
use unreal_asset_registry::names::NameTable;
use unreal_asset_registry::record::AssetPackageData;
use unreal_asset_registry::record::decode_record;
use unreal_asset_registry::record::Md5Hash;
use unreal_asset_registry::version::CustomVersionEntry;
use unreal_asset_registry::version::Guid;
use unreal_asset_registry::version::ObjectVersion;
use unreal_asset_registry::version::ObjectVersionUe5;
use unreal_asset_registry::version::RegistryVersion;
use unreal_asset_registry::version::VersionContext;

fn ctx(registry: RegistryVersion, ue5: ObjectVersionUe5) -> VersionContext {
    VersionContext {
        registry_version: registry,
        object_version: ObjectVersion::CorrectLicenseeFlag,
        object_version_ue5: ue5,
        custom_versions: Vec::new(),
    }
}

fn guid(seed: u8) -> Guid {
    let mut bytes = Vec::new();
    for i in 0..16u8 {
        bytes.push(seed.wrapping_add(i));
    }
    Guid { bytes }
}

fn hash(seed: u8) -> Md5Hash {
    let mut bytes = Vec::new();
    for i in 0..16u8 {
        bytes.push(seed.wrapping_mul(3).wrapping_add(i));
    }
    Md5Hash { bytes }
}

fn encode(record: &AssetPackageData, c: &VersionContext) -> Result<Vec<u8>, Error> {
    let mut writer = ArchiveWriter::new();
    record.write(&mut writer, c)?;
    Ok(writer.into_bytes())
}

fn decode(bytes: Vec<u8>, c: &VersionContext) -> Result<AssetPackageData, Error> {
    let mut reader = ArchiveReader::new(bytes);
    AssetPackageData::new(&mut reader, c)
}

fn bare_record() -> AssetPackageData {
    AssetPackageData {
        package_name: Name { pool_index: 7, instance_number: 0 },
        package_guid: guid(1),
        cooked_hash: None,
        imported_classes: None,
        disk_size: 4096,
        file_version: None,
        ue5_version: None,
        file_version_licensee_ue: None,
        custom_versions: None,
        flags: None,
        package_build_dependencies: None,
    }
}

#[test]
fn scenario_below_hash_threshold() {
    // Registry one step below the cooked-hash threshold: encoding with no
    // hash succeeds, the output holds only name + disk size + guid, and
    // decoding the output yields no hash.
    let c = ctx(RegistryVersion::AddedHardManaged, ObjectVersionUe5::InitialVersion);
    let record = bare_record();
    let bytes = encode(&record, &c).unwrap();
    assert_eq!(bytes.len(), 32);
    let back = decode(bytes, &c).unwrap();
    assert!(back.cooked_hash.is_none());
    assert!(back.file_version.is_none());
    assert!(back.file_version_licensee_ue.is_none());
    assert!(back.flags.is_none());
    assert_eq!(back, record);
}

#[test]
fn scenario_summary_version_change_exactly() {
    // Registry exactly at the threshold that introduced the UE5 file
    // version: the nested field round-trips.
    let c = ctx(
        RegistryVersion::PackageFileSummaryVersionChange,
        ObjectVersionUe5::InitialVersion,
    );
    let mut record = bare_record();
    record.cooked_hash = Some(hash(2));
    record.file_version = Some(522);
    record.ue5_version = Some(1004);
    record.file_version_licensee_ue = Some(0);
    record.flags = Some(0);
    record.custom_versions = Some(Vec::new());
    record.imported_classes = Some(Vec::new());
    let bytes = encode(&record, &c).unwrap();
    assert_eq!(bytes.len(), 72);
    let back = decode(bytes, &c).unwrap();
    assert_eq!(back.ue5_version, Some(1004));
    assert_eq!(back, record);
}

#[test]
fn scenario_build_dependencies_below_threshold() {
    // UE5 object version below the build-dependency threshold: the list is
    // omitted from the output even though memory holds one, and decoding
    // recovers nothing for it.
    let c = ctx(RegistryVersion::AddedChunkHashes, ObjectVersionUe5::DataResources);
    let mut record = bare_record();
    record.cooked_hash = Some(hash(9));
    record.file_version = Some(522);
    record.ue5_version = Some(1008);
    record.file_version_licensee_ue = Some(0);
    record.flags = Some(0);
    record.custom_versions = Some(Vec::new());
    record.imported_classes = Some(Vec::new());
    record.package_build_dependencies =
        Some(vec![Name { pool_index: 3, instance_number: 1 }]);
    let bytes = encode(&record, &c).unwrap();
    assert_eq!(bytes.len(), 72);
    let back = decode(bytes, &c).unwrap();
    assert!(back.package_build_dependencies.is_none());
}

#[test]
fn round_trip_all_fields() {
    let c = ctx(
        RegistryVersion::AddedChunkHashes,
        ObjectVersionUe5::AssetRegistryPackageBuildDependencies,
    );
    let mut record = bare_record();
    record.package_name = Name { pool_index: 11, instance_number: 4 };
    record.disk_size = -99;
    record.cooked_hash = Some(hash(5));
    record.file_version = Some(522);
    record.ue5_version = Some(1012);
    record.file_version_licensee_ue = Some(17);
    record.flags = Some(0xdead_beef);
    record.custom_versions = Some(vec![
        CustomVersionEntry { feature_guid: guid(40), revision: -3 },
        CustomVersionEntry { feature_guid: guid(80), revision: 12 },
    ]);
    record.imported_classes = Some(vec![
        Name { pool_index: 1, instance_number: 0 },
        Name { pool_index: 2, instance_number: 5 },
    ]);
    record.package_build_dependencies =
        Some(vec![Name { pool_index: 9, instance_number: 0 }]);
    let bytes = encode(&record, &c).unwrap();
    let back = decode(bytes, &c).unwrap();
    assert_eq!(back, record);
}

#[test]
fn missing_cooked_hash_named() {
    let c = ctx(RegistryVersion::AddedCookedMD5Hash, ObjectVersionUe5::InitialVersion);
    let record = bare_record();
    let err = encode(&record, &c).unwrap_err();
    assert_eq!(
        err,
        Error::MissingRequiredField(FieldKind::CookedHash, RegistryVersion::AddedCookedMD5Hash)
    );
    assert_eq!(FieldKind::CookedHash.label(), "cooked hash");
}

#[test]
fn missing_ue5_version_named() {
    let c = ctx(
        RegistryVersion::PackageFileSummaryVersionChange,
        ObjectVersionUe5::InitialVersion,
    );
    let mut record = bare_record();
    record.cooked_hash = Some(hash(1));
    record.file_version = Some(522);
    record.custom_versions = Some(Vec::new());
    record.imported_classes = Some(Vec::new());
    let err = encode(&record, &c).unwrap_err();
    assert_eq!(
        err,
        Error::MissingRequiredField(
            FieldKind::Ue5Version,
            RegistryVersion::PackageFileSummaryVersionChange
        )
    );
}

#[test]
fn missing_file_version_named() {
    let c = ctx(RegistryVersion::WorkspaceDomain, ObjectVersionUe5::InitialVersion);
    let mut record = bare_record();
    record.cooked_hash = Some(hash(1));
    let err = encode(&record, &c).unwrap_err();
    assert_eq!(
        err,
        Error::MissingRequiredField(FieldKind::FileVersion, RegistryVersion::WorkspaceDomain)
    );
}

#[test]
fn missing_licensee_version_named() {
    let c = ctx(RegistryVersion::WorkspaceDomain, ObjectVersionUe5::InitialVersion);
    let mut record = bare_record();
    record.cooked_hash = Some(hash(1));
    record.file_version = Some(522);
    let err = encode(&record, &c).unwrap_err();
    assert_eq!(
        err,
        Error::MissingRequiredField(
            FieldKind::FileVersionLicensee,
            RegistryVersion::WorkspaceDomain
        )
    );
}

#[test]
fn missing_flags_named() {
    let c = ctx(RegistryVersion::WorkspaceDomain, ObjectVersionUe5::InitialVersion);
    let mut record = bare_record();
    record.cooked_hash = Some(hash(1));
    record.file_version = Some(522);
    record.file_version_licensee_ue = Some(0);
    let err = encode(&record, &c).unwrap_err();
    assert_eq!(
        err,
        Error::MissingRequiredField(FieldKind::Flags, RegistryVersion::WorkspaceDomain)
    );
}

#[test]
fn missing_custom_versions_named() {
    let c = ctx(RegistryVersion::WorkspaceDomain, ObjectVersionUe5::InitialVersion);
    let mut record = bare_record();
    record.cooked_hash = Some(hash(1));
    record.file_version = Some(522);
    record.file_version_licensee_ue = Some(0);
    record.flags = Some(0);
    let err = encode(&record, &c).unwrap_err();
    assert_eq!(
        err,
        Error::MissingRequiredField(FieldKind::CustomVersions, RegistryVersion::WorkspaceDomain)
    );
}

#[test]
fn missing_imported_classes_named() {
    let c = ctx(RegistryVersion::PackageImportedClasses, ObjectVersionUe5::InitialVersion);
    let mut record = bare_record();
    record.cooked_hash = Some(hash(1));
    record.file_version = Some(522);
    record.file_version_licensee_ue = Some(0);
    record.flags = Some(0);
    record.custom_versions = Some(Vec::new());
    let err = encode(&record, &c).unwrap_err();
    assert_eq!(
        err,
        Error::MissingRequiredField(
            FieldKind::ImportedClasses,
            RegistryVersion::PackageImportedClasses
        )
    );
}

#[test]
fn write_omission_ignores_stale_values() {
    // Below every optional threshold, a record carrying stale gated-out
    // values encodes to exactly the bytes of the bare record.
    let c = ctx(RegistryVersion::AddedHardManaged, ObjectVersionUe5::InitialVersion);
    let bare = bare_record();
    let mut stale = bare_record();
    stale.cooked_hash = Some(hash(7));
    stale.file_version = Some(522);
    stale.file_version_licensee_ue = Some(3);
    stale.flags = Some(77);
    stale.custom_versions =
        Some(vec![CustomVersionEntry { feature_guid: guid(3), revision: 8 }]);
    stale.imported_classes = Some(vec![Name { pool_index: 1, instance_number: 1 }]);
    stale.package_build_dependencies = Some(vec![Name { pool_index: 2, instance_number: 0 }]);
    let a = encode(&bare, &c).unwrap();
    let b = encode(&stale, &c).unwrap();
    assert_eq!(a, b);
}

#[test]
fn monotonic_gating_concrete() {
    // The same bare value decoded under an older release populates no field
    // that the newer release's decode leaves absent.
    let low = ctx(RegistryVersion::AddedHardManaged, ObjectVersionUe5::InitialVersion);
    let high = ctx(RegistryVersion::WorkspaceDomain, ObjectVersionUe5::InitialVersion);
    let record = bare_record();
    let low_back = decode(encode(&record, &low).unwrap(), &low).unwrap();
    let mut rich = bare_record();
    rich.cooked_hash = Some(hash(4));
    rich.file_version = Some(522);
    rich.file_version_licensee_ue = Some(0);
    rich.flags = Some(0);
    rich.custom_versions = Some(Vec::new());
    let high_back = decode(encode(&rich, &high).unwrap(), &high).unwrap();
    assert!(low_back.cooked_hash.is_none() || high_back.cooked_hash.is_some());
    assert!(low_back.custom_versions.is_none() || high_back.custom_versions.is_some());
    assert!(low_back.cooked_hash.is_none());
    assert!(high_back.cooked_hash.is_some());
}

#[test]
fn short_read_is_io_error() {
    let c = ctx(RegistryVersion::AddedHardManaged, ObjectVersionUe5::InitialVersion);
    let err = decode(vec![0u8; 10], &c).unwrap_err();
    assert_eq!(err, Error::IoError);
}

#[test]
fn negative_count_is_format_error() {
    // A well-formed head followed by a custom-version count of -1.
    let c = ctx(RegistryVersion::WorkspaceDomain, ObjectVersionUe5::InitialVersion);
    let mut w = ArchiveWriter::new();
    w.write_u32(7);
    w.write_u32(0);
    w.write_i64(4096);
    w.write_raw(&guid(1).bytes);
    w.write_raw(&hash(2).bytes);
    w.write_i32(0); // file version
    w.write_i32(-1); // licensee version
    w.write_u32(0); // flags
    w.write_i32(-1); // custom-version count: structurally invalid
    let err = decode(w.into_bytes(), &c).unwrap_err();
    assert_eq!(err, Error::FormatError);
}

#[test]
fn decode_reads_exactly_one_record() {
    // Two records back to back: the cursor stops exactly between them.
    let c = ctx(RegistryVersion::AddedHardManaged, ObjectVersionUe5::InitialVersion);
    let first = bare_record();
    let mut second = bare_record();
    second.package_name = Name { pool_index: 8, instance_number: 2 };
    second.disk_size = 1;
    let mut bytes = encode(&first, &c).unwrap();
    bytes.extend(encode(&second, &c).unwrap());
    let mut reader = ArchiveReader::new(bytes);
    let a = AssetPackageData::new(&mut reader, &c).unwrap();
    let b = AssetPackageData::new(&mut reader, &c).unwrap();
    assert_eq!(a, first);
    assert_eq!(b, second);
}

#[test]
fn decode_record_validates_name_indices() {
    let c = ctx(RegistryVersion::AddedHardManaged, ObjectVersionUe5::InitialVersion);
    let record = bare_record(); // package_name pool_index 7
    let bytes = encode(&record, &c).unwrap();
    let mut small = NameTable::new();
    small.intern(String::from("only"));
    let mut reader = ArchiveReader::new(bytes.clone());
    let err = decode_record(&mut reader, &c, &small).unwrap_err();
    assert_eq!(err, Error::FormatError);
    let mut big = NameTable::new();
    for i in 0..8 {
        big.intern(format!("name{}", i));
    }
    let mut reader2 = ArchiveReader::new(bytes);
    let back = decode_record(&mut reader2, &c, &big).unwrap();
    assert_eq!(back, record);
}
