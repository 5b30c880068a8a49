//! Version axes of the asset-registry format and their resolution from an
//! engine release.
//!
//! A [`VersionContext`] snapshots three independently ordered version axes
//! plus a sparse per-feature custom-version table.  It is resolved once per
//! session and then consulted read-only by every record codec.

use vstd::prelude::*;

use crate::error::Error;

verus! {

/// Successive revisions of the asset-registry serialization format.
/// Later variants are strictly newer; ordering is by ordinal.
#[derive(Debug, Clone, Copy, PartialEq, Eq, Structural)]
pub enum RegistryVersion {
    PreVersioning,
    HardSoftDependencies,
    AddAssetRegistryState,
    ChangedAssetData,
    RemovedMD5Hash,
    AddedHardManaged,
    AddedCookedMD5Hash,
    AddedDependencyFlags,
    FixedTags,
    WorkspaceDomain,
    PackageImportedClasses,
    PackageFileSummaryVersionChange,
    ObjectResourceOptionalVersion,
    AddedChunkHashes,
}

impl RegistryVersion {
    /// Position of this revision in the total order of registry revisions.
    pub open spec fn ordinal(self) -> int {
        match self {
            RegistryVersion::PreVersioning => 0,
            RegistryVersion::HardSoftDependencies => 1,
            RegistryVersion::AddAssetRegistryState => 2,
            RegistryVersion::ChangedAssetData => 3,
            RegistryVersion::RemovedMD5Hash => 4,
            RegistryVersion::AddedHardManaged => 5,
            RegistryVersion::AddedCookedMD5Hash => 6,
            RegistryVersion::AddedDependencyFlags => 7,
            RegistryVersion::FixedTags => 8,
            RegistryVersion::WorkspaceDomain => 9,
            RegistryVersion::PackageImportedClasses => 10,
            RegistryVersion::PackageFileSummaryVersionChange => 11,
            RegistryVersion::ObjectResourceOptionalVersion => 12,
            RegistryVersion::AddedChunkHashes => 13,
        }
    }

    /// Executable ordinal, equal to the specification-level one.
    pub fn rank(&self) -> (r: u32)
        ensures
            r == self.ordinal(),
    {
        match self {
            RegistryVersion::PreVersioning => 0,
            RegistryVersion::HardSoftDependencies => 1,
            RegistryVersion::AddAssetRegistryState => 2,
            RegistryVersion::ChangedAssetData => 3,
            RegistryVersion::RemovedMD5Hash => 4,
            RegistryVersion::AddedHardManaged => 5,
            RegistryVersion::AddedCookedMD5Hash => 6,
            RegistryVersion::AddedDependencyFlags => 7,
            RegistryVersion::FixedTags => 8,
            RegistryVersion::WorkspaceDomain => 9,
            RegistryVersion::PackageImportedClasses => 10,
            RegistryVersion::PackageFileSummaryVersionChange => 11,
            RegistryVersion::ObjectResourceOptionalVersion => 12,
            RegistryVersion::AddedChunkHashes => 13,
        }
    }

    /// Threshold comparison used by every field gate on this axis.
    pub fn at_least(&self, threshold: RegistryVersion) -> (r: bool)
        ensures
            r == (self.ordinal() >= threshold.ordinal()),
    {
        self.rank() >= threshold.rank()
    }
}

/// Revisions of the UE4-era object binary format.
#[derive(Debug, Clone, Copy, PartialEq, Eq, Structural)]
pub enum ObjectVersion {
    OldestLoadablePackage,
    AddedPackageOwner,
    NonOuterPackageImport,
    CorrectLicenseeFlag,
}

impl ObjectVersion {
    /// Position of this revision in the total order of object revisions.
    pub open spec fn ordinal(self) -> int {
        match self {
            ObjectVersion::OldestLoadablePackage => 0,
            ObjectVersion::AddedPackageOwner => 1,
            ObjectVersion::NonOuterPackageImport => 2,
            ObjectVersion::CorrectLicenseeFlag => 3,
        }
    }
}

/// Revisions of the UE5-era object binary format; `InitialVersion` also
/// stands for any context predating UE5 numbering.
#[derive(Debug, Clone, Copy, PartialEq, Eq, Structural)]
pub enum ObjectVersionUe5 {
    InitialVersion,
    NamesReferencedFromExportData,
    PayloadToc,
    OptionalResources,
    LargeWorldCoordinates,
    RemoveObjectExportPackageGuid,
    TrackObjectExportIsInherited,
    SoftObjectPathRemoveAssetPathNames,
    AddSoftObjectPathList,
    DataResources,
    ScriptSerializationOffset,
    PropertyTagExtensionAndOverridableSerialization,
    PropertyTagCompleteTypeName,
    AssetRegistryPackageBuildDependencies,
}

impl ObjectVersionUe5 {
    /// Position of this revision in the total order of UE5 object revisions.
    pub open spec fn ordinal(self) -> int {
        match self {
            ObjectVersionUe5::InitialVersion => 0,
            ObjectVersionUe5::NamesReferencedFromExportData => 1,
            ObjectVersionUe5::PayloadToc => 2,
            ObjectVersionUe5::OptionalResources => 3,
            ObjectVersionUe5::LargeWorldCoordinates => 4,
            ObjectVersionUe5::RemoveObjectExportPackageGuid => 5,
            ObjectVersionUe5::TrackObjectExportIsInherited => 6,
            ObjectVersionUe5::SoftObjectPathRemoveAssetPathNames => 7,
            ObjectVersionUe5::AddSoftObjectPathList => 8,
            ObjectVersionUe5::DataResources => 9,
            ObjectVersionUe5::ScriptSerializationOffset => 10,
            ObjectVersionUe5::PropertyTagExtensionAndOverridableSerialization => 11,
            ObjectVersionUe5::PropertyTagCompleteTypeName => 12,
            ObjectVersionUe5::AssetRegistryPackageBuildDependencies => 13,
        }
    }

    /// Executable ordinal, equal to the specification-level one.
    pub fn rank(&self) -> (r: u32)
        ensures
            r == self.ordinal(),
    {
        match self {
            ObjectVersionUe5::InitialVersion => 0,
            ObjectVersionUe5::NamesReferencedFromExportData => 1,
            ObjectVersionUe5::PayloadToc => 2,
            ObjectVersionUe5::OptionalResources => 3,
            ObjectVersionUe5::LargeWorldCoordinates => 4,
            ObjectVersionUe5::RemoveObjectExportPackageGuid => 5,
            ObjectVersionUe5::TrackObjectExportIsInherited => 6,
            ObjectVersionUe5::SoftObjectPathRemoveAssetPathNames => 7,
            ObjectVersionUe5::AddSoftObjectPathList => 8,
            ObjectVersionUe5::DataResources => 9,
            ObjectVersionUe5::ScriptSerializationOffset => 10,
            ObjectVersionUe5::PropertyTagExtensionAndOverridableSerialization => 11,
            ObjectVersionUe5::PropertyTagCompleteTypeName => 12,
            ObjectVersionUe5::AssetRegistryPackageBuildDependencies => 13,
        }
    }

    /// Threshold comparison used by every field gate on this axis.
    pub fn at_least(&self, threshold: ObjectVersionUe5) -> (r: bool)
        ensures
            r == (self.ordinal() >= threshold.ordinal()),
    {
        self.rank() >= threshold.rank()
    }
}

/// An opaque 16-byte identifier, stored and compared byte for byte.
#[derive(Debug, Clone, PartialEq, Eq)]
pub struct Guid {
    pub bytes: Vec<u8>,
}

impl Guid {
    /// A guid is exactly sixteen bytes.
    pub open spec fn wf(self) -> bool {
        self.bytes@.len() == 16
    }

    /// Byte-for-byte comparison; guids are never interpreted.
    pub fn same_as(&self, other: &Guid) -> (r: bool)
        ensures
            r == (self@ == other@),
    {
        if self.bytes.len() != other.bytes.len() {
            assert(self@ != other@);
            return false;
        }
        let n = self.bytes.len();
        let mut i: usize = 0;
        while i < n
            invariant
                n == self.bytes@.len(),
                n == other.bytes@.len(),
                0 <= i <= n,
                forall|k: int| 0 <= k < i ==> self.bytes@[k] == other.bytes@[k],
            decreases n - i,
        {
            if self.bytes[i] != other.bytes[i] {
                assert(self@[i as int] != other@[i as int]);
                return false;
            }
            i = i + 1;
        }
        assert(self@ =~= other@);
        true
    }
}

impl View for Guid {
    type V = Seq<u8>;

    open spec fn view(&self) -> Seq<u8> {
        self.bytes@
    }
}

/// One entry of a custom-version manifest: a feature identifier and the
/// revision of that feature.
#[derive(Debug, Clone, PartialEq, Eq)]
pub struct CustomVersionEntry {
    pub feature_guid: Guid,
    pub revision: i32,
}

/// Mathematical value of a [`CustomVersionEntry`].
pub ghost struct CustomVersionView {
    pub feature_guid: Seq<u8>,
    pub revision: i32,
}

impl View for CustomVersionEntry {
    type V = CustomVersionView;

    open spec fn view(&self) -> CustomVersionView {
        CustomVersionView { feature_guid: self.feature_guid@, revision: self.revision }
    }
}

/// The mathematical values of a sequence of custom-version entries.
pub open spec fn cv_views(s: Seq<CustomVersionEntry>) -> Seq<CustomVersionView> {
    s.map_values(|e: CustomVersionEntry| e@)
}

/// An immutable snapshot of the three version axes plus the session's
/// custom-version table, consulted read-only by every record codec.
#[derive(Debug, Clone)]
pub struct VersionContext {
    pub registry_version: RegistryVersion,
    pub object_version: ObjectVersion,
    pub object_version_ue5: ObjectVersionUe5,
    pub custom_versions: Vec<CustomVersionEntry>,
}

impl VersionContext {
    /// Internal consistency: the UE5 object axis is only meaningful once the
    /// registry format reached the revision that introduced UE5 numbering,
    /// every custom-version guid is well formed, and no feature appears twice.
    pub open spec fn wf(self) -> bool {
        &&& (self.registry_version.ordinal()
            < RegistryVersion::PackageFileSummaryVersionChange.ordinal() ==> self
            .object_version_ue5
            .ordinal() == 0)
        &&& (forall|i: int|
            0 <= i < self.custom_versions@.len() ==> (#[trigger] self.custom_versions@[i])@
                .feature_guid
                .len() == 16)
        &&& (forall|i: int, j: int|
            0 <= i < j < self.custom_versions@.len() ==> (#[trigger] self.custom_versions@[i])@
                .feature_guid != (#[trigger] self.custom_versions@[j])@.feature_guid)
    }

    /// Whether the table records revision `v` for the feature `g`.
    pub open spec fn has_custom_version(self, g: Seq<u8>, v: i32) -> bool {
        exists|i: int|
            0 <= i < self.custom_versions@.len() && (#[trigger] self.custom_versions@[i])@
                .feature_guid == g && self.custom_versions@[i]@.revision == v
    }

    /// Looks the feature `g` up in the custom-version table.
    pub fn custom_version(&self, g: &Guid) -> (r: Option<i32>)
        ensures
            match r {
                Some(v) => self.has_custom_version(g@, v),
                None => forall|v: i32| !self.has_custom_version(g@, v),
            },
    {
        let n = self.custom_versions.len();
        let mut i: usize = 0;
        while i < n
            invariant
                n == self.custom_versions@.len(),
                0 <= i <= n,
                forall|k: int|
                    0 <= k < i ==> (#[trigger] self.custom_versions@[k])@.feature_guid != g@,
            decreases n - i,
        {
            if self.custom_versions[i].feature_guid.same_as(g) {
                return Some(self.custom_versions[i].revision);
            }
            i = i + 1;
        }
        None
    }
}

/// The engine releases whose version axes the resolution table knows.
#[derive(Debug, Clone, Copy, PartialEq, Eq, Structural)]
pub enum EngineRelease {
    Unknown,
    Ue4_24,
    Ue4_25,
    Ue4_26,
    Ue4_27,
    Ue5_0,
    Ue5_1,
    Ue5_2,
    Ue5_3,
    Ue5_4,
    Ue5_5,
}

/// Registry-format revision shipped by each known release.
pub open spec fn registry_version_of(r: EngineRelease) -> RegistryVersion {
    match r {
        EngineRelease::Unknown => RegistryVersion::PreVersioning,
        EngineRelease::Ue4_24 => RegistryVersion::AddedDependencyFlags,
        EngineRelease::Ue4_25 => RegistryVersion::FixedTags,
        EngineRelease::Ue4_26 => RegistryVersion::FixedTags,
        EngineRelease::Ue4_27 => RegistryVersion::FixedTags,
        EngineRelease::Ue5_0 => RegistryVersion::ObjectResourceOptionalVersion,
        EngineRelease::Ue5_1 => RegistryVersion::AddedChunkHashes,
        EngineRelease::Ue5_2 => RegistryVersion::AddedChunkHashes,
        EngineRelease::Ue5_3 => RegistryVersion::AddedChunkHashes,
        EngineRelease::Ue5_4 => RegistryVersion::AddedChunkHashes,
        EngineRelease::Ue5_5 => RegistryVersion::AddedChunkHashes,
    }
}

/// UE4-era object-format revision shipped by each known release.
pub open spec fn object_version_of(r: EngineRelease) -> ObjectVersion {
    match r {
        EngineRelease::Unknown => ObjectVersion::OldestLoadablePackage,
        EngineRelease::Ue4_24 => ObjectVersion::AddedPackageOwner,
        EngineRelease::Ue4_25 => ObjectVersion::NonOuterPackageImport,
        _ => ObjectVersion::CorrectLicenseeFlag,
    }
}

/// UE5-era object-format revision shipped by each known release.
pub open spec fn object_version_ue5_of(r: EngineRelease) -> ObjectVersionUe5 {
    match r {
        EngineRelease::Unknown => ObjectVersionUe5::InitialVersion,
        EngineRelease::Ue4_24 => ObjectVersionUe5::InitialVersion,
        EngineRelease::Ue4_25 => ObjectVersionUe5::InitialVersion,
        EngineRelease::Ue4_26 => ObjectVersionUe5::InitialVersion,
        EngineRelease::Ue4_27 => ObjectVersionUe5::InitialVersion,
        EngineRelease::Ue5_0 => ObjectVersionUe5::LargeWorldCoordinates,
        EngineRelease::Ue5_1 => ObjectVersionUe5::DataResources,
        EngineRelease::Ue5_2 => ObjectVersionUe5::DataResources,
        EngineRelease::Ue5_3 => ObjectVersionUe5::ScriptSerializationOffset,
        EngineRelease::Ue5_4 => ObjectVersionUe5::PropertyTagCompleteTypeName,
        EngineRelease::Ue5_5 => ObjectVersionUe5::AssetRegistryPackageBuildDependencies,
    }
}

/// Feature identifier of the editor object-format feature stream.
pub open spec fn editor_feature_guid() -> Seq<u8> {
    seq![
        0xe4u8,
        0x4b,
        0x49,
        0x9a,
        0x7f,
        0xa9,
        0x01,
        0x44,
        0x8b,
        0x9d,
        0x9d,
        0xe8,
        0x9b,
        0x03,
        0x62,
        0x94,
    ]
}

/// Feature identifier of the UE5 mainstream object-format feature stream.
pub open spec fn ue5_main_feature_guid() -> Seq<u8> {
    seq![
        0x71u8,
        0x44,
        0x77,
        0x69,
        0xf3,
        0x48,
        0x68,
        0x41,
        0x9a,
        0x47,
        0x91,
        0x34,
        0x6b,
        0x65,
        0x76,
        0x9c,
    ]
}

/// Revision of the editor feature stream shipped by each known release.
pub open spec fn editor_feature_revision_of(r: EngineRelease) -> i32 {
    match r {
        EngineRelease::Unknown => 0,
        EngineRelease::Ue4_24 => 36,
        EngineRelease::Ue4_25 => 37,
        EngineRelease::Ue4_26 => 38,
        EngineRelease::Ue4_27 => 40,
        EngineRelease::Ue5_0 => 41,
        EngineRelease::Ue5_1 => 42,
        EngineRelease::Ue5_2 => 43,
        EngineRelease::Ue5_3 => 44,
        EngineRelease::Ue5_4 => 45,
        EngineRelease::Ue5_5 => 46,
    }
}

/// Revision of the UE5 mainstream feature stream shipped by each known
/// release; zero for releases predating it.
pub open spec fn ue5_main_feature_revision_of(r: EngineRelease) -> i32 {
    match r {
        EngineRelease::Unknown => 0,
        EngineRelease::Ue4_24 => 0,
        EngineRelease::Ue4_25 => 0,
        EngineRelease::Ue4_26 => 0,
        EngineRelease::Ue4_27 => 0,
        EngineRelease::Ue5_0 => 71,
        EngineRelease::Ue5_1 => 94,
        EngineRelease::Ue5_2 => 103,
        EngineRelease::Ue5_3 => 109,
        EngineRelease::Ue5_4 => 114,
        EngineRelease::Ue5_5 => 119,
    }
}

/// The custom-version table that resolution hands each session: one entry
/// per tracked feature stream, with the revision the release shipped.
pub open spec fn session_custom_versions(r: EngineRelease) -> Seq<CustomVersionView> {
    seq![
        CustomVersionView {
            feature_guid: editor_feature_guid(),
            revision: editor_feature_revision_of(r),
        },
        CustomVersionView {
            feature_guid: ue5_main_feature_guid(),
            revision: ue5_main_feature_revision_of(r),
        },
    ]
}

/// Resolves a requested engine release to its three-axis version context
/// plus the release's custom-version table.
///
/// Pure table lookup: no I/O.  An unknown release is rejected before any
/// decoding or encoding begins.
pub fn resolve_version_context(release: EngineRelease) -> (r: Result<VersionContext, Error>)
    ensures
        (r is Ok) <==> release != EngineRelease::Unknown,
        r matches Ok(c) ==> {
            &&& c.wf()
            &&& c.registry_version == registry_version_of(release)
            &&& c.object_version == object_version_of(release)
            &&& c.object_version_ue5 == object_version_ue5_of(release)
            &&& cv_views(c.custom_versions@) == session_custom_versions(release)
        },
        r matches Err(e) ==> e == Error::UnsupportedVersion,
{
    if release == EngineRelease::Unknown {
        return Err(Error::UnsupportedVersion);
    }
    let registry_version = match release {
        EngineRelease::Unknown => RegistryVersion::PreVersioning,
        EngineRelease::Ue4_24 => RegistryVersion::AddedDependencyFlags,
        EngineRelease::Ue4_25 => RegistryVersion::FixedTags,
        EngineRelease::Ue4_26 => RegistryVersion::FixedTags,
        EngineRelease::Ue4_27 => RegistryVersion::FixedTags,
        EngineRelease::Ue5_0 => RegistryVersion::ObjectResourceOptionalVersion,
        EngineRelease::Ue5_1 => RegistryVersion::AddedChunkHashes,
        EngineRelease::Ue5_2 => RegistryVersion::AddedChunkHashes,
        EngineRelease::Ue5_3 => RegistryVersion::AddedChunkHashes,
        EngineRelease::Ue5_4 => RegistryVersion::AddedChunkHashes,
        EngineRelease::Ue5_5 => RegistryVersion::AddedChunkHashes,
    };
    let object_version = match release {
        EngineRelease::Unknown => ObjectVersion::OldestLoadablePackage,
        EngineRelease::Ue4_24 => ObjectVersion::AddedPackageOwner,
        EngineRelease::Ue4_25 => ObjectVersion::NonOuterPackageImport,
        _ => ObjectVersion::CorrectLicenseeFlag,
    };
    let object_version_ue5 = match release {
        EngineRelease::Unknown => ObjectVersionUe5::InitialVersion,
        EngineRelease::Ue4_24 => ObjectVersionUe5::InitialVersion,
        EngineRelease::Ue4_25 => ObjectVersionUe5::InitialVersion,
        EngineRelease::Ue4_26 => ObjectVersionUe5::InitialVersion,
        EngineRelease::Ue4_27 => ObjectVersionUe5::InitialVersion,
        EngineRelease::Ue5_0 => ObjectVersionUe5::LargeWorldCoordinates,
        EngineRelease::Ue5_1 => ObjectVersionUe5::DataResources,
        EngineRelease::Ue5_2 => ObjectVersionUe5::DataResources,
        EngineRelease::Ue5_3 => ObjectVersionUe5::ScriptSerializationOffset,
        EngineRelease::Ue5_4 => ObjectVersionUe5::PropertyTagCompleteTypeName,
        EngineRelease::Ue5_5 => ObjectVersionUe5::AssetRegistryPackageBuildDependencies,
    };
    let editor_revision = match release {
        EngineRelease::Unknown => 0,
        EngineRelease::Ue4_24 => 36,
        EngineRelease::Ue4_25 => 37,
        EngineRelease::Ue4_26 => 38,
        EngineRelease::Ue4_27 => 40,
        EngineRelease::Ue5_0 => 41,
        EngineRelease::Ue5_1 => 42,
        EngineRelease::Ue5_2 => 43,
        EngineRelease::Ue5_3 => 44,
        EngineRelease::Ue5_4 => 45,
        EngineRelease::Ue5_5 => 46,
    };
    let main_revision = match release {
        EngineRelease::Unknown => 0,
        EngineRelease::Ue4_24 => 0,
        EngineRelease::Ue4_25 => 0,
        EngineRelease::Ue4_26 => 0,
        EngineRelease::Ue4_27 => 0,
        EngineRelease::Ue5_0 => 71,
        EngineRelease::Ue5_1 => 94,
        EngineRelease::Ue5_2 => 103,
        EngineRelease::Ue5_3 => 109,
        EngineRelease::Ue5_4 => 114,
        EngineRelease::Ue5_5 => 119,
    };
    let editor_guid = Guid {
        bytes: vec![
            0xe4u8, 0x4b, 0x49, 0x9a, 0x7f, 0xa9, 0x01, 0x44, 0x8b, 0x9d, 0x9d, 0xe8, 0x9b, 0x03,
            0x62, 0x94,
        ],
    };
    let main_guid = Guid {
        bytes: vec![
            0x71u8, 0x44, 0x77, 0x69, 0xf3, 0x48, 0x68, 0x41, 0x9a, 0x47, 0x91, 0x34, 0x6b, 0x65,
            0x76, 0x9c,
        ],
    };
    assert(editor_guid@ =~= editor_feature_guid());
    assert(main_guid@ =~= ue5_main_feature_guid());
    let mut custom_versions: Vec<CustomVersionEntry> = Vec::new();
    custom_versions.push(CustomVersionEntry { feature_guid: editor_guid, revision: editor_revision });
    custom_versions.push(CustomVersionEntry { feature_guid: main_guid, revision: main_revision });
    let c = VersionContext { registry_version, object_version, object_version_ue5, custom_versions };
    proof {
        assert(editor_feature_guid()[0] != ue5_main_feature_guid()[0]);
        assert(cv_views(c.custom_versions@) =~= session_custom_versions(release));
        assert forall|i: int, j: int|
            0 <= i < j < c.custom_versions@.len() implies (#[trigger] c.custom_versions@[i])@
            .feature_guid != (#[trigger] c.custom_versions@[j])@.feature_guid by {
            assert(i == 0 && j == 1);
        }
    }
    Ok(c)
}

} // verus!
