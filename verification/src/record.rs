//! The package metadata record and its versioned codec.
//!
//! Fields are read strictly in declaration order; before each optional field
//! the relevant version axis is compared against the field's threshold, and
//! a failed comparison leaves the field absent — no bytes are skipped,
//! because older revisions never wrote them.  Encoding mirrors the decode
//! order exactly: a required field that is absent is a data-integrity error
//! reported before any byte is written, and a field whose gate does not hold
//! is not written regardless of the value in memory.

use vstd::prelude::*;

use crate::archive::ArchiveReader;
use crate::archive::ArchiveWriter;
use crate::error::Error;
use crate::error::FieldKind;
use crate::names::Name;
use crate::names::NameTable;
use crate::version::CustomVersionEntry;
use crate::version::cv_views;
use crate::version::CustomVersionView;
use crate::version::Guid;
use crate::version::ObjectVersionUe5;
use crate::version::RegistryVersion;
use crate::version::VersionContext;
use crate::wire::enc_i32;
use crate::wire::enc_i64;
use crate::wire::enc_u32;
use crate::wire::i32_at;
use crate::wire::i64_at;
use crate::wire::lemma_i32_at;
use crate::wire::lemma_i64_at;
use crate::wire::lemma_u32_at;
use crate::wire::u32_at;

verus! {

/// A fixed sixteen-byte content digest, present only when the registry
/// format is new enough to carry it.
#[derive(Debug, Clone, PartialEq, Eq)]
pub struct Md5Hash {
    pub bytes: Vec<u8>,
}

impl Md5Hash {
    /// A digest is exactly sixteen bytes.
    pub open spec fn wf(self) -> bool {
        self.bytes@.len() == 16
    }
}

impl View for Md5Hash {
    type V = Seq<u8>;

    open spec fn view(&self) -> Seq<u8> {
        self.bytes@
    }
}

/// Per-package metadata as stored in the asset registry.  Every `Option`
/// field is version-gated: absent fields were never on the wire.
#[derive(Debug, Clone, PartialEq, Eq)]
pub struct AssetPackageData {
    /// Package name.
    pub package_name: Name,
    /// Package guid.
    pub package_guid: Guid,
    /// Cooked hash.
    pub cooked_hash: Option<Md5Hash>,
    /// Imported classes.
    pub imported_classes: Option<Vec<Name>>,
    /// Size on disk.
    pub disk_size: i64,
    /// File version; on the wire only at `WorkspaceDomain` and above.
    pub file_version: Option<i32>,
    /// UE5 file version.
    pub ue5_version: Option<i32>,
    /// File version licensee; gated with the file version.
    pub file_version_licensee_ue: Option<i32>,
    /// Custom versions.
    pub custom_versions: Option<Vec<CustomVersionEntry>>,
    /// Flags; gated with the file version.
    pub flags: Option<u32>,
    /// Package build dependencies.
    pub package_build_dependencies: Option<Vec<Name>>,
}

/// Mathematical value of an [`AssetPackageData`].
pub ghost struct PackageDataView {
    pub package_name: Name,
    pub package_guid: Seq<u8>,
    pub cooked_hash: Option<Seq<u8>>,
    pub imported_classes: Option<Seq<Name>>,
    pub disk_size: i64,
    pub file_version: Option<i32>,
    pub ue5_version: Option<i32>,
    pub file_version_licensee_ue: Option<i32>,
    pub custom_versions: Option<Seq<CustomVersionView>>,
    pub flags: Option<u32>,
    pub package_build_dependencies: Option<Seq<Name>>,
}

impl View for AssetPackageData {
    type V = PackageDataView;

    open spec fn view(&self) -> PackageDataView {
        PackageDataView {
            package_name: self.package_name,
            package_guid: self.package_guid@,
            cooked_hash: match self.cooked_hash {
                Some(h) => Some(h@),
                None => None,
            },
            imported_classes: match self.imported_classes {
                Some(v) => Some(v@),
                None => None,
            },
            disk_size: self.disk_size,
            file_version: self.file_version,
            ue5_version: self.ue5_version,
            file_version_licensee_ue: self.file_version_licensee_ue,
            custom_versions: match self.custom_versions {
                Some(v) => Some(cv_views(v@)),
                None => None,
            },
            flags: self.flags,
            package_build_dependencies: match self.package_build_dependencies {
                Some(v) => Some(v@),
                None => None,
            },
        }
    }
}

// ---------------------------------------------------------------------------
// Field gates
// ---------------------------------------------------------------------------
/// The cooked hash rides along once the registry format gained it.
pub open spec fn gate_cooked_hash(ctx: VersionContext) -> bool {
    ctx.registry_version.ordinal() >= RegistryVersion::AddedCookedMD5Hash.ordinal()
}

/// The file-version pair, flags and custom-version manifest share one gate.
pub open spec fn gate_file_versions(ctx: VersionContext) -> bool {
    ctx.registry_version.ordinal() >= RegistryVersion::WorkspaceDomain.ordinal()
}

/// The UE5 file version is nested inside the file-version gate: it exists
/// only in revisions that also satisfy the outer gate, so the two
/// comparisons form a single compound gate.
pub open spec fn gate_ue5_version(ctx: VersionContext) -> bool {
    gate_file_versions(ctx) && ctx.registry_version.ordinal()
        >= RegistryVersion::PackageFileSummaryVersionChange.ordinal()
}

/// The imported-class list has its own registry threshold.
pub open spec fn gate_imported_classes(ctx: VersionContext) -> bool {
    ctx.registry_version.ordinal() >= RegistryVersion::PackageImportedClasses.ordinal()
}

/// The build-dependency list is gated on the UE5 object-format axis, not on
/// the registry axis.
pub open spec fn gate_build_dependencies(ctx: VersionContext) -> bool {
    ctx.object_version_ue5.ordinal()
        >= ObjectVersionUe5::AssetRegistryPackageBuildDependencies.ordinal()
}

// ---------------------------------------------------------------------------
// Presence policy
// ---------------------------------------------------------------------------
/// A value where present, or a stand-in where absent.
pub open spec fn opt_or<T>(o: Option<T>, d: T) -> T {
    match o {
        Some(x) => x,
        None => d,
    }
}

/// Strict gate-consistency: every version-gated field is present exactly
/// when its gate holds.  Decoding always yields a consistent record.
pub open spec fn consistent(v: PackageDataView, ctx: VersionContext) -> bool {
    &&& (v.cooked_hash is Some) == gate_cooked_hash(ctx)
    &&& (v.file_version is Some) == gate_file_versions(ctx)
    &&& (v.ue5_version is Some) == gate_ue5_version(ctx)
    &&& (v.file_version_licensee_ue is Some) == gate_file_versions(ctx)
    &&& (v.flags is Some) == gate_file_versions(ctx)
    &&& (v.custom_versions is Some) == gate_file_versions(ctx)
    &&& (v.imported_classes is Some) == gate_imported_classes(ctx)
    &&& (v.package_build_dependencies is Some) == gate_build_dependencies(ctx)
}

/// What encoding demands: every gated field whose gate holds must be
/// present.  The build-dependency list is deliberately exempt — when it is
/// absent but required, a zero-length sequence is written instead.
pub open spec fn required_present(v: PackageDataView, ctx: VersionContext) -> bool {
    &&& gate_cooked_hash(ctx) ==> v.cooked_hash is Some
    &&& gate_file_versions(ctx) ==> v.file_version is Some
    &&& gate_ue5_version(ctx) ==> v.ue5_version is Some
    &&& gate_file_versions(ctx) ==> v.file_version_licensee_ue is Some
    &&& gate_file_versions(ctx) ==> v.flags is Some
    &&& gate_file_versions(ctx) ==> v.custom_versions is Some
    &&& gate_imported_classes(ctx) ==> v.imported_classes is Some
}

/// The first field, in wire order, that is absent although required.
pub open spec fn first_missing(v: PackageDataView, ctx: VersionContext) -> FieldKind {
    if gate_cooked_hash(ctx) && v.cooked_hash is None {
        FieldKind::CookedHash
    } else if gate_file_versions(ctx) && v.file_version is None {
        FieldKind::FileVersion
    } else if gate_ue5_version(ctx) && v.ue5_version is None {
        FieldKind::Ue5Version
    } else if gate_file_versions(ctx) && v.file_version_licensee_ue is None {
        FieldKind::FileVersionLicensee
    } else if gate_file_versions(ctx) && v.flags is None {
        FieldKind::Flags
    } else if gate_file_versions(ctx) && v.custom_versions is None {
        FieldKind::CustomVersions
    } else {
        FieldKind::ImportedClasses
    }
}

/// The registry threshold whose gate requires each field.
pub open spec fn threshold_of(f: FieldKind) -> RegistryVersion {
    match f {
        FieldKind::CookedHash => RegistryVersion::AddedCookedMD5Hash,
        FieldKind::FileVersion => RegistryVersion::WorkspaceDomain,
        FieldKind::Ue5Version => RegistryVersion::PackageFileSummaryVersionChange,
        FieldKind::FileVersionLicensee => RegistryVersion::WorkspaceDomain,
        FieldKind::Flags => RegistryVersion::WorkspaceDomain,
        FieldKind::CustomVersions => RegistryVersion::WorkspaceDomain,
        FieldKind::ImportedClasses => RegistryVersion::PackageImportedClasses,
    }
}

/// Every raw byte run in the record has its fixed width.
pub open spec fn sizes_ok(v: PackageDataView) -> bool {
    &&& v.package_guid.len() == 16
    &&& (v.cooked_hash matches Some(h) ==> h.len() == 16)
    &&& (v.custom_versions matches Some(s) ==> forall|i: int|
        0 <= i < s.len() ==> (#[trigger] s[i]).feature_guid.len() == 16)
}

/// Every sequence is short enough for its signed 32-bit count field.
pub open spec fn counts_ok(v: PackageDataView) -> bool {
    &&& (v.custom_versions matches Some(s) ==> s.len() <= 0x7fff_ffff)
    &&& (v.imported_classes matches Some(s) ==> s.len() <= 0x7fff_ffff)
    &&& (v.package_build_dependencies matches Some(s) ==> s.len() <= 0x7fff_ffff)
}

impl AssetPackageData {
    /// Structural well-formedness: byte runs have their fixed widths and
    /// sequence lengths fit their wire count fields.
    pub open spec fn wf(self) -> bool {
        sizes_ok(self@) && counts_ok(self@)
    }
}

// ---------------------------------------------------------------------------
// Byte image of a record
// ---------------------------------------------------------------------------
/// Byte image of a name: pool index then instance number.
pub open spec fn enc_name(n: Name) -> Seq<u8> {
    enc_u32(n.pool_index) + enc_u32(n.instance_number)
}

/// Byte image of a custom-version entry: feature guid then revision.
pub open spec fn enc_cv(e: CustomVersionView) -> Seq<u8> {
    e.feature_guid + enc_i32(e.revision)
}

/// Byte image of a run of names, in order.
pub open spec fn enc_names(s: Seq<Name>) -> Seq<u8>
    decreases s.len(),
{
    if s.len() == 0 {
        Seq::empty()
    } else {
        enc_names(s.drop_last()) + enc_name(s.last())
    }
}

/// Byte image of a run of custom-version entries, in order.
pub open spec fn enc_cvs(s: Seq<CustomVersionView>) -> Seq<u8>
    decreases s.len(),
{
    if s.len() == 0 {
        Seq::empty()
    } else {
        enc_cvs(s.drop_last()) + enc_cv(s.last())
    }
}

/// The cooked-hash segment: sixteen digest bytes when gated in.
pub open spec fn hash_bytes(v: PackageDataView, ctx: VersionContext) -> Seq<u8> {
    if gate_cooked_hash(ctx) {
        opt_or(v.cooked_hash, Seq::empty())
    } else {
        Seq::empty()
    }
}

/// The file-version block: file version, nested UE5 version, licensee
/// version, flags, and the counted custom-version manifest.
pub open spec fn file_block_bytes(v: PackageDataView, ctx: VersionContext) -> Seq<u8> {
    if gate_file_versions(ctx) {
        let cvs = opt_or(v.custom_versions, Seq::empty());
        enc_i32(opt_or(v.file_version, 0)) + (if gate_ue5_version(ctx) {
            enc_i32(opt_or(v.ue5_version, 0))
        } else {
            Seq::empty()
        }) + enc_i32(opt_or(v.file_version_licensee_ue, 0)) + enc_u32(opt_or(v.flags, 0))
            + enc_u32(cvs.len() as u32) + enc_cvs(cvs)
    } else {
        Seq::empty()
    }
}

/// The imported-class segment: a counted run of names when gated in.
pub open spec fn classes_bytes(v: PackageDataView, ctx: VersionContext) -> Seq<u8> {
    if gate_imported_classes(ctx) {
        let s = opt_or(v.imported_classes, Seq::empty());
        enc_u32(s.len() as u32) + enc_names(s)
    } else {
        Seq::empty()
    }
}

/// The build-dependency segment.  An absent list under a holding gate falls
/// back to a zero-length count rather than an error.
pub open spec fn deps_bytes(v: PackageDataView, ctx: VersionContext) -> Seq<u8> {
    if gate_build_dependencies(ctx) {
        let s = opt_or(v.package_build_dependencies, Seq::empty());
        enc_u32(s.len() as u32) + enc_names(s)
    } else {
        Seq::empty()
    }
}

/// The full byte image of a record under a version context: what encoding
/// emits, and what decoding under the same context reads back.
pub open spec fn encoded(v: PackageDataView, ctx: VersionContext) -> Seq<u8> {
    enc_name(v.package_name) + enc_i64(v.disk_size) + v.package_guid + hash_bytes(v, ctx)
        + file_block_bytes(v, ctx) + classes_bytes(v, ctx) + deps_bytes(v, ctx)
}

// ---------------------------------------------------------------------------
// Parsing a byte stream
// ---------------------------------------------------------------------------
/// Width of the file-version pair: four bytes, or eight with the nested UE5
/// version.
pub open spec fn file_width(ctx: VersionContext) -> int {
    if gate_ue5_version(ctx) {
        8
    } else {
        4
    }
}

/// Offset of the file-version block: name, disk size and guid are always
/// thirty-two bytes, plus sixteen when the cooked hash is gated in.
pub open spec fn off_file(ctx: VersionContext, s: int) -> int {
    s + 32 + if gate_cooked_hash(ctx) {
        16int
    } else {
        0int
    }
}

/// The custom-version count field, as a signed value.
pub open spec fn cv_count(b: Seq<u8>, ctx: VersionContext, s: int) -> int {
    i32_at(b, off_file(ctx, s) + file_width(ctx) + 8) as int
}

/// Offset of the imported-class segment.
pub open spec fn off_classes(b: Seq<u8>, ctx: VersionContext, s: int) -> int {
    if gate_file_versions(ctx) {
        off_file(ctx, s) + file_width(ctx) + 12 + 20 * cv_count(b, ctx, s)
    } else {
        off_file(ctx, s)
    }
}

/// The imported-class count field, as a signed value.
pub open spec fn cls_count(b: Seq<u8>, ctx: VersionContext, s: int) -> int {
    i32_at(b, off_classes(b, ctx, s)) as int
}

/// Offset of the build-dependency segment.
pub open spec fn off_deps(b: Seq<u8>, ctx: VersionContext, s: int) -> int {
    if gate_imported_classes(ctx) {
        off_classes(b, ctx, s) + 4 + 8 * cls_count(b, ctx, s)
    } else {
        off_classes(b, ctx, s)
    }
}

/// The build-dependency count field, as a signed value.
pub open spec fn deps_count(b: Seq<u8>, ctx: VersionContext, s: int) -> int {
    i32_at(b, off_deps(b, ctx, s)) as int
}

/// One past the last byte of the record that starts at `s`.
pub open spec fn parsed_end(b: Seq<u8>, ctx: VersionContext, s: int) -> int {
    if gate_build_dependencies(ctx) {
        off_deps(b, ctx, s) + 4 + 8 * deps_count(b, ctx, s)
    } else {
        off_deps(b, ctx, s)
    }
}

/// Whether a record can be decoded from `b` at `s` under `ctx`: every
/// segment lies within the stream and every count field is non-negative.
pub open spec fn parse_ok(b: Seq<u8>, ctx: VersionContext, s: int) -> bool {
    &&& 0 <= s
    &&& off_file(ctx, s) <= b.len()
    &&& (gate_file_versions(ctx) ==> {
        &&& off_file(ctx, s) + file_width(ctx) + 12 <= b.len()
        &&& cv_count(b, ctx, s) >= 0
        &&& off_classes(b, ctx, s) <= b.len()
    })
    &&& (gate_imported_classes(ctx) ==> {
        &&& off_classes(b, ctx, s) + 4 <= b.len()
        &&& cls_count(b, ctx, s) >= 0
        &&& off_deps(b, ctx, s) <= b.len()
    })
    &&& (gate_build_dependencies(ctx) ==> {
        &&& off_deps(b, ctx, s) + 4 <= b.len()
        &&& deps_count(b, ctx, s) >= 0
        &&& parsed_end(b, ctx, s) <= b.len()
    })
}

/// The name found at offset `i`.
pub open spec fn name_at(b: Seq<u8>, i: int) -> Name {
    Name { pool_index: u32_at(b, i), instance_number: u32_at(b, i + 4) }
}

/// The custom-version entry found at offset `i`.
pub open spec fn cv_at(b: Seq<u8>, i: int) -> CustomVersionView {
    CustomVersionView { feature_guid: b.subrange(i, i + 16), revision: i32_at(b, i + 16) }
}

/// The `n` names found at offset `i`, eight bytes apart.
pub open spec fn names_at(b: Seq<u8>, i: int, n: int) -> Seq<Name> {
    Seq::new(n as nat, |k: int| name_at(b, i + 8 * k))
}

/// The `n` custom-version entries found at offset `i`, twenty bytes apart.
pub open spec fn cvs_at(b: Seq<u8>, i: int, n: int) -> Seq<CustomVersionView> {
    Seq::new(n as nat, |k: int| cv_at(b, i + 20 * k))
}

/// The record value read from `b` at `s` under `ctx`: a field whose gate
/// fails is left absent, never defaulted and never skipped over.
pub open spec fn parsed(b: Seq<u8>, ctx: VersionContext, s: int) -> PackageDataView {
    PackageDataView {
        package_name: name_at(b, s),
        disk_size: i64_at(b, s + 8),
        package_guid: b.subrange(s + 16, s + 32),
        cooked_hash: if gate_cooked_hash(ctx) {
            Some(b.subrange(s + 32, s + 48))
        } else {
            None
        },
        file_version: if gate_file_versions(ctx) {
            Some(i32_at(b, off_file(ctx, s)))
        } else {
            None
        },
        ue5_version: if gate_ue5_version(ctx) {
            Some(i32_at(b, off_file(ctx, s) + 4))
        } else {
            None
        },
        file_version_licensee_ue: if gate_file_versions(ctx) {
            Some(i32_at(b, off_file(ctx, s) + file_width(ctx)))
        } else {
            None
        },
        flags: if gate_file_versions(ctx) {
            Some(u32_at(b, off_file(ctx, s) + file_width(ctx) + 4))
        } else {
            None
        },
        custom_versions: if gate_file_versions(ctx) {
            Some(cvs_at(b, off_file(ctx, s) + file_width(ctx) + 12, cv_count(b, ctx, s)))
        } else {
            None
        },
        imported_classes: if gate_imported_classes(ctx) {
            Some(names_at(b, off_classes(b, ctx, s) + 4, cls_count(b, ctx, s)))
        } else {
            None
        },
        package_build_dependencies: if gate_build_dependencies(ctx) {
            Some(names_at(b, off_deps(b, ctx, s) + 4, deps_count(b, ctx, s)))
        } else {
            None
        },
    }
}

/// Appending one more name extends the byte image by that name's bytes.
proof fn lemma_enc_names_step(s: Seq<Name>, i: int)
    requires
        0 <= i < s.len(),
    ensures
        enc_names(s.take(i + 1)) == enc_names(s.take(i)) + enc_name(s[i]),
{
    assert(s.take(i + 1).drop_last() =~= s.take(i));
    assert(s.take(i + 1).last() == s[i]);
}

/// Appending one more entry extends the byte image by that entry's bytes.
proof fn lemma_enc_cvs_step(s: Seq<CustomVersionView>, i: int)
    requires
        0 <= i < s.len(),
    ensures
        enc_cvs(s.take(i + 1)) == enc_cvs(s.take(i)) + enc_cv(s[i]),
{
    assert(s.take(i + 1).drop_last() =~= s.take(i));
    assert(s.take(i + 1).last() == s[i]);
}

/// Writes a counted run of names: the count as a signed 32-bit value, then
/// each name in order.
fn write_name_run(archive: &mut ArchiveWriter, names: &Vec<Name>)
    requires
        names@.len() <= 0x7fff_ffff,
    ensures
        final(archive).stream() == old(archive).stream() + enc_u32(names@.len() as u32)
            + enc_names(names@),
{
    let n = names.len();
    archive.write_i32(n as i32);
    assert(enc_i32(n as i32) == enc_u32(n as u32));
    let ghost pre = archive.stream();
    let mut i: usize = 0;
    while i < n
        invariant
            0 <= i <= n,
            n == names@.len(),
            archive.stream() == pre + enc_names(names@.take(i as int)),
        decreases n - i,
    {
        archive.write_u32(names[i].pool_index);
        archive.write_u32(names[i].instance_number);
        proof {
            lemma_enc_names_step(names@, i as int);
            assert(archive.stream() =~= pre + enc_names(names@.take(i as int + 1)));
        }
        i = i + 1;
    }
    assert(names@.take(n as int) =~= names@);
}

/// A run of names occupies eight bytes per name.
proof fn lemma_enc_names_len(s: Seq<Name>)
    ensures
        enc_names(s).len() == 8 * s.len(),
    decreases s.len(),
{
    if s.len() > 0 {
        lemma_enc_names_len(s.drop_last());
    }
}

/// A run of custom-version entries occupies twenty bytes per entry.
proof fn lemma_enc_cvs_len(s: Seq<CustomVersionView>)
    requires
        forall|i: int| 0 <= i < s.len() ==> (#[trigger] s[i]).feature_guid.len() == 16,
    ensures
        enc_cvs(s).len() == 20 * s.len(),
    decreases s.len(),
{
    if s.len() > 0 {
        lemma_enc_cvs_len(s.drop_last());
    }
}

/// The bytes of the `k`-th name of a run are that name's byte image.
proof fn lemma_enc_names_index(s: Seq<Name>, k: int)
    requires
        0 <= k < s.len(),
    ensures
        enc_names(s).subrange(8 * k, 8 * k + 8) == enc_name(s[k]),
    decreases s.len(),
{
    lemma_enc_names_len(s);
    lemma_enc_names_len(s.drop_last());
    if k == s.len() - 1 {
        assert(enc_names(s).subrange(8 * k, 8 * k + 8) =~= enc_name(s[k]));
    } else {
        lemma_enc_names_index(s.drop_last(), k);
        assert(enc_names(s).subrange(8 * k, 8 * k + 8) =~= enc_names(s.drop_last()).subrange(
            8 * k,
            8 * k + 8,
        ));
    }
}

/// The bytes of the `k`-th entry of a run are that entry's byte image.
proof fn lemma_enc_cvs_index(s: Seq<CustomVersionView>, k: int)
    requires
        0 <= k < s.len(),
        forall|i: int| 0 <= i < s.len() ==> (#[trigger] s[i]).feature_guid.len() == 16,
    ensures
        enc_cvs(s).subrange(20 * k, 20 * k + 20) == enc_cv(s[k]),
    decreases s.len(),
{
    lemma_enc_cvs_len(s);
    lemma_enc_cvs_len(s.drop_last());
    if k == s.len() - 1 {
        assert(enc_cvs(s).subrange(20 * k, 20 * k + 20) =~= enc_cv(s[k]));
    } else {
        lemma_enc_cvs_index(s.drop_last(), k);
        assert(enc_cvs(s).subrange(20 * k, 20 * k + 20) =~= enc_cvs(s.drop_last()).subrange(
            20 * k,
            20 * k + 20,
        ));
    }
}

/// A window into a stream whose bytes at `p` are `e` reads back as the same
/// window into `e`.
proof fn lemma_subrange_shift(b: Seq<u8>, e: Seq<u8>, p: int, o: int, l: int)
    requires
        0 <= p,
        0 <= o,
        0 <= l,
        o + l <= e.len(),
        p + e.len() <= b.len(),
        b.subrange(p, p + e.len()) == e,
    ensures
        b.subrange(p + o, p + o + l) == e.subrange(o, o + l),
{
    assert forall|j: int| p <= j < p + e.len() implies #[trigger] b[j] == e[j - p] by {
        assert(b.subrange(p, p + e.len())[j - p] == b[j]);
    }
    assert(b.subrange(p + o, p + o + l) =~= e.subrange(o, o + l));
}

/// Names read back from the byte image of a run are the run itself.
proof fn lemma_name_run_at(b: Seq<u8>, p: int, s: Seq<Name>)
    requires
        0 <= p,
        p + 8 * s.len() <= b.len(),
        b.subrange(p, p + 8 * s.len()) == enc_names(s),
    ensures
        names_at(b, p, s.len() as int) == s,
{
    lemma_enc_names_len(s);
    assert forall|k: int| 0 <= k < s.len() implies name_at(b, p + 8 * k) == s[k] by {
        lemma_enc_names_index(s, k);
        lemma_subrange_shift(b, enc_names(s), p, 8 * k, 8);
        let nb = enc_names(s).subrange(8 * k, 8 * k + 8);
        assert(nb.subrange(0, 4) =~= enc_u32(s[k].pool_index));
        assert(nb.subrange(4, 8) =~= enc_u32(s[k].instance_number));
        lemma_subrange_shift(b, nb, p + 8 * k, 0, 4);
        lemma_subrange_shift(b, nb, p + 8 * k, 4, 4);
        lemma_u32_at(b, p + 8 * k, s[k].pool_index);
        lemma_u32_at(b, p + 8 * k + 4, s[k].instance_number);
    }
    assert(names_at(b, p, s.len() as int) =~= s);
}

/// Entries read back from the byte image of a run are the run itself.
proof fn lemma_cv_run_at(b: Seq<u8>, p: int, s: Seq<CustomVersionView>)
    requires
        0 <= p,
        p + 20 * s.len() <= b.len(),
        forall|i: int| 0 <= i < s.len() ==> (#[trigger] s[i]).feature_guid.len() == 16,
        b.subrange(p, p + 20 * s.len()) == enc_cvs(s),
    ensures
        cvs_at(b, p, s.len() as int) == s,
{
    lemma_enc_cvs_len(s);
    assert forall|k: int| 0 <= k < s.len() implies cv_at(b, p + 20 * k) == s[k] by {
        lemma_enc_cvs_index(s, k);
        lemma_subrange_shift(b, enc_cvs(s), p, 20 * k, 20);
        let eb = enc_cvs(s).subrange(20 * k, 20 * k + 20);
        assert(eb.subrange(0, 16) =~= s[k].feature_guid);
        assert(eb.subrange(16, 20) =~= enc_i32(s[k].revision));
        lemma_subrange_shift(b, eb, p + 20 * k, 0, 16);
        lemma_subrange_shift(b, eb, p + 20 * k, 16, 4);
        lemma_i32_at(b, p + 20 * k + 16, s[k].revision);
        assert(b.subrange(p + 20 * k, p + 20 * k + 16) == s[k].feature_guid);
    }
    assert(cvs_at(b, p, s.len() as int) =~= s);
}

/// Bytes of a segment embedded between a prefix and a suffix read back as
/// the segment itself.
proof fn lemma_embed(prefix: Seq<u8>, e: Seq<u8>, rest: Seq<u8>, o: int, l: int)
    requires
        0 <= o,
        0 <= l,
        o + l <= e.len(),
    ensures
        (prefix + e + rest).subrange(prefix.len() + o, prefix.len() + o + l) == e.subrange(
            o,
            o + l,
        ),
{
    assert((prefix + e + rest).subrange(prefix.len() + o, prefix.len() + o + l) =~= e.subrange(
        o,
        o + l,
    ));
}

/// Lengths of the four gated segments and of the whole byte image.
proof fn lemma_rt_lens(v: PackageDataView, ctx: VersionContext)
    requires
        consistent(v, ctx),
        sizes_ok(v),
    ensures
        hash_bytes(v, ctx).len() == (if gate_cooked_hash(ctx) { 16int } else { 0int }),
        file_block_bytes(v, ctx).len() == (if gate_file_versions(ctx) {
            file_width(ctx) + 12 + 20 * opt_or(v.custom_versions, Seq::<CustomVersionView>::empty()).len() as int
        } else {
            0int
        }),
        classes_bytes(v, ctx).len() == (if gate_imported_classes(ctx) {
            4 + 8 * opt_or(v.imported_classes, Seq::<Name>::empty()).len() as int
        } else {
            0int
        }),
        deps_bytes(v, ctx).len() == (if gate_build_dependencies(ctx) {
            4 + 8 * opt_or(v.package_build_dependencies, Seq::<Name>::empty()).len() as int
        } else {
            0int
        }),
        encoded(v, ctx).len() == 32 + hash_bytes(v, ctx).len() + file_block_bytes(v, ctx).len()
            + classes_bytes(v, ctx).len() + deps_bytes(v, ctx).len(),
{
    let cvs = opt_or(v.custom_versions, Seq::<CustomVersionView>::empty());
    assert(forall|i: int| 0 <= i < cvs.len() ==> (#[trigger] cvs[i]).feature_guid.len() == 16);
    lemma_enc_cvs_len(cvs);
    lemma_enc_names_len(opt_or(v.imported_classes, Seq::<Name>::empty()));
    lemma_enc_names_len(opt_or(v.package_build_dependencies, Seq::<Name>::empty()));
}

/// The head of the byte image reads back as the head fields.
#[verifier::rlimit(100)]
proof fn lemma_rt_head(v: PackageDataView, ctx: VersionContext, prefix: Seq<u8>, rest: Seq<u8>)
    requires
        consistent(v, ctx),
        sizes_ok(v),
    ensures
        ({
            let b = prefix + encoded(v, ctx) + rest;
            let s = prefix.len() as int;
            &&& name_at(b, s) == v.package_name
            &&& i64_at(b, s + 8) == v.disk_size
            &&& b.subrange(s + 16, s + 32) == v.package_guid
            &&& (gate_cooked_hash(ctx) ==> b.subrange(s + 32, s + 48) == opt_or(
                v.cooked_hash,
                Seq::<u8>::empty(),
            ))
        }),
{
    let e = encoded(v, ctx);
    let b = prefix + e + rest;
    let s = prefix.len() as int;
    lemma_rt_lens(v, ctx);
    assert(b.subrange(s, s + e.len()) =~= e);
    assert(e.subrange(0, 4) =~= enc_u32(v.package_name.pool_index));
    lemma_subrange_shift(b, e, s, 0, 4);
    lemma_u32_at(b, s, v.package_name.pool_index);
    assert(e.subrange(4, 8) =~= enc_u32(v.package_name.instance_number));
    lemma_subrange_shift(b, e, s, 4, 4);
    lemma_u32_at(b, s + 4, v.package_name.instance_number);
    assert(e.subrange(8, 16) =~= enc_i64(v.disk_size));
    lemma_subrange_shift(b, e, s, 8, 8);
    lemma_i64_at(b, s + 8, v.disk_size);
    assert(e.subrange(16, 32) =~= v.package_guid);
    lemma_subrange_shift(b, e, s, 16, 16);
    if gate_cooked_hash(ctx) {
        assert(e.subrange(32, 48) =~= opt_or(v.cooked_hash, Seq::<u8>::empty()));
        lemma_subrange_shift(b, e, s, 32, 16);
    }
}

/// The file-version block of the byte image reads back as its fields.
#[verifier::rlimit(100)]
proof fn lemma_rt_file(v: PackageDataView, ctx: VersionContext, prefix: Seq<u8>, rest: Seq<u8>)
    requires
        consistent(v, ctx),
        sizes_ok(v),
        counts_ok(v),
        gate_file_versions(ctx),
    ensures
        ({
            let b = prefix + encoded(v, ctx) + rest;
            let s = prefix.len() as int;
            let foff = off_file(ctx, s);
            let fw = file_width(ctx);
            let cvs = opt_or(v.custom_versions, Seq::<CustomVersionView>::empty());
            &&& i32_at(b, foff) == opt_or(v.file_version, 0)
            &&& (gate_ue5_version(ctx) ==> i32_at(b, foff + 4) == opt_or(v.ue5_version, 0))
            &&& i32_at(b, foff + fw) == opt_or(v.file_version_licensee_ue, 0)
            &&& u32_at(b, foff + fw + 4) == opt_or(v.flags, 0)
            &&& cv_count(b, ctx, s) == cvs.len()
            &&& cvs_at(b, foff + fw + 12, cvs.len() as int) == cvs
            &&& off_classes(b, ctx, s) == foff + fw + 12 + 20 * cvs.len()
        }),
{
    let e = encoded(v, ctx);
    let b = prefix + e + rest;
    let s = prefix.len() as int;
    lemma_rt_lens(v, ctx);
    let cvs = opt_or(v.custom_versions, Seq::<CustomVersionView>::empty());
    assert(forall|i: int| 0 <= i < cvs.len() ==> (#[trigger] cvs[i]).feature_guid.len() == 16);
    let nc = cvs.len() as int;
    let foff = off_file(ctx, s);
    let fw = file_width(ctx);
    let fb: int = 32 + hash_bytes(v, ctx).len() as int;
    assert(foff == s + fb);
    assert(b.subrange(s, s + e.len()) =~= e);
    assert(e.subrange(fb, fb + 4) =~= enc_i32(opt_or(v.file_version, 0)));
    lemma_subrange_shift(b, e, s, fb, 4);
    lemma_i32_at(b, foff, opt_or(v.file_version, 0));
    if gate_ue5_version(ctx) {
        assert(e.subrange(fb + 4, fb + 8) =~= enc_i32(opt_or(v.ue5_version, 0)));
        lemma_subrange_shift(b, e, s, fb + 4, 4);
        lemma_i32_at(b, foff + 4, opt_or(v.ue5_version, 0));
    }
    assert(e.subrange(fb + fw, fb + fw + 4) =~= enc_i32(opt_or(v.file_version_licensee_ue, 0)));
    lemma_subrange_shift(b, e, s, fb + fw, 4);
    lemma_i32_at(b, foff + fw, opt_or(v.file_version_licensee_ue, 0));
    assert(e.subrange(fb + fw + 4, fb + fw + 8) =~= enc_u32(opt_or(v.flags, 0)));
    lemma_subrange_shift(b, e, s, fb + fw + 4, 4);
    lemma_u32_at(b, foff + fw + 4, opt_or(v.flags, 0));
    assert(e.subrange(fb + fw + 8, fb + fw + 12) =~= enc_u32(nc as u32));
    lemma_subrange_shift(b, e, s, fb + fw + 8, 4);
    lemma_u32_at(b, foff + fw + 8, nc as u32);
    assert(cv_count(b, ctx, s) == nc);
    assert(e.subrange(fb + fw + 12, fb + fw + 12 + 20 * nc) =~= enc_cvs(cvs));
    lemma_subrange_shift(b, e, s, fb + fw + 12, 20 * nc);
    lemma_cv_run_at(b, foff + fw + 12, cvs);
}

/// A counted name run inside the byte image reads back as its names; `rb`
/// is the offset of the run within the image and `cnt` its length.
proof fn lemma_rt_name_run(
    v: PackageDataView,
    ctx: VersionContext,
    prefix: Seq<u8>,
    rest: Seq<u8>,
    rb: int,
    names: Seq<Name>,
)
    requires
        0 <= rb,
        names.len() <= 0x7fff_ffff,
        rb + 4 + 8 * names.len() <= encoded(v, ctx).len(),
        encoded(v, ctx).subrange(rb, rb + 4) == enc_u32(names.len() as u32),
        encoded(v, ctx).subrange(rb + 4, rb + 4 + 8 * names.len()) == enc_names(names),
    ensures
        ({
            let b = prefix + encoded(v, ctx) + rest;
            let s = prefix.len() as int;
            &&& i32_at(b, s + rb) == names.len()
            &&& names_at(b, s + rb + 4, names.len() as int) == names
        }),
{
    let e = encoded(v, ctx);
    let b = prefix + e + rest;
    let s = prefix.len() as int;
    assert(b.subrange(s, s + e.len()) =~= e);
    lemma_subrange_shift(b, e, s, rb, 4);
    lemma_u32_at(b, s + rb, names.len() as u32);
    lemma_subrange_shift(b, e, s, rb + 4, 8 * names.len() as int);
    lemma_name_run_at(b, s + rb + 4, names);
}

/// Round trip: the byte image of any gate-consistent record, embedded at any
/// position of a stream, parses successfully under the same version context,
/// back to exactly the original value, consuming exactly its own bytes.
/// Together with the contracts of [`AssetPackageData::write`] and
/// [`AssetPackageData::new`], encoding followed by decoding under one
/// context returns the record unchanged.
#[verifier::rlimit(100)]
pub proof fn lemma_round_trip(
    v: PackageDataView,
    ctx: VersionContext,
    prefix: Seq<u8>,
    rest: Seq<u8>,
)
    requires
        consistent(v, ctx),
        sizes_ok(v),
        counts_ok(v),
    ensures
        ({
            let b = prefix + encoded(v, ctx) + rest;
            let s = prefix.len() as int;
            &&& parse_ok(b, ctx, s)
            &&& parsed(b, ctx, s) == v
            &&& parsed_end(b, ctx, s) == s + encoded(v, ctx).len()
        }),
{
    let b = prefix + encoded(v, ctx) + rest;
    let s = prefix.len() as int;
    lemma_rt_lens(v, ctx);
    lemma_rt_head(v, ctx, prefix, rest);
    let cls = opt_or(v.imported_classes, Seq::<Name>::empty());
    let dps = opt_or(v.package_build_dependencies, Seq::<Name>::empty());
    if gate_file_versions(ctx) {
        lemma_rt_file(v, ctx, prefix, rest);
    }
    lemma_rt_tail(v, ctx, prefix, rest);
    let cb: int = 32 + hash_bytes(v, ctx).len() as int + file_block_bytes(v, ctx).len() as int;
    let db: int = cb + classes_bytes(v, ctx).len() as int;
    assert(off_classes(b, ctx, s) == s + cb);
    if gate_imported_classes(ctx) {
        assert(cls_count(b, ctx, s) == cls.len());
        assert(off_deps(b, ctx, s) == s + db);
    }
    assert(off_deps(b, ctx, s) == s + db);
    if gate_build_dependencies(ctx) {
        assert(deps_count(b, ctx, s) == dps.len());
    }
    assert(parse_ok(b, ctx, s));
    assert(parsed_end(b, ctx, s) == s + encoded(v, ctx).len());
    assert(parsed(b, ctx, s) == v);
}

/// The two counted name runs at the tail of the byte image read back as
/// their lists.
#[verifier::rlimit(100)]
proof fn lemma_rt_tail(v: PackageDataView, ctx: VersionContext, prefix: Seq<u8>, rest: Seq<u8>)
    requires
        consistent(v, ctx),
        sizes_ok(v),
        counts_ok(v),
    ensures
        ({
            let b = prefix + encoded(v, ctx) + rest;
            let s = prefix.len() as int;
            let cls = opt_or(v.imported_classes, Seq::<Name>::empty());
            let dps = opt_or(v.package_build_dependencies, Seq::<Name>::empty());
            let cb = 32 + hash_bytes(v, ctx).len() as int + file_block_bytes(v, ctx).len() as int;
            let db = cb + classes_bytes(v, ctx).len() as int;
            &&& (gate_imported_classes(ctx) ==> i32_at(b, s + cb) == cls.len() && names_at(
                b,
                s + cb + 4,
                cls.len() as int,
            ) == cls)
            &&& (gate_build_dependencies(ctx) ==> i32_at(b, s + db) == dps.len() && names_at(
                b,
                s + db + 4,
                dps.len() as int,
            ) == dps)
        }),
{
    let e = encoded(v, ctx);
    lemma_rt_lens(v, ctx);
    let cls = opt_or(v.imported_classes, Seq::<Name>::empty());
    let dps = opt_or(v.package_build_dependencies, Seq::<Name>::empty());
    lemma_enc_names_len(cls);
    lemma_enc_names_len(dps);
    let cb: int = 32 + hash_bytes(v, ctx).len() as int + file_block_bytes(v, ctx).len() as int;
    let db: int = cb + classes_bytes(v, ctx).len() as int;
    if gate_imported_classes(ctx) {
        assert(e.subrange(cb, cb + 4) =~= enc_u32(cls.len() as u32));
        assert(e.subrange(cb + 4, cb + 4 + 8 * cls.len()) =~= enc_names(cls));
        lemma_rt_name_run(v, ctx, prefix, rest, cb, cls);
    }
    if gate_build_dependencies(ctx) {
        assert(e.subrange(db, db + 4) =~= enc_u32(dps.len() as u32));
        assert(e.subrange(db + 4, db + 4 + 8 * dps.len()) =~= enc_names(dps));
        lemma_rt_name_run(v, ctx, prefix, rest, db, dps);
    }
}

/// Monotonic gating: for contexts ordered on both axes, every field gate
/// that holds under the lower context also holds under the higher one, so a
/// decode under the lower context never populates an optional field that a
/// decode under the higher context would leave absent.
pub proof fn lemma_monotonic_gating(c1: VersionContext, c2: VersionContext)
    requires
        c1.registry_version.ordinal() <= c2.registry_version.ordinal(),
        c1.object_version_ue5.ordinal() <= c2.object_version_ue5.ordinal(),
    ensures
        gate_cooked_hash(c1) ==> gate_cooked_hash(c2),
        gate_file_versions(c1) ==> gate_file_versions(c2),
        gate_ue5_version(c1) ==> gate_ue5_version(c2),
        gate_imported_classes(c1) ==> gate_imported_classes(c2),
        gate_build_dependencies(c1) ==> gate_build_dependencies(c2),
{
}

/// Monotonic gating over decoded values: whatever two streams they were
/// read from, a record decoded under the lower context populates no
/// optional field that a record decoded under the higher context leaves
/// absent — decoded records are always gate-consistent, and gates only turn
/// on as the axes rise.
pub proof fn lemma_monotonic_fields(
    v1: PackageDataView,
    v2: PackageDataView,
    c1: VersionContext,
    c2: VersionContext,
)
    requires
        consistent(v1, c1),
        consistent(v2, c2),
        c1.registry_version.ordinal() <= c2.registry_version.ordinal(),
        c1.object_version_ue5.ordinal() <= c2.object_version_ue5.ordinal(),
    ensures
        v1.cooked_hash is Some ==> v2.cooked_hash is Some,
        v1.file_version is Some ==> v2.file_version is Some,
        v1.ue5_version is Some ==> v2.ue5_version is Some,
        v1.file_version_licensee_ue is Some ==> v2.file_version_licensee_ue is Some,
        v1.flags is Some ==> v2.flags is Some,
        v1.custom_versions is Some ==> v2.custom_versions is Some,
        v1.imported_classes is Some ==> v2.imported_classes is Some,
        v1.package_build_dependencies is Some ==> v2.package_build_dependencies is Some,
{
    lemma_monotonic_gating(c1, c2);
}

/// Write omission: the byte image never contains bytes for a field whose
/// gate fails.  Two records that agree on the always-present fields and on
/// every field whose gate holds encode to identical byte streams, whatever
/// values the gated-out fields hold in memory.
pub proof fn lemma_write_omission(v: PackageDataView, w: PackageDataView, ctx: VersionContext)
    requires
        w.package_name == v.package_name,
        w.disk_size == v.disk_size,
        w.package_guid == v.package_guid,
        gate_cooked_hash(ctx) ==> w.cooked_hash == v.cooked_hash,
        gate_file_versions(ctx) ==> w.file_version == v.file_version,
        gate_file_versions(ctx) ==> w.file_version_licensee_ue == v.file_version_licensee_ue,
        gate_file_versions(ctx) ==> w.flags == v.flags,
        gate_ue5_version(ctx) ==> w.ue5_version == v.ue5_version,
        gate_file_versions(ctx) ==> w.custom_versions == v.custom_versions,
        gate_imported_classes(ctx) ==> w.imported_classes == v.imported_classes,
        gate_build_dependencies(ctx) ==> w.package_build_dependencies
            == v.package_build_dependencies,
    ensures
        encoded(w, ctx) == encoded(v, ctx),
{
}

/// Conditions under which the custom-version run, count included, lies
/// whole within the stream.
pub open spec fn cv_stage_ok(b: Seq<u8>, ctx: VersionContext, s: int) -> bool {
    &&& off_file(ctx, s) + file_width(ctx) + 12 <= b.len()
    &&& cv_count(b, ctx, s) >= 0
    &&& off_classes(b, ctx, s) <= b.len()
}

/// Conditions under which the imported-class run, count included, lies
/// whole within the stream.
pub open spec fn cls_stage_ok(b: Seq<u8>, ctx: VersionContext, s: int) -> bool {
    &&& off_classes(b, ctx, s) + 4 <= b.len()
    &&& cls_count(b, ctx, s) >= 0
    &&& off_deps(b, ctx, s) <= b.len()
}

/// Whether decoding fails on a structurally invalid count rather than on a
/// short read: the first count field that the stream can deliver is
/// negative.
pub open spec fn format_broken(b: Seq<u8>, ctx: VersionContext, s: int) -> bool {
    if off_file(ctx, s) > b.len() {
        false
    } else if gate_file_versions(ctx) && off_file(ctx, s) + file_width(ctx) + 12 <= b.len()
        && cv_count(b, ctx, s) < 0 {
        true
    } else if gate_file_versions(ctx) && !cv_stage_ok(b, ctx, s) {
        false
    } else if gate_imported_classes(ctx) && off_classes(b, ctx, s) + 4 <= b.len() && cls_count(
        b,
        ctx,
        s,
    ) < 0 {
        true
    } else if gate_imported_classes(ctx) && !cls_stage_ok(b, ctx, s) {
        false
    } else if gate_build_dependencies(ctx) && off_deps(b, ctx, s) + 4 <= b.len() && deps_count(
        b,
        ctx,
        s,
    ) < 0 {
        true
    } else {
        false
    }
}

/// Reads the unconditional head of a record — name, disk size, guid — and
/// the cooked hash when its gate holds.
fn read_header(archive: &mut ArchiveReader, ctx: &VersionContext) -> (r: Result<
    (Name, i64, Guid, Option<Md5Hash>),
    Error,
>)
    requires
        old(archive).wf(),
    ensures
        final(archive).wf(),
        final(archive).stream() == old(archive).stream(),
        final(archive).cursor() >= old(archive).cursor(),
        ({
            let b = old(archive).stream();
            let s = old(archive).cursor();
            &&& ((r is Ok) <==> off_file(*ctx, s) <= b.len())
            &&& (r matches Ok(h) ==> {
                &&& h.0 == name_at(b, s)
                &&& h.1 == i64_at(b, s + 8)
                &&& h.2@ == b.subrange(s + 16, s + 32)
                &&& h.2@.len() == 16
                &&& (gate_cooked_hash(*ctx) ==> (h.3 matches Some(d) && d@ == b.subrange(
                    s + 32,
                    s + 48,
                ) && d@.len() == 16))
                &&& (!gate_cooked_hash(*ctx) ==> h.3 is None)
                &&& final(archive).cursor() == off_file(*ctx, s)
            })
            &&& (r matches Err(e) ==> e == Error::IoError)
        }),
{
    let pool_index = match archive.read_u32() {
        Ok(x) => x,
        Err(e) => {
            return Err(e);
        },
    };
    let instance_number = match archive.read_u32() {
        Ok(x) => x,
        Err(e) => {
            return Err(e);
        },
    };
    let disk_size = match archive.read_i64() {
        Ok(x) => x,
        Err(e) => {
            return Err(e);
        },
    };
    let guid_bytes = match archive.read_exact(16) {
        Ok(x) => x,
        Err(e) => {
            return Err(e);
        },
    };
    let mut cooked_hash: Option<Md5Hash> = None;
    if ctx.registry_version.at_least(RegistryVersion::AddedCookedMD5Hash) {
        let hb = match archive.read_exact(16) {
            Ok(x) => x,
            Err(e) => {
                return Err(e);
            },
        };
        cooked_hash = Some(Md5Hash { bytes: hb });
    }
    Ok((Name { pool_index, instance_number }, disk_size, Guid { bytes: guid_bytes }, cooked_hash))
}

/// Reads the scalar part of the file-version block: the file version, the
/// nested UE5 version when its gate holds, the licensee version and the
/// flags.
fn read_file_scalars(archive: &mut ArchiveReader, ctx: &VersionContext) -> (r: Result<
    (i32, Option<i32>, i32, u32),
    Error,
>)
    requires
        old(archive).wf(),
        gate_file_versions(*ctx),
    ensures
        final(archive).wf(),
        final(archive).stream() == old(archive).stream(),
        final(archive).cursor() >= old(archive).cursor(),
        ({
            let b = old(archive).stream();
            let p = old(archive).cursor();
            &&& ((r is Ok) <==> p + file_width(*ctx) + 8 <= b.len())
            &&& (r matches Ok(t) ==> {
                &&& t.0 == i32_at(b, p)
                &&& (gate_ue5_version(*ctx) ==> t.1 == Some(i32_at(b, p + 4)))
                &&& (!gate_ue5_version(*ctx) ==> t.1 is None)
                &&& t.2 == i32_at(b, p + file_width(*ctx))
                &&& t.3 == u32_at(b, p + file_width(*ctx) + 4)
                &&& final(archive).cursor() == p + file_width(*ctx) + 8
            })
            &&& (r matches Err(e) ==> e == Error::IoError)
        }),
{
    let file_version: i32;
    let mut ue5_version: Option<i32> = None;
    if ctx.registry_version.at_least(RegistryVersion::PackageFileSummaryVersionChange) {
        file_version = match archive.read_i32() {
            Ok(x) => x,
            Err(e) => {
                return Err(e);
            },
        };
        ue5_version = match archive.read_i32() {
            Ok(x) => Some(x),
            Err(e) => {
                return Err(e);
            },
        };
    } else {
        file_version = match archive.read_i32() {
            Ok(x) => x,
            Err(e) => {
                return Err(e);
            },
        };
    }
    let file_version_licensee_ue = match archive.read_i32() {
        Ok(x) => x,
        Err(e) => {
            return Err(e);
        },
    };
    let flags = match archive.read_u32() {
        Ok(x) => x,
        Err(e) => {
            return Err(e);
        },
    };
    Ok((file_version, ue5_version, file_version_licensee_ue, flags))
}

/// Reads a counted run of names: a signed count that must be non-negative,
/// then that many names.
fn read_name_run(archive: &mut ArchiveReader) -> (r: Result<Vec<Name>, Error>)
    requires
        old(archive).wf(),
    ensures
        final(archive).wf(),
        final(archive).stream() == old(archive).stream(),
        final(archive).cursor() >= old(archive).cursor(),
        ({
            let b = old(archive).stream();
            let p = old(archive).cursor();
            let cnt = i32_at(b, p) as int;
            &&& ((r is Ok) <==> (p + 4 <= b.len() && cnt >= 0 && p + 4 + 8 * cnt <= b.len()))
            &&& (r matches Ok(v) ==> v@ == names_at(b, p + 4, cnt) && final(archive).cursor() == p
                + 4 + 8 * cnt)
            &&& (r matches Err(e) ==> (e == Error::IoError || e == Error::FormatError) && (e
                == Error::FormatError <==> (p + 4 <= b.len() && cnt < 0)))
        }),
{
    let ghost b = archive.stream();
    let ghost p = archive.cursor();
    let n = match archive.read_i32() {
        Ok(x) => x,
        Err(e) => {
            return Err(e);
        },
    };
    if n < 0 {
        return Err(Error::FormatError);
    }
    let count = n as usize;
    let mut v: Vec<Name> = Vec::new();
    let mut i: usize = 0;
    while i < count
        invariant
            archive.wf(),
            b == old(archive).stream(),
            p == old(archive).cursor(),
            archive.stream() == b,
            count == i32_at(b, p) as int,
            0 <= i <= count,
            archive.cursor() == p + 4 + 8 * (i as int),
            v@.len() == i,
            forall|k: int| 0 <= k < i ==> v@[k] == name_at(b, p + 4 + 8 * k),
        decreases count - i,
    {
        let pool_index = match archive.read_u32() {
            Ok(x) => x,
            Err(e) => {
                return Err(e);
            },
        };
        let instance_number = match archive.read_u32() {
            Ok(x) => x,
            Err(e) => {
                return Err(e);
            },
        };
        v.push(Name { pool_index, instance_number });
        i = i + 1;
    }
    assert(v@ =~= names_at(b, p + 4, count as int));
    Ok(v)
}

/// Reads a counted run of custom-version entries: a signed count that must
/// be non-negative, then that many guid-and-revision pairs.
fn read_cv_run(archive: &mut ArchiveReader) -> (r: Result<Vec<CustomVersionEntry>, Error>)
    requires
        old(archive).wf(),
    ensures
        final(archive).wf(),
        final(archive).stream() == old(archive).stream(),
        final(archive).cursor() >= old(archive).cursor(),
        ({
            let b = old(archive).stream();
            let p = old(archive).cursor();
            let cnt = i32_at(b, p) as int;
            &&& ((r is Ok) <==> (p + 4 <= b.len() && cnt >= 0 && p + 4 + 20 * cnt <= b.len()))
            &&& (r matches Ok(v) ==> {
                &&& cv_views(v@) == cvs_at(b, p + 4, cnt)
                &&& final(archive).cursor() == p + 4 + 20 * cnt
                &&& forall|k: int| 0 <= k < v@.len() ==> (#[trigger] v@[k]).feature_guid@.len() == 16
            })
            &&& (r matches Err(e) ==> (e == Error::IoError || e == Error::FormatError) && (e
                == Error::FormatError <==> (p + 4 <= b.len() && cnt < 0)))
        }),
{
    let ghost b = archive.stream();
    let ghost p = archive.cursor();
    let n = match archive.read_i32() {
        Ok(x) => x,
        Err(e) => {
            return Err(e);
        },
    };
    if n < 0 {
        return Err(Error::FormatError);
    }
    let count = n as usize;
    let mut v: Vec<CustomVersionEntry> = Vec::new();
    let mut i: usize = 0;
    while i < count
        invariant
            archive.wf(),
            b == old(archive).stream(),
            p == old(archive).cursor(),
            archive.stream() == b,
            count == i32_at(b, p) as int,
            0 <= i <= count,
            archive.cursor() == p + 4 + 20 * (i as int),
            v@.len() == i,
            forall|k: int| 0 <= k < i ==> (#[trigger] v@[k])@ == cv_at(b, p + 4 + 20 * k),
            forall|k: int| 0 <= k < i ==> (#[trigger] v@[k]).feature_guid@.len() == 16,
        decreases count - i,
    {
        let gb = match archive.read_exact(16) {
            Ok(x) => x,
            Err(e) => {
                return Err(e);
            },
        };
        let revision = match archive.read_i32() {
            Ok(x) => x,
            Err(e) => {
                return Err(e);
            },
        };
        v.push(CustomVersionEntry { feature_guid: Guid { bytes: gb }, revision });
        i = i + 1;
    }
    assert(cv_views(v@) =~= cvs_at(b, p + 4, count as int));
    Ok(v)
}

impl AssetPackageData {
    /// The assemble-and-check step of encoding: verifies, before any byte is
    /// written, that every field the target version requires is present.
    /// Runs the gating logic alone, with no byte source involved.
    pub fn check_required(&self, ctx: &VersionContext) -> (r: Result<(), Error>)
        ensures
            (r is Ok) <==> required_present(self@, *ctx),
            r matches Err(e) ==> e == Error::MissingRequiredField(
                first_missing(self@, *ctx),
                threshold_of(first_missing(self@, *ctx)),
            ),
    {
        if ctx.registry_version.at_least(RegistryVersion::AddedCookedMD5Hash)
            && self.cooked_hash.is_none() {
            return Err(
                Error::MissingRequiredField(
                    FieldKind::CookedHash,
                    RegistryVersion::AddedCookedMD5Hash,
                ),
            );
        }
        if ctx.registry_version.at_least(RegistryVersion::WorkspaceDomain) {
            if self.file_version.is_none() {
                return Err(
                    Error::MissingRequiredField(
                        FieldKind::FileVersion,
                        RegistryVersion::WorkspaceDomain,
                    ),
                );
            }
            if ctx.registry_version.at_least(RegistryVersion::PackageFileSummaryVersionChange)
                && self.ue5_version.is_none() {
                return Err(
                    Error::MissingRequiredField(
                        FieldKind::Ue5Version,
                        RegistryVersion::PackageFileSummaryVersionChange,
                    ),
                );
            }
            if self.file_version_licensee_ue.is_none() {
                return Err(
                    Error::MissingRequiredField(
                        FieldKind::FileVersionLicensee,
                        RegistryVersion::WorkspaceDomain,
                    ),
                );
            }
            if self.flags.is_none() {
                return Err(
                    Error::MissingRequiredField(FieldKind::Flags, RegistryVersion::WorkspaceDomain),
                );
            }
            if self.custom_versions.is_none() {
                return Err(
                    Error::MissingRequiredField(
                        FieldKind::CustomVersions,
                        RegistryVersion::WorkspaceDomain,
                    ),
                );
            }
        }
        if ctx.registry_version.at_least(RegistryVersion::PackageImportedClasses)
            && self.imported_classes.is_none() {
            return Err(
                Error::MissingRequiredField(
                    FieldKind::ImportedClasses,
                    RegistryVersion::PackageImportedClasses,
                ),
            );
        }
        Ok(())
    }

    /// Encodes the record under `ctx`, mirroring the decode order exactly.
    ///
    /// The required-field check runs before any byte is written, so a failed
    /// encode leaves the archive untouched and reports which field is
    /// missing and which version threshold demanded it.  A field whose gate
    /// does not hold is never written, whatever value memory happens to
    /// hold.
    #[verifier::rlimit(100)]
    pub fn write(&self, archive: &mut ArchiveWriter, ctx: &VersionContext) -> (r: Result<
        (),
        Error,
    >)
        requires
            self.wf(),
        ensures
            (r is Ok) <==> required_present(self@, *ctx),
            r matches Ok(_) ==> final(archive).stream() == old(archive).stream() + encoded(
                self@,
                *ctx,
            ),
            r matches Err(e) ==> *final(archive) == *old(archive) && e
                == Error::MissingRequiredField(
                first_missing(self@, *ctx),
                threshold_of(first_missing(self@, *ctx)),
            ),
    {
        match self.check_required(ctx) {
            Ok(_) => (),
            Err(e) => {
                return Err(e);
            },
        }
        let ghost base = archive.stream();
        let ghost v = self@;
        let ghost c = *ctx;
        archive.write_u32(self.package_name.pool_index);
        archive.write_u32(self.package_name.instance_number);
        assert(archive.stream() =~= base + enc_name(v.package_name));
        archive.write_i64(self.disk_size);
        archive.write_raw(&self.package_guid.bytes);
        let ghost pre_hash = base + enc_name(v.package_name) + enc_i64(v.disk_size)
            + v.package_guid;
        assert(archive.stream() =~= pre_hash);
        if ctx.registry_version.at_least(RegistryVersion::AddedCookedMD5Hash) {
            match &self.cooked_hash {
                Some(h) => {
                    archive.write_raw(&h.bytes);
                },
                None => {
                    proof {
                        assert(false);
                    }
                },
            }
        }
        let ghost pre_file = pre_hash + hash_bytes(v, c);
        assert(archive.stream() =~= pre_file);
        if ctx.registry_version.at_least(RegistryVersion::WorkspaceDomain) {
            match self.file_version {
                Some(fv) => {
                    archive.write_i32(fv);
                },
                None => {
                    proof {
                        assert(false);
                    }
                },
            }
            if ctx.registry_version.at_least(RegistryVersion::PackageFileSummaryVersionChange) {
                match self.ue5_version {
                    Some(u5) => {
                        archive.write_i32(u5);
                    },
                    None => {
                        proof {
                            assert(false);
                        }
                    },
                }
            }
            match self.file_version_licensee_ue {
                Some(lic) => {
                    archive.write_i32(lic);
                },
                None => {
                    proof {
                        assert(false);
                    }
                },
            }
            match self.flags {
                Some(fl) => {
                    archive.write_u32(fl);
                },
                None => {
                    proof {
                        assert(false);
                    }
                },
            }
            match &self.custom_versions {
                Some(cvs) => {
                    let n = cvs.len();
                    archive.write_i32(n as i32);
                    assert(enc_i32(n as i32) == enc_u32(n as u32));
                    let ghost evs = cv_views(cvs@);
                    let ghost pre_items = archive.stream();
                    let mut i: usize = 0;
                    while i < n
                        invariant
                            0 <= i <= n,
                            n == cvs@.len(),
                            evs == cv_views(cvs@),
                            archive.stream() == pre_items + enc_cvs(evs.take(i as int)),
                        decreases n - i,
                    {
                        archive.write_raw(&cvs[i].feature_guid.bytes);
                        archive.write_i32(cvs[i].revision);
                        proof {
                            lemma_enc_cvs_step(evs, i as int);
                            assert(archive.stream() =~= pre_items + enc_cvs(
                                evs.take(i as int + 1),
                            ));
                        }
                        i = i + 1;
                    }
                    assert(evs.take(n as int) =~= evs);
                },
                None => {
                    proof {
                        assert(false);
                    }
                },
            }
        }
        let ghost pre_classes = pre_file + file_block_bytes(v, c);
        assert(archive.stream() =~= pre_classes);
        if ctx.registry_version.at_least(RegistryVersion::PackageImportedClasses) {
            match &self.imported_classes {
                Some(names) => {
                    write_name_run(archive, names);
                },
                None => {
                    proof {
                        assert(false);
                    }
                },
            }
        }
        let ghost pre_deps = pre_classes + classes_bytes(v, c);
        assert(archive.stream() =~= pre_deps);
        if ctx.object_version_ue5.at_least(ObjectVersionUe5::AssetRegistryPackageBuildDependencies)
        {
            match &self.package_build_dependencies {
                Some(names) => {
                    write_name_run(archive, names);
                },
                None => {
                    // Deliberate leniency: an absent list under a holding
                    // gate is written as a zero-length run.
                    archive.write_i32(0);
                    assert(enc_i32(0i32) == enc_u32(0u32));
                },
            }
        }
        assert(archive.stream() =~= pre_deps + deps_bytes(v, c));
        assert(archive.stream() =~= base + encoded(v, c));
        Ok(())
    }

    /// Decodes a record from the archive under `ctx`.
    ///
    /// Fields are read strictly in wire order; a field whose gate fails is
    /// left absent and no bytes are skipped.  Decoding succeeds exactly when
    /// the stream holds a structurally valid record at the cursor, fails
    /// with [`Error::FormatError`] exactly when the first problem is a
    /// negative count field, and with [`Error::IoError`] on a short read.
    #[verifier::rlimit(100)]
    pub fn new(archive: &mut ArchiveReader, ctx: &VersionContext) -> (r: Result<
        AssetPackageData,
        Error,
    >)
        requires
            old(archive).wf(),
        ensures
            final(archive).wf(),
            final(archive).stream() == old(archive).stream(),
            old(archive).cursor() <= final(archive).cursor() <= old(archive).stream().len(),
            (r is Ok) <==> parse_ok(old(archive).stream(), *ctx, old(archive).cursor()),
            r matches Ok(d) ==> {
                &&& d@ == parsed(old(archive).stream(), *ctx, old(archive).cursor())
                &&& final(archive).cursor() == parsed_end(
                    old(archive).stream(),
                    *ctx,
                    old(archive).cursor(),
                )
                &&& consistent(d@, *ctx)
                &&& d.wf()
            },
            r matches Err(e) ==> (e == Error::IoError || e == Error::FormatError) && (e
                == Error::FormatError <==> format_broken(
                old(archive).stream(),
                *ctx,
                old(archive).cursor(),
            )),
    {
        let ghost b = archive.stream();
        let ghost s = archive.cursor();
        let ghost c = *ctx;
        let (package_name, disk_size, package_guid, cooked_hash) = match read_header(
            archive,
            ctx,
        ) {
            Ok(h) => h,
            Err(e) => {
                return Err(e);
            },
        };
        assert(archive.cursor() == off_file(c, s));
        let mut file_version: Option<i32> = None;
        let mut ue5_version: Option<i32> = None;
        let mut file_version_licensee_ue: Option<i32> = None;
        let mut flags: Option<u32> = None;
        let mut custom_versions: Option<Vec<CustomVersionEntry>> = None;
        if ctx.registry_version.at_least(RegistryVersion::WorkspaceDomain) {
            let (fv, u5, lic, fl) = match read_file_scalars(archive, ctx) {
                Ok(t) => t,
                Err(e) => {
                    return Err(e);
                },
            };
            file_version = Some(fv);
            ue5_version = u5;
            file_version_licensee_ue = Some(lic);
            flags = Some(fl);
            assert(archive.cursor() == off_file(c, s) + file_width(c) + 8);
            let cvs = match read_cv_run(archive) {
                Ok(v) => v,
                Err(e) => {
                    return Err(e);
                },
            };
            custom_versions = Some(cvs);
        }
        assert(archive.cursor() == off_classes(b, c, s));
        let mut imported_classes: Option<Vec<Name>> = None;
        if ctx.registry_version.at_least(RegistryVersion::PackageImportedClasses) {
            let v = match read_name_run(archive) {
                Ok(v) => v,
                Err(e) => {
                    return Err(e);
                },
            };
            imported_classes = Some(v);
        }
        assert(archive.cursor() == off_deps(b, c, s));
        let mut package_build_dependencies: Option<Vec<Name>> = None;
        if ctx.object_version_ue5.at_least(ObjectVersionUe5::AssetRegistryPackageBuildDependencies)
        {
            let v = match read_name_run(archive) {
                Ok(v) => v,
                Err(e) => {
                    return Err(e);
                },
            };
            package_build_dependencies = Some(v);
        }
        assert(archive.cursor() == parsed_end(b, c, s));
        let d = AssetPackageData {
            package_name,
            package_guid,
            cooked_hash,
            imported_classes,
            disk_size,
            file_version,
            ue5_version,
            file_version_licensee_ue,
            custom_versions,
            flags,
            package_build_dependencies,
        };
        assert(d@ == parsed(b, c, s));
        Ok(d)
    }
}

/// Whether every name reference in the record points into a pool of `n`
/// strings.
pub open spec fn record_names_bounded(v: PackageDataView, n: int) -> bool {
    &&& v.package_name.pool_index < n
    &&& (v.imported_classes matches Some(s) ==> forall|i: int|
        0 <= i < s.len() ==> (#[trigger] s[i]).pool_index < n)
    &&& (v.package_build_dependencies matches Some(s) ==> forall|i: int|
        0 <= i < s.len() ==> (#[trigger] s[i]).pool_index < n)
}

/// Checks that every name in `run` points into a pool of `n` strings.
fn name_run_bounded(run: &Vec<Name>, n: usize) -> (r: bool)
    ensures
        r == forall|i: int| 0 <= i < run@.len() ==> (#[trigger] run@[i]).pool_index < n,
{
    let len = run.len();
    let mut i: usize = 0;
    while i < len
        invariant
            len == run@.len(),
            0 <= i <= len,
            forall|k: int| 0 <= k < i ==> (#[trigger] run@[k]).pool_index < n,
        decreases len - i,
    {
        if run[i].pool_index as usize >= n {
            return false;
        }
        i = i + 1;
    }
    true
}

/// Decodes a record and validates every name reference against the table
/// that issued the session's names: a record whose name indices lie outside
/// the pool cannot have come from this session and is rejected as corrupt.
pub fn decode_record(
    archive: &mut ArchiveReader,
    ctx: &VersionContext,
    names: &NameTable,
) -> (r: Result<AssetPackageData, Error>)
    requires
        old(archive).wf(),
    ensures
        final(archive).wf(),
        final(archive).stream() == old(archive).stream(),
        old(archive).cursor() <= final(archive).cursor() <= old(archive).stream().len(),
        (r is Ok) <==> (parse_ok(old(archive).stream(), *ctx, old(archive).cursor())
            && record_names_bounded(
            parsed(old(archive).stream(), *ctx, old(archive).cursor()),
            names.pool_view().len() as int,
        )),
        r matches Ok(d) ==> {
            &&& d@ == parsed(old(archive).stream(), *ctx, old(archive).cursor())
            &&& final(archive).cursor() == parsed_end(
                old(archive).stream(),
                *ctx,
                old(archive).cursor(),
            )
            &&& consistent(d@, *ctx)
            &&& d.wf()
        },
        r matches Err(e) ==> (e == Error::IoError || e == Error::FormatError) && (e
            == Error::FormatError <==> (format_broken(
            old(archive).stream(),
            *ctx,
            old(archive).cursor(),
        ) || (parse_ok(old(archive).stream(), *ctx, old(archive).cursor())
            && !record_names_bounded(
            parsed(old(archive).stream(), *ctx, old(archive).cursor()),
            names.pool_view().len() as int,
        )))),
{
    let d = match AssetPackageData::new(archive, ctx) {
        Ok(d) => d,
        Err(e) => {
            return Err(e);
        },
    };
    let n = names.len();
    if d.package_name.pool_index as usize >= n {
        return Err(Error::FormatError);
    }
    match &d.imported_classes {
        Some(run) => {
            if !name_run_bounded(run, n) {
                return Err(Error::FormatError);
            }
        },
        None => (),
    }
    match &d.package_build_dependencies {
        Some(run) => {
            if !name_run_bounded(run, n) {
                return Err(Error::FormatError);
            }
        },
        None => (),
    }
    Ok(d)
}

} // verus!
