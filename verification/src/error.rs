//! Error taxonomy of the codec engine.

use vstd::prelude::*;

use crate::version::RegistryVersion;

verus! {

/// The version-gated fields of the package metadata record that the
/// encoder may find missing.
#[derive(Debug, Clone, Copy, PartialEq, Eq, Structural)]
pub enum FieldKind {
    CookedHash,
    FileVersion,
    Ue5Version,
    FileVersionLicensee,
    Flags,
    CustomVersions,
    ImportedClasses,
}

/// What can go wrong while decoding or encoding a record.
#[derive(Debug, Clone, Copy, PartialEq, Eq, Structural)]
pub enum Error {
    /// A short read against the underlying byte source; fatal to the session.
    IoError,
    /// A structurally invalid length or count field; the input is corrupt.
    FormatError,
    /// Encode-time only: the named field is absent although the named
    /// registry-format threshold requires it.  The caller may populate the
    /// field and retry.
    MissingRequiredField(FieldKind, RegistryVersion),
    /// The requested engine release has no resolution-table entry.
    UnsupportedVersion,
}

impl FieldKind {
    /// The diagnostic label of each field.
    pub open spec fn label_spec(self) -> Seq<char> {
        match self {
            FieldKind::CookedHash => "cooked hash"@,
            FieldKind::FileVersion => "file version"@,
            FieldKind::Ue5Version => "ue5 version"@,
            FieldKind::FileVersionLicensee => "file version licensee"@,
            FieldKind::Flags => "flags"@,
            FieldKind::CustomVersions => "custom versions"@,
            FieldKind::ImportedClasses => "imported classes"@,
        }
    }

    /// A short human-readable label for the field, for diagnostics.
    pub fn label(&self) -> (r: &'static str)
        ensures
            r@ == self.label_spec(),
    {
        match self {
            FieldKind::CookedHash => "cooked hash",
            FieldKind::FileVersion => "file version",
            FieldKind::Ue5Version => "ue5 version",
            FieldKind::FileVersionLicensee => "file version licensee",
            FieldKind::Flags => "flags",
            FieldKind::CustomVersions => "custom versions",
            FieldKind::ImportedClasses => "imported classes",
        }
    }
}

} // verus!
