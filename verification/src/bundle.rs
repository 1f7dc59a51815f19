//! The bundled font faces, the error context that each DirectWrite call
//! of building their collection carries when it fails, and the check of
//! the finished collection.

use vstd::prelude::*;

use crate::utf16::{encode_utf16_nul, utf16_nul_terminated};

verus! {

/// Family name the bundled font files advertise in their `name` table.
pub const BUNDLED_FONT_FAMILY: &'static str = "IoskeleyMono";

/// The bundled family name as a NUL-terminated UTF-16 string, for the
/// family lookup and for the private use mapping.
pub fn bundled_family_utf16() -> (units: Vec<u16>)
    ensures
        units@ == utf16_nul_terminated(BUNDLED_FONT_FAMILY@),
{
    encode_utf16_nul(BUNDLED_FONT_FAMILY)
}

/// One of the bundled font files.
#[derive(Clone, Copy, Debug, PartialEq, Eq, Structural)]
pub enum BundledFace {
    Regular,
    Bold,
    Italic,
    BoldItalic,
}

/// The label of a face in error messages.
pub open spec fn spec_face_label(face: BundledFace) -> &'static str {
    match face {
        BundledFace::Regular => "regular",
        BundledFace::Bold => "bold",
        BundledFace::Italic => "italic",
        BundledFace::BoldItalic => "bold_italic",
    }
}

impl BundledFace {
    /// The label of this face in error messages.
    pub fn label(&self) -> (label: &'static str)
        ensures
            label@ == spec_face_label(*self)@,
        *self == BundledFace::Regular ==> label@ == "regular"@,
        *self == BundledFace::Bold ==> label@ == "bold"@,
        *self == BundledFace::Italic ==> label@ == "italic"@,
        *self == BundledFace::BoldItalic ==> label@ == "bold_italic"@,
    {
        match self {
            BundledFace::Regular => "regular",
            BundledFace::Bold => "bold",
            BundledFace::Italic => "italic",
            BundledFace::BoldItalic => "bold_italic",
        }
    }
}

/// The faces in the order they are registered.
pub open spec fn spec_bundled_faces() -> Seq<BundledFace> {
    seq![BundledFace::Regular, BundledFace::Bold, BundledFace::Italic, BundledFace::BoldItalic]
}

/// The faces in the order they are registered: regular, bold, italic,
/// bold italic.
pub fn bundled_faces() -> (faces: Vec<BundledFace>)
    ensures
        faces@ == spec_bundled_faces(),
        faces@ == seq![BundledFace::Regular, BundledFace::Bold, BundledFace::Italic, BundledFace::BoldItalic],
{
    vec![BundledFace::Regular, BundledFace::Bold, BundledFace::Italic, BundledFace::BoldItalic]
}

/// One DirectWrite call of building the bundled collection.
#[derive(Clone, Copy, Debug, PartialEq, Eq, Structural)]
pub enum BundleStep {
    /// Create the in-memory font file loader.
    CreateLoader,
    /// Register the loader with the factory.
    RegisterLoader,
    /// Create the font set builder.
    CreateBuilder,
    /// Create an in-memory file reference to a face's bytes.
    CreateFileReference(BundledFace),
    /// Add that file to the font set builder.
    AddFontFile(BundledFace),
    /// Create the font set from the builder.
    CreateSet,
    /// Create the collection from the font set.
    CreateCollection,
}

/// The context an error of `step` carries.
pub open spec fn spec_step_context(step: BundleStep) -> Seq<char> {
    match step {
        BundleStep::CreateLoader => "CreateInMemoryFontFileLoader failed"@,
        BundleStep::RegisterLoader => "RegisterFontFileLoader failed"@,
        BundleStep::CreateBuilder => "CreateFontSetBuilder failed"@,
        BundleStep::CreateFileReference(face) => "CreateInMemoryFontFileReference("@ + spec_face_label(face)@ + ") failed"@,
        BundleStep::AddFontFile(face) => "FontSetBuilder::AddFontFile("@ + spec_face_label(face)@ + ") failed"@,
        BundleStep::CreateSet => "CreateFontSet failed"@,
        BundleStep::CreateCollection => "CreateFontCollectionFromFontSet failed"@,
    }
}

/// The context an error of `step` carries, naming the call that failed
/// and, for the per-face calls, the face.
pub fn step_context(step: BundleStep) -> (context: String)
    ensures
        context@ == spec_step_context(step),
{
    match step {
        BundleStep::CreateLoader => String::from_str("CreateInMemoryFontFileLoader failed"),
        BundleStep::RegisterLoader => String::from_str("RegisterFontFileLoader failed"),
        BundleStep::CreateBuilder => String::from_str("CreateFontSetBuilder failed"),
        BundleStep::CreateFileReference(face) => {
            let mut context = String::from_str("CreateInMemoryFontFileReference(");
            context.append(face.label());
            context.append(") failed");
            context
        },
        BundleStep::AddFontFile(face) => {
            let mut context = String::from_str("FontSetBuilder::AddFontFile(");
            context.append(face.label());
            context.append(") failed");
            context
        },
        BundleStep::CreateSet => String::from_str("CreateFontSet failed"),
        BundleStep::CreateCollection => String::from_str("CreateFontCollectionFromFontSet failed"),
    }
}

/// What the check of the finished collection found.
#[derive(Debug, PartialEq, Eq, Structural)]
pub enum CollectionReport {
    /// The bundled family was found at `index` among `families` families.
    Ready { index: u32, families: u32 },
    /// The collection holds `families` families but not the bundled one:
    /// the font's name table does not claim the bundled family name.
    NameMismatch { families: u32 },
    /// Looking the family name up failed with this HRESULT.
    LookupFailed(i32),
}

/// Classifies the lookup of the bundled family in the finished collection:
/// `lookup` is the lookup's status and, on success, whether the family
/// exists; `index` is where the lookup placed it; `families` is the number
/// of families in the collection.
pub fn collection_report(lookup: Result<bool, i32>, index: u32, families: u32) -> (report: CollectionReport)
    ensures
        report == (match lookup {
            Ok(true) => CollectionReport::Ready { index, families },
            Ok(false) => CollectionReport::NameMismatch { families },
            Err(code) => CollectionReport::LookupFailed(code),
        }),
{
    match lookup {
        Ok(true) => CollectionReport::Ready { index, families },
        Ok(false) => CollectionReport::NameMismatch { families },
        Err(code) => CollectionReport::LookupFailed(code),
    }
}

/// "family" for one family, "families" for any other count.
pub fn family_noun(families: u32) -> (noun: &'static str)
    ensures
        noun@ == (if families == 1 { "family"@ } else { "families"@ }),
{
    if families == 1 {
        "family"
    } else {
        "families"
    }
}

} // verus!
