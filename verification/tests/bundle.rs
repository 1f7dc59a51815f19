use font_loader::bundle::{bundled_faces, collection_report, family_noun, step_context, BundleStep, BundledFace, CollectionReport};

#[test]
fn faces_are_registered_in_order() {
    assert_eq!(
        bundled_faces(),
        vec![BundledFace::Regular, BundledFace::Bold, BundledFace::Italic, BundledFace::BoldItalic]
    );
}

#[test]
fn step_contexts_name_the_failing_call() {
    assert_eq!(step_context(BundleStep::CreateLoader), "CreateInMemoryFontFileLoader failed");
    assert_eq!(step_context(BundleStep::RegisterLoader), "RegisterFontFileLoader failed");
    assert_eq!(step_context(BundleStep::CreateBuilder), "CreateFontSetBuilder failed");
    assert_eq!(
        step_context(BundleStep::CreateFileReference(BundledFace::Regular)),
        "CreateInMemoryFontFileReference(regular) failed"
    );
    assert_eq!(
        step_context(BundleStep::AddFontFile(BundledFace::BoldItalic)),
        "FontSetBuilder::AddFontFile(bold_italic) failed"
    );
    assert_eq!(step_context(BundleStep::CreateSet), "CreateFontSet failed");
    assert_eq!(step_context(BundleStep::CreateCollection), "CreateFontCollectionFromFontSet failed");
}

#[test]
fn face_labels() {
    assert_eq!(BundledFace::Regular.label(), "regular");
    assert_eq!(BundledFace::Bold.label(), "bold");
    assert_eq!(BundledFace::Italic.label(), "italic");
    assert_eq!(BundledFace::BoldItalic.label(), "bold_italic");
}

#[test]
fn collection_check_outcomes() {
    assert_eq!(collection_report(Ok(true), 0, 1), CollectionReport::Ready { index: 0, families: 1 });
    assert_eq!(collection_report(Ok(false), 7, 3), CollectionReport::NameMismatch { families: 3 });
    assert_eq!(collection_report(Err(-5), 0, 2), CollectionReport::LookupFailed(-5));
}

#[test]
fn family_count_wording() {
    assert_eq!(family_noun(1), "family");
    assert_eq!(family_noun(0), "families");
    assert_eq!(family_noun(4), "families");
}
