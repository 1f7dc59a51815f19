use font_loader::cascade::{cascade_result, cascade_start, plan_cascade, CascadeStart, FamilyProbe, Mapping, PreferredProbes};
use font_loader::unicode_range::{private_use_ranges, UnicodeRange};

fn han() -> Vec<UnicodeRange> {
    vec![UnicodeRange { first: 0x4E00, last: 0x9FFF }]
}

fn latin() -> Vec<UnicodeRange> {
    vec![UnicodeRange { first: 0x20, last: 0x7E }]
}

/// A compact description of a planned mapping.
fn describe(mappings: &[Mapping]) -> Vec<String> {
    mappings
        .iter()
        .map(|m| match m {
            Mapping::Installed { family, ranges } => format!("installed {family} {ranges:?}"),
            Mapping::Bundled { ranges } => format!("bundled {ranges:?}"),
            Mapping::SystemCascade => "system".to_string(),
        })
        .collect()
}

#[test]
fn preferred_families_come_first_in_user_order() {
    let plan = plan_cascade(
        PreferredProbes::Probed(vec![FamilyProbe::Inspected(han()), FamilyProbe::Inspected(latin())]),
        true,
        true,
    );
    assert_eq!(
        describe(&plan),
        vec![
            format!("installed 0 {:?}", han()),
            format!("installed 1 {:?}", latin()),
            format!("bundled {:?}", private_use_ranges()),
            "system".to_string(),
        ]
    );
}

#[test]
fn configured_family_with_ranges_reaches_the_builder() {
    let plan = plan_cascade(PreferredProbes::Probed(vec![FamilyProbe::Inspected(han())]), false, true);
    assert_eq!(describe(&plan), vec![format!("installed 0 {:?}", han()), "system".to_string()]);
}

#[test]
fn unusable_families_are_skipped() {
    let plan = plan_cascade(
        PreferredProbes::Probed(vec![
            FamilyProbe::LookupFailed,
            FamilyProbe::NotInstalled,
            FamilyProbe::InspectFailed,
            FamilyProbe::Inspected(Vec::new()),
            FamilyProbe::Inspected(latin()),
        ]),
        true,
        false,
    );
    assert_eq!(
        describe(&plan),
        vec![format!("installed 4 {:?}", latin()), format!("bundled {:?}", private_use_ranges())]
    );
}

#[test]
fn unavailable_system_collection_skips_preferred_families() {
    let plan = plan_cascade(PreferredProbes::CollectionUnavailable, true, true);
    assert_eq!(describe(&plan), vec![format!("bundled {:?}", private_use_ranges()), "system".to_string()]);
}

#[test]
fn nothing_to_map_plans_nothing() {
    let plan = plan_cascade(PreferredProbes::Probed(Vec::new()), false, false);
    assert!(plan.is_empty());
}

#[test]
fn custom_cascade_only_with_preferred_or_bundled() {
    assert_eq!(cascade_start(0, false), CascadeStart::SystemOnly);
    assert_eq!(cascade_start(0, true), CascadeStart::Custom);
    assert_eq!(cascade_start(2, false), CascadeStart::Custom);
    assert_eq!(cascade_start(1, true), CascadeStart::Custom);
}

#[test]
fn built_cascade_wins_over_system_fallback() {
    assert_eq!(cascade_result(Some("built"), Some("system")), Some("built"));
    assert_eq!(cascade_result(None, Some("system")), Some("system"));
    assert_eq!(cascade_result::<&str>(None, None), None);
    assert_eq!(cascade_result(Some("built"), None), Some("built"));
}
