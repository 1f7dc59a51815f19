//! The order of the glyph fallback cascade: the user's preferred installed
//! families first, then the bundled font for private use icons, then the
//! system's own cascade.
//!
//! The caller probes each preferred family and reports the outcome; this
//! module decides which mappings the fallback builder receives, and in
//! which order.

use vstd::prelude::*;

use crate::unicode_range::{covers, is_private_use, private_use_ranges, UnicodeRange};

verus! {

/// What probing one preferred family in the system collection gave.
#[derive(Debug)]
pub enum FamilyProbe {
    /// Looking the family name up failed.
    LookupFailed,
    /// The family is not installed.
    NotInstalled,
    /// Reading the family's first matching font or its ranges failed.
    InspectFailed,
    /// The ranges of code points that the family's first matching font covers.
    Inspected(Vec<UnicodeRange>),
}

/// A probe outcome with its ranges as a sequence.
pub enum FamilyProbeView {
    LookupFailed,
    NotInstalled,
    InspectFailed,
    Inspected(Seq<UnicodeRange>),
}

impl View for FamilyProbe {
    type V = FamilyProbeView;

    open spec fn view(&self) -> FamilyProbeView {
        match self {
            FamilyProbe::LookupFailed => FamilyProbeView::LookupFailed,
            FamilyProbe::NotInstalled => FamilyProbeView::NotInstalled,
            FamilyProbe::InspectFailed => FamilyProbeView::InspectFailed,
            FamilyProbe::Inspected(ranges) => FamilyProbeView::Inspected(ranges@),
        }
    }
}

/// The outcome of probing the preferred families.
#[derive(Debug)]
pub enum PreferredProbes {
    /// The system font collection could not be obtained; no family was probed.
    CollectionUnavailable,
    /// One outcome per preferred family, in the order the user gave them.
    Probed(Vec<FamilyProbe>),
}

/// One mapping handed to the fallback builder.
#[derive(Debug)]
pub enum Mapping {
    /// Map `ranges` to the preferred family at index `family`, found in the
    /// system collection.
    Installed { family: usize, ranges: Vec<UnicodeRange> },
    /// Map `ranges` to the bundled family in the bundled collection.
    Bundled { ranges: Vec<UnicodeRange> },
    /// Append every mapping of the system's fallback.
    SystemCascade,
}

/// A mapping with its ranges as a sequence.
pub enum MappingView {
    Installed { family: usize, ranges: Seq<UnicodeRange> },
    Bundled { ranges: Seq<UnicodeRange> },
    SystemCascade,
}

impl View for Mapping {
    type V = MappingView;

    open spec fn view(&self) -> MappingView {
        match self {
            Mapping::Installed { family, ranges } => MappingView::Installed { family: *family, ranges: ranges@ },
            Mapping::Bundled { ranges } => MappingView::Bundled { ranges: ranges@ },
            Mapping::SystemCascade => MappingView::SystemCascade,
        }
    }
}

/// The views of a sequence of mappings.
pub open spec fn mappings_view(mappings: Seq<Mapping>) -> Seq<MappingView> {
    mappings.map_values(|m: Mapping| m@)
}

/// The views of a sequence of probe outcomes.
pub open spec fn probes_view(probes: Seq<FamilyProbe>) -> Seq<FamilyProbeView> {
    probes.map_values(|p: FamilyProbe| p@)
}

/// The private use ranges served by the bundled font.
pub open spec fn spec_private_use_ranges() -> Seq<UnicodeRange> {
    seq![
        UnicodeRange { first: 0xE000, last: 0xF8FF },
        UnicodeRange { first: 0xF0000, last: 0xFFFFD },
        UnicodeRange { first: 0x100000, last: 0x10FFFD },
    ]
}

/// Whether a probe outcome makes its family part of the cascade: it is
/// installed, could be inspected, and covers at least one range.
pub open spec fn usable(probe: FamilyProbeView) -> bool {
    probe matches FamilyProbeView::Inspected(ranges) && ranges.len() > 0
}

/// The ranges of an inspected probe.
pub open spec fn probe_ranges(probe: FamilyProbeView) -> Seq<UnicodeRange> {
    match probe {
        FamilyProbeView::Inspected(ranges) => ranges,
        _ => Seq::empty(),
    }
}

/// The mappings of the preferred families, in the user's order.
pub open spec fn preferred_mappings(probes: Seq<FamilyProbeView>) -> Seq<MappingView>
    decreases probes.len(),
{
    if probes.len() == 0 {
        Seq::empty()
    } else {
        let last = probes.len() - 1;
        let head = preferred_mappings(probes.drop_last());
        if usable(probes[last]) {
            head.push(MappingView::Installed { family: last as usize, ranges: probe_ranges(probes[last]) })
        } else {
            head
        }
    }
}

/// The whole cascade, in builder order.
pub open spec fn spec_plan_cascade(preferred: Option<Seq<FamilyProbeView>>, has_bundled: bool, has_system: bool) -> Seq<MappingView> {
    let installed = match preferred {
        Some(probes) => preferred_mappings(probes),
        None => Seq::empty(),
    };
    let bundled = if has_bundled {
        seq![MappingView::Bundled { ranges: spec_private_use_ranges() }]
    } else {
        Seq::empty()
    };
    let system = if has_system {
        seq![MappingView::SystemCascade]
    } else {
        Seq::empty()
    };
    installed + bundled + system
}

/// The probes that a `PreferredProbes` carries, if any were made.
pub open spec fn probed(preferred: PreferredProbes) -> Option<Seq<FamilyProbeView>> {
    match preferred {
        PreferredProbes::CollectionUnavailable => None,
        PreferredProbes::Probed(probes) => Some(probes_view(probes@)),
    }
}

/// Plans the mappings of the fallback cascade: each usable preferred
/// family in the user's order, then the bundled font over the private use
/// areas when there is a bundled collection, then the system cascade when
/// the system fallback is available.
pub fn plan_cascade(preferred: PreferredProbes, has_bundled: bool, has_system: bool) -> (mappings: Vec<Mapping>)
    ensures
        mappings_view(mappings@) == spec_plan_cascade(probed(preferred), has_bundled, has_system),
        has_bundled <==> exists|k: int| 0 <= k < mappings@.len() && (#[trigger] mappings@[k]) is Bundled,
        forall|k: int| 0 <= k < mappings@.len() && (#[trigger] mappings@[k]) is Bundled ==> {
            &&& mappings@[k]->Bundled_ranges@ == seq![
                    UnicodeRange { first: 0xE000, last: 0xF8FF },
                    UnicodeRange { first: 0xF0000, last: 0xFFFFD },
                    UnicodeRange { first: 0x100000, last: 0x10FFFD },
                ]
            &&& forall|cp: int| covers(mappings@[k]->Bundled_ranges@, cp) <==> is_private_use(cp)
        },
{
    let mut mappings: Vec<Mapping> = Vec::new();
    match preferred {
        PreferredProbes::CollectionUnavailable => {},
        PreferredProbes::Probed(probes) => {
            let ghost all = probes_view(probes@);
            let n = probes.len();
            let mut family: usize = 0;
            for probe in it: probes.into_iter()
                invariant
                    n == all.len(),
                    it.seq().len() == n,
                    forall|i: int| 0 <= i < n ==> #[trigger] it.seq()[i]@ == all[i],
                    family == it.index(),
                    mappings_view(mappings@) == preferred_mappings(all.take(family as int)),
            {
                let ghost before = all.take(family as int);
                let ghost after = all.take(family + 1);
                assert(after.drop_last() == before);
                assert(after[family as int] == probe@);
                match probe {
                    FamilyProbe::Inspected(ranges) => {
                        if ranges.len() > 0 {
                            mappings.push(Mapping::Installed { family, ranges });
                        }
                    },
                    _ => {},
                }
                assert(mappings_view(mappings@) == preferred_mappings(after));
                family = family + 1;
            }
            assert(all.take(n as int) == all);
        },
    }
    if has_bundled {
        mappings.push(Mapping::Bundled { ranges: private_use_ranges() });
    }
    if has_system {
        mappings.push(Mapping::SystemCascade);
    }
    proof {
        let plan = spec_plan_cascade(probed(preferred), has_bundled, has_system);
        lemma_cascade_order(probed(preferred), has_bundled, has_system);
        assert forall|k: int| 0 <= k < mappings@.len() implies (#[trigger] mappings@[k]) is Bundled == plan[k] is Bundled
            && (mappings@[k] is Bundled ==> mappings@[k]->Bundled_ranges@ == plan[k]->Bundled_ranges) by {
            assert(mappings_view(mappings@)[k] == mappings@[k]@);
        }
        if has_bundled {
            let k = choose|k: int| 0 <= k < plan.len() && (#[trigger] plan[k]) is Bundled;
            assert(mappings@[k] is Bundled);
        }
    }
    mappings
}

/// Whether the caller builds a cascade of its own or hands on the system
/// fallback unchanged.
#[derive(Debug, PartialEq, Eq, Structural)]
pub enum CascadeStart {
    /// Nothing to add: use the system fallback as it is.
    SystemOnly,
    /// Build a cascade from the planned mappings.
    Custom,
}

/// A custom cascade is built only when there are preferred families or a
/// bundled collection to put in it.
pub fn cascade_start(preferred_count: usize, has_bundled: bool) -> (start: CascadeStart)
    ensures
        start == (if preferred_count == 0 && !has_bundled {
            CascadeStart::SystemOnly
        } else {
            CascadeStart::Custom
        }),
{
    if preferred_count == 0 && !has_bundled {
        CascadeStart::SystemOnly
    } else {
        CascadeStart::Custom
    }
}

/// The fallback handed back after building: the built cascade when the
/// builder produced one, else the system fallback.
pub fn cascade_result<T>(built: Option<T>, system: Option<T>) -> (r: Option<T>)
    ensures
        built is Some ==> r == built,
        built is None ==> r == system,
{
    match built {
        Some(fallback) => Some(fallback),
        None => system,
    }
}


/// The family index of an installed mapping.
pub open spec fn installed_family(m: MappingView) -> int {
    match m {
        MappingView::Installed { family, .. } => family as int,
        _ => -1,
    }
}

/// The mappings of the preferred families are installed mappings of usable
/// families with those families' ranges, in strictly increasing family
/// order, and every usable family has one.
pub proof fn lemma_preferred_mappings(probes: Seq<FamilyProbeView>)
    requires
        probes.len() <= usize::MAX + 1,
    ensures
        forall|k: int| 0 <= k < preferred_mappings(probes).len() ==> {
            let m = #[trigger] preferred_mappings(probes)[k];
            &&& m is Installed
            &&& 0 <= installed_family(m) < probes.len()
            &&& usable(probes[installed_family(m)])
            &&& m->Installed_ranges == probe_ranges(probes[installed_family(m)])
        },
        forall|k: int, l: int| 0 <= k < l < preferred_mappings(probes).len()
            ==> installed_family(#[trigger] preferred_mappings(probes)[k]) < installed_family(#[trigger] preferred_mappings(probes)[l]),
        forall|i: int| 0 <= i < probes.len() && usable(#[trigger] probes[i]) ==> exists|k: int|
            0 <= k < preferred_mappings(probes).len() && installed_family(#[trigger] preferred_mappings(probes)[k]) == i,
    decreases probes.len(),
{
    if probes.len() > 0 {
        let prefix = probes.drop_last();
        let last = probes.len() - 1;
        lemma_preferred_mappings(prefix);
        let head = preferred_mappings(prefix);
        assert forall|k: int| 0 <= k < head.len() implies installed_family(#[trigger] head[k]) < last by {
        }
        assert forall|i: int| 0 <= i < probes.len() && usable(#[trigger] probes[i]) implies exists|k: int|
            0 <= k < preferred_mappings(probes).len() && installed_family(#[trigger] preferred_mappings(probes)[k]) == i by {
            if i < last {
                assert(prefix[i] == probes[i]);
                let k = choose|k: int| 0 <= k < head.len() && installed_family(#[trigger] head[k]) == i;
                assert(preferred_mappings(probes)[k] == head[k]);
            } else {
                assert(preferred_mappings(probes)[head.len() as int] == MappingView::Installed {
                    family: last as usize,
                    ranges: probe_ranges(probes[last]),
                });
            }
        }
        assert forall|k: int| 0 <= k < head.len() implies #[trigger] probes[installed_family(head[k])] == prefix[installed_family(head[k])] by {
        }
    }
}

/// The order of the cascade: a preferred family reaches the builder exactly
/// when its probe is usable, with the ranges it reported; the bundled
/// mapping is there exactly when there is a bundled collection, and always
/// covers the three private use areas, whatever else the plan holds; preferred
/// families keep the user's order and all come before the bundled mapping,
/// which comes before the system cascade; the system cascade, when there
/// is one, comes last.
pub proof fn lemma_cascade_order(preferred: Option<Seq<FamilyProbeView>>, has_bundled: bool, has_system: bool)
    requires
        preferred matches Some(probes) ==> probes.len() <= usize::MAX + 1,
    ensures
        ({
            let plan = spec_plan_cascade(preferred, has_bundled, has_system);
            let probes = match preferred {
                Some(probes) => probes,
                None => Seq::empty(),
            };
            &&& forall|i: int| 0 <= i < probes.len() && usable(#[trigger] probes[i])
                ==> exists|k: int| 0 <= k < plan.len() && #[trigger] plan[k] == (MappingView::Installed {
                    family: i as usize,
                    ranges: probe_ranges(probes[i]),
                })
            &&& forall|k: int| 0 <= k < plan.len() && (#[trigger] plan[k]) is Installed ==> {
                &&& 0 <= installed_family(plan[k]) < probes.len()
                &&& usable(probes[installed_family(plan[k])])
                &&& plan[k]->Installed_ranges == probe_ranges(probes[installed_family(plan[k])])
            }
            &&& forall|k: int, l: int| 0 <= k < l < plan.len() && (#[trigger] plan[k]) is Installed && (#[trigger] plan[l]) is Installed
                ==> installed_family(plan[k]) < installed_family(plan[l])
            &&& forall|k: int, l: int| 0 <= k < plan.len() && 0 <= l < plan.len() && (#[trigger] plan[k]) is Installed && !((#[trigger] plan[l]) is Installed)
                ==> k < l
            &&& forall|k: int, l: int| 0 <= k < plan.len() && 0 <= l < plan.len() && (#[trigger] plan[k]) is Bundled && (#[trigger] plan[l]) is SystemCascade
                ==> k < l
            &&& (exists|k: int| 0 <= k < plan.len() && (#[trigger] plan[k]) is Bundled) <==> has_bundled
            &&& forall|k: int| 0 <= k < plan.len() && (#[trigger] plan[k]) is Bundled ==> {
                &&& plan[k]->Bundled_ranges == seq![
                    UnicodeRange { first: 0xE000, last: 0xF8FF },
                    UnicodeRange { first: 0xF0000, last: 0xFFFFD },
                    UnicodeRange { first: 0x100000, last: 0x10FFFD },
                ]
                &&& forall|cp: int| covers(plan[k]->Bundled_ranges, cp) <==> is_private_use(cp)
            }
            &&& has_system <==> (plan.len() > 0 && plan.last() is SystemCascade)
        }),
{
    let probes = match preferred {
        Some(probes) => probes,
        None => Seq::empty(),
    };
    let installed = preferred_mappings(probes);
    assert(installed == match preferred {
        Some(p) => preferred_mappings(p),
        None => Seq::<MappingView>::empty(),
    });
    lemma_preferred_mappings(probes);
    let plan = spec_plan_cascade(preferred, has_bundled, has_system);
    let n = installed.len();
    assert forall|k: int| 0 <= k < n implies #[trigger] plan[k] == installed[k] by {}
    assert forall|k: int| n <= k < plan.len() implies !((#[trigger] plan[k]) is Installed) by {}
    assert forall|i: int| 0 <= i < probes.len() && usable(#[trigger] probes[i])
        implies exists|k: int| 0 <= k < plan.len() && #[trigger] plan[k] == (MappingView::Installed {
            family: i as usize,
            ranges: probe_ranges(probes[i]),
        }) by {
        let k = choose|k: int| 0 <= k < n && installed_family(#[trigger] installed[k]) == i;
        assert(plan[k] == installed[k]);
    }
    if has_bundled {
        assert(plan[n as int] is Bundled);
    }
    assert forall|k: int| 0 <= k < plan.len() && (#[trigger] plan[k]) is Bundled implies {
        &&& plan[k]->Bundled_ranges == seq![
                    UnicodeRange { first: 0xE000, last: 0xF8FF },
                    UnicodeRange { first: 0xF0000, last: 0xFFFFD },
                    UnicodeRange { first: 0x100000, last: 0x10FFFD },
                ]
        &&& forall|cp: int| covers(plan[k]->Bundled_ranges, cp) <==> is_private_use(cp)
    } by {
        assert(k == n);
        lemma_private_use_cover(plan[k]->Bundled_ranges);
    }
}

/// The three private use ranges cover exactly the private use code points.
pub proof fn lemma_private_use_cover(ranges: Seq<UnicodeRange>)
    requires
        ranges == seq![
                    UnicodeRange { first: 0xE000, last: 0xF8FF },
                    UnicodeRange { first: 0xF0000, last: 0xFFFFD },
                    UnicodeRange { first: 0x100000, last: 0x10FFFD },
                ],
    ensures
        forall|cp: int| covers(ranges, cp) <==> is_private_use(cp),
{
    assert forall|cp: int| covers(ranges, cp) <==> is_private_use(cp) by {
        if is_private_use(cp) {
            if 0xE000 <= cp <= 0xF8FF {
                assert(ranges[0].contains(cp));
            } else if 0xF0000 <= cp <= 0xFFFFD {
                assert(ranges[1].contains(cp));
            } else {
                assert(ranges[2].contains(cp));
            }
        }
    }
}

} // verus!
