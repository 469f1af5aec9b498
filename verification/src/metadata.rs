//! The per-remote metadata collection: components keyed by package
//! identifier, disambiguated by the exact bundle reference string.

use vstd::prelude::*;

verus! {

/// One bundle declaration of a component. Only flatpak bundles carry the
/// reference string used for disambiguation; every other bundle kind is
/// carried opaquely.
pub enum Bundle {
    Flatpak { reference: String },
    Other,
}

/// One entry of a metadata collection: a package identifier together with the
/// default-locale presentation fields and the declared bundles.
pub struct Component {
    pub id: String,
    pub name: Option<String>,
    pub summary: Option<String>,
    pub description: Option<String>,
    pub bundles: Vec<Bundle>,
}

/// The reference string a bundle declares, if it is a flatpak bundle.
pub open spec fn bundle_reference(b: Bundle) -> Option<Seq<char>> {
    match b {
        Bundle::Flatpak { reference } => Some(reference@),
        Bundle::Other => None,
    }
}

/// The reference string of the first flatpak bundle at index `i` or later,
/// or the empty string when none is declared.
pub open spec fn ref_name_from(bundles: Seq<Bundle>, i: int) -> Seq<char>
    decreases bundles.len() - i when 0 <= i <= bundles.len()
{
    if i >= bundles.len() {
        Seq::empty()
    } else {
        match bundle_reference(bundles[i]) {
            Some(r) => r,
            None => ref_name_from(bundles, i + 1),
        }
    }
}

/// The reference string tying a component to a ref: the first flatpak
/// bundle's reference, or the empty string when the component declares none.
pub open spec fn component_ref_name(c: Component) -> Seq<char> {
    ref_name_from(c.bundles@, 0)
}

/// Whether a component is the one a ref's metadata lookup asks for: the
/// identifiers agree and the declared reference string matches exactly.
pub open spec fn component_matches(c: Component, id: Seq<char>, ref_name: Seq<char>) -> bool {
    c.id@ == id && component_ref_name(c) == ref_name
}

/// The index of the first matching component at position `i` or later.
pub open spec fn first_match_from(
    components: Seq<Component>,
    id: Seq<char>,
    ref_name: Seq<char>,
    i: int,
) -> Option<int>
    decreases components.len() - i when 0 <= i <= components.len()
{
    if i >= components.len() {
        None
    } else if component_matches(components[i], id, ref_name) {
        Some(i)
    } else {
        first_match_from(components, id, ref_name, i + 1)
    }
}

/// What a metadata lookup yields: the index of the first component, in
/// document order, whose identifier and declared reference string both match.
pub open spec fn first_match(
    components: Seq<Component>,
    id: Seq<char>,
    ref_name: Seq<char>,
) -> Option<int> {
    first_match_from(components, id, ref_name, 0)
}

/// A found index always designates a matching component within bounds.
pub proof fn lemma_first_match_is_match(
    components: Seq<Component>,
    id: Seq<char>,
    ref_name: Seq<char>,
    i: int,
)
    requires
        0 <= i <= components.len(),
    ensures
        first_match_from(components, id, ref_name, i) matches Some(j) ==> i <= j
            < components.len() && component_matches(components[j], id, ref_name),
    decreases components.len() - i,
{
    if i < components.len() && !component_matches(components[i], id, ref_name) {
        lemma_first_match_is_match(components, id, ref_name, i + 1);
    }
}

/// Matching is exact-reference-scoped: of two components sharing an
/// identifier, the lookup yields the one whose declared reference string
/// equals the queried one, never the one whose string differs.
pub proof fn lemma_match_is_exact(
    c_other: Component,
    c_exact: Component,
    id: Seq<char>,
    ref_name: Seq<char>,
)
    requires
        c_other.id@ == id,
        c_exact.id@ == id,
        component_ref_name(c_other) != ref_name,
        component_ref_name(c_exact) == ref_name,
    ensures
        first_match(seq![c_other, c_exact], id, ref_name) == Some(1int),
        first_match(seq![c_other], id, ref_name) is None,
{
    let both = seq![c_other, c_exact];
    assert(first_match_from(both, id, ref_name, 0) == first_match_from(both, id, ref_name, 1));
    let one = seq![c_other];
    assert(first_match_from(one, id, ref_name, 0) == first_match_from(one, id, ref_name, 1));
}

/// The reference string tying a component to a ref: the reference of its
/// first flatpak bundle, or the empty string when it declares none.
pub fn get_ref_name(component: &Component) -> (r: String)
    ensures
        r@ == component_ref_name(*component),
{
    let mut i: usize = 0;
    while i < component.bundles.len()
        invariant
            i <= component.bundles@.len(),
            ref_name_from(component.bundles@, 0) == ref_name_from(component.bundles@, i as int),
        decreases component.bundles@.len() - i,
    {
        match &component.bundles[i] {
            Bundle::Flatpak { reference } => {
                return reference.clone();
            },
            Bundle::Other => {},
        }
        i += 1;
    }
    String::new()
}

/// Looks a component up by package identifier and exact formatted reference
/// string: the index of the first component, in document order, matching
/// both. Yields nothing when no component matches exactly; callers fall back
/// to the data the ref itself provides.
pub fn find_component(
    components: &Vec<Component>,
    id: &String,
    ref_name: &String,
) -> (r: Option<usize>)
    ensures
        (match r {
            Some(i) => Some(i as int),
            None => None,
        }) == first_match(components@, id@, ref_name@),
        r matches Some(i) ==> i < components@.len(),
{
    let mut i: usize = 0;
    while i < components.len()
        invariant
            i <= components@.len(),
            first_match(components@, id@, ref_name@) == first_match_from(
                components@,
                id@,
                ref_name@,
                i as int,
            ),
        decreases components@.len() - i,
    {
        let c = &components[i];
        if c.id == *id {
            let rn = get_ref_name(c);
            if rn == *ref_name {
                return Some(i);
            }
        }
        i += 1;
    }
    None
}

} // verus!
