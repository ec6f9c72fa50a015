//! Choosing from a catalog: the entry selected by default, the entries that
//! are shown under a visibility flag, and what becomes of a selection when the
//! flag changes.
//!
//! Nothing here does I/O. Every function is stated over the models of the
//! entries, in the order of the catalog.
use crate::catalog::{BaseVersion, BaseVersionView, Entry, LoaderVersion, LoaderVersionView, is_beta_text};
use vstd::prelude::*;

verus! {

/// Whether an entry is shown: a release always, a pre-release only when
/// pre-releases are asked for.
pub open spec fn shown<E: Entry>(model: E::V, show_prerelease: bool) -> bool {
    show_prerelease || !E::prerelease(model)
}

/// The entries of `catalog` that are shown, in the catalog's order.
pub open spec fn visible_models<E: Entry>(catalog: Seq<E::V>, show_prerelease: bool) -> Seq<E::V> {
    catalog.filter(|model: E::V| shown::<E>(model, show_prerelease))
}

/// Whether `catalog` holds a release at all.
pub open spec fn has_release<E: Entry>(catalog: Seq<E::V>) -> bool {
    exists|i: int| 0 <= i < catalog.len() && !E::prerelease(#[trigger] catalog[i])
}

/// Whether position `i` of `catalog` holds a release and no earlier position
/// does.
pub open spec fn is_first_release<E: Entry>(catalog: Seq<E::V>, i: int) -> bool {
    &&& 0 <= i < catalog.len()
    &&& !E::prerelease(catalog[i])
    &&& forall|j: int| 0 <= j < i ==> E::prerelease(#[trigger] catalog[j])
}

/// The default choice from `catalog`: its first release, if it has one.
pub open spec fn default_model<E: Entry>(catalog: Seq<E::V>) -> Option<E::V> {
    if exists|i: int| is_first_release::<E>(catalog, i) {
        Some(catalog[choose|i: int| is_first_release::<E>(catalog, i)])
    } else {
        None
    }
}

/// What a selection becomes when the list of visible entries changes to
/// `visible`: it stays while it is still in the list; otherwise the list's
/// default takes its place. No selection stays no selection.
pub open spec fn reselected<E: Entry>(selected: Option<E::V>, visible: Seq<E::V>) -> Option<E::V> {
    match selected {
        None => None,
        Some(model) => if visible.contains(model) {
            Some(model)
        } else {
            default_model::<E>(visible)
        },
    }
}

/// At most one position of a catalog holds its first release.
pub proof fn first_release_is_unique<E: Entry>(catalog: Seq<E::V>, i: int, k: int)
    requires
        is_first_release::<E>(catalog, i),
        is_first_release::<E>(catalog, k),
    ensures
        i == k,
{
    if i < k {
        assert(E::prerelease(catalog[i]));
    } else if k < i {
        assert(E::prerelease(catalog[k]));
    }
}

/// A catalog that holds a release at position `at` holds a first release, at
/// `at` or before it.
pub proof fn first_release_exists<E: Entry>(catalog: Seq<E::V>, at: int) -> (first: int)
    requires
        0 <= at < catalog.len(),
        !E::prerelease(catalog[at]),
    ensures
        is_first_release::<E>(catalog, first),
        first <= at,
    decreases at,
{
    if exists|j: int| 0 <= j < at && !E::prerelease(#[trigger] catalog[j]) {
        let j = choose|j: int| 0 <= j < at && !E::prerelease(#[trigger] catalog[j]);
        first_release_exists::<E>(catalog, j)
    } else {
        at
    }
}

/// The default choice is a release of the catalog whenever the catalog holds
/// a release, and there is no default choice only when it holds none.
pub proof fn default_is_a_release<E: Entry>(catalog: Seq<E::V>)
    ensures
        has_release::<E>(catalog) <==> default_model::<E>(catalog) is Some,
        default_model::<E>(catalog) matches Some(model) ==> !E::prerelease(model)
            && catalog.contains(model),
{
    if has_release::<E>(catalog) {
        let at = choose|i: int| 0 <= i < catalog.len() && !E::prerelease(#[trigger] catalog[i]);
        let first = first_release_exists::<E>(catalog, at);
    }
    if exists|i: int| is_first_release::<E>(catalog, i) {
        let i = choose|i: int| is_first_release::<E>(catalog, i);
        assert(!E::prerelease(catalog[i]));
    }
}

/// For every catalog of base versions that holds a stable entry, the default
/// choice is a stable entry of that catalog, and the first such.
pub proof fn default_base_version_is_stable(catalog: Seq<BaseVersionView>)
    requires
        exists|i: int| 0 <= i < catalog.len() && (#[trigger] catalog[i]).stable,
    ensures
        default_model::<BaseVersion>(catalog) matches Some(chosen) && chosen.stable
            && exists|i: int|
            is_first_release::<BaseVersion>(catalog, i) && catalog[i] == chosen,
{
    let at = choose|i: int| 0 <= i < catalog.len() && (#[trigger] catalog[i]).stable;
    let first = first_release_exists::<BaseVersion>(catalog, at);
    default_is_a_release::<BaseVersion>(catalog);
    let i = choose|i: int| is_first_release::<BaseVersion>(catalog, i);
    assert(is_first_release::<BaseVersion>(catalog, i) && catalog[i] == default_model::<
        BaseVersion,
    >(catalog)->0);
}

/// For every catalog of loader versions that holds a build which is no beta,
/// the default choice is an entry of that catalog whose version text is free
/// of the beta marker, and the first such.
pub proof fn default_loader_version_is_no_beta(catalog: Seq<LoaderVersionView>)
    requires
        exists|i: int| 0 <= i < catalog.len() && !is_beta_text((#[trigger] catalog[i]).version),
    ensures
        default_model::<LoaderVersion>(catalog) matches Some(chosen) && !is_beta_text(
            chosen.version,
        ) && exists|i: int| is_first_release::<LoaderVersion>(catalog, i) && catalog[i] == chosen,
{
    let at = choose|i: int| 0 <= i < catalog.len() && !is_beta_text((#[trigger] catalog[i]).version);
    let first = first_release_exists::<LoaderVersion>(catalog, at);
    default_is_a_release::<LoaderVersion>(catalog);
    let i = choose|i: int| is_first_release::<LoaderVersion>(catalog, i);
    assert(is_first_release::<LoaderVersion>(catalog, i) && catalog[i] == default_model::<
        LoaderVersion,
    >(catalog)->0);
}

/// An entry is among the visible ones exactly when it is in the catalog and
/// is shown under the flag.
pub proof fn visible_means_shown<E: Entry>(catalog: Seq<E::V>, show_prerelease: bool, model: E::V)
    ensures
        visible_models::<E>(catalog, show_prerelease).contains(model) <==> catalog.contains(model)
            && shown::<E>(model, show_prerelease),
{
    let pred = |m: E::V| shown::<E>(m, show_prerelease);
    let visible = catalog.filter(pred);
    if visible.contains(model) {
        let i = choose|i: int| 0 <= i < visible.len() && visible[i] == model;
        catalog.lemma_filter_pred(pred, i);
        catalog.lemma_filter_contains_rev(pred, model);
    }
    if catalog.contains(model) && shown::<E>(model, show_prerelease) {
        let i = choose|i: int| 0 <= i < catalog.len() && catalog[i] == model;
        catalog.lemma_filter_contains(pred, i);
    }
}

/// Whatever the selection was and whatever list is now visible, the selection
/// that results is none or an entry of that list; and a selection that is
/// still in the list is kept.
pub proof fn reselection_is_visible<E: Entry>(selected: Option<E::V>, visible: Seq<E::V>)
    ensures
        reselected::<E>(selected, visible) matches Some(model) ==> visible.contains(model),
        selected matches Some(model) && visible.contains(model) ==> reselected::<E>(
            selected,
            visible,
        ) == selected,
{
    default_is_a_release::<E>(visible);
}

/// Changing the visibility flag of a catalog never leaves a selection outside
/// what the new flag shows: after reselection against the newly visible
/// entries, the selection is none, or an entry of the catalog that the flag
/// shows.
pub proof fn toggle_keeps_selection_visible<E: Entry>(
    catalog: Seq<E::V>,
    selected: Option<E::V>,
    show_prerelease: bool,
)
    ensures
        reselected::<E>(selected, visible_models::<E>(catalog, show_prerelease)) matches Some(
            model,
        ) ==> catalog.contains(model) && shown::<E>(model, show_prerelease),
{
    let visible = visible_models::<E>(catalog, show_prerelease);
    reselection_is_visible::<E>(selected, visible);
    match reselected::<E>(selected, visible) {
        Some(model) => {
            visible_means_shown::<E>(catalog, show_prerelease, model);
        },
        None => {},
    }
}

/// The default choice from `catalog`: a copy of its first release, or `None`
/// where the catalog holds no release.
pub fn default_entry<E: Entry>(catalog: &Vec<E>) -> (chosen: Option<E>)
    ensures
        chosen.deep_view() == default_model::<E>(catalog.deep_view()),
{
    let ghost models = catalog.deep_view();
    let mut i: usize = 0;
    while i < catalog.len()
        invariant
            i <= catalog.len(),
            models == catalog.deep_view(),
            forall|j: int| 0 <= j < i ==> E::prerelease(#[trigger] models[j]),
        decreases catalog.len() - i,
    {
        if !catalog[i].is_prerelease() {
            let chosen = catalog[i].duplicate();
            proof {
                assert(is_first_release::<E>(models, i as int));
                let k = choose|k: int| is_first_release::<E>(models, k);
                first_release_is_unique::<E>(models, i as int, k);
            }
            return Some(chosen);
        }
        i += 1;
    }
    proof {
        assert forall|k: int| !is_first_release::<E>(models, k) by {
            if 0 <= k < models.len() {
                assert(E::prerelease(models[k]));
            }
        }
    }
    None
}

/// The base version selected by default: the first stable entry of the
/// catalog.
pub fn default_base_version(catalog: &Vec<BaseVersion>) -> (chosen: Option<BaseVersion>)
    ensures
        chosen.deep_view() == default_model::<BaseVersion>(catalog.deep_view()),
{
    default_entry(catalog)
}

/// The loader version selected by default: the first entry of the catalog
/// whose version text is free of the beta marker.
pub fn default_loader_version(catalog: &Vec<LoaderVersion>) -> (chosen: Option<LoaderVersion>)
    ensures
        chosen.deep_view() == default_model::<LoaderVersion>(catalog.deep_view()),
{
    default_entry(catalog)
}

/// The entries of `catalog` that are shown under the flag, in the catalog's
/// order: all of them when `show_prerelease` is set, the releases alone when
/// it is not.
pub fn visible_subset<E: Entry>(catalog: &Vec<E>, show_prerelease: bool) -> (visible: Vec<E>)
    ensures
        visible.deep_view() == visible_models::<E>(catalog.deep_view(), show_prerelease),
{
    let ghost models = catalog.deep_view();
    let ghost pred = |model: E::V| shown::<E>(model, show_prerelease);
    let mut visible: Vec<E> = Vec::new();
    let mut i: usize = 0;
    proof {
        assert(models.take(0) =~= Seq::<E::V>::empty());
        assert(visible.deep_view() =~= models.take(0).filter(pred));
    }
    while i < catalog.len()
        invariant
            i <= catalog.len(),
            models == catalog.deep_view(),
            pred == (|model: E::V| shown::<E>(model, show_prerelease)),
            visible.deep_view() == models.take(i as int).filter(pred),
        decreases catalog.len() - i,
    {
        let ghost before = visible.deep_view();
        let keep = show_prerelease || !catalog[i].is_prerelease();
        if keep {
            let copy = catalog[i].duplicate();
            visible.push(copy);
        }
        proof {
            let prefix = models.take(i as int);
            assert(models.take(i + 1) =~= prefix.push(models[i as int]));
            Seq::lemma_filter_push(prefix, models[i as int], pred);
            if keep {
                assert(visible.deep_view() =~= before.push(models[i as int]));
            } else {
                assert(visible.deep_view() =~= before);
            }
        }
        i += 1;
    }
    proof {
        assert(models.take(i as int) =~= models);
    }
    visible
}

/// Whether `entry` is one of `entries`.
pub fn contains_entry<E: Entry>(entries: &Vec<E>, entry: &E) -> (found: bool)
    ensures
        found == entries.deep_view().contains(entry.deep_view()),
{
    let ghost models = entries.deep_view();
    let mut i: usize = 0;
    while i < entries.len()
        invariant
            i <= entries.len(),
            models == entries.deep_view(),
            forall|j: int| 0 <= j < i ==> models[j] != entry.deep_view(),
        decreases entries.len() - i,
    {
        if entries[i].same_as(entry) {
            assert(models[i as int] == entry.deep_view());
            return true;
        }
        i += 1;
    }
    false
}

/// The selection after the visible entries have changed to `visible`.
///
/// A selection that is still visible is kept as it is. One that is no longer
/// visible gives way to the default choice from `visible`. Where nothing was
/// selected, nothing is selected.
pub fn reselect<E: Entry>(selected: Option<E>, visible: &Vec<E>) -> (kept: Option<E>)
    ensures
        kept.deep_view() == reselected::<E>(selected.deep_view(), visible.deep_view()),
{
    match selected {
        None => None,
        Some(entry) => {
            if contains_entry(visible, &entry) {
                Some(entry)
            } else {
                default_entry(visible)
            }
        },
    }
}

} // verus!
