//! The datasets that enrichers consult, held in µSIEM's `DatasetHolder`.
use vstd::prelude::*;
use usiem::components::dataset::holder::DatasetHolder;
use usiem::components::dataset::SiemDataset;

verus! {

/// The holder keeps at most one dataset per dataset type.
#[verifier::external_type_specification]
#[verifier::external_body]
pub struct ExDatasetHolder(DatasetHolder);

/// What a holder holds: for each dataset type present, written as the `Debug`
/// text of its `SiemDatasetType` (which tells every type apart, custom names
/// included), the dataset held under it.
pub uninterp spec fn held_datasets(holder: DatasetHolder) -> Map<Seq<char>, SiemDataset>;

/// A holder's contents when it holds nothing.
pub open spec fn no_datasets() -> Map<Seq<char>, SiemDataset> {
    Map::empty()
}

/// The key under which a holder files a dataset: the `Debug` text of the
/// dataset's `SiemDatasetType` (what `SiemDataset::dataset_type` returns).
pub uninterp spec fn dataset_key(dataset: SiemDataset) -> Seq<char>;

/// Calls `DatasetHolder::new`, which builds a holder with an empty map: it holds
/// no dataset.
#[verifier::external_body]
pub fn empty_holder() -> (holder: DatasetHolder)
    ensures
        held_datasets(holder) == no_datasets(),
{
    DatasetHolder::new()
}

/// Calls `DatasetHolder::insert`, which stores the dataset in its map under the
/// dataset's type, replacing a dataset of the same type. The returned text is
/// the `Debug` form of that type, the dataset's key: the holder afterwards
/// holds what it held before, with this dataset under its key.
#[verifier::external_body]
pub fn insert_dataset(holder: &mut DatasetHolder, dataset: SiemDataset) -> (key: String)
    ensures
        key@ == dataset_key(dataset),
        held_datasets(*final(holder)) == held_datasets(*old(holder)).insert(key@, dataset),
{
    let key = format!("{:?}", dataset.dataset_type());
    holder.insert(dataset);
    key
}

/// Calls the derived `Clone` of `DatasetHolder`, which clones its map: the copy
/// holds the same datasets under the same types. (A `SiemDataset` is a handle:
/// its derived `Clone` clones the `Arc` of the data and the update channel, so
/// both copies share one dataset.)
#[verifier::external_body]
pub fn clone_holder(holder: &DatasetHolder) -> (copy: DatasetHolder)
    ensures
        held_datasets(copy) == held_datasets(*holder),
{
    holder.clone()
}

} // verus!

verus! {

/// The datasets held after adding these, in order, to those of `held`: each
/// goes under its key, a later one replacing an earlier one of the same type.
pub open spec fn with_added(
    held: Map<Seq<char>, SiemDataset>,
    datasets: Seq<SiemDataset>,
) -> Map<Seq<char>, SiemDataset>
    decreases datasets.len(),
{
    if datasets.len() == 0 {
        held
    } else {
        with_added(held, datasets.drop_last()).insert(dataset_key(datasets.last()), datasets.last())
    }
}

/// The keys of the types of the datasets in a list.
pub open spec fn keys_of(datasets: Seq<SiemDataset>) -> Set<Seq<char>> {
    Set::new(|key: Seq<char>| exists|i: int| 0 <= i < datasets.len() && dataset_key(#[trigger] datasets[i]) == key)
}

/// Whether no dataset after position `i` in the list has the same type.
pub open spec fn last_of_its_type(datasets: Seq<SiemDataset>, i: int) -> bool {
    forall|j: int| i < j < datasets.len() ==> dataset_key(#[trigger] datasets[j]) != dataset_key(datasets[i])
}

/// Adding datasets in order holds exactly the types held before and those of
/// the list; under a type of the list, the last dataset of that type; under
/// any other type, what was held before.
pub proof fn lemma_added_datasets_are_held(held: Map<Seq<char>, SiemDataset>, datasets: Seq<SiemDataset>)
    ensures
        with_added(held, datasets).dom() == held.dom().union(keys_of(datasets)),
        forall|i: int|
            0 <= i < datasets.len() && last_of_its_type(datasets, i) ==> with_added(held, datasets)[dataset_key(
                #[trigger] datasets[i],
            )] == datasets[i],
        forall|key: Seq<char>|
            held.dom().contains(key) && !keys_of(datasets).contains(key) ==> #[trigger] with_added(
                held,
                datasets,
            )[key] == held[key],
    decreases datasets.len(),
{
    if datasets.len() > 0 {
        let rest = datasets.drop_last();
        let last = datasets.last();
        lemma_added_datasets_are_held(held, rest);
        let result = with_added(held, datasets);
        assert(result == with_added(held, rest).insert(dataset_key(last), last));
        assert forall|key: Seq<char>| #[trigger] keys_of(datasets).contains(key) <==> (keys_of(rest).contains(key)
            || key == dataset_key(last)) by {
            if keys_of(datasets).contains(key) {
                let i = choose|i: int| 0 <= i < datasets.len() && dataset_key(#[trigger] datasets[i]) == key;
                if i < rest.len() {
                    assert(dataset_key(rest[i]) == key);
                }
            }
            if keys_of(rest).contains(key) {
                let i = choose|i: int| 0 <= i < rest.len() && dataset_key(#[trigger] rest[i]) == key;
                assert(dataset_key(datasets[i]) == key);
            }
            if key == dataset_key(last) {
                assert(dataset_key(datasets[datasets.len() - 1]) == key);
            }
        }
        assert(result.dom() =~= held.dom().union(keys_of(datasets)));
        assert forall|i: int|
            0 <= i < datasets.len() && last_of_its_type(datasets, i) implies result[dataset_key(
                #[trigger] datasets[i],
            )] == datasets[i] by {
            if i < rest.len() {
                assert(dataset_key(datasets[datasets.len() - 1]) != dataset_key(datasets[i]));
                assert(last_of_its_type(rest, i)) by {
                    assert forall|j: int| i < j < rest.len() implies dataset_key(#[trigger] rest[j]) != dataset_key(
                        rest[i],
                    ) by {
                        assert(rest[j] == datasets[j]);
                    }
                }
                assert(rest[i] == datasets[i]);
            }
        }
    }
}

} // verus!
