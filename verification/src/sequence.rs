//! The ordered sequence of images that stands for one day.
//!
//! Images are known by name only: a path or file name as text. Which names
//! count as images is decided here; their order is the natural order of the
//! `alphanumeric_sort` crate, in which a run of digits counts as a number.

use vstd::prelude::*;
use vstd::string::StrSliceExecFns;
use crate::failure::ConfigurationError;

verus! {

/// `name` ends in a dot and `ext`, and the dot has a stem before it: at least
/// one character, the last of which is not the path separator `/`. So
/// `dir/a.png` has the extension `png`, while `.png` and `dir/.png` have none.
pub open spec fn has_extension(name: Seq<char>, ext: Seq<char>) -> bool {
    let dot = name.len() - ext.len() - 1;
    &&& dot >= 1
    &&& name[dot] == '.'
    &&& name[dot - 1] != '/'
    &&& name.subrange(dot + 1, name.len() as int) == ext
}

/// The names that are taken for images: those with the extension `jpg`,
/// `jpeg` or `png`, in lower case.
pub open spec fn is_image_name(name: Seq<char>) -> bool {
    has_extension(name, "jpg"@) || has_extension(name, "jpeg"@) || has_extension(name, "png"@)
}

/// [`is_image_name`] as a predicate to filter by.
pub open spec fn image_name_filter() -> spec_fn(Seq<char>) -> bool {
    |name: Seq<char>| is_image_name(name)
}

/// The image names among `names`, in the order they came in.
pub open spec fn image_names(names: Seq<Seq<char>>) -> Seq<Seq<char>> {
    names.filter(image_name_filter())
}

/// Whether `name` has the extension `ext`.
pub fn ends_with_extension(name: &str, ext: &str) -> (found: bool)
    ensures
        found == has_extension(name@, ext@),
{
    let n: usize = name.unicode_len();
    let m: usize = ext.unicode_len();
    if n < 2 || n - 2 < m {
        return false;
    }
    let dot: usize = n - m - 1;
    if name.get_char(dot) != '.' || name.get_char(dot - 1) == '/' {
        return false;
    }
    let mut k: usize = 0;
    while k < m
        invariant
            n == name@.len(),
            m == ext@.len(),
            dot == n - m - 1,
            dot >= 1,
            k <= m,
            forall|j: int| 0 <= j < k ==> name@[dot + 1 + j] == ext@[j],
        decreases m - k,
    {
        if name.get_char(dot + 1 + k) != ext.get_char(k) {
            assert(name@.subrange(dot + 1, n as int)[k as int] != ext@[k as int]);
            return false;
        }
        k = k + 1;
    }
    assert(name@.subrange(dot + 1, n as int) =~= ext@);
    true
}

/// Whether `name` is taken for an image.
pub fn is_image_file(name: &str) -> (found: bool)
    ensures
        found == is_image_name(name@),
{
    ends_with_extension(name, "jpg") || ends_with_extension(name, "jpeg") || ends_with_extension(
        name,
        "png",
    )
}

/// The image names among `names`, in the order they came in.
pub fn image_files(names: &Vec<String>) -> (kept: Vec<String>)
    ensures
        kept.deep_view() == image_names(names.deep_view()),
{
    let ghost all = names.deep_view();
    let mut kept: Vec<String> = Vec::new();
    let mut i: usize = 0;
    assert(all.take(0) =~= Seq::<Seq<char>>::empty());
    assert(kept.deep_view() =~= Seq::<Seq<char>>::empty());
    proof {
        reveal_with_fuel(Seq::filter, 1);
    }
    while i < names.len()
        invariant
            all == names.deep_view(),
            i <= names.len(),
            kept.deep_view() == image_names(all.take(i as int)),
        decreases names.len() - i,
    {
        let ghost before = kept.deep_view();
        proof {
            all.take(i as int).lemma_filter_push(all[i as int], image_name_filter());
            assert(all.take(i + 1) =~= all.take(i as int).push(all[i as int]));
        }
        if is_image_file(names[i].as_str()) {
            kept.push(names[i].clone());
            assert(kept.deep_view() =~= before.push(all[i as int]));
        }
        i = i + 1;
    }
    assert(all.take(i as int) =~= all);
    kept
}

/// The order in which `alphanumeric_sort::sort_str_slice` leaves these names.
pub uninterp spec fn natural_order(names: Seq<Seq<char>>) -> Seq<Seq<char>>;

/// Sorts names in place with `alphanumeric_sort::sort_str_slice`.
///
/// That function compares names piece by piece, runs of ASCII digits by
/// their numeric value, and sorts the slice with an unstable sort under that
/// comparison. Nothing of the comparison is spelled out here. The contract
/// claims that the outcome depends on the names alone, and that it holds the
/// same names as often as before. That the comparison is a total order, as a
/// sort needs it, is taken on trust as well.
#[verifier::external_body]
fn sort_naturally(names: &mut Vec<String>)
    ensures
        final(names).deep_view() == natural_order(old(names).deep_view()),
        final(names).deep_view().to_multiset() == old(names).deep_view().to_multiset(),
{
    alphanumeric_sort::sort_str_slice(names);
}

/// The image sequence of one run: at least one image name, in natural order.
#[derive(Debug, PartialEq, Eq)]
pub struct ImageSequence {
    names: Vec<String>,
}

impl View for ImageSequence {
    type V = Seq<Seq<char>>;

    /// The names, in sequence order.
    closed spec fn view(&self) -> Seq<Seq<char>> {
        self.names.deep_view()
    }
}

impl ImageSequence {
    /// The sequence is not empty and holds image names only.
    pub open spec fn wf(&self) -> bool {
        &&& self@.len() >= 1
        &&& forall|i: int| 0 <= i < self@.len() ==> is_image_name(#[trigger] self@[i])
    }

    /// Builds the sequence from the names found in a directory, in whatever
    /// order they were listed: names that are not image names are dropped,
    /// the rest is put in natural order. Fails if no image name is among
    /// them.
    pub fn from_names(names: Vec<String>) -> (made: Result<ImageSequence, ConfigurationError>)
        ensures
            match made {
                Ok(sequence) => {
                    &&& image_names(names.deep_view()).len() >= 1
                    &&& sequence.wf()
                    &&& sequence@ == natural_order(image_names(names.deep_view()))
                    &&& sequence@.to_multiset() == image_names(names.deep_view()).to_multiset()
                },
                Err(e) => {
                    &&& image_names(names.deep_view()).len() == 0
                    &&& e == ConfigurationError::EmptySequence
                },
            },
    {
        let ghost all = names.deep_view();
        let mut kept: Vec<String> = image_files(&names);
        if kept.len() == 0 {
            return Err(ConfigurationError::EmptySequence);
        }
        let ghost images = kept.deep_view();
        sort_naturally(&mut kept);
        let sequence = ImageSequence { names: kept };
        proof {
            let sorted = sequence@;
            vstd::seq_lib::to_multiset_len(sorted);
            vstd::seq_lib::to_multiset_len(images);
            assert forall|j: int| 0 <= j < sorted.len() implies is_image_name(
                #[trigger] sorted[j],
            ) by {
                vstd::seq_lib::to_multiset_contains(sorted, sorted[j]);
                vstd::seq_lib::to_multiset_contains(images, sorted[j]);
                assert(sorted.contains(sorted[j]));
                let at = choose|at: int| 0 <= at < images.len() && images[at] == sorted[j];
                all.lemma_filter_pred(image_name_filter(), at);
            }
        }
        Ok(sequence)
    }

    /// Number of images; at least 1.
    pub fn len(&self) -> (n: usize)
        ensures
            n == self@.len(),
    {
        self.names.len()
    }

    /// The name at `index`, counting from 0, or `None` past the end.
    pub fn get(&self, index: usize) -> (name: Option<&String>)
        ensures
            match name {
                Some(s) => index < self@.len() && s@ == self@[index as int],
                None => index >= self@.len(),
            },
    {
        if index < self.names.len() {
            Some(&self.names[index])
        } else {
            None
        }
    }

    /// The first image: the one shown before and at sunrise.
    pub fn first(&self) -> (name: &String)
        requires
            self.wf(),
        ensures
            name@ == self@[0],
    {
        &self.names[0]
    }

    /// The last image: the one shown from sunset on.
    pub fn last(&self) -> (name: &String)
        requires
            self.wf(),
        ensures
            name@ == self@[self@.len() - 1],
    {
        &self.names[self.names.len() - 1]
    }
}

} // verus!
