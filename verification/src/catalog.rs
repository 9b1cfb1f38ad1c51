//! The template catalog: the names of the templates that a directory listing
//! of the template repository offers.
//!
//! A listing is the sequence of file names as the repository returned them.
//! Every file whose name ends in [`TEMPLATE_SUFFIX`] is a template; its
//! catalog entry is the file name without that suffix. Other files are
//! dropped, duplicates are kept, and the listing's order is preserved.

use vstd::prelude::*;
use crate::text::{chars_of, ends_with, has_suffix};

verus! {

/// What the file name of a template ends with.
pub const TEMPLATE_SUFFIX: &'static str = ".gitignore";

/// The file name `file` is that of a template.
pub open spec fn is_template_file(file: Seq<char>) -> bool {
    has_suffix(file, TEMPLATE_SUFFIX@)
}

/// The file name `file` without its last `TEMPLATE_SUFFIX@.len()` characters.
pub open spec fn template_name(file: Seq<char>) -> Seq<char> {
    file.subrange(0, file.len() - TEMPLATE_SUFFIX@.len())
}

/// The catalog that a listing gives: its template files, in the listing's
/// order, each without the suffix.
pub open spec fn catalog_of(listing: Seq<Seq<char>>) -> Seq<Seq<char>> {
    listing.filter(|file: Seq<char>| is_template_file(file)).map_values(
        |file: Seq<char>| template_name(file),
    )
}

/// Appending one file name to a listing appends its template name to the
/// catalog if the file is a template, and leaves the catalog alone if not.
pub proof fn lemma_catalog_push(listing: Seq<Seq<char>>, file: Seq<char>)
    ensures
        catalog_of(listing.push(file)) == if is_template_file(file) {
            catalog_of(listing).push(template_name(file))
        } else {
            catalog_of(listing)
        },
{
    let keep = |file: Seq<char>| is_template_file(file);
    let kept = listing.filter(keep);
    listing.lemma_filter_push(file, keep);
    if is_template_file(file) {
        assert(kept.push(file).map_values(|file: Seq<char>| template_name(file))
            =~= catalog_of(listing).push(template_name(file)));
    }
}

/// The catalog has one entry for each template file of the listing and none
/// for the other files: it is as long as the listing's template files are
/// many, and its entry at each position is the template file at that
/// position, in the listing's order, without the suffix.
pub proof fn lemma_catalog_entries(listing: Seq<Seq<char>>)
    ensures
        ({
            let files = listing.filter(|file: Seq<char>| is_template_file(file));
            &&& catalog_of(listing).len() == files.len()
            &&& files.len() <= listing.len()
            &&& forall|i: int|
                0 <= i < files.len() ==> {
                    &&& listing.contains(#[trigger] files[i])
                    &&& is_template_file(files[i])
                    &&& catalog_of(listing)[i] + TEMPLATE_SUFFIX@ == files[i]
                }
        }),
{
    let keep = |file: Seq<char>| is_template_file(file);
    let files = listing.filter(keep);
    listing.lemma_filter_len(keep);
    assert forall|i: int| 0 <= i < files.len() implies {
        &&& listing.contains(#[trigger] files[i])
        &&& is_template_file(files[i])
        &&& catalog_of(listing)[i] + TEMPLATE_SUFFIX@ == files[i]
    } by {
        listing.lemma_filter_pred(keep, i);
        assert(files.contains(files[i]));
        listing.lemma_filter_contains_rev(keep, files[i]);
        assert(template_name(files[i]) + TEMPLATE_SUFFIX@ =~= files[i]);
    }
}

/// The catalog of two listings put one after the other is the catalog of
/// the first followed by the catalog of the second.
pub proof fn lemma_catalog_concat(first: Seq<Seq<char>>, second: Seq<Seq<char>>)
    ensures
        catalog_of(first + second) == catalog_of(first) + catalog_of(second),
{
    let keep = |file: Seq<char>| is_template_file(file);
    Seq::filter_distributes_over_add(first, second, keep);
    assert(catalog_of(first + second) =~= catalog_of(first) + catalog_of(second));
}

/// The template name of `file`, or `None` if `file` is not a template file.
pub fn template_name_of(file: &str) -> (name: Option<String>)
    ensures
        match name {
            Some(n) => is_template_file(file@) && n@ == template_name(file@),
            None => !is_template_file(file@),
        },
{
    let chars = chars_of(file);
    let tail = chars_of(TEMPLATE_SUFFIX);
    if ends_with(&chars, &tail) {
        let stem = file.substring_char(0, chars.len() - tail.len());
        Some(stem.to_owned())
    } else {
        None
    }
}

/// Derives the catalog from the file names of a directory listing.
pub fn derive_catalog(listing: &Vec<String>) -> (catalog: Vec<String>)
    ensures
        catalog.deep_view() == catalog_of(listing.deep_view()),
{
    let mut catalog: Vec<String> = Vec::new();
    let mut i: usize = 0;
    assert(listing.deep_view().take(0) =~= Seq::<Seq<char>>::empty());
    assert(catalog.deep_view() =~= Seq::<Seq<char>>::empty());
    assert(catalog_of(Seq::<Seq<char>>::empty()) =~= Seq::<Seq<char>>::empty()) by {
        reveal(Seq::filter);
    }
    while i < listing.len()
        invariant
            i <= listing.len(),
            catalog.deep_view() == catalog_of(listing.deep_view().take(i as int)),
        decreases listing.len() - i,
    {
        let ghost before = catalog.deep_view();
        proof {
            lemma_catalog_push(listing.deep_view().take(i as int), listing[i as int]@);
            assert(listing.deep_view().take(i as int).push(listing[i as int]@)
                =~= listing.deep_view().take(i + 1));
        }
        match template_name_of(listing[i].as_str()) {
            Some(name) => {
                catalog.push(name);
                assert(catalog.deep_view() =~= before.push(name@));
            },
            None => {},
        }
        i += 1;
    }
    assert(listing.deep_view().take(listing.len() as int) =~= listing.deep_view());
    catalog
}

} // verus!
