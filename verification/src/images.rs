//! Picking the image files out of a folder listing.
//!
//! The host reads the folder, one level deep, and hands over what it found:
//! for each entry its path and whether it is a regular file, or the fact that
//! the entry could not be read. The library keeps the regular files whose
//! extension is `png`, `jpg` or `jpeg`, in the order of the listing. The
//! extension is what follows the last `.` of the path, compared letter by
//! letter: `PNG` is no image extension.

use vstd::prelude::*;
use vstd::string::*;
use crate::text::{chars_of, same_text};

verus! {

/// One item of a folder listing.
#[derive(Debug, PartialEq, Eq)]
pub enum Listed {
    /// An entry of the folder: its path, and whether it is a regular file,
    /// as opposed to a directory, a symbolic link or anything else.
    Entry { path: String, is_file: bool },
    /// An entry that could not be read, for instance because it went away
    /// while the folder was being listed. `reason` is the operating system's
    /// message.
    Unreadable { reason: String },
}

/// What a [`Listed`] is, as sequences of characters.
pub enum ListedView {
    Entry { path: Seq<char>, is_file: bool },
    Unreadable { reason: Seq<char> },
}

impl View for Listed {
    type V = ListedView;

    open spec fn view(&self) -> ListedView {
        match self {
            Listed::Entry { path, is_file } => ListedView::Entry { path: path@, is_file: *is_file },
            Listed::Unreadable { reason } => ListedView::Unreadable { reason: reason@ },
        }
    }
}

impl DeepView for Listed {
    type V = ListedView;

    open spec fn deep_view(&self) -> ListedView {
        self@
    }
}

/// The extension of `name`: what follows its last `.`, which may be nothing.
/// A name without a `.` has no extension. A name that begins with its only
/// `.` has one all the same: the extension of `.png` is `png`.
pub open spec fn extension(name: Seq<char>) -> Option<Seq<char>> {
    match name.index_of_last('.') {
        Some(dot) => Some(name.skip(dot + 1)),
        None => None,
    }
}

/// The extensions by which an image is known, in lower case.
pub open spec fn image_extensions() -> Set<Seq<char>> {
    set!["png"@, "jpg"@, "jpeg"@]
}

/// Whether `path` has one of the image extensions.
pub open spec fn has_image_extension(path: Seq<char>) -> bool {
    match extension(path) {
        Some(ext) => image_extensions().contains(ext),
        None => false,
    }
}

/// The path under which `item` is listed as an image, if it is one: the item
/// was read, is a regular file, and its path has an image extension.
pub open spec fn listed_image(item: ListedView) -> Option<Seq<char>> {
    match item {
        ListedView::Entry { path, is_file } => if is_file && has_image_extension(path) {
            Some(path)
        } else {
            None
        },
        ListedView::Unreadable { .. } => None,
    }
}

/// The images among `items`: their paths, in the order of the listing.
pub open spec fn image_paths(items: Seq<ListedView>) -> Seq<Seq<char>> {
    items.filter_map(|item: ListedView| listed_image(item))
}

/// The reply to a request for the images of a folder. A folder that could
/// not be read at all gives the error, never an empty list.
pub open spec fn images_reply(listing: Result<Seq<ListedView>, Seq<char>>) -> Result<
    Seq<Seq<char>>,
    Seq<char>,
> {
    match listing {
        Ok(items) => Ok(image_paths(items)),
        Err(reason) => Err(reason),
    }
}

/// What a listing that may have failed is, as sequences of characters.
pub open spec fn listing_view(listing: Result<Vec<Listed>, String>) -> Result<
    Seq<ListedView>,
    Seq<char>,
> {
    match listing {
        Ok(items) => Ok(items.deep_view()),
        Err(reason) => Err(reason@),
    }
}

/// What a list of paths or an error is, as sequences of characters.
pub open spec fn paths_view(reply: Result<Vec<String>, String>) -> Result<
    Seq<Seq<char>>,
    Seq<char>,
> {
    match reply {
        Ok(paths) => Ok(paths.deep_view()),
        Err(reason) => Err(reason@),
    }
}

/// The extension of `name`: what follows its last `.`.
pub fn extension_of<'a>(name: &'a str) -> (ext: Option<&'a str>)
    ensures
        match ext {
            Some(e) => extension(name@) == Some(e@),
            None => extension(name@) is None,
        },
{
    let chars = chars_of(name);
    let mut i: usize = chars.len();
    while i > 0
        invariant
            i <= chars.len(),
            chars@ == name@,
            forall|j: int| i <= j < chars.len() ==> chars@[j] != '.',
        decreases i,
    {
        i -= 1;
        if chars[i] == '.' {
            proof {
                name@.index_of_last_ensures('.');
            }
            return Some(name.substring_char(i + 1, chars.len()));
        }
    }
    proof {
        name@.index_of_last_ensures('.');
    }
    None
}

/// Whether `ext` is `png`, `jpg` or `jpeg`, letter for letter.
pub fn is_image_extension(ext: &str) -> (yes: bool)
    ensures
        yes == image_extensions().contains(ext@),
{
    same_text(ext, "png") || same_text(ext, "jpg") || same_text(ext, "jpeg")
}

/// Whether `path` has one of the image extensions.
pub fn is_image_path(path: &str) -> (yes: bool)
    ensures
        yes == has_image_extension(path@),
{
    match extension_of(path) {
        Some(ext) => is_image_extension(ext),
        None => false,
    }
}

/// The images among `items`: the paths of the regular files with an image
/// extension, in the order of the listing. Items that could not be read are
/// passed over.
pub fn select_images(items: &Vec<Listed>) -> (paths: Vec<String>)
    ensures
        paths.deep_view() == image_paths(items.deep_view()),
{
    let mut paths: Vec<String> = Vec::new();
    let ghost listed = items.deep_view();
    let ghost pick = |item: ListedView| listed_image(item);
    assert(paths.deep_view() =~= listed.take(0).filter_map(pick));
    for i in 0..items.len()
        invariant
            listed == items.deep_view(),
            pick == |item: ListedView| listed_image(item),
            paths.deep_view() == listed.take(i as int).filter_map(pick),
    {
        proof {
            listed.lemma_filter_map_take_succ(pick, i as int);
        }
        let ghost before = paths.deep_view();
        match &items[i] {
            Listed::Entry { path, is_file } => {
                if *is_file && is_image_path(path.as_str()) {
                    paths.push(path.clone());
                    assert(paths.deep_view() =~= before + seq![path@]);
                }
            },
            Listed::Unreadable { .. } => {},
        }
    }
    assert(listed.take(items.len() as int) =~= listed);
    paths
}

/// Answers a request for the images of a folder from what the host found
/// there: the images of the listing, or the error with which the folder
/// could not be read.
pub fn list_images(listing: Result<Vec<Listed>, String>) -> (reply: Result<Vec<String>, String>)
    ensures
        paths_view(reply) == images_reply(listing_view(listing)),
{
    match listing {
        Ok(items) => Ok(select_images(&items)),
        Err(reason) => Err(reason),
    }
}

/// A name without a `.` has no extension, and only such a name has none.
pub proof fn lemma_extension_needs_dot(name: Seq<char>)
    ensures
        extension(name) is None <==> !name.contains('.'),
{
    name.index_of_last_ensures('.');
}

/// The extension is what follows the last `.`: where `ext` holds no `.`,
/// it is the extension of every name that ends in a `.` and `ext`.
pub proof fn lemma_extension_follows_last_dot(stem: Seq<char>, ext: Seq<char>)
    requires
        !ext.contains('.'),
    ensures
        extension(stem + seq!['.'] + ext) == Some(ext),
{
    let name = stem + seq!['.'] + ext;
    let dot = stem.len() as int;
    name.index_of_last_ensures('.');
    assert(name[dot] == '.');
    assert(name.contains('.'));
    let found = name.index_of_last('.')->0;
    if found > dot {
        assert(ext[found - dot - 1] == name[found]);
        assert(ext.contains('.'));
    }
    assert(name.skip(dot + 1) =~= ext);
}

/// A name with an extension is a stem, a `.` and the extension, and the
/// extension holds no `.`.
pub proof fn lemma_extension_splits_name(name: Seq<char>)
    requires
        extension(name) is Some,
    ensures
        name.len() > extension(name)->0.len(),
        name == name.take(name.len() - extension(name)->0.len() - 1) + seq!['.'] + extension(
            name,
        )->0,
        !extension(name)->0.contains('.'),
{
    name.index_of_last_ensures('.');
    let dot = name.index_of_last('.')->0;
    let ext = name.skip(dot + 1);
    assert(name =~= name.take(dot) + seq!['.'] + ext);
    if ext.contains('.') {
        let i = choose|i: int| 0 <= i < ext.len() && ext[i] == '.';
        assert(name[dot + 1 + i] == '.');
    }
}

/// The image extensions are in lower case throughout, and an extension is
/// compared as it stands: one that holds a capital letter, or anything else
/// but the letters `a` to `z`, is no image extension.
pub proof fn lemma_image_extensions_are_lower_case(ext: Seq<char>)
    requires
        image_extensions().contains(ext),
    ensures
        forall|i: int| 0 <= i < ext.len() ==> 'a' <= #[trigger] ext[i] <= 'z',
{
    reveal_strlit("png");
    reveal_strlit("jpg");
    reveal_strlit("jpeg");
}

/// A path has an image extension exactly when it ends in `.png`, `.jpg` or
/// `.jpeg`.
pub proof fn lemma_image_extension_by_ending(path: Seq<char>)
    ensures
        has_image_extension(path) <==> (".png"@.is_suffix_of(path) || ".jpg"@.is_suffix_of(path)
            || ".jpeg"@.is_suffix_of(path)),
{
    reveal_strlit("png");
    reveal_strlit("jpg");
    reveal_strlit("jpeg");
    reveal_strlit(".png");
    reveal_strlit(".jpg");
    reveal_strlit(".jpeg");
    if has_image_extension(path) {
        lemma_extension_splits_name(path);
        let ext = extension(path)->0;
        let tail = seq!['.'] + ext;
        assert(tail =~= path.subrange(path.len() - tail.len(), path.len() as int));
        assert(tail =~= ".png"@ || tail =~= ".jpg"@ || tail =~= ".jpeg"@);
    }
    if ".png"@.is_suffix_of(path) {
        lemma_path_ending(path, "png"@);
    }
    if ".jpg"@.is_suffix_of(path) {
        lemma_path_ending(path, "jpg"@);
    }
    if ".jpeg"@.is_suffix_of(path) {
        lemma_path_ending(path, "jpeg"@);
    }
}

proof fn lemma_path_ending(path: Seq<char>, ext: Seq<char>)
    requires
        !ext.contains('.'),
        (seq!['.'] + ext).is_suffix_of(path),
    ensures
        extension(path) == Some(ext),
{
    let ending = seq!['.'] + ext;
    let cut = path.len() - ending.len();
    let stem = path.take(cut);
    assert(path =~= stem + path.subrange(cut, path.len() as int));
    assert(path =~= stem + seq!['.'] + ext);
    lemma_extension_follows_last_dot(stem, ext);
}

/// Whether a path counts as an image is decided by its last component
/// alone: the folder in front of the name, joined to it by `/` or `\`,
/// changes nothing, whatever dots it holds.
pub proof fn lemma_folder_does_not_matter(folder: Seq<char>, separator: char, name: Seq<char>)
    requires
        separator == '/' || separator == '\\',
    ensures
        has_image_extension(folder + seq![separator] + name) == has_image_extension(name),
{
    let path = folder + seq![separator] + name;
    lemma_image_extension_by_ending(path);
    lemma_image_extension_by_ending(name);
    reveal_strlit(".png");
    reveal_strlit(".jpg");
    reveal_strlit(".jpeg");
    lemma_ending_within_name(folder, separator, name, ".png"@);
    lemma_ending_within_name(folder, separator, name, ".jpg"@);
    lemma_ending_within_name(folder, separator, name, ".jpeg"@);
}

proof fn lemma_ending_within_name(
    folder: Seq<char>,
    separator: char,
    name: Seq<char>,
    ending: Seq<char>,
)
    requires
        !ending.contains(separator),
    ensures
        ending.is_suffix_of(folder + seq![separator] + name) == ending.is_suffix_of(name),
{
    let path = folder + seq![separator] + name;
    if ending.len() <= name.len() {
        assert(path.subrange(path.len() - ending.len(), path.len() as int) =~= name.subrange(
            name.len() - ending.len(),
            name.len() as int,
        ));
    } else if ending.is_suffix_of(path) {
        let at = ending.len() - name.len() - 1;
        assert(ending[at] == path[folder.len() as int]);
        assert(ending.contains(separator));
    }
}

/// The paths listed are exactly the images of the folder: a path is among
/// them if and only if the listing holds, under this path, a regular file
/// with an image extension. Directories, other kinds of entries, files with
/// another extension or none, and entries that could not be read are left
/// out.
pub proof fn lemma_listed_exactly_the_images(items: Seq<ListedView>, path: Seq<char>)
    ensures
        image_paths(items).contains(path) <==> (has_image_extension(path) && exists|i: int|
            0 <= i < items.len() && items[i] == (ListedView::Entry { path, is_file: true })),
    decreases items.len(),
{
    let pick = |item: ListedView| listed_image(item);
    let wanted = ListedView::Entry { path, is_file: true };
    if items.len() > 0 {
        let rest = items.drop_last();
        lemma_listed_exactly_the_images(rest, path);
        let earlier = rest.filter_map(pick);
        if image_paths(items).contains(path) {
            let at = choose|at: int|
                0 <= at < image_paths(items).len() && image_paths(items)[at] == path;
            if at < earlier.len() {
                assert(earlier[at] == path);
                let i = choose|i: int| 0 <= i < rest.len() && rest[i] == wanted;
                assert(items[i] == wanted);
            } else {
                assert(items[items.len() - 1] == wanted);
            }
        }
        if has_image_extension(path) && exists|i: int| 0 <= i < items.len() && items[i] == wanted {
            let i = choose|i: int| 0 <= i < items.len() && items[i] == wanted;
            if i < rest.len() {
                assert(rest[i] == wanted);
                let at = choose|at: int| 0 <= at < earlier.len() && earlier[at] == path;
                assert(image_paths(items)[at] == path);
            } else {
                assert(image_paths(items)[earlier.len() as int] == path);
            }
        }
    }
}

} // verus!
