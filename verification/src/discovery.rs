//! File discovery: which entries of a directory are images.
//!
//! An entry is kept if it is a regular file and its bytes decode as an image.
//! Names and extensions have no part in it, and subdirectories are neither
//! entered nor listed. The caller lists the directory and reads the files;
//! the order of the result is the order in which the entries were handed in.
use vstd::prelude::*;
use crate::decoding::{decoded_image, is_image_file};
use crate::error::PipelineError;

verus! {

/// What the caller found under one name of the directory.
#[derive(Debug)]
pub enum EntryContent {
    /// A subdirectory, or anything else that is not a regular file.
    NotAFile,
    /// A regular file that could not be read.
    Unreadable,
    /// A regular file and its bytes.
    Bytes(Vec<u8>),
}

/// One entry of a directory.
#[derive(Debug)]
pub struct Entry {
    pub path: String,
    pub content: EntryContent,
}

/// An entry that was probed.
#[derive(Debug)]
pub struct Probed {
    pub path: String,
    /// Whether the entry is a regular file.
    pub is_regular_file: bool,
    /// Whether its bytes were read and decode as an image.
    pub decodes: bool,
}

/// An entry and what is known of it once it was probed.
pub ghost struct Candidate {
    pub path: Seq<char>,
    pub is_regular_file: bool,
    pub decodes: bool,
}

impl Candidate {
    /// An entry is an image if it is a regular file whose bytes decode.
    pub open spec fn is_image(self) -> bool {
        self.is_regular_file && self.decodes
    }
}

impl View for Probed {
    type V = Candidate;

    open spec fn view(&self) -> Candidate {
        Candidate {
            path: self.path@,
            is_regular_file: self.is_regular_file,
            decodes: self.decodes,
        }
    }
}

/// The discovered set of a directory: the paths of the candidates that are
/// images, in the order of the listing.
pub open spec fn discovered(candidates: Seq<Candidate>) -> Seq<Seq<char>> {
    candidates.filter(|c: Candidate| c.is_image()).map_values(|c: Candidate| c.path)
}

/// Whether the content found under a name decodes as an image: it does if
/// it is bytes that were read and those bytes decode.
pub open spec fn content_decodes(content: EntryContent) -> bool {
    content matches EntryContent::Bytes(bytes) && decoded_image(bytes@).is_some()
}

/// What probing an entry gives: a candidate under the entry's path, which
/// counts as a regular file unless the entry is marked as none, and which
/// decodes exactly if its content does.
pub open spec fn candidate_of(entry: Entry) -> Candidate {
    Candidate {
        path: entry.path@,
        is_regular_file: !(entry.content is NotAFile),
        decodes: content_decodes(entry.content),
    }
}

/// What probing each entry of a listing gives, in the order of the listing.
pub open spec fn candidates_of(entries: Seq<Entry>) -> Seq<Candidate> {
    entries.map_values(|entry: Entry| candidate_of(entry))
}

/// Discovery goes through the listing entry by entry: one more candidate adds
/// its path if it is an image, and changes nothing if it is not.
pub proof fn lemma_discovered_step(candidates: Seq<Candidate>, next: Candidate)
    ensures
        discovered(candidates.push(next)) == if next.is_image() {
            discovered(candidates).push(next.path)
        } else {
            discovered(candidates)
        },
        discovered(Seq::empty()) == Seq::<Seq<char>>::empty(),
{
    reveal(Seq::filter);
    let is_image = |c: Candidate| c.is_image();
    assert(candidates.push(next).drop_last() == candidates);
    assert(discovered(candidates.push(next)) =~= if next.is_image() {
        discovered(candidates).push(next.path)
    } else {
        discovered(candidates)
    });
    assert(Seq::<Candidate>::empty().filter(is_image) =~= Seq::<Candidate>::empty());
    assert(discovered(Seq::empty()) =~= Seq::<Seq<char>>::empty());
}

/// Every discovered path is the path of a candidate that is an image.
pub proof fn lemma_discovered_are_images(candidates: Seq<Candidate>, k: int)
    requires
        0 <= k < discovered(candidates).len(),
    ensures
        exists|i: int|
            0 <= i < candidates.len() && #[trigger] candidates[i].is_image() && candidates[i].path
                == discovered(candidates)[k],
{
    let is_image = |c: Candidate| c.is_image();
    let kept = candidates.filter(is_image);
    candidates.lemma_filter_pred(is_image, k);
    assert(kept.contains(kept[k]));
    candidates.lemma_filter_contains_rev(is_image, kept[k]);
    let i = choose|i: int| 0 <= i < candidates.len() && candidates[i] == kept[k];
    assert(candidates[i].is_image());
}

/// Every candidate that is an image is discovered.
pub proof fn lemma_images_are_discovered(candidates: Seq<Candidate>, i: int)
    requires
        0 <= i < candidates.len(),
        candidates[i].is_image(),
    ensures
        discovered(candidates).contains(candidates[i].path),
{
    let is_image = |c: Candidate| c.is_image();
    let kept = candidates.filter(is_image);
    candidates.lemma_filter_contains(is_image, i);
    let k = choose|k: int| 0 <= k < kept.len() && kept[k] == candidates[i];
    assert(discovered(candidates)[k] == candidates[i].path);
}

/// A file that is not an image is never discovered: its path is not in the
/// discovered set, whatever its name, as long as no other entry of the
/// listing has that path.
pub proof fn lemma_non_image_never_discovered(candidates: Seq<Candidate>, i: int)
    requires
        0 <= i < candidates.len(),
        !candidates[i].is_image(),
        forall|j: int|
            0 <= j < candidates.len() && j != i ==> (#[trigger] candidates[j]).path
                != candidates[i].path,
    ensures
        !discovered(candidates).contains(candidates[i].path),
{
    if discovered(candidates).contains(candidates[i].path) {
        let k = choose|k: int|
            0 <= k < discovered(candidates).len() && discovered(candidates)[k]
                == candidates[i].path;
        lemma_discovered_are_images(candidates, k);
    }
}

/// Discovery and conversion agree on every file: the content of an entry
/// decodes exactly if its bytes, read as the input of a conversion, decode to
/// an image. A file that is discovered does not fail to decode when it is
/// converted, and a file that is left out would have.
pub proof fn lemma_probe_agrees_with_conversion(bytes: Vec<u8>)
    ensures
        content_decodes(EntryContent::Bytes(bytes)) <==> decoded_image(bytes@) is Some,
        !content_decodes(EntryContent::NotAFile),
        !content_decodes(EntryContent::Unreadable),
{
}

/// Every path in the discovered set of a listing is the path of an entry
/// whose bytes were read and decode: no subdirectory, no file that could not
/// be read and no file that is no image is ever discovered, whatever its
/// name.
pub proof fn lemma_only_images_are_discovered(entries: Seq<Entry>, k: int)
    requires
        0 <= k < discovered(candidates_of(entries)).len(),
    ensures
        discovered(candidates_of(entries)).len() <= entries.len(),
        exists|i: int|
            0 <= i < entries.len() && content_decodes((#[trigger] entries[i]).content)
                && entries[i].path@ == discovered(candidates_of(entries))[k],
{
    let candidates = candidates_of(entries);
    lemma_discovered_are_images(candidates, k);
    let i = choose|i: int|
        0 <= i < candidates.len() && #[trigger] candidates[i].is_image() && candidates[i].path
            == discovered(candidates)[k];
    assert(content_decodes(entries[i].content));
    candidates.lemma_filter_len(|c: Candidate| c.is_image());
}

/// The image files found directly inside a directory.
#[derive(Debug)]
pub struct DiscoveredFileSet {
    paths: Vec<String>,
}

impl View for DiscoveredFileSet {
    type V = Seq<Seq<char>>;

    closed spec fn view(&self) -> Seq<Seq<char>> {
        self.paths@.map_values(|path: String| path@)
    }
}

impl DiscoveredFileSet {
    /// The discovered set of a directory of which nothing was seen yet.
    pub fn new() -> (set: DiscoveredFileSet)
        ensures
            set@ == Seq::<Seq<char>>::empty(),
    {
        let set = DiscoveredFileSet { paths: Vec::new() };
        assert(set@ =~= Seq::<Seq<char>>::empty());
        set
    }

    /// Takes the next entry of the listing, given what probing it gave: the
    /// path is added if the entry is a regular file whose bytes decode, and
    /// the set is left as it is otherwise.
    pub fn record(&mut self, path: String, is_regular_file: bool, decodes: bool) -> (kept: bool)
        ensures
            kept == (is_regular_file && decodes),
            final(self)@ == if kept {
                old(self)@.push(path@)
            } else {
                old(self)@
            },
    {
        if is_regular_file && decodes {
            self.paths.push(path);
            assert(self@ =~= old(self)@.push(path@));
            true
        } else {
            false
        }
    }

    /// Takes the next entry of the listing and probes it: the path is added
    /// if the content is bytes that were read and that decode as an image.
    /// Nothing else is ever added.
    pub fn consider(&mut self, path: String, content: &EntryContent) -> (kept: bool)
        ensures
            kept == content_decodes(*content),
            final(self)@ == if kept {
                old(self)@.push(path@)
            } else {
                old(self)@
            },
    {
        let decodes = decodes_as_image(content);
        self.record(path, !matches!(content, EntryContent::NotAFile), decodes)
    }

    /// The number of images found.
    pub fn len(&self) -> (len: usize)
        ensures
            len == self@.len(),
    {
        self.paths.len()
    }

    /// The path of the image at `index`, if there are that many.
    pub fn get(&self, index: usize) -> (path: Option<&String>)
        ensures
            match path {
                Some(found) => index < self@.len() && found@ == self@[index as int],
                None => index >= self@.len(),
            },
    {
        if index < self.paths.len() {
            Some(&self.paths[index])
        } else {
            None
        }
    }

    /// The paths of the images, in the order in which they were found.
    pub fn into_paths(self) -> (paths: Vec<String>)
        ensures
            paths@.map_values(|path: String| path@) == self@,
    {
        self.paths
    }
}

/// Whether the content found under a name was read and decodes as an
/// image. Only bytes that were read are handed to the decoder.
pub fn decodes_as_image(content: &EntryContent) -> (decodes: bool)
    ensures
        decodes == content_decodes(*content),
{
    match content {
        EntryContent::Bytes(bytes) => is_image_file(bytes.as_slice()),
        _ => false,
    }
}

/// Probes one entry of a listing.
pub fn probe(entry: Entry) -> (probed: Probed)
    ensures
        probed.path == entry.path,
        probed@ == candidate_of(entry),
{
    let decodes = decodes_as_image(&entry.content);
    let is_regular_file = !matches!(entry.content, EntryContent::NotAFile);
    Probed { path: entry.path, is_regular_file, decodes }
}

/// The discovered set of a listing whose entries were probed: the paths of
/// the regular files that decode, in the order of the listing.
pub fn select_images(probed: Vec<Probed>) -> (set: DiscoveredFileSet)
    ensures
        set@ == discovered(probed@.map_values(|entry: Probed| entry@)),
{
    let mut set = DiscoveredFileSet::new();
    let ghost all = probed@.map_values(|entry: Probed| entry@);
    proof {
        lemma_discovered_step(Seq::empty(), arbitrary());
        assert(all.subrange(0, 0) == Seq::<Candidate>::empty());
    }
    for entry in iter: probed
        invariant
            iter.seq().map_values(|entry: Probed| entry@) == all,
            set@ == discovered(all.subrange(0, iter.index() as int)),
    {
        proof {
            let seen = all.subrange(0, iter.index() as int);
            assert(all.subrange(0, iter.index() + 1) == seen.push(entry@));
            lemma_discovered_step(seen, entry@);
        }
        let Probed { path, is_regular_file, decodes } = entry;
        set.record(path, is_regular_file, decodes);
    }
    assert(all.subrange(0, all.len() as int) == all);
    set
}

/// The images of a directory, given its listing. A directory that could not
/// be listed gives `DirectoryUnreadable`, and nothing else does: an entry that
/// is no image is left out and the rest of the listing is still gone through.
/// The result is the discovered set of the listing: the paths of the files
/// whose bytes were read and decode, in the order of the listing.
pub fn discover(listing: Option<Vec<Entry>>) -> (found: Result<DiscoveredFileSet, PipelineError>)
    ensures
        match listing {
            Some(entries) => found matches Ok(set) && set@ == discovered(
                candidates_of(entries@),
            ),
            None => found == Err::<DiscoveredFileSet, _>(PipelineError::DirectoryUnreadable),
        },
{
    let entries = match listing {
        Some(entries) => entries,
        None => {
            return Err(PipelineError::DirectoryUnreadable);
        },
    };
    let mut probed: Vec<Probed> = Vec::new();
    let ghost all = entries@;
    for entry in iter: entries
        invariant
            iter.seq() == all,
            probed@.map_values(|entry: Probed| entry@) == candidates_of(
                all.subrange(0, iter.index() as int),
            ),
    {
        let ghost known = probed@.map_values(|entry: Probed| entry@);
        let next = probe(entry);
        probed.push(next);
        proof {
            let now = all.subrange(0, iter.index() + 1);
            assert(now.drop_last() == all.subrange(0, iter.index() as int));
            assert(probed@.map_values(|entry: Probed| entry@) =~= known.push(next@));
            assert(candidates_of(now) =~= known.push(candidate_of(entry)));
        }
    }
    assert(all.subrange(0, all.len() as int) == all);
    Ok(select_images(probed))
}

} // verus!
