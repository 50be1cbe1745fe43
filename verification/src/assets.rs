//! The platform's chat badges: which badge images are still to be fetched,
//! and under which file name each is kept.

use vstd::prelude::*;
use vstd::string::*;
use crate::text::{copy_bytes, push_all, bytes_equal};

verus! {

/// One version of a badge and the address of its image.
#[derive(Clone, Debug)]
pub struct BadgeVersion {
    pub id: Vec<u8>,
    pub image_url_1x: Vec<u8>,
}

/// A badge set with its versions.
#[derive(Clone, Debug)]
pub struct BadgeItem {
    pub set_id: Vec<u8>,
    pub versions: Vec<BadgeVersion>,
}

/// An image to fetch and the file to keep it in.
#[derive(Clone, Debug)]
pub struct BadgeDownload {
    pub file_name: Vec<u8>,
    pub url: Vec<u8>,
}

/// The file name of a badge version: set, underscore, version, `.txt`.
pub open spec fn badge_file(set_id: Seq<u8>, version: Seq<u8>) -> Seq<u8> {
    set_id + "_".spec_bytes() + version + ".txt".spec_bytes()
}

/// Writes the file name of a badge version.
pub fn badge_file_name(set_id: &[u8], version: &[u8]) -> (out: Vec<u8>)
    ensures
        out@ == badge_file(set_id@, version@),
{
    let mut out = copy_bytes(set_id);
    push_all(&mut out, "_".as_bytes());
    push_all(&mut out, version);
    push_all(&mut out, ".txt".as_bytes());
    out
}

/// Whether `name` is among `names`.
pub open spec fn is_kept(names: Seq<Vec<u8>>, name: Seq<u8>) -> bool {
    exists|i: int| 0 <= i < names.len() && (#[trigger] names[i])@ == name
}

/// Whether a file of this name is kept already.
pub fn has_file(existing: &Vec<Vec<u8>>, name: &[u8]) -> (found: bool)
    ensures
        found == is_kept(existing@, name@),
{
    let mut i: usize = 0;
    while i < existing.len()
        invariant
            i <= existing.len(),
            forall|j: int| 0 <= j < i ==> (#[trigger] existing@[j])@ != name@,
        decreases existing.len() - i,
    {
        if bytes_equal(existing[i].as_slice(), name) {
            return true;
        }
        i += 1;
    }
    false
}

/// The downloads for the first `n` versions of a badge set: one for every
/// version whose file is not kept yet, in order.
pub open spec fn downloads_of_set(item: BadgeItem, existing: Seq<Vec<u8>>, n: int) -> Seq<
    (Seq<u8>, Seq<u8>),
>
    decreases n,
{
    if n <= 0 {
        Seq::empty()
    } else {
        let version = item.versions@[n - 1];
        let file = badge_file(item.set_id@, version.id@);
        if is_kept(existing, file) {
            downloads_of_set(item, existing, n - 1)
        } else {
            downloads_of_set(item, existing, n - 1).push((file, version.image_url_1x@))
        }
    }
}

/// The downloads for the first `n` badge sets, in order.
pub open spec fn downloads_of(items: Seq<BadgeItem>, existing: Seq<Vec<u8>>, n: int) -> Seq<
    (Seq<u8>, Seq<u8>),
>
    decreases n,
{
    if n <= 0 {
        Seq::empty()
    } else {
        downloads_of(items, existing, n - 1) + downloads_of_set(
            items[n - 1],
            existing,
            items[n - 1].versions@.len() as int,
        )
    }
}

/// What a vector of downloads holds.
pub open spec fn download_views(downloads: Seq<BadgeDownload>) -> Seq<(Seq<u8>, Seq<u8>)> {
    downloads.map_values(|d: BadgeDownload| (d.file_name@, d.url@))
}

/// The badge images that are still to be fetched: one for every version of
/// every badge set whose file is not among `existing`.
pub fn get_badges(items: &Vec<BadgeItem>, existing: &Vec<Vec<u8>>) -> (out: Vec<BadgeDownload>)
    ensures
        download_views(out@) == downloads_of(items@, existing@, items@.len() as int),
{
    let mut out: Vec<BadgeDownload> = Vec::new();
    let mut i: usize = 0;
    while i < items.len()
        invariant
            i <= items.len(),
            download_views(out@) =~= downloads_of(items@, existing@, i as int),
        decreases items.len() - i,
    {
        let item = &items[i];
        let ghost before = download_views(out@);
        let mut k: usize = 0;
        while k < item.versions.len()
            invariant
                k <= item.versions.len(),
                item == items@[i as int],
                download_views(out@) =~= before + downloads_of_set(*item, existing@, k as int),
            decreases item.versions.len() - k,
        {
            let version = &item.versions[k];
            let file_name = badge_file_name(item.set_id.as_slice(), version.id.as_slice());
            if !has_file(existing, file_name.as_slice()) {
                let download = BadgeDownload {
                    file_name,
                    url: copy_bytes(version.image_url_1x.as_slice()),
                };
                let ghost so_far = download_views(out@);
                out.push(download);
                assert(download_views(out@) =~= so_far.push((download.file_name@, download.url@)));
            }
            k += 1;
        }
        i += 1;
    }
    out
}

} // verus!
