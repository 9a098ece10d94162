//! Which files of a directory listing are shown, and in what order: saved
//! recordings and gallery images, newest first.
use vstd::prelude::*;
use vstd::multiset::Multiset;

verus! {

broadcast use vstd::seq_lib::group_to_multiset_ensures;

/// A saved recording as listed for the front-end.
pub struct RecordingInfo {
    pub filename: String,
    pub path: String,
    pub size: u64,
    /// Modification time, in seconds since the Unix epoch.
    pub modified: u64,
}

/// A gallery image as listed for the front-end.
pub struct GalleryImage {
    pub filename: String,
    pub path: String,
    pub size: u64,
    /// Modification time, in seconds since the Unix epoch.
    pub modified: u64,
}

/// The lower-case form of `s`.
pub uninterp spec fn lower_of(s: Seq<char>) -> Seq<char>;

/// Relies on `str::to_lowercase`: the result depends on the characters alone.
#[verifier::external_body]
fn lowercase(s: &str) -> (r: String)
    ensures
        r@ == lower_of(s@),
{
    s.to_lowercase()
}

fn same_text(a: &str, b: &str) -> (r: bool)
    ensures
        r == (a@ == b@),
{
    String::from_str(a) == String::from_str(b)
}

/// Whether a lower-case file extension marks a saved recording.
pub fn is_recording_ext_lower(ext: &str) -> (r: bool)
    ensures
        r == (ext@ == "wav"@),
{
    same_text(ext, "wav")
}

/// Whether a lower-case file extension marks a gallery image.
pub fn is_image_ext_lower(ext: &str) -> (r: bool)
    ensures
        r == (ext@ == "jpg"@ || ext@ == "jpeg"@ || ext@ == "png"@),
{
    same_text(ext, "jpg") || same_text(ext, "jpeg") || same_text(ext, "png")
}

/// Whether a file extension, in any case, marks a saved recording.
pub fn is_recording_extension(ext: &str) -> (r: bool)
    ensures
        r == (lower_of(ext@) == "wav"@),
{
    let lower = lowercase(ext);
    is_recording_ext_lower(lower.as_str())
}

/// Whether a file extension, in any case, marks a gallery image.
pub fn is_image_extension(ext: &str) -> (r: bool)
    ensures
        r == (lower_of(ext@) == "jpg"@ || lower_of(ext@) == "jpeg"@ || lower_of(ext@) == "png"@),
{
    let lower = lowercase(ext);
    is_image_ext_lower(lower.as_str())
}

/// Whether path `path` lies under directory `base`, compared component by
/// component.
pub uninterp spec fn path_within(path: Seq<char>, base: Seq<char>) -> bool;

/// Relies on `std::path::Path::starts_with`: a comparison of whole path
/// components of its two arguments.
#[verifier::external_body]
fn path_starts_with(path: &str, base: &str) -> (r: bool)
    ensures
        r == path_within(path@, base@),
{
    std::path::Path::new(path).starts_with(base)
}

/// Refusal of a deletion outside the recordings directory.
pub open spec fn outside_recordings_message() -> Seq<char> {
    "Cannot delete files outside recordings directory"@
}

/// Refusal of a deletion outside the camera directory.
pub open spec fn outside_camera_message() -> Seq<char> {
    "Cannot delete files outside camera directory"@
}

/// Allows deleting `path` only under the recordings directory `dir`.
pub fn check_recording_deletion(path: &str, dir: &str) -> (r: Result<(), String>)
    ensures
        r is Ok <==> path_within(path@, dir@),
        r is Err ==> r->Err_0@ == outside_recordings_message(),
{
    if path_starts_with(path, dir) {
        Ok(())
    } else {
        Err(String::from_str("Cannot delete files outside recordings directory"))
    }
}

/// Allows deleting `path` only under the camera directory `dir`.
pub fn check_image_deletion(path: &str, dir: &str) -> (r: Result<(), String>)
    ensures
        r is Ok <==> path_within(path@, dir@),
        r is Err ==> r->Err_0@ == outside_camera_message(),
{
    if path_starts_with(path, dir) {
        Ok(())
    } else {
        Err(String::from_str("Cannot delete files outside camera directory"))
    }
}

/// A listed file with a modification time.
pub trait Dated {
    spec fn spec_modified(&self) -> u64;

    fn modified_secs(&self) -> (r: u64)
        ensures
            r == self.spec_modified(),
    ;
}

impl Dated for RecordingInfo {
    open spec fn spec_modified(&self) -> u64 {
        self.modified
    }

    fn modified_secs(&self) -> (r: u64) {
        self.modified
    }
}

impl Dated for GalleryImage {
    open spec fn spec_modified(&self) -> u64 {
        self.modified
    }

    fn modified_secs(&self) -> (r: u64) {
        self.modified
    }
}

/// `s` runs from the most recently modified to the least.
pub open spec fn newest_first<T: Dated>(s: Seq<T>) -> bool {
    forall|i: int, j: int|
        0 <= i < j < s.len() ==> #[trigger] s[i].spec_modified() >= #[trigger] s[j].spec_modified()
}

/// The items of `s` modified at time `k`, in their order in `s`.
pub open spec fn with_time<T: Dated>(s: Seq<T>, k: u64) -> Seq<T> {
    s.filter(modified_at::<T>(k))
}

/// Holds of the items modified at time `k`.
pub open spec fn modified_at<T: Dated>(k: u64) -> spec_fn(T) -> bool {
    |x: T| x.spec_modified() == k
}

proof fn lemma_with_time_add<T: Dated>(a: Seq<T>, b: Seq<T>, k: u64)
    ensures
        with_time(a + b, k) == with_time(a, k) + with_time(b, k),
{
    Seq::filter_distributes_over_add(a, b, modified_at::<T>(k));
}

proof fn lemma_with_time_none<T: Dated>(s: Seq<T>, k: u64)
    requires
        forall|q: int| 0 <= q < s.len() ==> #[trigger] s[q].spec_modified() != k,
    ensures
        with_time(s, k) == Seq::<T>::empty(),
    decreases s.len(),
{
    reveal(Seq::filter);
    if s.len() > 0 {
        lemma_with_time_none(s.drop_last(), k);
    }
}

proof fn lemma_with_time_one<T: Dated>(x: T, k: u64)
    ensures
        with_time(seq![x], k) == (if x.spec_modified() == k {
            seq![x]
        } else {
            Seq::<T>::empty()
        }),
{
    reveal_with_fuel(Seq::filter, 2);
    assert(seq![x].drop_last() =~= Seq::<T>::empty());
}

/// Orders `items` newest first. Items modified at the same time keep the
/// order they had in `items`.
pub fn sort_newest_first<T: Dated>(items: Vec<T>) -> (r: Vec<T>)
    ensures
        newest_first(r@),
        r@.to_multiset() == items@.to_multiset(),
        forall|k: u64| #[trigger] with_time(r@, k) == with_time(items@, k),
{
    let ghost all = items@;
    let mut input = items;
    let mut out: Vec<T> = Vec::new();
    while input.len() > 0
        invariant
            newest_first(out@),
            out@.to_multiset().add(input@.to_multiset()) == all.to_multiset(),
            input@.len() <= all.len(),
            input@ == all.subrange(0, input@.len() as int),
            forall|k: u64| #[trigger]
                with_time(out@, k) == with_time(all.subrange(input@.len() as int, all.len() as int), k),
        decreases input@.len(),
    {
        let ghost before = input@;
        let last = input.len() - 1;
        let item = input.remove(last);
        let key = item.modified_secs();
        let mut p: usize = 0;
        while p < out.len() && out[p].modified_secs() > key
            invariant
                p <= out@.len(),
                forall|q: int| 0 <= q < p ==> #[trigger] out@[q].spec_modified() > key,
            decreases out@.len() - p,
        {
            p += 1;
        }
        let ghost prev = out@;
        out.insert(p, item);
        proof {
            assert(out@.remove(p as int) =~= prev);
            assert(out@[p as int] == item);
            assert(out@.to_multiset() =~= prev.to_multiset().insert(item));
            assert(before.to_multiset() =~= input@.to_multiset().insert(item));
            assert(out@.to_multiset().add(input@.to_multiset()) =~= all.to_multiset());
            let i = before.len() as int;
            let tail = all.subrange(i, all.len() as int);
            let tail2 = all.subrange(i - 1, all.len() as int);
            assert(before[i - 1] == all[i - 1]);
            assert(item == all[i - 1]);
            assert(tail2 =~= seq![item] + tail);
            assert(input@ =~= all.subrange(0, input@.len() as int));
            let lo = prev.subrange(0, p as int);
            let hi = prev.subrange(p as int, prev.len() as int);
            assert(prev =~= lo + hi);
            assert(out@ =~= lo + seq![item] + hi);
            assert forall|k: u64| #[trigger] with_time(out@, k) == with_time(tail2, k) by {
                lemma_with_time_add(lo + seq![item], hi, k);
                lemma_with_time_add(lo, seq![item], k);
                lemma_with_time_add(lo, hi, k);
                lemma_with_time_add(seq![item], tail, k);
                lemma_with_time_one(item, k);
                assert(with_time(prev, k) == with_time(tail, k));
                if key == k {
                    assert forall|q: int| 0 <= q < lo.len() implies #[trigger] lo[q].spec_modified()
                        != k by {
                        assert(lo[q] == prev[q]);
                    }
                    lemma_with_time_none(lo, k);
                    assert(with_time(lo, k) + with_time(hi, k) =~= with_time(hi, k));
                    assert(with_time(lo, k) + seq![item] =~= seq![item]);
                } else {
                    assert(with_time(lo, k) + Seq::<T>::empty() =~= with_time(lo, k));
                }
            }
            assert forall|i: int, j: int| 0 <= i < j < out@.len() implies #[trigger] out@[i].spec_modified()
                >= #[trigger] out@[j].spec_modified() by {
                if j < p {
                } else if j == p {
                } else if i < p {
                    assert(out@[j] == prev[j - 1]);
                    if p < prev.len() {
                        assert(prev[p as int].spec_modified() <= key);
                        assert(prev[p as int].spec_modified() >= prev[j - 1].spec_modified());
                    }
                } else if i == p {
                    assert(prev[p as int].spec_modified() <= key);
                    assert(prev[p as int].spec_modified() >= prev[j - 1].spec_modified() || p == j - 1);
                } else {
                    assert(out@[i] == prev[i - 1]);
                    assert(out@[j] == prev[j - 1]);
                }
            }
        }
    }
    assert(input@.to_multiset() =~= Multiset::empty());
    assert(out@.to_multiset().add(Multiset::empty()) =~= out@.to_multiset());
    assert(all.subrange(0, all.len() as int) =~= all);
    out
}

} // verus!
