use vstd::prelude::*;
use crate::path::FsPath;

verus! {

/// An ASCII decimal digit.
pub open spec fn is_digit(b: u8) -> bool {
    48 <= b <= 57  // '0' ..= '9'
}

/// In a template, this byte stands for any ASCII digit.
pub open spec fn digit_slot() -> u8 {
    78  // 'N'
}

/// `s` has the template's length, a digit wherever the template has a slot
/// and the template's own byte everywhere else.
pub open spec fn fits_template(s: Seq<u8>, t: Seq<u8>) -> bool {
    &&& s.len() == t.len()
    &&& forall|i: int|
        0 <= i < t.len() ==> if t[i] == digit_slot() {
            is_digit(#[trigger] s[i])
        } else {
            s[i] == t[i]
        }
}

/// `output_log_NN-NN-NN.txt`.
pub open spec fn log_name_template() -> Seq<u8> {
    seq![
        // output_log_NN-NN-NN.txt
        111, 117, 116, 112, 117, 116, 95, 108, 111, 103, 95, 78, 78, 45, 78, 78, 45, 78, 78, 46, 116, 120, 116,
    ]
}

/// The whole name is a rotated log file's name: exact, case-sensitive.
pub open spec fn is_log_name(name: Seq<u8>) -> bool {
    fits_template(name, log_name_template())
}

pub fn log_name_template_bytes() -> (r: Vec<u8>)
    ensures
        r@ == log_name_template(),
{
    let r = vec![
        // output_log_NN-NN-NN.txt
        111, 117, 116, 112, 117, 116, 95, 108, 111, 103, 95, 78, 78, 45, 78, 78, 45, 78, 78, 46, 116, 120, 116,
    ];
    assert(r@ =~= log_name_template());
    r
}

/// Whether `s[start..start + t.len()]` fits the template `t`.
pub fn fits_template_at(s: &[u8], start: usize, t: &Vec<u8>) -> (r: bool)
    requires
        start + t@.len() <= s@.len(),
    ensures
        r == fits_template(s@.subrange(start as int, start + t@.len()), t@),
{
    let ghost w = s@.subrange(start as int, start + t@.len());
    let n = s.len();
    let mut i: usize = 0;
    while i < t.len()
        invariant
            i <= t@.len(),
            n == s@.len(),
            start + t@.len() <= s@.len(),
            w == s@.subrange(start as int, start + t@.len()),
            forall|j: int|
                0 <= j < i ==> if t@[j] == digit_slot() {
                    is_digit(#[trigger] w[j])
                } else {
                    w[j] == t@[j]
                },
        decreases t@.len() - i,
    {
        let b = s[start + i];
        let ok = if t[i] == 78 {  // a digit slot
            48 <= b && b <= 57
        } else {
            b == t[i]
        };
        if !ok {
            assert(w[i as int] == b);
            return false;
        }
        i = i + 1;
    }
    true
}

/// Whether `name` is exactly `output_log_NN-NN-NN.txt` with each `N` an ASCII digit.
pub fn is_log_file_name(name: &[u8]) -> (r: bool)
    ensures
        r == is_log_name(name@),
{
    let t = log_name_template_bytes();
    if name.len() != t.len() {
        return false;
    }
    let r = fits_template_at(name, 0, &t);
    assert(name@.subrange(0, name@.len() as int) =~= name@);
    r
}

/// One entry of a directory listing, as the filesystem reported it.
pub struct EntryInfo {
    /// The entry's name, as UTF-8 bytes.
    pub name: Vec<u8>,
    /// Whether the entry is a regular file (not a directory, not a symbolic link).
    pub is_file: bool,
}

/// Whether a listed entry is a candidate log file.
pub open spec fn is_candidate(e: EntryInfo) -> bool {
    e.is_file && is_log_name(e.name@)
}

/// The watched directory of the game's rotating log files.
pub struct LocalLowVRChat {
    pub vrchat_path: FsPath,
}

impl LocalLowVRChat {
    pub fn new(vrchat_path: FsPath) -> (r: Self)
        ensures
            r.vrchat_path@ == vrchat_path@,
    {
        Self { vrchat_path }
    }

    /// The watched directory `<locallow>/<vendor>/<app>`.
    pub fn from_locallow_path(locallow_path: &FsPath, vendor: Vec<u8>, app: Vec<u8>) -> (r: Self)
        ensures
            r.vrchat_path@ == locallow_path@.push(vendor@).push(app@),
    {
        let vrchat_path = locallow_path.join(vendor).join(app);
        Self::new(vrchat_path)
    }

    /// The paths of the candidates among the entries of the watched directory, in
    /// listing order: regular files whose name is a rotated log file's name.
    pub fn list_logfile_paths(&self, entries: &Vec<EntryInfo>) -> (r: Vec<FsPath>)
        ensures
            r@.map_values(|p: FsPath| p@) == candidate_paths(self.vrchat_path@, entries@),
    {
        let mut r: Vec<FsPath> = Vec::new();
        let mut i: usize = 0;
        while i < entries.len()
            invariant
                i <= entries@.len(),
                r@.map_values(|p: FsPath| p@) == candidate_paths(
                    self.vrchat_path@,
                    entries@.subrange(0, i as int),
                ),
            decreases entries@.len() - i,
        {
            let e = &entries[i];
            let ghost pre = entries@.subrange(0, i as int);
            let ghost cur = entries@.subrange(0, i + 1);
            assert(cur.drop_last() =~= pre);
            let named = is_log_file_name(e.name.as_slice());
            if e.is_file && named {
                let p = self.vrchat_path.join(e.name.clone());
                let ghost old_r = r@;
                r.push(p);
                assert(r@.map_values(|p: FsPath| p@) =~= old_r.map_values(|p: FsPath| p@).push(p@));
            }
            i = i + 1;
        }
        assert(entries@.subrange(0, entries@.len() as int) =~= entries@);
        r
    }
}

/// Each candidate's path is one component longer than the directory's.
pub proof fn lemma_candidate_paths_extend(dir: Seq<Seq<u8>>, entries: Seq<EntryInfo>)
    ensures
        forall|i: int|
            0 <= i < candidate_paths(dir, entries).len() ==> (#[trigger] candidate_paths(dir, entries)[i]).len()
                == dir.len() + 1,
    decreases entries.len(),
{
    if entries.len() > 0 {
        let rest = candidate_paths(dir, entries.drop_last());
        lemma_candidate_paths_extend(dir, entries.drop_last());
        let all = candidate_paths(dir, entries);
        assert forall|i: int| 0 <= i < all.len() implies (#[trigger] all[i]).len() == dir.len() + 1 by {
            if i < rest.len() {
                assert(all[i] == rest[i]);
            }
        }
    }
}

/// `p` is the path under `dir` of some listed regular file whose name is a rotated
/// log file's name.
pub open spec fn is_candidate_path(dir: Seq<Seq<u8>>, entries: Seq<EntryInfo>, p: Seq<Seq<u8>>) -> bool {
    exists|j: int| 0 <= j < entries.len() && is_candidate(#[trigger] entries[j]) && p == dir.push(entries[j].name@)
}

/// A path is selected exactly when it is the path of a listed regular file whose whole
/// name is a rotated log file's name.
pub proof fn lemma_selected_iff_candidate(dir: Seq<Seq<u8>>, entries: Seq<EntryInfo>)
    ensures
        forall|i: int|
            0 <= i < candidate_paths(dir, entries).len() ==> is_candidate_path(
                dir,
                entries,
                #[trigger] candidate_paths(dir, entries)[i],
            ),
        forall|j: int|
            0 <= j < entries.len() && is_candidate(#[trigger] entries[j]) ==> candidate_paths(dir, entries).contains(
                dir.push(entries[j].name@),
            ),
    decreases entries.len(),
{
    if entries.len() > 0 {
        let pre = entries.drop_last();
        let rest = candidate_paths(dir, pre);
        let all = candidate_paths(dir, entries);
        lemma_selected_iff_candidate(dir, pre);
        assert forall|i: int| 0 <= i < all.len() implies is_candidate_path(dir, entries, #[trigger] all[i]) by {
            if i < rest.len() {
                assert(all[i] == rest[i]);
                assert(is_candidate_path(dir, pre, rest[i]));
                let j = choose|j: int|
                    0 <= j < pre.len() && is_candidate(#[trigger] pre[j]) && rest[i] == dir.push(pre[j].name@);
                assert(entries[j] == pre[j]);
            } else {
                let j = entries.len() - 1;
                assert(entries[j] == entries.last());
                assert(all[i] == dir.push(entries[j].name@));
            }
        }
        assert forall|j: int| 0 <= j < entries.len() && is_candidate(#[trigger] entries[j]) implies all.contains(
            dir.push(entries[j].name@),
        ) by {
            if j < pre.len() {
                assert(entries[j] == pre[j]);
                assert(rest.contains(dir.push(pre[j].name@)));
                let i = choose|i: int| 0 <= i < rest.len() && rest[i] == dir.push(pre[j].name@);
                assert(all[i] == rest[i]);
            } else {
                assert(all[all.len() - 1] == dir.push(entries.last().name@));
            }
        }
    }
}

/// The candidates' paths under `dir`, in the order of `entries`.
pub open spec fn candidate_paths(dir: Seq<Seq<u8>>, entries: Seq<EntryInfo>) -> Seq<Seq<Seq<u8>>>
    decreases entries.len(),
{
    if entries.len() == 0 {
        seq![]
    } else {
        let rest = candidate_paths(dir, entries.drop_last());
        if is_candidate(entries.last()) {
            rest.push(dir.push(entries.last().name@))
        } else {
            rest
        }
    }
}

} // verus!
