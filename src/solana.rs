use vstd::prelude::*;
use vstd::string::*;

use crate::rust::{labelled, size_label};
use crate::simulator::text_option;
use crate::text::{version_from_output, version_of};

verus! {

/// One installed release as the inventory reports it.
#[derive(Debug)]
pub struct SolanaInfo {
    pub name: String,
    pub path: String,
    pub size: u64,
    pub is_active: bool,
    pub version: Option<String>,
}

/// What the caller found for one release directory: its name, its path, the
/// size measured under it, and the output of its CLI's `--version`, when the
/// binary exists, ran and printed UTF-8.
pub struct ReleaseEntry {
    pub name: String,
    pub path: String,
    pub size: u64,
    pub version_output: Option<String>,
}

/// The fields of a `SolanaInfo` as mathematical values.
pub struct SolanaRecord {
    pub name: Seq<char>,
    pub path: Seq<char>,
    pub size: u64,
    pub is_active: bool,
    pub version: Option<Seq<char>>,
}

impl View for SolanaInfo {
    type V = SolanaRecord;

    open spec fn view(&self) -> SolanaRecord {
        SolanaRecord {
            name: self.name@,
            path: self.path@,
            size: self.size,
            is_active: self.is_active,
            version: text_option(self.version),
        }
    }
}

pub open spec fn release_record(e: ReleaseEntry, active: Option<Seq<char>>) -> SolanaRecord {
    SolanaRecord {
        name: e.name@,
        path: e.path@,
        size: e.size,
        is_active: active == Some(e.name@),
        version: version_of(text_option(e.version_output)),
    }
}

pub open spec fn stable_prefix() -> Seq<char> {
    seq!['s', 't', 'a', 'b', 'l', 'e', '-']
}

/// First `/` at or after `i` (or the end).
pub open spec fn segment_end(s: Seq<char>, i: int) -> int
    decreases s.len() - i,
{
    if i >= s.len() {
        s.len() as int
    } else if s[i] == '/' {
        i
    } else {
        segment_end(s, i + 1)
    }
}

/// The first `/`-separated segment of `s`, from the one that starts at `i`
/// on, that begins with `stable-`.
pub open spec fn stable_segment_from(s: Seq<char>, i: int) -> Option<Seq<char>>
    decreases s.len() + 1 - i,
{
    if i < 0 || i > s.len() {
        None
    } else {
        let e = segment_end(s, i);
        let seg = s.subrange(i, e);
        if seg.len() >= 7 && seg.subrange(0, 7) == stable_prefix() {
            Some(seg)
        } else if e >= s.len() || e < i {
            None
        } else {
            stable_segment_from(s, e + 1)
        }
    }
}

/// The active release named by the target of the active-release link: its
/// first path segment that begins with `stable-`.
pub open spec fn stable_segment(s: Seq<char>) -> Option<Seq<char>> {
    stable_segment_from(s, 0)
}

/// Positions, in increasing order, of the items that are not active.
pub open spec fn inactive_positions(active: Seq<bool>) -> Seq<usize>
    decreases active.len(),
{
    if active.len() == 0 {
        Seq::empty()
    } else if active.last() {
        inactive_positions(active.drop_last())
    } else {
        inactive_positions(active.drop_last()).push((active.len() - 1) as usize)
    }
}

proof fn lemma_segment_end_bounds(s: Seq<char>, i: int)
    requires
        0 <= i <= s.len(),
    ensures
        i <= segment_end(s, i) <= s.len(),
    decreases s.len() - i,
{
    if i < s.len() && s[i] != '/' {
        lemma_segment_end_bounds(s, i + 1);
    }
}

fn segment_end_from(s: &str, len: usize, i: usize) -> (r: usize)
    requires
        len == s@.len(),
        i <= len,
    ensures
        r == segment_end(s@, i as int),
{
    let mut j = i;
    while j < len && s.get_char(j) != '/'
        invariant
            i <= j <= len,
            len == s@.len(),
            segment_end(s@, j as int) == segment_end(s@, i as int),
        decreases len - j,
    {
        j = j + 1;
    }
    j
}

fn starts_stable(seg: &str) -> (r: bool)
    ensures
        r == (seg@.len() >= 7 && seg@.subrange(0, 7) == stable_prefix()),
{
    if seg.unicode_len() < 7 {
        return false;
    }
    let head = String::from_str(seg.substring_char(0, 7));
    let prefix = String::from_str("stable-");
    proof {
        reveal_strlit("stable-");
        assert("stable-"@ =~= stable_prefix());
    }
    head == prefix
}

/// No two releases share a name, as no two entries of one directory do.
pub open spec fn distinct_release_names(releases: Seq<ReleaseEntry>) -> bool {
    forall|i: int, j: int|
        0 <= i < releases.len() && 0 <= j < releases.len() && i != j ==> #[trigger] releases[i].name@
            != #[trigger] releases[j].name@
}

/// Among releases of distinct names, at most one is marked active.
pub proof fn lemma_at_most_one_active_release(
    releases: Seq<ReleaseEntry>,
    active: Option<Seq<char>>,
    i: int,
    j: int,
)
    requires
        distinct_release_names(releases),
        0 <= i < releases.len(),
        0 <= j < releases.len(),
        release_record(releases[i], active).is_active,
        release_record(releases[j], active).is_active,
    ensures
        i == j,
{
}

/// Whether the release named `name` is the active one: its name is the
/// active release's name exactly.
fn is_active_release(name: &String, active: &Option<String>) -> (r: bool)
    ensures
        r == (text_option(*active) == Some(name@)),
{
    match active {
        Some(a) => *a == *name,
        None => false,
    }
}

/// The release backend.
pub struct Solana;

impl Solana {
    /// The active release named by the target of the active-release link.
    pub fn active_release(link_target: &str) -> (r: Option<String>)
        ensures
            text_option(r) == stable_segment(link_target@),
    {
        let len = link_target.unicode_len();
        let mut i: usize = 0;
        loop
            invariant
                i <= len,
                len == link_target@.len(),
                stable_segment_from(link_target@, i as int) == stable_segment(link_target@),
            decreases len - i,
        {
            proof {
                lemma_segment_end_bounds(link_target@, i as int);
            }
            let e = segment_end_from(link_target, len, i);
            let seg = link_target.substring_char(i, e);
            if starts_stable(seg) {
                return Some(String::from_str(seg));
            }
            if e >= len {
                return None;
            }
            i = e + 1;
        }
    }

    /// The release inventory: one item per release directory, in the order
    /// given, marked active when its name is the active release's name.
    pub fn get_solana_versions(active: &Option<String>, releases: &Vec<ReleaseEntry>) -> (r: Vec<
        SolanaInfo,
    >)
        ensures
            r@.len() == releases@.len(),
            forall|k: int|
                0 <= k < r@.len() ==> #[trigger] r@[k]@ == release_record(
                    releases@[k],
                    text_option(*active),
                ),
    {
        let mut out: Vec<SolanaInfo> = Vec::new();
        let mut i: usize = 0;
        while i < releases.len()
            invariant
                i <= releases@.len(),
                out@.len() == i,
                forall|k: int|
                    0 <= k < i ==> #[trigger] out@[k]@ == release_record(
                        releases@[k],
                        text_option(*active),
                    ),
            decreases releases@.len() - i,
        {
            let e = &releases[i];
            out.push(
                SolanaInfo {
                    name: e.name.clone(),
                    path: e.path.clone(),
                    size: e.size,
                    is_active: is_active_release(&e.name, active),
                    version: version_from_output(&e.version_output),
                },
            );
            i = i + 1;
        }
        out
    }

    /// The positions of the releases that may be offered for deletion: every
    /// one that is not active, in inventory order.
    pub fn cleanup_candidates(list: &Vec<SolanaInfo>) -> (r: Vec<usize>)
        ensures
            r@ == inactive_positions(list@.map_values(|s: SolanaInfo| s.is_active)),
    {
        let mut out: Vec<usize> = Vec::new();
        let mut i: usize = 0;
        while i < list.len()
            invariant
                i <= list@.len(),
                out@ == inactive_positions(
                    list@.map_values(|s: SolanaInfo| s.is_active).take(i as int),
                ),
            decreases list@.len() - i,
        {
            let ghost flags = list@.map_values(|s: SolanaInfo| s.is_active);
            assert(flags.take((i + 1) as int).drop_last() =~= flags.take(i as int));
            if !list[i].is_active {
                out.push(i);
            }
            i = i + 1;
        }
        assert(list@.map_values(|s: SolanaInfo| s.is_active).take(list@.len() as int)
            =~= list@.map_values(|s: SolanaInfo| s.is_active));
        out
    }

    /// The text a release is offered under for deletion.
    pub fn selection_label(info: &SolanaInfo) -> (r: String)
        ensures
            r@ == labelled(info.name@, info.size),
    {
        size_label(&info.name, info.size)
    }
}

} // verus!
