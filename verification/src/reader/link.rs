//! The settings of a CloudFetch download and the description of one chunk.

use vstd::prelude::*;
use vstd::string::*;

verus! {

/// Configuration for CloudFetch downloads.
#[derive(Clone, Copy, Debug, PartialEq, Eq, Structural)]
pub struct CloudFetchConfig {
    /// How many chunks may be under download at once.
    pub parallel_downloads: usize,
    /// How many chunks may be held ahead of the one that is delivered next.
    pub prefetch_count: usize,
    /// Maximum memory buffer size in bytes.
    pub max_buffer_size: usize,
}

impl Default for CloudFetchConfig {
    /// Three parallel downloads, two chunks of prefetch, 200 MiB of buffer.
    fn default() -> (config: Self)
        ensures
            config.parallel_downloads == 3,
            config.prefetch_count == 2,
            config.max_buffer_size == 200 * 1024 * 1024,
    {
        CloudFetchConfig {
            parallel_downloads: 3,
            prefetch_count: 2,
            max_buffer_size: 209_715_200,
        }
    }
}

/// A link to one chunk of a result in cloud storage. A link is not changed
/// once the warehouse has issued it.
#[derive(Debug)]
pub struct CloudFetchLink {
    /// The URL to download the chunk from.
    pub url: String,
    /// The byte offset of this chunk in the overall result.
    pub offset: u64,
    /// The size of this chunk in bytes.
    pub size: u64,
    /// The place of this chunk in the overall result, counted from zero.
    pub sequence_index: u64,
    /// The number of rows that this chunk is expected to hold.
    pub row_count: u64,
    /// The instant after which the URL is no longer valid, in milliseconds
    /// since the epoch, if there is one.
    pub expires_at: Option<u64>,
}

/// A chunk link as mathematical data.
pub struct LinkView {
    pub url: Seq<char>,
    pub offset: nat,
    pub size: nat,
    pub sequence_index: nat,
    pub row_count: nat,
    pub expires_at: Option<nat>,
}

impl View for CloudFetchLink {
    type V = LinkView;

    open spec fn view(&self) -> LinkView {
        LinkView {
            url: self.url@,
            offset: self.offset as nat,
            size: self.size as nat,
            sequence_index: self.sequence_index as nat,
            row_count: self.row_count as nat,
            expires_at: match self.expires_at {
                Some(t) => Some(t as nat),
                None => None,
            },
        }
    }
}

impl Clone for CloudFetchLink {
    fn clone(&self) -> (copy: Self)
        ensures
            copy@ == self@,
    {
        CloudFetchLink {
            url: self.url.clone(),
            offset: self.offset,
            size: self.size,
            sequence_index: self.sequence_index,
            row_count: self.row_count,
            expires_at: self.expires_at,
        }
    }
}

/// The links of `links`, as mathematical data.
pub open spec fn link_views(links: Seq<CloudFetchLink>) -> Seq<LinkView> {
    Seq::new(links.len(), |i: int| links[i]@)
}

/// Whether the sequence indices of `links` grow strictly from each link to
/// the next.
pub open spec fn ascending(links: Seq<LinkView>) -> bool {
    forall|i: int, j: int|
        0 <= i < j < links.len() ==> links[i].sequence_index < links[j].sequence_index
}

/// Whether each link's sequence index is larger than that of the link before.
pub open spec fn stepwise_ascending(links: Seq<LinkView>) -> bool {
    forall|i: int|
        0 <= i && i + 1 < links.len() ==> (#[trigger] links[i]).sequence_index < links[i
            + 1].sequence_index
}

/// Growing from each link to the next is growing over any distance.
pub proof fn lemma_stepwise_ascending(links: Seq<LinkView>, i: int, j: int)
    requires
        stepwise_ascending(links),
        0 <= i < j < links.len(),
    ensures
        links[i].sequence_index < links[j].sequence_index,
    decreases j - i,
{
    if i + 1 < j {
        lemma_stepwise_ascending(links, i, j - 1);
        assert(links[j - 1].sequence_index < links[j - 1 + 1].sequence_index);
    } else {
        assert(links[i].sequence_index < links[i + 1].sequence_index);
    }
}

/// Whether the sequence indices of `links` grow strictly from each link to
/// the next.
pub fn is_ascending(links: &Vec<CloudFetchLink>) -> (ok: bool)
    ensures
        ok == ascending(link_views(links@)),
{
    let ghost views = link_views(links@);
    if links.len() < 2 {
        return true;
    }
    let mut i: usize = 1;
    while i < links.len()
        invariant
            1 <= i <= links@.len(),
            views == link_views(links@),
            stepwise_ascending(views.subrange(0, i as int)),
        decreases links@.len() - i,
    {
        if links[i - 1].sequence_index >= links[i].sequence_index {
            assert(views[i - 1].sequence_index >= views[i as int].sequence_index);
            return false;
        }
        proof {
            let shorter = views.subrange(0, i as int);
            let longer = views.subrange(0, i as int + 1);
            assert forall|k: int| 0 <= k && k + 1 < longer.len() implies (#[trigger] longer[k]).sequence_index
                < longer[k + 1].sequence_index by {
                if k + 1 < shorter.len() {
                    assert(shorter[k].sequence_index < shorter[k + 1].sequence_index);
                }
            }
        }
        i = i + 1;
    }
    proof {
        assert(views.subrange(0, i as int) =~= views);
        assert forall|a: int, b: int| 0 <= a < b < views.len() implies views[a].sequence_index
            < views[b].sequence_index by {
            lemma_stepwise_ascending(views, a, b);
        }
    }
    true
}

/// Whether the link at place `i` of `links` is the first with this sequence
/// index.
pub open spec fn is_first_with_index(links: Seq<LinkView>, sequence_index: nat, i: int) -> bool {
    &&& 0 <= i < links.len()
    &&& links[i].sequence_index == sequence_index
    &&& forall|j: int| 0 <= j < i ==> links[j].sequence_index != sequence_index
}

/// The place in `links` of the first link with this sequence index.
pub open spec fn first_with_index(links: Seq<LinkView>, sequence_index: nat) -> Option<int> {
    if exists|i: int| is_first_with_index(links, sequence_index, i) {
        Some(choose|i: int| is_first_with_index(links, sequence_index, i))
    } else {
        None
    }
}

/// The place in `links` of the first link with this sequence index.
pub fn find_link(links: &Vec<CloudFetchLink>, sequence_index: u64) -> (found: Option<usize>)
    ensures
        match found {
            Some(i) => first_with_index(link_views(links@), sequence_index as nat) == Some(
                i as int,
            ) && is_first_with_index(link_views(links@), sequence_index as nat, i as int),
            None => first_with_index(link_views(links@), sequence_index as nat) is None
                && forall|j: int|
                0 <= j < links@.len() ==> link_views(links@)[j].sequence_index
                    != sequence_index as nat,
        },
{
    let ghost views = link_views(links@);
    let mut i: usize = 0;
    while i < links.len()
        invariant
            i <= links@.len(),
            views == link_views(links@),
            forall|j: int| 0 <= j < i ==> views[j].sequence_index != sequence_index as nat,
        decreases links@.len() - i,
    {
        if links[i].sequence_index == sequence_index {
            proof {
                assert(is_first_with_index(views, sequence_index as nat, i as int));
                let k = choose|k: int| is_first_with_index(views, sequence_index as nat, k);
                assert(is_first_with_index(views, sequence_index as nat, k));
                assert(k == i);
            }
            return Some(i);
        }
        i = i + 1;
    }
    None
}

} // verus!
