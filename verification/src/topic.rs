//! The ordered identity of an updated resource: a canonical URL plus
//! alternate URLs.
//!
//! The hub treats the first `topic` field of a publish request as the
//! canonical IRI of the topic and the following ones as alternates, so the
//! order of this sequence is load-bearing. URLs are carried as their
//! serialized string form; parsing and normalizing them is the caller's
//! concern.

use vstd::prelude::*;

verus! {

/// The identifiers of an updated topic: one canonical URL followed by any
/// number of alternate URLs, in insertion order. Duplicates are legal and
/// preserved.
#[derive(Clone, Debug, PartialEq, Eq, Hash)]
pub struct Topic {
    canonical_url: String,
    alternate_urls: Vec<String>,
}

impl View for Topic {
    type V = Seq<Seq<char>>;

    /// The URL sequence of the topic: canonical first, then alternates.
    closed spec fn view(&self) -> Seq<Seq<char>> {
        seq![self.canonical_url@] + self.alternate_urls.deep_view()
    }
}

impl Topic {
    /// Constructs a new `Topic`. Never fails.
    pub fn new(canonical_url: String, alternate_urls: Vec<String>) -> (r: Topic)
        ensures
            r@ == seq![canonical_url@] + alternate_urls.deep_view(),
            r@.len() == 1 + alternate_urls@.len(),
    {
        let r = Topic { canonical_url, alternate_urls };
        proof {
            assert(r@.len() == 1 + r.alternate_urls.deep_view().len());
        }
        r
    }

    /// Constructs a `Topic` from a canonical URL alone, with no
    /// alternates.
    pub fn from(canonical_url: String) -> (r: Topic)
        ensures
            r@ =~= seq![canonical_url@],
    {
        Topic { canonical_url, alternate_urls: Vec::new() }
    }

    /// Returns the topic URLs in iteration order: the canonical URL,
    /// followed by the alternate URLs.
    pub fn iter(&self) -> (r: Vec<String>)
        ensures
            r.deep_view() == self@,
            r@.len() == self@.len(),
    {
        let mut r: Vec<String> = Vec::new();
        r.push(self.canonical_url.clone());
        let mut i: usize = 0;
        while i < self.alternate_urls.len()
            invariant
                i <= self.alternate_urls@.len(),
                r.deep_view() =~= self@.take(1 + i),
                r@.len() == 1 + i,
            decreases self.alternate_urls@.len() - i,
        {
            r.push(self.alternate_urls[i].clone());
            proof {
                assert(r.deep_view() =~= self@.take(1 + i + 1));
            }
            i = i + 1;
        }
        proof {
            assert(self@.take(self@.len() as int) =~= self@);
        }
        r
    }

    /// Consumes the topic and returns its URLs in iteration order: the
    /// canonical URL, followed by the alternate URLs.
    pub fn into_urls(self) -> (r: Vec<String>)
        ensures
            r.deep_view() == self@,
            r@.len() == self@.len(),
    {
        self.iter()
    }

    /// The canonical URL of the topic.
    pub fn canonical_url(&self) -> (r: &String)
        ensures
            r@ == self@[0],
    {
        &self.canonical_url
    }

    /// The alternate URLs of the topic, in insertion order.
    pub fn alternate_urls(&self) -> (r: &Vec<String>)
        ensures
            r.deep_view() == self@.drop_first(),
            r@.len() + 1 == self@.len(),
    {
        proof {
            assert(self.alternate_urls.deep_view() =~= self@.drop_first());
        }
        &self.alternate_urls
    }
}

/// A topic always carries at least one URL: the canonical one.
pub proof fn lemma_topic_view_nonempty(t: &Topic)
    ensures
        t@.len() >= 1,
{
}

/// The topic URL sequence always starts with the canonical URL and
/// continues with the alternate URLs in insertion order, so its
/// length is one more than the number of alternates.
pub proof fn lemma_topic_order(canonical_url: String, alternate_urls: Vec<String>, t: Topic)
    requires
        t@ == seq![canonical_url@] + alternate_urls.deep_view(),
    ensures
        t@.len() == 1 + alternate_urls@.len(),
        t@[0] == canonical_url@,
        forall|i: int| 0 <= i < alternate_urls@.len() ==> t@[i + 1] == alternate_urls@[i]@,
{
    assert(forall|i: int|
        0 <= i < alternate_urls@.len() ==> alternate_urls.deep_view()[i] == alternate_urls@[i]@);
}

} // verus!
