//! Indexable key/value tags emitted while a transaction runs.
use vstd::prelude::*;

verus! {

/// A key/value pair attached to the transaction being processed.
#[derive(Clone, Debug, PartialEq, Eq)]
pub struct Tag {
    pub key: Vec<u8>,
    pub value: Vec<u8>,
}

/// The tags emitted by one transaction, in emission order.
pub type Tags = Vec<Tag>;

/// A tag as a pair of byte strings.
pub type TagView = (Seq<u8>, Seq<u8>);

impl View for Tag {
    type V = TagView;

    open spec fn view(&self) -> TagView {
        (self.key@, self.value@)
    }
}

impl Tag {
    /// Builds a tag from its key and value.
    pub fn new(key: Vec<u8>, value: Vec<u8>) -> (r: Tag)
        ensures
            r.key == key,
            r.value == value,
    {
        Tag { key, value }
    }
}

/// The views of a sequence of tags.
pub open spec fn tag_views(tags: Seq<Tag>) -> Seq<TagView> {
    tags.map_values(|t: Tag| t@)
}

/// The value that indexing gives `key` among `tags`: the value of the
/// last tag with that key, if any.
pub open spec fn indexed_value(tags: Seq<TagView>, key: Seq<u8>) -> Option<Seq<u8>>
    decreases tags.len(),
{
    if tags.len() == 0 {
        None
    } else if tags.last().0 == key {
        Some(tags.last().1)
    } else {
        indexed_value(tags.drop_last(), key)
    }
}

/// Looks up the value indexed under `key` in one transaction's tags: where
/// several tags share the key, the last one emitted wins.
pub fn lookup_tag<'t>(tags: &'t Tags, key: &[u8]) -> (r: Option<&'t Vec<u8>>)
    ensures
        match r {
            Some(v) => indexed_value(tag_views(tags@), key@) == Some(v@),
            None => indexed_value(tag_views(tags@), key@) == None::<Seq<u8>>,
        },
{
    let mut i: usize = tags.len();
    assert(tags@.subrange(0, i as int) =~= tags@);
    while i > 0
        invariant
            i <= tags@.len(),
            indexed_value(tag_views(tags@), key@) == indexed_value(tag_views(tags@.subrange(0, i as int)), key@),
        decreases i,
    {
        let t = &tags[i - 1];
        proof {
            let pre = tag_views(tags@.subrange(0, i as int));
            assert(pre.drop_last() =~= tag_views(tags@.subrange(0, i - 1)));
            assert(pre.last() == t@);
        }
        if slice_eq(t.key.as_slice(), key) {
            return Some(&t.value);
        }
        i = i - 1;
    }
    None
}

/// Whether two byte strings are equal.
fn slice_eq(a: &[u8], b: &[u8]) -> (r: bool)
    ensures
        r == (a@ == b@),
{
    if a.len() != b.len() {
        return false;
    }
    let mut i: usize = 0;
    while i < a.len()
        invariant
            i <= a@.len(),
            a@.len() == b@.len(),
            forall|j: int| 0 <= j < i ==> a@[j] == b@[j],
        decreases a@.len() - i,
    {
        if a[i] != b[i] {
            return false;
        }
        i = i + 1;
    }
    assert(a@ =~= b@);
    true
}

} // verus!
