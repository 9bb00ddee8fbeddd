//! Releases, their assets, and the naming rule that ties an asset to a tag.

use vstd::prelude::*;
use vstd::string::*;
use crate::text::{chars_of, text_of};

verus! {

/// A repository, named by its owner and its short name.
pub struct Repository {
    pub owner: String,
    pub repo: String,
}

/// The version identifier of a release, such as `v1.2.0`.
pub struct Tag(pub String);

/// One downloadable file of a release. Its name identifies it.
pub struct Asset {
    pub name: String,
    pub download_url: String,
}

/// A release: its tag and its assets, in the order in which they were published.
pub struct Release {
    pub tag: Tag,
    pub assets: Vec<Asset>,
}

impl Repository {
    /// The text `owner/repo`.
    pub open spec fn spec_full_name(&self) -> Seq<char> {
        self.owner@ + seq!['/'] + self.repo@
    }

    /// The text `owner/repo`.
    pub fn full_name(&self) -> (res: String)
        ensures
            res@ == self.spec_full_name(),
    {
        let mut out = self.owner.clone();
        out.push('/');
        out.append(self.repo.as_str());
        out
    }
}

impl Asset {
    /// A copy of this asset.
    pub fn duplicate(&self) -> (res: Asset)
        ensures
            res == *self,
    {
        Asset { name: self.name.clone(), download_url: self.download_url.clone() }
    }
}

/// The version that a tag stands for: the tag without one leading `v`.
pub open spec fn version_of(tag: Seq<char>) -> Seq<char> {
    if tag.len() > 0 && tag[0] == 'v' {
        tag.subrange(1, tag.len() as int)
    } else {
        tag
    }
}

/// Whether the placeholder `{tag}` stands in `name` at index `i`.
pub open spec fn placeholder_at(name: Seq<char>, i: int) -> bool {
    0 <= i && i + 5 <= name.len() && name[i] == '{' && name[i + 1] == 't' && name[i + 2] == 'a'
        && name[i + 3] == 'g' && name[i + 4] == '}'
}

/// What `name` becomes from index `i` on when every placeholder `{tag}`,
/// read from left to right, is replaced by `version`.
pub open spec fn filled_from(version: Seq<char>, name: Seq<char>, i: int) -> Seq<char>
    decreases name.len() - i,
{
    if i < 0 || i >= name.len() {
        Seq::empty()
    } else if placeholder_at(name, i) {
        version + filled_from(version, name, i + 5)
    } else {
        seq![name[i]] + filled_from(version, name, i + 1)
    }
}

/// The name of the asset that `untagged` stands for in the release `tag`:
/// `untagged` with every `{tag}` replaced by the tag's version.
pub open spec fn tagged_name(tag: Seq<char>, untagged: Seq<char>) -> Seq<char> {
    filled_from(version_of(tag), untagged, 0)
}

impl Tag {
    /// The version that this tag stands for: the tag without one leading `v`.
    pub fn version(&self) -> (res: Vec<char>)
        ensures
            res@ == version_of(self.0@),
    {
        let all = chars_of(self.0.as_str());
        if all.len() > 0 && all[0] == 'v' {
            let mut out: Vec<char> = Vec::new();
            let mut i: usize = 1;
            while i < all.len()
                invariant
                    1 <= i <= all.len(),
                    out@ == all@.subrange(1, i as int),
                decreases all.len() - i,
            {
                out.push(all[i]);
                i += 1;
            }
            out
        } else {
            all
        }
    }
}

/// Asset names in which `{tag}` stands for the version of a release.
pub struct TaggedAsset;

impl TaggedAsset {
    /// The exact asset name for `untagged` in the release `tag`: every `{tag}`
    /// in `untagged`, read from left to right, is replaced by the tag's
    /// version. A name without the placeholder comes back unchanged.
    pub fn tag(tag: &Tag, untagged: &str) -> (res: String)
        ensures
            res@ == tagged_name(tag.0@, untagged@),
    {
        let version = tag.version();
        let name = chars_of(untagged);
        let mut out: Vec<char> = Vec::new();
        let mut i: usize = 0;
        while i < name.len()
            invariant
                i <= name.len(),
                out@ + filled_from(version@, name@, i as int) == filled_from(version@, name@, 0),
            decreases name.len() - i,
        {
            let ghost before = out@;
            if name.len() - i >= 5 && name[i] == '{' && name[i + 1] == 't' && name[i + 2] == 'a'
                && name[i + 3] == 'g' && name[i + 4] == '}' {
                let mut k: usize = 0;
                while k < version.len()
                    invariant
                        k <= version.len(),
                        out@ == before + version@.subrange(0, k as int),
                    decreases version.len() - k,
                {
                    out.push(version[k]);
                    k += 1;
                }
                assert(version@.subrange(0, version.len() as int) == version@);
                assert(out@ + filled_from(version@, name@, i + 5) == before + filled_from(
                    version@,
                    name@,
                    i as int,
                ));
                i += 5;
            } else {
                out.push(name[i]);
                assert(out@ + filled_from(version@, name@, i + 1) == before + filled_from(
                    version@,
                    name@,
                    i as int,
                ));
                i += 1;
            }
        }
        assert(out@ + Seq::<char>::empty() == out@);
        text_of(&out)
    }
}

/// Resolving a name is a function of the tag's text and the name's text:
/// equal inputs give equal asset names, whenever and however often asked.
pub proof fn lemma_tag_is_deterministic(
    tag_a: Seq<char>,
    name_a: Seq<char>,
    tag_b: Seq<char>,
    name_b: Seq<char>,
)
    requires
        tag_a == tag_b,
        name_a == name_b,
    ensures
        tagged_name(tag_a, name_a) == tagged_name(tag_b, name_b),
{
}

/// A name that holds no `{` is its own tagged name, whatever the tag.
pub proof fn lemma_plain_name_unchanged(tag: Seq<char>, name: Seq<char>)
    requires
        forall|i: int| 0 <= i < name.len() ==> name[i] != '{',
    ensures
        tagged_name(tag, name) == name,
{
    lemma_plain_from(version_of(tag), name, 0);
    assert(name.subrange(0, name.len() as int) == name);
}

proof fn lemma_plain_from(version: Seq<char>, name: Seq<char>, i: int)
    requires
        0 <= i <= name.len(),
        forall|k: int| 0 <= k < name.len() ==> name[k] != '{',
    ensures
        filled_from(version, name, i) == name.subrange(i, name.len() as int),
    decreases name.len() - i,
{
    if i < name.len() {
        lemma_plain_from(version, name, i + 1);
        assert(seq![name[i]] + name.subrange(i + 1, name.len() as int) == name.subrange(
            i,
            name.len() as int,
        ));
    } else {
        assert(name.subrange(i, name.len() as int) == Seq::<char>::empty());
    }
}

} // verus!
