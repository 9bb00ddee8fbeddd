//! Picking the asset of a release that fits a host system.

use vstd::prelude::*;
use crate::release::Asset;
use crate::text::{chars_of, is_alnum, char_is_alnum, lower_text, lowered, matches_at, occurs_at, same_chars};

verus! {

/// The host that an asset is looked for: operating system and architecture,
/// in the vocabulary of `std::env::consts`.
pub struct SystemDescriptor {
    pub os: String,
    pub arch: String,
}

/// Whether `word` stands in `name` at index `at` as a run of its own: no
/// letter or digit stands directly before it or directly behind it.
pub open spec fn word_at(name: Seq<char>, word: Seq<char>, at: int) -> bool {
    occurs_at(name, word, at) && (at == 0 || !is_alnum(name[at - 1])) && (at + word.len()
        == name.len() || !is_alnum(name[at + word.len()]))
}

/// Whether `word` is among the runs that the separators of `name` leave.
pub open spec fn has_word(name: Seq<char>, word: Seq<char>) -> bool {
    exists|at: int| word_at(name, word, at)
}

/// Whether the characters of `name` from index `i` up to index `j` are a
/// token: a longest run of letters and digits between separators.
pub open spec fn is_token(name: Seq<char>, i: int, j: int) -> bool {
    0 <= i < j <= name.len() && (forall|k: int| i <= k < j ==> is_alnum(#[trigger] name[k])) && (i
        == 0 || !is_alnum(name[i - 1])) && (j == name.len() || !is_alnum(name[j]))
}

/// Whether `word` is one of the tokens of `name`.
pub open spec fn has_token(name: Seq<char>, word: Seq<char>) -> bool {
    exists|i: int, j: int| is_token(name, i, j) && #[trigger] name.subrange(i, j) == word
}

/// A word of letters and digits is in a name, in the sense of
/// [`has_word`], exactly if it is one of the name's tokens.
pub proof fn lemma_word_is_token(name: Seq<char>, word: Seq<char>)
    requires
        word.len() > 0,
        forall|k: int| 0 <= k < word.len() ==> is_alnum(#[trigger] word[k]),
    ensures
        has_word(name, word) == has_token(name, word),
{
    if has_word(name, word) {
        let at = choose|at: int| word_at(name, word, at);
        let end = at + word.len();
        assert forall|k: int| at <= k < end implies is_alnum(#[trigger] name[k]) by {
            assert(name.subrange(at, end)[k - at] == word[k - at]);
        }
        assert(is_token(name, at, end) && name.subrange(at, end) == word);
    }
    if has_token(name, word) {
        let (i, j) = choose|i: int, j: int|
            is_token(name, i, j) && #[trigger] name.subrange(i, j) == word;
        assert(word.len() == j - i);
        assert(word_at(name, word, i));
    }
}

/// Whether `name` holds one of `words` as a run of its own.
pub open spec fn has_any_word(name: Seq<char>, words: Seq<Seq<char>>) -> bool {
    exists|k: int| 0 <= k < words.len() && has_word(name, #[trigger] words[k])
}

/// The names under which asset names speak of the operating system `os`.
pub open spec fn os_aliases(os: Seq<char>) -> Seq<Seq<char>> {
    if os == "linux"@ {
        seq!["linux"@]
    } else if os == "macos"@ || os == "darwin"@ {
        seq!["darwin"@, "macos"@, "apple"@, "osx"@]
    } else if os == "windows"@ {
        seq!["windows"@, "win64"@, "win32"@, "win"@]
    } else {
        seq![lower_text(os)]
    }
}

/// The names under which asset names speak of the architecture `arch`.
pub open spec fn arch_aliases(arch: Seq<char>) -> Seq<Seq<char>> {
    if arch == "x86_64"@ || arch == "amd64"@ {
        seq!["x86_64"@, "amd64"@, "x64"@]
    } else if arch == "aarch64"@ || arch == "arm64"@ {
        seq!["aarch64"@, "arm64"@]
    } else if arch == "x86"@ || arch == "i686"@ {
        seq!["x86"@, "i686"@, "i386"@, "386"@]
    } else {
        seq![lower_text(arch)]
    }
}

/// Whether an asset called `name` fits the host: its lower-cased name holds
/// an alias of the operating system and an alias of the architecture.
pub open spec fn name_fits(os: Seq<char>, arch: Seq<char>, name: Seq<char>) -> bool {
    has_any_word(lower_text(name), os_aliases(os)) && has_any_word(
        lower_text(name),
        arch_aliases(arch),
    )
}

/// Whether the asset at index `i` is the first whose name fits the host.
pub open spec fn is_first_fit(os: Seq<char>, arch: Seq<char>, assets: Seq<Asset>, i: int) -> bool {
    0 <= i < assets.len() && name_fits(os, arch, assets[i].name@) && forall|j: int|
        0 <= j < i ==> !name_fits(os, arch, (#[trigger] assets[j]).name@)
}

/// Whether no asset has a name that fits the host.
pub open spec fn none_fits(os: Seq<char>, arch: Seq<char>, assets: Seq<Asset>) -> bool {
    forall|j: int| 0 <= j < assets.len() ==> !name_fits(os, arch, (#[trigger] assets[j]).name@)
}

/// Whether `words` holds the texts `model`, one for one.
pub open spec fn holds_words(words: Seq<Vec<char>>, model: Seq<Seq<char>>) -> bool {
    words.len() == model.len() && forall|k: int| 0 <= k < words.len() ==> (#[trigger] words[k])@
        == model[k]
}

fn reads(text: &Vec<char>, literal: &str) -> (res: bool)
    ensures
        res == (text@ == literal@),
{
    let other = chars_of(literal);
    same_chars(text, &other)
}

fn words1(a: Vec<char>) -> (res: Vec<Vec<char>>)
    ensures
        holds_words(res@, seq![a@]),
{
    let mut out: Vec<Vec<char>> = Vec::new();
    out.push(a);
    out
}

fn words_of(a: &str, b: &str, rest: &Vec<&str>) -> (res: Vec<Vec<char>>)
    ensures
        res@.len() == 2 + rest@.len(),
        res@[0]@ == a@,
        res@[1]@ == b@,
        forall|k: int| 2 <= k < res@.len() ==> (#[trigger] res@[k])@ == rest@[k - 2]@,
{
    let mut out: Vec<Vec<char>> = Vec::new();
    out.push(chars_of(a));
    out.push(chars_of(b));
    let mut i: usize = 0;
    while i < rest.len()
        invariant
            i <= rest.len(),
            out@.len() == 2 + i,
            out@[0]@ == a@,
            out@[1]@ == b@,
            forall|k: int| 2 <= k < out@.len() ==> (#[trigger] out@[k])@ == rest@[k - 2]@,
        decreases rest.len() - i,
    {
        out.push(chars_of(rest[i]));
        i += 1;
    }
    out
}

/// The aliases of the operating system `os`.
pub fn os_alias_list(os: &str) -> (res: Vec<Vec<char>>)
    ensures
        holds_words(res@, os_aliases(os@)),
{
    let given = chars_of(os);
    let mut rest: Vec<&str> = Vec::new();
    if reads(&given, "linux") {
        words1(chars_of("linux"))
    } else if reads(&given, "macos") || reads(&given, "darwin") {
        rest.push("apple");
        rest.push("osx");
        let out = words_of("darwin", "macos", &rest);
        out
    } else if reads(&given, "windows") {
        rest.push("win32");
        rest.push("win");
        let out = words_of("windows", "win64", &rest);
        out
    } else {
        words1(lowered(&given))
    }
}

/// The aliases of the architecture `arch`.
pub fn arch_alias_list(arch: &str) -> (res: Vec<Vec<char>>)
    ensures
        holds_words(res@, arch_aliases(arch@)),
{
    let given = chars_of(arch);
    let mut rest: Vec<&str> = Vec::new();
    if reads(&given, "x86_64") || reads(&given, "amd64") {
        rest.push("x64");
        let out = words_of("x86_64", "amd64", &rest);
        out
    } else if reads(&given, "aarch64") || reads(&given, "arm64") {
        words_of("aarch64", "arm64", &rest)
    } else if reads(&given, "x86") || reads(&given, "i686") {
        rest.push("i386");
        rest.push("386");
        let out = words_of("x86", "i686", &rest);
        out
    } else {
        words1(lowered(&given))
    }
}

fn is_word_at(name: &Vec<char>, word: &Vec<char>, at: usize) -> (res: bool)
    ensures
        res == word_at(name@, word@, at as int),
{
    let found = matches_at(name, word, at);
    if !found {
        return false;
    }
    let n: usize = name.len();
    assert(at + word@.len() <= n);
    if at > 0 && char_is_alnum(name[at - 1]) {
        return false;
    }
    let end: usize = at + word.len();
    end == n || !char_is_alnum(name[end])
}

/// Whether `word` is among the runs that the separators of `name` leave.
pub fn contains_word(name: &Vec<char>, word: &Vec<char>) -> (res: bool)
    ensures
        res == has_word(name@, word@),
{
    let mut at: usize = 0;
    while at < name.len()
        invariant
            at <= name.len(),
            forall|j: int| 0 <= j < at ==> !word_at(name@, word@, j),
        decreases name.len() - at,
    {
        if is_word_at(name, word, at) {
            return true;
        }
        at += 1;
    }
    let last = is_word_at(name, word, at);
    proof {
        if !last {
            assert forall|j: int| !word_at(name@, word@, j) by {
                if word_at(name@, word@, j) {
                    assert(0 <= j <= name@.len());
                }
            }
        }
    }
    last
}

/// Whether `name` holds one of `words` as a run of its own.
pub fn contains_any_word(name: &Vec<char>, words: &Vec<Vec<char>>) -> (res: bool)
    ensures
        forall|model: Seq<Seq<char>>|
            holds_words(words@, model) ==> res == has_any_word(name@, model),
{
    let mut k: usize = 0;
    while k < words.len()
        invariant
            k <= words.len(),
            forall|j: int| 0 <= j < k ==> !has_word(name@, (#[trigger] words@[j])@),
        decreases words.len() - k,
    {
        if contains_word(name, &words[k]) {
            assert forall|model: Seq<Seq<char>>| holds_words(words@, model) implies has_any_word(
                name@,
                model,
            ) by {
                assert(words@[k as int]@ == model[k as int]);
                assert(has_word(name@, model[k as int]));
            }
            return true;
        }
        k += 1;
    }
    assert forall|model: Seq<Seq<char>>| holds_words(words@, model) implies !has_any_word(
        name@,
        model,
    ) by {
        if has_any_word(name@, model) {
            let j = choose|j: int| 0 <= j < model.len() && has_word(name@, #[trigger] model[j]);
            assert(words@[j]@ == model[j]);
        }
    }
    false
}

/// The first asset, in the order given, whose name fits the host `os` and
/// `arch`; `None` where no name fits.
pub fn find_asset_by_system(os: &str, arch: &str, assets: &Vec<Asset>) -> (res: Option<Asset>)
    ensures
        match res {
            Some(asset) => exists|i: int|
                is_first_fit(os@, arch@, assets@, i) && asset == #[trigger] assets@[i],
            None => none_fits(os@, arch@, assets@),
        },
{
    match find_index_by_system(os, arch, assets) {
        Some(i) => {
            let asset = assets[i].duplicate();
            assert(is_first_fit(os@, arch@, assets@, i as int) && asset == assets@[i as int]);
            Some(asset)
        },
        None => None,
    }
}

/// The index of the first asset whose name fits the host; `None` where no
/// name fits.
pub fn find_index_by_system(os: &str, arch: &str, assets: &Vec<Asset>) -> (res: Option<usize>)
    ensures
        match res {
            Some(i) => is_first_fit(os@, arch@, assets@, i as int),
            None => none_fits(os@, arch@, assets@),
        },
{
    let os_words = os_alias_list(os);
    let arch_words = arch_alias_list(arch);
    let mut i: usize = 0;
    while i < assets.len()
        invariant
            i <= assets.len(),
            holds_words(os_words@, os_aliases(os@)),
            holds_words(arch_words@, arch_aliases(arch@)),
            forall|j: int| 0 <= j < i ==> !name_fits(os@, arch@, (#[trigger] assets@[j]).name@),
        decreases assets.len() - i,
    {
        let name = lowered(&chars_of(assets[i].name.as_str()));
        if contains_any_word(&name, &os_words) && contains_any_word(&name, &arch_words) {
            return Some(i);
        }
        i += 1;
    }
    None
}

impl SystemDescriptor {
    /// The first of `candidates` that fits this host, if any does.
    pub fn find_asset(&self, candidates: &Vec<Asset>) -> (res: Option<Asset>)
        ensures
            match res {
                Some(asset) => exists|i: int|
                    is_first_fit(self.os@, self.arch@, candidates@, i) && asset
                        == #[trigger] candidates@[i],
                None => none_fits(self.os@, self.arch@, candidates@),
            },
    {
        find_asset_by_system(self.os.as_str(), self.arch.as_str(), candidates)
    }
}

} // verus!
