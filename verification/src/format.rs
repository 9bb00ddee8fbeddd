//! Classifying a downloaded file by its name.

use vstd::prelude::*;
use vstd::string::*;
use crate::text::{chars_of, char_is_alnum, char_is_letter, ends_with, has_suffix, is_alnum, is_letter, lower_text, lowered};

verus! {

/// The kinds of file that an installation tells apart.
#[derive(Clone, Copy, Debug, PartialEq, Eq, Structural)]
pub enum FormatTag {
    Gzip,
    Xz,
    Bzip2,
    Zip,
    DebianPackage,
    RawExecutable,
    Unsupported,
}

/// A downloaded file together with the format that its name gave it.
pub struct ClassifiedFile {
    pub path: String,
    pub format: FormatTag,
}

/// Whether `name` has an extension that starts at the dot at index `k`: a
/// letter follows the dot, and only letters and digits follow up to the end.
pub open spec fn extension_at(name: Seq<char>, k: int) -> bool {
    0 <= k && k + 1 < name.len() && name[k] == '.' && is_letter(name[k + 1]) && forall|m: int|
        k < m < name.len() ==> is_alnum(#[trigger] name[m])
}

/// Whether `name` ends in an extension.
pub open spec fn has_extension(name: Seq<char>) -> bool {
    exists|k: int| extension_at(name, k)
}

/// Whether the lower-cased name `l` ends in an extension of gzip data.
pub open spec fn is_gzip_name(l: Seq<char>) -> bool {
    ends_with(l, ".tar.gz"@) || ends_with(l, ".tgz"@) || ends_with(l, ".gz"@)
}

/// Whether the lower-cased name `l` ends in an extension of xz data.
pub open spec fn is_xz_name(l: Seq<char>) -> bool {
    ends_with(l, ".tar.xz"@) || ends_with(l, ".txz"@) || ends_with(l, ".xz"@)
}

/// Whether the lower-cased name `l` ends in an extension of bzip2 data.
pub open spec fn is_bzip2_name(l: Seq<char>) -> bool {
    ends_with(l, ".tar.bz2"@) || ends_with(l, ".tbz"@) || ends_with(l, ".bz2"@)
}

/// The format of a file called `name`. The name is read in lower case and
/// the longer extensions are tried first; `executable` says whether the
/// file carries the host's marks of an executable, which counts only where
/// the name has no extension at all.
pub open spec fn format_of(name: Seq<char>, executable: bool) -> FormatTag {
    let l = lower_text(name);
    if is_gzip_name(l) {
        FormatTag::Gzip
    } else if is_xz_name(l) {
        FormatTag::Xz
    } else if is_bzip2_name(l) {
        FormatTag::Bzip2
    } else if ends_with(l, ".deb"@) {
        FormatTag::DebianPackage
    } else if ends_with(l, ".zip"@) {
        FormatTag::Zip
    } else if executable && !has_extension(l) {
        FormatTag::RawExecutable
    } else {
        FormatTag::Unsupported
    }
}

/// Whether `bytes` begins with the four bytes `a`, `b`, `c`, `d`.
pub open spec fn starts_with4(bytes: Seq<u8>, a: u8, b: u8, c: u8, d: u8) -> bool {
    bytes.len() >= 4 && bytes[0] == a && bytes[1] == b && bytes[2] == c && bytes[3] == d
}

/// Whether `bytes` begins as an executable does: with the mark of an ELF,
/// Mach-O or PE image, or with the `#!` of a script.
pub open spec fn has_executable_signature(bytes: Seq<u8>) -> bool {
    starts_with4(bytes, 0x7f, 0x45, 0x4c, 0x46) || starts_with4(bytes, 0xfe, 0xed, 0xfa, 0xce)
        || starts_with4(bytes, 0xfe, 0xed, 0xfa, 0xcf) || starts_with4(
        bytes,
        0xce,
        0xfa,
        0xed,
        0xfe,
    ) || starts_with4(bytes, 0xcf, 0xfa, 0xed, 0xfe) || starts_with4(bytes, 0xca, 0xfe, 0xba, 0xbe)
        || (bytes.len() >= 2 && bytes[0] == 0x4d && bytes[1] == 0x5a) || (bytes.len() >= 2
        && bytes[0] == 0x23 && bytes[1] == 0x21)
}

fn begins_with4(bytes: &[u8], a: u8, b: u8, c: u8, d: u8) -> (res: bool)
    ensures
        res == starts_with4(bytes@, a, b, c, d),
{
    bytes.len() >= 4 && bytes[0] == a && bytes[1] == b && bytes[2] == c && bytes[3] == d
}

/// Whether a file that holds `contents` begins as an executable does.
pub fn looks_executable(contents: &[u8]) -> (res: bool)
    ensures
        res == has_executable_signature(contents@),
{
    begins_with4(contents, 0x7f, 0x45, 0x4c, 0x46) || begins_with4(contents, 0xfe, 0xed, 0xfa, 0xce)
        || begins_with4(contents, 0xfe, 0xed, 0xfa, 0xcf) || begins_with4(
        contents,
        0xce,
        0xfa,
        0xed,
        0xfe,
    ) || begins_with4(contents, 0xcf, 0xfa, 0xed, 0xfe) || begins_with4(
        contents,
        0xca,
        0xfe,
        0xba,
        0xbe,
    ) || (contents.len() >= 2 && contents[0] == 0x4d && contents[1] == 0x5a) || (contents.len() >= 2
        && contents[0] == 0x23 && contents[1] == 0x21)
}

/// Whether a file counts as an executable of the host: its bytes begin as
/// an executable does, or the host marks it as one.
pub open spec fn is_host_executable(contents: Seq<u8>, marked: bool) -> bool {
    has_executable_signature(contents) || marked
}

/// Whether a file that holds `contents` counts as an executable of the
/// host; `marked` says whether the host marks it as one.
pub fn counts_as_executable(contents: &[u8], marked: bool) -> (res: bool)
    ensures
        res == is_host_executable(contents@, marked),
{
    marked || looks_executable(contents)
}

fn ends_in(l: &Vec<char>, extension: &str) -> (res: bool)
    ensures
        res == ends_with(l@, extension@),
{
    let ext = chars_of(extension);
    has_suffix(l, &ext)
}

/// Whether `name` ends in an extension.
pub fn ends_in_extension(name: &Vec<char>) -> (res: bool)
    ensures
        res == has_extension(name@),
{
    let n: usize = name.len();
    let mut j: usize = n;
    while j > 0 && char_is_alnum(name[j - 1])
        invariant
            j <= n,
            n == name@.len(),
            forall|m: int| j <= m < n ==> is_alnum(#[trigger] name@[m]),
        decreases j,
    {
        j -= 1;
    }
    let found = j > 0 && j < n && name[j - 1] == '.' && char_is_letter(name[j]);
    proof {
        if found {
            assert(extension_at(name@, j - 1));
        } else {
            assert forall|k: int| !extension_at(name@, k) by {
                if extension_at(name@, k) {
                    assert(!is_alnum(name@[k]));
                    if j > 0 && k < j - 1 {
                        assert(is_alnum(name@[j - 1]));
                    }
                }
            }
        }
    }
    found
}

/// The format of a file called `declared_name`; see [`format_of`].
pub fn classify_name(declared_name: &str, executable: bool) -> (res: FormatTag)
    ensures
        res == format_of(declared_name@, executable),
{
    let l = lowered(&chars_of(declared_name));
    if ends_in(&l, ".tar.gz") || ends_in(&l, ".tgz") || ends_in(&l, ".gz") {
        FormatTag::Gzip
    } else if ends_in(&l, ".tar.xz") || ends_in(&l, ".txz") || ends_in(&l, ".xz") {
        FormatTag::Xz
    } else if ends_in(&l, ".tar.bz2") || ends_in(&l, ".tbz") || ends_in(&l, ".bz2") {
        FormatTag::Bzip2
    } else if ends_in(&l, ".deb") {
        FormatTag::DebianPackage
    } else if ends_in(&l, ".zip") {
        FormatTag::Zip
    } else if executable && !ends_in_extension(&l) {
        FormatTag::RawExecutable
    } else {
        FormatTag::Unsupported
    }
}

/// The file at `path`, classified by the name `declared_name` under which it
/// was published. `path` is carried through unchanged.
pub fn classify(path: &str, declared_name: &str, executable: bool) -> (res: ClassifiedFile)
    ensures
        res.path@ == path@,
        res.format == format_of(declared_name@, executable),
{
    ClassifiedFile { path: String::from_str(path), format: classify_name(declared_name, executable) }
}

proof fn lemma_suffix_chars(l: Seq<char>, ext: Seq<char>, k: int)
    requires
        ends_with(l, ext),
        0 <= k < ext.len(),
    ensures
        l[l.len() - ext.len() + k] == ext[k],
{
    assert(l.subrange(l.len() - ext.len(), l.len() as int)[k] == ext[k]);
}

/// The extension table: a name that ends in `.gz`, `.xz`, `.bz2`, `.zip` or
/// `.deb`, in whatever case, has the format of that extension, whether or
/// not the file is executable.
pub proof fn lemma_canonical_extensions(name: Seq<char>, executable: bool)
    ensures
        ends_with(lower_text(name), ".gz"@) ==> format_of(name, executable) == FormatTag::Gzip,
        ends_with(lower_text(name), ".xz"@) ==> format_of(name, executable) == FormatTag::Xz,
        ends_with(lower_text(name), ".bz2"@) ==> format_of(name, executable) == FormatTag::Bzip2,
        ends_with(lower_text(name), ".zip"@) ==> format_of(name, executable) == FormatTag::Zip,
        ends_with(lower_text(name), ".deb"@) ==> format_of(name, executable)
            == FormatTag::DebianPackage,
{
    let l = lower_text(name);
    reveal_strlit(".tar.gz");
    reveal_strlit(".tgz");
    reveal_strlit(".gz");
    reveal_strlit(".tar.xz");
    reveal_strlit(".txz");
    reveal_strlit(".xz");
    reveal_strlit(".tar.bz2");
    reveal_strlit(".tbz");
    reveal_strlit(".bz2");
    reveal_strlit(".deb");
    reveal_strlit(".zip");
    let n = l.len() as int;
    // The last two characters of a name tell the groups apart.
    if is_gzip_name(l) {
        if ends_with(l, ".tar.gz"@) {
            lemma_suffix_chars(l, ".tar.gz"@, 5);
            lemma_suffix_chars(l, ".tar.gz"@, 6);
        } else if ends_with(l, ".tgz"@) {
            lemma_suffix_chars(l, ".tgz"@, 2);
            lemma_suffix_chars(l, ".tgz"@, 3);
        } else {
            lemma_suffix_chars(l, ".gz"@, 1);
            lemma_suffix_chars(l, ".gz"@, 2);
        }
        assert(l[n - 2] == 'g' && l[n - 1] == 'z');
    }
    if is_xz_name(l) {
        if ends_with(l, ".tar.xz"@) {
            lemma_suffix_chars(l, ".tar.xz"@, 5);
            lemma_suffix_chars(l, ".tar.xz"@, 6);
        } else if ends_with(l, ".txz"@) {
            lemma_suffix_chars(l, ".txz"@, 2);
            lemma_suffix_chars(l, ".txz"@, 3);
        } else {
            lemma_suffix_chars(l, ".xz"@, 1);
            lemma_suffix_chars(l, ".xz"@, 2);
        }
        assert(l[n - 2] == 'x' && l[n - 1] == 'z');
    }
    if is_bzip2_name(l) {
        if ends_with(l, ".tar.bz2"@) {
            lemma_suffix_chars(l, ".tar.bz2"@, 7);
        } else if ends_with(l, ".tbz"@) {
            lemma_suffix_chars(l, ".tbz"@, 3);
        } else {
            lemma_suffix_chars(l, ".bz2"@, 3);
        }
        assert(l[n - 1] == '2' || l[n - 1] == 'z');
        if ends_with(l, ".tbz"@) {
            lemma_suffix_chars(l, ".tbz"@, 2);
            assert(l[n - 2] == 'b');
        }
    }
    if ends_with(l, ".deb"@) {
        lemma_suffix_chars(l, ".deb"@, 3);
        assert(l[n - 1] == 'b');
    }
    if ends_with(l, ".zip"@) {
        lemma_suffix_chars(l, ".zip"@, 3);
        assert(l[n - 1] == 'p');
    }
}

/// A name with an extension outside the table is unsupported, whether or
/// not the file is executable.
pub proof fn lemma_unknown_extension_unsupported(name: Seq<char>, executable: bool)
    requires
        has_extension(lower_text(name)),
        !is_gzip_name(lower_text(name)),
        !is_xz_name(lower_text(name)),
        !is_bzip2_name(lower_text(name)),
        !ends_with(lower_text(name), ".deb"@),
        !ends_with(lower_text(name), ".zip"@),
    ensures
        format_of(name, executable) == FormatTag::Unsupported,
{
}

} // verus!
