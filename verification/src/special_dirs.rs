//! Recognising the user folders (desktop, downloads, documents, ...) in
//! which the program keeps quiet: it opens no console there and writes no
//! configuration file there.

use vstd::prelude::*;

verus! {

/// What `str::to_lowercase` makes of a string.
pub uninterp spec fn lowercase_of(s: Seq<char>) -> Seq<char>;

/// Calls `str::to_lowercase`. Its result is claimed to depend on the
/// string's characters alone, and is named `lowercase_of`; what that
/// mapping is (the Unicode lowercase tables) is not stated here.
#[verifier::external_body]
fn to_lowercase(s: &str) -> (lower: String)
    ensures
        lower@ == lowercase_of(s@),
{
    s.to_lowercase()
}

/// The folder names, written in lower case, that mark a special location.
pub open spec fn special_folders() -> Seq<Seq<char>> {
    seq![
        "\\desktop"@,
        "\\downloads"@,
        "\\documents"@,
        "\\pictures"@,
        "\\videos"@,
        "\\music"@,
        "\\загрузки"@,
        "\\рабочий стол"@,
        "\\документы"@,
    ]
}

/// Whether `needle` occurs in `hay` as a run of consecutive characters.
pub open spec fn occurs_in(needle: Seq<char>, hay: Seq<char>) -> bool {
    exists|i: int|
        0 <= i && i + needle.len() <= hay.len() && #[trigger] hay.subrange(i, i + needle.len())
            == needle
}

/// Whether an already lower-cased path names a special location: one of
/// the special folder names occurs in it.
pub open spec fn names_special_folder(lower: Seq<char>) -> bool {
    exists|k: int| 0 <= k < special_folders().len() && occurs_in(#[trigger] special_folders()[k], lower)
}

/// A lower-cased path is special exactly when one of the nine folder
/// names `\\desktop`, `\\downloads`, `\\documents`, `\\pictures`,
/// `\\videos`, `\\music`, `\\загрузки`, `\\рабочий стол`, `\\документы`
/// occurs in it; a path holding none of them is not special.
pub proof fn lemma_special_folders_are_the_nine(lower: Seq<char>)
    ensures
        names_special_folder(lower) <==> {
            ||| occurs_in("\\desktop"@, lower)
            ||| occurs_in("\\downloads"@, lower)
            ||| occurs_in("\\documents"@, lower)
            ||| occurs_in("\\pictures"@, lower)
            ||| occurs_in("\\videos"@, lower)
            ||| occurs_in("\\music"@, lower)
            ||| occurs_in("\\загрузки"@, lower)
            ||| occurs_in("\\рабочий стол"@, lower)
            ||| occurs_in("\\документы"@, lower)
        },
{
    let f = special_folders();
    assert(f.len() == 9);
    assert(f[0] == "\\desktop"@);
    assert(f[1] == "\\downloads"@);
    assert(f[2] == "\\documents"@);
    assert(f[3] == "\\pictures"@);
    assert(f[4] == "\\videos"@);
    assert(f[5] == "\\music"@);
    assert(f[6] == "\\загрузки"@);
    assert(f[7] == "\\рабочий стол"@);
    assert(f[8] == "\\документы"@);
}

/// The characters of a string, one by one.
fn chars_of(s: &str) -> (cs: Vec<char>)
    ensures
        cs@ == s@,
{
    let mut cs: Vec<char> = Vec::new();
    for c in it: s.chars()
        invariant
            it.seq() == s@,
            cs@ == it.seq().take(it.index() as int),
    {
        cs.push(c);
        assert(cs@ =~= it.seq().take(it.index() + 1));
    }
    assert(cs@ =~= s@);
    cs
}

/// Whether `needle` stands in `hay` starting at position `at`.
fn matches_at(hay: &Vec<char>, needle: &Vec<char>, at: usize) -> (m: bool)
    requires
        at + needle@.len() <= hay@.len(),
    ensures
        m == (hay@.subrange(at as int, at + needle@.len()) == needle@),
{
    let hay_len = hay.len();
    let mut j: usize = 0;
    while j < needle.len()
        invariant
            hay_len == hay@.len(),
            at + needle@.len() <= hay@.len(),
            j <= needle@.len(),
            forall|m: int| 0 <= m < j ==> hay@[at + m] == needle@[m],
        decreases needle@.len() - j,
    {
        if hay[at + j] != needle[j] {
            assert(hay@.subrange(at as int, at + needle@.len())[j as int] != needle@[j as int]);
            return false;
        }
        j = j + 1;
    }
    assert(hay@.subrange(at as int, at + needle@.len()) =~= needle@);
    true
}

/// Whether `needle` occurs in `hay` as a run of consecutive characters.
pub fn contains_run(hay: &Vec<char>, needle: &Vec<char>) -> (found: bool)
    ensures
        found == occurs_in(needle@, hay@),
{
    if needle.len() == 0 {
        assert(hay@.subrange(0int, 0int + needle@.len()) =~= needle@);
        return true;
    }
    if needle.len() > hay.len() {
        return false;
    }
    let hay_len = hay.len();
    let last = hay_len - needle.len();
    let mut i: usize = 0;
    while i <= last
        invariant
            needle@.len() > 0,
            hay_len == hay@.len(),
            last + needle@.len() == hay@.len(),
            forall|p: int| 0 <= p < i ==> #[trigger] hay@.subrange(p, p + needle@.len()) != needle@,
        decreases hay@.len() - i,
    {
        if matches_at(hay, needle, i) {
            return true;
        }
        i = i + 1;
    }
    assert forall|p: int| 0 <= p && p + needle@.len() <= hay@.len() implies #[trigger] hay@.subrange(
        p,
        p + needle@.len(),
    ) != needle@ by {
        assert(p < i);
    }
    false
}

/// Whether an already lower-cased path names a special location.
pub fn names_special(lower: &str) -> (special: bool)
    ensures
        special == names_special_folder(lower@),
{
    let hay = chars_of(lower);
    let folders: Vec<&str> = vec![
        "\\desktop",
        "\\downloads",
        "\\documents",
        "\\pictures",
        "\\videos",
        "\\music",
        "\\загрузки",
        "\\рабочий стол",
        "\\документы",
    ];
    assert(folders@.len() == special_folders().len());
    assert(forall|k: int| 0 <= k < folders@.len() ==> #[trigger] folders@[k]@ == special_folders()[k]);
    let mut k: usize = 0;
    while k < folders.len()
        invariant
            folders@.len() == special_folders().len(),
            forall|m: int| 0 <= m < folders@.len() ==> #[trigger] folders@[m]@ == special_folders()[m],
            hay@ == lower@,
            forall|m: int| 0 <= m < k ==> !occurs_in(#[trigger] special_folders()[m], lower@),
        decreases folders@.len() - k,
    {
        let needle = chars_of(folders[k]);
        if contains_run(&hay, &needle) {
            assert(occurs_in(special_folders()[k as int], lower@));
            return true;
        }
        k = k + 1;
    }
    false
}

/// Whether the folder the program runs from is a special location: its
/// path, lower-cased, contains one of the special folder names.
pub fn is_special_dir(dir: &str) -> (special: bool)
    ensures
        special == names_special_folder(lowercase_of(dir@)),
{
    let lower = to_lowercase(dir);
    names_special(lower.as_str())
}

} // verus!
