//! Case-insensitive name matching: plugin hints, recommended MIDI outputs,
//! and the plugins that are effects rather than instruments.
use vstd::prelude::*;

verus! {

/// `needle` occurs in `hay` starting at position `i`.
pub open spec fn occurs_at(hay: Seq<char>, needle: Seq<char>, i: int) -> bool {
    0 <= i && i + needle.len() <= hay.len() && hay.subrange(i, i + needle.len()) == needle
}

/// `needle` occurs somewhere in `hay`.
pub open spec fn contains(hay: Seq<char>, needle: Seq<char>) -> bool {
    exists|i: int| occurs_at(hay, needle, i)
}

/// `hay` ends with `suffix`.
pub open spec fn ends_with(hay: Seq<char>, suffix: Seq<char>) -> bool {
    occurs_at(hay, suffix, hay.len() - suffix.len())
}

/// What `str::to_lowercase` returns for a string.
pub uninterp spec fn lower_of(s: Seq<char>) -> Seq<char>;

/// Relies on str::to_lowercase: the Unicode lower-case form of `s`, which
/// depends on the characters of `s` alone.
#[verifier::external_body]
pub(crate) fn str_lowercase(s: &str) -> (r: String)
    ensures
        r@ == lower_of(s@),
{
    s.to_lowercase()
}

/// Whether `needle` occurs in `hay` at position `i`.
fn occurs_at_exec(hay: &str, needle: &str, i: usize) -> (r: bool)
    requires
        i + needle@.len() <= hay@.len(),
    ensures
        r == occurs_at(hay@, needle@, i as int),
{
    let h = hay.unicode_len();
    let n = needle.unicode_len();
    let mut j: usize = 0;
    while j < n
        invariant
            j <= n,
            n == needle@.len(),
            h == hay@.len(),
            i + n <= hay@.len(),
            forall|k: int| 0 <= k < j ==> hay@[i + k] == needle@[k],
        decreases n - j,
    {
        if hay.get_char(i + j) != needle.get_char(j) {
            assert(hay@.subrange(i as int, i + n)[j as int] != needle@[j as int]);
            return false;
        }
        j += 1;
    }
    assert(hay@.subrange(i as int, i + n) =~= needle@);
    true
}

/// Whether `needle` occurs anywhere in `hay`.
pub fn str_contains(hay: &str, needle: &str) -> (r: bool)
    ensures
        r == contains(hay@, needle@),
{
    let h = hay.unicode_len();
    let n = needle.unicode_len();
    if n > h {
        return false;
    }
    let last = h - n;
    let mut i: usize = 0;
    while i <= last
        invariant
            h == hay@.len(),
            n == needle@.len(),
            last == h - n,
            i <= last + 1,
            forall|k: int| 0 <= k < i ==> !occurs_at(hay@, needle@, k),
        decreases last + 1 - i,
    {
        if occurs_at_exec(hay, needle, i) {
            return true;
        }
        if i == last {
            assert(forall|k: int| 0 <= k <= last ==> !occurs_at(hay@, needle@, k));
            return false;
        }
        i += 1;
    }
    false
}

/// Whether `hay` ends with `suffix`.
pub fn str_ends_with(hay: &str, suffix: &str) -> (r: bool)
    ensures
        r == ends_with(hay@, suffix@),
{
    let h = hay.unicode_len();
    let n = suffix.unicode_len();
    if n > h {
        return false;
    }
    occurs_at_exec(hay, suffix, h - n)
}

/// A lower-cased port name that names a loopback bus, the synth itself, a
/// common host application, or MIDI in general.
pub open spec fn recommended_folded(l: Seq<char>) -> bool {
    contains(l, "iac"@) || contains(l, "surge"@) || contains(l, "logic"@) || contains(
        l,
        "ableton"@,
    ) || contains(l, "reaper"@) || contains(l, "midi"@)
}

/// Classifies a port name that is already lower case.
pub fn is_recommended_folded(lower: &str) -> (r: bool)
    ensures
        r == recommended_folded(lower@),
{
    str_contains(lower, "iac") || str_contains(lower, "surge") || str_contains(lower, "logic")
        || str_contains(lower, "ableton") || str_contains(lower, "reaper") || str_contains(
        lower,
        "midi",
    )
}

/// Whether an output port is one that the synth is likely to be played
/// through: the keywords are matched without regard to case.
pub fn is_recommended_output(name: &str) -> (r: bool)
    ensures
        r == recommended_folded(lower_of(name@)),
{
    let lower = str_lowercase(name);
    is_recommended_folded(lower.as_str())
}

/// A lower-cased plugin name that names an effect, a utility or an analyzer
/// rather than an instrument.
pub open spec fn effect_only_folded(l: Seq<char>) -> bool {
    contains(l, "effect"@) || ends_with(l, " fx"@) || contains(l, "utility"@) || contains(
        l,
        "analyzer"@,
    )
}

/// Classifies a plugin name that is already lower case.
pub fn is_effect_only_folded(lower: &str) -> (r: bool)
    ensures
        r == effect_only_folded(lower@),
{
    str_contains(lower, "effect") || str_ends_with(lower, " fx") || str_contains(lower, "utility")
        || str_contains(lower, "analyzer")
}

/// Whether a plugin is an effect rather than an instrument, without regard
/// to case.
pub fn is_effect_only(name: &str) -> (r: bool)
    ensures
        r == effect_only_folded(lower_of(name@)),
{
    let lower = str_lowercase(name);
    is_effect_only_folded(lower.as_str())
}

/// `name` matches `hint` when the hint occurs in it, case folded.
pub open spec fn hint_matches(name: Seq<char>, hint: Seq<char>) -> bool {
    contains(lower_of(name), lower_of(hint))
}

/// `i` is the first position of `names` whose entry contains `needle`.
pub open spec fn is_first_containing(names: Seq<Seq<char>>, needle: Seq<char>, i: int) -> bool {
    &&& 0 <= i < names.len()
    &&& contains(names[i], needle)
    &&& forall|j: int| 0 <= j < i ==> !contains(names[j], needle)
}

/// The first position of `folded` whose entry contains `folded_hint`; the
/// arguments are the lower-cased names and hint.
pub fn first_containing(folded: &Vec<String>, folded_hint: &str) -> (r: Option<usize>)
    ensures
        match r {
            Some(i) => is_first_containing(
                folded@.map_values(|s: String| s@),
                folded_hint@,
                i as int,
            ),
            None => forall|j: int|
                0 <= j < folded@.len() ==> !contains(#[trigger] folded@[j]@, folded_hint@),
        },
{
    let mut i: usize = 0;
    while i < folded.len()
        invariant
            i <= folded@.len(),
            forall|j: int| 0 <= j < i ==> !contains(#[trigger] folded@[j]@, folded_hint@),
        decreases folded@.len() - i,
    {
        if str_contains(folded[i].as_str(), folded_hint) {
            return Some(i);
        }
        i += 1;
    }
    None
}

/// The lower-cased form of each name.
pub fn lowercase_all(names: &Vec<String>) -> (r: Vec<String>)
    ensures
        r@.len() == names@.len(),
        forall|j: int| 0 <= j < names@.len() ==> #[trigger] r@[j]@ == lower_of(names@[j]@),
{
    let mut r: Vec<String> = Vec::new();
    let mut i: usize = 0;
    while i < names.len()
        invariant
            i <= names@.len(),
            r@.len() == i,
            forall|j: int| 0 <= j < i ==> #[trigger] r@[j]@ == lower_of(names@[j]@),
        decreases names@.len() - i,
    {
        r.push(str_lowercase(names[i].as_str()));
        i += 1;
    }
    r
}

} // verus!
