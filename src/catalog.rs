//! The rack's canonical list of plugin names, built from the names of the
//! plugin bundles found on disk.
use vstd::prelude::*;

verus! {

use crate::names::{effect_only_folded, is_effect_only_folded, lower_of, str_lowercase};
use crate::order::{lemma_lex_irreflexive, lemma_lex_total, lemma_lex_transitive, lex_lt, str_lt};
use crate::rack::names_view;

/// A plugin that is an instrument rather than an effect.
pub open spec fn is_instrument(name: Seq<char>) -> bool {
    !effect_only_folded(lower_of(name))
}

/// Position `j` holds an instrument whose lower-cased name no earlier
/// instrument has.
pub open spec fn first_of_its_kind(names: Seq<Seq<char>>, j: int) -> bool {
    &&& 0 <= j < names.len()
    &&& is_instrument(names[j])
    &&& forall|k: int|
        0 <= k < j && is_instrument(names[k]) ==> lower_of(names[k]) != lower_of(names[j])
}

/// `s` is one of the first `t` names, and the first instrument of its kind.
pub open spec fn kept_from(names: Seq<Seq<char>>, s: Seq<char>, t: int) -> bool {
    exists|j: int| 0 <= j < t && first_of_its_kind(names, j) && names[j] == s
}

/// Some name of `names` lower-cases to `k`.
pub open spec fn has_folded(names: Seq<Seq<char>>, k: Seq<char>) -> bool {
    exists|i: int| 0 <= i < names.len() && lower_of(names[i]) == k
}

/// The names are in strictly ascending order of their lower-cased forms.
pub open spec fn strictly_sorted_folded(names: Seq<Seq<char>>) -> bool {
    forall|i: int, j: int|
        0 <= i < j < names.len() ==> lex_lt(lower_of(names[i]), lower_of(names[j]))
}

/// The rack's list from the names of the bundles found: the instruments
/// only, in ascending order of their lower-cased names, and of names that
/// differ only in case the first found.
pub fn rack_names(found: &Vec<String>) -> (r: Vec<String>)
    ensures
        strictly_sorted_folded(names_view(r@)),
        forall|i: int|
            0 <= i < r@.len() ==> kept_from(names_view(found@), #[trigger] r@[i]@, found@.len() as int),
        forall|j: int|
            0 <= j < found@.len() && is_instrument(#[trigger] found@[j]@) ==> has_folded(
                names_view(r@),
                lower_of(found@[j]@),
            ),
{
    let ghost sv = names_view(found@);
    let mut out: Vec<String> = Vec::new();
    let mut keys: Vec<String> = Vec::new();
    let mut t: usize = 0;
    while t < found.len()
        invariant
            t <= found@.len(),
            sv == names_view(found@),
            out@.len() == keys@.len(),
            forall|i: int| 0 <= i < keys@.len() ==> #[trigger] keys@[i]@ == lower_of(out@[i]@),
            forall|i: int, j: int|
                0 <= i < j < keys@.len() ==> lex_lt(#[trigger] keys@[i]@, #[trigger] keys@[j]@),
            forall|i: int| 0 <= i < out@.len() ==> kept_from(sv, #[trigger] out@[i]@, t as int),
            forall|j: int|
                0 <= j < t && is_instrument(#[trigger] sv[j]) ==> has_folded(
                    names_view(out@),
                    lower_of(sv[j]),
                ),
        decreases found@.len() - t,
    {
        let key = str_lowercase(found[t].as_str());
        let ghost old_out = out@;
        let ghost old_keys = keys@;
        assert(sv[t as int] == found@[t as int]@);
        proof {
            assert forall|i: int| 0 <= i < out@.len() implies kept_from(
                sv,
                #[trigger] out@[i]@,
                t + 1,
            ) by {
                let j = choose|j: int|
                    0 <= j < t && first_of_its_kind(sv, j) && sv[j] == out@[i]@;
                assert(0 <= j < t + 1 && first_of_its_kind(sv, j) && sv[j] == out@[i]@);
            }
        }
        if !is_effect_only_folded(key.as_str()) {
            let mut p: usize = 0;
            while p < keys.len() && str_lt(keys[p].as_str(), key.as_str())
                invariant
                    p <= keys@.len(),
                    keys@ == old_keys,
                    forall|i: int| 0 <= i < p ==> lex_lt(#[trigger] keys@[i]@, key@),
                decreases keys@.len() - p,
            {
                p += 1;
            }
            let dup = p < keys.len() && keys[p] == key;
            if dup {
                proof {
                    assert(names_view(out@)[p as int] == out@[p as int]@);
                    assert forall|j: int|
                        0 <= j < t + 1 && is_instrument(#[trigger] sv[j]) implies has_folded(
                        names_view(out@),
                        lower_of(sv[j]),
                    ) by {
                        if j == t {
                            assert(lower_of(names_view(out@)[p as int]) == lower_of(sv[j]));
                        }
                    }
                }
            } else {
                proof {
                    // every key at or after `p` comes after the new key
                    assert forall|i: int| p <= i < keys@.len() implies lex_lt(
                        key@,
                        #[trigger] keys@[i]@,
                    ) by {
                        lemma_lex_total(keys@[p as int]@, key@);
                        if i > p {
                            lemma_lex_transitive(key@, keys@[p as int]@, keys@[i]@);
                        }
                    }
                    // so the new key is not among them
                    assert forall|i: int| 0 <= i < keys@.len() implies #[trigger] keys@[i]@
                        != key@ by {
                        if keys@[i]@ == key@ {
                            lemma_lex_irreflexive(key@);
                        }
                    }
                    // and position `t` is the first instrument of its kind
                    assert forall|k: int|
                        0 <= k < t && is_instrument(sv[k]) implies lower_of(sv[k]) != lower_of(
                        sv[t as int],
                    ) by {
                        let i = choose|i: int|
                            0 <= i < names_view(out@).len() && lower_of(names_view(out@)[i])
                                == lower_of(sv[k]);
                        assert(keys@[i]@ == lower_of(out@[i]@));
                    }
                    assert(first_of_its_kind(sv, t as int));
                }
                let name = found[t].clone();
                out.insert(p, name);
                keys.insert(p, key);
                proof {
                    old_out.insert_ensures(p as int, found@[t as int]);
                    old_keys.insert_ensures(p as int, keys@[p as int]);
                    assert forall|i: int| 0 <= i < keys@.len() implies #[trigger] keys@[i]@
                        == lower_of(out@[i]@) by {
                        if i > p {
                            assert(keys@[i] == old_keys[i - 1]);
                            assert(out@[i] == old_out[i - 1]);
                        }
                    }
                    assert forall|a: int, b: int| 0 <= a < b < keys@.len() implies lex_lt(
                        #[trigger] keys@[a]@,
                        #[trigger] keys@[b]@,
                    ) by {
                        if b < p {
                        } else if b == p {
                        } else if a < p {
                            assert(keys@[b] == old_keys[b - 1]);
                            lemma_lex_transitive(keys@[a]@, key@, keys@[b]@);
                        } else if a == p {
                            assert(keys@[b] == old_keys[b - 1]);
                        } else {
                            assert(keys@[a] == old_keys[a - 1]);
                            assert(keys@[b] == old_keys[b - 1]);
                        }
                    }
                    assert forall|i: int| 0 <= i < out@.len() implies kept_from(
                        sv,
                        #[trigger] out@[i]@,
                        t + 1,
                    ) by {
                        if i < p {
                            assert(out@[i] == old_out[i]);
                            assert(kept_from(sv, old_out[i]@, t + 1));
                        } else if i == p {
                            assert(sv[t as int] == out@[i]@);
                        } else {
                            assert(out@[i] == old_out[i - 1]);
                            assert(kept_from(sv, old_out[i - 1]@, t + 1));
                        }
                    }
                    assert forall|j: int|
                        0 <= j < t + 1 && is_instrument(#[trigger] sv[j]) implies has_folded(
                        names_view(out@),
                        lower_of(sv[j]),
                    ) by {
                        if j == t {
                            assert(names_view(out@)[p as int] == out@[p as int]@);
                        } else {
                            assert(has_folded(names_view(old_out), lower_of(sv[j])));
                            let i = choose|i: int|
                                0 <= i < names_view(old_out).len() && lower_of(
                                    names_view(old_out)[i],
                                ) == lower_of(sv[j]);
                            if i < p {
                                assert(names_view(out@)[i] == old_out[i]@);
                            } else {
                                assert(names_view(out@)[i + 1] == old_out[i]@);
                            }
                        }
                    }
                }
            }
        } else {
            proof {
                assert forall|j: int|
                    0 <= j < t + 1 && is_instrument(#[trigger] sv[j]) implies has_folded(
                    names_view(out@),
                    lower_of(sv[j]),
                ) by {}
            }
        }
        t += 1;
    }
    proof {
        assert forall|i: int, j: int| 0 <= i < j < names_view(out@).len() implies lex_lt(
            lower_of(names_view(out@)[i]),
            lower_of(names_view(out@)[j]),
        ) by {
            assert(keys@[i]@ == lower_of(out@[i]@));
            assert(keys@[j]@ == lower_of(out@[j]@));
        }
        assert forall|j: int|
            0 <= j < found@.len() && is_instrument(#[trigger] found@[j]@) implies has_folded(
            names_view(out@),
            lower_of(found@[j]@),
        ) by {
            assert(sv[j] == found@[j]@);
        }
    }
    out
}

} // verus!
