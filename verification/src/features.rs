//! Feature and variable introspection over a snapshot of the build
//! environment: the subset of variables carrying the build system's prefix,
//! the further subset matching the feature-flag convention, and membership
//! queries by flag name. Only set membership is promised; no ordering.

use vstd::prelude::*;
use vstd::string::StrSliceExecFns;

verus! {

/// The build system's variable prefix.
pub open spec fn var_prefix() -> Seq<char> {
    "CARGO_"@
}

/// The feature-flag sub-convention's prefix.
pub open spec fn feature_prefix() -> Seq<char> {
    "CARGO_FEATURE_"@
}

pub open spec fn has_prefix(s: Seq<char>, p: Seq<char>) -> bool {
    p.len() <= s.len() && s.subrange(0, p.len() as int) == p
}

/// How the convention normalizes one character of a flag name: hyphens
/// become underscores and ASCII lowercase letters become uppercase.
pub open spec fn normalize_char(c: char) -> char {
    if c == '-' {
        '_'
    } else if 'a' <= c && c <= 'z' {
        ((c as u8) - 32) as char
    } else {
        c
    }
}

/// The variable name the convention assigns to a flag name.
pub open spec fn spec_feature_key(name: Seq<char>) -> Seq<char> {
    feature_prefix() + name.map_values(|c: char| normalize_char(c))
}

/// Character-for-character prefix test.
pub fn str_has_prefix(s: &str, p: &str) -> (r: bool)
    ensures
        r == has_prefix(s@, p@),
{
    let np = p.unicode_len();
    let ns = s.unicode_len();
    if np > ns {
        return false;
    }
    let mut i: usize = 0;
    while i < np
        invariant
            0 <= i <= np,
            np == p@.len(),
            np <= ns == s@.len(),
            forall|j: int| 0 <= j < i ==> s@[j] == p@[j],
        decreases np - i,
    {
        if s.get_char(i) != p.get_char(i) {
            proof {
                assert(s@.subrange(0, np as int)[i as int] == s@[i as int]);
            }
            return false;
        }
        i = i + 1;
    }
    proof {
        assert(s@.subrange(0, np as int) =~= p@);
    }
    true
}

fn normalize_char_exec(c: char) -> (r: char)
    ensures
        r == normalize_char(c),
{
    if c == '-' {
        '_'
    } else if 'a' <= c && c <= 'z' {
        ((c as u8) - 32) as char
    } else {
        c
    }
}

/// Whether `key` is exactly the variable name the convention assigns to the
/// flag `name`.
fn is_feature_key_for(key: &str, name: &str) -> (r: bool)
    ensures
        r == (key@ == spec_feature_key(name@)),
{
    proof {
        reveal_strlit("CARGO_FEATURE_");
    }
    let nk = key.unicode_len();
    let nn = name.unicode_len();
    if nk < 14 || nk - 14 != nn {
        proof {
            assert(spec_feature_key(name@).len() == 14 + nn);
        }
        return false;
    }
    if !str_has_prefix(key, "CARGO_FEATURE_") {
        proof {
            assert(spec_feature_key(name@).subrange(0, 14) =~= feature_prefix());
        }
        return false;
    }
    let mut i: usize = 0;
    while i < nn
        invariant
            0 <= i <= nn,
            nn == name@.len(),
            nk == key@.len(),
            nk == 14 + nn,
            has_prefix(key@, feature_prefix()),
            feature_prefix().len() == 14,
            forall|j: int| 0 <= j < i ==> key@[14 + j] == normalize_char(name@[j]),
        decreases nn - i,
    {
        let c = normalize_char_exec(name.get_char(i));
        if key.get_char(14 + i) != c {
            proof {
                assert(spec_feature_key(name@)[14 + i as int] == normalize_char(
                    name@[i as int],
                ));
            }
            return false;
        }
        i = i + 1;
    }
    proof {
        assert forall|j: int| 0 <= j < 14 implies key@[j] == feature_prefix()[j] by {
            assert(key@.subrange(0, 14)[j] == key@[j]);
        }
        assert(key@ =~= spec_feature_key(name@));
    }
    true
}

/// The variables of one environment snapshot that carry the build system's
/// prefix, as an unordered collection of (name, value) pairs.
pub struct Vars {
    entries: Vec<(String, String)>,
}

impl View for Vars {
    type V = Seq<(Seq<char>, Seq<char>)>;

    closed spec fn view(&self) -> Seq<(Seq<char>, Seq<char>)> {
        self.entries.deep_view()
    }
}

impl Vars {
    /// Builds the introspection view from a snapshot of (name, value)
    /// pairs, keeping exactly those whose name carries the variable prefix.
    pub fn from_pairs(pairs: &Vec<(String, String)>) -> (r: Vars)
        ensures
            forall|i: int| 0 <= i < r@.len() ==> has_prefix((#[trigger] r@[i]).0, var_prefix())
                && pairs.deep_view().contains(r@[i]),
            forall|i: int|
                0 <= i < pairs.deep_view().len() && has_prefix(
                    (#[trigger] pairs.deep_view()[i]).0,
                    var_prefix(),
                ) ==> r@.contains(pairs.deep_view()[i]),
    {
        let n = pairs.len();
        let mut entries: Vec<(String, String)> = Vec::new();
        let mut i: usize = 0;
        while i < n
            invariant
                0 <= i <= n,
                n == pairs@.len(),
                forall|j: int| 0 <= j < entries.deep_view().len() ==> has_prefix(
                    (#[trigger] entries.deep_view()[j]).0,
                    var_prefix(),
                ) && pairs.deep_view().contains(entries.deep_view()[j]),
                forall|j: int|
                    0 <= j < i && has_prefix(
                        (#[trigger] pairs.deep_view()[j]).0,
                        var_prefix(),
                    ) ==> entries.deep_view().contains(pairs.deep_view()[j]),
            decreases n - i,
        {
            let ghost prev = entries.deep_view();
            let keep = str_has_prefix(pairs[i].0.as_str(), "CARGO_");
            if keep {
                let k = pairs[i].0.clone();
                let v = pairs[i].1.clone();
                entries.push((k, v));
                proof {
                    assert(entries.deep_view() =~= prev.push(pairs.deep_view()[i as int]));
                    assert forall|j: int|
                        0 <= j < i + 1 && has_prefix(
                            (#[trigger] pairs.deep_view()[j]).0,
                            var_prefix(),
                        ) implies entries.deep_view().contains(pairs.deep_view()[j]) by {
                        if j < i {
                            let w = choose|w: int|
                                0 <= w < prev.len() && prev[w] == pairs.deep_view()[j];
                            assert(entries.deep_view()[w] == pairs.deep_view()[j]);
                        } else {
                            assert(entries.deep_view()[prev.len() as int]
                                == pairs.deep_view()[i as int]);
                        }
                    }
                }
            }
            i = i + 1;
        }
        Vars { entries }
    }

    /// Every pair held, names and values alike.
    pub fn pairs(&self) -> (r: &Vec<(String, String)>)
        ensures
            r.deep_view() == self@,
    {
        &self.entries
    }

    /// The pairs matching the feature-flag sub-convention, again unordered.
    pub fn features(&self) -> (r: Vec<(String, String)>)
        ensures
            forall|i: int| 0 <= i < r.deep_view().len() ==> has_prefix(
                (#[trigger] r.deep_view()[i]).0,
                feature_prefix(),
            ) && self@.contains(r.deep_view()[i]),
            forall|i: int|
                0 <= i < self@.len() && has_prefix(
                    (#[trigger] self@[i]).0,
                    feature_prefix(),
                ) ==> r.deep_view().contains(self@[i]),
    {
        let n = self.entries.len();
        let mut out: Vec<(String, String)> = Vec::new();
        let mut i: usize = 0;
        while i < n
            invariant
                0 <= i <= n,
                n == self.entries@.len(),
                forall|j: int| 0 <= j < out.deep_view().len() ==> has_prefix(
                    (#[trigger] out.deep_view()[j]).0,
                    feature_prefix(),
                ) && self@.contains(out.deep_view()[j]),
                forall|j: int|
                    0 <= j < i && has_prefix(
                        (#[trigger] self@[j]).0,
                        feature_prefix(),
                    ) ==> out.deep_view().contains(self@[j]),
            decreases n - i,
        {
            let ghost prev = out.deep_view();
            let keep = str_has_prefix(self.entries[i].0.as_str(), "CARGO_FEATURE_");
            if keep {
                let k = self.entries[i].0.clone();
                let v = self.entries[i].1.clone();
                out.push((k, v));
                proof {
                    assert(out.deep_view() =~= prev.push(self@[i as int]));
                    assert forall|j: int|
                        0 <= j < i + 1 && has_prefix(
                            (#[trigger] self@[j]).0,
                            feature_prefix(),
                        ) implies out.deep_view().contains(self@[j]) by {
                        if j < i {
                            let w = choose|w: int| 0 <= w < prev.len() && prev[w] == self@[j];
                            assert(out.deep_view()[w] == self@[j]);
                        } else {
                            assert(out.deep_view()[prev.len() as int] == self@[i as int]);
                        }
                    }
                }
            }
            i = i + 1;
        }
        out
    }

    /// Whether the snapshot holds the variable the convention assigns to
    /// the flag `name`.
    pub fn has_feature(&self, name: &str) -> (r: bool)
        ensures
            r == exists|i: int|
                0 <= i < self@.len() && (#[trigger] self@[i]).0 == spec_feature_key(name@),
    {
        let n = self.entries.len();
        let mut i: usize = 0;
        while i < n
            invariant
                0 <= i <= n,
                n == self.entries@.len(),
                forall|j: int| 0 <= j < i ==> (#[trigger] self@[j]).0 != spec_feature_key(name@),
            decreases n - i,
        {
            if is_feature_key_for(self.entries[i].0.as_str(), name) {
                proof {
                    assert((self@[i as int]).0 == spec_feature_key(name@));
                }
                return true;
            }
            i = i + 1;
        }
        false
    }
}

} // verus!
