//! Downloader settings: request headers and the platforms to download.
use vstd::prelude::*;

verus! {

/// Whether `s` holds a string equal to `x`.
pub open spec fn holds(s: Seq<String>, x: Seq<char>) -> bool {
    exists|i: int| 0 <= i < s.len() && #[trigger] s[i]@ == x
}

/// Whether some pair of `h` has the name `k`.
pub open spec fn has_name(h: Seq<(String, String)>, k: Seq<char>) -> bool {
    exists|i: int| 0 <= i < h.len() && #[trigger] h[i].0@ == k
}

/// Pair `j` of `h` is the last one with its name.
pub open spec fn last_of_name(h: Seq<(String, String)>, j: int) -> bool {
    forall|l: int| j < l < h.len() ==> #[trigger] h[l].0@ != h[j].0@
}

/// Some pair `j` of `src` that is the last of its name equals `p`.
pub open spec fn is_final_pair(src: Seq<(String, String)>, p: (String, String)) -> bool {
    exists|j: int|
        0 <= j < src.len() && last_of_name(src, j) && #[trigger] src[j].0@ == p.0@ && src[j].1@
            == p.1@
}

/// Some pair of `h` from index `from` on has the name `k`.
pub open spec fn named_from(h: Seq<(String, String)>, from: int, k: Seq<char>) -> bool {
    exists|j: int| from <= j < h.len() && #[trigger] h[j].0@ == k
}

/// Header names are pairwise distinct.
pub open spec fn names_distinct(h: Seq<(String, String)>) -> bool {
    forall|i: int, j: int| 0 <= i < j < h.len() ==> #[trigger] h[i].0@ != #[trigger] h[j].0@
}

/// Strings are pairwise distinct.
pub open spec fn strings_distinct(s: Seq<String>) -> bool {
    forall|i: int, j: int| 0 <= i < j < s.len() ==> #[trigger] s[i]@ != #[trigger] s[j]@
}

/// Headers attached to every request, and the platforms to download.
pub struct Settings {
    pub headers: Vec<(String, String)>,
    pub platforms: Vec<String>,
}

pub(crate) fn contains_string(s: &Vec<String>, x: &String) -> (r: bool)
    ensures
        r == holds(s@, x@),
{
    let mut i: usize = 0;
    while i < s.len()
        invariant
            i <= s@.len(),
            forall|j: int| 0 <= j < i ==> #[trigger] s@[j]@ != x@,
        decreases s@.len() - i,
    {
        if s[i] == *x {
            return true;
        }
        i = i + 1;
    }
    false
}

fn contains_name(h: &Vec<(String, String)>, k: &String) -> (r: bool)
    ensures
        r == has_name(h@, k@),
{
    let mut i: usize = 0;
    while i < h.len()
        invariant
            i <= h@.len(),
            forall|j: int| 0 <= j < i ==> #[trigger] h@[j].0@ != k@,
        decreases h@.len() - i,
    {
        if h[i].0 == *k {
            return true;
        }
        i = i + 1;
    }
    false
}

impl Settings {
    /// No header name and no platform occurs twice.
    pub open spec fn wf(&self) -> bool {
        names_distinct(self.headers@) && strings_distinct(self.platforms@)
    }

    /// Settings from header pairs, where a later pair overrides an earlier one
    /// of the same name, and a list of platforms, read as a set.
    pub fn new(headers: Vec<(String, String)>, platforms: Vec<String>) -> (r: Settings)
        ensures
            r.wf(),
            forall|i: int|
                0 <= i < r.headers@.len() ==> is_final_pair(headers@, #[trigger] r.headers@[i]),
            forall|j: int|
                0 <= j < headers@.len() && last_of_name(headers@, j) ==> has_name(
                    r.headers@,
                    #[trigger] headers@[j].0@,
                ),
            forall|x: Seq<char>| holds(r.platforms@, x) <==> holds(platforms@, x),
    {
        let mut kept: Vec<(String, String)> = Vec::new();
        let mut i: usize = headers.len();
        while i > 0
            invariant
                i <= headers@.len(),
                names_distinct(kept@),
                forall|m: int|
                    0 <= m < kept@.len() ==> #[trigger] is_final_pair(headers@, kept@[m]),
                forall|j: int|
                    i <= j < headers@.len() ==> has_name(kept@, #[trigger] headers@[j].0@),
                forall|m: int| 0 <= m < kept@.len() ==> named_from(headers@, i as int, #[trigger] kept@[m].0@),
            decreases i,
        {
            i = i - 1;
            let name = &headers[i].0;
            if !contains_name(&kept, name) {
                proof {
                    assert forall|l: int| i < l < headers@.len() implies #[trigger] headers@[l].0@
                        != headers@[i as int].0@ by {
                        if headers@[l].0@ == headers@[i as int].0@ {
                            assert(has_name(kept@, headers@[l].0@));
                        }
                    }
                    assert(last_of_name(headers@, i as int));
                }
                let pair = (headers[i].0.clone(), headers[i].1.clone());
                let ghost old_kept = kept@;
                kept.push(pair);
                proof {
                    assert(kept@[old_kept.len() as int] == pair);
                    assert forall|m: int| 0 <= m < kept@.len() implies #[trigger] is_final_pair(
                        headers@,
                        kept@[m],
                    ) by {
                        if m < old_kept.len() {
                            assert(kept@[m] == old_kept[m]);
                        } else {
                            assert(headers@[i as int].0@ == kept@[m].0@);
                        }
                    }
                    assert forall|j: int| i <= j < headers@.len() implies has_name(
                        kept@,
                        #[trigger] headers@[j].0@,
                    ) by {
                        if j == i {
                            assert(kept@[old_kept.len() as int].0@ == headers@[j].0@);
                        } else {
                            let m = choose|m: int|
                                0 <= m < old_kept.len() && #[trigger] old_kept[m].0@
                                    == headers@[j].0@;
                            assert(kept@[m] == old_kept[m]);
                        }
                    }
                    assert forall|m: int| 0 <= m < kept@.len() implies named_from(
                        headers@,
                        i as int,
                        #[trigger] kept@[m].0@,
                    ) by {
                        if m < old_kept.len() {
                            assert(kept@[m] == old_kept[m]);
                            assert(named_from(headers@, i + 1, old_kept[m].0@));
                        } else {
                            assert(headers@[i as int].0@ == kept@[m].0@);
                        }
                    }
                    assert forall|a: int, b: int| 0 <= a < b < kept@.len() implies #[trigger] kept@[a].0@
                        != #[trigger] kept@[b].0@ by {
                        if b == old_kept.len() {
                            assert(kept@[a] == old_kept[a]);
                        } else {
                            assert(kept@[a] == old_kept[a]);
                            assert(kept@[b] == old_kept[b]);
                        }
                    }
                }
            } else {
                proof {
                    assert forall|j: int| i <= j < headers@.len() implies has_name(
                        kept@,
                        #[trigger] headers@[j].0@,
                    ) by {
                    }
                }
            }
        }
        let mut plats: Vec<String> = Vec::new();
        let mut k: usize = 0;
        while k < platforms.len()
            invariant
                k <= platforms@.len(),
                strings_distinct(plats@),
                forall|x: Seq<char>| holds(plats@, x) <==> holds(platforms@.subrange(0, k as int), x),
            decreases platforms@.len() - k,
        {
            let ghost prefix = platforms@.subrange(0, k as int);
            let ghost next = platforms@.subrange(0, k + 1);
            proof {
                assert forall|x: Seq<char>| holds(next, x) <==> (holds(prefix, x) || x == platforms@[k as int]@) by {
                    if holds(next, x) {
                        let t = choose|t: int| 0 <= t < next.len() && #[trigger] next[t]@ == x;
                        if t < k {
                            assert(prefix[t] == next[t]);
                        }
                    }
                    if holds(prefix, x) {
                        let t = choose|t: int| 0 <= t < prefix.len() && #[trigger] prefix[t]@ == x;
                        assert(next[t] == prefix[t]);
                    }
                    if x == platforms@[k as int]@ {
                        assert(next[k as int] == platforms@[k as int]);
                    }
                }
            }
            let ghost before = plats@;
            if !contains_string(&plats, &platforms[k]) {
                let ghost old_plats = plats@;
                plats.push(platforms[k].clone());
                proof {
                    assert forall|x: Seq<char>| holds(plats@, x) <==> (holds(old_plats, x) || x == platforms@[k as int]@) by {
                        if holds(plats@, x) {
                            let t = choose|t: int| 0 <= t < plats@.len() && #[trigger] plats@[t]@ == x;
                            if t < old_plats.len() {
                                assert(old_plats[t] == plats@[t]);
                            }
                        }
                        if holds(old_plats, x) {
                            let t = choose|t: int| 0 <= t < old_plats.len() && #[trigger] old_plats[t]@ == x;
                            assert(plats@[t] == old_plats[t]);
                        }
                        if x == platforms@[k as int]@ {
                            assert(plats@[old_plats.len() as int]@ == x);
                        }
                    }
                    assert forall|a: int, b: int| 0 <= a < b < plats@.len() implies #[trigger] plats@[a]@
                        != #[trigger] plats@[b]@ by {
                        assert(plats@[a] == old_plats[a]);
                        if b < old_plats.len() {
                            assert(plats@[b] == old_plats[b]);
                        }
                    }
                }
            }
            proof {
                assert forall|x: Seq<char>| holds(plats@, x) <==> holds(next, x) by {
                    assert(holds(before, x) <==> holds(prefix, x));
                    assert(holds(next, x) <==> (holds(prefix, x) || x == platforms@[k as int]@));
                    assert(holds(plats@, platforms@[k as int]@));
                    if plats@ == before {
                        assert(holds(before, platforms@[k as int]@) ==> holds(prefix, platforms@[k as int]@));
                    } else {
                        assert(holds(plats@, x) <==> (holds(before, x) || x == platforms@[k as int]@));
                    }
                }
            }
            k = k + 1;
        }
        proof {
            assert(platforms@.subrange(0, platforms@.len() as int) =~= platforms@);
        }
        Settings { headers: kept, platforms: plats }
    }
}

} // verus!
