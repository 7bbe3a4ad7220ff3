use vstd::prelude::*;
use vstd::string::*;

use crate::text::{
    chars_contain, chars_of, chars_start_with, has_prefix, is_substring, join, lemma_lt_total,
    lemma_lt_transitive, seq_lt, str_lt, views,
};

verus! {

/// Why the boot directory yields no catalog.
#[derive(Debug, Clone, Copy, PartialEq, Eq, Structural)]
pub enum DiscoveryError {
    /// The boot directory does not exist.
    MissingDirectory,
    /// No kernel image stands in the boot directory.
    Empty,
}

/// No auxiliary boot image matches a version.
#[derive(Debug, Clone, Copy, PartialEq, Eq, Structural)]
pub enum ResolutionError {
    NotFound,
}

/// The directory that holds the boot artifacts, with its trailing slash.
pub open spec fn boot_dir() -> Seq<char> {
    "/boot/"@
}

/// The prefix of a kernel image's file name.
pub open spec fn image_prefix() -> Seq<char> {
    "vmlinuz-"@
}

/// The two prefixes of an auxiliary boot image's file name.
pub open spec fn initrd_prefix() -> Seq<char> {
    "initrd.img-"@
}

pub open spec fn initramfs_prefix() -> Seq<char> {
    "initramfs-"@
}

/// The file is a kernel image.
pub open spec fn is_image(name: Seq<char>) -> bool {
    has_prefix(name, image_prefix())
}

/// The version that a kernel image's file name carries.
pub open spec fn version_of(name: Seq<char>) -> Seq<char> {
    name.subrange(image_prefix().len() as int, name.len() as int)
}

/// Among the first `n` names, a kernel image carries version `v`.
pub open spec fn listed_among(names: Seq<Seq<char>>, n: int, v: Seq<char>) -> bool {
    exists|i: int|
        #![trigger names[i]]
        0 <= i < n && i < names.len() && is_image(names[i]) && version_of(names[i]) == v
}

/// A kernel image in `names` carries version `v`.
pub open spec fn is_listed(names: Seq<Seq<char>>, v: Seq<char>) -> bool {
    listed_among(names, names.len() as int, v)
}

/// Each element comes strictly before the next: sorted, without duplicates.
pub open spec fn strictly_sorted(s: Seq<Seq<char>>) -> bool {
    forall|i: int, j: int| 0 <= i < j < s.len() ==> seq_lt(s[i], s[j])
}

/// `c` is the catalog of the directory listing `names`: the versions of its
/// kernel images, each once, in string order.
pub open spec fn is_catalog_of(c: Seq<Seq<char>>, names: Seq<Seq<char>>) -> bool {
    strictly_sorted(c) && forall|v: Seq<char>| c.contains(v) <==> is_listed(names, v)
}

/// The path of a file of the boot directory.
pub open spec fn boot_path(name: Seq<char>) -> Seq<char> {
    boot_dir() + name
}

/// The file is an auxiliary boot image for `version`: it has one of the two
/// prefixes and holds `version` anywhere in its name.
pub open spec fn is_aux_image(name: Seq<char>, version: Seq<char>) -> bool {
    (has_prefix(name, initrd_prefix()) || has_prefix(name, initramfs_prefix())) && is_substring(
        version,
        name,
    )
}

/// `names[i]` is the first auxiliary boot image for `version`.
pub open spec fn is_first_aux(names: Seq<Seq<char>>, version: Seq<char>, i: int) -> bool {
    0 <= i < names.len() && is_aux_image(names[i], version) && forall|j: int|
        0 <= j < i ==> !is_aux_image(#[trigger] names[j], version)
}

/// Adds `v` to a strictly sorted vector, where it is not there yet.
fn insert_version(out: &mut Vec<String>, v: String)
    requires
        strictly_sorted(views(old(out)@)),
    ensures
        strictly_sorted(views(final(out)@)),
        forall|x: Seq<char>|
            views(final(out)@).contains(x) <==> (views(old(out)@).contains(x) || x == v@),
{
    let ghost s = views(out@);
    let mut i: usize = 0;
    while i < out.len() && str_lt(out[i].as_str(), v.as_str())
        invariant
            s == views(out@),
            i <= out.len(),
            forall|j: int| 0 <= j < i ==> seq_lt(#[trigger] s[j], v@),
        decreases out.len() - i,
    {
        i = i + 1;
    }
    if i < out.len() && out[i] == v {
        assert(s[i as int] == v@);
        return;
    }
    proof {
        if i < s.len() {
            lemma_lt_total(s[i as int], v@);
        }
    }
    out.insert(i, v);
    let ghost t = views(out@);
    assert(t =~= s.insert(i as int, v@));
    assert forall|a: int, b: int| 0 <= a < b < t.len() implies seq_lt(t[a], t[b]) by {
        if b < i {
        } else if b == i {
        } else if a < i {
            assert(seq_lt(s[a], s[b - 1]));
        } else if a == i {
            if b - 1 > i {
                lemma_lt_transitive(v@, s[i as int], s[b - 1]);
            }
        } else {
        }
    }
    assert forall|x: Seq<char>| t.contains(x) <==> (s.contains(x) || x == v@) by {
        if t.contains(x) {
            let k = choose|k: int| 0 <= k < t.len() && t[k] == x;
            if k > i {
                assert(s[k - 1] == x);
            }
        }
        if s.contains(x) {
            let k = choose|k: int| 0 <= k < s.len() && s[k] == x;
            if k < i {
                assert(t[k] == x);
            } else {
                assert(t[k + 1] == x);
            }
        }
        if x == v@ {
            assert(t[i as int] == x);
        }
    }
}

/// The catalog of a boot directory, from the names of its entries; `None`
/// stands for a directory that does not exist.
pub fn discover(listing: Option<Vec<String>>) -> (r: Result<Vec<String>, DiscoveryError>)
    ensures
        match listing {
            None => r == Err::<Vec<String>, DiscoveryError>(DiscoveryError::MissingDirectory),
            Some(names) => match r {
                Ok(c) => c.len() > 0 && is_catalog_of(views(c@), views(names@)),
                Err(e) => e == DiscoveryError::Empty && forall|v: Seq<char>|
                    !is_listed(views(names@), v),
            },
        },
{
    let names = match listing {
        None => {
            return Err(DiscoveryError::MissingDirectory);
        },
        Some(names) => names,
    };
    let ghost ns = views(names@);
    let pre = chars_of("vmlinuz-");
    let mut out: Vec<String> = Vec::new();
    let mut i: usize = 0;
    assert(views(out@) =~= Seq::<Seq<char>>::empty());
    while i < names.len()
        invariant
            ns == views(names@),
            pre@ == image_prefix(),
            i <= names.len(),
            strictly_sorted(views(out@)),
            forall|x: Seq<char>| views(out@).contains(x) <==> listed_among(ns, i as int, x),
        decreases names.len() - i,
    {
        let c = chars_of(names[i].as_str());
        let ghost before = views(out@);
        if chars_start_with(&c, &pre) {
            let v = names[i].as_str().substring_char(pre.len(), c.len()).to_owned();
            assert(v@ == version_of(ns[i as int]));
            insert_version(&mut out, v);
            assert forall|x: Seq<char>|
                views(out@).contains(x) <==> listed_among(ns, i + 1, x) by {
                if listed_among(ns, i + 1, x) && x != v@ {
                    let k = choose|k: int|
                        #![trigger ns[k]]
                        0 <= k < i + 1 && k < ns.len() && is_image(ns[k]) && version_of(ns[k])
                            == x;
                    assert(k < i);
                    assert(listed_among(ns, i as int, x));
                }
                if before.contains(x) {
                    assert(listed_among(ns, i as int, x));
                    let k = choose|k: int|
                        #![trigger ns[k]]
                        0 <= k < i && k < ns.len() && is_image(ns[k]) && version_of(ns[k]) == x;
                    assert(listed_among(ns, i + 1, x));
                }
                if x == v@ {
                    assert(ns[i as int] == names@[i as int]@);
                    assert(listed_among(ns, i + 1, x));
                }
            }
        } else {
            assert forall|x: Seq<char>|
                views(out@).contains(x) <==> listed_among(ns, i + 1, x) by {
                if listed_among(ns, i + 1, x) {
                    let k = choose|k: int|
                        #![trigger ns[k]]
                        0 <= k < i + 1 && k < ns.len() && is_image(ns[k]) && version_of(ns[k])
                            == x;
                    assert(k < i);
                    assert(listed_among(ns, i as int, x));
                }
                if listed_among(ns, i as int, x) {
                    let k = choose|k: int|
                        #![trigger ns[k]]
                        0 <= k < i && k < ns.len() && is_image(ns[k]) && version_of(ns[k]) == x;
                    assert(listed_among(ns, i + 1, x));
                }
            }
        }
        i = i + 1;
    }
    if out.len() == 0 {
        assert forall|v: Seq<char>| !is_listed(ns, v) by {
            if is_listed(ns, v) {
                assert(views(out@).contains(v));
            }
        }
        return Err(DiscoveryError::Empty);
    }
    Ok(out)
}

/// The path of the auxiliary boot image for `version`: the first entry of the
/// directory listing that has one of the two prefixes and holds `version`.
pub fn resolve(listing: &Vec<String>, version: &str) -> (r: Result<String, ResolutionError>)
    ensures
        match r {
            Ok(path) => exists|i: int|
                is_first_aux(views(listing@), version@, i) && path@ == boot_path(
                    #[trigger] listing@[i]@,
                ),
            Err(_) => forall|i: int|
                0 <= i < listing.len() ==> !is_aux_image(#[trigger] listing@[i]@, version@),
        },
{
    let ghost ns = views(listing@);
    let initrd = chars_of("initrd.img-");
    let initramfs = chars_of("initramfs-");
    let v = chars_of(version);
    let mut i: usize = 0;
    while i < listing.len()
        invariant
            ns == views(listing@),
            initrd@ == initrd_prefix(),
            initramfs@ == initramfs_prefix(),
            v@ == version@,
            i <= listing.len(),
            forall|j: int| 0 <= j < i ==> !is_aux_image(#[trigger] listing@[j]@, version@),
        decreases listing.len() - i,
    {
        let c = chars_of(listing[i].as_str());
        if (chars_start_with(&c, &initrd) || chars_start_with(&c, &initramfs)) && chars_contain(
            &c,
            &v,
        ) {
            let path = join("/boot/", listing[i].as_str());
            assert(is_first_aux(ns, version@, i as int)) by {
                assert forall|j: int| 0 <= j < i implies !is_aux_image(
                    #[trigger] ns[j],
                    version@,
                ) by {
                    assert(ns[j] == listing@[j]@);
                }
            }
            return Ok(path);
        }
        i = i + 1;
    }
    Err(ResolutionError::NotFound)
}

} // verus!
