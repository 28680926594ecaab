//! Picking the native package manager by probing for known binaries, and the
//! search-path lookup that the probing is made of.
use vstd::prelude::*;
use crate::backend::any::Backend;
use crate::backend::{strings_view, strs_view};
use crate::text::{
    chars_of, char_from, ends_with, has_suffix, push_str, seqs_of, split_char, split_on,
    string_of,
};

verus! {

/// The binaries probed for, in priority order, for distributions that ship
/// more than one (Fedora historically shipped both `yum` and `dnf`; the modern
/// one wins). On Arch, `yay` is preferred over plain `pacman` when installed,
/// being a strict superset (AUR + official repositories).
pub open spec fn candidate_bins() -> Seq<Seq<char>> {
    seq!["apt-get"@, "apt"@, "dnf"@, "yay"@, "pacman"@, "zypper"@, "apk"@]
}

/// The backend each candidate binary stands for.
pub open spec fn candidate_backend(i: int) -> Backend {
    if i <= 1 {
        Backend::Apt
    } else if i == 2 {
        Backend::Dnf
    } else if i == 3 {
        Backend::Yay
    } else if i == 4 {
        Backend::Pacman
    } else if i == 5 {
        Backend::Zypper
    } else {
        Backend::Apk
    }
}

/// The backend of the first candidate from `i` on that was found, or APT when
/// none was (every call then simply reports "command not found").
pub open spec fn first_found(found: Seq<bool>, i: int) -> Backend
    decreases 7 - i,
{
    if i < 0 || i >= 7 {
        Backend::Apt
    } else if i < found.len() && found[i] {
        candidate_backend(i)
    } else {
        first_found(found, i + 1)
    }
}

/// When `yay` is installed it is preferred over plain `pacman`: with `yay`
/// found, detection never settles on Pacman, and it picks Yay unless an
/// earlier candidate (APT or DNF) was found.
pub proof fn lemma_yay_preferred_over_pacman(found: Seq<bool>)
    requires
        found.len() > 3,
        found[3],
    ensures
        first_found(found, 0) != Backend::Pacman,
        !found[0] && !found[1] && !found[2] ==> first_found(found, 0) == Backend::Yay,
{
    assert(first_found(found, 3) == Backend::Yay);
    assert(first_found(found, 2) != Backend::Pacman);
    assert(first_found(found, 1) != Backend::Pacman);
}

/// The candidate binaries, in priority order.
pub fn candidate_binaries() -> (r: Vec<&'static str>)
    ensures
        strs_view(r@) == candidate_bins(),
{
    let r = vec!["apt-get", "apt", "dnf", "yay", "pacman", "zypper", "apk"];
    assert(strs_view(r@) =~= candidate_bins());
    r
}

/// The native backend, given for each candidate binary (in the order of
/// `candidate_binaries`) whether it was found on the search path; a missing
/// entry counts as not found.
pub fn detect_native_backend(found: &Vec<bool>) -> (b: Backend)
    ensures
        b == first_found(found@, 0),
{
    let mut i: usize = 0;
    while i < 7
        invariant
            i <= 7,
            first_found(found@, 0) == first_found(found@, i as int),
        decreases 7 - i,
    {
        if i < found.len() && found[i] {
            return if i <= 1 {
                Backend::Apt
            } else if i == 2 {
                Backend::Dnf
            } else if i == 3 {
                Backend::Yay
            } else if i == 4 {
                Backend::Pacman
            } else if i == 5 {
                Backend::Zypper
            } else {
                Backend::Apk
            };
        }
        i += 1;
    }
    Backend::Apt
}

/// Whether Flatpak is installed, given, for each of the places `flatpak` is
/// looked for (`probe_paths("flatpak", ..)`, in that order), whether a file
/// is there: it is when one of them is.
pub fn flatpak_available(present: &Vec<bool>) -> (b: bool)
    ensures
        b == present@.contains(true),
{
    let mut i: usize = 0;
    while i < present.len()
        invariant
            i <= present@.len(),
            forall|k: int| 0 <= k < i ==> !present@[k],
        decreases present@.len() - i,
    {
        if present[i] {
            assert(present@[i as int] == true);
            return true;
        }
        i += 1;
    }
    false
}

/// `dir` joined with the file name `bin` (`Path::join`): `bin` alone for an
/// empty directory, no second separator after a trailing '/'.
pub open spec fn join(dir: Seq<char>, bin: Seq<char>) -> Seq<char> {
    if dir.len() == 0 {
        bin
    } else if ends_with(dir, "/"@) {
        dir + bin
    } else {
        dir + "/"@ + bin
    }
}

/// The paths at which `bin` is looked for: `bin` itself when it holds a '/',
/// else `bin` in each directory of the `PATH` value (split at ':'), none when
/// `PATH` is unset. `bin` is found when one of them is a file.
pub open spec fn probe_paths_spec(bin: Seq<char>, path_var: Option<Seq<char>>) -> Seq<Seq<char>> {
    if char_from(bin, '/', 0) < bin.len() {
        seq![bin]
    } else {
        match path_var {
            None => Seq::empty(),
            Some(p) => split_char(p, ':').map_values(|dir: Seq<char>| join(dir, bin)),
        }
    }
}

fn join_exec(dir: &[char], bin: &str) -> (r: String)
    ensures
        r@ == join(dir@, bin@),
{
    let slash = chars_of("/");
    if dir.len() == 0 {
        bin.to_owned()
    } else if has_suffix(dir, slash.as_slice()) {
        let mut s = string_of(dir);
        push_str(&mut s, bin);
        s
    } else {
        let mut s = string_of(dir);
        push_str(&mut s, "/");
        push_str(&mut s, bin);
        s
    }
}

/// Where to look for `bin`, given the value of `PATH`.
pub fn probe_paths(bin: &str, path_var: Option<&str>) -> (r: Vec<String>)
    ensures
        strings_view(r@) == probe_paths_spec(bin@, match path_var {
            Some(p) => Some(p@),
            None => None,
        }),
{
    let b = chars_of(bin);
    let n = b.len();
    let mut k: usize = 0;
    while k < n && b[k] != '/'
        invariant
            k <= n == b@.len(),
            char_from(b@, '/', 0) == char_from(b@, '/', k as int),
        decreases n - k,
    {
        k += 1;
    }
    if k < n {
        let r = vec![bin.to_owned()];
        assert(strings_view(r@) =~= seq![bin@]);
        return r;
    }
    match path_var {
        None => {
            let r: Vec<String> = Vec::new();
            assert(strings_view(r@) =~= Seq::<Seq<char>>::empty());
            r
        },
        Some(p) => {
            let pv = chars_of(p);
            let dirs = split_on(pv.as_slice(), ':');
            let ghost ds = split_char(p@, ':');
            let mut r: Vec<String> = Vec::new();
            let mut i: usize = 0;
            while i < dirs.len()
                invariant
                    i <= dirs@.len(),
                    seqs_of(dirs@) == ds,
                    r@.len() == i,
                    forall|j: int| 0 <= j < i ==> #[trigger] r@[j]@ == join(ds[j], bin@),
                decreases dirs@.len() - i,
            {
                assert(dirs@[i as int]@ == ds[i as int]);
                r.push(join_exec(dirs[i].as_slice(), bin));
                i += 1;
            }
            assert(strings_view(r@) =~= ds.map_values(|dir: Seq<char>| join(dir, bin@)));
            r
        },
    }
}

} // verus!
