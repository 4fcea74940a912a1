//! The search order for the tunnel executable.
//!
//! The supervising process may not have inherited a terminal's PATH, so the
//! executable is looked for by a fixed, platform-aware priority list: the
//! bare command name first (for a PATH lookup), then well-known per-system
//! installation directories, then a per-user local-bin directory under the
//! home directory. The caller probes each candidate in order; the first hit
//! wins, and exhausting the list is a normal negative result, not an error.

use vstd::prelude::*;

verus! {

/// The bare command name, for a PATH lookup.
pub open spec fn cand_command() -> Seq<u8> {
    seq![99u8, 108u8, 111u8, 117u8, 100u8, 102u8, 108u8, 97u8, 114u8, 101u8, 100u8]
}

fn cand_command_bytes() -> (r: Vec<u8>)
    ensures
        r@ == cand_command(),
{
    let v: Vec<u8> = vec![99u8, 108u8, 111u8, 117u8, 100u8, 102u8, 108u8, 97u8, 114u8, 101u8, 100u8];
    proof {
        assert(v@ =~= cand_command());
    }
    v
}

/// Homebrew on Apple-silicon macOS.
pub open spec fn cand_homebrew() -> Seq<u8> {
    seq![47u8, 111u8, 112u8, 116u8, 47u8, 104u8, 111u8, 109u8, 101u8, 98u8, 114u8, 101u8, 119u8, 47u8, 98u8, 105u8, 110u8, 47u8, 99u8, 108u8, 111u8, 117u8, 100u8, 102u8, 108u8, 97u8, 114u8, 101u8, 100u8]
}

fn cand_homebrew_bytes() -> (r: Vec<u8>)
    ensures
        r@ == cand_homebrew(),
{
    let v: Vec<u8> = vec![47u8, 111u8, 112u8, 116u8, 47u8, 104u8, 111u8, 109u8, 101u8, 98u8, 114u8, 101u8, 119u8, 47u8, 98u8, 105u8, 110u8, 47u8, 99u8, 108u8, 111u8, 117u8, 100u8, 102u8, 108u8, 97u8, 114u8, 101u8, 100u8];
    proof {
        assert(v@ =~= cand_homebrew());
    }
    v
}

/// Homebrew on Intel macOS, and a common Linux location.
pub open spec fn cand_usr_local() -> Seq<u8> {
    seq![47u8, 117u8, 115u8, 114u8, 47u8, 108u8, 111u8, 99u8, 97u8, 108u8, 47u8, 98u8, 105u8, 110u8, 47u8, 99u8, 108u8, 111u8, 117u8, 100u8, 102u8, 108u8, 97u8, 114u8, 101u8, 100u8]
}

fn cand_usr_local_bytes() -> (r: Vec<u8>)
    ensures
        r@ == cand_usr_local(),
{
    let v: Vec<u8> = vec![47u8, 117u8, 115u8, 114u8, 47u8, 108u8, 111u8, 99u8, 97u8, 108u8, 47u8, 98u8, 105u8, 110u8, 47u8, 99u8, 108u8, 111u8, 117u8, 100u8, 102u8, 108u8, 97u8, 114u8, 101u8, 100u8];
    proof {
        assert(v@ =~= cand_usr_local());
    }
    v
}

/// A common Linux location.
pub open spec fn cand_usr_bin() -> Seq<u8> {
    seq![47u8, 117u8, 115u8, 114u8, 47u8, 98u8, 105u8, 110u8, 47u8, 99u8, 108u8, 111u8, 117u8, 100u8, 102u8, 108u8, 97u8, 114u8, 101u8, 100u8]
}

fn cand_usr_bin_bytes() -> (r: Vec<u8>)
    ensures
        r@ == cand_usr_bin(),
{
    let v: Vec<u8> = vec![47u8, 117u8, 115u8, 114u8, 47u8, 98u8, 105u8, 110u8, 47u8, 99u8, 108u8, 111u8, 117u8, 100u8, 102u8, 108u8, 97u8, 114u8, 101u8, 100u8];
    proof {
        assert(v@ =~= cand_usr_bin());
    }
    v
}

/// Snap on Linux.
pub open spec fn cand_snap() -> Seq<u8> {
    seq![47u8, 115u8, 110u8, 97u8, 112u8, 47u8, 98u8, 105u8, 110u8, 47u8, 99u8, 108u8, 111u8, 117u8, 100u8, 102u8, 108u8, 97u8, 114u8, 101u8, 100u8]
}

fn cand_snap_bytes() -> (r: Vec<u8>)
    ensures
        r@ == cand_snap(),
{
    let v: Vec<u8> = vec![47u8, 115u8, 110u8, 97u8, 112u8, 47u8, 98u8, 105u8, 110u8, 47u8, 99u8, 108u8, 111u8, 117u8, 100u8, 102u8, 108u8, 97u8, 114u8, 101u8, 100u8];
    proof {
        assert(v@ =~= cand_snap());
    }
    v
}

/// The usual Windows location.
pub open spec fn cand_win() -> Seq<u8> {
    seq![67u8, 58u8, 92u8, 80u8, 114u8, 111u8, 103u8, 114u8, 97u8, 109u8, 32u8, 70u8, 105u8, 108u8, 101u8, 115u8, 92u8, 99u8, 108u8, 111u8, 117u8, 100u8, 102u8, 108u8, 97u8, 114u8, 101u8, 100u8, 92u8, 99u8, 108u8, 111u8, 117u8, 100u8, 102u8, 108u8, 97u8, 114u8, 101u8, 100u8, 46u8, 101u8, 120u8, 101u8]
}

fn cand_win_bytes() -> (r: Vec<u8>)
    ensures
        r@ == cand_win(),
{
    let v: Vec<u8> = vec![67u8, 58u8, 92u8, 80u8, 114u8, 111u8, 103u8, 114u8, 97u8, 109u8, 32u8, 70u8, 105u8, 108u8, 101u8, 115u8, 92u8, 99u8, 108u8, 111u8, 117u8, 100u8, 102u8, 108u8, 97u8, 114u8, 101u8, 100u8, 92u8, 99u8, 108u8, 111u8, 117u8, 100u8, 102u8, 108u8, 97u8, 114u8, 101u8, 100u8, 46u8, 101u8, 120u8, 101u8];
    proof {
        assert(v@ =~= cand_win());
    }
    v
}

/// The 32-bit Windows location.
pub open spec fn cand_win_x86() -> Seq<u8> {
    seq![67u8, 58u8, 92u8, 80u8, 114u8, 111u8, 103u8, 114u8, 97u8, 109u8, 32u8, 70u8, 105u8, 108u8, 101u8, 115u8, 32u8, 40u8, 120u8, 56u8, 54u8, 41u8, 92u8, 99u8, 108u8, 111u8, 117u8, 100u8, 102u8, 108u8, 97u8, 114u8, 101u8, 100u8, 92u8, 99u8, 108u8, 111u8, 117u8, 100u8, 102u8, 108u8, 97u8, 114u8, 101u8, 100u8, 46u8, 101u8, 120u8, 101u8]
}

fn cand_win_x86_bytes() -> (r: Vec<u8>)
    ensures
        r@ == cand_win_x86(),
{
    let v: Vec<u8> = vec![67u8, 58u8, 92u8, 80u8, 114u8, 111u8, 103u8, 114u8, 97u8, 109u8, 32u8, 70u8, 105u8, 108u8, 101u8, 115u8, 32u8, 40u8, 120u8, 56u8, 54u8, 41u8, 92u8, 99u8, 108u8, 111u8, 117u8, 100u8, 102u8, 108u8, 97u8, 114u8, 101u8, 100u8, 92u8, 99u8, 108u8, 111u8, 117u8, 100u8, 102u8, 108u8, 97u8, 114u8, 101u8, 100u8, 46u8, 101u8, 120u8, 101u8];
    proof {
        assert(v@ =~= cand_win_x86());
    }
    v
}

/// The per-user local-bin path under the home directory.
pub open spec fn local_bin_suffix() -> Seq<u8> {
    seq![47u8, 46u8, 108u8, 111u8, 99u8, 97u8, 108u8, 47u8, 98u8, 105u8, 110u8, 47u8, 99u8, 108u8, 111u8, 117u8, 100u8, 102u8, 108u8, 97u8, 114u8, 101u8, 100u8]
}

fn local_bin_suffix_bytes() -> (r: Vec<u8>)
    ensures
        r@ == local_bin_suffix(),
{
    let v: Vec<u8> = vec![47u8, 46u8, 108u8, 111u8, 99u8, 97u8, 108u8, 47u8, 98u8, 105u8, 110u8, 47u8, 99u8, 108u8, 111u8, 117u8, 100u8, 102u8, 108u8, 97u8, 114u8, 101u8, 100u8];
    proof {
        assert(v@ =~= local_bin_suffix());
    }
    v
}

/// The candidates in priority order. `home` is the home directory (empty
/// when unset), which prefixes the per-user candidate.
pub open spec fn candidates(home: Seq<u8>) -> Seq<Seq<u8>> {
    seq![
        cand_command(),
        cand_homebrew(),
        cand_usr_local(),
        cand_usr_bin(),
        cand_usr_local(),
        cand_snap(),
        cand_win(),
        cand_win_x86(),
        home + local_bin_suffix(),
    ]
}

/// Build the candidate list that `candidates` describes.
pub fn candidate_paths(home: &[u8]) -> (r: Vec<Vec<u8>>)
    ensures
        r@.len() == candidates(home@).len(),
        forall|i: int| 0 <= i < r@.len() ==> r@[i]@ == candidates(home@)[i],
{
    let mut r: Vec<Vec<u8>> = Vec::new();
    r.push(cand_command_bytes());
    r.push(cand_homebrew_bytes());
    r.push(cand_usr_local_bytes());
    r.push(cand_usr_bin_bytes());
    r.push(cand_usr_local_bytes());
    r.push(cand_snap_bytes());
    r.push(cand_win_bytes());
    r.push(cand_win_x86_bytes());
    let mut user = vstd::slice::slice_to_vec(home);
    let mut suffix = local_bin_suffix_bytes();
    user.append(&mut suffix);
    r.push(user);
    proof {
        assert(r@[0]@ == candidates(home@)[0]);
        assert(r@[1]@ == candidates(home@)[1]);
        assert(r@[2]@ == candidates(home@)[2]);
        assert(r@[3]@ == candidates(home@)[3]);
        assert(r@[4]@ == candidates(home@)[4]);
        assert(r@[5]@ == candidates(home@)[5]);
        assert(r@[6]@ == candidates(home@)[6]);
        assert(r@[7]@ == candidates(home@)[7]);
        assert(r@[8]@ == candidates(home@)[8]);
    }
    r
}

/// The first candidate that exists: the least index whose probe succeeded.
/// `found` holds the probe results in candidate order; `None` only after
/// the whole list is exhausted.
pub fn select_first(found: &Vec<bool>) -> (r: Option<usize>)
    ensures
        match r {
            Some(i) => i < found@.len() && found@[i as int] && forall|j: int|
                0 <= j < i ==> !found@[j],
            None => forall|j: int| 0 <= j < found@.len() ==> !found@[j],
        },
{
    let mut i: usize = 0;
    while i < found.len()
        invariant
            i <= found@.len(),
            forall|j: int| 0 <= j < i ==> !found@[j],
        decreases found@.len() - i,
    {
        if found[i] {
            return Some(i);
        }
        i = i + 1;
    }
    None
}

} // verus!
