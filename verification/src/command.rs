//! Building the command line handed to the tunnel executable.
//!
//! Two mutually exclusive invocation shapes, selected solely by whether the
//! configuration carries a token: quick mode exposes the local port through
//! an ephemeral URL, named mode runs the tunnel that the token selects.
//! Arguments are byte strings; the caller turns them into whatever its
//! process-spawning interface takes.

use vstd::prelude::*;

use vstd::utf8::encode_utf8;

use crate::TunnelConfig;

verus! {

/// Decimal ASCII digits of `n`, most significant first (48 is `'0'`).
pub open spec fn dec_rep(n: nat) -> Seq<u8>
    decreases n,
{
    if n < 10 {
        seq![(48 + n) as u8]
    } else {
        dec_rep(n / 10).push((48 + n % 10) as u8)
    }
}

/// The byte sequence of `"tunnel"`.
pub open spec fn arg_tunnel() -> Seq<u8> {
    seq![116u8, 117u8, 110u8, 110u8, 101u8, 108u8]
}

fn arg_tunnel_bytes() -> (r: Vec<u8>)
    ensures
        r@ == arg_tunnel(),
{
    let v: Vec<u8> = vec![116u8, 117u8, 110u8, 110u8, 101u8, 108u8];
    proof {
        assert(v@ =~= arg_tunnel());
    }
    v
}

/// The byte sequence of `"--url"`.
pub open spec fn arg_url_flag() -> Seq<u8> {
    seq![45u8, 45u8, 117u8, 114u8, 108u8]
}

fn arg_url_flag_bytes() -> (r: Vec<u8>)
    ensures
        r@ == arg_url_flag(),
{
    let v: Vec<u8> = vec![45u8, 45u8, 117u8, 114u8, 108u8];
    proof {
        assert(v@ =~= arg_url_flag());
    }
    v
}

/// The byte sequence of `"run"`.
pub open spec fn arg_run() -> Seq<u8> {
    seq![114u8, 117u8, 110u8]
}

fn arg_run_bytes() -> (r: Vec<u8>)
    ensures
        r@ == arg_run(),
{
    let v: Vec<u8> = vec![114u8, 117u8, 110u8];
    proof {
        assert(v@ =~= arg_run());
    }
    v
}

/// The byte sequence of `"--token"`.
pub open spec fn arg_token_flag() -> Seq<u8> {
    seq![45u8, 45u8, 116u8, 111u8, 107u8, 101u8, 110u8]
}

fn arg_token_flag_bytes() -> (r: Vec<u8>)
    ensures
        r@ == arg_token_flag(),
{
    let v: Vec<u8> = vec![45u8, 45u8, 116u8, 111u8, 107u8, 101u8, 110u8];
    proof {
        assert(v@ =~= arg_token_flag());
    }
    v
}

/// The byte sequence of `"http://localhost:"`.
pub open spec fn url_prefix() -> Seq<u8> {
    seq![104u8, 116u8, 116u8, 112u8, 58u8, 47u8, 47u8, 108u8, 111u8, 99u8, 97u8, 108u8, 104u8, 111u8, 115u8, 116u8, 58u8]
}

fn url_prefix_bytes() -> (r: Vec<u8>)
    ensures
        r@ == url_prefix(),
{
    let v: Vec<u8> = vec![104u8, 116u8, 116u8, 112u8, 58u8, 47u8, 47u8, 108u8, 111u8, 99u8, 97u8, 108u8, 104u8, 111u8, 115u8, 116u8, 58u8];
    proof {
        assert(v@ =~= url_prefix());
    }
    v
}

/// The arguments of quick-tunnel mode: expose `port` on localhost.
pub open spec fn quick_args(port: u16) -> Seq<Seq<u8>> {
    seq![arg_tunnel(), arg_url_flag(), url_prefix() + dec_rep(port as nat)]
}

/// The arguments of named-tunnel mode: run by token.
pub open spec fn named_args(token: Seq<char>) -> Seq<Seq<u8>> {
    seq![arg_tunnel(), arg_run(), arg_token_flag(), encode_utf8(token)]
}

/// The full argument list for a configuration: quick mode exactly when the
/// token is empty.
pub open spec fn args_spec(cfg: TunnelConfig) -> Seq<Seq<u8>> {
    if cfg.tunnel_token@.len() == 0 {
        quick_args(cfg.local_port)
    } else {
        named_args(cfg.tunnel_token@)
    }
}

/// The decimal ASCII digits of `n`.
pub fn dec_digits(n: u16) -> (r: Vec<u8>)
    ensures
        r@ == dec_rep(n as nat),
    decreases n,
{
    if n < 10 {
        let v: Vec<u8> = vec![48 + n as u8];
        proof {
            assert(v@ =~= dec_rep(n as nat));
        }
        v
    } else {
        let mut v = dec_digits(n / 10);
        v.push(48 + (n % 10) as u8);
        proof {
            assert(v@ =~= dec_rep(n as nat));
        }
        v
    }
}

/// Build the argument list that `args_spec` describes.
pub fn build_args(cfg: &TunnelConfig) -> (r: Vec<Vec<u8>>)
    ensures
        r@.len() == args_spec(*cfg).len(),
        forall|i: int| 0 <= i < r@.len() ==> r@[i]@ == args_spec(*cfg)[i],
{
    let mut r: Vec<Vec<u8>> = Vec::new();
    r.push(arg_tunnel_bytes());
    if cfg.tunnel_token.as_str().is_empty() {
        r.push(arg_url_flag_bytes());
        let mut url = url_prefix_bytes();
        let mut digits = dec_digits(cfg.local_port);
        url.append(&mut digits);
        r.push(url);
        proof {
            assert(r@[0]@ == args_spec(*cfg)[0]);
            assert(r@[1]@ == args_spec(*cfg)[1]);
            assert(r@[2]@ == args_spec(*cfg)[2]);
        }
        r
    } else {
        r.push(arg_run_bytes());
        r.push(arg_token_flag_bytes());
        let tok = vstd::slice::slice_to_vec(cfg.tunnel_token.as_str().as_bytes());
        r.push(tok);
        proof {
            assert(r@[0]@ == args_spec(*cfg)[0]);
            assert(r@[1]@ == args_spec(*cfg)[1]);
            assert(r@[2]@ == args_spec(*cfg)[2]);
            assert(r@[3]@ == args_spec(*cfg)[3]);
        }
        r
    }
}

} // verus!
