use vstd::prelude::*;
use vstd::utf8::encode_utf8;

verus! {

/// The name of the first Discord IPC socket in its directory, as bytes.
pub open spec fn socket_name() -> Seq<u8> {
    encode_utf8("discord-ipc-0"@)
}

/// `Path::join` of a relative name onto `dir`, both as the bytes of a Unix
/// path: a `/` goes between them unless `dir` is empty or already ends
/// with one.
pub open spec fn path_join(dir: Seq<u8>, name: Seq<u8>) -> Seq<u8> {
    if dir.len() == 0 || dir.last() == 0x2fu8 {
        dir + name
    } else {
        dir + seq![0x2fu8] + name
    }
}

/// `v` with the bytes of `s` appended.
fn push_bytes(v: &mut Vec<u8>, s: &[u8])
    ensures
        final(v)@ == old(v)@ + s@,
{
    let ghost start = v@;
    let mut k: usize = 0;
    while k < s.len()
        invariant
            k <= s@.len(),
            v@ == start + s@.take(k as int),
        decreases s.len() - k,
    {
        v.push(s[k]);
        k = k + 1;
        assert(start + s@.take(k as int) =~= v@);
    }
    assert(s@.take(s@.len() as int) =~= s@);
}

/// The Discord IPC socket in the runtime directory `dir`, a path given and
/// returned as the bytes of a Unix path (which need not be UTF-8).
pub fn ipc_path(dir: &[u8]) -> (r: Vec<u8>)
    ensures
        r@ == path_join(dir@, socket_name()),
{
    let name = "discord-ipc-0".as_bytes();
    let mut r: Vec<u8> = Vec::new();
    push_bytes(&mut r, dir);
    assert(r@ =~= dir@);
    if dir.len() != 0 && dir[dir.len() - 1] != 0x2fu8 {
        r.push(0x2fu8);
    }
    push_bytes(&mut r, name);
    r
}

} // verus!
