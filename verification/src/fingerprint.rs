//! Compilation fingerprints: a collision-resistant digest over the compiler's
//! identity, the canonicalized arguments, the working directory, the consulted
//! environment variables, and the preprocessed source, hex-encoded as the
//! storage key. The components are framed injectively before they are
//! digested, so distinct inputs are never fed to the digest as the same bytes.

use vstd::prelude::*;

use crate::strutil::string_push;

use vstd::string::StrSliceExecFns;
use vstd::utf8::encode_utf8;

use sha1::Digest;

verus! {

/// The SHA-1 digest of a byte sequence: a function of the bytes alone.
pub uninterp spec fn sha1_of(data: Seq<u8>) -> Seq<u8>;

/// Relies on the sha1 crate's Sha1 (through its one-shot digest): a pure
/// 20-byte SHA-1 digest of the input bytes alone.
#[verifier::external_body]
fn sha1_digest(data: &Vec<u8>) -> (r: Vec<u8>)
    ensures
        r@ == sha1_of(data@),
        r@.len() == 20,
{
    sha1::Sha1::digest(data.as_slice()).to_vec()
}

/// The sixteen digits of the hex alphabet, lower case.
pub open spec fn spec_hex_digit(n: u8) -> char {
    seq!['0', '1', '2', '3', '4', '5', '6', '7', '8', '9', 'a', 'b', 'c', 'd', 'e', 'f'][n as int]
}

/// Lower-case hex encoding, two digits a byte, high nibble first.
pub open spec fn spec_hex_of(data: Seq<u8>) -> Seq<char>
    decreases data.len(),
{
    if data.len() == 0 {
        Seq::empty()
    } else {
        seq![
            spec_hex_digit(data.first() / 16),
            spec_hex_digit(data.first() % 16),
        ] + spec_hex_of(data.drop_first())
    }
}

fn hex_digit(n: u8) -> (r: char)
    requires
        n < 16,
    ensures
        r == spec_hex_digit(n),
{
    let c = match n {
        0 => '0',
        1 => '1',
        2 => '2',
        3 => '3',
        4 => '4',
        5 => '5',
        6 => '6',
        7 => '7',
        8 => '8',
        9 => '9',
        10 => 'a',
        11 => 'b',
        12 => 'c',
        13 => 'd',
        14 => 'e',
        _ => 'f',
    };
    c
}

/// Hex-encode a byte string.
pub fn hex_encode(data: &Vec<u8>) -> (r: String)
    ensures
        r@ == spec_hex_of(data@),
{
    let mut r = String::new();
    let n = data.len();
    let mut i: usize = 0;
    proof {
        assert(data@.skip(0) =~= data@);
    }
    while i < n
        invariant
            n == data@.len(),
            i <= n,
            r@ + spec_hex_of(data@.skip(i as int)) == spec_hex_of(data@),
        decreases n - i,
    {
        let b = data[i];
        string_push(&mut r, hex_digit(b / 16));
        string_push(&mut r, hex_digit(b % 16));
        proof {
            assert(data@.skip(i as int).first() == data@[i as int]);
            assert(data@.skip(i as int).drop_first() =~= data@.skip(i as int + 1));
        }
        i += 1;
    }
    proof {
        assert(data@.skip(n as int) =~= Seq::<u8>::empty());
        assert(r@ =~= r@ + spec_hex_of(Seq::<u8>::empty()));
    }
    r
}

/// A length as eight big-endian bytes.
pub open spec fn spec_u64_be(n: u64) -> Seq<u8> {
    seq![
        ((n >> 56) & 0xff) as u8,
        ((n >> 48) & 0xff) as u8,
        ((n >> 40) & 0xff) as u8,
        ((n >> 32) & 0xff) as u8,
        ((n >> 24) & 0xff) as u8,
        ((n >> 16) & 0xff) as u8,
        ((n >> 8) & 0xff) as u8,
        (n & 0xff) as u8,
    ]
}

/// Two lengths with the same eight bytes are the same length.
pub proof fn lemma_u64_be_injective(a: u64, b: u64)
    requires
        spec_u64_be(a) == spec_u64_be(b),
    ensures
        a == b,
{
    assert(spec_u64_be(a)[0] == spec_u64_be(b)[0]);
    assert(spec_u64_be(a)[1] == spec_u64_be(b)[1]);
    assert(spec_u64_be(a)[2] == spec_u64_be(b)[2]);
    assert(spec_u64_be(a)[3] == spec_u64_be(b)[3]);
    assert(spec_u64_be(a)[4] == spec_u64_be(b)[4]);
    assert(spec_u64_be(a)[5] == spec_u64_be(b)[5]);
    assert(spec_u64_be(a)[6] == spec_u64_be(b)[6]);
    assert(spec_u64_be(a)[7] == spec_u64_be(b)[7]);
    assert((((a >> 56) & 0xff) as u8 == ((b >> 56) & 0xff) as u8 && ((a >> 48) & 0xff) as u8 == ((b
        >> 48) & 0xff) as u8 && ((a >> 40) & 0xff) as u8 == ((b >> 40) & 0xff) as u8 && ((a >> 32)
        & 0xff) as u8 == ((b >> 32) & 0xff) as u8 && ((a >> 24) & 0xff) as u8 == ((b >> 24)
        & 0xff) as u8 && ((a >> 16) & 0xff) as u8 == ((b >> 16) & 0xff) as u8 && ((a >> 8)
        & 0xff) as u8 == ((b >> 8) & 0xff) as u8 && (a & 0xff) as u8 == (b & 0xff) as u8) ==> a
        == b) by (bit_vector);
}

fn push_u64_be(out: &mut Vec<u8>, n: u64)
    ensures
        final(out)@ == old(out)@ + spec_u64_be(n),
{
    proof {
        assert((n >> 56) & 0xff < 256 && (n >> 48) & 0xff < 256 && (n >> 40) & 0xff < 256 && (n
            >> 32) & 0xff < 256 && (n >> 24) & 0xff < 256 && (n >> 16) & 0xff < 256 && (n >> 8)
            & 0xff < 256 && n & 0xff < 256) by (bit_vector);
    }
    out.push(((n >> 56) & 0xff) as u8);
    out.push(((n >> 48) & 0xff) as u8);
    out.push(((n >> 40) & 0xff) as u8);
    out.push(((n >> 32) & 0xff) as u8);
    out.push(((n >> 24) & 0xff) as u8);
    out.push(((n >> 16) & 0xff) as u8);
    out.push(((n >> 8) & 0xff) as u8);
    out.push((n & 0xff) as u8);
    proof {
        assert(out@ =~= old(out)@ + spec_u64_be(n));
    }
}

/// The injective framing of the fingerprint's components: each part stands as
/// its length in eight big-endian bytes followed by its bytes.
pub open spec fn spec_encode_parts(parts: Seq<Seq<u8>>) -> Seq<u8>
    decreases parts.len(),
{
    if parts.len() == 0 {
        Seq::empty()
    } else {
        spec_u64_be(parts.first().len() as u64) + parts.first() + spec_encode_parts(
            parts.drop_first(),
        )
    }
}

/// Frame a list of byte parts.
pub fn encode_parts(parts: &Vec<Vec<u8>>) -> (r: Vec<u8>)
    ensures
        r@ == spec_encode_parts(parts@.map_values(|p: Vec<u8>| p@)),
{
    let ghost all = parts@.map_values(|p: Vec<u8>| p@);
    let mut r: Vec<u8> = Vec::new();
    let n = parts.len();
    let mut i: usize = 0;
    proof {
        assert(all.skip(0) =~= all);
        assert(r@ =~= Seq::<u8>::empty());
    }
    while i < n
        invariant
            n == parts@.len(),
            i <= n,
            all == parts@.map_values(|p: Vec<u8>| p@),
            r@ + spec_encode_parts(all.skip(i as int)) == spec_encode_parts(all),
        decreases n - i,
    {
        let part = &parts[i];
        push_u64_be(&mut r, part.len() as u64);
        let mut k: usize = 0;
        let m = part.len();
        let ghost mid = r@;
        while k < m
            invariant
                m == part@.len(),
                k <= m,
                r@ == mid + part@.take(k as int),
            decreases m - k,
        {
            r.push(part[k]);
            proof {
                assert(r@ =~= mid + part@.take(k as int + 1));
            }
            k += 1;
        }
        proof {
            assert(part@.take(m as int) =~= part@);
            assert(all.skip(i as int).first() == all[i as int]);
            assert(all.skip(i as int).drop_first() =~= all.skip(i as int + 1));
        }
        i += 1;
    }
    proof {
        assert(all.skip(n as int) =~= Seq::<Seq<u8>>::empty());
        assert(r@ =~= r@ + spec_encode_parts(Seq::<Seq<u8>>::empty()));
    }
    r
}

proof fn lemma_encode_parts_min_len(parts: Seq<Seq<u8>>)
    requires
        parts.len() > 0,
    ensures
        spec_encode_parts(parts).len() >= 8,
{
}

/// The framing is injective: equal framings come only from equal part lists,
/// as long as no part is too long for its eight-byte length.
#[verifier::rlimit(60)]
pub proof fn lemma_encode_parts_injective(a: Seq<Seq<u8>>, b: Seq<Seq<u8>>)
    requires
        spec_encode_parts(a) == spec_encode_parts(b),
        forall|i: int| 0 <= i < a.len() ==> (#[trigger] a[i]).len() <= u64::MAX,
        forall|i: int| 0 <= i < b.len() ==> (#[trigger] b[i]).len() <= u64::MAX,
    ensures
        a == b,
    decreases a.len(),
{
    let ea = spec_encode_parts(a);
    let eb = spec_encode_parts(b);
    if a.len() == 0 {
        if b.len() > 0 {
            lemma_encode_parts_min_len(b);
        }
    } else if b.len() == 0 {
        lemma_encode_parts_min_len(a);
    } else {
        let la = a.first().len() as u64;
        let lb = b.first().len() as u64;
        assert(ea =~= spec_u64_be(la) + a.first() + spec_encode_parts(a.drop_first()));
        assert(eb =~= spec_u64_be(lb) + b.first() + spec_encode_parts(b.drop_first()));
        assert(ea.subrange(0, 8) =~= spec_u64_be(la));
        assert(eb.subrange(0, 8) =~= spec_u64_be(lb));
        lemma_u64_be_injective(la, lb);
        assert(a.first().len() == b.first().len());
        let pl = a.first().len() as int;
        assert(ea.subrange(8, 8 + pl) =~= a.first());
        assert(eb.subrange(8, 8 + pl) =~= b.first());
        assert(a.first() =~= b.first());
        assert(ea.subrange(8 + pl, ea.len() as int) =~= spec_encode_parts(a.drop_first()));
        assert(eb.subrange(8 + pl, eb.len() as int) =~= spec_encode_parts(b.drop_first()));
        assert(forall|i: int|
            0 <= i < a.drop_first().len() ==> (#[trigger] a.drop_first()[i]) == a[i + 1]);
        assert(forall|i: int|
            0 <= i < b.drop_first().len() ==> (#[trigger] b.drop_first()[i]) == b[i + 1]);
        lemma_encode_parts_injective(a.drop_first(), b.drop_first());
        assert(a.len() == b.len());
        assert forall|i: int| 0 <= i < a.len() implies a[i] == b[i] by {
            if i == 0 {
                assert(a[0] == a.first());
                assert(b[0] == b.first());
            } else {
                assert(a.drop_first()[i - 1] == a[i]);
                assert(b.drop_first()[i - 1] == b[i]);
            }
        }
        assert(a =~= b);
    }
}

/// The fingerprint of a list of framed parts: the hex form of their digest.
pub open spec fn spec_fingerprint(parts: Seq<Seq<u8>>) -> Seq<char> {
    spec_hex_of(sha1_of(spec_encode_parts(parts)))
}

/// Digest a framed list of byte parts into a hex key.
pub fn fingerprint_key(parts: &Vec<Vec<u8>>) -> (r: String)
    ensures
        r@ == spec_fingerprint(parts@.map_values(|p: Vec<u8>| p@)),
{
    let encoded = encode_parts(parts);
    let digest = sha1_digest(&encoded);
    hex_encode(&digest)
}

/// Fingerprint determinism: the key is a function of the parts alone, so for
/// identical components it is the same across runs, processes, and machines.
pub proof fn lemma_fingerprint_deterministic(parts1: Seq<Seq<u8>>, parts2: Seq<Seq<u8>>)
    requires
        parts1 == parts2,
    ensures
        spec_fingerprint(parts1) == spec_fingerprint(parts2),
{
}

/// Fingerprint sensitivity, up to the collision resistance of the digest:
/// distinct part lists are never fed to the digest as the same bytes, so the
/// keys of two distinct inputs differ unless SHA-1 itself collides on two
/// distinct byte strings (which no contract here can exclude).
pub proof fn lemma_fingerprint_sensitivity(parts1: Seq<Seq<u8>>, parts2: Seq<Seq<u8>>)
    requires
        parts1 != parts2,
        forall|i: int| 0 <= i < parts1.len() ==> (#[trigger] parts1[i]).len() <= u64::MAX,
        forall|i: int| 0 <= i < parts2.len() ==> (#[trigger] parts2[i]).len() <= u64::MAX,
    ensures
        spec_encode_parts(parts1) != spec_encode_parts(parts2),
{
    if spec_encode_parts(parts1) == spec_encode_parts(parts2) {
        lemma_encode_parts_injective(parts1, parts2);
    }
}

/// The parts of each environment binding, name then value, in order.
pub open spec fn spec_env_parts(env: Seq<(Seq<u8>, Seq<u8>)>) -> Seq<Seq<u8>>
    decreases env.len(),
{
    if env.len() == 0 {
        Seq::empty()
    } else {
        spec_env_parts(env.drop_last()) + seq![env.last().0, env.last().1]
    }
}

/// The framed components of one compilation's fingerprint: the compiler's
/// identity, the argument count and each argument, the working directory, the
/// binding count and each environment binding, and the preprocessed source.
/// The counts keep the variable-length runs from blending into each other.
pub open spec fn spec_compilation_parts(
    compiler_id: Seq<u8>,
    arguments: Seq<Seq<u8>>,
    cwd: Seq<u8>,
    env_vars: Seq<(Seq<u8>, Seq<u8>)>,
    preprocessed: Seq<u8>,
) -> Seq<Seq<u8>> {
    seq![compiler_id, spec_u64_be(arguments.len() as u64)] + arguments + seq![
        cwd,
        spec_u64_be(env_vars.len() as u64),
    ] + spec_env_parts(env_vars) + seq![preprocessed]
}

/// The fingerprint of one compilation, digesting a stable identifier of the
/// compiler binary, the canonicalized arguments, the working directory, the
/// environment variables the compiler is known to consult, and the
/// preprocessed source text.
pub fn compilation_fingerprint(
    compiler_id: &Vec<u8>,
    arguments: &Vec<String>,
    cwd: &str,
    env_vars: &Vec<(String, String)>,
    preprocessed: &Vec<u8>,
) -> (r: String)
    ensures
        r@ == spec_fingerprint(
            spec_compilation_parts(
                compiler_id@,
                arguments@.map_values(|a: String| encode_utf8(a@)),
                encode_utf8(cwd@),
                env_vars@.map_values(
                    |nv: (String, String)| (encode_utf8(nv.0@), encode_utf8(nv.1@)),
                ),
                preprocessed@,
            ),
        ),
{
    let ghost args_bytes = arguments@.map_values(|a: String| encode_utf8(a@));
    let ghost env_bytes = env_vars@.map_values(
        |nv: (String, String)| (encode_utf8(nv.0@), encode_utf8(nv.1@)),
    );
    let mut parts: Vec<Vec<u8>> = Vec::new();
    parts.push(crate::entry::clone_bytes(compiler_id));
    let mut count_bytes: Vec<u8> = Vec::new();
    push_u64_be(&mut count_bytes, arguments.len() as u64);
    parts.push(count_bytes);
    let ghost head = parts@.map_values(|p: Vec<u8>| p@);
    proof {
        assert(head =~= seq![compiler_id@, spec_u64_be(args_bytes.len() as u64)]);
    }
    let n = arguments.len();
    let mut i: usize = 0;
    proof {
        assert(args_bytes.take(0) =~= Seq::<Seq<u8>>::empty());
        assert(parts@.map_values(|p: Vec<u8>| p@) =~= head + args_bytes.take(0));
    }
    while i < n
        invariant
            n == arguments@.len(),
            i <= n,
            args_bytes == arguments@.map_values(|a: String| encode_utf8(a@)),
            parts@.map_values(|p: Vec<u8>| p@) == head + args_bytes.take(i as int),
        decreases n - i,
    {
        let ghost before = parts@.map_values(|p: Vec<u8>| p@);
        parts.push(arguments[i].as_str().as_bytes_vec());
        proof {
            assert(parts@.map_values(|p: Vec<u8>| p@) =~= before + seq![args_bytes[i as int]]);
            assert(args_bytes.take(i as int + 1) =~= args_bytes.take(i as int) + seq![
                args_bytes[i as int],
            ]);
            assert(parts@.map_values(|p: Vec<u8>| p@) =~= head + args_bytes.take(i as int + 1));
        }
        i += 1;
    }
    proof {
        assert(args_bytes.take(n as int) =~= args_bytes);
    }
    parts.push(cwd.as_bytes_vec());
    let mut env_count_bytes: Vec<u8> = Vec::new();
    push_u64_be(&mut env_count_bytes, env_vars.len() as u64);
    parts.push(env_count_bytes);
    let ghost head2 = parts@.map_values(|p: Vec<u8>| p@);
    proof {
        assert(head2 =~= head + args_bytes + seq![
            encode_utf8(cwd@),
            spec_u64_be(env_bytes.len() as u64),
        ]);
        assert(spec_env_parts(env_bytes.take(0)) =~= Seq::<Seq<u8>>::empty());
        assert(parts@.map_values(|p: Vec<u8>| p@) =~= head2 + spec_env_parts(env_bytes.take(0)));
    }
    let m = env_vars.len();
    let mut k: usize = 0;
    while k < m
        invariant
            m == env_vars@.len(),
            k <= m,
            env_bytes == env_vars@.map_values(
                |nv: (String, String)| (encode_utf8(nv.0@), encode_utf8(nv.1@)),
            ),
            parts@.map_values(|p: Vec<u8>| p@) == head2 + spec_env_parts(env_bytes.take(k as int)),
        decreases m - k,
    {
        let ghost before = parts@.map_values(|p: Vec<u8>| p@);
        parts.push(env_vars[k].0.as_str().as_bytes_vec());
        parts.push(env_vars[k].1.as_str().as_bytes_vec());
        proof {
            assert(parts@.map_values(|p: Vec<u8>| p@) =~= before + seq![
                env_bytes[k as int].0,
                env_bytes[k as int].1,
            ]);
            assert(env_bytes.take(k as int + 1).drop_last() =~= env_bytes.take(k as int));
            assert(env_bytes.take(k as int + 1).last() == env_bytes[k as int]);
            assert(parts@.map_values(|p: Vec<u8>| p@) =~= head2 + spec_env_parts(
                env_bytes.take(k as int + 1),
            ));
        }
        k += 1;
    }
    proof {
        assert(env_bytes.take(m as int) =~= env_bytes);
    }
    let ghost before_last = parts@.map_values(|p: Vec<u8>| p@);
    parts.push(crate::entry::clone_bytes(preprocessed));
    proof {
        assert(parts@.map_values(|p: Vec<u8>| p@) =~= before_last + seq![preprocessed@]);
        assert(parts@.map_values(|p: Vec<u8>| p@) =~= spec_compilation_parts(
            compiler_id@,
            args_bytes,
            encode_utf8(cwd@),
            env_bytes,
            preprocessed@,
        ));
    }
    fingerprint_key(&parts)
}

/// Sensitivity at the level of the fingerprint's named components: a change
/// to the compiler's identity, to the argument list, or to the preprocessed
/// source changes the framed part list, and so (by the framing's injectivity)
/// the bytes the digest sees.
pub proof fn lemma_component_sensitivity(
    cid1: Seq<u8>,
    args1: Seq<Seq<u8>>,
    cwd: Seq<u8>,
    env: Seq<(Seq<u8>, Seq<u8>)>,
    pre1: Seq<u8>,
    cid2: Seq<u8>,
    args2: Seq<Seq<u8>>,
    pre2: Seq<u8>,
)
    requires
        cid1 != cid2 || args1 != args2 || pre1 != pre2,
        args1.len() <= u64::MAX,
        args2.len() <= u64::MAX,
    ensures
        spec_compilation_parts(cid1, args1, cwd, env, pre1) != spec_compilation_parts(
            cid2,
            args2,
            cwd,
            env,
            pre2,
        ),
{
    let p1 = spec_compilation_parts(cid1, args1, cwd, env, pre1);
    let p2 = spec_compilation_parts(cid2, args2, cwd, env, pre2);
    if p1 == p2 {
        assert(p1[0] == cid1);
        assert(p2[0] == cid2);
        assert(p1.last() == pre1);
        assert(p2.last() == pre2);
        assert(p1[1] == spec_u64_be(args1.len() as u64));
        assert(p2[1] == spec_u64_be(args2.len() as u64));
        assert(p1.len() == p2.len());
        lemma_u64_be_injective(args1.len() as u64, args2.len() as u64);
        assert(args1.len() == args2.len());
        assert forall|i: int| 0 <= i < args1.len() implies args1[i] == args2[i] by {
            assert(p1[2 + i] == args1[i]);
            assert(p2[2 + i] == args2[i]);
        }
        assert(args1 =~= args2);
        assert(pre1 == pre2 && cid1 == cid2 && args1 == args2);
    }
}

} // verus!
