//! The namespace program: a forum's name and URI, one namespace a tree.

use vstd::prelude::*;
use vstd::utf8::{encode_utf8, encode_scalar};
use crate::pubkey::Pubkey;

verus! {

pub const MAX_NAME_LENGTH: usize = 32;
pub const MAX_URI_LENGTH: usize = 200;

/// Errors of the namespace program.
#[derive(Clone, Copy, PartialEq, Eq, Structural, Debug)]
pub enum OndaNamespaceError {
    Unauthorized,
    /// The system program refuses to create an account of the instruction
    /// because it exists already (not one of the program's own codes): the
    /// name is taken, or the tree names a namespace already.
    AlreadyInUse,
}

#[derive(Clone, Debug)]
pub struct Namespace {
    /// The name, padded with NUL characters to `MAX_NAME_LENGTH` bytes.
    pub name: String,
    /// The URI, padded with NUL characters to `MAX_URI_LENGTH` bytes.
    pub uri: String,
    pub merkle_tree: Pubkey,
}

/// Ensures that a merkle tree can only be used for one namespace.
#[derive(Clone, Copy, PartialEq, Eq, Structural, Debug)]
pub struct TreeMarker {
    pub namespace: Pubkey,
}

/// The length in bytes of the UTF-8 text `s`.
pub open spec fn byte_len(s: Seq<char>) -> int {
    encode_utf8(s).len() as int
}

/// `n` NUL characters.
pub open spec fn nuls(n: int) -> Seq<char> {
    Seq::new(n as nat, |i: int| '\0')
}

/// `s` followed by as many NUL characters as make it `size` bytes long.
pub open spec fn spec_puffed_out(s: Seq<char>, size: int) -> Seq<char> {
    s + nuls(size - byte_len(s))
}

/// Pads `s` with NUL characters to `size` bytes.  `s` may not be longer
/// than `size` bytes.
pub fn puffed_out_string(s: &str, size: usize) -> (r: String)
    requires
        byte_len(s@) <= size,
    ensures
        r@ == spec_puffed_out(s@, size as int),
{
    let puff_amount: usize = size - s.len();
    let mut r = String::from_str(s);
    let mut i: usize = 0;
    proof {
        reveal_strlit("\0");
    }
    while i < puff_amount
        invariant
            0 <= i <= puff_amount,
            puff_amount == size - byte_len(s@),
            "\0"@ == seq!['\0'],
            r@ == s@ + nuls(i as int),
        decreases puff_amount - i,
    {
        r.append("\0");
        i = i + 1;
        assert(r@ =~= s@ + nuls(i as int));
    }
    r
}

/// What `create_namespace` answers, and the namespace and tree marker
/// accounts after it.  `namespace` is the account of the name and
/// `tree_marker` that of the tree, each `None` while it does not exist: the
/// name must be free, the tree not yet named, and `admin` the admin of the
/// tree's forum, `forum_admin`.  The name and URI are stored padded (see
/// `spec_puffed_out`), and the marker records the namespace account
/// `namespace_key`.
pub open spec fn spec_create_namespace(
    namespace: Option<Namespace>,
    tree_marker: Option<TreeMarker>,
    admin: Pubkey,
    forum_admin: Pubkey,
    merkle_tree: Pubkey,
    namespace_key: Pubkey,
    name: Seq<char>,
    uri: Seq<char>,
) -> Result<(Seq<char>, Seq<char>, Pubkey, TreeMarker), OndaNamespaceError> {
    if namespace is Some || tree_marker is Some {
        Err(OndaNamespaceError::AlreadyInUse)
    } else if forum_admin != admin {
        Err(OndaNamespaceError::Unauthorized)
    } else {
        Ok(
            (
                spec_puffed_out(name, MAX_NAME_LENGTH as int),
                spec_puffed_out(uri, MAX_URI_LENGTH as int),
                merkle_tree,
                TreeMarker { namespace: namespace_key },
            ),
        )
    }
}

/// Names the forum of `merkle_tree` (see `spec_create_namespace`).
pub fn create_namespace(
    namespace: &mut Option<Namespace>,
    tree_marker: &mut Option<TreeMarker>,
    admin: Pubkey,
    forum_admin: Pubkey,
    merkle_tree: Pubkey,
    namespace_key: Pubkey,
    name: &str,
    uri: &str,
) -> (r: Result<(), OndaNamespaceError>)
    requires
        byte_len(name@) <= MAX_NAME_LENGTH,
        *old(namespace) is None && *old(tree_marker) is None && forum_admin == admin ==> byte_len(uri@)
            <= MAX_URI_LENGTH,
    ensures
        match spec_create_namespace(
            *old(namespace),
            *old(tree_marker),
            admin,
            forum_admin,
            merkle_tree,
            namespace_key,
            name@,
            uri@,
        ) {
            Err(e) => r == Err::<(), OndaNamespaceError>(e) && *final(namespace) == *old(namespace)
                && *final(tree_marker) == *old(tree_marker),
            Ok((padded_name, padded_uri, tree, marker)) => {
                &&& r == Ok::<(), OndaNamespaceError>(())
                &&& *final(tree_marker) == Some(marker)
                &&& *final(namespace) matches Some(ns)
                &&& ns.name@ == padded_name
                &&& ns.uri@ == padded_uri
                &&& ns.merkle_tree == tree
            },
        },
{
    if namespace.is_some() || tree_marker.is_some() {
        return Err(OndaNamespaceError::AlreadyInUse);
    }
    if forum_admin != admin {
        return Err(OndaNamespaceError::Unauthorized);
    }
    *namespace = Some(
        Namespace {
            name: puffed_out_string(name, MAX_NAME_LENGTH),
            uri: puffed_out_string(uri, MAX_URI_LENGTH),
            merkle_tree,
        },
    );
    *tree_marker = Some(TreeMarker { namespace: namespace_key });
    Ok(())
}

/// A tree names at most one namespace, and a name at most one tree: once a
/// namespace is created, creating another with the same name, or for the
/// same tree whatever the name, fails.  (`create_namespace` takes names of
/// at most 32 bytes; a longer name is no seed of an account address, and the
/// instruction fails on it before any of this.)
pub proof fn law_one_namespace_per_tree_and_name(
    admin: Pubkey,
    forum_admin: Pubkey,
    merkle_tree: Pubkey,
    namespace_key: Pubkey,
    name: Seq<char>,
    uri: Seq<char>,
    existing: Namespace,
    other_admin: Pubkey,
    other_forum_admin: Pubkey,
    other_key: Pubkey,
    other_uri: Seq<char>,
    other_name: Seq<char>,
)
    requires
        spec_create_namespace(None, None, admin, forum_admin, merkle_tree, namespace_key, name, uri) is Ok,
    ensures
        ({
            let marker = spec_create_namespace(None, None, admin, forum_admin, merkle_tree, namespace_key, name, uri)->Ok_0.3;
            spec_create_namespace(None, Some(marker), other_admin, other_forum_admin, merkle_tree, other_key, other_name, other_uri)
                == Err::<(Seq<char>, Seq<char>, Pubkey, TreeMarker), OndaNamespaceError>(OndaNamespaceError::AlreadyInUse)
        }),
        spec_create_namespace(Some(existing), None, other_admin, other_forum_admin, merkle_tree, other_key, name, other_uri)
            == Err::<(Seq<char>, Seq<char>, Pubkey, TreeMarker), OndaNamespaceError>(OndaNamespaceError::AlreadyInUse),
{
}

proof fn lemma_encode_concat(a: Seq<char>, b: Seq<char>)
    ensures
        encode_utf8(a + b) == encode_utf8(a) + encode_utf8(b),
    decreases a.len(),
{
    if a.len() == 0 {
        assert(a + b =~= b);
        assert(encode_utf8(a) + encode_utf8(b) =~= encode_utf8(b));
    } else {
        lemma_encode_concat(a.drop_first(), b);
        assert((a + b).drop_first() =~= a.drop_first() + b);
        assert((a + b)[0] == a[0]);
        let e0 = encode_scalar(a[0] as u32);
        assert(encode_utf8(a + b) == e0 + encode_utf8(a.drop_first() + b));
        assert(e0 + (encode_utf8(a.drop_first()) + encode_utf8(b)) =~= (e0 + encode_utf8(a.drop_first()))
            + encode_utf8(b));
    }
}

/// `n` zero bytes.
pub open spec fn zero_bytes(n: int) -> Seq<u8> {
    Seq::new(n as nat, |i: int| 0u8)
}

proof fn lemma_encode_nuls(n: int)
    requires
        n >= 0,
    ensures
        encode_utf8(nuls(n)) == zero_bytes(n),
    decreases n,
{
    if n > 0 {
        assert(nuls(n).drop_first() =~= nuls(n - 1));
        assert(nuls(n)[0] == '\0');
        assert(('\0' as u32) == 0u32);
        lemma_encode_nuls(n - 1);
        assert((0u32 & 0x7Fu32) as u8 == 0u8) by (bit_vector);
        assert(encode_scalar(0u32) =~= seq![0u8]);
        assert(seq![0u8] + zero_bytes(n - 1) =~= zero_bytes(n));
    } else {
        assert(encode_utf8(nuls(n)) =~= zero_bytes(n));
    }
}

/// The padded text is exactly `size` bytes long: the bytes of `s` followed
/// by zero bytes.  As characters, it starts with `s`.
pub proof fn law_puffed_out_size(s: Seq<char>, size: int)
    requires
        byte_len(s) <= size,
    ensures
        encode_utf8(spec_puffed_out(s, size)) == encode_utf8(s) + zero_bytes(size - byte_len(s)),
        byte_len(spec_puffed_out(s, size)) == size,
        spec_puffed_out(s, size).subrange(0, s.len() as int) == s,
{
    lemma_encode_concat(s, nuls(size - byte_len(s)));
    lemma_encode_nuls(size - byte_len(s));
    assert(spec_puffed_out(s, size).subrange(0, s.len() as int) =~= s);
}

} // verus!
