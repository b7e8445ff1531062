use vstd::prelude::*;
use anchor_lang::prelude::Pubkey;

verus! {

/// A 32-byte account address.
pub type Key = [u8; 32];

/// The domain tag that begins a derivation: the escrow record or its custody wallet.
#[derive(Clone, Copy, PartialEq, Eq, Debug)]
pub enum SeedTag {
    State,
    Wallet,
}

impl SeedTag {
    /// The tag's bytes: `"state"` or `"wallet"` in ASCII.
    pub open spec fn bytes(self) -> Seq<u8> {
        match self {
            SeedTag::State => seq![115u8, 116u8, 97u8, 116u8, 101u8],
            SeedTag::Wallet => seq![119u8, 97u8, 108u8, 108u8, 101u8, 116u8],
        }
    }

    pub fn to_bytes(&self) -> (r: Vec<u8>)
        ensures
            r@ == self.bytes(),
    {
        match self {
            SeedTag::State => vec![115u8, 116u8, 97u8, 116u8, 101u8],
            SeedTag::Wallet => vec![119u8, 97u8, 108u8, 108u8, 101u8, 116u8],
        }
    }
}

/// The first `k` little-endian bytes of `n`.
pub open spec fn le_bytes(n: nat, k: nat) -> Seq<u8>
    decreases k,
{
    if k == 0 {
        Seq::empty()
    } else {
        seq![(n % 256) as u8] + le_bytes(n / 256, (k - 1) as nat)
    }
}

/// What an outside address derivation yields for the seeds and the program id:
/// `None` where no valid derived address exists.
pub uninterp spec fn program_address(seeds: Seq<Seq<u8>>, program_id: Seq<u8>) -> Option<Seq<u8>>;

pub open spec fn key_opt_view(k: Option<Key>) -> Option<Seq<u8>> {
    match k {
        Some(a) => Some(a@),
        None => None,
    }
}

/// The byte sequences held by a list of seeds.
pub open spec fn seeds_view(seeds: Seq<Vec<u8>>) -> Seq<Seq<u8>> {
    seeds.map_values(|s: Vec<u8>| s@)
}

/// The seeds of one escrow instance: the tag, the two parties, the token mint, the
/// instance index in little-endian bytes, and the one-byte derivation salt.
pub open spec fn escrow_seeds(
    tag: SeedTag,
    sender: Seq<u8>,
    receiver: Seq<u8>,
    mint: Seq<u8>,
    idx: u64,
    bump: u8,
) -> Seq<Seq<u8>> {
    seq![tag.bytes(), sender, receiver, mint, le_bytes(idx as nat, 8), seq![bump]]
}

/// Relies on `Pubkey::create_program_address`: it fails for more than 16 seeds or
/// for a seed longer than 32 bytes, and otherwise yields an address that depends on
/// the seeds and the program id alone.
#[verifier::external_body]
fn create_program_address(seeds: &Vec<Vec<u8>>, program_id: &Key) -> (r: Option<Key>)
    ensures
        key_opt_view(r) == program_address(seeds_view(seeds@), program_id@),
        seeds@.len() > 16 ==> r is None,
        (exists|i: int| 0 <= i < seeds@.len() && #[trigger] seeds@[i]@.len() > 32) ==> r is None,
{
    let parts: Vec<&[u8]> = seeds.iter().map(|s| s.as_slice()).collect();
    let id = Pubkey::new_from_array(*program_id);
    Pubkey::create_program_address(&parts, &id).ok().map(|k| k.to_bytes())
}

/// The little-endian bytes of `n`, as `u64::to_le_bytes` lays them out.
pub fn u64_to_le_bytes(n: u64) -> (r: Vec<u8>)
    ensures
        r@ == le_bytes(n as nat, 8),
{
    let mut out: Vec<u8> = Vec::new();
    let mut x: u64 = n;
    let mut i: usize = 0;
    while i < 8
        invariant
            i <= 8,
            out@.len() == i,
            out@ + le_bytes(x as nat, (8 - i) as nat) == le_bytes(n as nat, 8),
        decreases 8 - i,
    {
        let b: u8 = (x % 256) as u8;
        proof {
            let rest = le_bytes((x / 256) as nat, (8 - i - 1) as nat);
            assert(le_bytes(x as nat, (8 - i) as nat) == seq![b] + rest);
            assert(out@.push(b) + rest =~= out@ + (seq![b] + rest));
        }
        out.push(b);
        x = x / 256;
        i = i + 1;
    }
    proof {
        assert(out@ + le_bytes(x as nat, 0) =~= out@);
    }
    out
}

/// The bytes of an address, as a vector.
pub fn key_bytes(k: &Key) -> (r: Vec<u8>)
    ensures
        r@ == k@,
{
    let mut out: Vec<u8> = Vec::new();
    let mut i: usize = 0;
    while i < 32
        invariant
            i <= 32,
            k@.len() == 32,
            out@ == k@.subrange(0, i as int),
        decreases 32 - i,
    {
        out.push(k[i]);
        i = i + 1;
        assert(out@ =~= k@.subrange(0, i as int));
    }
    assert(k@.subrange(0, 32) =~= k@);
    out
}

/// Whether two addresses are the same bytes.
pub fn addresses_equal(a: &Key, b: &Key) -> (r: bool)
    ensures
        r == (a@ == b@),
{
    let mut i: usize = 0;
    while i < 32
        invariant
            i <= 32,
            a@.len() == 32,
            b@.len() == 32,
            forall|j: int| 0 <= j < i ==> a@[j] == b@[j],
        decreases 32 - i,
    {
        if a[i] != b[i] {
            return false;
        }
        i = i + 1;
    }
    assert(a@ =~= b@);
    true
}

/// Derives the address of an escrow record (`SeedTag::State`) or of its custody
/// wallet (`SeedTag::Wallet`) from the instance's tuple and its salt. `None` where the
/// salt gives no valid derived address.
pub fn derive_address(
    program_id: &Key,
    tag: SeedTag,
    sender: &Key,
    receiver: &Key,
    mint: &Key,
    idx: u64,
    bump: u8,
) -> (r: Option<Key>)
    ensures
        key_opt_view(r) == program_address(
            escrow_seeds(tag, sender@, receiver@, mint@, idx, bump),
            program_id@,
        ),
{
    let mut seeds: Vec<Vec<u8>> = Vec::new();
    seeds.push(tag.to_bytes());
    seeds.push(key_bytes(sender));
    seeds.push(key_bytes(receiver));
    seeds.push(key_bytes(mint));
    seeds.push(u64_to_le_bytes(idx));
    let salt: Vec<u8> = vec![bump];
    assert(salt@ =~= seq![bump]);
    seeds.push(salt);
    assert(seeds_view(seeds@) =~= escrow_seeds(tag, sender@, receiver@, mint@, idx, bump));
    create_program_address(&seeds, program_id)
}

/// Derivation is a pure function of its inputs: the same program, tag, parties,
/// mint, index and salt always give the same derived address.
pub proof fn derivation_is_deterministic(
    program_id: Seq<u8>,
    tag: SeedTag,
    sender: Seq<u8>,
    receiver: Seq<u8>,
    mint: Seq<u8>,
    idx: u64,
    bump: u8,
    program_id2: Seq<u8>,
    tag2: SeedTag,
    sender2: Seq<u8>,
    receiver2: Seq<u8>,
    mint2: Seq<u8>,
    idx2: u64,
    bump2: u8,
)
    requires
        program_id == program_id2,
        tag == tag2,
        sender == sender2,
        receiver == receiver2,
        mint == mint2,
        idx == idx2,
        bump == bump2,
    ensures
        program_address(escrow_seeds(tag, sender, receiver, mint, idx, bump), program_id)
            == program_address(
            escrow_seeds(tag2, sender2, receiver2, mint2, idx2, bump2),
            program_id2,
        ),
{
}

} // verus!
