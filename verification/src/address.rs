//! Account addresses and their derivation from seeds.
//!
//! A derived address is computed from an ordered list of seeds and the
//! identity of a program. It has no private key, so only that program can
//! act for it, by replaying the seeds. Two forms are offered: a search, which
//! also finds the bump byte that makes the derivation land on a usable
//! address, and a replay, which hashes once with a bump that is already known.

use vstd::prelude::*;

verus! {

/// The address of an account: 32 bytes.
#[derive(Clone, Copy, Debug, PartialEq, Eq, Hash)]
pub struct Address {
    pub bytes: [u8; 32],
}

impl View for Address {
    type V = Seq<u8>;

    open spec fn view(&self) -> Seq<u8> {
        self.bytes@
    }
}

/// Two addresses with the same bytes are the same address.
pub proof fn lemma_address_view_injective(a: Address, b: Address)
    requires
        a@ == b@,
    ensures
        a == b,
{
    assert(a.bytes =~= b.bytes) by {
        assert forall|i: int| 0 <= i < 32 implies a.bytes[i] == b.bytes[i] by {
        }
    }
}

impl Address {
    /// Wraps 32 bytes as an address.
    pub fn new_from_array(bytes: [u8; 32]) -> (r: Address)
        ensures
            r.bytes == bytes,
    {
        Address { bytes }
    }

    /// The 32 bytes of the address.
    pub fn to_bytes(&self) -> (r: [u8; 32])
        ensures
            r == self.bytes,
    {
        self.bytes
    }

    /// The bytes of the address as a vector, as seeds are passed.
    pub fn to_vec(&self) -> (r: Vec<u8>)
        ensures
            r@ == self@,
    {
        let mut out: Vec<u8> = Vec::new();
        push_address(&mut out, self);
        out
    }

    /// Whether two addresses are the same.
    pub fn same(&self, other: &Address) -> (r: bool)
        ensures
            r == (*self == *other),
    {
        let mut i: usize = 0;
        while i < 32
            invariant
                i <= 32,
                forall|j: int| 0 <= j < i ==> self.bytes[j] == other.bytes[j],
            decreases 32 - i,
        {
            if self.bytes[i] != other.bytes[i] {
                return false;
            }
            i = i + 1;
        }
        assert(self.bytes =~= other.bytes);
        true
    }
}

/// The seeds of a derivation as plain byte strings.
pub open spec fn seed_bytes(seeds: Seq<Vec<u8>>) -> Seq<Seq<u8>> {
    Seq::new(seeds.len(), |i: int| seeds[i]@)
}

/// The declaration of the error type of `solana_address`'s derivation.
#[verifier::external_type_specification]
#[verifier::external_body]
pub struct ExAddressError(solana_address::error::AddressError);

/// The address that `solana_address::Address::create_program_address`
/// derives from `seeds` for the program `program_id`, or `None` where it
/// reports an error: too many seeds, a seed that is too long, or a hash that
/// lands on the curve.
pub uninterp spec fn program_address(seeds: Seq<Seq<u8>>, program_id: Seq<u8>) -> Option<Seq<u8>>;

/// The first bump, counting down from `from` to 1, with which the seeds
/// derive an address, together with that address; `None` where no bump from
/// `from` down to 1 derives one.
pub open spec fn first_bump(seeds: Seq<Seq<u8>>, program_id: Seq<u8>, from: int) -> Option<
    (Seq<u8>, u8),
>
    decreases from,
{
    if from < 1 || from > 255 {
        None
    } else {
        match program_address(seeds.push(seq![from as u8]), program_id) {
            Some(address) => Some((address, from as u8)),
            None => first_bump(seeds, program_id, from - 1),
        }
    }
}

/// The address and the bump that the search finds for `seeds` and the
/// program `program_id`: the bumps are tried from 255 down to 1, and the
/// first with which the seeds derive an address is taken. A bump of 0 is
/// never tried.
pub open spec fn found_address(seeds: Seq<Seq<u8>>, program_id: Seq<u8>) -> Option<
    (Seq<u8>, u8),
> {
    first_bump(seeds, program_id, 255)
}

/// A bump that the search finds derives the address that the search finds,
/// lies between 1 and the bump at which the search started, and every bump
/// above it that was tried derives nothing.
pub proof fn lemma_first_bump(seeds: Seq<Seq<u8>>, program_id: Seq<u8>, from: int)
    ensures
        first_bump(seeds, program_id, from) matches Some((address, bump)) ==> 1 <= bump <= from
            && program_address(seeds.push(seq![bump]), program_id) == Some(address) && (forall|
            higher: int,
        |
            bump < higher <= from ==> (#[trigger] program_address(
                seeds.push(seq![higher as u8]),
                program_id,
            )) is None),
        first_bump(seeds, program_id, from) is None && 1 <= from <= 255 ==> (forall|tried: int|
            1 <= tried <= from ==> (#[trigger] program_address(
                seeds.push(seq![tried as u8]),
                program_id,
            )) is None),
    decreases from,
{
    if 1 <= from <= 255 {
        lemma_first_bump(seeds, program_id, from - 1);
    }
}

/// Calls `solana_address::Address::create_program_address`.
///
/// Trusted: the call succeeds exactly where `program_address` is `Some`, and
/// then returns that address. The outside function hashes the seeds, the
/// program id and a fixed marker once, and depends on nothing else.
#[verifier::external_body]
fn create_program_address(seeds: &Vec<Vec<u8>>, program_id: &Address) -> (r: Result<
    Address,
    solana_address::error::AddressError,
>)
    ensures
        r is Ok <==> program_address(seed_bytes(seeds@), program_id@) is Some,
        r matches Ok(a) ==> program_address(seed_bytes(seeds@), program_id@) == Some(a@),
{
    let mut parts: Vec<&[u8]> = Vec::new();
    for seed in seeds.iter() {
        parts.push(seed.as_slice());
    }
    let program = solana_address::Address::new_from_array(program_id.bytes);
    match solana_address::Address::create_program_address(&parts, &program) {
        Ok(a) => Ok(Address { bytes: a.to_bytes() }),
        Err(e) => Err(e),
    }
}

/// Calls `solana_address::Address::try_find_program_address`.
///
/// Trusted: the result is `found_address` of the arguments. The outside
/// function tries the bumps from 255 down to 1 and returns the first for
/// which `create_program_address` on the seeds followed by that bump
/// succeeds, together with the address of that call; it returns `None`
/// where none succeeds, and that includes sixteen or more seeds and a seed
/// of more than 32 bytes, for which no call succeeds.
#[verifier::external_body]
fn try_find_program_address(seeds: &Vec<Vec<u8>>, program_id: &Address) -> (r: Option<
    (Address, u8),
>)
    ensures
        r is Some <==> found_address(seed_bytes(seeds@), program_id@) is Some,
        r matches Some((a, bump)) ==> found_address(seed_bytes(seeds@), program_id@) == Some(
            (a@, bump),
        ),
{
    let mut parts: Vec<&[u8]> = Vec::new();
    for seed in seeds.iter() {
        parts.push(seed.as_slice());
    }
    let program = solana_address::Address::new_from_array(program_id.bytes);
    match solana_address::Address::try_find_program_address(&parts, &program) {
        Some((a, bump)) => Some((Address { bytes: a.to_bytes() }, bump)),
        None => None,
    }
}

/// What `derive_address` returns: the found address and bump, as an `Address`.
pub open spec fn derive_address_spec(seeds: Seq<Seq<u8>>, program_id: Address) -> Option<
    (Address, u8),
> {
    match found_address(seeds, program_id@) {
        Some((bytes, bump)) => if bytes.len() == 32 {
            Some((address_of(bytes), bump))
        } else {
            None
        },
        None => None,
    }
}

/// What `derive_address_with_bump` returns: the address derived from the
/// seeds followed by the bump.
pub open spec fn derive_with_bump_spec(
    seeds: Seq<Seq<u8>>,
    bump: u8,
    program_id: Address,
) -> Option<Address> {
    program_address_of_spec(seeds.push(seq![bump]), program_id)
}

/// An array whose first `k` bytes are those of `bytes`.
pub closed spec fn array_with(bytes: Seq<u8>, k: nat) -> [u8; 32]
    decreases k,
{
    if k == 0 {
        vstd::array::spec_array_fill_for_copy_type::<u8, 32>(0u8)
    } else {
        vstd::array::spec_array_update(array_with(bytes, (k - 1) as nat), k - 1, bytes[k - 1])
    }
}

proof fn lemma_array_with(bytes: Seq<u8>, k: nat)
    requires
        k <= 32,
    ensures
        forall|i: int| 0 <= i < k ==> array_with(bytes, k)@[i] == bytes[i],
    decreases k,
{
    broadcast use vstd::array::axiom_spec_array_update;

    if k > 0 {
        lemma_array_with(bytes, (k - 1) as nat);
    }
}

/// The address with the given 32 bytes.
pub open spec fn address_of(bytes: Seq<u8>) -> Address
    recommends
        bytes.len() == 32,
{
    Address { bytes: array_with(bytes, 32) }
}

/// The view undoes `address_of`.
pub proof fn lemma_address_of_bytes(bytes: Seq<u8>)
    requires
        bytes.len() == 32,
    ensures
        address_of(bytes)@ == bytes,
{
    lemma_array_with(bytes, 32);
}

/// `address_of` undoes the view.
pub proof fn lemma_address_of_view(a: Address)
    ensures
        address_of(a@) == a,
{
    lemma_address_of_bytes(a@);
    lemma_address_view_injective(a, address_of(a@));
}

/// Reads the address held by the 32 bytes of `data` that start at `at`.
pub fn read_address(data: &[u8], at: usize) -> (r: Address)
    requires
        at + 32 <= data.len(),
    ensures
        r == address_of(data@.subrange(at as int, at + 32)),
{
    let mut bytes: [u8; 32] = [0u8; 32];
    let mut i: usize = 0;
    while i < 32
        invariant
            i <= 32,
            at + 32 <= data.len(),
            forall|j: int| 0 <= j < i ==> bytes@[j] == data@[at + j],
        decreases 32 - i,
    {
        bytes[i] = data[at + i];
        i = i + 1;
    }
    let r = Address { bytes };
    proof {
        assert(r@ =~= data@.subrange(at as int, at + 32));
        lemma_address_of_view(r);
    }
    r
}

/// Appends the 32 bytes of `address` to `out`.
pub fn push_address(out: &mut Vec<u8>, address: &Address)
    ensures
        final(out)@ == old(out)@ + address@,
{
    let mut i: usize = 0;
    while i < 32
        invariant
            i <= 32,
            out@ == old(out)@ + address@.subrange(0, i as int),
        decreases 32 - i,
    {
        out.push(address.bytes[i]);
        i = i + 1;
    }
}

/// The seeds followed by a bump, as they are replayed.
pub fn with_bump(seeds: Vec<Vec<u8>>, bump: u8) -> (r: Vec<Vec<u8>>)
    ensures
        seed_bytes(r@) == seed_bytes(seeds@).push(seq![bump]),
{
    let mut all = seeds;
    let mut last: Vec<u8> = Vec::new();
    last.push(bump);
    all.push(last);
    all
}

/// What `program_address_of` returns: the address that the seeds, taken as
/// they are, derive for the program.
pub open spec fn program_address_of_spec(seeds: Seq<Seq<u8>>, program_id: Address) -> Option<
    Address,
> {
    match program_address(seeds, program_id@) {
        Some(bytes) => if bytes.len() == 32 {
            Some(address_of(bytes))
        } else {
            None
        },
        None => None,
    }
}

/// The address that the seeds, taken as they are, derive for the program;
/// `None` where they derive none.
pub fn program_address_of(seeds: &Vec<Vec<u8>>, program_id: &Address) -> (r: Option<Address>)
    ensures
        r == program_address_of_spec(seed_bytes(seeds@), *program_id),
{
    match create_program_address(seeds, program_id) {
        Ok(a) => {
            proof {
                lemma_address_of_view(a);
            }
            Some(a)
        },
        Err(_) => None,
    }
}

/// The search form of derivation: the address that the seeds derive for the
/// program, and the bump with which they derive it. The bump is the
/// largest, from 255 down to 1, with which the seeds derive an address.
///
/// It returns `None` only where no bump leads to a usable address.
pub fn derive_address(seeds: &Vec<Vec<u8>>, program_id: &Address) -> (r: Option<(Address, u8)>)
    ensures
        r == derive_address_spec(seed_bytes(seeds@), *program_id),
        r matches Some((a, bump)) ==> bump >= 1 && derive_with_bump_spec(
            seed_bytes(seeds@),
            bump,
            *program_id,
        ) == Some(a),
{
    let found = try_find_program_address(seeds, program_id);
    proof {
        lemma_first_bump(seed_bytes(seeds@), program_id@, 255);
        if let Some((a, bump)) = found {
            lemma_address_of_view(a);
        }
    }
    found
}

/// The replay form of derivation: the address that the seeds followed by a
/// known bump derive for the program, by hashing once.
pub fn derive_address_with_bump(seeds: &Vec<Vec<u8>>, bump: u8, program_id: &Address) -> (r:
    Option<Address>)
    ensures
        r == derive_with_bump_spec(seed_bytes(seeds@), bump, *program_id),
{
    let mut all: Vec<Vec<u8>> = Vec::new();
    let mut i: usize = 0;
    while i < seeds.len()
        invariant
            i <= seeds.len(),
            all.len() == i,
            forall|j: int| 0 <= j < i ==> all@[j]@ == seeds@[j]@,
        decreases seeds.len() - i,
    {
        let seed = seeds[i].clone();
        all.push(seed);
        i = i + 1;
    }
    assert(seed_bytes(all@) =~= seed_bytes(seeds@));
    program_address_of(&with_bump(all, bump), program_id)
}

/// Derivation is a function of its inputs: the same seeds and the same
/// program give the same address and the same bump, in both forms.
pub proof fn lemma_derivation_is_deterministic(
    seeds_a: Seq<Seq<u8>>,
    program_a: Address,
    seeds_b: Seq<Seq<u8>>,
    program_b: Address,
    bump: u8,
)
    requires
        seeds_a == seeds_b,
        program_a == program_b,
    ensures
        derive_address_spec(seeds_a, program_a) == derive_address_spec(seeds_b, program_b),
        derive_with_bump_spec(seeds_a, bump, program_a) == derive_with_bump_spec(
            seeds_b,
            bump,
            program_b,
        ),
{
}

} // verus!
