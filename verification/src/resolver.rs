//! Vault addresses: how the address of an identity's vault is derived, and how
//! a claimed address is authenticated.

use vstd::prelude::*;
use anchor_lang::prelude::Pubkey;

verus! {

/// The program under which every vault address is derived: the one
/// authorization domain of this ledger.
pub const PROGRAM_ID: [u8; 32] = [
    135, 220, 11, 217, 81, 217, 142, 25, 69, 149, 115, 96, 180, 76, 20, 16,
    132, 49, 50, 209, 2, 73, 244, 101, 93, 171, 132, 110, 92, 216, 120, 112,
];

/// The label that separates vault addresses from any other address derived
/// under the same program: the bytes of `vault`.
pub const VAULT_LABEL: [u8; 5] = [118, 97, 117, 108, 116];

/// The public identifier of a user.
#[derive(Clone, Copy, Debug, PartialEq, Eq)]
pub struct Identity {
    pub bytes: [u8; 32],
}

impl View for Identity {
    type V = Seq<u8>;

    open spec fn view(&self) -> Seq<u8> {
        self.bytes@
    }
}

/// The address of a vault. It is derived, so no private key signs for it.
#[derive(Clone, Copy, Debug, PartialEq, Eq)]
pub struct VaultAddress {
    pub bytes: [u8; 32],
}

impl View for VaultAddress {
    type V = Seq<u8>;

    open spec fn view(&self) -> Seq<u8> {
        self.bytes@
    }
}

/// The proof of authority over a vault: the very inputs from which its
/// address was derived, with the discriminant that the derivation settled on.
#[derive(Debug, PartialEq, Eq)]
pub struct Capability {
    pub label: Vec<u8>,
    pub identity: Identity,
    pub discriminant: u8,
}

/// What `Pubkey::try_find_program_address` returns for the two seeds `label`
/// and `identity` under the program `program`: the derived address with its
/// bump seed, or `None` where it finds none.
pub uninterp spec fn derived_address(label: Seq<u8>, identity: Seq<u8>, program: Seq<u8>) -> Option<(Seq<u8>, u8)>;

/// Calls `Pubkey::try_find_program_address` with the seeds `label` and
/// `identity`. The contract only names the result: the address and the bump
/// seed are those of `derived_address` on the same bytes.
#[verifier::external_body]
fn find_address(label: &[u8], identity: &[u8; 32], program: &[u8; 32]) -> (r: Option<([u8; 32], u8)>)
    ensures
        match r {
            Some((address, bump)) => derived_address(label@, identity@, program@) == Some((address@, bump)),
            None => derived_address(label@, identity@, program@) is None,
        },
{
    let program_id = Pubkey::new_from_array(*program);
    Pubkey::try_find_program_address(&[label, &identity[..]], &program_id)
        .map(|found| (found.0.to_bytes(), found.1))
}

/// The canonical vault address of `identity` under `label`, with its
/// discriminant; `None` where the derivation finds no address.
pub open spec fn resolved(identity: Seq<u8>, label: Seq<u8>) -> Option<(Seq<u8>, u8)> {
    derived_address(label, identity, PROGRAM_ID@)
}

/// The bytes of an address that may be there, with its discriminant.
pub open spec fn bytes_of(found: Option<(VaultAddress, u8)>) -> Option<(Seq<u8>, u8)> {
    match found {
        Some((address, discriminant)) => Some((address@, discriminant)),
        None => None,
    }
}

/// The discriminant of `found` where `found` is the address `claimed`;
/// `None` where it is another address or none.
pub open spec fn claim(found: Option<(Seq<u8>, u8)>, claimed: Seq<u8>) -> Option<u8> {
    match found {
        Some((address, discriminant)) => if address == claimed {
            Some(discriminant)
        } else {
            None
        },
        None => None,
    }
}

/// The discriminant under which `claimed` is the vault address of `identity`
/// under `label`; `None` where it is not that address.
pub open spec fn ownership(claimed: Seq<u8>, identity: Seq<u8>, label: Seq<u8>) -> Option<u8> {
    claim(resolved(identity, label), claimed)
}

/// Whether `claimed` is the vault address of `identity` under `label`.
pub open spec fn is_vault_of(claimed: Seq<u8>, identity: Seq<u8>, label: Seq<u8>) -> bool {
    ownership(claimed, identity, label) is Some
}

/// Whether two arrays hold the same bytes.
pub fn same_bytes(a: &[u8; 32], b: &[u8; 32]) -> (r: bool)
    ensures
        r == (a@ == b@),
        r == (*a == *b),
{
    let mut i: usize = 0;
    while i < 32
        invariant
            i <= 32,
            forall|j: int| 0 <= j < i ==> a[j] == b[j],
        decreases 32 - i,
    {
        if a[i] != b[i] {
            return false;
        }
        i += 1;
    }
    assert(a@ =~= b@);
    assert(*a =~= *b);
    true
}

/// The label of the vaults, as owned bytes.
pub fn vault_label() -> (r: Vec<u8>)
    ensures
        r@ == VAULT_LABEL@,
{
    let mut label: Vec<u8> = Vec::new();
    let mut i: usize = 0;
    while i < 5
        invariant
            i <= 5,
            label@ == VAULT_LABEL@.subrange(0, i as int),
        decreases 5 - i,
    {
        label.push(VAULT_LABEL[i]);
        assert(label@ =~= VAULT_LABEL@.subrange(0, i + 1));
        i += 1;
    }
    assert(label@ =~= VAULT_LABEL@);
    label
}

/// Derives the vault address of `identity` under `domain_label`, with the
/// discriminant that the derivation settled on.
pub fn resolve(identity: &Identity, domain_label: &[u8]) -> (r: Option<(VaultAddress, u8)>)
    ensures
        bytes_of(r) == resolved(identity@, domain_label@),
{
    match find_address(domain_label, &identity.bytes, &PROGRAM_ID) {
        Some((bytes, discriminant)) => Some((VaultAddress { bytes }, discriminant)),
        None => None,
    }
}

/// Compares an address that was resolved with the address `claimed`, and
/// gives the discriminant where they are the same.
pub fn claimed_discriminant(found: &Option<(VaultAddress, u8)>, claimed: &VaultAddress) -> (r: Option<u8>)
    ensures
        r == claim(bytes_of(*found), claimed@),
{
    match found {
        Some((address, discriminant)) => {
            if same_bytes(&address.bytes, &claimed.bytes) {
                Some(*discriminant)
            } else {
                None
            }
        },
        None => None,
    }
}

/// Authenticates a claimed vault address: derives the address of `identity`
/// again and compares.
pub fn verify(claimed_address: &VaultAddress, identity: &Identity, domain_label: &[u8]) -> (r: bool)
    ensures
        r == is_vault_of(claimed_address@, identity@, domain_label@),
{
    let found = resolve(identity, domain_label);
    claimed_discriminant(&found, claimed_address).is_some()
}

impl Capability {
    /// Whether this capability derives `address`, discriminant included.
    pub open spec fn authorizes(&self, address: Seq<u8>) -> bool {
        ownership(address, self.identity@, self.label@) == Some(self.discriminant)
    }

    /// Whether `found`, once derived from the label and the identity of this
    /// capability, is `address` under the discriminant of this capability.
    pub fn matches(&self, found: &Option<(VaultAddress, u8)>, address: &VaultAddress) -> (r: bool)
        ensures
            r == (claim(bytes_of(*found), address@) == Some(self.discriminant)),
    {
        match claimed_discriminant(found, address) {
            Some(discriminant) => discriminant == self.discriminant,
            None => false,
        }
    }

    /// Derives the address again from the label and the identity, and
    /// compares both the address and the discriminant.
    pub fn proves(&self, address: &VaultAddress) -> (r: bool)
        ensures
            r == self.authorizes(address@),
    {
        let found = resolve(&self.identity, self.label.as_slice());
        self.matches(&found, address)
    }
}

/// Resolving is a function of the identity and the label: any two outcomes
/// for the same pair are the same address and the same discriminant.
pub proof fn resolve_is_deterministic(
    identity: Seq<u8>,
    label: Seq<u8>,
    first: Option<(VaultAddress, u8)>,
    second: Option<(VaultAddress, u8)>,
)
    requires
        bytes_of(first) == resolved(identity, label),
        bytes_of(second) == resolved(identity, label),
    ensures
        first == second,
{
    if let Some((a, _)) = first {
        if let Some((b, _)) = second {
            assert(a.bytes@ == b.bytes@);
            assert(a.bytes =~= b.bytes);
        }
    }
}

} // verus!
