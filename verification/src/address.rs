//! Account addresses and the deterministic derivation primitives.
//!
//! An [`Address`] holds the 32 raw bytes of an account address. The
//! derivation substrate (the host's program-derived-address rules) is reached
//! through two trusted wrappers: one that searches for a derivable address
//! and its proof byte, and one that re-derives an address from a given proof
//! byte. Their results are named by uninterpreted spec functions, so every
//! contract in this crate speaks of derivation only through those names.

use vstd::prelude::*;

use anchor_lang::solana_program::pubkey::Pubkey;

verus! {

/// The raw bytes of a 32-byte account address.
#[derive(Debug)]
pub struct Address {
    bytes: Vec<u8>,
}

impl View for Address {
    type V = Seq<u8>;

    closed spec fn view(&self) -> Seq<u8> {
        self.bytes@
    }
}

impl Address {
    /// An address is exactly 32 bytes long.
    pub open spec fn wf(&self) -> bool {
        self@.len() == 32
    }

    /// Wraps raw bytes as an address; rejects any length other than 32.
    pub fn new(bytes: Vec<u8>) -> (r: Option<Address>)
        ensures
            r is Some <==> bytes@.len() == 32,
            r matches Some(a) ==> a@ == bytes@ && a.wf(),
    {
        if bytes.len() == 32 {
            Some(Address { bytes })
        } else {
            None
        }
    }

    /// A copy of this address holding the same bytes.
    pub fn dup(&self) -> (r: Address)
        ensures
            r@ == self@,
    {
        Address { bytes: copy_bytes(&self.bytes) }
    }

    /// The raw bytes of the address.
    pub fn as_bytes(&self) -> (r: &Vec<u8>)
        ensures
            r@ == self@,
    {
        &self.bytes
    }
}

/// A copy of a byte vector.
fn copy_bytes(v: &Vec<u8>) -> (r: Vec<u8>)
    ensures
        r@ == v@,
{
    let mut copy: Vec<u8> = Vec::new();
    let mut i: usize = 0;
    while i < v.len()
        invariant
            i <= v.len(),
            copy@ == v@.subrange(0, i as int),
        decreases v.len() - i,
    {
        copy.push(v[i]);
        i = i + 1;
    }
    proof {
        assert(copy@ =~= v@);
    }
    copy
}

/// The ordered seed tuple that authorizes an outbound transfer from the
/// account derived from `label` and `anchor` with `proof_byte`: the label,
/// the anchor's bytes, and the proof byte alone, in that order. The
/// transfer primitive honors it only if that tuple re-derives the source
/// account's address.
pub fn signing_seeds(label: &Vec<u8>, anchor: &Address, proof_byte: u8) -> (r: Vec<Vec<u8>>)
    ensures
        r@.len() == 3,
        r@[0]@ == label@,
        r@[1]@ == anchor@,
        r@[2]@ == seq![proof_byte],
{
    let mut seeds: Vec<Vec<u8>> = Vec::new();
    seeds.push(copy_bytes(label));
    seeds.push(copy_bytes(&anchor.bytes));
    let mut last: Vec<u8> = Vec::new();
    last.push(proof_byte);
    proof {
        assert(last@ =~= seq![proof_byte]);
    }
    seeds.push(last);
    seeds
}

/// True exactly when the two addresses hold the same bytes.
pub fn address_eq(a: &Address, b: &Address) -> (r: bool)
    ensures
        r == (a@ == b@),
{
    if a.bytes.len() != b.bytes.len() {
        return false;
    }
    let mut i: usize = 0;
    while i < a.bytes.len()
        invariant
            i <= a.bytes.len(),
            a.bytes.len() == b.bytes.len(),
            forall|j: int| 0 <= j < i ==> a.bytes@[j] == b.bytes@[j],
        decreases a.bytes.len() - i,
    {
        if a.bytes[i] != b.bytes[i] {
            return false;
        }
        i = i + 1;
    }
    proof {
        assert(a@ =~= b@);
    }
    true
}

impl PartialEq for Address {
    fn eq(&self, other: &Address) -> (r: bool) {
        address_eq(self, other)
    }
}

impl vstd::std_specs::cmp::PartialEqSpecImpl for Address {
    open spec fn obeys_eq_spec() -> bool {
        true
    }

    open spec fn eq_spec(&self, other: &Address) -> bool {
        self@ == other@
    }
}

/// The seed label under which a state record's address is derived.
pub open spec fn state_label() -> Seq<u8> {
    seq![115u8, 116u8, 97u8, 116u8, 101u8]
}

/// The seed label under which a vault's address is derived.
pub open spec fn vault_label() -> Seq<u8> {
    seq![118u8, 97u8, 117u8, 108u8, 116u8]
}

/// The bytes of the state label, `b"state"`.
pub fn state_label_bytes() -> (r: Vec<u8>)
    ensures
        r@ == state_label(),
        r@.len() == 5,
{
    let mut v: Vec<u8> = Vec::new();
    v.push(115u8);
    v.push(116u8);
    v.push(97u8);
    v.push(116u8);
    v.push(101u8);
    proof {
        assert(v@ =~= state_label());
    }
    v
}

/// The bytes of the vault label, `b"vault"`.
pub fn vault_label_bytes() -> (r: Vec<u8>)
    ensures
        r@ == vault_label(),
        r@.len() == 5,
{
    let mut v: Vec<u8> = Vec::new();
    v.push(118u8);
    v.push(97u8);
    v.push(117u8);
    v.push(108u8);
    v.push(116u8);
    proof {
        assert(v@ =~= vault_label());
    }
    v
}

/// What the derivation search returns for a label, an anchor address and a
/// program id: the derived address and its proof byte, or nothing in the
/// statistically improbable event that no proof byte derives an address.
pub uninterp spec fn pda_of(label: Seq<u8>, anchor: Seq<u8>, program: Seq<u8>) -> Option<(Seq<u8>, u8)>;

/// What re-derivation returns for a label, an anchor address, a proof byte
/// and a program id: the derived address, or nothing when that seed tuple
/// derives none.
pub uninterp spec fn rederived_of(label: Seq<u8>, anchor: Seq<u8>, proof_byte: u8, program: Seq<u8>) -> Option<Seq<u8>>;

/// Relies on `Pubkey::try_find_program_address` (anchor_lang's re-export of
/// the Solana address type): deterministic in its seeds and program id; when
/// it returns an address and a bump byte, `create_program_address` on the
/// same seeds extended by that bump byte reproduces exactly that address.
#[verifier::external_body]
pub(crate) fn derive_address(label: &Vec<u8>, anchor: &Address, program: &Address) -> (r: Option<(Address, u8)>)
    requires
        label@.len() <= 32,
        anchor.wf(),
        program.wf(),
    ensures
        r is Some <==> pda_of(label@, anchor@, program@) is Some,
        r matches Some(p) ==> {
            &&& pda_of(label@, anchor@, program@) == Some((p.0@, p.1))
            &&& rederived_of(label@, anchor@, p.1, program@) == Some(p.0@)
            &&& p.0.wf()
        },
{
    let pid = Pubkey::new_from_array(program.bytes.as_slice().try_into().unwrap());
    let anc = Pubkey::new_from_array(anchor.bytes.as_slice().try_into().unwrap());
    let found = Pubkey::try_find_program_address(&[label.as_slice(), anc.as_ref()], &pid);
    found.map(|p| (Address { bytes: p.0.to_bytes().to_vec() }, p.1))
}

/// Relies on `Pubkey::create_program_address` (anchor_lang's re-export of
/// the Solana address type): deterministic in its seeds and program id;
/// returns the address derived from the label, the anchor and the proof
/// byte, or an error when that seed tuple derives no address.
#[verifier::external_body]
pub(crate) fn rederive_address(label: &Vec<u8>, anchor: &Address, proof_byte: u8, program: &Address) -> (r: Option<Address>)
    requires
        label@.len() <= 32,
        anchor.wf(),
        program.wf(),
    ensures
        r matches Some(a) ==> rederived_of(label@, anchor@, proof_byte, program@) == Some(a@) && a.wf(),
        r is None ==> rederived_of(label@, anchor@, proof_byte, program@) is None,
{
    let pid = Pubkey::new_from_array(program.bytes.as_slice().try_into().unwrap());
    let anc = Pubkey::new_from_array(anchor.bytes.as_slice().try_into().unwrap());
    match Pubkey::create_program_address(&[label.as_slice(), anc.as_ref(), &[proof_byte]], &pid) {
        Ok(a) => Some(Address { bytes: a.to_bytes().to_vec() }),
        Err(_) => None,
    }
}

} // verus!
