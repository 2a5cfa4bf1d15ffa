//! The redeemer authority: a signing identity derived deterministically from
//! the token pair it governs, with no private key behind it. Creation binds
//! the pair once; a second creation for the same pair collides on the derived
//! address and fails.

use crate::state::{clone_bytes, AuthorityEntry, CreateRedeemer, ReadonlyTokenPair, Redeemer};
use crate::ErrorCode;
use vstd::prelude::*;

verus! {

/// The address and discriminant that the derivation produces from a seed tag,
/// the two mint identifiers and a program identifier; `None` when no
/// discriminant yields a valid address.
pub uninterp spec fn derived_authority(tag: Seq<u8>, iou: Seq<u8>, red: Seq<u8>, program: Seq<u8>) -> Option<(Seq<u8>, u8)>;

/// Relies on `Pubkey::try_find_program_address` of solana-pubkey: the result
/// is a pure function of the seed slices and the program id. It is `Some` of
/// a 32-byte off-curve address and the chosen bump discriminant, and `None`
/// only when no bump yields such an address or a seed is over the length cap.
#[verifier::external_body]
fn try_derive_address(tag: &Vec<u8>, iou: &Vec<u8>, red: &Vec<u8>, program: &Vec<u8>) -> (r: Option<
    (Vec<u8>, u8),
>)
    requires
        program@.len() == 32,
    ensures
        r is Some <==> derived_authority(tag@, iou@, red@, program@) is Some,
        r matches Some(p) ==> derived_authority(tag@, iou@, red@, program@) == Some((p.0@, p.1)),
        r matches Some(p) ==> p.0@.len() == 32,
{
    let mut id_bytes = [0u8; 32];
    id_bytes.copy_from_slice(program.as_slice());
    let program_id = anchor_lang::solana_program::pubkey::Pubkey::from(id_bytes);
    let seeds: [&[u8]; 3] = [tag.as_slice(), iou.as_slice(), red.as_slice()];
    anchor_lang::solana_program::pubkey::Pubkey::try_find_program_address(&seeds, &program_id)
        .map(|found| (found.0.to_bytes().to_vec(), found.1))
}

/// The fixed namespace tag of every redeemer authority: the word "Redeemer".
pub open spec fn authority_namespace() -> Seq<u8> {
    seq![82u8, 101u8, 100u8, 101u8, 101u8, 109u8, 101u8, 114u8]
}

/// The namespace tag as bytes.
pub fn authority_namespace_bytes() -> (r: Vec<u8>)
    ensures
        r@ == authority_namespace(),
{
    let mut v: Vec<u8> = Vec::new();
    v.push(82);
    v.push(101);
    v.push(100);
    v.push(101);
    v.push(101);
    v.push(109);
    v.push(101);
    v.push(114);
    proof {
        assert(v@ =~= authority_namespace());
    }
    v
}

/// The fixed 32-byte identifier under which every authority is derived.
pub open spec fn redeemer_program_id() -> Seq<u8> {
    Seq::new(32, |i: int| 114u8)
}

/// The program identifier as bytes.
pub fn redeemer_program_id_bytes() -> (r: Vec<u8>)
    ensures
        r@ == redeemer_program_id(),
{
    let mut v: Vec<u8> = Vec::new();
    let mut i: usize = 0;
    while i < 32
        invariant
            i <= 32,
            v@.len() == i,
            forall|j: int| 0 <= j < i ==> v@[j] == 114u8,
        decreases 32 - i,
    {
        v.push(114);
        i = i + 1;
    }
    proof {
        assert(v@ =~= redeemer_program_id());
    }
    v
}

/// What the library derives for a token pair: the derivation applied to the
/// fixed namespace tag, the pair's identifiers and the fixed program
/// identifier. A pure function of the pair alone.
pub open spec fn authority_derivation(iou: Seq<u8>, red: Seq<u8>) -> Option<(Seq<u8>, u8)> {
    derived_authority(authority_namespace(), iou, red, redeemer_program_id())
}

/// Derive the authority address and bump for a token pair; `None` when the
/// derivation finds no valid address.
pub fn derive_authority_address(iou: &Vec<u8>, red: &Vec<u8>) -> (r: Option<(Vec<u8>, u8)>)
    ensures
        r is Some <==> authority_derivation(iou@, red@) is Some,
        r matches Some(p) ==> authority_derivation(iou@, red@) == Some((p.0@, p.1)),
        r matches Some(p) ==> p.0@.len() == 32,
{
    let tag = authority_namespace_bytes();
    let program = redeemer_program_id_bytes();
    try_derive_address(&tag, iou, red, &program)
}

impl Redeemer {
    /// The exact seed tuple that reproduces this authority's signature:
    /// the namespace tag, the two mint identifiers, and the bump.
    pub fn signer_seeds(&self) -> (r: Vec<Vec<u8>>)
        ensures
            r@.len() == 4,
            r@[0]@ == authority_namespace(),
            r@[1]@ == self.iou_mint@,
            r@[2]@ == self.redemption_mint@,
            r@[3]@ == seq![self.bump],
    {
        let mut bump_seed: Vec<u8> = Vec::new();
        bump_seed.push(self.bump);
        let mut r: Vec<Vec<u8>> = Vec::new();
        r.push(authority_namespace_bytes());
        r.push(clone_bytes(&self.iou_mint));
        r.push(clone_bytes(&self.redemption_mint));
        r.push(bump_seed);
        proof {
            assert(r@[3]@ =~= seq![self.bump]);
        }
        r
    }
}

/// The store of created authorities, one entry per derived address.
pub struct AuthorityRegistry {
    pub entries: Vec<AuthorityEntry>,
}

/// An address is already bound in the store.
pub open spec fn contains_address(entries: Seq<AuthorityEntry>, addr: Seq<u8>) -> bool {
    exists|i: int| 0 <= i < entries.len() && #[trigger] entries[i].address@ == addr
}

/// When authority creation goes through, and the error when it does not:
/// the two mints must agree on precision, the derivation must yield an
/// address, the vault must hold the redemption token and belong to the
/// derived authority, and no authority may yet be bound at that address.
pub open spec fn create_check(entries: Seq<AuthorityEntry>, tokens: ReadonlyTokenPair) -> Result<
    (),
    ErrorCode,
> {
    if tokens.iou_mint.decimals != tokens.redemption_mint.decimals {
        Err(ErrorCode::DecimalsMismatch)
    } else {
        match authority_derivation(tokens.iou_mint.id@, tokens.redemption_mint.id@) {
            None => Err(ErrorCode::Unauthorized),
            Some(d) => {
                if tokens.redemption_vault.mint@ != tokens.redemption_mint.id@ {
                    Err(ErrorCode::Unauthorized)
                } else if tokens.redemption_vault.owner@ != d.0 {
                    Err(ErrorCode::Unauthorized)
                } else if contains_address(entries, d.0) {
                    Err(ErrorCode::AuthorityExists)
                } else {
                    Ok(())
                }
            },
        }
    }
}

impl AuthorityRegistry {
    /// An empty store.
    pub fn new() -> (r: AuthorityRegistry)
        ensures
            r.entries@.len() == 0,
    {
        AuthorityRegistry { entries: Vec::new() }
    }

    /// An address is already bound in this store.
    pub fn contains(&self, addr: &Vec<u8>) -> (r: bool)
        ensures
            r == contains_address(self.entries@, addr@),
    {
        let mut i: usize = 0;
        while i < self.entries.len()
            invariant
                i <= self.entries@.len(),
                forall|j: int| 0 <= j < i ==> #[trigger] self.entries@[j].address@ != addr@,
            decreases self.entries@.len() - i,
        {
            if crate::state::bytes_eq(&self.entries[i].address, addr) {
                return true;
            }
            i = i + 1;
        }
        false
    }
}

/// No two entries of the store are bound at the same address.
pub open spec fn registry_wf(entries: Seq<AuthorityEntry>) -> bool {
    forall|i: int, j: int|
        0 <= i < j < entries.len() ==> #[trigger] entries[i].address@ != #[trigger] entries[j].address@
}

/// The entry is stored at the address its own pair derives.
pub open spec fn entry_bound(e: AuthorityEntry) -> bool {
    authority_derivation(e.redeemer.iou_mint@, e.redeemer.redemption_mint@) matches Some(d)
        && e.address@ == d.0
}

/// Every entry of the store is stored at the address its pair derives.
pub open spec fn registry_bound(entries: Seq<AuthorityEntry>) -> bool {
    forall|i: int| 0 <= i < entries.len() ==> entry_bound(#[trigger] entries[i])
}

/// Exactly one authority per pair: in a store where every entry sits at its
/// derived address and no address repeats, two entries bound to the same
/// token pair are the same entry.
pub proof fn lemma_one_authority_per_pair(entries: Seq<AuthorityEntry>, i: int, j: int)
    requires
        registry_bound(entries),
        registry_wf(entries),
        0 <= i < entries.len(),
        0 <= j < entries.len(),
        entries[i].redeemer.iou_mint@ == entries[j].redeemer.iou_mint@,
        entries[i].redeemer.redemption_mint@ == entries[j].redeemer.redemption_mint@,
    ensures
        i == j,
{
    if i != j {
        assert(entry_bound(entries[i]));
        assert(entry_bound(entries[j]));
        assert(entries[i].address@ == entries[j].address@);
        assert(false);
    }
}

/// Uniqueness of the authority: the derived address is a pure function of
/// the token pair, so once some store binds that address, creating another
/// authority for the same pair in that store fails, whatever else the
/// request carries.
pub proof fn lemma_authority_unique(
    entries: Seq<AuthorityEntry>,
    t1: ReadonlyTokenPair,
    t2: ReadonlyTokenPair,
)
    ensures
        (authority_derivation(t1.iou_mint.id@, t1.redemption_mint.id@) matches Some(d)
            && contains_address(entries, d.0) && t2.iou_mint.id@ == t1.iou_mint.id@
            && t2.redemption_mint.id@ == t1.redemption_mint.id@) ==> create_check(entries, t2)
            is Err,
{
}

/// The precision gate: a pair whose mints disagree on decimals is refused
/// with `DecimalsMismatch` before anything else is looked at.
pub proof fn lemma_decimals_gate(entries: Seq<AuthorityEntry>, t: ReadonlyTokenPair)
    ensures
        t.iou_mint.decimals != t.redemption_mint.decimals ==> create_check(entries, t) == Err::<
            (),
            ErrorCode,
        >(ErrorCode::DecimalsMismatch),
{
}

/// Bind a token pair and create its redeemer authority in `registry`.
///
/// On success the returned record carries the pair, the vault and the
/// derived bump, and the store gains exactly one entry, at the derived
/// address. On failure the store is untouched and the error is exactly what
/// `create_check` classifies.
pub fn create_redeemer(registry: &mut AuthorityRegistry, ctx: &CreateRedeemer) -> (r: Result<
    Redeemer,
    ErrorCode,
>)
    ensures
        r is Ok <==> create_check(old(registry).entries@, ctx.tokens) is Ok,
        r matches Err(e) ==> create_check(old(registry).entries@, ctx.tokens) == Err::<(), ErrorCode>(e),
        r is Err ==> final(registry).entries@ == old(registry).entries@,
        r matches Ok(red) ==> {
            &&& authority_derivation(ctx.tokens.iou_mint.id@, ctx.tokens.redemption_mint.id@) matches Some(d)
                && red.bump == d.1
                && final(registry).entries@.last().address@ == d.0
            &&& final(registry).entries@.len() == old(registry).entries@.len() + 1
            &&& red.iou_mint@ == ctx.tokens.iou_mint.id@
            &&& red.redemption_mint@ == ctx.tokens.redemption_mint.id@
            &&& red.redemption_vault@ == ctx.tokens.redemption_vault.id@
            &&& crate::state::redeemer_eq(red, final(registry).entries@.last().redeemer)
            &&& forall|i: int|
                0 <= i < old(registry).entries@.len()
                    ==> final(registry).entries@[i] == old(registry).entries@[i]
        },
        registry_wf(old(registry).entries@) ==> registry_wf(final(registry).entries@),
        registry_bound(old(registry).entries@) ==> registry_bound(final(registry).entries@),
{
    let tokens = &ctx.tokens;
    if tokens.iou_mint.decimals != tokens.redemption_mint.decimals {
        return Err(ErrorCode::DecimalsMismatch);
    }
    let derived = derive_authority_address(&tokens.iou_mint.id, &tokens.redemption_mint.id);
    match derived {
        None => Err(ErrorCode::Unauthorized),
        Some(found) => {
            let (address, bump) = found;
            if !crate::state::bytes_eq(&tokens.redemption_vault.mint, &tokens.redemption_mint.id) {
                return Err(ErrorCode::Unauthorized);
            }
            if !crate::state::bytes_eq(&tokens.redemption_vault.owner, &address) {
                return Err(ErrorCode::Unauthorized);
            }
            if registry.contains(&address) {
                return Err(ErrorCode::AuthorityExists);
            }
            let redeemer = Redeemer {
                bump,
                iou_mint: clone_bytes(&tokens.iou_mint.id),
                redemption_mint: clone_bytes(&tokens.redemption_mint.id),
                redemption_vault: clone_bytes(&tokens.redemption_vault.id),
            };
            let stored = Redeemer {
                bump,
                iou_mint: clone_bytes(&tokens.iou_mint.id),
                redemption_mint: clone_bytes(&tokens.redemption_mint.id),
                redemption_vault: clone_bytes(&tokens.redemption_vault.id),
            };
            let entry = AuthorityEntry { address, redeemer: stored };
            registry.entries.push(entry);
            Ok(redeemer)
        },
    }
}

} // verus!
