use vstd::prelude::*;
use crate::text::push_char;

verus! {

/// The most bytes a principal holds.
pub const PRINCIPAL_MAX_LEN: usize = 29;

/// An identity on the network, held as its raw bytes.
pub struct Principal {
    pub bytes: Vec<u8>,
}

/// A canister's identity.
pub type CanisterId = Principal;

/// A user's identity: the principal of the user's canister.
pub type UserId = Principal;

impl Principal {
    pub open spec fn view(&self) -> Seq<u8> {
        self.bytes@
    }

    /// A principal holds at most `PRINCIPAL_MAX_LEN` bytes.
    pub open spec fn wf(&self) -> bool {
        self.bytes@.len() <= PRINCIPAL_MAX_LEN
    }

    pub fn from_bytes(bytes: Vec<u8>) -> (r: Option<Principal>)
        ensures
            bytes@.len() <= PRINCIPAL_MAX_LEN ==> r == Some(Principal { bytes }),
            bytes@.len() > PRINCIPAL_MAX_LEN ==> r is None,
    {
        if bytes.len() <= PRINCIPAL_MAX_LEN {
            Some(Principal { bytes })
        } else {
            None
        }
    }

    pub fn clone_principal(&self) -> (r: Principal)
        ensures
            r@ == self@,
    {
        Principal { bytes: self.bytes.clone() }
    }

    pub fn same_as(&self, other: &Principal) -> (r: bool)
        ensures
            r == (self@ == other@),
    {
        if self.bytes.len() != other.bytes.len() {
            return false;
        }
        let mut i: usize = 0;
        while i < self.bytes.len()
            invariant
                self.bytes@.len() == other.bytes@.len(),
                i <= self.bytes@.len(),
                forall|j: int| 0 <= j < i ==> self.bytes@[j] == other.bytes@[j],
            decreases self.bytes@.len() - i,
        {
            if self.bytes[i] != other.bytes[i] {
                return false;
            }
            i = i + 1;
        }
        assert(self.bytes@ =~= other.bytes@);
        true
    }
}

/// The subaccount that an account has when none is named: 32 zero bytes.
pub open spec fn default_subaccount() -> Seq<u8> {
    Seq::new(32, |i: int| 0u8)
}

/// The subaccount that stands for a principal: its length, then its bytes,
/// then zeros up to 32 bytes.
pub open spec fn subaccount_of(p: Seq<u8>) -> Seq<u8> {
    Seq::new(32, |i: int| if i == 0 { p.len() as u8 } else if i <= p.len() { p[i - 1] } else { 0u8 })
}

/// Builds the subaccount that stands for `principal`.
pub fn convert_to_subaccount(principal: &Principal) -> (r: [u8; 32])
    requires
        principal.wf(),
    ensures
        r@ == subaccount_of(principal@),
{
    let mut subaccount = [0u8; 32];
    let n = principal.bytes.len();
    subaccount[0] = n as u8;
    let mut i: usize = 0;
    while i < n
        invariant
            n == principal.bytes@.len() <= PRINCIPAL_MAX_LEN,
            i <= n,
            subaccount@.len() == 32,
            forall|j: int| 0 <= j < 32 ==> subaccount@[j] == (if j == 0 { n as u8 } else if j <= i { principal.bytes@[j - 1] } else { 0u8 }),
        decreases n - i,
    {
        subaccount[i + 1] = principal.bytes[i];
        i = i + 1;
    }
    assert(subaccount@ =~= subaccount_of(principal@));
    subaccount
}

/// What `ic_ledger_types::AccountIdentifier::new` gives for an owner and a
/// subaccount (a checksum, then a digest of both).
pub uninterp spec fn account_identifier_bytes(owner: Seq<u8>, subaccount: Seq<u8>) -> Seq<u8>;

/// An account on the legacy ledger: 32 bytes derived from an owner and a
/// subaccount.
pub struct AccountIdentifier {
    pub bytes: [u8; 32],
}

impl AccountIdentifier {
    pub open spec fn view(&self) -> Seq<u8> {
        self.bytes@
    }

    /// The account's text: two lower-case hexadecimal digits per byte.
    pub fn to_text(&self) -> (r: String)
        ensures
            r@ == hex_text(self@),
    {
        hex_string(&self.bytes)
    }
}

/// Relies on `ic_ledger_types::AccountIdentifier::new`, which derives the
/// account's bytes from the owner's bytes and the subaccount alone.
/// `candid::Principal::from_slice` panics beyond `PRINCIPAL_MAX_LEN` bytes.
#[verifier::external_body]
fn account_identifier_of(owner: &Principal, subaccount: &[u8; 32]) -> (r: [u8; 32])
    requires
        owner.wf(),
    ensures
        r@ == account_identifier_bytes(owner@, subaccount@),
{
    let owner = candid::Principal::from_slice(owner.bytes.as_slice());
    let id = ic_ledger_types::AccountIdentifier::new(&owner, &ic_ledger_types::Subaccount(*subaccount));
    let mut r = [0u8; 32];
    r.copy_from_slice(id.as_ref());
    r
}

/// The account of `owner` under `subaccount`.
pub fn account_identifier(owner: &Principal, subaccount: &[u8; 32]) -> (r: AccountIdentifier)
    requires
        owner.wf(),
    ensures
        r@ == account_identifier_bytes(owner@, subaccount@),
{
    AccountIdentifier { bytes: account_identifier_of(owner, subaccount) }
}

/// The account of `principal` under the default subaccount.
pub fn default_ledger_account(principal: Principal) -> (r: AccountIdentifier)
    requires
        principal.wf(),
    ensures
        r@ == account_identifier_bytes(principal@, default_subaccount()),
{
    let zeros = [0u8; 32];
    assert(zeros@ =~= default_subaccount());
    account_identifier(&principal, &zeros)
}

/// The lower-case hexadecimal digit of `d`.
pub open spec fn hex_digit(d: nat) -> char {
    if d < 10 {
        ((d + 48) as u8) as char
    } else {
        ((d + 87) as u8) as char
    }
}

/// `b` in lower-case hexadecimal, two digits per byte.
pub open spec fn hex_text(b: Seq<u8>) -> Seq<char>
    decreases b.len(),
{
    if b.len() == 0 {
        seq![]
    } else {
        hex_text(b.drop_last()) + seq![hex_digit(b.last() as nat / 16), hex_digit(b.last() as nat % 16)]
    }
}

fn hex_char(d: u8) -> (c: char)
    requires
        d < 16,
    ensures
        c == hex_digit(d as nat),
{
    if d < 10 {
        (d + 48) as char
    } else {
        (d + 87) as char
    }
}

fn hex_string(b: &[u8; 32]) -> (r: String)
    ensures
        r@ == hex_text(b@),
{
    let mut r = String::new();
    let mut i: usize = 0;
    while i < 32
        invariant
            i <= 32,
            b@.len() == 32,
            r@ == hex_text(b@.subrange(0, i as int)),
        decreases 32 - i,
    {
        proof {
            let next = b@.subrange(0, i + 1);
            assert(next.drop_last() =~= b@.subrange(0, i as int));
        }
        push_char(&mut r, hex_char(b[i] / 16));
        push_char(&mut r, hex_char(b[i] % 16));
        assert(r@ =~= hex_text(b@.subrange(0, i + 1)));
        i = i + 1;
    }
    assert(b@.subrange(0, 32) =~= b@);
    r
}

} // verus!
