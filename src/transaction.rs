use vstd::prelude::*;
use vstd::string::*;
use vstd::utf8::encode_utf8;
use sha2::Digest;
use crate::account::{
    account_identifier, account_identifier_bytes, default_subaccount, hex_text, AccountIdentifier,
    CanisterId,
};

verus! {

/// A transaction's digest.
pub type TransactionHash = [u8; 32];

/// What the SHA-256 digest of `bytes` is.
pub uninterp spec fn sha256_digest(bytes: Seq<u8>) -> Seq<u8>;

/// Relies on `sha2::Sha256`: the SHA-256 digest of the bytes, 32 bytes long.
#[verifier::external_body]
fn sha256(bytes: &Vec<u8>) -> (r: [u8; 32])
    ensures
        r@ == sha256_digest(bytes@),
{
    sha2::Sha256::digest(bytes.as_slice()).into()
}

/// An operation which changes account balances; accounts are written as text.
pub enum Operation {
    Burn { from: String, amount: u64 },
    Mint { to: String, amount: u64 },
    Transfer { from: String, to: String, amount: u64, fee: u64 },
}

/// An operation with the memo and the creation time that the client set.
pub struct Transaction {
    pub operation: Operation,
    pub memo: u64,
    /// Nanoseconds since the epoch.
    pub created_at_time: u64,
}

/// `v` as `n` bytes, most significant first.
pub open spec fn big_endian(v: nat, n: nat) -> Seq<u8>
    decreases n,
{
    if n == 0 {
        seq![]
    } else {
        big_endian(v / 256, (n - 1) as nat).push((v % 256) as u8)
    }
}

/// The shortest CBOR head of major type `major` with argument `v`.
pub open spec fn cbor_head(major: nat, v: nat) -> Seq<u8> {
    if v <= 23 {
        seq![(major * 32 + v) as u8]
    } else if v <= 0xff {
        seq![(major * 32 + 24) as u8, v as u8]
    } else if v <= 0xffff {
        seq![(major * 32 + 25) as u8] + big_endian(v, 2)
    } else if v <= 0xffff_ffff {
        seq![(major * 32 + 26) as u8] + big_endian(v, 4)
    } else {
        seq![(major * 32 + 27) as u8] + big_endian(v, 8)
    }
}

/// An unsigned integer in CBOR.
pub open spec fn cbor_uint(v: nat) -> Seq<u8> {
    cbor_head(0, v)
}

/// A text string in CBOR: its UTF-8 length, then its UTF-8 bytes.
pub open spec fn cbor_text(s: Seq<char>) -> Seq<u8> {
    cbor_head(3, encode_utf8(s).len()) + encode_utf8(s)
}

/// The head of a CBOR map of `n` entries.
pub open spec fn cbor_map(n: nat) -> Seq<u8> {
    cbor_head(5, n)
}

/// The field numbered `index` of a record in packed form: the index as key.
pub open spec fn field(index: nat, value: Seq<u8>) -> Seq<u8> {
    cbor_uint(index) + value
}

/// A token amount in packed form: a record with the one field `e8s`.
pub open spec fn tokens_bytes(e8s: u64) -> Seq<u8> {
    cbor_map(1) + field(0, cbor_uint(e8s as nat))
}

/// An operation in packed form: a map from its variant's index to the record
/// of its fields.
pub open spec fn operation_bytes(op: Operation) -> Seq<u8> {
    match op {
        Operation::Burn { from, amount } =>
            cbor_map(1) + cbor_uint(0) + cbor_map(2) + field(0, cbor_text(from@))
                + field(1, tokens_bytes(amount)),
        Operation::Mint { to, amount } =>
            cbor_map(1) + cbor_uint(1) + cbor_map(2) + field(0, cbor_text(to@))
                + field(1, tokens_bytes(amount)),
        Operation::Transfer { from, to, amount, fee } =>
            cbor_map(1) + cbor_uint(2) + cbor_map(4) + field(0, cbor_text(from@))
                + field(1, cbor_text(to@)) + field(2, tokens_bytes(amount))
                + field(3, tokens_bytes(fee)),
    }
}

/// A transaction in packed form: the operation, the memo, and the creation
/// time as a record with the one field `timestamp_nanos`.
pub open spec fn transaction_bytes(t: Transaction) -> Seq<u8> {
    cbor_map(3) + field(0, operation_bytes(t.operation)) + field(1, cbor_uint(t.memo as nat))
        + field(2, cbor_map(1) + field(0, cbor_uint(t.created_at_time as nat)))
}

/// The digest of a transaction: SHA-256 of its packed form.
pub open spec fn transaction_hash(t: Transaction) -> Seq<u8> {
    sha256_digest(transaction_bytes(t))
}

/// The two operations are of one kind, with fields of the same values.
pub open spec fn same_operation(a: Operation, b: Operation) -> bool {
    match (a, b) {
        (Operation::Burn { from: f1, amount: a1 }, Operation::Burn { from: f2, amount: a2 }) =>
            f1@ == f2@ && a1 == a2,
        (Operation::Mint { to: t1, amount: a1 }, Operation::Mint { to: t2, amount: a2 }) =>
            t1@ == t2@ && a1 == a2,
        (
            Operation::Transfer { from: f1, to: t1, amount: a1, fee: e1 },
            Operation::Transfer { from: f2, to: t2, amount: a2, fee: e2 },
        ) => f1@ == f2@ && t1@ == t2@ && a1 == a2 && e1 == e2,
        _ => false,
    }
}

/// The two transactions have fields of the same values.
pub open spec fn same_transaction(a: Transaction, b: Transaction) -> bool {
    same_operation(a.operation, b.operation) && a.memo == b.memo
        && a.created_at_time == b.created_at_time
}

/// The digest is a function of the field values: two transactions with the
/// same operation, memo and creation time (so one transaction hashed twice)
/// have the same digest.
pub proof fn lemma_hash_deterministic(a: Transaction, b: Transaction)
    requires
        same_transaction(a, b),
    ensures
        transaction_bytes(a) == transaction_bytes(b),
        transaction_hash(a) == transaction_hash(b),
{
    assert(operation_bytes(a.operation) == operation_bytes(b.operation));
}

/// 256 to the power `n`.
pub open spec fn pow256(n: nat) -> nat
    decreases n,
{
    if n == 0 {
        1
    } else {
        256 * pow256((n - 1) as nat)
    }
}

proof fn lemma_big_endian_injective(v: nat, w: nat, n: nat)
    requires
        v < pow256(n),
        w < pow256(n),
        big_endian(v, n) == big_endian(w, n),
    ensures
        v == w,
    decreases n,
{
    if n > 0 {
        let bv = big_endian(v, n);
        let bw = big_endian(w, n);
        assert(bv.last() == bw.last());
        assert(bv.drop_last() == big_endian(v / 256, (n - 1) as nat));
        assert(bw.drop_last() == big_endian(w / 256, (n - 1) as nat));
        assert(v / 256 < pow256((n - 1) as nat)) by (nonlinear_arith)
            requires
                v < 256 * pow256((n - 1) as nat),
        ;
        assert(w / 256 < pow256((n - 1) as nat)) by (nonlinear_arith)
            requires
                w < 256 * pow256((n - 1) as nat),
        ;
        lemma_big_endian_injective(v / 256, w / 256, (n - 1) as nat);
    }
}

proof fn lemma_big_endian_len(v: nat, n: nat)
    ensures
        big_endian(v, n).len() == n,
    decreases n,
{
    if n > 0 {
        lemma_big_endian_len(v / 256, (n - 1) as nat);
    }
}

/// An unsigned integer's CBOR form determines the integer, whatever follows.
proof fn lemma_uint_prefix_free(v: u64, w: u64, s: Seq<u8>, t: Seq<u8>)
    requires
        cbor_uint(v as nat) + s == cbor_uint(w as nat) + t,
    ensures
        v == w,
{
    let a = cbor_uint(v as nat);
    let b = cbor_uint(w as nat);
    let x = a + s;
    assert(x[0] == a[0]);
    assert(x[0] == b[0]);
    reveal_with_fuel(pow256, 9);
    lemma_big_endian_len(v as nat, 2);
    lemma_big_endian_len(w as nat, 2);
    lemma_big_endian_len(v as nat, 4);
    lemma_big_endian_len(w as nat, 4);
    lemma_big_endian_len(v as nat, 8);
    lemma_big_endian_len(w as nat, 8);
    if v > 23 && v <= 0xff {
        assert(x[1] == a[1] && x[1] == b[1]);
    } else if v > 0xff && v <= 0xffff {
        assert(a.subrange(1, 3) == x.subrange(1, 3));
        assert(b.subrange(1, 3) == x.subrange(1, 3));
        assert(a.subrange(1, 3) =~= big_endian(v as nat, 2));
        assert(b.subrange(1, 3) =~= big_endian(w as nat, 2));
        lemma_big_endian_injective(v as nat, w as nat, 2);
    } else if v > 0xffff && v <= 0xffff_ffff {
        assert(a.subrange(1, 5) == x.subrange(1, 5));
        assert(b.subrange(1, 5) == x.subrange(1, 5));
        assert(a.subrange(1, 5) =~= big_endian(v as nat, 4));
        assert(b.subrange(1, 5) =~= big_endian(w as nat, 4));
        lemma_big_endian_injective(v as nat, w as nat, 4);
    } else if v > 0xffff_ffff {
        assert(a.subrange(1, 9) == x.subrange(1, 9));
        assert(b.subrange(1, 9) == x.subrange(1, 9));
        assert(a.subrange(1, 9) =~= big_endian(v as nat, 8));
        assert(b.subrange(1, 9) =~= big_endian(w as nat, 8));
        lemma_big_endian_injective(v as nat, w as nat, 8);
    }
}

proof fn lemma_drop_common_prefix(p: Seq<u8>, s: Seq<u8>, t: Seq<u8>)
    requires
        p + s == p + t,
    ensures
        s == t,
{
    assert(s =~= (p + s).subrange(p.len() as int, (p + s).len() as int));
    assert(t =~= (p + t).subrange(p.len() as int, (p + t).len() as int));
}

/// After a common prefix, an unsigned integer's CBOR form and what follows
/// it are both determined.
proof fn lemma_peel_uint(p: Seq<u8>, v: u64, w: u64, s: Seq<u8>, t: Seq<u8>)
    requires
        p + (cbor_uint(v as nat) + s) == p + (cbor_uint(w as nat) + t),
    ensures
        v == w,
        s == t,
{
    lemma_drop_common_prefix(p, cbor_uint(v as nat) + s, cbor_uint(w as nat) + t);
    lemma_uint_prefix_free(v, w, s, t);
    lemma_drop_common_prefix(cbor_uint(v as nat), s, t);
}

/// The record of a transfer, laid out around its four integers.
spec fn record_layout(h: Seq<u8>, amount: u64, fee: u64, memo: u64, time: u64) -> Seq<u8> {
    h + (cbor_uint(amount as nat) + ((cbor_uint(3) + cbor_map(1) + cbor_uint(0)) + (cbor_uint(fee as nat)
        + (cbor_uint(1) + (cbor_uint(memo as nat) + ((cbor_uint(2) + cbor_map(1) + cbor_uint(0))
        + (cbor_uint(time as nat) + Seq::<u8>::empty())))))))
}

proof fn lemma_record_layout(sender: Seq<u8>, a: TransferArgs)
    requires
        a.created_at_time is Some,
    ensures
        transfer_record(sender, a) == record_layout(
            cbor_map(3) + cbor_uint(0) + cbor_map(1) + cbor_uint(2) + cbor_map(4)
                + field(0, cbor_text(hex_text(account_identifier_bytes(sender, source_subaccount(a)))))
                + field(1, cbor_text(hex_text(a.to@))) + cbor_uint(2) + cbor_map(1) + cbor_uint(0),
            a.amount,
            a.fee,
            a.memo,
            a.created_at_time->Some_0,
        ),
{
    let h = cbor_map(3) + cbor_uint(0) + cbor_map(1) + cbor_uint(2) + cbor_map(4)
        + field(0, cbor_text(hex_text(account_identifier_bytes(sender, source_subaccount(a)))))
        + field(1, cbor_text(hex_text(a.to@))) + cbor_uint(2) + cbor_map(1) + cbor_uint(0);
    assert(transfer_record(sender, a) =~= record_layout(h, a.amount, a.fee, a.memo, a.created_at_time->Some_0));
}

/// The hashed record tells transfers apart that differ in one of amount,
/// fee, memo or creation time alone: their records differ, so their
/// digests are equal only where SHA-256 has a collision.
pub proof fn lemma_transfer_record_distinguishes(sender: Seq<u8>, a: TransferArgs, b: TransferArgs)
    requires
        a.created_at_time is Some,
        b.created_at_time is Some,
        a.from_subaccount == b.from_subaccount,
        a.to == b.to,
        a.amount != b.amount || a.fee != b.fee || a.memo != b.memo
            || a.created_at_time != b.created_at_time,
    ensures
        transfer_record(sender, a) != transfer_record(sender, b),
{
    lemma_record_layout(sender, a);
    lemma_record_layout(sender, b);
    let h = cbor_map(3) + cbor_uint(0) + cbor_map(1) + cbor_uint(2) + cbor_map(4)
        + field(0, cbor_text(hex_text(account_identifier_bytes(sender, source_subaccount(a)))))
        + field(1, cbor_text(hex_text(a.to@))) + cbor_uint(2) + cbor_map(1) + cbor_uint(0);
    let ta = a.created_at_time->Some_0;
    let tb = b.created_at_time->Some_0;
    if transfer_record(sender, a) == transfer_record(sender, b) {
        let m1 = cbor_uint(3) + cbor_map(1) + cbor_uint(0);
        let m3 = cbor_uint(2) + cbor_map(1) + cbor_uint(0);
        let e = Seq::<u8>::empty();
        let after_time_a = cbor_uint(ta as nat) + e;
        let after_time_b = cbor_uint(tb as nat) + e;
        let after_memo_a = cbor_uint(a.memo as nat) + (m3 + after_time_a);
        let after_memo_b = cbor_uint(b.memo as nat) + (m3 + after_time_b);
        let after_fee_a = cbor_uint(a.fee as nat) + (cbor_uint(1) + after_memo_a);
        let after_fee_b = cbor_uint(b.fee as nat) + (cbor_uint(1) + after_memo_b);
        lemma_peel_uint(h, a.amount, b.amount, m1 + after_fee_a, m1 + after_fee_b);
        lemma_peel_uint(m1, a.fee, b.fee, cbor_uint(1) + after_memo_a, cbor_uint(1) + after_memo_b);
        lemma_peel_uint(cbor_uint(1), a.memo, b.memo, m3 + after_time_a, m3 + after_time_b);
        lemma_peel_uint(m3, ta, tb, e, e);
    }
}

fn push_big_endian(out: &mut Vec<u8>, v: u64, n: u8)
    requires
        n <= 8,
    ensures
        final(out)@ == old(out)@ + big_endian(v as nat, n as nat),
    decreases n,
{
    if n > 0 {
        push_big_endian(out, v / 256, n - 1);
        out.push((v % 256) as u8);
    }
    assert(final(out)@ =~= old(out)@ + big_endian(v as nat, n as nat));
}

fn push_head(out: &mut Vec<u8>, major: u8, v: u64)
    requires
        major < 8,
    ensures
        final(out)@ == old(out)@ + cbor_head(major as nat, v as nat),
{
    let base: u8 = major * 32;
    if v <= 23 {
        out.push(base + v as u8);
    } else if v <= 0xff {
        out.push(base + 24);
        out.push(v as u8);
    } else if v <= 0xffff {
        out.push(base + 25);
        push_big_endian(out, v, 2);
    } else if v <= 0xffff_ffff {
        out.push(base + 26);
        push_big_endian(out, v, 4);
    } else {
        out.push(base + 27);
        push_big_endian(out, v, 8);
    }
    assert(final(out)@ =~= old(out)@ + cbor_head(major as nat, v as nat));
}

fn push_text(out: &mut Vec<u8>, s: &String)
    ensures
        final(out)@ == old(out)@ + cbor_text(s@),
{
    let bytes = s.as_str().as_bytes();
    push_head(out, 3, bytes.len() as u64);
    let ghost start = out@;
    let mut i: usize = 0;
    while i < bytes.len()
        invariant
            i <= bytes@.len(),
            bytes@ == encode_utf8(s@),
            out@ == start + bytes@.subrange(0, i as int),
        decreases bytes@.len() - i,
    {
        out.push(bytes[i]);
        assert(out@ =~= start + bytes@.subrange(0, i + 1));
        i = i + 1;
    }
    assert(bytes@.subrange(0, bytes@.len() as int) =~= bytes@);
    assert(final(out)@ =~= old(out)@ + cbor_text(s@));
}

fn push_tokens(out: &mut Vec<u8>, e8s: u64)
    ensures
        final(out)@ == old(out)@ + tokens_bytes(e8s),
{
    push_head(out, 5, 1);
    push_head(out, 0, 0);
    push_head(out, 0, e8s);
    assert(final(out)@ =~= old(out)@ + tokens_bytes(e8s));
}

impl Operation {
    fn encode_into(&self, out: &mut Vec<u8>)
        ensures
            final(out)@ == old(out)@ + operation_bytes(*self),
    {
        push_head(out, 5, 1);
        match self {
            Operation::Burn { from, amount } => {
                push_head(out, 0, 0);
                push_head(out, 5, 2);
                push_head(out, 0, 0);
                push_text(out, from);
                push_head(out, 0, 1);
                push_tokens(out, *amount);
            },
            Operation::Mint { to, amount } => {
                push_head(out, 0, 1);
                push_head(out, 5, 2);
                push_head(out, 0, 0);
                push_text(out, to);
                push_head(out, 0, 1);
                push_tokens(out, *amount);
            },
            Operation::Transfer { from, to, amount, fee } => {
                push_head(out, 0, 2);
                push_head(out, 5, 4);
                push_head(out, 0, 0);
                push_text(out, from);
                push_head(out, 0, 1);
                push_text(out, to);
                push_head(out, 0, 2);
                push_tokens(out, *amount);
                push_head(out, 0, 3);
                push_tokens(out, *fee);
            },
        }
        assert(final(out)@ =~= old(out)@ + operation_bytes(*self));
    }
}

impl Transaction {
    /// The transaction in packed CBOR: each record a map keyed by field
    /// index, each enum a one-entry map keyed by variant index.
    pub fn encode(&self) -> (r: Vec<u8>)
        ensures
            r@ == transaction_bytes(*self),
    {
        let mut out: Vec<u8> = Vec::new();
        push_head(&mut out, 5, 3);
        push_head(&mut out, 0, 0);
        self.operation.encode_into(&mut out);
        push_head(&mut out, 0, 1);
        push_head(&mut out, 0, self.memo);
        push_head(&mut out, 0, 2);
        push_head(&mut out, 5, 1);
        push_head(&mut out, 0, 0);
        push_head(&mut out, 0, self.created_at_time);
        assert(out@ =~= transaction_bytes(*self));
        out
    }

    /// The transaction's digest: SHA-256 of its packed form.
    pub fn hash(&self) -> (r: TransactionHash)
        ensures
            r@ == transaction_hash(*self),
    {
        let bytes = self.encode();
        sha256(&bytes)
    }
}

/// A transfer on the legacy ledger, as a client submits it.
pub struct TransferArgs {
    pub memo: u64,
    /// In e8s.
    pub amount: u64,
    /// In e8s.
    pub fee: u64,
    pub from_subaccount: Option<[u8; 32]>,
    pub to: AccountIdentifier,
    /// Nanoseconds since the epoch.
    pub created_at_time: Option<u64>,
}

/// The subaccount a transfer is sent from: the one named, else the default.
pub open spec fn source_subaccount(args: TransferArgs) -> Seq<u8> {
    match args.from_subaccount {
        Some(s) => s@,
        None => default_subaccount(),
    }
}

/// The record that the ledger hashes for a transfer sent by `sender`.
pub open spec fn transfer_record(sender: Seq<u8>, args: TransferArgs) -> Seq<u8> {
    cbor_map(3) + field(
        0,
        cbor_map(1) + cbor_uint(2) + cbor_map(4)
            + field(0, cbor_text(hex_text(account_identifier_bytes(sender, source_subaccount(args)))))
            + field(1, cbor_text(hex_text(args.to@))) + field(2, tokens_bytes(args.amount))
            + field(3, tokens_bytes(args.fee)),
    ) + field(1, cbor_uint(args.memo as nat)) + field(
        2,
        cbor_map(1) + field(0, cbor_uint(args.created_at_time->Some_0 as nat)),
    )
}

/// The digest under which the ledger records the transfer `args` made by
/// `sender`. The creation time must be set: without it the digest would not
/// match the ledger's.
pub fn calculate_transaction_hash(sender: CanisterId, args: &TransferArgs) -> (r: TransactionHash)
    requires
        sender.wf(),
        args.created_at_time is Some,
    ensures
        r@ == sha256_digest(transfer_record(sender@, *args)),
{
    let subaccount = match &args.from_subaccount {
        Some(s) => *s,
        None => [0u8; 32],
    };
    assert(subaccount@ =~= source_subaccount(*args));
    let from = account_identifier(&sender, &subaccount);
    let created_at_time = match args.created_at_time {
        Some(t) => t,
        None => 0,
    };
    let transaction = Transaction {
        operation: Operation::Transfer {
            from: from.to_text(),
            to: args.to.to_text(),
            amount: args.amount,
            fee: args.fee,
        },
        memo: args.memo,
        created_at_time,
    };
    assert(transaction_bytes(transaction) =~= transfer_record(sender@, *args));
    transaction.hash()
}

} // verus!
