//! The escrow ledger: records keyed by claim code, with the single-claim
//! and expiry rules.
//!
//! The ledger owns its records.  Claim codes are unique across records, a
//! record's `claimed` flag moves from false to true exactly once, and every
//! failing operation leaves the ledger unchanged.

use vstd::prelude::*;
use vstd::slice::slice_to_vec;
use crate::byteops::bytes_eq;
use crate::errors::EscrowError;
use crate::events::EscrowCreated;
use crate::state::{TokenEscrow, EscrowModel, escrow_wf, escrow_live, MAX_CLAIM_CODE_LEN};

verus! {

/// Seconds in a day; expiry times are `now + expiry_days * 86400`.
pub const SECONDS_PER_DAY: i64 = 86400;

/// The first index whose record carries `code`, if any.
pub open spec fn spec_find(s: Seq<EscrowModel>, code: Seq<u8>) -> Option<int>
    decreases s.len(),
{
    if s.len() == 0 {
        None
    } else if s[0].claim_code == code {
        Some(0)
    } else {
        match spec_find(s.drop_first(), code) {
            Some(i) => Some(i + 1),
            None => None,
        }
    }
}

/// The record under `code`, if any.
pub open spec fn spec_lookup(s: Seq<EscrowModel>, code: Seq<u8>) -> Option<EscrowModel> {
    match spec_find(s, code) {
        Some(i) => Some(s[i]),
        None => None,
    }
}

/// No two records share a claim code.
pub open spec fn codes_unique(s: Seq<EscrowModel>) -> bool {
    forall|i: int, j: int|
        0 <= i < j < s.len() ==> s[i].claim_code != s[j].claim_code
}

/// What `spec_find` returns is the first match, and `None` means no match.
pub proof fn lemma_find_props(s: Seq<EscrowModel>, code: Seq<u8>)
    ensures
        match spec_find(s, code) {
            Some(i) => 0 <= i < s.len() && s[i].claim_code == code && (forall|j: int|
                0 <= j < i ==> s[j].claim_code != code),
            None => forall|j: int| 0 <= j < s.len() ==> s[j].claim_code != code,
        },
    decreases s.len(),
{
    if s.len() > 0 && s[0].claim_code != code {
        lemma_find_props(s.drop_first(), code);
        assert forall|j: int| 0 <= j < s.len() implies s[j].claim_code == s.drop_first()[j - 1].claim_code
            || j == 0 by {}
    }
}

/// A first match at `i` pins `spec_find` to `Some(i)`.
pub proof fn lemma_find_at(s: Seq<EscrowModel>, code: Seq<u8>, i: int)
    requires
        0 <= i < s.len(),
        s[i].claim_code == code,
        forall|j: int| 0 <= j < i ==> s[j].claim_code != code,
    ensures
        spec_find(s, code) == Some(i),
    decreases s.len(),
{
    if i > 0 {
        lemma_find_at(s.drop_first(), code, i - 1);
    }
}

/// Replacing the record at a code's own index leaves every other code's
/// lookup unchanged.
pub proof fn lemma_find_update_other(s: Seq<EscrowModel>, i: int, m: EscrowModel, c: Seq<u8>)
    requires
        0 <= i < s.len(),
        s[i].claim_code == m.claim_code,
        c != m.claim_code,
    ensures
        spec_find(s.update(i, m), c) == spec_find(s, c),
        spec_lookup(s.update(i, m), c) == spec_lookup(s, c),
    decreases s.len(),
{
    let t = s.update(i, m);
    if i == 0 {
        assert(t.drop_first() =~= s.drop_first());
    } else {
        assert(t.drop_first() =~= s.drop_first().update(i - 1, m));
        lemma_find_update_other(s.drop_first(), i - 1, m, c);
    }
    lemma_find_props(s, c);
    if spec_find(s, c) is Some {
        let k = spec_find(s, c).unwrap();
        assert(s[k].claim_code == c);
        assert(k != i);
        assert(t[k] == s[k]);
    }
}

/// Appending a record changes only its own code's lookup.
pub proof fn lemma_find_push(s: Seq<EscrowModel>, m: EscrowModel, c: Seq<u8>)
    ensures
        spec_find(s.push(m), c) == (match spec_find(s, c) {
            Some(i) => Some(i),
            None => if m.claim_code == c {
                Some(s.len() as int)
            } else {
                None
            },
        }),
    decreases s.len(),
{
    let t = s.push(m);
    assert(t.len() == s.len() + 1);
    assert(t[0] == if s.len() == 0 { m } else { s[0] });
    if s.len() > 0 {
        assert(t.drop_first() =~= s.drop_first().push(m));
        lemma_find_push(s.drop_first(), m, c);
    } else {
        assert(t.drop_first() =~= Seq::<EscrowModel>::empty());
        assert(spec_find(t.drop_first(), c) is None);
    }
}

/// The lookup form of `lemma_find_push`.
pub proof fn lemma_lookup_push(s: Seq<EscrowModel>, m: EscrowModel, c: Seq<u8>)
    ensures
        spec_lookup(s.push(m), c) == (match spec_find(s, c) {
            Some(i) => Some(s[i]),
            None => if m.claim_code == c {
                Some(m)
            } else {
                None::<EscrowModel>
            },
        }),
{
    lemma_find_push(s, m, c);
    lemma_find_props(s, c);
    let t = s.push(m);
    if spec_find(s, c) is Some {
        let k = spec_find(s, c).unwrap();
        assert(t[k] == s[k]);
    } else if m.claim_code == c {
        assert(t[s.len() as int] == m);
    }
}

/// Why a claim of `code` at time `now` fails against `s`, or `None` when it
/// succeeds: no record is `InvalidClaimCode`, a claimed record is
/// `AlreadyClaimed`, and a record past its expiry is `EscrowExpired`.
pub open spec fn spec_claim_err(s: Seq<EscrowModel>, code: Seq<u8>, now: i64) -> Option<
    EscrowError,
> {
    match spec_lookup(s, code) {
        None => Some(EscrowError::InvalidClaimCode),
        Some(m) => if m.claimed {
            Some(EscrowError::AlreadyClaimed)
        } else if now > m.expires_at {
            Some(EscrowError::EscrowExpired)
        } else {
            None
        },
    }
}

/// The ledger after a successful claim of `code`: the record under `code`
/// with its `claimed` flag set.
pub open spec fn spec_claim_state(s: Seq<EscrowModel>, code: Seq<u8>) -> Seq<EscrowModel> {
    match spec_find(s, code) {
        Some(i) => s.update(i, (EscrowModel { claimed: true, ..s[i] })),
        None => s,
    }
}

/// Whether a new record may be created under `code` at time `now`: only
/// when no unclaimed, unexpired record already holds the code.
pub open spec fn spec_create_ok(s: Seq<EscrowModel>, code: Seq<u8>, now: i64) -> bool {
    match spec_lookup(s, code) {
        Some(m) => !escrow_live(m, now),
        None => true,
    }
}

/// The record that a successful create writes.
pub open spec fn spec_new_escrow(
    depositor: Seq<u8>,
    amount: u64,
    code: Seq<u8>,
    expiry_days: u32,
    now: i64,
    bump: u8,
) -> EscrowModel {
    EscrowModel {
        depositor: depositor,
        amount: amount,
        claim_code: code,
        claimed: false,
        created_at: now,
        expires_at: (now + expiry_days * SECONDS_PER_DAY) as i64,
        bump: bump,
    }
}

/// The parameters of escrow creation.
#[derive(Clone, Debug)]
pub struct CreateEscrowParams {
    pub amount: u64,
    pub claim_code: Vec<u8>,
    pub expiry_days: u32,
}

/// The escrow records, keyed by claim code.
pub struct EscrowLedger {
    records: Vec<TokenEscrow>,
}

impl View for EscrowLedger {
    type V = Seq<EscrowModel>;

    closed spec fn view(&self) -> Seq<EscrowModel> {
        Seq::new(self.records@.len(), |i: int| self.records@[i]@)
    }
}

impl EscrowLedger {
    /// Claim codes unique and every record well formed.
    pub open spec fn wf(&self) -> bool {
        codes_unique(self@) && (forall|i: int| 0 <= i < self@.len() ==> escrow_wf(#[trigger] self@[i]))
    }

    /// An empty ledger.
    pub fn new() -> (r: EscrowLedger)
        ensures
            r.wf(),
            r@ == Seq::<EscrowModel>::empty(),
    {
        let r = EscrowLedger { records: Vec::new() };
        proof {
            assert(r@ =~= Seq::<EscrowModel>::empty());
        }
        r
    }

    /// How many records the ledger holds.
    pub fn len(&self) -> (n: usize)
        ensures
            n == self@.len(),
    {
        self.records.len()
    }

    /// The record at an index, for audit walks.
    pub fn record_at(&self, i: usize) -> (r: &TokenEscrow)
        requires
            i < self@.len(),
        ensures
            r@ == self@[i as int],
    {
        &self.records[i]
    }

    /// The index of the record under `claim_code`, if any.
    fn find_index(&self, claim_code: &[u8]) -> (r: Option<usize>)
        ensures
            match r {
                Some(i) => spec_find(self@, claim_code@) == Some(i as int),
                None => spec_find(self@, claim_code@) is None,
            },
    {
        let n = self.records.len();
        let mut i: usize = 0;
        while i < n
            invariant
                i <= n == self@.len(),
                forall|j: int| 0 <= j < i ==> self@[j].claim_code != claim_code@,
            decreases n - i,
        {
            let rec = &self.records[i];
            if bytes_eq(rec.claim_code.as_slice(), claim_code) {
                proof {
                    lemma_find_at(self@, claim_code@, i as int);
                }
                return Some(i);
            }
            i = i + 1;
        }
        proof {
            lemma_find_props(self@, claim_code@);
        }
        None
    }

    /// Looks a claim code up; `None` is "not found".
    pub fn lookup(&self, claim_code: &[u8]) -> (r: Option<&TokenEscrow>)
        ensures
            match r {
                Some(rec) => spec_lookup(self@, claim_code@) == Some(rec@),
                None => spec_lookup(self@, claim_code@) is None,
            },
    {
        proof {
            lemma_find_props(self@, claim_code@);
        }
        match self.find_index(claim_code) {
            Some(i) => Some(&self.records[i]),
            None => None,
        }
    }

    /// Creates an escrow under `params.claim_code` at time `now`.  Fails
    /// with `InvalidClaimCode` exactly when an unclaimed, unexpired record
    /// already holds the code; a claimed or expired record under the code
    /// is replaced.  On failure the ledger is unchanged.
    pub fn create_escrow(
        &mut self,
        depositor: [u8; 32],
        params: &CreateEscrowParams,
        now: i64,
        bump: u8,
    ) -> (r: Result<EscrowCreated, EscrowError>)
        requires
            old(self).wf(),
            params.claim_code@.len() <= MAX_CLAIM_CODE_LEN,
            now + params.expiry_days * SECONDS_PER_DAY <= i64::MAX,
        ensures
            final(self).wf(),
            ({
                let new_rec = spec_new_escrow(
                    depositor@,
                    params.amount,
                    params.claim_code@,
                    params.expiry_days,
                    now,
                    bump,
                );
                match r {
                    Ok(ev) => {
                        &&& spec_create_ok(old(self)@, params.claim_code@, now)
                        &&& spec_lookup(final(self)@, params.claim_code@) == Some(new_rec)
                        &&& forall|c: Seq<u8>|
                            c != params.claim_code@ ==> spec_lookup(final(self)@, c)
                                == spec_lookup(old(self)@, c)
                        &&& ev.claim_code@ == params.claim_code@
                        &&& ev.amount == params.amount
                        &&& ev.depositor == depositor
                        &&& ev.expires_at == new_rec.expires_at
                    },
                    Err(e) => {
                        &&& e == EscrowError::InvalidClaimCode
                        &&& !spec_create_ok(old(self)@, params.claim_code@, now)
                        &&& final(self)@ == old(self)@
                    },
                }
            }),
    {
        let expires_at = now + (params.expiry_days as i64) * SECONDS_PER_DAY;
        let new_rec = TokenEscrow {
            depositor,
            amount: params.amount,
            claim_code: slice_to_vec(params.claim_code.as_slice()),
            claimed: false,
            created_at: now,
            expires_at,
            bump,
        };
        let found = self.find_index(params.claim_code.as_slice());
        proof {
            lemma_find_props(self@, params.claim_code@);
        }
        match found {
            Some(i) => {
                let rec = &self.records[i];
                if !rec.claimed && now <= rec.expires_at {
                    return Err(EscrowError::InvalidClaimCode);
                }
                let ghost old_view = self@;
                self.records[i] = new_rec;
                proof {
                    assert(self@ =~= old_view.update(i as int, spec_new_escrow(
                        depositor@,
                        params.amount,
                        params.claim_code@,
                        params.expiry_days,
                        now,
                        bump,
                    )));
                    lemma_find_at(self@, params.claim_code@, i as int);
                    assert forall|c: Seq<u8>| c != params.claim_code@ implies spec_lookup(
                        self@,
                        c,
                    ) == spec_lookup(old_view, c) by {
                        lemma_find_update_other(old_view, i as int, self@[i as int], c);
                    }
                }
            },
            None => {
                let ghost old_view = self@;
                let ghost pushed = spec_new_escrow(
                    depositor@,
                    params.amount,
                    params.claim_code@,
                    params.expiry_days,
                    now,
                    bump,
                );
                self.records.push(new_rec);
                proof {
                    assert(self@ =~= old_view.push(pushed));
                    lemma_lookup_push(old_view, pushed, params.claim_code@);
                    assert forall|c: Seq<u8>| c != params.claim_code@ implies spec_lookup(
                        self@,
                        c,
                    ) == spec_lookup(old_view, c) by {
                        lemma_lookup_push(old_view, pushed, c);
                        lemma_find_props(old_view, c);
                    }
                    lemma_find_props(self@, params.claim_code@);
                }
            },
        }
        let event = EscrowCreated {
            claim_code: slice_to_vec(params.claim_code.as_slice()),
            amount: params.amount,
            depositor,
            expires_at,
        };
        Ok(event)
    }

    /// Marks the record under `claim_code` claimed at time `now`.  Fails
    /// with `InvalidClaimCode` when no record holds the code, with
    /// `AlreadyClaimed` when the record was claimed before, and with
    /// `EscrowExpired` when `now` is past the expiry; the boundary
    /// `now == expires_at` still claims.  On failure the ledger is
    /// unchanged.
    pub fn claim(&mut self, claim_code: &[u8], now: i64) -> (r: Result<(), EscrowError>)
        requires
            old(self).wf(),
        ensures
            final(self).wf(),
            match spec_claim_err(old(self)@, claim_code@, now) {
                Some(e) => r == Err::<(), EscrowError>(e) && final(self)@ == old(self)@,
                None => r == Ok::<(), EscrowError>(()) && final(self)@ == spec_claim_state(
                    old(self)@,
                    claim_code@,
                ),
            },
            r is Ok ==> (spec_lookup(final(self)@, claim_code@) matches Some(m) && m.claimed),
            forall|c: Seq<u8>|
                c != claim_code@ ==> spec_lookup(final(self)@, c) == spec_lookup(old(self)@, c),
    {
        let found = self.find_index(claim_code);
        proof {
            lemma_find_props(self@, claim_code@);
        }
        let i = match found {
            Some(i) => i,
            None => {
                return Err(EscrowError::InvalidClaimCode);
            },
        };
        let rec = &self.records[i];
        if rec.claimed {
            return Err(EscrowError::AlreadyClaimed);
        }
        if now > rec.expires_at {
            return Err(EscrowError::EscrowExpired);
        }
        let updated = TokenEscrow {
            depositor: rec.depositor,
            amount: rec.amount,
            claim_code: slice_to_vec(rec.claim_code.as_slice()),
            claimed: true,
            created_at: rec.created_at,
            expires_at: rec.expires_at,
            bump: rec.bump,
        };
        let ghost old_view = self@;
        self.records[i] = updated;
        proof {
            assert(self@ =~= old_view.update(
                i as int,
                (EscrowModel { claimed: true, ..old_view[i as int] }),
            ));
            lemma_find_at(self@, claim_code@, i as int);
            assert forall|c: Seq<u8>| c != claim_code@ implies spec_lookup(self@, c) == spec_lookup(
                old_view,
                c,
            ) by {
                lemma_find_update_other(old_view, i as int, self@[i as int], c);
            }
        }
        Ok(())
    }
}

/// A claim succeeds at most once per claim code: once a claim of `code` has
/// gone through, every later claim of `code` fails with `AlreadyClaimed`,
/// whatever time it is tried at.
pub proof fn lemma_claim_at_most_once(s: Seq<EscrowModel>, code: Seq<u8>, now1: i64, now2: i64)
    requires
        spec_claim_err(s, code, now1) is None,
    ensures
        spec_claim_err(spec_claim_state(s, code), code, now2) == Some(EscrowError::AlreadyClaimed),
{
    lemma_find_props(s, code);
    let i = spec_find(s, code).unwrap();
    let t = spec_claim_state(s, code);
    lemma_find_at(t, code, i);
}

} // verus!
