//! Typed identity records: claimed fields and per-identity state.
//!
//! An `IdentityField` is a claimed value keyed by its field kind,
//! together with the field's verification status. An `IdentityState` is
//! one identity's record: its fields (kinds unique, none of them a
//! reserved routing tag), its canonical network address and its overall
//! judgement. Both are immutable snapshots: changing a field means
//! constructing a new `IdentityState`. Two states are equal exactly when
//! address, all fields and judgement are equal; the aggregate's
//! duplicate detection is this full-value equality, not a key match.

use vstd::prelude::*;

use crate::address::{Account, NetworkAddress, NetworkAddressView};
use crate::tokens::{account_type_token, AccountType, ChallengeStatus, Judgement};

verus! {

/// The mathematical content of an `IdentityField`.
#[verifier::ext_equal]
pub ghost struct FieldView {
    pub account_type: AccountType,
    pub value: Seq<char>,
    pub status: ChallengeStatus,
}

/// A claimed value for one field kind, with its verification status.
#[derive(Clone, Debug, PartialEq, Eq)]
pub struct IdentityField {
    account_type: AccountType,
    value: Account,
    status: ChallengeStatus,
}

impl View for IdentityField {
    type V = FieldView;

    closed spec fn view(&self) -> FieldView {
        FieldView { account_type: self.account_type, value: self.value@, status: self.status }
    }
}

impl IdentityField {
    /// A fresh claim: its status starts `Unconfirmed`.
    pub fn new(account_type: AccountType, value: Account) -> (r: IdentityField)
        ensures
            r@.account_type == account_type,
            r@.value == value@,
            r@.status == ChallengeStatus::Unconfirmed,
    {
        IdentityField { account_type, value, status: ChallengeStatus::Unconfirmed }
    }

    /// The same claim with the given status.
    pub fn with_status(account_type: AccountType, value: Account, status: ChallengeStatus) -> (r:
        IdentityField)
        ensures
            r@ == (FieldView { account_type, value: value@, status }),
    {
        IdentityField { account_type, value, status }
    }

    /// The field kind.
    pub fn account_type(&self) -> (r: &AccountType)
        ensures
            *r == self@.account_type,
    {
        &self.account_type
    }

    /// The claimed value.
    pub fn value(&self) -> (r: &Account)
        ensures
            r@ == self@.value,
    {
        &self.value
    }

    /// The verification status.
    pub fn status(&self) -> (r: &ChallengeStatus)
        ensures
            *r == self@.status,
    {
        &self.status
    }

    /// An equal copy of this field.
    pub fn duplicate(&self) -> (r: IdentityField)
        ensures
            r@ == self@,
    {
        let r = IdentityField {
            account_type: self.account_type,
            value: self.value.duplicate(),
            status: self.status,
        };
        proof {
            assert(r@ =~= self@);
        }
        r
    }

    /// Whether two fields are equal in kind, value and status.
    pub fn same(&self, other: &IdentityField) -> (r: bool)
        ensures
            r == (self@ == other@),
    {
        let r = self.account_type == other.account_type && self.value.same(&other.value)
            && self.status == other.status;
        proof {
            if r {
                assert(self@ =~= other@);
            }
        }
        r
    }
}

/// The mathematical content of an `IdentityState`.
#[verifier::ext_equal]
pub ghost struct StateView {
    pub address: NetworkAddressView,
    pub fields: Seq<FieldView>,
    pub judgement: Judgement,
}

/// The views of a list of fields, in order.
pub open spec fn view_of_fields(fields: Seq<IdentityField>) -> Seq<FieldView> {
    Seq::new(fields.len(), |i: int| fields[i]@)
}

/// Well-formed persisted fields: kinds unique, and every kind storable
/// (the reserved routing tags never appear in persisted identity state).
pub open spec fn fields_wf(fields: Seq<FieldView>) -> bool {
    &&& forall|i: int, j: int|
        0 <= i < j < fields.len() ==> fields[i].account_type != fields[j].account_type
    &&& forall|i: int| 0 <= i < fields.len() ==> account_type_token(#[trigger] fields[i].account_type) is Some
}

/// Whether the fields hold an entry of this kind.
pub open spec fn has_kind(fields: Seq<FieldView>, t: AccountType) -> bool {
    exists|i: int| 0 <= i < fields.len() && fields[i].account_type == t
}

/// The index of the entry of this kind.
pub open spec fn kind_idx(fields: Seq<FieldView>, t: AccountType) -> int {
    choose|i: int| 0 <= i < fields.len() && fields[i].account_type == t
}

/// Replace the entry of the same kind, or add the field at the end.
pub open spec fn upsert_field(fields: Seq<FieldView>, f: FieldView) -> Seq<FieldView> {
    if has_kind(fields, f.account_type) {
        fields.update(kind_idx(fields, f.account_type), f)
    } else {
        fields.push(f)
    }
}

/// One identity's record: an immutable snapshot of its claimed fields,
/// canonical address and judgement.
#[derive(Clone, Debug)]
pub struct IdentityState {
    address: NetworkAddress,
    fields: Vec<IdentityField>,
    judgement: Judgement,
}

impl View for IdentityState {
    type V = StateView;

    closed spec fn view(&self) -> StateView {
        StateView {
            address: self.address@,
            fields: view_of_fields(self.fields@),
            judgement: self.judgement,
        }
    }
}

impl IdentityState {
    /// A well-formed state carries well-formed fields.
    pub open spec fn wf(&self) -> bool {
        fields_wf(self@.fields)
    }

    /// Construct an immutable snapshot. The fields must carry unique,
    /// storable kinds.
    pub fn new(address: NetworkAddress, fields: Vec<IdentityField>, judgement: Judgement) -> (r:
        IdentityState)
        requires
            fields_wf(view_of_fields(fields@)),
        ensures
            r@ == (StateView { address: address@, fields: view_of_fields(fields@), judgement }),
            r.wf(),
    {
        let r = IdentityState { address, fields, judgement };
        proof {
            assert(r@ =~= (StateView {
                address: r.address@,
                fields: view_of_fields(r.fields@),
                judgement: r.judgement,
            }));
        }
        r
    }

    /// The identity's canonical network address.
    pub fn address(&self) -> (r: &NetworkAddress)
        ensures
            r@ == self@.address,
    {
        &self.address
    }

    /// The claimed fields, in construction order.
    pub fn fields(&self) -> (r: &Vec<IdentityField>)
        ensures
            view_of_fields(r@) == self@.fields,
    {
        &self.fields
    }

    /// The identity's overall judgement.
    pub fn judgement(&self) -> (r: &Judgement)
        ensures
            *r == self@.judgement,
    {
        &self.judgement
    }

    /// The field of this kind, if the record holds one.
    pub fn field(&self, account_type: &AccountType) -> (r: Option<&IdentityField>)
        ensures
            match r {
                Some(f) => exists|i: int|
                    0 <= i < self@.fields.len() && self@.fields[i] == f@ && f@.account_type
                        == *account_type,
                None => !has_kind(self@.fields, *account_type),
            },
    {
        let n = self.fields.len();
        let mut i: usize = 0;
        while i < n
            invariant
                n == self.fields@.len(),
                i <= n,
                forall|j: int|
                    0 <= j < i ==> (#[trigger] self@.fields[j]).account_type != *account_type,
            decreases n - i,
        {
            if self.fields[i].account_type() == account_type {
                proof {
                    assert(self@.fields[i as int] == self.fields@[i as int]@);
                }
                return Some(&self.fields[i]);
            }
            i = i + 1;
        }
        None
    }

    /// A new snapshot with this field replacing the entry of the same
    /// kind, or added at the end: changing a field never mutates the
    /// old record.
    pub fn with_field(&self, field: IdentityField) -> (r: IdentityState)
        requires
            self.wf(),
            account_type_token(field@.account_type) is Some,
        ensures
            r@.address == self@.address,
            r@.judgement == self@.judgement,
            r@.fields == upsert_field(self@.fields, field@),
            r.wf(),
    {
        let mut updated = self.duplicate();
        let n = updated.fields.len();
        let mut i: usize = 0;
        while i < n
            invariant
                n == updated.fields@.len(),
                updated@ == self@,
                self.wf(),
                forall|j: int|
                    0 <= j < i ==> (#[trigger] self@.fields[j]).account_type
                        != field@.account_type,
                i <= n,
            decreases n - i,
        {
            if *updated.fields[i].account_type() == *field.account_type() {
                proof {
                    assert(self@.fields[i as int].account_type == field@.account_type);
                    assert(has_kind(self@.fields, field@.account_type));
                    let k = kind_idx(self@.fields, field@.account_type);
                    assert(0 <= k < self@.fields.len() && self@.fields[k].account_type
                        == field@.account_type);
                    if k != i as int {
                        assert(self@.fields[k].account_type != self@.fields[
                            i as int
                        ].account_type);
                    }
                    assert(k == i as int);
                }
                let ghost old_view = updated@;
                updated.fields[i] = field;
                proof {
                    assert(updated@.fields =~= old_view.fields.update(i as int, field@));
                    assert(updated@ =~= (StateView {
                        address: self@.address,
                        fields: upsert_field(self@.fields, field@),
                        judgement: self@.judgement,
                    }));
                    // The replacement keeps every kind in place, so
                    // well-formedness carries over from the old record.
                    assert(forall|a: int|
                        0 <= a < updated@.fields.len() ==> (#[trigger] updated@.fields[
                            a
                        ]).account_type == self@.fields[a].account_type);
                }
                return updated;
            }
            i = i + 1;
        }
        proof {
            assert(!has_kind(self@.fields, field@.account_type));
        }
        let ghost old_view = updated@;
        updated.fields.push(field);
        proof {
            assert(updated@.fields =~= old_view.fields.push(field@));
            assert(updated@ =~= (StateView {
                address: self@.address,
                fields: upsert_field(self@.fields, field@),
                judgement: self@.judgement,
            }));
            assert forall|a: int, b: int|
                0 <= a < b < updated@.fields.len() implies (#[trigger] updated@.fields[
                a
            ]).account_type != (#[trigger] updated@.fields[b]).account_type by {
                if b < self@.fields.len() {
                    assert(self@.fields[a].account_type != self@.fields[b].account_type);
                } else {
                    assert(self@.fields[a].account_type != field@.account_type);
                }
            }
        }
        updated
    }

    /// An equal copy of this state.
    pub fn duplicate(&self) -> (r: IdentityState)
        ensures
            r@ == self@,
    {
        let mut fields: Vec<IdentityField> = Vec::new();
        let mut i: usize = 0;
        while i < self.fields.len()
            invariant
                i <= self.fields@.len(),
                fields@.len() == i,
                forall|j: int| 0 <= j < i ==> fields@[j]@ == self.fields@[j]@,
            decreases self.fields@.len() - i,
        {
            fields.push(self.fields[i].duplicate());
            i = i + 1;
        }
        let r = IdentityState {
            address: self.address.duplicate(),
            fields,
            judgement: self.judgement,
        };
        proof {
            assert(view_of_fields(r.fields@) =~= view_of_fields(self.fields@));
            assert(r@ =~= self@);
        }
        r
    }
}

impl PartialEq for IdentityState {
    /// Full-value equality: address, every field, and judgement.
    fn eq(&self, other: &Self) -> (r: bool) {
        if !self.address.same_address(&other.address) {
            return false;
        }
        if !(self.judgement == other.judgement) {
            return false;
        }
        if self.fields.len() != other.fields.len() {
            proof {
                assert(self@.fields.len() != other@.fields.len());
            }
            return false;
        }
        let n = self.fields.len();
        let mut i: usize = 0;
        while i < n
            invariant
                n == self.fields@.len(),
                n == other.fields@.len(),
                i <= n,
                forall|j: int| 0 <= j < i ==> self.fields@[j]@ == other.fields@[j]@,
            decreases n - i,
        {
            if !self.fields[i].same(&other.fields[i]) {
                proof {
                    assert(self@.fields[i as int] != other@.fields[i as int]);
                }
                return false;
            }
            i = i + 1;
        }
        proof {
            assert(self@.fields =~= other@.fields);
            assert(self@ =~= other@);
        }
        true
    }
}

impl vstd::std_specs::cmp::PartialEqSpecImpl for IdentityState {
    open spec fn obeys_eq_spec() -> bool {
        true
    }

    open spec fn eq_spec(&self, other: &IdentityState) -> bool {
        self@ == other@
    }
}

} // verus!
