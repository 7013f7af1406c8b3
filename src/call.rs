use vstd::prelude::*;

use crate::identity::{is_account_id, Identity};
use crate::text::chars_of;

verus! {

broadcast use vstd::string::group_string_axioms;

/// How a call is handed to the ledger.
#[derive(PartialEq, Eq, Structural, Clone, Copy, Debug)]
pub enum SubmissionMode {
    /// Wait until the call is final and report its outcome.
    Wait,
    /// Return once the ledger has accepted the call; its outcome is not collected.
    FireAndForget,
}

/// Why a call could not be built.
#[derive(PartialEq, Eq, Structural, Clone, Copy, Debug)]
pub enum BuildError {
    InvalidTarget,
    InvalidCaller,
    InvalidReceiver,
    InvalidOwner,
    InvalidAmount,
}

/// A fully specified contract call that has not been submitted.
#[derive(Debug)]
pub struct CallDescriptor {
    pub target: Identity,
    pub method: String,
    pub caller: Identity,
    /// The call's JSON object, as pairs of field name and string value.
    pub args: Vec<(String, String)>,
    /// The attached value, in the ledger's smallest unit.
    pub deposit: u128,
    pub mode: SubmissionMode,
}

/// The text of a field list.
pub open spec fn fields_view(args: Seq<(String, String)>) -> Seq<(Seq<char>, Seq<char>)> {
    args.map_values(|p: (String, String)| (p.0@, p.1@))
}

/// The compact JSON text of the object whose fields are `fields`, each value a
/// JSON string.
pub uninterp spec fn json_string_object(fields: Seq<(Seq<char>, Seq<char>)>) -> Seq<char>;

/// Relies on `serde_json::Value`'s `Display`, which writes a value as compact
/// JSON text; the text depends on the fields alone.
#[verifier::external_body]
fn json_object_text(fields: &Vec<(String, String)>) -> (r: String)
    ensures
        r@ == json_string_object(fields_view(fields@)),
{
    let mut map = serde_json::Map::new();
    for (k, v) in fields.iter() {
        map.insert(k.clone(), serde_json::Value::String(v.clone()));
    }
    serde_json::Value::Object(map).to_string()
}

impl CallDescriptor {
    /// The call's arguments as JSON text, as the ledger receives them.
    pub fn args_json(&self) -> (r: String)
        ensures
            r@ == json_string_object(fields_view(self.args@)),
    {
        json_object_text(&self.args)
    }
}

pub open spec fn is_digit(c: char) -> bool {
    '0' <= c && c <= '9'
}

pub open spec fn digit_value(c: char) -> nat {
    (c as int - '0' as int) as nat
}

/// The number that a string of decimal digits denotes.
pub open spec fn decimal_value(s: Seq<char>) -> nat
    decreases s.len(),
{
    if s.len() == 0 {
        0
    } else {
        decimal_value(s.drop_last()) * 10 + digit_value(s.last())
    }
}

/// A well-formed amount: one or more decimal digits denoting a value that fits
/// in a `u128`.
pub open spec fn is_amount(s: Seq<char>) -> bool {
    &&& s.len() > 0
    &&& forall|i: int| 0 <= i < s.len() ==> is_digit(#[trigger] s[i])
    &&& decimal_value(s) <= u128::MAX
}

proof fn lemma_decimal_prefix_le(s: Seq<char>, k: int)
    requires
        0 <= k <= s.len(),
        forall|i: int| 0 <= i < s.len() ==> is_digit(#[trigger] s[i]),
    ensures
        decimal_value(s.subrange(0, k)) <= decimal_value(s),
    decreases s.len(),
{
    if k < s.len() {
        let t = s.drop_last();
        assert(t.subrange(0, k) =~= s.subrange(0, k));
        assert forall|i: int| 0 <= i < t.len() implies is_digit(#[trigger] t[i]) by {
            assert(t[i] == s[i]);
        }
        lemma_decimal_prefix_le(t, k);
    } else {
        assert(s.subrange(0, k) =~= s);
    }
}

/// Reads a decimal amount.
pub fn parse_amount(s: &str) -> (r: Option<u128>)
    ensures
        r is Some <==> is_amount(s@),
        r matches Some(v) ==> v == decimal_value(s@),
{
    let cs = chars_of(s);
    if cs.len() == 0 {
        return None;
    }
    let mut v: u128 = 0;
    let mut i: usize = 0;
    while i < cs.len()
        invariant
            cs@ == s@,
            i <= cs@.len(),
            forall|k: int| 0 <= k < i ==> is_digit(#[trigger] cs@[k]),
            v == decimal_value(cs@.subrange(0, i as int)),
        decreases cs@.len() - i,
    {
        let c = cs[i];
        if !('0' <= c && c <= '9') {
            assert(!is_digit(s@[i as int]));
            return None;
        }
        let d = (c as u32 - '0' as u32) as u128;
        let ghost next = cs@.subrange(0, i + 1);
        assert(next.drop_last() =~= cs@.subrange(0, i as int));
        assert(decimal_value(next) == v * 10 + d);
        if v > (u128::MAX - d) / 10 {
            assert(v * 10 + d > u128::MAX) by (nonlinear_arith)
                requires
                    v > (u128::MAX - d) / 10,
                    d <= 9,
            ;
            proof {
                if is_amount(s@) {
                    lemma_decimal_prefix_le(cs@, i + 1);
                }
            }
            return None;
        }
        assert(v * 10 + d <= u128::MAX) by (nonlinear_arith)
            requires
                v <= (u128::MAX - d) / 10,
                d <= 9,
        ;
        v = v * 10 + d;
        i = i + 1;
    }
    assert(cs@.subrange(0, i as int) =~= s@);
    Some(v)
}

/// The fields of an `ft_transfer` call.
pub open spec fn transfer_fields(receiver: Seq<char>, amount: Seq<char>) -> Seq<(Seq<char>, Seq<char>)> {
    seq![("receiver_id"@, receiver), ("amount"@, amount)]
}

/// The first required field of a transfer that is not well formed, if any.
pub open spec fn transfer_error(
    ft_contract: Seq<char>,
    sender: Seq<char>,
    receiver: Seq<char>,
    amount: Seq<char>,
) -> Option<BuildError> {
    if !is_account_id(ft_contract) {
        Some(BuildError::InvalidTarget)
    } else if !is_account_id(sender) {
        Some(BuildError::InvalidCaller)
    } else if !is_account_id(receiver) {
        Some(BuildError::InvalidReceiver)
    } else if !is_amount(amount) {
        Some(BuildError::InvalidAmount)
    } else {
        None
    }
}

/// `d` is the `ft_transfer` call of `amount` tokens from `sender` to
/// `receiver` on `ft_contract`, with the one unit of deposit that the token
/// standard demands.
pub open spec fn is_transfer_call(
    d: CallDescriptor,
    ft_contract: Seq<char>,
    sender: Seq<char>,
    receiver: Seq<char>,
    amount: Seq<char>,
    mode: SubmissionMode,
) -> bool {
    &&& d.target@ == ft_contract
    &&& d.method@ == "ft_transfer"@
    &&& d.caller@ == sender
    &&& fields_view(d.args@) == transfer_fields(receiver, amount)
    &&& d.deposit == 1
    &&& d.mode == mode
}

fn text_field(name: &str, value: &str) -> (r: (String, String))
    ensures
        r.0@ == name@,
        r.1@ == value@,
{
    (name.to_owned(), value.to_owned())
}

/// Builds a token transfer without submitting it. Only the form of the fields
/// is checked; balances and registrations are the ledger's to check.
pub fn ft_transfer(
    ft_contract: &str,
    sender: &str,
    receiver: &str,
    amount: &str,
    mode: SubmissionMode,
) -> (r: Result<CallDescriptor, BuildError>)
    ensures
        match transfer_error(ft_contract@, sender@, receiver@, amount@) {
            Some(e) => r == Err::<CallDescriptor, BuildError>(e),
            None => r matches Ok(d) && is_transfer_call(
                d,
                ft_contract@,
                sender@,
                receiver@,
                amount@,
                mode,
            ),
        },
{
    let target = match Identity::parse(ft_contract) {
        Some(t) => t,
        None => return Err(BuildError::InvalidTarget),
    };
    let caller = match Identity::parse(sender) {
        Some(c) => c,
        None => return Err(BuildError::InvalidCaller),
    };
    if Identity::parse(receiver).is_none() {
        return Err(BuildError::InvalidReceiver);
    }
    if parse_amount(amount).is_none() {
        return Err(BuildError::InvalidAmount);
    }
    let args = vec![text_field("receiver_id", receiver), text_field("amount", amount)];
    let d = CallDescriptor {
        target,
        method: "ft_transfer".to_owned(),
        caller,
        args,
        deposit: 1,
        mode,
    };
    assert(fields_view(d.args@) =~= transfer_fields(receiver@, amount@));
    Ok(d)
}

/// The total supply that a freshly initialised token contract mints.
pub const TOTAL_SUPPLY: &'static str = "1000000000";

/// The fields of the initialising call.
pub open spec fn init_fields(owner: Seq<char>) -> Seq<(Seq<char>, Seq<char>)> {
    seq![("owner_id"@, owner), ("total_supply"@, TOTAL_SUPPLY@)]
}

/// The first required field of the initialising call that is not well formed, if any.
pub open spec fn init_error(ft_contract: Seq<char>, owner: Seq<char>) -> Option<BuildError> {
    if !is_account_id(ft_contract) {
        Some(BuildError::InvalidTarget)
    } else if !is_account_id(owner) {
        Some(BuildError::InvalidOwner)
    } else {
        None
    }
}

/// Builds the call with which the token contract initialises itself with
/// default metadata, owned by `owner_id`, minting `TOTAL_SUPPLY`.
pub fn init_ft_contract(ft_contract: &str, owner_id: &str) -> (r: Result<
    CallDescriptor,
    BuildError,
>)
    ensures
        match init_error(ft_contract@, owner_id@) {
            Some(e) => r == Err::<CallDescriptor, BuildError>(e),
            None => r matches Ok(d) && d.target@ == ft_contract@ && d.caller@ == ft_contract@
                && d.method@ == "new_default_meta"@ && fields_view(d.args@) == init_fields(
                owner_id@,
            ) && d.deposit == 0 && d.mode == SubmissionMode::Wait,
        },
{
    let target = match Identity::parse(ft_contract) {
        Some(t) => t,
        None => return Err(BuildError::InvalidTarget),
    };
    if Identity::parse(owner_id).is_none() {
        return Err(BuildError::InvalidOwner);
    }
    let caller = target.duplicate();
    let args = vec![text_field("owner_id", owner_id), text_field("total_supply", TOTAL_SUPPLY)];
    let d = CallDescriptor {
        target,
        method: "new_default_meta".to_owned(),
        caller,
        args,
        deposit: 0,
        mode: SubmissionMode::Wait,
    };
    assert(fields_view(d.args@) =~= init_fields(owner_id@));
    Ok(d)
}

} // verus!
