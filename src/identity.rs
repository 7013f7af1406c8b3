use vstd::prelude::*;

verus! {

/// A character that may stand anywhere in an account name.
pub open spec fn is_id_alnum(c: char) -> bool {
    ('a' <= c && c <= 'z') || ('0' <= c && c <= '9')
}

/// A separator: it may only stand between two alphanumeric runs.
pub open spec fn is_id_separator(c: char) -> bool {
    c == '-' || c == '_' || c == '.'
}

/// The grammar of a NEAR account name: 2 to 64 characters from `a-z`, `0-9`,
/// `-`, `_` and `.`, where a separator neither starts nor ends the name and
/// never follows another separator.
pub open spec fn is_account_id(s: Seq<char>) -> bool {
    &&& 2 <= s.len() <= 64
    &&& forall|i: int| 0 <= i < s.len() ==> is_id_alnum(#[trigger] s[i]) || is_id_separator(s[i])
    &&& !is_id_separator(s[0])
    &&& !is_id_separator(s[s.len() - 1])
    &&& forall|i: int|
        0 <= i < s.len() - 1 ==> !(is_id_separator(#[trigger] s[i]) && is_id_separator(s[i + 1]))
}

/// Every account name is plain ASCII.
pub proof fn lemma_account_id_is_ascii(s: Seq<char>)
    requires
        is_account_id(s),
    ensures
        vstd::utf8::is_ascii_chars(s),
{
    assert forall|i: int| 0 <= i < s.len() implies '\0' <= #[trigger] s[i] <= '\u{7f}' by {
        assert(is_id_alnum(s[i]) || is_id_separator(s[i]));
    }
}

/// Relies on `near_workspaces::AccountId::validate` (near-account-id 2.6): it returns
/// `Ok` exactly for the names that `is_account_id` describes.
#[verifier::external_body]
fn account_id_is_valid(s: &str) -> (r: bool)
    ensures
        r == is_account_id(s@),
{
    near_workspaces::AccountId::validate(s).is_ok()
}

/// The name of an account on the ledger, in its canonical textual form.
#[derive(Debug)]
pub struct Identity {
    id: String,
}

impl View for Identity {
    type V = Seq<char>;

    closed spec fn view(&self) -> Seq<char> {
        self.id@
    }
}

impl Identity {
    #[verifier::type_invariant]
    spec fn well_formed(self) -> bool {
        is_account_id(self.id@)
    }

    /// Accepts `s` exactly when it is a well-formed account name.
    pub fn parse(s: &str) -> (r: Option<Identity>)
        ensures
            r is Some <==> is_account_id(s@),
            r matches Some(id) ==> id@ == s@,
    {
        if account_id_is_valid(s) {
            Some(Identity { id: s.to_owned() })
        } else {
            None
        }
    }

    pub fn as_str(&self) -> (r: &str)
        ensures
            r@ == self@,
            is_account_id(r@),
    {
        proof {
            use_type_invariant(self);
        }
        self.id.as_str()
    }

    pub fn duplicate(&self) -> (r: Identity)
        ensures
            r@ == self@,
    {
        proof {
            use_type_invariant(self);
        }
        Identity { id: self.id.clone() }
    }
}

} // verus!
