//! Validated domain values: subscriber names and email addresses.
//!
//! A `SubscriberName` is non-empty (it holds at least one non-blank
//! character), bounded in length, and free of a small set of disallowed
//! characters. A `SubscriberEmail` is an RFC-shaped address: a non-empty
//! local part, a single `@`, and a non-empty domain, each drawn from its
//! own character set.

use vstd::prelude::*;

verus! {

/// Longest accepted subscriber name, in characters.
pub const MAX_SUBSCRIBER_NAME_LENGTH: usize = 256;

pub open spec fn is_digit_char(c: char) -> bool {
    '0' <= c && c <= '9'
}

pub open spec fn is_alphabetic_char(c: char) -> bool {
    ('a' <= c && c <= 'z') || ('A' <= c && c <= 'Z')
}

pub open spec fn is_alphanumeric_char(c: char) -> bool {
    is_digit_char(c) || is_alphabetic_char(c)
}

/// Blank characters: a name made only of these is considered empty.
pub open spec fn is_blank_char(c: char) -> bool {
    c == ' ' || c == '\t' || c == '\n' || c == '\r'
}

/// Characters a subscriber name may never contain.
pub open spec fn is_disallowed_name_char(c: char) -> bool {
    c == '/' || c == '(' || c == ')' || c == '"' || c == '<' || c == '>' || c == '\\' || c == '{'
        || c == '}'
}

pub open spec fn valid_subscriber_name(s: Seq<char>) -> bool {
    &&& s.len() <= MAX_SUBSCRIBER_NAME_LENGTH
    &&& (exists|i: int| 0 <= i < s.len() && !is_blank_char(#[trigger] s[i]))
    &&& (forall|i: int| 0 <= i < s.len() ==> !is_disallowed_name_char(#[trigger] s[i]))
}

/// Characters accepted in the local part of an address, before the `@`.
pub open spec fn is_email_local_char(c: char) -> bool {
    is_alphanumeric_char(c) || c == '.' || c == '_' || c == '-' || c == '+'
}

/// Characters accepted in the domain of an address, after the `@`.
pub open spec fn is_email_domain_char(c: char) -> bool {
    is_alphanumeric_char(c) || c == '-' || c == '.'
}

/// The address splits at index `i`: a non-empty local part, the `@`,
/// and a non-empty domain. Since `@` is neither a local nor a domain
/// character, at most one index can satisfy this.
pub open spec fn email_split_at(s: Seq<char>, i: int) -> bool {
    &&& 1 <= i
    &&& i + 1 < s.len()
    &&& s[i] == '@'
    &&& (forall|j: int| 0 <= j < i ==> is_email_local_char(#[trigger] s[j]))
    &&& (forall|j: int| i < j < s.len() ==> is_email_domain_char(#[trigger] s[j]))
}

pub open spec fn valid_email(s: Seq<char>) -> bool {
    exists|i: int| email_split_at(s, i)
}

/// A subscriber's display name, validated on construction.
pub struct SubscriberName {
    name: String,
}

impl View for SubscriberName {
    type V = Seq<char>;

    closed spec fn view(&self) -> Seq<char> {
        self.name@
    }
}

impl SubscriberName {
    #[verifier::type_invariant]
    closed spec fn type_inv(self) -> bool {
        valid_subscriber_name(self.name@)
    }

    /// Accepts exactly the valid subscriber names.
    pub fn parse(s: String) -> (r: Result<SubscriberName, String>)
        ensures
            r is Ok <==> valid_subscriber_name(s@),
            r matches Ok(name) ==> name@ == s@,
    {
        let n = s.as_str().unicode_len();
        if n > MAX_SUBSCRIBER_NAME_LENGTH {
            return Err(String::from_str("subscriber names are bounded in length"));
        }
        let mut has_mark: bool = false;
        let mut i: usize = 0;
        while i < n
            invariant
                i <= n,
                n == s@.len(),
                has_mark <==> (exists|j: int| 0 <= j < i && !is_blank_char(#[trigger] s@[j])),
                forall|j: int| 0 <= j < i ==> !is_disallowed_name_char(#[trigger] s@[j]),
            decreases n - i,
        {
            let c = s.as_str().get_char(i);
            if char_is_disallowed_in_name(c) {
                return Err(String::from_str("subscriber names may not contain that character"));
            }
            if !char_is_blank(c) {
                has_mark = true;
            }
            i += 1;
        }
        if !has_mark {
            return Err(String::from_str("subscriber names may not be empty"));
        }
        Ok(SubscriberName { name: s })
    }

    pub fn as_ref(&self) -> (r: &str)
        ensures
            r@ == self@,
            valid_subscriber_name(self@),
    {
        proof {
            use_type_invariant(self);
        }
        self.name.as_str()
    }
}

/// A subscriber's email address, validated on construction.
pub struct SubscriberEmail {
    email: String,
}

impl View for SubscriberEmail {
    type V = Seq<char>;

    closed spec fn view(&self) -> Seq<char> {
        self.email@
    }
}

impl SubscriberEmail {
    #[verifier::type_invariant]
    closed spec fn type_inv(self) -> bool {
        valid_email(self.email@)
    }

    /// Accepts exactly the valid addresses.
    pub fn parse(s: String) -> (r: Result<SubscriberEmail, String>)
        ensures
            r is Ok <==> valid_email(s@),
            r matches Ok(email) ==> email@ == s@,
    {
        let n = s.as_str().unicode_len();
        // Find the first `@`, if any; `n` stands for none found yet.
        let mut at_idx: usize = n;
        let mut i: usize = 0;
        while i < n
            invariant
                i <= n,
                n == s@.len(),
                at_idx == n || at_idx < i,
                at_idx == n ==> forall|j: int| 0 <= j < i ==> s@[j] != '@',
                at_idx < n ==> s@[at_idx as int] == '@' && (forall|j: int|
                    0 <= j < at_idx ==> s@[j] != '@'),
            decreases n - i,
        {
            if at_idx == n && s.as_str().get_char(i) == '@' {
                at_idx = i;
            }
            i += 1;
        }
        if at_idx == n {
            proof {
                assert(!valid_email(s@)) by {
                    if valid_email(s@) {
                        let w = choose|w: int| email_split_at(s@, w);
                        assert(s@[w] == '@');
                    }
                }
            }
            return Err(String::from_str("an email address must contain an @"));
        }
        if at_idx == 0 || at_idx + 1 >= n {
            proof {
                assert(!valid_email(s@)) by {
                    if valid_email(s@) {
                        let w = choose|w: int| email_split_at(s@, w);
                        if w < at_idx {
                            assert(s@[w] == '@');
                        } else if w > at_idx {
                            assert(is_email_local_char(s@[at_idx as int]));
                        }
                    }
                }
            }
            return Err(String::from_str("an email address needs a local part and a domain"));
        }
        let mut j: usize = 0;
        while j < at_idx
            invariant
                j <= at_idx,
                at_idx < n,
                n == s@.len(),
                s@[at_idx as int] == '@',
                forall|k: int| 0 <= k < at_idx ==> s@[k] != '@',
                forall|k: int| 0 <= k < j ==> is_email_local_char(#[trigger] s@[k]),
            decreases at_idx - j,
        {
            let c = s.as_str().get_char(j);
            if !char_is_email_local(c) {
                proof {
                    assert(!valid_email(s@)) by {
                        if valid_email(s@) {
                            let w = choose|w: int| email_split_at(s@, w);
                            if w < at_idx {
                                assert(s@[w] == '@');
                            } else if w > at_idx {
                                assert(is_email_local_char(s@[at_idx as int]));
                            } else {
                                assert(is_email_local_char(s@[j as int]));
                            }
                        }
                    }
                }
                return Err(String::from_str("the local part holds an unexpected character"));
            }
            j += 1;
        }
        let mut k: usize = at_idx + 1;
        while k < n
            invariant
                at_idx < k <= n,
                at_idx + 1 < n,
                n == s@.len(),
                s@[at_idx as int] == '@',
                forall|m: int| 0 <= m < at_idx ==> s@[m] != '@',
                forall|m: int| 0 <= m < at_idx ==> is_email_local_char(#[trigger] s@[m]),
                forall|m: int| at_idx < m < k ==> is_email_domain_char(#[trigger] s@[m]),
            decreases n - k,
        {
            let c = s.as_str().get_char(k);
            if !char_is_email_domain(c) {
                proof {
                    assert(!valid_email(s@)) by {
                        if valid_email(s@) {
                            let w = choose|w: int| email_split_at(s@, w);
                            if w < at_idx {
                                assert(s@[w] == '@');
                            } else if w > at_idx {
                                assert(is_email_local_char(s@[at_idx as int]));
                            } else {
                                assert(is_email_domain_char(s@[k as int]));
                            }
                        }
                    }
                }
                return Err(String::from_str("the domain holds an unexpected character"));
            }
            k += 1;
        }
        proof {
            assert(email_split_at(s@, at_idx as int));
        }
        Ok(SubscriberEmail { email: s })
    }

    pub fn as_ref(&self) -> (r: &str)
        ensures
            r@ == self@,
            valid_email(self@),
    {
        proof {
            use_type_invariant(self);
        }
        self.email.as_str()
    }

    /// An owned copy of the same address.
    pub fn duplicate(&self) -> (r: SubscriberEmail)
        ensures
            r@ == self@,
    {
        proof {
            use_type_invariant(self);
        }
        SubscriberEmail { email: self.email.clone() }
    }
}

/// A validated subscription request: who signs up, and where to write.
pub struct Subscriber {
    pub name: SubscriberName,
    pub email: SubscriberEmail,
}

impl Subscriber {
    /// Accepts exactly the pairs whose two parts are both valid.
    pub fn parse(name: String, email: String) -> (r: Result<Subscriber, String>)
        ensures
            r is Ok <==> valid_subscriber_name(name@) && valid_email(email@),
            r matches Ok(s) ==> s.name@ == name@ && s.email@ == email@,
    {
        let name = SubscriberName::parse(name)?;
        let email = SubscriberEmail::parse(email)?;
        Ok(Subscriber { name, email })
    }
}

fn char_is_blank(c: char) -> (r: bool)
    ensures
        r == is_blank_char(c),
{
    c == ' ' || c == '\t' || c == '\n' || c == '\r'
}

fn char_is_disallowed_in_name(c: char) -> (r: bool)
    ensures
        r == is_disallowed_name_char(c),
{
    c == '/' || c == '(' || c == ')' || c == '"' || c == '<' || c == '>' || c == '\\' || c == '{'
        || c == '}'
}

pub(crate) fn char_is_alphanumeric(c: char) -> (r: bool)
    ensures
        r == is_alphanumeric_char(c),
{
    ('0' <= c && c <= '9') || ('a' <= c && c <= 'z') || ('A' <= c && c <= 'Z')
}

fn char_is_email_local(c: char) -> (r: bool)
    ensures
        r == is_email_local_char(c),
{
    char_is_alphanumeric(c) || c == '.' || c == '_' || c == '-' || c == '+'
}

fn char_is_email_domain(c: char) -> (r: bool)
    ensures
        r == is_email_domain_char(c),
{
    char_is_alphanumeric(c) || c == '-' || c == '.'
}

} // verus!
