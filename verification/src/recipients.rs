//! Turning what the user typed into a recipient field into a contact.
//!
//! The address grammar (RFC 5322 mailboxes such as `"Name" <addr>`) is
//! parsed by the core crate's address-list parser; these functions take
//! the text and the addresses that parser found, and decide the result.

use vstd::prelude::*;

use crate::compose::Contact;
use crate::config::str_contains_char;
use crate::text::{chars_of, debug_quoted, debug_text, decimal, decimal_string, owned, push_str, string_from_chars, trim_chars, trim_spec};

verus! {

/// One address found by the address-list parser.
#[derive(Debug, Clone, PartialEq, Eq)]
pub struct ParsedAddress {
    /// Display name, if the mailbox had one.
    pub name: Option<String>,
    /// The address itself.
    pub address: String,
}

/// A contact as texts: display name and address.
pub open spec fn contact_texts(c: Contact) -> (Seq<char>, Seq<char>) {
    (c.name@, c.address@)
}

/// The contact of a parsed address: its name (empty when absent) and its
/// address.
pub open spec fn contact_of(p: ParsedAddress) -> (Seq<char>, Seq<char>) {
    (
        match p.name {
            Some(n) => n@,
            None => Seq::empty(),
        },
        p.address@,
    )
}

/// What validating a recipient gives for the typed text `input` whose
/// trimmed form parsed to `parsed`: the single contact, or the message
/// that explains why there is none.
pub open spec fn recipient_validation(input: Seq<char>, parsed: Seq<ParsedAddress>) -> Result<
    (Seq<char>, Seq<char>),
    Seq<char>,
> {
    let t = trim_spec(input);
    if t.len() == 0 {
        Err("recipient is empty"@)
    } else if parsed.len() == 0 {
        Err("could not parse "@ + debug_text(t) + " as an email address"@)
    } else if parsed.len() > 1 {
        Err("expected one address, got "@ + decimal(parsed.len()) + " in "@ + debug_text(t))
    } else if parsed[0].address@.len() == 0 || !parsed[0].address@.contains('@') {
        Err(debug_text(t) + " is not a valid email address"@)
    } else {
        Ok(contact_of(parsed[0]))
    }
}

/// The trimmed text of a recipient field, handed to the address parser.
pub fn trimmed_input(input: &str) -> (r: String)
    ensures
        r@ == trim_spec(input@),
{
    let v = chars_of(input);
    let t = trim_chars(v.as_slice());
    string_from_chars(t.as_slice())
}

/// Validate one recipient for sending: exactly one address, holding an
/// `@`, must have been parsed from the non-empty trimmed text.
pub fn recipient_from_parsed(input: &str, parsed: Vec<ParsedAddress>) -> (r: Result<Contact, String>)
    requires
        parsed@.len() <= u64::MAX,
    ensures
        match r {
            Ok(c) => recipient_validation(input@, parsed@) == Ok::<(Seq<char>, Seq<char>), Seq<char>>(contact_texts(c)),
            Err(e) => recipient_validation(input@, parsed@) == Err::<(Seq<char>, Seq<char>), Seq<char>>(e@),
        },
{
    let t = trimmed_input(input);
    if t.as_str().is_empty() {
        return Err(owned("recipient is empty"));
    }
    let q = debug_quoted(t.as_str());
    if parsed.len() == 0 {
        let mut m = owned("could not parse ");
        push_str(&mut m, q.as_str());
        push_str(&mut m, " as an email address");
        return Err(m);
    }
    if parsed.len() > 1 {
        let mut m = owned("expected one address, got ");
        let n = decimal_string(parsed.len() as u64);
        push_str(&mut m, n.as_str());
        push_str(&mut m, " in ");
        push_str(&mut m, q.as_str());
        return Err(m);
    }
    let p = &parsed[0];
    if p.address.as_str().is_empty() || !str_contains_char(p.address.as_str(), '@') {
        let mut m = q;
        push_str(&mut m, " is not a valid email address");
        return Err(m);
    }
    let name = match &p.name {
        Some(n) => owned(n.as_str()),
        None => String::new(),
    };
    Ok(Contact { name, address: owned(p.address.as_str()) })
}

/// The contact a recipient field commits: the first parsed address when
/// the trimmed text is non-empty and that address holds an `@`; `None`
/// keeps the raw text in the field for the user to correct.
pub open spec fn committed_recipient(input: Seq<char>, first: Option<ParsedAddress>) -> Option<
    (Seq<char>, Seq<char>),
> {
    if trim_spec(input).len() == 0 {
        None
    } else {
        match first {
            Some(p) => if p.address@.contains('@') {
                Some(contact_of(p))
            } else {
                None
            },
            None => None,
        }
    }
}

/// Commit a recipient typed into a field, given the first address parsed
/// from its trimmed text.
pub fn recipient_from_first(input: &str, first: Option<ParsedAddress>) -> (r: Option<Contact>)
    ensures
        match r {
            Some(c) => committed_recipient(input@, first) == Some(contact_texts(c)),
            None => committed_recipient(input@, first) is None,
        },
{
    let t = trimmed_input(input);
    if t.as_str().is_empty() {
        return None;
    }
    match first {
        Some(p) => {
            if str_contains_char(p.address.as_str(), '@') {
                let name = match &p.name {
                    Some(n) => owned(n.as_str()),
                    None => String::new(),
                };
                Some(Contact { name, address: owned(p.address.as_str()) })
            } else {
                None
            }
        },
        None => None,
    }
}

/// A key pressed in a recipient field, as far as committing goes.
#[derive(Debug, Clone, PartialEq, Eq)]
pub enum FieldKey {
    /// The Enter key.
    Enter,
    /// A key that types text.
    Character(String),
    /// Any other key.
    Other,
}

/// Enter and comma commit the typed recipient.
pub fn is_recipient_commit_key(key: &FieldKey) -> (r: bool)
    ensures
        r == match key {
            FieldKey::Enter => true,
            FieldKey::Character(s) => s@ == ","@,
            FieldKey::Other => false,
        },
{
    match key {
        FieldKey::Enter => true,
        FieldKey::Character(s) => crate::text::str_eq(s.as_str(), ","),
        FieldKey::Other => false,
    }
}

} // verus!
