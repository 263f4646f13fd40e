use vstd::prelude::*;
use vstd::std_specs::cmp::PartialEqSpecImpl;
use vstd::string::*;
use vstd::utf8::is_ascii_chars;

verus! {

/// Why an address was refused.
#[derive(Debug, PartialEq, Eq, Structural)]
pub enum EmailError {
    InvalidEmail,
}

impl EmailError {
    pub fn to_string(&self) -> (r: String)
        ensures
            r@ == "Formato de email inválido"@,
    {
        "Formato de email inválido".to_string()
    }

    pub fn to_str(&self) -> (r: &str)
        ensures
            r@ == "Formato de email inválido"@,
    {
        "Formato de email inválido"
    }
}

/// Shortest address that is accepted, in characters.
pub const EMAIL_MIN_LEN: usize = 5;

/// Longest address that is accepted, in characters.
pub const EMAIL_MAX_LEN: usize = 254;

/// An address is well formed when it has between 5 and 254 characters, all of
/// them ASCII, and one of them is `@`.
pub open spec fn is_valid_email(address: Seq<char>) -> bool {
    &&& EMAIL_MIN_LEN <= address.len() <= EMAIL_MAX_LEN
    &&& is_ascii_chars(address)
    &&& address.contains('@')
}

/// A validated address. The only way to obtain one is [`Email::new`]. Two are
/// equal when their addresses are.
#[derive(Debug, Hash)]
pub struct Email {
    address: String,
}

impl View for Email {
    type V = Seq<char>;

    closed spec fn view(&self) -> Seq<char> {
        self.address@
    }
}

impl Clone for Email {
    fn clone(&self) -> (r: Self)
        ensures
            r == *self,
    {
        proof {
            use_type_invariant(self);
        }
        Email { address: self.address.clone() }
    }
}

impl PartialEq for Email {
    fn eq(&self, other: &Self) -> (r: bool) {
        self.address == other.address
    }
}

impl Eq for Email {

}

impl PartialEqSpecImpl for Email {
    open spec fn obeys_eq_spec() -> bool {
        true
    }

    open spec fn eq_spec(&self, other: &Self) -> bool {
        self@ == other@
    }
}

impl Email {
    #[verifier::type_invariant]
    spec fn well_formed(&self) -> bool {
        is_valid_email(self.address@)
    }

    pub fn new(address: String) -> (r: Result<Email, EmailError>)
        ensures
            is_valid_email(address@) ==> r is Ok && r->Ok_0@ == address@,
            !is_valid_email(address@) ==> r == Err::<Email, EmailError>(EmailError::InvalidEmail),
    {
        match Email::validate(address.as_str()) {
            Ok(_) => Ok(Email { address }),
            Err(e) => Err(e),
        }
    }

    pub fn validate_string(address: String) -> (r: Result<bool, EmailError>)
        ensures
            r == (if is_valid_email(address@) {
                Ok::<bool, EmailError>(true)
            } else {
                Err::<bool, EmailError>(EmailError::InvalidEmail)
            }),
    {
        Email::validate(address.as_str())
    }

    pub fn validate(address: &str) -> (r: Result<bool, EmailError>)
        ensures
            r == (if is_valid_email(address@) {
                Ok::<bool, EmailError>(true)
            } else {
                Err::<bool, EmailError>(EmailError::InvalidEmail)
            }),
    {
        if !address.is_ascii() {
            return Err(EmailError::InvalidEmail);
        }
        let n: usize = address.unicode_len();
        if n < EMAIL_MIN_LEN || n > EMAIL_MAX_LEN {
            return Err(EmailError::InvalidEmail);
        }
        let mut i: usize = 0;
        while i < n
            invariant
                i <= n,
                n == address@.len(),
                EMAIL_MIN_LEN <= n <= EMAIL_MAX_LEN,
                is_ascii_chars(address@),
                forall|j: int| 0 <= j < i ==> address@[j] != '@',
            decreases n - i,
        {
            if address.get_char(i) == '@' {
                assert(address@[i as int] == '@');
                return Ok(true);
            }
            i += 1;
        }
        Err(EmailError::InvalidEmail)
    }

    /// The address. Whoever holds an `Email` learns here that it is well formed.
    pub fn as_str(&self) -> (r: &str)
        ensures
            r@ == self@,
            is_valid_email(self@),
    {
        proof {
            use_type_invariant(self);
        }
        self.address.as_str()
    }
}

impl AsRef<str> for Email {
    fn as_ref(&self) -> (r: &str)
        ensures
            r@ == self@,
    {
        self.as_str()
    }
}

/// The body of the request that asks the mail service to send one message.
#[derive(Debug)]
pub struct SendEmailRequest<'a> {
    pub from: &'a str,
    pub to: &'a str,
    pub subject: &'a str,
    pub html_body: &'a str,
    pub text_body: &'a str,
    pub message_stream: &'a str,
}

} // verus!
