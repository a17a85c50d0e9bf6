//! Identifiers, session roles and connection modes shared across the platform.

use uuid::Uuid;
use vstd::prelude::*;
use vstd::string::*;

use crate::text::joined;

verus! {

/// Two to the seventy-sixth: the place of the version digit of a UUID.
pub const VERSION_PLACE: u128 = 0x1000_0000_0000_0000_0000;

/// Two to the sixty-second: the place of the variant bits of a UUID.
pub const VARIANT_PLACE: u128 = 0x4000_0000_0000_0000;

/// Whether `id` has the version and the variant of a UUIDv7.
pub open spec fn is_v7(id: u128) -> bool {
    id / VERSION_PLACE % 16 == 7 && id / VARIANT_PLACE % 4 == 2
}

/// The lower-case hexadecimal digit of `d`.
pub open spec fn hex_digit(d: int) -> char {
    if d < 10 {
        ('0' as u32 + d) as char
    } else {
        ('a' as u32 + d - 10) as char
    }
}

/// The last `n` hexadecimal digits of `v`.
pub open spec fn hex_digits(v: nat, n: nat) -> Seq<char>
    decreases n,
{
    if n == 0 {
        Seq::empty()
    } else {
        hex_digits(v / 16, (n - 1) as nat).push(hex_digit(v as int % 16))
    }
}

/// A UUID in its hyphenated form: groups of 8, 4, 4, 4 and 12 digits.
pub open spec fn hyphenated(id: u128) -> Seq<char> {
    let d = hex_digits(id as nat, 32);
    d.subrange(0, 8).push('-') + d.subrange(8, 12).push('-') + d.subrange(12, 16).push('-')
        + d.subrange(16, 20).push('-') + d.subrange(20, 32)
}

/// The UUID that a text stands for, or the description of its fault.
pub uninterp spec fn uuid_parsed(text: Seq<char>) -> Result<u128, Seq<char>>;

/// `Uuid::now_v7`: a version 7 UUID of the present time. Nothing more is known
/// of it.
#[verifier::external_body]
fn uuid_now_v7() -> (id: u128)
    ensures
        is_v7(id),
{
    Uuid::now_v7().as_u128()
}

/// `Display` of `Uuid`: the hyphenated form, which parses to the same UUID.
#[verifier::external_body]
fn uuid_text(id: u128) -> (text: String)
    ensures
        text@ == hyphenated(id),
        uuid_parsed(text@) is Ok && uuid_parsed(text@)->Ok_0 == id,
{
    Uuid::from_u128(id).to_string()
}

/// `Uuid::parse_str`: a function of the text. The error is handed on as its
/// `Display` text.
#[verifier::external_body]
fn uuid_parse(text: &str) -> (r: Result<u128, String>)
    ensures
        r is Ok == uuid_parsed(text@) is Ok,
        r is Ok ==> r->Ok_0 == uuid_parsed(text@)->Ok_0,
        r is Err ==> r->Err_0@ == uuid_parsed(text@)->Err_0,
{
    Uuid::parse_str(text).map(|id| id.as_u128()).map_err(|error| error.to_string())
}

/// Unique identifier for a remote-controlled host device.
#[derive(Debug, Clone, Copy, PartialEq, Eq, Hash, Structural)]
pub struct DeviceId(pub u128);

/// Unique identifier for a remote session between client and host.
#[derive(Debug, Clone, Copy, PartialEq, Eq, Hash, Structural)]
pub struct SessionId(pub u128);

/// Unique identifier for a support user / operator.
#[derive(Debug, Clone, Copy, PartialEq, Eq, Hash, Structural)]
pub struct UserId(pub u128);

/// Unique identifier for a tenant organization.
#[derive(Debug, Clone, Copy, PartialEq, Eq, Hash, Structural)]
pub struct OrganizationId(pub u128);

impl DeviceId {
    /// A new time-ordered identifier.
    pub fn new() -> (id: Self)
        ensures
            is_v7(id.0),
    {
        DeviceId(uuid_now_v7())
    }

    /// The identifier that a UUID text stands for, or what is wrong with it.
    pub fn parse(text: &str) -> (r: Result<DeviceId, String>)
        ensures
            r is Ok == uuid_parsed(text@) is Ok,
            r matches Ok(id) ==> uuid_parsed(text@)->Ok_0 == id.0,
            r matches Err(fault) ==> fault@ == uuid_parsed(text@)->Err_0,
    {
        match uuid_parse(text) {
            Ok(id) => Ok(DeviceId(id)),
            Err(fault) => Err(fault),
        }
    }

    /// The hyphenated form, which parses to the same identifier.
    pub fn to_string(&self) -> (text: String)
        ensures
            text@ == hyphenated(self.0),
            uuid_parsed(text@) == Ok::<u128, Seq<char>>(self.0),
    {
        uuid_text(self.0)
    }
}

impl SessionId {
    /// A new time-ordered identifier.
    pub fn new() -> (id: Self)
        ensures
            is_v7(id.0),
    {
        SessionId(uuid_now_v7())
    }

    /// The hyphenated form.
    pub fn to_string(&self) -> (text: String)
        ensures
            text@ == hyphenated(self.0),
    {
        uuid_text(self.0)
    }
}

impl UserId {
    /// A new time-ordered identifier.
    pub fn new() -> (id: Self)
        ensures
            is_v7(id.0),
    {
        UserId(uuid_now_v7())
    }

    /// The hyphenated form.
    pub fn to_string(&self) -> (text: String)
        ensures
            text@ == hyphenated(self.0),
    {
        uuid_text(self.0)
    }
}

impl OrganizationId {
    /// A new time-ordered identifier.
    pub fn new() -> (id: Self)
        ensures
            is_v7(id.0),
    {
        OrganizationId(uuid_now_v7())
    }

    /// The hyphenated form.
    pub fn to_string(&self) -> (text: String)
        ensures
            text@ == hyphenated(self.0),
    {
        uuid_text(self.0)
    }
}

/// Role a participant holds within a remote session.
/// Only one controller is allowed at a time; viewers are read-only.
#[derive(Debug, Clone, Copy, PartialEq, Eq, Structural)]
pub enum SessionRole {
    Viewer,
    Controller,
    Admin,
}

/// How the client and host device are connected for a session.
#[derive(Debug, Clone, Copy, PartialEq, Eq, Structural)]
pub enum ConnectionMode {
    DirectLan,
    DirectP2p,
    Relay,
}

/// Top-level error type shared across the platform.
#[derive(Debug)]
pub enum Error {
    Config(String),
    InvalidId(String),
    Io(String),
}

impl Error {
    /// The text shown to a user.
    pub open spec fn text(&self) -> Seq<char> {
        match self {
            Error::Config(m) => "configuration error: "@ + m@,
            Error::InvalidId(m) => "invalid identifier: "@ + m@,
            Error::Io(m) => m@,
        }
    }

    /// The text shown to a user.
    pub fn to_string(&self) -> (s: String)
        ensures
            s@ == self.text(),
    {
        match self {
            Error::Config(m) => joined("configuration error: ", m.as_str()),
            Error::InvalidId(m) => joined("invalid identifier: ", m.as_str()),
            Error::Io(m) => m.clone(),
        }
    }
}

proof fn hex_digits_are_places(v: nat, n: nat, i: int)
    requires
        0 <= i < n,
    ensures
        hex_digits(v, n).len() == n,
        hex_digits(v, n)[i] == hex_digit((v / place((n - 1 - i) as nat) % 16) as int),
    decreases n,
{
    hex_digits_have_length(v, n);
    hex_digits_have_length(v / 16, (n - 1) as nat);
    if i < n - 1 {
        let behind = (n - 2 - i) as nat;
        hex_digits_are_places(v / 16, (n - 1) as nat, i);
        let p = place(behind);
        place_is_positive(behind);
        vstd::arithmetic::div_mod::lemma_div_denominator(v as int, 16, p as int);
        assert(place((n - 1 - i) as nat) == 16 * p);
        assert(hex_digits(v, n)[i] == hex_digits(v / 16, (n - 1) as nat)[i]);
        assert((n - 1) as nat - 1 - i == behind);
        assert(v / 16 / p == v / (16 * p));
    } else {
        assert(v / place(0) == v) by {
            vstd::arithmetic::div_mod::lemma_div_basics(v as int);
        }
    }
}

proof fn hex_digits_have_length(v: nat, n: nat)
    ensures
        hex_digits(v, n).len() == n,
    decreases n,
{
    if n > 0 {
        hex_digits_have_length(v / 16, (n - 1) as nat);
    }
}

proof fn place_is_positive(n: nat)
    ensures
        place(n) > 0,
    decreases n,
{
    if n > 0 {
        place_is_positive((n - 1) as nat);
    }
}

/// The value of the hexadecimal place with so many places behind it.
pub open spec fn place(n: nat) -> nat
    decreases n,
{
    if n == 0 {
        1
    } else {
        16 * place((n - 1) as nat)
    }
}

/// The hyphenated form has 36 characters: hyphens after 8, 4, 4 and 4 digits, and
/// elsewhere the hexadecimal digits of the identifier, the most significant first and
/// the letters in lower case.
pub proof fn hyphenated_form_shows_every_digit(id: u128, i: int)
    requires
        0 <= i < 36,
    ensures
        hyphenated(id).len() == 36,
        hyphenated(id)[i] == '-' <==> i == 8 || i == 13 || i == 18 || i == 23,
        !(i == 8 || i == 13 || i == 18 || i == 23) ==> {
            let before = (if i > 23 {
                4int
            } else if i > 18 {
                3
            } else if i > 13 {
                2
            } else if i > 8 {
                1
            } else {
                0
            });
            let digit = id as nat / place((31 - (i - before)) as nat) % 16;
            hyphenated(id)[i] as u32 == (if digit < 10 {
                48 + digit
            } else {
                87 + digit
            })
        },
{
    let d = hex_digits(id as nat, 32);
    hex_digits_have_length(id as nat, 32);
    if !(i == 8 || i == 13 || i == 18 || i == 23) {
        let before = (if i > 23 {
            4int
        } else if i > 18 {
            3
        } else if i > 13 {
            2
        } else if i > 8 {
            1
        } else {
            0
        });
        let j = i - before;
        assert(hyphenated(id)[i] == d[j]);
        hex_digits_are_places(id as nat, 32, j);
    }
}

} // verus!
