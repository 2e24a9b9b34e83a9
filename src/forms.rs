use vstd::prelude::*;
use vstd::string::StrSliceExecFns;
use vstd::utf8::*;

verus! {

/// Shortest accepted display name, in bytes.
pub const NAME_MIN_LEN: usize = 2;

/// Longest accepted display name, in bytes.
pub const NAME_MAX_LEN: usize = 100;

/// Shortest accepted password, in bytes.
pub const PASSWORD_MIN_LEN: usize = 8;

/// The two kinds of identifier; also the discriminant stored with each one.
#[derive(PartialEq, Eq, Structural, Clone, Copy, Debug)]
pub enum IdentifierKind {
    Email,
    Mobile,
}

impl IdentifierKind {
    pub open spec fn spec_name(self) -> Seq<char> {
        match self {
            IdentifierKind::Email => "email"@,
            IdentifierKind::Mobile => "mobile"@,
        }
    }

    /// The discriminant tag, which is also the name of the conflicting field
    /// in a uniqueness error.
    pub fn as_str(&self) -> (r: &'static str)
        ensures
            r@ == self.spec_name(),
    {
        match self {
            IdentifierKind::Email => "email",
            IdentifierKind::Mobile => "mobile",
        }
    }
}

/// What a user signs in with: an email address or a mobile number.
#[derive(Clone, Debug)]
pub enum Identifier {
    Email(String),
    Mobile(String),
}

impl View for Identifier {
    type V = (IdentifierKind, Seq<char>);

    open spec fn view(&self) -> (IdentifierKind, Seq<char>) {
        match self {
            Identifier::Email(s) => (IdentifierKind::Email, s@),
            Identifier::Mobile(s) => (IdentifierKind::Mobile, s@),
        }
    }
}

impl Identifier {
    pub fn kind(&self) -> (r: IdentifierKind)
        ensures
            r == self@.0,
    {
        match self {
            Identifier::Email(_) => IdentifierKind::Email,
            Identifier::Mobile(_) => IdentifierKind::Mobile,
        }
    }

    pub fn value(&self) -> (r: &String)
        ensures
            r@ == self@.1,
    {
        match self {
            Identifier::Email(s) => s,
            Identifier::Mobile(s) => s,
        }
    }

    pub fn duplicate(&self) -> (r: Identifier)
        ensures
            r@ == self@,
    {
        match self {
            Identifier::Email(s) => Identifier::Email(s.clone()),
            Identifier::Mobile(s) => Identifier::Mobile(s.clone()),
        }
    }

    /// Same kind and same value.
    pub fn same_as(&self, other: &Identifier) -> (r: bool)
        ensures
            r == (self@ == other@),
    {
        let same_kind = self.kind() == other.kind();
        let same_value = *self.value() == *other.value();
        proof {
            if same_kind && same_value {
                assert(self@ =~= other@);
            }
        }
        same_kind && same_value
    }
}

/// Whether garde's email rule (`garde::rules::email::parse_email`) accepts a
/// string.
pub uninterp spec fn garde_email_accepts(s: Seq<char>) -> bool;

/// Relies on garde's `parse_email`, the check behind its `email` rule.
#[verifier::external_body]
fn email_is_valid(s: &str) -> (r: bool)
    ensures
        r == garde_email_accepts(s@),
{
    garde::rules::email::parse_email(s).is_ok()
}

/// Length in bytes of the UTF-8 encoding.
pub open spec fn byte_len(s: Seq<char>) -> int {
    encode_utf8(s).len() as int
}

pub open spec fn is_digit(c: char) -> bool {
    '0' <= c && c <= '9'
}

/// Ten digits, the first of them 6 to 9.
pub open spec fn is_mobile_number(s: Seq<char>) -> bool {
    &&& s.len() == 10
    &&& '6' <= s[0] && s[0] <= '9'
    &&& forall|i: int| 1 <= i < s.len() ==> is_digit(#[trigger] s[i])
}

pub open spec fn identifier_is_valid(id: (IdentifierKind, Seq<char>)) -> bool {
    match id.0 {
        IdentifierKind::Email => garde_email_accepts(id.1),
        IdentifierKind::Mobile => is_mobile_number(id.1),
    }
}

pub open spec fn name_is_valid(name: Seq<char>) -> bool {
    NAME_MIN_LEN <= byte_len(name) <= NAME_MAX_LEN
}

pub open spec fn password_is_valid(password: Seq<char>) -> bool {
    byte_len(password) >= PASSWORD_MIN_LEN
}

/// One violated rule of a form, attributed to its field.
#[derive(PartialEq, Eq, Structural, Clone, Copy, Debug)]
pub enum FieldIssue {
    NameLength,
    InvalidEmail,
    InvalidMobile,
    PasswordTooShort,
}

impl FieldIssue {
    pub open spec fn spec_field(self) -> Seq<char> {
        match self {
            FieldIssue::NameLength => "name"@,
            FieldIssue::InvalidEmail => "identifier"@,
            FieldIssue::InvalidMobile => "identifier"@,
            FieldIssue::PasswordTooShort => "password"@,
        }
    }

    /// The form field that the issue is about.
    pub fn field(&self) -> (r: &'static str)
        ensures
            r@ == self.spec_field(),
    {
        match self {
            FieldIssue::NameLength => "name",
            FieldIssue::InvalidEmail => "identifier",
            FieldIssue::InvalidMobile => "identifier",
            FieldIssue::PasswordTooShort => "password",
        }
    }

    pub open spec fn spec_message(self) -> Seq<char> {
        match self {
            FieldIssue::NameLength => "length must be between 2 and 100"@,
            FieldIssue::InvalidEmail => "not a valid email"@,
            FieldIssue::InvalidMobile => "not a valid mobile number"@,
            FieldIssue::PasswordTooShort => "length must be at least 8"@,
        }
    }

    /// A message that can be shown next to the field.
    pub fn message(&self) -> (r: &'static str)
        ensures
            r@ == self.spec_message(),
    {
        match self {
            FieldIssue::NameLength => "length must be between 2 and 100",
            FieldIssue::InvalidEmail => "not a valid email",
            FieldIssue::InvalidMobile => "not a valid mobile number",
            FieldIssue::PasswordTooShort => "length must be at least 8",
        }
    }
}

/// The issue with an identifier, if any.
pub open spec fn identifier_issue(id: (IdentifierKind, Seq<char>)) -> Option<FieldIssue> {
    if identifier_is_valid(id) {
        None
    } else {
        match id.0 {
            IdentifierKind::Email => Some(FieldIssue::InvalidEmail),
            IdentifierKind::Mobile => Some(FieldIssue::InvalidMobile),
        }
    }
}

pub open spec fn with_issue(issues: Seq<FieldIssue>, issue: Option<FieldIssue>) -> Seq<
    FieldIssue,
> {
    match issue {
        Some(i) => issues.push(i),
        None => issues,
    }
}

/// All the issues of a registration form, in field order: name, identifier,
/// password.
pub open spec fn registration_issues(
    name: Seq<char>,
    id: (IdentifierKind, Seq<char>),
    password: Seq<char>,
) -> Seq<FieldIssue> {
    let a = if name_is_valid(name) {
        Seq::empty()
    } else {
        seq![FieldIssue::NameLength]
    };
    let b = with_issue(a, identifier_issue(id));
    if password_is_valid(password) {
        b
    } else {
        b.push(FieldIssue::PasswordTooShort)
    }
}

/// All the issues of a login form, in field order: identifier, password.
pub open spec fn login_issues(id: (IdentifierKind, Seq<char>), password: Seq<char>) -> Seq<
    FieldIssue,
> {
    let b = with_issue(Seq::empty(), identifier_issue(id));
    if password_is_valid(password) {
        b
    } else {
        b.push(FieldIssue::PasswordTooShort)
    }
}

fn mobile_is_valid(s: &str) -> (r: bool)
    ensures
        r == is_mobile_number(s@),
{
    let n: usize = s.unicode_len();
    if n != 10 {
        return false;
    }
    let first = s.get_char(0);
    if !('6' <= first && first <= '9') {
        return false;
    }
    let mut i: usize = 1;
    while i < n
        invariant
            n == s@.len(),
            1 <= i <= n,
            forall|j: int| 1 <= j < i ==> is_digit(#[trigger] s@[j]),
        decreases n - i,
    {
        let c = s.get_char(i);
        if !('0' <= c && c <= '9') {
            return false;
        }
        i = i + 1;
    }
    true
}

fn check_identifier(id: &Identifier) -> (r: Option<FieldIssue>)
    ensures
        r == identifier_issue(id@),
{
    match id {
        Identifier::Email(s) => {
            if email_is_valid(s.as_str()) {
                None
            } else {
                Some(FieldIssue::InvalidEmail)
            }
        },
        Identifier::Mobile(s) => {
            if mobile_is_valid(s.as_str()) {
                None
            } else {
                Some(FieldIssue::InvalidMobile)
            }
        },
    }
}

fn byte_length(s: &String) -> (r: usize)
    ensures
        r == byte_len(s@),
{
    s.as_str().as_bytes().len()
}

/// Input of the registration form.
#[derive(Clone, Debug)]
pub struct RegistrationFormData {
    pub name: String,
    pub identifier: Identifier,
    pub password: String,
}

impl RegistrationFormData {
    pub open spec fn spec_issues(&self) -> Seq<FieldIssue> {
        registration_issues(self.name@, self.identifier@, self.password@)
    }

    /// Checks the shape of each field: a name of 2 to 100 bytes, a valid
    /// identifier, a password of at least 8 bytes. The error lists every
    /// violated rule, in field order.
    pub fn validate(&self) -> (r: Result<(), Vec<FieldIssue>>)
        ensures
            r is Ok <==> self.spec_issues().len() == 0,
            r matches Err(v) ==> v@ == self.spec_issues(),
    {
        let mut issues: Vec<FieldIssue> = Vec::new();
        let n = byte_length(&self.name);
        if n < NAME_MIN_LEN || n > NAME_MAX_LEN {
            issues.push(FieldIssue::NameLength);
        }
        match check_identifier(&self.identifier) {
            Some(issue) => issues.push(issue),
            None => {},
        }
        if byte_length(&self.password) < PASSWORD_MIN_LEN {
            issues.push(FieldIssue::PasswordTooShort);
        }
        assert(issues@ =~= self.spec_issues());
        if issues.len() == 0 {
            Ok(())
        } else {
            Err(issues)
        }
    }
}

/// Input of the login form.
#[derive(Clone, Debug)]
pub struct LoginFormData {
    pub identifier: Identifier,
    pub password: String,
}

impl LoginFormData {
    pub open spec fn spec_issues(&self) -> Seq<FieldIssue> {
        login_issues(self.identifier@, self.password@)
    }

    /// Checks a valid identifier and a password of at least 8 bytes.
    pub fn validate(&self) -> (r: Result<(), Vec<FieldIssue>>)
        ensures
            r is Ok <==> self.spec_issues().len() == 0,
            r matches Err(v) ==> v@ == self.spec_issues(),
    {
        let mut issues: Vec<FieldIssue> = Vec::new();
        match check_identifier(&self.identifier) {
            Some(issue) => issues.push(issue),
            None => {},
        }
        if byte_length(&self.password) < PASSWORD_MIN_LEN {
            issues.push(FieldIssue::PasswordTooShort);
        }
        assert(issues@ =~= self.spec_issues());
        if issues.len() == 0 {
            Ok(())
        } else {
            Err(issues)
        }
    }
}

} // verus!
