use vstd::prelude::*;
use vstd::string::StringExecFns;

verus! {

/// One inventory line: the quantity of one floss code owned by one user.
#[derive(Debug)]
pub struct Thread {
    pub floss: i32,
    pub amount: i32,
    pub name: String,
    pub color: String,
}

impl Thread {
    /// A deep copy equal to `self` field by field.
    pub fn duplicate(&self) -> (r: Thread)
        ensures
            r == *self,
    {
        Thread {
            floss: self.floss,
            amount: self.amount,
            name: self.name.clone(),
            color: self.color.clone(),
        }
    }
}

/// A resolved session identity: proof that a cookie-carried user id still
/// names a real account.
#[derive(Clone, Copy, PartialEq, Eq, Structural, Debug)]
pub struct ExistingUser {
    pub user_id: i32,
}

/// The credentials a signup or login form submits.
pub struct NewUser {
    pub username: String,
    pub password: String,
}

impl NewUser {
    pub fn new(username: String, password: String) -> (r: NewUser)
        ensures
            r.username == username,
            r.password == password,
    {
        NewUser { username, password }
    }

    /// A JSON-like rendering of the submitted credentials, for diagnostic
    /// responses.
    pub fn to_json_string(&self) -> (r: String)
        ensures
            r@ == "{\"data\": \"username: "@ + self.username@ + ", password: "@ + self.password@
                + "\"}"@,
    {
        let mut r = String::from_str("{\"data\": \"username: ");
        r.append(self.username.as_str());
        r.append(", password: ");
        r.append(self.password.as_str());
        r.append("\"}");
        proof {
            assert(r@ =~= "{\"data\": \"username: "@ + self.username@ + ", password: "@
                + self.password@ + "\"}"@);
        }
        r
    }
}

/// The direction of a single-thread update.
#[derive(Clone, Copy, PartialEq, Eq, Structural, Debug)]
pub enum UpdateThreadOptions {
    Increment,
    Decrement,
}

/// The command the front end sends when one thread's increment or decrement
/// button is clicked.
pub struct UpdateThreadMessage {
    pub floss: i32,
    pub name: String,
    pub color: String,
    pub action: UpdateThreadOptions,
}

impl UpdateThreadMessage {
    pub fn new(floss: i32, name: String, color: String, action: UpdateThreadOptions) -> (r:
        UpdateThreadMessage)
        ensures
            r.floss == floss && r.name == name && r.color == color && r.action == action,
    {
        UpdateThreadMessage { floss, name, color, action }
    }
}

/// Why a row could not be mapped from a database result row.
#[derive(Clone, Copy, PartialEq, Eq, Structural, Debug)]
pub enum RowError {
    DataMissing,
    TypeMismatch,
}

/// Why a signup could not create the account.
#[derive(Clone, Copy, PartialEq, Eq, Structural, Debug)]
pub enum SignupError {
    DuplicateUsername,
    StoreFailure,
}

impl SignupError {
    /// The client-visible error text, as the 400-class response body.
    pub fn message(&self) -> (r: String)
        ensures
            *self is DuplicateUsername ==> r@ == "Unable to create user: duplicate username"@,
            *self is StoreFailure ==> r@ == "Unable to create user: the user id space is exhausted"@,
    {
        match self {
            SignupError::DuplicateUsername => String::from_str(
                "Unable to create user: duplicate username",
            ),
            SignupError::StoreFailure => String::from_str(
                "Unable to create user: the user id space is exhausted",
            ),
        }
    }
}

/// Why a single-thread update was rejected.
#[derive(Clone, Copy, PartialEq, Eq, Structural, Debug)]
pub enum UpdateError {
    NotFound,
    StoreFailure,
}

impl UpdateError {
    /// The client-visible error text, as the 400-class response body.
    pub fn message(&self) -> (r: String)
        ensures
            *self is NotFound ==> r@ == "Unable to decrement a non-existent thread"@,
            *self is StoreFailure ==> r@ == "Thread amount is out of range"@,
    {
        match self {
            UpdateError::NotFound => String::from_str("Unable to decrement a non-existent thread"),
            UpdateError::StoreFailure => String::from_str("Thread amount is out of range"),
        }
    }
}

} // verus!
