use vstd::prelude::*;

verus! {

/// A stored record: an identifier assigned by the store, a name and an age.
#[derive(Clone, Debug)]
pub struct User {
    pub id: String,
    pub name: String,
    pub age: i32,
}

/// The fields a caller supplies when creating or replacing a record.
#[derive(Clone, Debug)]
pub struct CreateUser {
    pub name: String,
    pub age: i32,
}

/// Body of a create or update request.
#[derive(Clone, Debug)]
pub struct CreateUserRequest {
    pub name: String,
    pub age: i32,
}

/// Body of a reply that carries one record.
#[derive(Clone, Debug)]
pub struct UserResponse {
    pub id: String,
    pub name: String,
    pub age: i32,
}

/// Body of a reply that carries an error message.
#[derive(Clone, Debug)]
pub struct ErrorResponse {
    pub error: String,
}

/// Largest accepted age, exclusive.
pub const AGE_LIMIT: i32 = 150;

/// Whether `c` is a white-space character in the sense of Unicode's
/// `White_Space` property.
pub uninterp spec fn white_space(c: char) -> bool;

/// A name is blank when it holds nothing but white space, i.e. when trimming
/// it leaves the empty string.
pub open spec fn blank(s: Seq<char>) -> bool {
    forall|i: int| 0 <= i < s.len() ==> white_space(#[trigger] s[i])
}

/// What a write accepts: a name that is not blank and an age strictly
/// between zero and the limit.
pub open spec fn valid_input(name: Seq<char>, age: i32) -> bool {
    !blank(name) && 0 < age && age < AGE_LIMIT
}

/// Relies on `char::is_whitespace`: the answer depends on the character alone.
#[verifier::external_body]
fn is_white_space(c: char) -> (r: bool)
    ensures
        r == white_space(c),
{
    c.is_whitespace()
}

/// Whether `s` holds only white space.
pub fn is_blank(s: &str) -> (r: bool)
    ensures
        r == blank(s@),
{
    let n: usize = s.unicode_len();
    let mut i: usize = 0;
    while i < n
        invariant
            n == s@.len(),
            i <= n,
            forall|j: int| 0 <= j < i ==> white_space(#[trigger] s@[j]),
        decreases n - i,
    {
        if !is_white_space(s.get_char(i)) {
            return false;
        }
        i = i + 1;
    }
    true
}

/// Whether `age` lies strictly between zero and the limit.
pub fn age_in_range(age: i32) -> (r: bool)
    ensures
        r == (0 < age && age < AGE_LIMIT),
{
    0 < age && age < AGE_LIMIT
}

impl User {
    /// A copy of the record, field for field.
    pub fn duplicate(&self) -> (r: User)
        ensures
            r == *self,
    {
        User { id: self.id.clone(), name: self.name.clone(), age: self.age }
    }

    /// The reply body that shows this record.
    pub fn to_response(self) -> (r: UserResponse)
        ensures
            r.id == self.id,
            r.name == self.name,
            r.age == self.age,
    {
        UserResponse { id: self.id, name: self.name, age: self.age }
    }
}

impl CreateUserRequest {
    /// The fields of the request, ready to be written.
    pub fn into_fields(self) -> (r: CreateUser)
        ensures
            r.name == self.name,
            r.age == self.age,
    {
        CreateUser { name: self.name, age: self.age }
    }
}

impl CreateUser {
    /// A copy of the fields.
    pub fn duplicate(&self) -> (r: CreateUser)
        ensures
            r == *self,
    {
        CreateUser { name: self.name.clone(), age: self.age }
    }
}

} // verus!
