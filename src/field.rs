use vstd::prelude::*;
use vstd::string::StrSliceExecFns;
use vstd::string::StringExecFns;

verus! {

/// The characters that carry the Unicode `White_Space` property, the set that
/// `char::is_whitespace` (and so `str::trim`) recognises.
pub open spec fn is_white_space(c: char) -> bool {
    let n = c as u32;
    (0x9 <= n && n <= 0xd) || n == 0x20 || n == 0x85 || n == 0xa0 || n == 0x1680 || (0x2000 <= n
        && n <= 0x200a) || n == 0x2028 || n == 0x2029 || n == 0x202f || n == 0x205f || n == 0x3000
}

/// A text is blank when trimming white space from both ends leaves nothing,
/// that is when every one of its characters is white space.
pub open spec fn is_blank(s: Seq<char>) -> bool {
    forall|i: int| 0 <= i < s.len() ==> is_white_space(#[trigger] s[i])
}

/// The message that comes with a rejected title.
pub open spec fn invalid_title_message(s: Seq<char>) -> Seq<char> {
    s + " is not a valid subscriber name."@
}

pub fn is_white_space_char(c: char) -> (r: bool)
    ensures
        r == is_white_space(c),
{
    let n = c as u32;
    (0x9 <= n && n <= 0xd) || n == 0x20 || n == 0x85 || n == 0xa0 || n == 0x1680 || (0x2000 <= n
        && n <= 0x200a) || n == 0x2028 || n == 0x2029 || n == 0x202f || n == 0x205f || n == 0x3000
}

/// Whether `s.trim()` would be empty.
pub fn is_blank_text(s: &str) -> (r: bool)
    ensures
        r == is_blank(s@),
{
    let len = s.unicode_len();
    let mut i: usize = 0;
    while i < len
        invariant
            len == s@.len(),
            i <= len,
            forall|j: int| 0 <= j < i ==> is_white_space(#[trigger] s@[j]),
        decreases len - i,
    {
        if !is_white_space_char(s.get_char(i)) {
            return false;
        }
        i = i + 1;
    }
    true
}

/// A title that has passed validation: it is not blank. `parse` is the only
/// way to make one, and it keeps the text exactly as it was given.
pub struct TitleField(String);

impl View for TitleField {
    type V = Seq<char>;

    closed spec fn view(&self) -> Seq<char> {
        self.0@
    }
}

impl TitleField {
    pub fn parse(s: String) -> (r: Result<TitleField, String>)
        ensures
            r is Ok <==> !is_blank(s@),
            r matches Ok(t) ==> t@ == s@,
            r matches Err(e) ==> e@ == invalid_title_message(s@),
    {
        if is_blank_text(s.as_str()) {
            Err(s.concat(" is not a valid subscriber name."))
        } else {
            Ok(TitleField(s))
        }
    }

    pub fn inner(self) -> (r: String)
        ensures
            r@ == self@,
    {
        self.0
    }

    pub fn inner_mut(&mut self) -> (r: &mut str)
        ensures
            r@ == old(self)@,
            final(self)@ == final(r)@,
    {
        string_as_mut_str(&mut self.0)
    }

    pub fn inner_ref(&self) -> (r: &str)
        ensures
            r@ == self@,
    {
        self.0.as_str()
    }
}

/// A fresh copy of a title's text.
pub(crate) fn title_text(t: &TitleField) -> (r: String)
    ensures
        r@ == t@,
{
    t.inner_ref().to_owned()
}

/// Relies on `String::as_mut_str`: the slice is the string's own text, and
/// what is written through it is what the string then holds.
#[verifier::external_body]
fn string_as_mut_str(s: &mut String) -> (r: &mut str)
    ensures
        r@ == old(s)@,
        final(s)@ == final(r)@,
{
    s.as_mut_str()
}

pub open spec fn opt_view(o: Option<String>) -> Option<Seq<char>> {
    match o {
        Some(s) => Some(s@),
        None => None,
    }
}

pub(crate) fn copy_text(s: &String) -> (r: String)
    ensures
        r@ == s@,
{
    s.clone()
}

pub(crate) fn copy_opt_text(o: &Option<String>) -> (r: Option<String>)
    ensures
        opt_view(r) == opt_view(*o),
{
    match o {
        Some(s) => Some(s.clone()),
        None => None,
    }
}

/// The decimal digits of a natural number, most significant first.
pub open spec fn decimal_digits(n: nat) -> Seq<char>
    decreases n,
{
    let digit = seq!['0', '1', '2', '3', '4', '5', '6', '7', '8', '9'][(n % 10) as int];
    if n < 10 {
        seq![digit]
    } else {
        decimal_digits(n / 10).push(digit)
    }
}

/// An integer written in decimal, with a leading `-` when it is negative.
pub open spec fn decimal_text(n: int) -> Seq<char> {
    if n < 0 {
        seq!['-'] + decimal_digits((-n) as nat)
    } else {
        decimal_digits(n as nat)
    }
}

/// Relies on the `Display` of `i32` (through `to_string`), which writes the
/// number in decimal, with a `-` before a negative one.
#[verifier::external_body]
pub(crate) fn i32_text(n: i32) -> (r: String)
    ensures
        r@ == decimal_text(n as int),
{
    n.to_string()
}

/// The body of a reply that carries no payload.
pub struct Response {
    pub status: String,
    pub message: String,
}

/// The body of a reply that carries a payload.
pub struct ResponseWithData<T> {
    pub status: String,
    pub message: String,
    pub data: T,
}

impl Response {
    /// The envelope of a rejected request.
    pub fn bad_request(message: &str) -> (r: Response)
        ensures
            r.status@ == "Bad Request"@,
            r.message@ == message@,
    {
        Response { status: String::from_str("Bad Request"), message: message.to_owned() }
    }

    /// The envelope of a request for a row that does not exist.
    pub fn not_found(message: String) -> (r: Response)
        ensures
            r.status@ == "Not Found"@,
            r.message@ == message@,
    {
        Response { status: String::from_str("Not Found"), message }
    }
}

impl<T> ResponseWithData<T> {
    /// The envelope of a request that succeeded, around its payload.
    pub fn success(data: T) -> (r: ResponseWithData<T>)
        ensures
            r.status@ == "Success"@,
            r.message@ == "Success"@,
            r.data == data,
    {
        ResponseWithData { status: String::from_str("Success"), message: String::from_str("Success"), data }
    }
}

} // verus!
